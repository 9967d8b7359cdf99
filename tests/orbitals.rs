use vmc::error::VmcError;
use vmc::orbitals::{a, orbital_table, Fraction, QuantumState, Spin, MAX_PARTICLES};

#[test]
fn table_of_twenty_particles() {
    let want = [
        (0, 0), (0, 0), (1, 0), (1, 0), (0, 1), (0, 1), (2, 0), (2, 0), (1, 1), (1, 1),
        (0, 2), (0, 2), (3, 0), (3, 0), (2, 1), (2, 1), (1, 2), (1, 2), (0, 3), (0, 3),
    ];
    let table = orbital_table(MAX_PARTICLES).unwrap();
    assert_eq!(table.len(), 20);
    for (i, (nx, ny)) in want.iter().enumerate() {
        let spin = if i % 2 == 0 { Spin::Up } else { Spin::Down };
        assert_eq!(table[i], QuantumState { nx: *nx, ny: *ny, spin });
    }
}

#[test]
fn too_many_particles() {
    assert_eq!(orbital_table(21), Err(VmcError::TooManyParticles));
    assert_eq!(orbital_table(0).unwrap().len(), 0);
}

#[test]
fn jastrow_pair_coefficient() {
    let third = Fraction { numerator: 1, denominator: 3 };
    let one = Fraction { numerator: 1, denominator: 1 };
    assert_eq!(a(0, 1, 4), third);
    assert_eq!(a(2, 3, 4), third);
    assert_eq!(a(0, 3, 4), one);
    assert_eq!(a(3, 1, 4), one);
    assert_eq!(a(0, 1, 2), one);
}
