use vmc::dim::Dim;
use vmc::error::VmcError;
use vmc::matrix::minor;
use vmc::sampling::{particle_index, random_particle_index};
use vmc::setup::{next_placement, uses_slater_matrix, Placement, MAX_PLACEMENTS};

#[test]
fn dimensionality_bounds() {
    assert_eq!(Dim::from_count(0), Err(VmcError::UnsupportedDimension));
    assert_eq!(Dim::from_count(4), Err(VmcError::UnsupportedDimension));
    assert_eq!(Dim::from_count(2).unwrap().count(), 2);
    assert!(Dim::Three.has_axis(2));
    assert!(!Dim::Two.has_axis(2));
}

#[test]
fn mismatched_dimensions_are_an_error() {
    assert_eq!(Dim::Two.matching(&Dim::Three), Err(VmcError::DimensionMismatch));
    assert_eq!(Dim::One.matching(&Dim::One), Ok(Dim::One));
}

#[test]
fn minor_drops_first_row_and_column() {
    let m = vec![vec![1, 2, 3], vec![4, 5, 6], vec![7, 8, 9]];
    assert_eq!(minor(&m, 1), vec![vec![4, 6], vec![7, 9]]);
    assert_eq!(minor(&m, 0), vec![vec![5, 6], vec![8, 9]]);
    assert_eq!(minor(&vec![vec![5]], 0), Vec::<Vec<i32>>::new());
}

#[test]
fn particle_selection() {
    assert_eq!(particle_index(17, 5), 2);
    assert_eq!(particle_index(4, 5), 4);
    for _ in 0..100 {
        assert!(random_particle_index(3) < 3);
    }
}

#[test]
fn error_messages_name_the_problem() {
    assert!(VmcError::TooManyParticles.message().contains("20"));
    assert!(!VmcError::DegenerateDistance.message().is_empty());
}

#[test]
fn placement_decisions() {
    assert!(!uses_slater_matrix(2));
    assert!(uses_slater_matrix(6));
    assert_eq!(next_placement(2, 0, false), Ok(Placement::Accept));
    assert_eq!(next_placement(6, 3, true), Ok(Placement::Accept));
    assert_eq!(next_placement(6, 3, false), Ok(Placement::Retry));
    assert_eq!(
        next_placement(6, MAX_PLACEMENTS - 1, false),
        Err(VmcError::SingularConfiguration)
    );
}
