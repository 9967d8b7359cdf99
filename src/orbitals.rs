use vstd::prelude::*;
use crate::error::VmcError;

verus! {

/// Spin projection of a particle.
#[derive(Clone, Copy, Debug, PartialEq, Eq, Structural)]
pub enum Spin {
    Up,
    Down,
}

/// The quantum numbers of one particle's orbital in the two-dimensional
/// harmonic trap, with its spin.
#[derive(Clone, Copy, Debug, PartialEq, Eq, Structural)]
pub struct QuantumState {
    pub nx: usize,
    pub ny: usize,
    pub spin: Spin,
}

/// Largest number of particles the orbital table places.
pub const MAX_PARTICLES: usize = 20;

/// The `k`-th orbital `(nx, ny)`: orbitals come shell by shell
/// (`nx + ny = 0, 1, 2, ...`), and within a shell from the largest `nx` down.
pub open spec fn orbital(k: nat) -> (nat, nat)
    decreases k,
{
    if k == 0 {
        (0, 0)
    } else {
        let (nx, ny) = orbital((k - 1) as nat);
        if nx == 0 {
            (ny + 1, 0)
        } else {
            ((nx - 1) as nat, ny + 1)
        }
    }
}

/// Particles fill each orbital twice, spin up first.
pub open spec fn spin_of(i: nat) -> Spin {
    if i % 2 == 0 { Spin::Up } else { Spin::Down }
}

/// The state of particle `i` in the table.
pub open spec fn state_of(i: nat) -> QuantumState {
    QuantumState {
        nx: orbital(i / 2).0 as usize,
        ny: orbital(i / 2).1 as usize,
        spin: spin_of(i),
    }
}

/// Number of orbitals in the shells below shell `s`.
pub open spec fn shells_below(s: nat) -> nat
    decreases s,
{
    if s == 0 { 0 } else { shells_below((s - 1) as nat) + s }
}

/// Position of orbital `(nx, ny)` in the filling order.
pub open spec fn orbital_index(nx: nat, ny: nat) -> nat {
    shells_below(nx + ny) + ny
}

/// The filling order visits orbital `k` at position `k`.
proof fn lemma_orbital_index(k: nat)
    ensures
        orbital_index(orbital(k).0, orbital(k).1) == k,
    decreases k,
{
    if k > 0 {
        let (nx, ny) = orbital((k - 1) as nat);
        lemma_orbital_index((k - 1) as nat);
        if nx == 0 {
            assert(shells_below(ny + 1) == shells_below(ny) + ny + 1);
        }
    }
}

/// No two particles of the table share both orbital and spin: each orbital
/// is filled by one particle of each spin.
pub proof fn lemma_exclusion(i: nat, j: nat)
    requires
        i < MAX_PARTICLES,
        j < MAX_PARTICLES,
        i != j,
    ensures
        state_of(i) != state_of(j),
{
    let (ki, kj) = (i / 2, j / 2);
    if state_of(i) == state_of(j) {
        lemma_orbital_index(ki);
        lemma_orbital_index(kj);
        lemma_orbital_shell_bound(ki);
        lemma_orbital_shell_bound(kj);
        assert(orbital(ki) == orbital(kj));
        assert(ki == kj);
        assert(spin_of(i) == spin_of(j));
    }
}

/// An orbital's shell never exceeds its index.
proof fn lemma_orbital_shell_bound(k: nat)
    ensures
        orbital(k).0 + orbital(k).1 <= k,
    decreases k,
{
    if k > 0 {
        lemma_orbital_shell_bound((k - 1) as nat);
    }
}

/// The quantum states of `n` particles, in filling order; a system of more
/// than `MAX_PARTICLES` particles cannot be placed.
pub fn orbital_table(n: usize) -> (r: Result<Vec<QuantumState>, VmcError>)
    ensures
        n <= MAX_PARTICLES <==> r is Ok,
        n > MAX_PARTICLES ==> r == Err::<Vec<QuantumState>, VmcError>(VmcError::TooManyParticles),
        r is Ok ==> r->Ok_0@.len() == n,
        r is Ok ==> forall|i: int| 0 <= i < n ==> #[trigger] r->Ok_0@[i] == state_of(i as nat),
{
    if n > MAX_PARTICLES {
        return Err(VmcError::TooManyParticles);
    }
    let mut table: Vec<QuantumState> = Vec::new();
    let mut nx: usize = 0;
    let mut ny: usize = 0;
    let mut i: usize = 0;
    while i < n
        invariant
            n <= MAX_PARTICLES,
            i <= n,
            table@.len() == i,
            forall|j: int| 0 <= j < i ==> #[trigger] table@[j] == state_of(j as nat),
            (nx as nat, ny as nat) == orbital((i / 2) as nat),
        decreases n - i,
    {
        proof {
            lemma_orbital_shell_bound((i / 2) as nat);
        }
        let spin = if i % 2 == 0 { Spin::Up } else { Spin::Down };
        table.push(QuantumState { nx, ny, spin });
        if i % 2 == 1 {
            if nx == 0 {
                nx = ny + 1;
                ny = 0;
            } else {
                nx = nx - 1;
                ny = ny + 1;
            }
        }
        i = i + 1;
    }
    Ok(table)
}

/// A rational coefficient.
#[derive(Clone, Copy, Debug, PartialEq, Eq, Structural)]
pub struct Fraction {
    pub numerator: u64,
    pub denominator: u64,
}

/// Particles `i` and `j` of `n` lie in the same half (the first `n / 2`
/// count as spin up), so their pair is a same-spin pair.
pub open spec fn same_spin_pair(i: nat, j: nat, n: nat) -> bool {
    (i < n / 2 && j < n / 2) || (i >= n / 2 && j >= n / 2)
}

/// The Jastrow coefficient of the pair `(i, j)` among `n` particles: one
/// third for a same-spin pair, one otherwise.
pub fn a(i: usize, j: usize, n: usize) -> (r: Fraction)
    ensures
        same_spin_pair(i as nat, j as nat, n as nat) ==> r == (Fraction { numerator: 1, denominator: 3 }),
        !same_spin_pair(i as nat, j as nat, n as nat) ==> r == (Fraction { numerator: 1, denominator: 1 }),
{
    let half = n / 2;
    if (i < half && j < half) || (i >= half && j >= half) {
        Fraction { numerator: 1, denominator: 3 }
    } else {
        Fraction { numerator: 1, denominator: 1 }
    }
}

} // verus!
