use vstd::prelude::*;

verus! {

/// Relies on rand::random: a value drawn from the thread-local generator.
/// Nothing is known of the value drawn.
pub assume_specification<T>[ rand::random::<T> ]() -> (r: T)
    where
        rand::distributions::Standard: rand::distributions::Distribution<T>,
;

/// The particle that a draw `draw` selects among `n` particles.
pub fn particle_index(draw: usize, n: usize) -> (r: usize)
    requires
        n > 0,
    ensures
        r == draw % n,
        r < n,
{
    draw % n
}

/// Selects, at random, the particle that a Metropolis step moves.
pub fn random_particle_index(n: usize) -> (r: usize)
    requires
        n > 0,
    ensures
        r < n,
{
    let draw: usize = rand::random::<usize>();
    particle_index(draw, n)
}

} // verus!
