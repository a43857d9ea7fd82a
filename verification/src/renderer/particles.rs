//! Particle emitter parameters.
use vstd::prelude::*;

verus! {

/// A waypoint of a particle property: its base value and how far a particle may vary from it.
pub struct ParticleParameter<T> {
    pub base: T,
    pub variation: T,
}

impl<T> ParticleParameter<T> {
    /// Waypoint with the given base value and variation.
    pub fn new(base: T, variation: T) -> (parameter: ParticleParameter<T>)
        ensures
            parameter.base == base,
            parameter.variation == variation,
    {
        ParticleParameter { base, variation }
    }
}

/// How a particle property moves between waypoints.
#[derive(Copy, Clone, Debug, Default, PartialEq, Eq, Structural)]
pub enum ParticleInterpolation {
    #[default]
    Linear,
    Cosine,
}

} // verus!
