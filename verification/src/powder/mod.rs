//! Falling-sand ("powder") simulation: the particle grid's chunks, the world that keeps
//! them, their scheduling, particle moves, structures and their colliders.
pub mod canvas;
pub mod cell_map;
pub mod chunk;
pub mod collider;
pub mod fluid;
pub mod local;
pub mod schedule;
pub mod storage;
pub mod structures;
pub mod velocity;
pub mod world;

use vstd::prelude::*;

verus! {

/// Integer position of a cell of the particle grid, or of a chunk of that grid.
#[derive(Copy, Clone, Debug, Default, PartialEq, Eq, Hash, Structural)]
pub struct GridPosition {
    pub x: i32,
    pub y: i32,
}

impl GridPosition {
    /// Position with the given coordinates.
    pub fn new(x: i32, y: i32) -> (position: Self)
        ensures
            position.x == x,
            position.y == y,
    {
        GridPosition { x, y }
    }
}

/// Aggregate state of the matter a particle is made of.
#[derive(Copy, Clone, Debug, Default, PartialEq, Eq, Structural)]
pub enum ParticleState {
    #[default]
    Unknown,
    Solid,
    Powder,
    Fluid,
}

/// Entry of a chunk's grid: whether a particle is present in the cell, and where it is stored.
#[derive(Copy, Clone, Debug, Default, PartialEq, Eq, Structural)]
pub struct ParticleIndex {
    pub id: usize,
    pub present: bool,
    pub state: ParticleState,
}

/// A particle as a chunk keeps it: the grid position of the cell it was put in, and the
/// rest of its data.
#[derive(Copy, Clone, Debug, PartialEq, Eq)]
pub struct Particle<P> {
    pub position: GridPosition,
    pub data: P,
}

} // verus!
