//! The chunks around a chunk being simulated, searched by the chunk key of a position.
use super::canvas::paint;
use super::chunk::{cell_index, chunk_coordinate, get_chunk_key, Chunk};
use super::{GridPosition, Particle, ParticleState};
use vstd::prelude::*;

verus! {

/// Whether `chunk` is the chunk that holds `position`.
pub open spec fn holds<P>(chunk: Chunk<P>, position: GridPosition) -> bool {
    chunk.position.x == chunk_coordinate(position.x) && chunk.position.y == chunk_coordinate(
        position.y,
    )
}

/// Whether `index` is the first chunk of `chunks` that holds `position`.
pub open spec fn is_first_holder<P>(chunks: Seq<Chunk<P>>, position: GridPosition, index: int) -> bool {
    &&& 0 <= index < chunks.len()
    &&& holds(chunks[index], position)
    &&& forall|j: int| 0 <= j < index ==> !holds(#[trigger] chunks[j], position)
}

/// Whether some chunk of `chunks` holds `position`.
pub open spec fn has_holder<P>(chunks: Seq<Chunk<P>>, position: GridPosition) -> bool {
    exists|j: int| 0 <= j < chunks.len() && holds(#[trigger] chunks[j], position)
}

/// The chunks that one step of the simulation may touch: a chunk and its neighbours.
pub struct LocalChunks<P> {
    pub chunks: Vec<Chunk<P>>,
}

impl<P> LocalChunks<P> {
    /// Every chunk is well formed.
    pub open spec fn wf(&self) -> bool {
        forall|i: int| 0 <= i < self.chunks@.len() ==> (#[trigger] self.chunks@[i]).wf()
    }

    /// The chunks, searched in order.
    pub fn new(chunks: Vec<Chunk<P>>) -> (local: Self)
        ensures
            local.chunks@ == chunks@,
    {
        LocalChunks { chunks }
    }

    /// Index of the first chunk that holds `position`.
    fn find_chunk(&self, position: GridPosition) -> (index: Option<usize>)
        ensures
            match index {
                Some(i) => is_first_holder(self.chunks@, position, i as int),
                None => !has_holder(self.chunks@, position),
            },
    {
        let key = get_chunk_key(position);
        let mut index: usize = 0;
        while index < self.chunks.len()
            invariant
                index <= self.chunks@.len(),
                key.x == chunk_coordinate(position.x),
                key.y == chunk_coordinate(position.y),
                forall|j: int| 0 <= j < index ==> !holds(#[trigger] self.chunks@[j], position),
            decreases self.chunks@.len() - index,
        {
            if self.chunks[index].position == key {
                return Some(index);
            }
            index = index + 1;
        }
        None
    }

    /// Whether some chunk holds `position`.
    pub fn is_position_valid(&self, position: GridPosition) -> (valid: bool)
        ensures
            valid == has_holder(self.chunks@, position),
    {
        self.find_chunk(position).is_some()
    }

    /// The particle at `position`, looked up in the first chunk that holds the position.
    pub fn get_particle(&self, position: GridPosition) -> (particle: Option<&Particle<P>>)
        requires
            self.wf(),
        ensures
            match particle {
                Some(p) => exists|i: int|
                    is_first_holder(self.chunks@, position, i) && #[trigger] self.chunks@[i].contents().contains_key(
                        cell_index(position, self.chunks@[i].chunk_size),
                    ) && *p == self.chunks@[i].contents()[cell_index(
                        position,
                        self.chunks@[i].chunk_size,
                    )].1,
                None => forall|i: int|
                    is_first_holder(self.chunks@, position, i) ==> !(#[trigger] self.chunks@[i]).contents().contains_key(
                        cell_index(position, self.chunks@[i].chunk_size),
                    ),
            },
    {
        match self.find_chunk(position) {
            Some(index) => self.chunks[index].get_particle(position),
            None => None,
        }
    }

    /// Adds a particle at `position`, kept with that position, to the first chunk that
    /// holds the position; does nothing when no chunk holds it.
    pub fn add_particle(
        &mut self,
        position: GridPosition,
        state: ParticleState,
        particle: P,
        color: [u8; 4],
    )
        requires
            old(self).wf(),
            state != ParticleState::Unknown,
            forall|i: int|
                is_first_holder(old(self).chunks@, position, i) ==> {
                    &&& !(#[trigger] old(self).chunks@[i]).contents().contains_key(
                        cell_index(position, old(self).chunks@[i].chunk_size),
                    )
                    &&& old(self).chunks@[i].storage_view(state).len() < usize::MAX
                },
        ensures
            final(self).wf(),
            final(self).chunks@.len() == old(self).chunks@.len(),
            !has_holder(old(self).chunks@, position) ==> final(self).chunks@ == old(self).chunks@,
            forall|i: int|
                is_first_holder(old(self).chunks@, position, i) ==> {
                    &&& (#[trigger] final(self).chunks@[i]).contents() == old(self).chunks@[i].contents().insert(
                        cell_index(position, old(self).chunks@[i].chunk_size),
                        (state, Particle { position, data: particle }),
                    )
                    &&& final(self).chunks@[i].canvas.texture_data@ == paint(
                        old(self).chunks@[i].canvas.texture_data@,
                        cell_index(position, old(self).chunks@[i].chunk_size),
                        color,
                    )
                    &&& final(self).chunks@[i].position == old(self).chunks@[i].position
                    &&& final(self).chunks@[i].chunk_size == old(self).chunks@[i].chunk_size
                    &&& final(self).chunks@[i].active
                    &&& forall|j: int|
                        0 <= j < old(self).chunks@.len() && j != i ==> #[trigger] final(self).chunks@[j] == old(self).chunks@[j]
                },
    {
        match self.find_chunk(position) {
            Some(index) => {
                self.chunks[index].add_particle(position, state, particle, color);
            },
            None => {},
        }
    }

    /// Removes and returns the particle at `position` from the first chunk that holds the
    /// position, if any.
    pub fn remove_particle(&mut self, position: GridPosition) -> (particle: Option<Particle<P>>)
        requires
            old(self).wf(),
        ensures
            final(self).wf(),
            final(self).chunks@.len() == old(self).chunks@.len(),
            !has_holder(old(self).chunks@, position) ==> final(self).chunks@ == old(self).chunks@
                && particle is None,
            forall|i: int|
                is_first_holder(old(self).chunks@, position, i) ==> {
                    &&& (#[trigger] final(self).chunks@[i]).contents() == old(self).chunks@[i].contents().remove(
                        cell_index(position, old(self).chunks@[i].chunk_size),
                    )
                    &&& match particle {
                        Some(p) => old(self).chunks@[i].contents().contains_key(
                            cell_index(position, old(self).chunks@[i].chunk_size),
                        ) && p == old(self).chunks@[i].contents()[cell_index(
                            position,
                            old(self).chunks@[i].chunk_size,
                        )].1,
                        None => !old(self).chunks@[i].contents().contains_key(
                            cell_index(position, old(self).chunks@[i].chunk_size),
                        ),
                    }
                    &&& final(self).chunks@[i].position == old(self).chunks@[i].position
                    &&& final(self).chunks@[i].chunk_size == old(self).chunks@[i].chunk_size
                    &&& forall|j: int|
                        0 <= j < old(self).chunks@.len() && j != i ==> #[trigger] final(self).chunks@[j] == old(self).chunks@[j]
                },
    {
        match self.find_chunk(position) {
            Some(index) => self.chunks[index].remove_particle(position),
            None => None,
        }
    }

    /// Replaces the particle at `position` in the first chunk that holds the position by
    /// `particle`, kept with that position and the state of the one it replaces, and returns
    /// the previous one; `None`, with nothing changed, when there is no particle there.
    pub fn replace_particle(&mut self, position: GridPosition, particle: P) -> (previous: Option<Particle<P>>)
        requires
            old(self).wf(),
        ensures
            final(self).wf(),
            final(self).chunks@.len() == old(self).chunks@.len(),
            !has_holder(old(self).chunks@, position) ==> final(self).chunks@ == old(self).chunks@
                && previous is None,
            forall|i: int|
                is_first_holder(old(self).chunks@, position, i) ==> {
                    &&& match previous {
                        Some(p) => {
                            &&& old(self).chunks@[i].contents().contains_key(
                                cell_index(position, old(self).chunks@[i].chunk_size),
                            )
                            &&& p == old(self).chunks@[i].contents()[cell_index(
                                position,
                                old(self).chunks@[i].chunk_size,
                            )].1
                            &&& (#[trigger] final(self).chunks@[i]).contents() == old(
                                self,
                            ).chunks@[i].contents().insert(
                                cell_index(position, old(self).chunks@[i].chunk_size),
                                (
                                    old(self).chunks@[i].contents()[cell_index(
                                        position,
                                        old(self).chunks@[i].chunk_size,
                                    )].0,
                                    Particle { position, data: particle },
                                ),
                            )
                        },
                        None => !old(self).chunks@[i].contents().contains_key(
                            cell_index(position, old(self).chunks@[i].chunk_size),
                        ) && final(self).chunks@[i].contents() == old(self).chunks@[i].contents(),
                    }
                    &&& final(self).chunks@[i].active == old(self).chunks@[i].active
                    &&& final(self).chunks@[i].dirty == old(self).chunks@[i].dirty
                    &&& final(self).chunks@[i].canvas == old(self).chunks@[i].canvas
                    &&& final(self).chunks@[i].position == old(self).chunks@[i].position
                    &&& final(self).chunks@[i].chunk_size == old(self).chunks@[i].chunk_size
                    &&& forall|j: int|
                        0 <= j < old(self).chunks@.len() && j != i ==> #[trigger] final(self).chunks@[j] == old(self).chunks@[j]
                },
    {
        match self.find_chunk(position) {
            Some(index) => self.chunks[index].replace_particle(position, particle),
            None => None,
        }
    }

    /// Paints, in the first chunk that holds `position`, the pixel of its cell with `color`.
    pub fn set_particle_color(&mut self, position: GridPosition, color: [u8; 4])
        requires
            old(self).wf(),
        ensures
            final(self).wf(),
            final(self).chunks@.len() == old(self).chunks@.len(),
            !has_holder(old(self).chunks@, position) ==> final(self).chunks@ == old(self).chunks@,
            forall|i: int|
                is_first_holder(old(self).chunks@, position, i) ==> {
                    &&& (#[trigger] final(self).chunks@[i]).canvas.texture_data@ == paint(
                        old(self).chunks@[i].canvas.texture_data@,
                        cell_index(position, old(self).chunks@[i].chunk_size),
                        color,
                    )
                    &&& final(self).chunks@[i] == (Chunk {
                        canvas: final(self).chunks@[i].canvas,
                        ..old(self).chunks@[i]
                    })
                    &&& forall|j: int|
                        0 <= j < old(self).chunks@.len() && j != i ==> #[trigger] final(self).chunks@[j] == old(self).chunks@[j]
                },
    {
        match self.find_chunk(position) {
            Some(index) => self.chunks[index].set_particle_color(position, color),
            None => {},
        }
    }

    /// Marks active the first chunk that holds `position`, if any.
    pub fn mark_chunk_as_active(&mut self, position: GridPosition)
        requires
            old(self).wf(),
        ensures
            final(self).wf(),
            final(self).chunks@.len() == old(self).chunks@.len(),
            !has_holder(old(self).chunks@, position) ==> final(self).chunks@ == old(self).chunks@,
            forall|i: int|
                is_first_holder(old(self).chunks@, position, i) ==> {
                    &&& (#[trigger] final(self).chunks@[i]).active
                    &&& final(self).chunks@[i].contents() == old(self).chunks@[i].contents()
                    &&& final(self).chunks@[i].position == old(self).chunks@[i].position
                    &&& forall|j: int|
                        0 <= j < old(self).chunks@.len() && j != i ==> #[trigger] final(self).chunks@[j] == old(self).chunks@[j]
                },
    {
        match self.find_chunk(position) {
            Some(index) => {
                self.chunks[index].active = true;
            },
            None => {},
        }
    }
}

} // verus!
