//! Chunks of the particle grid. A chunk stores, for each of its cells, whether a particle
//! occupies it and under which identifier the particle is kept in the storage of its state.
use super::canvas::{blank_pixels, empty_color, paint, CanvasPixels};
use super::storage::{is_first_free, is_occupied, Storage};
use super::{GridPosition, Particle, ParticleIndex, ParticleState};
use vstd::prelude::*;

verus! {

/// Chunk coordinate of a grid coordinate: chunks are 32 cells wide, and the chunk of a
/// negative coordinate is one below the floor of its division by 32.
pub open spec fn chunk_coordinate(v: i32) -> int {
    if v < 0 {
        (v as int) / 32 - 1
    } else {
        (v as int) / 32
    }
}

/// Index of the cell of a chunk of side `chunk_size` where a grid position lands.
pub open spec fn cell_index(position: GridPosition, chunk_size: i32) -> int {
    (position.x & ((chunk_size - 1) as i32)) as int + (position.y & ((chunk_size - 1) as i32)) as int
        * chunk_size as int
}

proof fn lemma_shift_is_floor_division(v: i32)
    ensures
        (v >> 5) as int == (v as int) / 32,
{
    assert((v >> 5) as int == (v as int) / 32) by (bit_vector);
}

proof fn lemma_mask_bounds(v: i32, m: i32)
    requires
        m >= 0,
    ensures
        0 <= (v & m) <= m,
{
    assert(m >= 0 ==> 0 <= (v & m) && (v & m) <= m) by (bit_vector);
}

/// Position of the chunk that holds a grid position.
pub fn get_chunk_key(position: GridPosition) -> (key: GridPosition)
    ensures
        key.x == chunk_coordinate(position.x),
        key.y == chunk_coordinate(position.y),
{
    proof {
        lemma_shift_is_floor_division(position.x);
        lemma_shift_is_floor_division(position.y);
    }
    let mut chunk_position = GridPosition::new(position.x >> 5, position.y >> 5);
    if position.x < 0 {
        chunk_position.x = chunk_position.x - 1;
    }
    if position.y < 0 {
        chunk_position.y = chunk_position.y - 1;
    }
    chunk_position
}

/// The coordinates that a chunk coordinate covers: 32 consecutive ones, starting at
/// `32 * k` for `k >= 0` and at `32 * (k + 1)` for `k <= -2`; no coordinate has the chunk
/// coordinate `-1`.
pub proof fn lemma_chunk_coordinate_range(v: i32)
    ensures
        chunk_coordinate(v) != -1,
        chunk_coordinate(v) >= 0 ==> 32 * chunk_coordinate(v) <= v < 32 * chunk_coordinate(v)
            + 32,
        chunk_coordinate(v) <= -2 ==> 32 * (chunk_coordinate(v) + 1) <= v < 32 * (
        chunk_coordinate(v) + 1) + 32,
{
}

/// Two grid coordinates in the same chunk that land on the same cell coordinate are equal.
pub proof fn lemma_cell_coordinate_unique(a: i32, b: i32)
    requires
        chunk_coordinate(a) == chunk_coordinate(b),
        (a & 31) == (b & 31),
    ensures
        a == b,
{
    assert((a & 31) as int == (a as int) % 32) by (bit_vector);
    assert((b & 31) as int == (b as int) % 32) by (bit_vector);
}

/// Two grid positions in the same chunk of side 32 that land on the same cell are equal.
pub proof fn lemma_cell_unique(a: GridPosition, b: GridPosition)
    requires
        chunk_coordinate(a.x) == chunk_coordinate(b.x),
        chunk_coordinate(a.y) == chunk_coordinate(b.y),
        cell_index(a, 32) == cell_index(b, 32),
    ensures
        a == b,
{
    lemma_mask_bounds(a.x, 31);
    lemma_mask_bounds(a.y, 31);
    lemma_mask_bounds(b.x, 31);
    lemma_mask_bounds(b.y, 31);
    let ax = (a.x & 31) as int;
    let ay = (a.y & 31) as int;
    let bx = (b.x & 31) as int;
    let by_ = (b.y & 31) as int;
    assert(ax == bx && ay == by_) by (nonlinear_arith)
        requires
            0 <= ax < 32,
            0 <= ay < 32,
            0 <= bx < 32,
            0 <= by_ < 32,
            ax + ay * 32 == bx + by_ * 32,
    ;
    lemma_cell_coordinate_unique(a.x, b.x);
    lemma_cell_coordinate_unique(a.y, b.y);
}

/// A square part of the particle grid. Each particle is kept with the position of its
/// cell; `P` is the rest of its data.
pub struct Chunk<P> {
    pub initialized: bool,
    pub active: bool,
    pub dirty: bool,
    pub position: GridPosition,
    pub particles: Vec<ParticleIndex>,
    pub solid: Storage<Particle<P>>,
    pub powder: Storage<Particle<P>>,
    pub fluid: Storage<Particle<P>>,
    pub chunk_size: i32,
    pub particle_size: i32,
    pub pixels_per_meter: i32,
    pub canvas: CanvasPixels,
}

impl<P> Chunk<P> {
    /// Slots of the storage that keeps particles of a given state.
    pub open spec fn storage_view(&self, state: ParticleState) -> Seq<Option<Particle<P>>> {
        match state {
            ParticleState::Solid => self.solid@,
            ParticleState::Powder => self.powder@,
            _ => self.fluid@,
        }
    }

    /// Every present cell names a valid state and an occupied slot of that state's
    /// storage, and no two present cells of one state name the same slot.
    pub open spec fn wf(&self) -> bool {
        &&& 0 < self.chunk_size
        &&& self.chunk_size * self.chunk_size <= i32::MAX
        &&& self.particles@.len() == self.chunk_size * self.chunk_size
        &&& self.canvas.wf()
        &&& self.canvas.chunk_size == self.chunk_size
        &&& forall|i: int|
            #![trigger self.particles@[i]]
            0 <= i < self.particles@.len() && self.particles@[i].present ==> {
                &&& self.particles@[i].state != ParticleState::Unknown
                &&& is_occupied(
                    self.storage_view(self.particles@[i].state),
                    self.particles@[i].id as int,
                )
            }
        &&& forall|i: int, j: int|
            #![trigger self.particles@[i], self.particles@[j]]
            0 <= i < self.particles@.len() && 0 <= j < self.particles@.len() && i != j
                && self.particles@[i].present && self.particles@[j].present
                && self.particles@[i].state == self.particles@[j].state
                ==> self.particles@[i].id != self.particles@[j].id
    }

    /// The particles of the chunk, by cell index: their state, and their position and data.
    pub open spec fn contents(&self) -> Map<int, (ParticleState, Particle<P>)> {
        Map::new(
            |i: int| 0 <= i < self.particles@.len() && self.particles@[i].present,
            |i: int|
                (
                    self.particles@[i].state,
                    self.storage_view(self.particles@[i].state)[self.particles@[i].id as int].unwrap(),
                ),
        )
    }

    /// Empty chunk at the origin whose side is `chunk_size` cells.
    pub fn new(chunk_size: i32, particle_size: i32, pixels_per_meter: i32) -> (chunk: Self)
        requires
            chunk_size * chunk_size <= i32::MAX,
        ensures
            0 < chunk_size ==> chunk.wf(),
            chunk.contents() == Map::<int, (ParticleState, Particle<P>)>::empty(),
            forall|state: ParticleState| #[trigger] chunk.storage_view(state).len() == 0,
            chunk.particles@.len() == chunk_size * chunk_size,
            chunk.chunk_size == chunk_size,
            chunk.particle_size == particle_size,
            chunk.pixels_per_meter == pixels_per_meter,
            chunk.position == (GridPosition { x: 0, y: 0 }),
            !chunk.initialized && !chunk.active && !chunk.dirty,
            0 < chunk_size ==> chunk.canvas.texture_data@ == blank_pixels(
                (chunk_size * chunk_size) as nat,
            ),
    {
        assert(chunk_size * chunk_size >= 0) by (nonlinear_arith);
        let count = (chunk_size * chunk_size) as usize;
        let mut particles: Vec<ParticleIndex> = Vec::new();
        while particles.len() < count
            invariant
                particles@.len() <= count,
                forall|i: int|
                    0 <= i < particles@.len() ==> !(#[trigger] particles@[i]).present,
            decreases count - particles@.len(),
        {
            particles.push(ParticleIndex { id: 0, present: false, state: ParticleState::Unknown });
        }
        let canvas = if chunk_size > 0 {
            CanvasPixels::new(chunk_size)
        } else {
            CanvasPixels { chunk_size, texture_data: Vec::new() }
        };
        let chunk = Chunk {
            initialized: false,
            active: false,
            dirty: false,
            position: GridPosition::new(0, 0),
            particles,
            solid: Storage::new(),
            powder: Storage::new(),
            fluid: Storage::new(),
            chunk_size,
            particle_size,
            pixels_per_meter,
            canvas,
        };
        assert(chunk.contents() =~= Map::<int, (ParticleState, Particle<P>)>::empty());
        chunk
    }

    /// Places the chunk at `chunk_position` and marks it initialized.
    pub fn initialize(&mut self, chunk_position: GridPosition)
        ensures
            final(self).position == chunk_position,
            final(self).initialized,
            final(self).particles == old(self).particles,
            final(self).solid == old(self).solid,
            final(self).powder == old(self).powder,
            final(self).fluid == old(self).fluid,
            final(self).chunk_size == old(self).chunk_size,
            final(self).particle_size == old(self).particle_size,
            final(self).pixels_per_meter == old(self).pixels_per_meter,
            final(self).canvas == old(self).canvas,
            final(self).active == old(self).active,
            final(self).dirty == old(self).dirty,
    {
        self.position = chunk_position;
        self.initialized = true;
    }

    /// Index of the cell where a grid position lands.
    pub fn position_to_index(&self, position: GridPosition) -> (index: usize)
        requires
            self.wf(),
        ensures
            index == cell_index(position, self.chunk_size),
            index < self.particles@.len(),
    {
        let mask = self.chunk_size - 1;
        proof {
            lemma_mask_bounds(position.x, mask);
            lemma_mask_bounds(position.y, mask);
            let cs = self.chunk_size as int;
            let lx = (position.x & mask) as int;
            let ly = (position.y & mask) as int;
            assert(lx + ly * cs < cs * cs) by (nonlinear_arith)
                requires
                    0 <= lx <= cs - 1,
                    0 <= ly <= cs - 1,
                    cs > 0,
            ;
            assert(0 <= ly * cs) by (nonlinear_arith)
                requires
                    0 <= ly,
                    cs > 0,
            ;
            assert(ly * cs <= (cs - 1) * cs) by (nonlinear_arith)
                requires
                    0 <= ly <= cs - 1,
                    cs > 0,
            ;
        }
        ((position.x & mask) + (position.y & mask) * self.chunk_size) as usize
    }

    /// Storage of the particles of a state.
    pub fn get_storage(&self, state: ParticleState) -> (storage: &Storage<Particle<P>>)
        requires
            state != ParticleState::Unknown,
        ensures
            storage@ == self.storage_view(state),
    {
        match state {
            ParticleState::Solid => &self.solid,
            ParticleState::Powder => &self.powder,
            ParticleState::Fluid => &self.fluid,
            ParticleState::Unknown => vstd::pervasive::unreached(),
        }
    }

    /// Whether a particle occupies the cell where `position` lands.
    pub fn particle_exists(&self, position: GridPosition) -> (exists: bool)
        requires
            self.wf(),
        ensures
            exists == self.contents().contains_key(cell_index(position, self.chunk_size)),
    {
        let index = self.position_to_index(position);
        self.particles[index].present
    }

    /// State of the particle in the cell where `position` lands, if any.
    pub fn particle_state(&self, position: GridPosition) -> (state: Option<ParticleState>)
        requires
            self.wf(),
        ensures
            state == if self.contents().contains_key(cell_index(position, self.chunk_size)) {
                Some(self.contents()[cell_index(position, self.chunk_size)].0)
            } else {
                None::<ParticleState>
            },
    {
        let index = self.position_to_index(position);
        let entry = self.particles[index];
        if entry.present {
            Some(entry.state)
        } else {
            None
        }
    }

    /// The particle in the cell where `position` lands, if any.
    pub fn get_particle(&self, position: GridPosition) -> (particle: Option<&Particle<P>>)
        requires
            self.wf(),
        ensures
            match particle {
                Some(p) => self.contents().contains_key(cell_index(position, self.chunk_size))
                    && *p == self.contents()[cell_index(position, self.chunk_size)].1,
                None => !self.contents().contains_key(cell_index(position, self.chunk_size)),
            },
    {
        let index = self.position_to_index(position);
        let entry = self.particles[index];
        if entry.present {
            Some(self.get_storage(entry.state).get_unchecked(entry.id))
        } else {
            None
        }
    }

    /// Puts a particle of the given state into the empty cell where `position` lands, kept
    /// with that position, paints the cell's pixel with `color`, and returns the identifier
    /// under which the particle is stored. A solid particle marks the chunk dirty; any change marks it active.
    pub fn add_particle(
        &mut self,
        position: GridPosition,
        state: ParticleState,
        particle: P,
        color: [u8; 4],
    ) -> (id: usize)
        requires
            old(self).wf(),
            state != ParticleState::Unknown,
            !old(self).contents().contains_key(cell_index(position, old(self).chunk_size)),
            old(self).storage_view(state).len() < usize::MAX,
        ensures
            final(self).wf(),
            final(self).contents() == old(self).contents().insert(
                cell_index(position, old(self).chunk_size),
                (state, Particle { position, data: particle }),
            ),
            is_first_free(old(self).storage_view(state), id as int),
            final(self).canvas.texture_data@ == paint(
                old(self).canvas.texture_data@,
                cell_index(position, old(self).chunk_size),
                color,
            ),
            final(self).active,
            final(self).dirty == (old(self).dirty || state == ParticleState::Solid),
            final(self).initialized == old(self).initialized,
            final(self).position == old(self).position,
            final(self).chunk_size == old(self).chunk_size,
            final(self).particle_size == old(self).particle_size,
            final(self).pixels_per_meter == old(self).pixels_per_meter,
    {
        let index = self.position_to_index(position);
        let ghost old_chunk = *self;
        let kept = Particle { position, data: particle };
        let id = match state {
            ParticleState::Solid => {
                self.dirty = true;
                self.solid.store(kept)
            },
            ParticleState::Powder => self.powder.store(kept),
            ParticleState::Fluid => self.fluid.store(kept),
            ParticleState::Unknown => vstd::pervasive::unreached(),
        };
        self.active = true;
        self.particles.set(index, ParticleIndex { id, present: true, state });
        self.canvas.set_particle(position, color);
        proof {
            let idx = index as int;
            assert forall|i: int|
                #![trigger self.particles@[i]]
                0 <= i < self.particles@.len() && i != idx && self.particles@[i].present implies {
                &&& is_occupied(
                    self.storage_view(self.particles@[i].state),
                    self.particles@[i].id as int,
                )
                &&& self.storage_view(self.particles@[i].state)[self.particles@[i].id as int]
                    == old_chunk.storage_view(self.particles@[i].state)[self.particles@[i].id as int]
            } by {
                assert(old_chunk.particles@[i] == self.particles@[i]);
            }
            assert(self.contents() =~= old_chunk.contents().insert(idx, (state, kept)));
        }
        id
    }

    /// Removes and returns the particle in the cell where `position` lands, if any.
    /// Removing a particle marks the chunk active, and dirty when the particle is solid.
    pub fn remove_particle(&mut self, position: GridPosition) -> (particle: Option<Particle<P>>)
        requires
            old(self).wf(),
        ensures
            final(self).wf(),
            final(self).contents() == old(self).contents().remove(
                cell_index(position, old(self).chunk_size),
            ),
            match particle {
                Some(p) => old(self).contents().contains_key(
                    cell_index(position, old(self).chunk_size),
                ) && p == old(self).contents()[cell_index(position, old(self).chunk_size)].1,
                None => !old(self).contents().contains_key(
                    cell_index(position, old(self).chunk_size),
                ),
            },
            final(self).active == (old(self).active || particle is Some),
            final(self).dirty == (old(self).dirty || (particle is Some && old(self).contents()[cell_index(
                position,
                old(self).chunk_size,
            )].0 == ParticleState::Solid)),
            final(self).initialized == old(self).initialized,
            final(self).position == old(self).position,
            final(self).chunk_size == old(self).chunk_size,
            final(self).particle_size == old(self).particle_size,
            final(self).pixels_per_meter == old(self).pixels_per_meter,
            particle is Some ==> final(self).canvas.texture_data@ == paint(
                old(self).canvas.texture_data@,
                cell_index(position, old(self).chunk_size),
                empty_color(),
            ),
            particle is None ==> *final(self) == *old(self),
            forall|state: ParticleState| #[trigger] final(self).storage_view(state).len() == old(
                self,
            ).storage_view(state).len(),
    {
        let index = self.position_to_index(position);
        let entry = self.particles[index];
        if !entry.present {
            proof {
                assert(self.contents() =~= self.contents().remove(index as int));
            }
            return None;
        }
        let ghost old_chunk = *self;
        let particle = match entry.state {
            ParticleState::Solid => {
                self.dirty = true;
                self.solid.remove(entry.id)
            },
            ParticleState::Powder => self.powder.remove(entry.id),
            ParticleState::Fluid => self.fluid.remove(entry.id),
            ParticleState::Unknown => vstd::pervasive::unreached(),
        };
        self.active = true;
        self.particles.set(index, ParticleIndex { id: entry.id, present: false, state: entry.state });
        let black: [u8; 4] = [0, 0, 0, 255];
        self.canvas.set_particle(position, black);
        assert(black == empty_color());
        proof {
            let idx = index as int;
            assert forall|i: int|
                #![trigger self.particles@[i]]
                0 <= i < self.particles@.len() && i != idx && self.particles@[i].present implies {
                &&& is_occupied(
                    self.storage_view(self.particles@[i].state),
                    self.particles@[i].id as int,
                )
                &&& self.storage_view(self.particles@[i].state)[self.particles@[i].id as int]
                    == old_chunk.storage_view(self.particles@[i].state)[self.particles@[i].id as int]
            } by {
                assert(old_chunk.particles@[i] == self.particles@[i]);
                assert(old_chunk.particles@[idx] == entry);
            }
            assert(self.contents() =~= old_chunk.contents().remove(idx));
        }
        particle
    }

    /// Paints the pixel of the cell where `position` lands with `color`.
    pub fn set_particle_color(&mut self, position: GridPosition, color: [u8; 4])
        requires
            old(self).wf(),
        ensures
            final(self).wf(),
            final(self).canvas.texture_data@ == paint(
                old(self).canvas.texture_data@,
                cell_index(position, old(self).chunk_size),
                color,
            ),
            *final(self) == (Chunk { canvas: final(self).canvas, ..*old(self) }),
    {
        self.canvas.set_particle(position, color);
    }

    /// Replaces the particle in the cell where `position` lands by `particle`, kept with that
    /// position and the state of the one it replaces, and returns the previous one; `None`,
    /// with nothing changed, when the cell is empty.
    pub fn replace_particle(&mut self, position: GridPosition, particle: P) -> (previous: Option<Particle<P>>)
        requires
            old(self).wf(),
        ensures
            final(self).wf(),
            match previous {
                Some(p) => {
                    &&& old(self).contents().contains_key(cell_index(position, old(self).chunk_size))
                    &&& p == old(self).contents()[cell_index(position, old(self).chunk_size)].1
                    &&& final(self).contents() == old(self).contents().insert(
                        cell_index(position, old(self).chunk_size),
                        (
                            old(self).contents()[cell_index(position, old(self).chunk_size)].0,
                            Particle { position, data: particle },
                        ),
                    )
                },
                None => !old(self).contents().contains_key(
                    cell_index(position, old(self).chunk_size),
                ) && final(self).contents() == old(self).contents(),
            },
            final(self).active == old(self).active,
            final(self).dirty == old(self).dirty,
            final(self).initialized == old(self).initialized,
            final(self).position == old(self).position,
            final(self).chunk_size == old(self).chunk_size,
            final(self).particle_size == old(self).particle_size,
            final(self).pixels_per_meter == old(self).pixels_per_meter,
            final(self).canvas == old(self).canvas,
    {
        let index = self.position_to_index(position);
        let entry = self.particles[index];
        if !entry.present {
            return None;
        }
        let ghost old_chunk = *self;
        let kept = Particle { position, data: particle };
        let previous = match entry.state {
            ParticleState::Solid => self.solid.replace(entry.id, kept),
            ParticleState::Powder => self.powder.replace(entry.id, kept),
            ParticleState::Fluid => self.fluid.replace(entry.id, kept),
            ParticleState::Unknown => vstd::pervasive::unreached(),
        };
        proof {
            let idx = index as int;
            assert forall|i: int|
                #![trigger self.particles@[i]]
                0 <= i < self.particles@.len() && i != idx && self.particles@[i].present implies {
                &&& is_occupied(
                    self.storage_view(self.particles@[i].state),
                    self.particles@[i].id as int,
                )
                &&& self.storage_view(self.particles@[i].state)[self.particles@[i].id as int]
                    == old_chunk.storage_view(self.particles@[i].state)[self.particles@[i].id as int]
            } by {
                assert(old_chunk.particles@[idx] == entry);
            }
            assert(self.contents() =~= old_chunk.contents().insert(idx, (entry.state, kept)));
        }
        Some(previous)
    }
}


/// Adding a particle to an empty cell and removing it again restores the chunk's contents,
/// and what is removed is the particle, kept with the position it was added at.
pub proof fn lemma_add_then_remove_restores<P>(
    contents: Map<int, (ParticleState, Particle<P>)>,
    index: int,
    state: ParticleState,
    position: GridPosition,
    data: P,
)
    requires
        !contents.contains_key(index),
    ensures
        contents.insert(index, (state, Particle { position, data })).remove(index) == contents,
        contents.insert(index, (state, Particle { position, data }))[index] == (
            state,
            Particle { position, data },
        ),
        contents.insert(index, (state, Particle { position, data }))[index].1.position == position,
{
    assert(contents.insert(index, (state, Particle { position, data })).remove(index) =~= contents);
}

/// Within a chunk of side 32, a particle added at one position is seen at another position
/// of the same chunk only when the two positions are the same.
pub proof fn lemma_added_particle_seen_only_at_its_position<P>(
    contents: Map<int, (ParticleState, Particle<P>)>,
    at: GridPosition,
    other: GridPosition,
    particle: (ParticleState, Particle<P>),
)
    requires
        !contents.contains_key(cell_index(other, 32)),
        chunk_coordinate(at.x) == chunk_coordinate(other.x),
        chunk_coordinate(at.y) == chunk_coordinate(other.y),
    ensures
        contents.insert(cell_index(at, 32), particle).contains_key(cell_index(other, 32)) <==> at
            == other,
{
    if cell_index(at, 32) == cell_index(other, 32) {
        lemma_cell_unique(at, other);
    }
}

} // verus!
