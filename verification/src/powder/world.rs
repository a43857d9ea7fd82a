//! The chunks of a powder simulation, kept by chunk position: adding and removing chunks,
//! and adding, removing and finding particles anywhere on the grid.
use super::chunk::{cell_index, chunk_coordinate, get_chunk_key, Chunk};
use super::local::LocalChunks;
use super::{GridPosition, Particle, ParticleState};
use super::cell_map::{cell_entry, cell_keys, put_cell, take_cell, CellMap};
use vstd::prelude::*;

verus! {

/// Key of the chunk that holds a grid position.
pub open spec fn chunk_key_of(position: GridPosition) -> (i32, i32) {
    (chunk_coordinate(position.x) as i32, chunk_coordinate(position.y) as i32)
}

/// Offset of the `j`-th chunk taken for a step: the chunk itself, then below, above, left,
/// right, and the four corners.
pub open spec fn neighbour_offset(j: int) -> (i32, i32) {
    if j == 0 {
        (0i32, 0i32)
    } else if j == 1 {
        (0i32, -1i32)
    } else if j == 2 {
        (0i32, 1i32)
    } else if j == 3 {
        (-1i32, 0i32)
    } else if j == 4 {
        (1i32, 0i32)
    } else if j == 5 {
        (-1i32, -1i32)
    } else if j == 6 {
        (1i32, -1i32)
    } else if j == 7 {
        (1i32, 1i32)
    } else {
        (-1i32, 1i32)
    }
}

/// Key of the `j`-th chunk taken for a step of the chunk at `center`.
pub open spec fn neighbour_key(center: GridPosition, j: int) -> (i32, i32) {
    ((center.x + neighbour_offset(j).0) as i32, (center.y + neighbour_offset(j).1) as i32)
}

/// Whether the chunk under `key` is `center` or one of its eight direct neighbours.
pub open spec fn is_neighbour_key(center: GridPosition, key: (i32, i32)) -> bool {
    -1 <= key.0 - center.x <= 1 && -1 <= key.1 - center.y <= 1
}

/// Whether moving one chunk away from `center` on both axes stays within `i32`.
pub open spec fn inner_chunk(center: GridPosition) -> bool {
    i32::MIN < center.x < i32::MAX && i32::MIN < center.y < i32::MAX
}

/// The offset of the `j`-th chunk taken for a step, for `j` below 9.
fn neighbour_offset_at(j: usize) -> (offset: (i32, i32))
    requires
        j < 9,
    ensures
        offset == neighbour_offset(j as int),
{
    if j == 0 {
        (0, 0)
    } else if j == 1 {
        (0, -1)
    } else if j == 2 {
        (0, 1)
    } else if j == 3 {
        (-1, 0)
    } else if j == 4 {
        (1, 0)
    } else if j == 5 {
        (-1, -1)
    } else if j == 6 {
        (1, -1)
    } else if j == 7 {
        (1, 1)
    } else {
        (-1, 1)
    }
}

/// The nine keys taken for a step are distinct, and they are exactly the neighbourhood.
proof fn lemma_neighbour_keys(center: GridPosition)
    requires
        inner_chunk(center),
    ensures
        forall|a: int, b: int|
            0 <= a < 9 && 0 <= b < 9 && a != b ==> #[trigger] neighbour_key(center, a)
                != #[trigger] neighbour_key(center, b),
        forall|a: int| 0 <= a < 9 ==> is_neighbour_key(center, #[trigger] neighbour_key(center, a)),
        forall|key: (i32, i32)|
            #[trigger] is_neighbour_key(center, key) ==> exists|a: int|
                0 <= a < 9 && #[trigger] neighbour_key(center, a) == key,
{
    assert forall|key: (i32, i32)| #[trigger] is_neighbour_key(center, key) implies exists|a: int|
        0 <= a < 9 && #[trigger] neighbour_key(center, a) == key by {
        let dx = key.0 - center.x;
        let dy = key.1 - center.y;
        let a: int = if dx == 0 && dy == 0 {
            0
        } else if dx == 0 && dy == -1 {
            1
        } else if dx == 0 && dy == 1 {
            2
        } else if dx == -1 && dy == 0 {
            3
        } else if dx == 1 && dy == 0 {
            4
        } else if dx == -1 && dy == -1 {
            5
        } else if dx == 1 && dy == -1 {
            6
        } else if dx == 1 && dy == 1 {
            7
        } else {
            8
        };
        assert(neighbour_key(center, a) == key);
    }
}

/// Whether taking the chunks for a step of the chunk at `center` turned `before` into
/// `after`: `keys` are the keys of the neighbourhood's chunks, the chunk at `center` first,
/// `chunks` the chunks under them, and `after` keeps every other chunk.
pub open spec fn took_local<P>(
    before: Map<(i32, i32), Chunk<P>>,
    after: Map<(i32, i32), Chunk<P>>,
    center: GridPosition,
    keys: Seq<(i32, i32)>,
    chunks: Seq<Chunk<P>>,
) -> bool {
    &&& keys.len() == chunks.len()
    &&& keys.len() > 0
    &&& keys[0] == (center.x, center.y)
    &&& keys.no_duplicates()
    &&& forall|i: int|
        0 <= i < keys.len() ==> before.contains_key(#[trigger] keys[i]) && chunks[i] == before[keys[i]]
    &&& forall|key: (i32, i32)|
        #[trigger] keys.contains(key) <==> before.contains_key(key) && is_neighbour_key(center, key)
    &&& after == before.remove_keys(keys.to_set())
}

/// Whether putting `chunks` back under `keys` turned `before` into `after`.
pub open spec fn restored<P>(
    before: Map<(i32, i32), Chunk<P>>,
    after: Map<(i32, i32), Chunk<P>>,
    keys: Seq<(i32, i32)>,
    chunks: Seq<Chunk<P>>,
) -> bool {
    &&& forall|key: (i32, i32)|
        #[trigger] after.contains_key(key) <==> before.contains_key(key) || keys.contains(key)
    &&& forall|i: int| 0 <= i < keys.len() ==> after[#[trigger] keys[i]] == chunks[i]
    &&& forall|key: (i32, i32)| #[trigger] before.contains_key(key) ==> after[key] == before[key]
}

/// Putting back, unchanged, the chunks taken for a step gives back the world as it was.
pub proof fn lemma_restore_undoes_take<P>(
    before: Map<(i32, i32), Chunk<P>>,
    middle: Map<(i32, i32), Chunk<P>>,
    after: Map<(i32, i32), Chunk<P>>,
    center: GridPosition,
    keys: Seq<(i32, i32)>,
    chunks: Seq<Chunk<P>>,
)
    requires
        took_local(before, middle, center, keys, chunks),
        restored(middle, after, keys, chunks),
    ensures
        after == before,
{
    assert forall|key: (i32, i32)| #[trigger] after.contains_key(key) == before.contains_key(key) by {
        if keys.contains(key) {
            assert(before.contains_key(key));
        } else {
            assert(middle.contains_key(key) == before.contains_key(key));
        }
    }
    assert forall|key: (i32, i32)| #[trigger] after.contains_key(key) implies after[key] == before[key] by {
        if keys.contains(key) {
            let i = choose|i: int| 0 <= i < keys.len() && keys[i] == key;
            assert(after[keys[i]] == chunks[i]);
        } else {
            assert(middle.contains_key(key));
        }
    }
    assert(after =~= before);
}

/// The chunks of a simulation by chunk position, all of one size.
pub struct PowderWorld<P> {
    pub chunks: CellMap<Chunk<P>>,
    pub chunk_size: i32,
    pub particle_size: i32,
    pub pixels_per_meter: i32,
}

impl<P> PowderWorld<P> {
    /// Chunks have a positive size whose square fits an `i32`, and each chunk is well
    /// formed and of that size.
    pub open spec fn wf(&self) -> bool {
        &&& 0 < self.chunk_size
        &&& self.chunk_size * self.chunk_size <= i32::MAX
        &&& forall|key: (i32, i32)|
            #[trigger] self.chunks@.contains_key(key) ==> self.chunks@[key].wf()
                && self.chunks@[key].chunk_size == self.chunk_size
    }

    /// Whether a particle occupies the cell of `position`.
    pub open spec fn holds_particle(&self, position: GridPosition) -> bool {
        &&& self.chunks@.contains_key(chunk_key_of(position))
        &&& self.chunks@[chunk_key_of(position)].contents().contains_key(
            cell_index(position, self.chunk_size),
        )
    }

    /// World without chunks, whose chunks will have a side of `chunk_size` cells.
    pub fn new(chunk_size: i32, particle_size: i32, pixels_per_meter: i32) -> (world: Self)
        requires
            0 < chunk_size,
            chunk_size * chunk_size <= i32::MAX,
        ensures
            world.wf(),
            world.chunks@ == Map::<(i32, i32), Chunk<P>>::empty(),
            world.chunk_size == chunk_size,
            world.particle_size == particle_size,
            world.pixels_per_meter == pixels_per_meter,
    {
        let chunks: CellMap<Chunk<P>> = CellMap::default();
        PowderWorld { chunks, chunk_size, particle_size, pixels_per_meter }
    }

    /// Adds an empty chunk under `chunk_position`; returns `false`, changing nothing, when a
    /// chunk is already there.
    pub fn add_chunk(&mut self, chunk_position: GridPosition) -> (added: bool)
        requires
            old(self).wf(),
        ensures
            final(self).wf(),
            added == !old(self).chunks@.contains_key((chunk_position.x, chunk_position.y)),
            final(self).chunk_size == old(self).chunk_size,
            final(self).particle_size == old(self).particle_size,
            final(self).pixels_per_meter == old(self).pixels_per_meter,
            !added ==> final(self).chunks@ == old(self).chunks@,
            added ==> final(self).chunks@.dom() == old(self).chunks@.dom().insert(
                (chunk_position.x, chunk_position.y),
            ),
            added ==> final(self).chunks@[(chunk_position.x, chunk_position.y)].contents()
                == Map::<int, (ParticleState, Particle<P>)>::empty(),
            added ==> !final(self).chunks@[(chunk_position.x, chunk_position.y)].initialized,
            forall|key: (i32, i32)|
                key != (chunk_position.x, chunk_position.y) && #[trigger] old(self).chunks@.contains_key(key)
                    ==> final(self).chunks@[key] == old(self).chunks@[key],
    {
        let key = (chunk_position.x, chunk_position.y);
        if cell_entry(&self.chunks, key).is_some() {
            return false;
        }
        let chunk = Chunk::new(self.chunk_size, self.particle_size, self.pixels_per_meter);
        put_cell(&mut self.chunks, key, chunk);
        proof {
            assert(self.chunks@.dom() =~= old(self).chunks@.dom().insert(key));
        }
        true
    }

    /// Takes the chunk under `chunk_position` out and returns it; `None`, changing nothing,
    /// when there is none.
    pub fn remove_chunk(&mut self, chunk_position: GridPosition) -> (removed: Option<Chunk<P>>)
        requires
            old(self).wf(),
        ensures
            final(self).wf(),
            final(self).chunks@ == old(self).chunks@.remove((chunk_position.x, chunk_position.y)),
            final(self).chunk_size == old(self).chunk_size,
            final(self).particle_size == old(self).particle_size,
            final(self).pixels_per_meter == old(self).pixels_per_meter,
            match removed {
                Some(chunk) => old(self).chunks@.contains_key((chunk_position.x, chunk_position.y))
                    && chunk == old(self).chunks@[(chunk_position.x, chunk_position.y)],
                None => !old(self).chunks@.contains_key((chunk_position.x, chunk_position.y)),
            },
    {
        take_cell(&mut self.chunks, (chunk_position.x, chunk_position.y))
    }

    /// The chunk that holds `position`, if there is one.
    pub fn get_chunk(&self, position: GridPosition) -> (chunk: Option<&Chunk<P>>)
        ensures
            match chunk {
                Some(chunk) => self.chunks@.contains_key(chunk_key_of(position)) && *chunk
                    == self.chunks@[chunk_key_of(position)],
                None => !self.chunks@.contains_key(chunk_key_of(position)),
            },
    {
        let key = get_chunk_key(position);
        cell_entry(&self.chunks, (key.x, key.y))
    }

    /// Whether a chunk holds `position`.
    pub fn is_position_valid(&self, position: GridPosition) -> (valid: bool)
        ensures
            valid == self.chunks@.contains_key(chunk_key_of(position)),
    {
        self.get_chunk(position).is_some()
    }

    /// Whether a particle occupies the cell of `position`.
    pub fn particle_exists(&self, position: GridPosition) -> (exists: bool)
        requires
            self.wf(),
        ensures
            exists == self.holds_particle(position),
    {
        match self.get_chunk(position) {
            Some(chunk) => chunk.particle_exists(position),
            None => false,
        }
    }

    /// Puts a particle, kept with `position`, into the empty cell of `position`, first
    /// adding the chunk that holds the position when there is none.
    pub fn add_particle(
        &mut self,
        position: GridPosition,
        state: ParticleState,
        particle: P,
        color: [u8; 4],
    )
        requires
            old(self).wf(),
            state != ParticleState::Unknown,
            !old(self).holds_particle(position),
            old(self).chunks@.contains_key(chunk_key_of(position)) ==> old(self).chunks@[chunk_key_of(
                position,
            )].storage_view(state).len() < usize::MAX,
        ensures
            final(self).wf(),
            final(self).chunk_size == old(self).chunk_size,
            final(self).chunks@.dom() == old(self).chunks@.dom().insert(chunk_key_of(position)),
            final(self).chunks@[chunk_key_of(position)].contents() == (if old(
                self,
            ).chunks@.contains_key(chunk_key_of(position)) {
                old(self).chunks@[chunk_key_of(position)].contents()
            } else {
                Map::<int, (ParticleState, Particle<P>)>::empty()
            }).insert(
                cell_index(position, old(self).chunk_size),
                (state, Particle { position, data: particle }),
            ),
            forall|key: (i32, i32)|
                key != chunk_key_of(position) && #[trigger] old(self).chunks@.contains_key(key)
                    ==> final(self).chunks@[key] == old(self).chunks@[key],
    {
        let key = get_chunk_key(position);
        let key = (key.x, key.y);
        let mut chunk = match take_cell(&mut self.chunks, key) {
            Some(chunk) => chunk,
            None => Chunk::new(self.chunk_size, self.particle_size, self.pixels_per_meter),
        };
        chunk.add_particle(position, state, particle, color);
        put_cell(&mut self.chunks, key, chunk);
        proof {
            assert(self.chunks@.dom() =~= old(self).chunks@.dom().insert(key));
        }
    }

    /// Removes and returns the particle in the cell of `position`, if any; the chunk that
    /// holds the position must exist.
    pub fn remove_particle(&mut self, position: GridPosition) -> (particle: Option<Particle<P>>)
        requires
            old(self).wf(),
            old(self).chunks@.contains_key(chunk_key_of(position)),
        ensures
            final(self).wf(),
            final(self).chunk_size == old(self).chunk_size,
            final(self).chunks@.dom() == old(self).chunks@.dom(),
            final(self).chunks@[chunk_key_of(position)].contents() == old(self).chunks@[chunk_key_of(
                position,
            )].contents().remove(cell_index(position, old(self).chunk_size)),
            match particle {
                Some(p) => old(self).holds_particle(position) && p == old(self).chunks@[chunk_key_of(
                    position,
                )].contents()[cell_index(position, old(self).chunk_size)].1,
                None => !old(self).holds_particle(position),
            },
            forall|state: ParticleState| #[trigger] final(self).chunks@[chunk_key_of(
                position,
            )].storage_view(state).len() == old(self).chunks@[chunk_key_of(position)].storage_view(
                state,
            ).len(),
            forall|key: (i32, i32)|
                key != chunk_key_of(position) && #[trigger] old(self).chunks@.contains_key(key)
                    ==> final(self).chunks@[key] == old(self).chunks@[key],
    {
        let key = get_chunk_key(position);
        let key = (key.x, key.y);
        let mut chunk = match take_cell(&mut self.chunks, key) {
            Some(chunk) => chunk,
            None => vstd::pervasive::unreached(),
        };
        let particle = chunk.remove_particle(position);
        put_cell(&mut self.chunks, key, chunk);
        proof {
            assert(self.chunks@.dom() =~= old(self).chunks@.dom());
        }
        particle
    }

    /// Replaces the particle in the cell of `position` by `particle`, kept with `position`
    /// and the state of the one it replaces, and returns the previous one; `None`, with no
    /// particle changed, when the cell is empty. The chunk that holds the position must exist.
    pub fn replace_particle(&mut self, position: GridPosition, particle: P) -> (previous: Option<Particle<P>>)
        requires
            old(self).wf(),
            old(self).chunks@.contains_key(chunk_key_of(position)),
        ensures
            final(self).wf(),
            final(self).chunk_size == old(self).chunk_size,
            final(self).chunks@.dom() == old(self).chunks@.dom(),
            match previous {
                Some(p) => {
                    let index = cell_index(position, old(self).chunk_size);
                    let before = old(self).chunks@[chunk_key_of(position)].contents();
                    &&& old(self).holds_particle(position)
                    &&& p == before[index].1
                    &&& final(self).chunks@[chunk_key_of(position)].contents() == before.insert(
                        index,
                        (before[index].0, Particle { position, data: particle }),
                    )
                },
                None => !old(self).holds_particle(position) && final(self).chunks@[chunk_key_of(
                    position,
                )].contents() == old(self).chunks@[chunk_key_of(position)].contents(),
            },
            final(self).chunks@[chunk_key_of(position)].active == old(self).chunks@[chunk_key_of(
                position,
            )].active,
            forall|key: (i32, i32)|
                key != chunk_key_of(position) && #[trigger] old(self).chunks@.contains_key(key)
                    ==> final(self).chunks@[key] == old(self).chunks@[key],
    {
        let key = get_chunk_key(position);
        let key = (key.x, key.y);
        let mut chunk = match take_cell(&mut self.chunks, key) {
            Some(chunk) => chunk,
            None => vstd::pervasive::unreached(),
        };
        let previous = chunk.replace_particle(position, particle);
        put_cell(&mut self.chunks, key, chunk);
        proof {
            assert(self.chunks@.dom() =~= old(self).chunks@.dom());
        }
        previous
    }

    /// Takes out, for a step of the chunk at `chunk_position`, that chunk and those of its
    /// eight direct neighbours that exist, and returns them with their keys.
    pub fn take_local(&mut self, chunk_position: GridPosition) -> (taken: (LocalChunks<P>, Vec<(i32, i32)>))
        requires
            old(self).wf(),
            old(self).chunks@.contains_key((chunk_position.x, chunk_position.y)),
            inner_chunk(chunk_position),
        ensures
            final(self).wf(),
            final(self).chunk_size == old(self).chunk_size,
            final(self).particle_size == old(self).particle_size,
            final(self).pixels_per_meter == old(self).pixels_per_meter,
            taken.0.wf(),
            forall|i: int|
                0 <= i < taken.0.chunks@.len() ==> (#[trigger] taken.0.chunks@[i]).chunk_size
                    == old(self).chunk_size,
            took_local(
                old(self).chunks@,
                final(self).chunks@,
                chunk_position,
                taken.1@,
                taken.0.chunks@,
            ),
    {
        proof {
            lemma_neighbour_keys(chunk_position);
        }
        let mut chunks: Vec<Chunk<P>> = Vec::new();
        let mut keys: Vec<(i32, i32)> = Vec::new();
        let ghost mut from: Seq<int> = Seq::empty();
        let mut j: usize = 0;
        while j < 9
            invariant
                j <= 9,
                inner_chunk(chunk_position),
                old(self).wf(),
                old(self).chunks@.contains_key((chunk_position.x, chunk_position.y)),
                self.wf(),
                self.chunk_size == old(self).chunk_size,
                self.particle_size == old(self).particle_size,
                self.pixels_per_meter == old(self).pixels_per_meter,
                keys@.len() == chunks@.len(),
                from.len() == keys@.len(),
                j > 0 ==> keys@.len() > 0 && keys@[0] == (chunk_position.x, chunk_position.y),
                forall|i: int|
                    0 <= i < from.len() ==> 0 <= #[trigger] from[i] < j && keys@[i] == neighbour_key(
                        chunk_position,
                        from[i],
                    ),
                forall|i: int, k: int| 0 <= i < k < from.len() ==> #[trigger] from[i] < #[trigger] from[k],
                forall|i: int|
                    0 <= i < keys@.len() ==> old(self).chunks@.contains_key(#[trigger] keys@[i])
                        && chunks@[i] == old(self).chunks@[keys@[i]],
                forall|a: int|
                    0 <= a < j && old(self).chunks@.contains_key(#[trigger] neighbour_key(chunk_position, a))
                        ==> keys@.contains(neighbour_key(chunk_position, a)),
                forall|key: (i32, i32)|
                    #[trigger] self.chunks@.contains_key(key) <==> old(self).chunks@.contains_key(key)
                        && !keys@.contains(key),
                forall|key: (i32, i32)|
                    #[trigger] self.chunks@.contains_key(key) ==> self.chunks@[key] == old(self).chunks@[key],
                forall|a: int, b: int|
                    0 <= a < 9 && 0 <= b < 9 && a != b ==> #[trigger] neighbour_key(chunk_position, a)
                        != #[trigger] neighbour_key(chunk_position, b),
            decreases 9 - j,
        {
            proof {
                if j == 0 && from.len() > 0 {
                    assert(0 <= from[0] < j);
                }
            }
            let offset = neighbour_offset_at(j);
            let key = (chunk_position.x + offset.0, chunk_position.y + offset.1);
            assert(key == neighbour_key(chunk_position, j as int));
            let ghost before_keys = keys@;
            let ghost before_map = self.chunks@;
            if let Some(chunk) = take_cell(&mut self.chunks, key) {
                chunks.push(chunk);
                keys.push(key);
                proof {
                    if before_keys.len() > 0 {
                        assert(keys@[0] == before_keys[0]);
                    }
                    from = from.push(j as int);
                    assert forall|k: (i32, i32)| #[trigger] keys@.contains(k) <==> before_keys.contains(k)
                        || k == key by {
                        if keys@.contains(k) {
                            let i = choose|i: int| 0 <= i < keys@.len() && keys@[i] == k;
                            if i < before_keys.len() {
                                assert(before_keys[i] == k);
                            }
                        }
                        if before_keys.contains(k) {
                            let i = choose|i: int| 0 <= i < before_keys.len() && before_keys[i] == k;
                            assert(keys@[i] == k);
                        }
                        assert(keys@[before_keys.len() as int] == key);
                    }
                }
            } else {
                proof {
                    if j == 0 {
                        assert(!before_keys.contains(key));
                        assert(before_map.contains_key(key));
                    }
                    assert(!before_keys.contains(key)) by {
                        if before_keys.contains(key) {
                            let i = choose|i: int| 0 <= i < before_keys.len() && before_keys[i] == key;
                            assert(from[i] < j);
                        }
                    }
                }
            }
            j = j + 1;
        }
        proof {
            assert forall|i: int, k: int|
                0 <= i < keys@.len() && 0 <= k < keys@.len() && i != k implies keys@[i] != keys@[k] by {
                if i < k {
                    assert(from[i] < from[k]);
                } else {
                    assert(from[k] < from[i]);
                }
            }
            assert forall|key: (i32, i32)| #[trigger] keys@.contains(key) <==> old(
                self,
            ).chunks@.contains_key(key) && is_neighbour_key(chunk_position, key) by {
                if keys@.contains(key) {
                    let i = choose|i: int| 0 <= i < keys@.len() && keys@[i] == key;
                    assert(is_neighbour_key(chunk_position, neighbour_key(chunk_position, from[i])));
                }
                if old(self).chunks@.contains_key(key) && is_neighbour_key(chunk_position, key) {
                    let a = choose|a: int| 0 <= a < 9 && #[trigger] neighbour_key(chunk_position, a) == key;
                    assert(old(self).chunks@.contains_key(neighbour_key(chunk_position, a)));
                }
            }
            assert(self.chunks@ =~= old(self).chunks@.remove_keys(keys@.to_set()));
            assert forall|i: int| 0 <= i < chunks@.len() implies (#[trigger] chunks@[i]).wf()
                && chunks@[i].chunk_size == old(self).chunk_size by {
                assert(old(self).chunks@.contains_key(keys@[i]));
            }
        }
        (LocalChunks::new(chunks), keys)
    }

    /// Puts back the chunks taken for a step under their keys.
    pub fn restore_local(&mut self, taken: (LocalChunks<P>, Vec<(i32, i32)>))
        requires
            old(self).wf(),
            taken.0.wf(),
            taken.1@.len() == taken.0.chunks@.len(),
            forall|i: int|
                0 <= i < taken.0.chunks@.len() ==> (#[trigger] taken.0.chunks@[i]).chunk_size
                    == old(self).chunk_size,
            taken.1@.no_duplicates(),
            forall|i: int| 0 <= i < taken.1@.len() ==> !old(self).chunks@.contains_key(#[trigger] taken.1@[i]),
        ensures
            final(self).wf(),
            final(self).chunk_size == old(self).chunk_size,
            final(self).particle_size == old(self).particle_size,
            final(self).pixels_per_meter == old(self).pixels_per_meter,
            restored(old(self).chunks@, final(self).chunks@, taken.1@, taken.0.chunks@),
    {
        let (local, keys) = taken;
        let ghost chunks_view = local.chunks@;
        let mut chunks = local.chunks;
        let mut index: usize = keys.len();
        while index > 0
            invariant
                index <= keys@.len(),
                chunks@ == chunks_view.subrange(0, index as int),
                keys@.len() == chunks_view.len(),
                keys@.no_duplicates(),
                forall|i: int| 0 <= i < chunks_view.len() ==> (#[trigger] chunks_view[i]).wf(),
                forall|i: int| 0 <= i < chunks_view.len() ==> (#[trigger] chunks_view[i]).chunk_size == old(self).chunk_size,
                forall|i: int| 0 <= i < keys@.len() ==> !old(self).chunks@.contains_key(#[trigger] keys@[i]),
                self.wf(),
                self.chunk_size == old(self).chunk_size,
                self.particle_size == old(self).particle_size,
                self.pixels_per_meter == old(self).pixels_per_meter,
                forall|key: (i32, i32)|
                    #[trigger] self.chunks@.contains_key(key) <==> old(self).chunks@.contains_key(key)
                        || keys@.subrange(index as int, keys@.len() as int).contains(key),
                forall|i: int|
                    index <= i < keys@.len() ==> self.chunks@[#[trigger] keys@[i]] == chunks_view[i],
                forall|key: (i32, i32)|
                    #[trigger] old(self).chunks@.contains_key(key) ==> self.chunks@[key] == old(self).chunks@[key],
            decreases index,
        {
            index = index - 1;
            let chunk = match chunks.pop() {
                Some(chunk) => chunk,
                None => vstd::pervasive::unreached(),
            };
            let key = keys[index];
            let ghost before_map = self.chunks@;
            put_cell(&mut self.chunks, key, chunk);
            proof {
                assert(chunk == chunks_view[index as int]);
                assert(chunks@ =~= chunks_view.subrange(0, index as int));
                assert forall|k: (i32, i32)| #[trigger] self.chunks@.contains_key(k) <==> old(
                    self,
                ).chunks@.contains_key(k) || keys@.subrange(index as int, keys@.len() as int).contains(k) by {
                    let tail = keys@.subrange(index as int, keys@.len() as int);
                    let rest = keys@.subrange(index + 1, keys@.len() as int);
                    if tail.contains(k) {
                        let i = choose|i: int| 0 <= i < tail.len() && tail[i] == k;
                        if i > 0 {
                            assert(rest[i - 1] == k);
                        } else {
                            assert(k == key);
                        }
                    }
                    if rest.contains(k) {
                        let i = choose|i: int| 0 <= i < rest.len() && rest[i] == k;
                        assert(tail[i + 1] == k);
                    }
                    assert(tail[0] == key);
                }
                assert forall|i: int| index <= i < keys@.len() implies self.chunks@[#[trigger] keys@[i]]
                    == chunks_view[i] by {
                    if i != index {
                        assert(keys@[i] != keys@[index as int]);
                    }
                }
            }
        }
        proof {
            assert(keys@.subrange(0, keys@.len() as int) =~= keys@);
        }
    }

    /// Initializes every chunk that is not yet, at the position of its key; returns the
    /// positions of the chunks it initialized.
    pub fn initialize_chunks(&mut self) -> (initialized: Vec<GridPosition>)
        requires
            old(self).wf(),
        ensures
            final(self).wf(),
            final(self).chunk_size == old(self).chunk_size,
            final(self).chunks@.dom() == old(self).chunks@.dom(),
            forall|key: (i32, i32)|
                #[trigger] final(self).chunks@.contains_key(key) ==> {
                    let before = old(self).chunks@[key];
                    let after = final(self).chunks@[key];
                    &&& after.initialized
                    &&& after.position == if before.initialized {
                        before.position
                    } else {
                        GridPosition { x: key.0, y: key.1 }
                    }
                    &&& after.contents() == before.contents()
                    &&& after.active == before.active
                    &&& after.dirty == before.dirty
                },
            forall|p: GridPosition|
                #[trigger] initialized@.contains(p) <==> old(self).chunks@.contains_key((p.x, p.y))
                    && !old(self).chunks@[(p.x, p.y)].initialized,
    {
        let keys = cell_keys(&self.chunks);
        let mut initialized: Vec<GridPosition> = Vec::new();
        let mut index: usize = 0;
        while index < keys.len()
            invariant
                index <= keys@.len(),
                self.wf(),
                self.chunk_size == old(self).chunk_size,
                keys@.no_duplicates(),
                forall|key: (i32, i32)| #[trigger] old(self).chunks@.contains_key(key) <==> keys@.contains(key),
                self.chunks@.dom() == old(self).chunks@.dom(),
                forall|j: int|
                    index <= j < keys@.len() ==> self.chunks@[#[trigger] keys@[j]] == old(
                        self,
                    ).chunks@[keys@[j]],
                forall|j: int|
                    0 <= j < index ==> {
                        let before = old(self).chunks@[#[trigger] keys@[j]];
                        let after = self.chunks@[keys@[j]];
                        &&& after.initialized
                        &&& after.position == if before.initialized {
                            before.position
                        } else {
                            GridPosition { x: keys@[j].0, y: keys@[j].1 }
                        }
                        &&& after.contents() == before.contents()
                        &&& after.active == before.active
                        &&& after.dirty == before.dirty
                    },
                forall|p: GridPosition|
                    #[trigger] initialized@.contains(p) <==> (exists|j: int|
                        0 <= j < index && #[trigger] keys@[j] == (p.x, p.y))
                        && !old(self).chunks@[(p.x, p.y)].initialized,
            decreases keys@.len() - index,
        {
            let key = keys[index];
            let ghost before_map = self.chunks@;
            let ghost before_list = initialized@;
            let mut chunk = match take_cell(&mut self.chunks, key) {
                Some(chunk) => chunk,
                None => vstd::pervasive::unreached(),
            };
            let newly = !chunk.initialized;
            if newly {
                let position = GridPosition::new(key.0, key.1);
                chunk.initialize(position);
                initialized.push(position);
            }
            put_cell(&mut self.chunks, key, chunk);
            proof {
                assert(self.chunks@.dom() =~= before_map.dom());
                assert(self.chunks@.dom() =~= old(self).chunks@.dom());
                assert forall|j: int| index < j < keys@.len() implies self.chunks@[#[trigger] keys@[j]]
                    == old(self).chunks@[keys@[j]] by {
                    assert(keys@[j] != keys@[index as int]);
                }
                assert forall|j: int| 0 <= j < index + 1 implies {
                    let before = old(self).chunks@[#[trigger] keys@[j]];
                    let after = self.chunks@[keys@[j]];
                    &&& after.initialized
                    &&& after.position == if before.initialized {
                        before.position
                    } else {
                        GridPosition { x: keys@[j].0, y: keys@[j].1 }
                    }
                    &&& after.contents() == before.contents()
                    &&& after.active == before.active
                    &&& after.dirty == before.dirty
                } by {
                    if j < index {
                        assert(keys@[j] != keys@[index as int]);
                    } else {
                        assert(self.chunks@[key].contents() =~= old(self).chunks@[key].contents());
                    }
                }
                assert forall|p: GridPosition| #[trigger] initialized@.contains(p) <==> (exists|j: int|
                    0 <= j < index + 1 && #[trigger] keys@[j] == (p.x, p.y)) && !old(
                    self,
                ).chunks@[(p.x, p.y)].initialized by {
                    if initialized@.contains(p) && !before_list.contains(p) {
                        let i = choose|i: int| 0 <= i < initialized@.len() && initialized@[i] == p;
                        if i < before_list.len() {
                            assert(before_list[i] == p);
                        }
                        assert(keys@[index as int] == (p.x, p.y));
                    }
                    if before_list.contains(p) {
                        let i = choose|i: int| 0 <= i < before_list.len() && before_list[i] == p;
                        assert(initialized@[i] == p);
                    }
                    if (exists|j: int| 0 <= j < index + 1 && #[trigger] keys@[j] == (p.x, p.y)) && !old(
                        self,
                    ).chunks@[(p.x, p.y)].initialized {
                        let j = choose|j: int| 0 <= j < index + 1 && #[trigger] keys@[j] == (p.x, p.y);
                        if j == index {
                            assert(initialized@[initialized@.len() - 1] == p);
                        }
                    }
                }
            }
            index = index + 1;
        }
        proof {
            assert forall|key: (i32, i32)| #[trigger] self.chunks@.contains_key(key) implies {
                let before = old(self).chunks@[key];
                let after = self.chunks@[key];
                &&& after.initialized
                &&& after.position == if before.initialized {
                    before.position
                } else {
                    GridPosition { x: key.0, y: key.1 }
                }
                &&& after.contents() == before.contents()
                &&& after.active == before.active
                &&& after.dirty == before.dirty
            } by {
                assert(keys@.contains(key));
                let j = choose|j: int| 0 <= j < keys@.len() && keys@[j] == key;
                assert(old(self).chunks@[keys@[j]] == old(self).chunks@[key]);
            }
            assert forall|p: GridPosition| #[trigger] initialized@.contains(p) <==> old(
                self,
            ).chunks@.contains_key((p.x, p.y)) && !old(self).chunks@[(p.x, p.y)].initialized by {
                if old(self).chunks@.contains_key((p.x, p.y)) {
                    assert(keys@.contains((p.x, p.y)));
                    let j = choose|j: int| 0 <= j < keys@.len() && keys@[j] == (p.x, p.y);
                    assert(keys@[j] == (p.x, p.y));
                }
            }
        }
        initialized
    }

    /// Positions of the chunks to process in this step: all of them when `force_all`, else
    /// the active ones; every chunk is then marked inactive.
    pub fn chunks_to_process(&mut self, force_all: bool) -> (to_process: Vec<GridPosition>)
        requires
            old(self).wf(),
        ensures
            final(self).wf(),
            final(self).chunk_size == old(self).chunk_size,
            final(self).chunks@.dom() == old(self).chunks@.dom(),
            forall|key: (i32, i32)|
                #[trigger] final(self).chunks@.contains_key(key) ==> final(self).chunks@[key] == (Chunk {
                    active: false,
                    ..old(self).chunks@[key]
                }),
            to_process@.no_duplicates(),
            forall|p: GridPosition|
                #[trigger] to_process@.contains(p) <==> old(self).chunks@.contains_key((p.x, p.y)) && (
                force_all || old(self).chunks@[(p.x, p.y)].active),
    {
        let keys = cell_keys(&self.chunks);
        let mut to_process: Vec<GridPosition> = Vec::new();
        let ghost mut from: Seq<int> = Seq::empty();
        let mut index: usize = 0;
        while index < keys.len()
            invariant
                index <= keys@.len(),
                self.wf(),
                self.chunk_size == old(self).chunk_size,
                keys@.no_duplicates(),
                forall|key: (i32, i32)| #[trigger] old(self).chunks@.contains_key(key) <==> keys@.contains(key),
                self.chunks@.dom() == old(self).chunks@.dom(),
                forall|j: int|
                    index <= j < keys@.len() ==> self.chunks@[#[trigger] keys@[j]] == old(
                        self,
                    ).chunks@[keys@[j]],
                forall|j: int|
                    0 <= j < index ==> self.chunks@[#[trigger] keys@[j]] == (Chunk {
                        active: false,
                        ..old(self).chunks@[keys@[j]]
                    }),
                from.len() == to_process@.len(),
                forall|i: int|
                    0 <= i < from.len() ==> 0 <= #[trigger] from[i] < index && to_process@[i] == (
                    GridPosition { x: keys@[from[i]].0, y: keys@[from[i]].1 }),
                forall|i: int, k: int| 0 <= i < k < from.len() ==> #[trigger] from[i] < #[trigger] from[k],
                forall|j: int|
                    0 <= j < index && (force_all || old(self).chunks@[#[trigger] keys@[j]].active)
                        ==> to_process@.contains(GridPosition { x: keys@[j].0, y: keys@[j].1 }),
                forall|i: int|
                    0 <= i < from.len() ==> (force_all || old(self).chunks@[keys@[#[trigger] from[i]]].active),
            decreases keys@.len() - index,
        {
            let key = keys[index];
            let ghost before_map = self.chunks@;
            let ghost before_list = to_process@;
            let mut chunk = match take_cell(&mut self.chunks, key) {
                Some(chunk) => chunk,
                None => vstd::pervasive::unreached(),
            };
            if force_all || chunk.active {
                to_process.push(GridPosition::new(key.0, key.1));
                proof {
                    from = from.push(index as int);
                }
            }
            chunk.active = false;
            put_cell(&mut self.chunks, key, chunk);
            proof {
                assert(self.chunks@.dom() =~= before_map.dom());
                assert forall|j: int| index < j < keys@.len() implies self.chunks@[#[trigger] keys@[j]]
                    == old(self).chunks@[keys@[j]] by {
                    assert(keys@[j] != keys@[index as int]);
                }
                assert forall|j: int| 0 <= j < index + 1 implies self.chunks@[#[trigger] keys@[j]] == (
                Chunk { active: false, ..old(self).chunks@[keys@[j]] }) by {
                    if j < index {
                        assert(keys@[j] != keys@[index as int]);
                    }
                }
                assert forall|j: int|
                    0 <= j < index + 1 && (force_all || old(self).chunks@[#[trigger] keys@[j]].active)
                        implies to_process@.contains(GridPosition { x: keys@[j].0, y: keys@[j].1 }) by {
                    if j < index {
                        let i = choose|i: int|
                            0 <= i < before_list.len() && before_list[i] == GridPosition {
                                x: keys@[j].0,
                                y: keys@[j].1,
                            };
                        assert(to_process@[i] == before_list[i]);
                    } else {
                        assert(to_process@[to_process@.len() - 1] == GridPosition {
                            x: keys@[j].0,
                            y: keys@[j].1,
                        });
                    }
                }
            }
            index = index + 1;
        }
        proof {
            assert forall|i: int, k: int|
                0 <= i < to_process@.len() && 0 <= k < to_process@.len() && i != k implies to_process@[i]
                != to_process@[k] by {
                if i < k {
                    assert(from[i] < from[k]);
                } else {
                    assert(from[k] < from[i]);
                }
                assert(keys@[from[i]] != keys@[from[k]]);
            }
            assert forall|key: (i32, i32)| #[trigger] self.chunks@.contains_key(key) implies self.chunks@[key]
                == (Chunk { active: false, ..old(self).chunks@[key] }) by {
                assert(keys@.contains(key));
                let j = choose|j: int| 0 <= j < keys@.len() && keys@[j] == key;
                assert(self.chunks@[keys@[j]] == self.chunks@[key]);
            }
            assert forall|p: GridPosition| #[trigger] to_process@.contains(p) <==> old(
                self,
            ).chunks@.contains_key((p.x, p.y)) && (force_all || old(self).chunks@[(p.x, p.y)].active) by {
                if to_process@.contains(p) {
                    let i = choose|i: int| 0 <= i < to_process@.len() && to_process@[i] == p;
                    assert(keys@.contains(keys@[from[i]]));
                }
                if old(self).chunks@.contains_key((p.x, p.y)) && (force_all || old(self).chunks@[(
                p.x,
                p.y,
                )].active) {
                    assert(keys@.contains((p.x, p.y)));
                    let j = choose|j: int| 0 <= j < keys@.len() && keys@[j] == (p.x, p.y);
                    assert(old(self).chunks@[keys@[j]].active || force_all);
                }
            }
        }
        to_process
    }

    /// Takes every chunk out and returns each of them once, with its key.
    pub fn reset(&mut self) -> (removed: Vec<((i32, i32), Chunk<P>)>)
        requires
            old(self).wf(),
        ensures
            final(self).wf(),
            final(self).chunk_size == old(self).chunk_size,
            final(self).chunks@ == Map::<(i32, i32), Chunk<P>>::empty(),
            removed@.len() == old(self).chunks@.dom().len(),
            forall|i: int, j: int|
                0 <= i < removed@.len() && 0 <= j < removed@.len() && i != j ==> (
                #[trigger] removed@[i]).0 != (#[trigger] removed@[j]).0,
            forall|i: int|
                0 <= i < removed@.len() ==> old(self).chunks@.contains_key((#[trigger] removed@[i]).0)
                    && removed@[i].1 == old(self).chunks@[removed@[i].0],
            forall|key: (i32, i32)|
                #[trigger] old(self).chunks@.contains_key(key) ==> exists|i: int|
                    0 <= i < removed@.len() && (#[trigger] removed@[i]).0 == key,
    {
        let keys = cell_keys(&self.chunks);
        let mut removed: Vec<((i32, i32), Chunk<P>)> = Vec::new();
        let mut index: usize = 0;
        while index < keys.len()
            invariant
                index <= keys@.len(),
                self.wf(),
                self.chunk_size == old(self).chunk_size,
                keys@.no_duplicates(),
                forall|key: (i32, i32)| #[trigger] old(self).chunks@.contains_key(key) <==> keys@.contains(key),
                forall|j: int| 0 <= j < index ==> !self.chunks@.contains_key(#[trigger] keys@[j]),
                forall|key: (i32, i32)|
                    #[trigger] self.chunks@.contains_key(key) ==> old(self).chunks@.contains_key(key)
                        && self.chunks@[key] == old(self).chunks@[key],
                forall|j: int|
                    index <= j < keys@.len() ==> self.chunks@.contains_key(#[trigger] keys@[j]),
                removed@.len() == index,
                forall|i: int|
                    0 <= i < removed@.len() ==> (#[trigger] removed@[i]).0 == keys@[i]
                        && removed@[i].1 == old(self).chunks@[keys@[i]],
            decreases keys@.len() - index,
        {
            let key = keys[index];
            let chunk = match take_cell(&mut self.chunks, key) {
                Some(chunk) => chunk,
                None => vstd::pervasive::unreached(),
            };
            proof {
                assert forall|j: int| index < j < keys@.len() implies self.chunks@.contains_key(
                    #[trigger] keys@[j],
                ) by {
                    assert(keys@[j] != keys@[index as int]);
                }
            }
            removed.push((key, chunk));
            index = index + 1;
        }
        proof {
            assert forall|k: (i32, i32)| !#[trigger] self.chunks@.contains_key(k) by {
                if self.chunks@.contains_key(k) {
                    assert(keys@.contains(k));
                    let j = choose|j: int| 0 <= j < keys@.len() && keys@[j] == k;
                    assert(!self.chunks@.contains_key(keys@[j]));
                }
            }
            assert(self.chunks@ =~= Map::<(i32, i32), Chunk<P>>::empty());
            keys@.unique_seq_to_set();
            assert(old(self).chunks@.dom() =~= keys@.to_set());
            assert forall|i: int| 0 <= i < removed@.len() implies old(self).chunks@.contains_key(
                (#[trigger] removed@[i]).0,
            ) && removed@[i].1 == old(self).chunks@[removed@[i].0] by {
                assert(keys@.contains(keys@[i]));
            }
            assert forall|key: (i32, i32)| #[trigger] old(self).chunks@.contains_key(key) implies exists|
                i: int,
            | 0 <= i < removed@.len() && (#[trigger] removed@[i]).0 == key by {
                let j = choose|j: int| 0 <= j < keys@.len() && keys@[j] == key;
                assert(removed@[j].0 == key);
            }
        }
        removed
    }
}

} // verus!
