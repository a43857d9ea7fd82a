//! Bookkeeping of rigid structures made of particles: the holes that a moved structure
//! leaves, found by counting how many of a cell's four sides its particles cover.
use super::chunk::{cell_index, Chunk};
use super::world::{chunk_key_of, PowderWorld};
use super::{GridPosition, Particle, ParticleState};
use rustc_hash::FxHashMap;
use vstd::prelude::*;

verus! {

/// Key of a cell in the table of potential holes: `x` in the low 16 bits, `y` above.
pub open spec fn spec_hole_key(position: GridPosition) -> i32 {
    position.x | (position.y << 16)
}

/// Cell that a key of the table of potential holes stands for.
pub open spec fn spec_hole_position(key: i32) -> GridPosition {
    GridPosition { x: key & 0xffff, y: key >> 16 }
}

/// Key of a cell in the table of potential holes.
pub fn hole_key(position: GridPosition) -> (key: i32)
    ensures
        key == spec_hole_key(position),
{
    position.x | (position.y << 16)
}

/// Cell that a key of the table of potential holes stands for.
pub fn hole_position(key: i32) -> (position: GridPosition)
    ensures
        position == spec_hole_position(key),
{
    GridPosition::new(key & 0xffff, key >> 16)
}

/// A key gives back its cell when `x` fits in 16 unsigned bits and `y` in 16 signed bits.
pub proof fn lemma_hole_key_roundtrip(position: GridPosition)
    requires
        0 <= position.x < 0x10000,
        -0x8000 <= position.y < 0x8000,
    ensures
        spec_hole_position(spec_hole_key(position)) == position,
{
    let x = position.x;
    let y = position.y;
    assert((x | (y << 16)) & 0xffff == x && (x | (y << 16)) >> 16 == y) by (bit_vector)
        requires
            0 <= x < 0x10000,
            -0x8000 <= y < 0x8000,
    ;
}

/// Number of covered sides by hole key.
pub type HoleCounts = FxHashMap<i32, u32>;

/// `HashMap::get` on an `FxHashMap`, copying the value out: the count stored under `key`.
#[verifier::external_body]
fn get_count(counts: &HoleCounts, key: i32) -> (count: Option<u32>)
    ensures
        count == if counts@.contains_key(key) {
            Some(counts@[key])
        } else {
            None::<u32>
        },
{
    counts.get(&key).copied()
}

/// `HashMap::insert` on an `FxHashMap`: stores `count` under `key`, replacing any previous value.
#[verifier::external_body]
fn set_count(counts: &mut HoleCounts, key: i32, count: u32)
    ensures
        final(counts)@ == old(counts)@.insert(key, count),
{
    counts.insert(key, count);
}

/// `HashMap::iter` on an `FxHashMap`, each entry copied out: every key with its count,
/// each key once, in the map's own order.
#[verifier::external_body]
fn count_entries(counts: &HoleCounts) -> (entries: Vec<(i32, u32)>)
    ensures
        entries@.len() == counts@.dom().len(),
        forall|i: int, j: int|
            0 <= i < entries@.len() && 0 <= j < entries@.len() && i != j ==> (#[trigger] entries@[i]).0
                != (#[trigger] entries@[j]).0,
        forall|i: int|
            0 <= i < entries@.len() ==> counts@.contains_key((#[trigger] entries@[i]).0)
                && counts@[entries@[i].0] == entries@[i].1,
        forall|key: i32|
            #[trigger] counts@.contains_key(key) ==> exists|i: int|
                0 <= i < entries@.len() && (#[trigger] entries@[i]).0 == key,
{
    counts.iter().map(|(key, count)| (*key, *count)).collect()
}

/// Whether the cell at `position` is the cell of a key whose four sides are all covered.
pub open spec fn is_full_hole_position(counts: Map<i32, u32>, position: GridPosition) -> bool {
    exists|key: i32| #[trigger] is_full_hole(counts, key) && spec_hole_position(key) == position
}

/// Whether all four sides of the cell under `key` are covered.
pub open spec fn is_full_hole(counts: Map<i32, u32>, key: i32) -> bool {
    counts.contains_key(key) && counts[key] == 4
}

/// Counts, for each cell next to a moved structure, how many of its sides the structure covers.
pub struct HoleCounter {
    counts: HoleCounts,
}

impl View for HoleCounter {
    type V = Map<i32, u32>;

    /// Number of covered sides by hole key.
    closed spec fn view(&self) -> Map<i32, u32> {
        self.counts@
    }
}

impl HoleCounter {
    /// No side counted yet.
    pub fn new() -> (counter: Self)
        ensures
            counter@ == Map::<i32, u32>::empty(),
    {
        let counts = HoleCounts::default();
        assert(counts@ =~= Map::<i32, u32>::empty());
        HoleCounter { counts }
    }

    /// Counts one more covered side of the cell at `position`.
    pub fn count_side(&mut self, position: GridPosition)
        requires
            old(self)@.contains_key(spec_hole_key(position)) ==> old(self)@[spec_hole_key(position)]
                < u32::MAX,
        ensures
            final(self)@ == old(self)@.insert(
                spec_hole_key(position),
                if old(self)@.contains_key(spec_hole_key(position)) {
                    (old(self)@[spec_hole_key(position)] + 1) as u32
                } else {
                    1
                },
            ),
    {
        let key = hole_key(position);
        match get_count(&self.counts, key) {
            Some(count) => set_count(&mut self.counts, key, count + 1),
            None => set_count(&mut self.counts, key, 1),
        }
    }

    /// Cells whose four sides are covered, in no particular order, each once.
    pub fn holes(&self) -> (holes: Vec<GridPosition>)
        ensures
            forall|i: int|
                0 <= i < holes@.len() ==> is_full_hole_position(self@, #[trigger] holes@[i]),
            forall|key: i32|
                #[trigger] is_full_hole(self@, key) ==> holes@.contains(spec_hole_position(key)),
            holes@.no_duplicates(),
    {
        let entries = count_entries(&self.counts);
        let mut holes: Vec<GridPosition> = Vec::new();
        let ghost mut keys: Seq<i32> = Seq::empty();
        let ghost mut from: Seq<int> = Seq::empty();
        let mut index: usize = 0;
        while index < entries.len()
            invariant
                index <= entries@.len(),
                keys.len() == holes@.len(),
                from.len() == keys.len(),
                entries@.len() == self@.dom().len(),
                forall|i: int, j: int|
                    0 <= i < entries@.len() && 0 <= j < entries@.len() && i != j
                        ==> (#[trigger] entries@[i]).0 != (#[trigger] entries@[j]).0,
                forall|i: int|
                    0 <= i < entries@.len() ==> self@.contains_key((#[trigger] entries@[i]).0)
                        && self@[entries@[i].0] == entries@[i].1,
                forall|i: int|
                    0 <= i < keys.len() ==> is_full_hole(self@, #[trigger] keys[i]) && holes@[i]
                        == spec_hole_position(keys[i]),
                forall|i: int|
                    0 <= i < from.len() ==> 0 <= #[trigger] from[i] < index && keys[i]
                        == entries@[from[i]].0,
                forall|i: int, k: int| 0 <= i < k < from.len() ==> #[trigger] from[i] < #[trigger] from[k],
                forall|j: int|
                    0 <= j < index && (#[trigger] entries@[j]).1 == 4 ==> keys.contains(entries@[j].0),
            decreases entries@.len() - index,
        {
            let (key, count) = entries[index];
            if count == 4 {
                holes.push(hole_position(key));
                proof {
                    let ghost before = keys;
                    keys = keys.push(key);
                    from = from.push(index as int);
                    assert forall|j: int|
                        0 <= j < index + 1 && (#[trigger] entries@[j]).1 == 4 implies keys.contains(
                        entries@[j].0,
                    ) by {
                        if j < index {
                            let i = choose|i: int| 0 <= i < before.len() && before[i] == entries@[j].0;
                            assert(keys[i] == before[i]);
                        } else {
                            assert(keys[before.len() as int] == key);
                        }
                    }
                }
            }
            index = index + 1;
        }
        proof {
            assert forall|i: int|
                0 <= i < holes@.len() implies is_full_hole_position(self@, #[trigger] holes@[i]) by {
                assert(is_full_hole(self@, keys[i]));
            }
            assert forall|key: i32| #[trigger] is_full_hole(self@, key) implies holes@.contains(
                spec_hole_position(key),
            ) by {
                let j = choose|j: int| 0 <= j < entries@.len() && (#[trigger] entries@[j]).0 == key;
                assert(entries@[j].1 == 4);
                let i = choose|i: int| 0 <= i < keys.len() && keys[i] == key;
                assert(holes@[i] == spec_hole_position(key));
            }
            assert forall|i: int, k: int|
                0 <= i < holes@.len() && 0 <= k < holes@.len() && i != k implies holes@[i]
                != holes@[k] by {
                assert(keys[i] != keys[k]) by {
                    if i < k {
                        assert(from[i] < from[k]);
                    } else {
                        assert(from[k] < from[i]);
                    }
                }
                lemma_hole_position_injective(keys[i], keys[k]);
            }
        }
        holes
    }
}

/// The counts after one more covered side of the cell at `position`.
pub open spec fn bump(counts: Map<i32, u32>, position: GridPosition) -> Map<i32, u32> {
    counts.insert(
        spec_hole_key(position),
        if counts.contains_key(spec_hole_key(position)) {
            (counts[spec_hole_key(position)] + 1) as u32
        } else {
            1
        },
    )
}

/// State of the particle at `position` in a world's chunks, if any.
pub open spec fn state_at<P>(chunks: Map<(i32, i32), Chunk<P>>, chunk_size: i32, position: GridPosition) -> Option<
    ParticleState,
> {
    if chunks.contains_key(chunk_key_of(position)) && chunks[chunk_key_of(position)].contents().contains_key(
        cell_index(position, chunk_size),
    ) {
        Some(chunks[chunk_key_of(position)].contents()[cell_index(position, chunk_size)].0)
    } else {
        None
    }
}

/// Whether the cell at `position` lies in a chunk and holds no particle or a fluid: a side
/// that a structure particle next to it covers.
pub open spec fn open_side<P>(chunks: Map<(i32, i32), Chunk<P>>, chunk_size: i32, position: GridPosition) -> bool {
    chunks.contains_key(chunk_key_of(position)) && (state_at(chunks, chunk_size, position) is None
        || state_at(chunks, chunk_size, position) == Some(ParticleState::Fluid))
}

/// The `k`-th side neighbour of `target`: right, left, above, below.
pub open spec fn side_neighbour(target: GridPosition, k: int) -> GridPosition {
    if k == 0 {
        GridPosition { x: (target.x + 1) as i32, y: target.y }
    } else if k == 1 {
        GridPosition { x: (target.x - 1) as i32, y: target.y }
    } else if k == 2 {
        GridPosition { x: target.x, y: (target.y + 1) as i32 }
    } else {
        GridPosition { x: target.x, y: (target.y - 1) as i32 }
    }
}

/// The counts after counting, for the first `k` side neighbours of `target` that are open
/// sides, one more covered side.
pub open spec fn count_open_sides<P>(
    counts: Map<i32, u32>,
    target: GridPosition,
    chunks: Map<(i32, i32), Chunk<P>>,
    chunk_size: i32,
    k: nat,
) -> Map<i32, u32>
    decreases k,
{
    if k == 0 {
        counts
    } else {
        let before = count_open_sides(counts, target, chunks, chunk_size, (k - 1) as nat);
        if open_side(chunks, chunk_size, side_neighbour(target, k - 1)) {
            bump(before, side_neighbour(target, k - 1))
        } else {
            before
        }
    }
}

/// Where a particle of a moved structure ended.
pub enum Placement<P> {
    /// It was put into its cell; a fluid particle that was there was taken out.
    Placed { displaced: Option<Particle<P>> },
    /// Its cell lies in no chunk or holds a particle that is no fluid: it stays with the
    /// structure.
    Kept { particle: P },
}

/// The `k`-th side neighbour of `target`, for `k` below 4.
fn side_neighbour_at(target: GridPosition, k: usize) -> (neighbour: GridPosition)
    requires
        k < 4,
        i32::MIN < target.x < i32::MAX,
        i32::MIN < target.y < i32::MAX,
    ensures
        neighbour == side_neighbour(target, k as int),
{
    if k == 0 {
        GridPosition::new(target.x + 1, target.y)
    } else if k == 1 {
        GridPosition::new(target.x - 1, target.y)
    } else if k == 2 {
        GridPosition::new(target.x, target.y + 1)
    } else {
        GridPosition::new(target.x, target.y - 1)
    }
}

impl<P> PowderWorld<P> {
    /// Whether the cell at `position` is an open side: in a chunk, with no particle or a fluid.
    fn is_open_side(&self, position: GridPosition) -> (open: bool)
        requires
            self.wf(),
        ensures
            open == open_side(self.chunks@, self.chunk_size, position),
    {
        match self.get_chunk(position) {
            Some(chunk) => match chunk.particle_state(position) {
                Some(state) => state == ParticleState::Fluid,
                None => true,
            },
            None => false,
        }
    }

    /// Puts a particle of a moved structure into the cell at `target` when the cell lies in a
    /// chunk and is empty or holds a fluid, which is taken out; then counts, for each side
    /// neighbour of `target` that is in a chunk and empty or fluid, one more covered side.
    /// Otherwise the particle is handed back and nothing changes.
    pub fn place_structure_particle(
        &mut self,
        target: GridPosition,
        state: ParticleState,
        particle: P,
        color: [u8; 4],
        holes: &mut HoleCounter,
    ) -> (placement: Placement<P>)
        requires
            old(self).wf(),
            state != ParticleState::Unknown,
            i32::MIN < target.x < i32::MAX,
            i32::MIN < target.y < i32::MAX,
            old(self).chunks@.contains_key(chunk_key_of(target)) ==> old(self).chunks@[chunk_key_of(
                target,
            )].storage_view(state).len() < usize::MAX,
            forall|key: i32| #[trigger] old(holes)@.contains_key(key) ==> old(holes)@[key] <= u32::MAX - 4,
        ensures
            final(self).wf(),
            final(self).chunk_size == old(self).chunk_size,
            match placement {
                Placement::Kept { particle: kept } => {
                    &&& kept == particle
                    &&& final(self).chunks@ == old(self).chunks@
                    &&& final(holes)@ == old(holes)@
                    &&& !open_side(old(self).chunks@, old(self).chunk_size, target)
                },
                Placement::Placed { displaced } => {
                    &&& open_side(old(self).chunks@, old(self).chunk_size, target)
                    &&& match displaced {
                        Some(fluid) => state_at(old(self).chunks@, old(self).chunk_size, target)
                            == Some(ParticleState::Fluid) && fluid == old(self).chunks@[chunk_key_of(
                            target,
                        )].contents()[cell_index(target, old(self).chunk_size)].1,
                        None => state_at(old(self).chunks@, old(self).chunk_size, target) is None,
                    }
                    &&& final(self).chunks@.dom() == old(self).chunks@.dom()
                    &&& final(self).chunks@[chunk_key_of(target)].contents() == old(
                        self,
                    ).chunks@[chunk_key_of(target)].contents().insert(
                        cell_index(target, old(self).chunk_size),
                        (state, Particle { position: target, data: particle }),
                    )
                    &&& forall|key: (i32, i32)|
                        key != chunk_key_of(target) && #[trigger] old(self).chunks@.contains_key(key)
                            ==> final(self).chunks@[key] == old(self).chunks@[key]
                    &&& final(holes)@ == count_open_sides(
                        old(holes)@,
                        target,
                        final(self).chunks@,
                        final(self).chunk_size,
                        4,
                    )
                },
            },
    {
        if !self.is_open_side(target) {
            return Placement::Kept { particle };
        }
        let displaced = match self.get_chunk(target) {
            Some(chunk) => match chunk.particle_state(target) {
                Some(_) => self.remove_particle(target),
                None => None,
            },
            None => vstd::pervasive::unreached(),
        };
        self.add_particle(target, state, particle, color);
        proof {
            assert(self.chunks@[chunk_key_of(target)].contents() =~= old(self).chunks@[chunk_key_of(
                target,
            )].contents().insert(
                cell_index(target, old(self).chunk_size),
                (state, Particle { position: target, data: particle }),
            ));
        }
        let mut k: usize = 0;
        while k < 4
            invariant
                k <= 4,
                self.wf(),
                i32::MIN < target.x < i32::MAX,
                i32::MIN < target.y < i32::MAX,
                holes@ == count_open_sides(old(holes)@, target, self.chunks@, self.chunk_size, k as nat),
                forall|key: i32| #[trigger] holes@.contains_key(key) ==> holes@[key] <= u32::MAX - 4 + k,
            decreases 4 - k,
        {
            let neighbour = side_neighbour_at(target, k);
            if self.is_open_side(neighbour) {
                holes.count_side(neighbour);
            }
            k = k + 1;
        }
        Placement::Placed { displaced }
    }
}

/// What filling a hole did: the fluid taken out of it, if any, and whether a copy of the
/// particle above was put into it.
pub struct HoleFilling<P> {
    pub displaced: Option<Particle<P>>,
    pub filled: bool,
}

/// Whether two positions land in different cells of the world.
pub open spec fn distinct_cells(chunk_size: i32, a: GridPosition, b: GridPosition) -> bool {
    chunk_key_of(a) != chunk_key_of(b) || cell_index(a, chunk_size) != cell_index(b, chunk_size)
}

impl<P: Copy> PowderWorld<P> {
    /// Fills a hole that a moved structure left: a fluid in it is taken out, then, when the
    /// hole is empty and the cell above holds a particle, a copy of that particle goes into
    /// the hole, kept with the hole's position, its pixel painted with `color`. The chunks of the hole and of the cell above
    /// must exist.
    pub fn fill_hole(&mut self, hole: GridPosition, color: [u8; 4]) -> (filling: HoleFilling<P>)
        requires
            old(self).wf(),
            hole.y < i32::MAX,
            old(self).chunks@.contains_key(chunk_key_of(hole)),
            old(self).chunks@.contains_key(
                chunk_key_of(GridPosition { x: hole.x, y: (hole.y + 1) as i32 }),
            ),
            forall|state: ParticleState| #[trigger] old(self).chunks@[chunk_key_of(hole)].storage_view(
                state,
            ).len() < usize::MAX,
        ensures
            final(self).wf(),
            final(self).chunk_size == old(self).chunk_size,
            final(self).chunks@.dom() == old(self).chunks@.dom(),
            forall|key: (i32, i32)|
                key != chunk_key_of(hole) && #[trigger] old(self).chunks@.contains_key(key)
                    ==> final(self).chunks@[key] == old(self).chunks@[key],
            ({
                let above = GridPosition { x: hole.x, y: (hole.y + 1) as i32 };
                let cs = old(self).chunk_size;
                let hole_state = state_at(old(self).chunks@, cs, hole);
                let before = old(self).chunks@[chunk_key_of(hole)].contents();
                let emptied = if hole_state == Some(ParticleState::Fluid) {
                    before.remove(cell_index(hole, cs))
                } else {
                    before
                };
                &&& match filling.displaced {
                    Some(fluid) => hole_state == Some(ParticleState::Fluid) && fluid == before[cell_index(
                        hole,
                        cs,
                    )].1,
                    None => hole_state != Some(ParticleState::Fluid),
                }
                &&& filling.filled == (distinct_cells(cs, hole, above) && (hole_state is None
                    || hole_state == Some(ParticleState::Fluid)) && state_at(
                    old(self).chunks@,
                    cs,
                    above,
                ) is Some)
                &&& final(self).chunks@[chunk_key_of(hole)].contents() == if filling.filled {
                    emptied.insert(
                        cell_index(hole, cs),
                        (
                            old(self).chunks@[chunk_key_of(above)].contents()[cell_index(above, cs)].0,
                            Particle {
                                position: hole,
                                data: old(self).chunks@[chunk_key_of(above)].contents()[cell_index(
                                    above,
                                    cs,
                                )].1.data,
                            },
                        ),
                    )
                } else {
                    emptied
                }
            }),
    {
        let hole_state = match self.get_chunk(hole) {
            Some(chunk) => chunk.particle_state(hole),
            None => vstd::pervasive::unreached(),
        };
        let displaced = match hole_state {
            Some(ParticleState::Fluid) => self.remove_particle(hole),
            _ => None,
        };
        let ghost emptied_world = self.chunks@;
        let above = GridPosition::new(hole.x, hole.y + 1);
        let source = match self.get_chunk(above) {
            Some(chunk) => match chunk.particle_state(above) {
                Some(state) => match chunk.get_particle(above) {
                    Some(particle) => Some((state, particle.data)),
                    None => vstd::pervasive::unreached(),
                },
                None => None,
            },
            None => vstd::pervasive::unreached(),
        };
        let mut filled = false;
        if let Some((state, particle)) = source {
            if !self.particle_exists(hole) {
                self.add_particle(hole, state, particle, color);
                filled = true;
            }
        }
        proof {
            let cs = old(self).chunk_size;
            let before = old(self).chunks@[chunk_key_of(hole)].contents();
            if hole_state == Some(ParticleState::Fluid) {
                assert(emptied_world[chunk_key_of(hole)].contents() =~= before.remove(cell_index(hole, cs)));
            }
            if filled {
                assert(self.chunks@[chunk_key_of(hole)].contents() =~= emptied_world[chunk_key_of(
                    hole,
                )].contents().insert(
                    cell_index(hole, cs),
                    (
                        old(self).chunks@[chunk_key_of(above)].contents()[cell_index(above, cs)].0,
                        Particle {
                            position: hole,
                            data: old(self).chunks@[chunk_key_of(above)].contents()[cell_index(
                                above,
                                cs,
                            )].1.data,
                        },
                    ),
                ));
            }
        }
        HoleFilling { displaced, filled }
    }
}

/// Different keys stand for different cells.
pub proof fn lemma_hole_position_injective(a: i32, b: i32)
    requires
        a != b,
    ensures
        spec_hole_position(a) != spec_hole_position(b),
{
    assert((a & 0xffff == b & 0xffff && a >> 16 == b >> 16) ==> a == b) by (bit_vector);
}

} // verus!
