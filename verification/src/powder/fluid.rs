//! Fluid substeps: within one tick, a fluid particle of fluidity `f` takes part in the
//! first `f` substeps, and substeps go on while some particle needs another one.
use crate::powder::GridPosition;
use vstd::prelude::*;

verus! {

/// Whether some particle takes part in the substep after `substep`.
pub open spec fn needs_next_substep(fluidities: Seq<usize>, substep: int) -> bool {
    exists|i: int| 0 <= i < fluidities.len() && substep + 1 < #[trigger] fluidities[i]
}

/// Which particles take part in substep `substep`, and whether another substep follows.
pub fn fluid_substep(fluidities: &[usize], substep: usize) -> (plan: (Vec<bool>, bool))
    ensures
        plan.0@.len() == fluidities@.len(),
        forall|i: int| 0 <= i < fluidities@.len() ==> plan.0@[i] == (substep < fluidities@[i]),
        plan.1 == needs_next_substep(fluidities@, substep as int),
{
    let mut takes_part: Vec<bool> = Vec::new();
    let mut more = false;
    let mut index: usize = 0;
    while index < fluidities.len()
        invariant
            index <= fluidities@.len(),
            takes_part@.len() == index,
            forall|i: int| 0 <= i < index ==> takes_part@[i] == (substep < fluidities@[i]),
            more == exists|i: int| 0 <= i < index && substep + 1 < #[trigger] fluidities@[i],
        decreases fluidities@.len() - index,
    {
        let fluidity = fluidities[index];
        takes_part.push(substep < fluidity);
        if substep < fluidity && fluidity - substep > 1 {
            more = true;
        }
        index = index + 1;
    }
    (takes_part, more)
}

/// Number of the first `count` substeps in which particle `i` takes part.
pub open spec fn substeps_taken(fluidities: Seq<usize>, i: int, count: nat) -> nat
    decreases count,
{
    if count == 0 {
        0
    } else {
        substeps_taken(fluidities, i, (count - 1) as nat) + if count - 1 < fluidities[i] {
            1nat
        } else {
            0nat
        }
    }
}

proof fn lemma_substeps_taken(fluidities: Seq<usize>, i: int, count: nat)
    ensures
        substeps_taken(fluidities, i, count) == if count < fluidities[i] {
            count
        } else {
            fluidities[i] as nat
        },
    decreases count,
{
    if count > 0 {
        lemma_substeps_taken(fluidities, i, (count - 1) as nat);
    }
}

/// Over one tick, whose substeps run from 0 to the first substep `last` after which no
/// particle needs another, every particle takes part in exactly as many substeps as its
/// fluidity.
pub proof fn lemma_each_particle_runs_its_fluidity(fluidities: Seq<usize>, last: nat, i: int)
    requires
        0 <= i < fluidities.len(),
        !needs_next_substep(fluidities, last as int),
    ensures
        substeps_taken(fluidities, i, last + 1) == fluidities[i],
{
    assert(!(last + 1 < fluidities[i]));
    lemma_substeps_taken(fluidities, i, last + 1);
}

/// The substeps of a tick stop: once past the largest fluidity, no particle needs another.
pub proof fn lemma_substeps_stop(fluidities: Seq<usize>, substep: int)
    requires
        forall|i: int| 0 <= i < fluidities.len() ==> #[trigger] fluidities[i] <= substep + 1,
    ensures
        !needs_next_substep(fluidities, substep),
{
}


/// The cell next to `position` in direction `i`: right, left, up, down for `i` from 0 to 3.
pub open spec fn fluid_neighbour(position: GridPosition, i: int) -> GridPosition {
    if i == 0 {
        GridPosition { x: (position.x + 1) as i32, y: position.y }
    } else if i == 1 {
        GridPosition { x: (position.x - 1) as i32, y: position.y }
    } else if i == 2 {
        GridPosition { x: position.x, y: (position.y + 1) as i32 }
    } else {
        GridPosition { x: position.x, y: (position.y - 1) as i32 }
    }
}

/// What the neighbour in direction `i` offers a displaced fluid particle of kind `kind`:
/// nothing when it is forbidden or holds a particle of another kind; itself, marked empty,
/// when it holds no particle; itself, marked occupied, when it holds one of the same kind.
pub open spec fn fluid_outlet(
    position: GridPosition,
    kind: usize,
    neighbour: Option<usize>,
    forbidden: bool,
    i: int,
) -> Seq<(GridPosition, bool)> {
    if forbidden {
        Seq::empty()
    } else {
        match neighbour {
            None => seq![(fluid_neighbour(position, i), true)],
            Some(other) => if other == kind {
                seq![(fluid_neighbour(position, i), false)]
            } else {
                Seq::empty()
            },
        }
    }
}

/// The outlets that the first `count` directions offer, in direction order.
pub open spec fn fluid_outlets_upto(
    position: GridPosition,
    kind: usize,
    neighbours: Seq<Option<usize>>,
    forbidden: Seq<bool>,
    count: nat,
) -> Seq<(GridPosition, bool)>
    decreases count,
{
    if count == 0 {
        Seq::empty()
    } else {
        fluid_outlets_upto(position, kind, neighbours, forbidden, (count - 1) as nat)
            + fluid_outlet(
            position,
            kind,
            neighbours[count - 1],
            forbidden[count - 1],
            count - 1,
        )
    }
}

/// The cells into which a fluid particle of kind `kind` at `position` spreads when it is
/// displaced, given for each direction (right, left, up, down) the kind of the particle
/// there (`None` for an empty cell) and whether that cell is forbidden. Each outlet comes
/// with whether it is empty: an empty cell receives a new particle, an occupied one
/// receives pressure.
pub fn fluid_outlets(
    position: GridPosition,
    kind: usize,
    neighbours: [Option<usize>; 4],
    forbidden: [bool; 4],
) -> (outlets: Vec<(GridPosition, bool)>)
    requires
        i32::MIN < position.x < i32::MAX,
        i32::MIN < position.y < i32::MAX,
    ensures
        outlets@ == fluid_outlets_upto(position, kind, neighbours@, forbidden@, 4),
{
    let mut outlets: Vec<(GridPosition, bool)> = Vec::new();
    let mut i: usize = 0;
    while i < 4
        invariant
            i <= 4,
            i32::MIN < position.x < i32::MAX,
            i32::MIN < position.y < i32::MAX,
            neighbours@.len() == 4,
            forbidden@.len() == 4,
            outlets@ == fluid_outlets_upto(position, kind, neighbours@, forbidden@, i as nat),
        decreases 4 - i,
    {
        let target = if i == 0 {
            GridPosition::new(position.x + 1, position.y)
        } else if i == 1 {
            GridPosition::new(position.x - 1, position.y)
        } else if i == 2 {
            GridPosition::new(position.x, position.y + 1)
        } else {
            GridPosition::new(position.x, position.y - 1)
        };
        assert(target == fluid_neighbour(position, i as int));
        if !forbidden[i] {
            match neighbours[i] {
                None => outlets.push((target, true)),
                Some(other) => {
                    if other == kind {
                        outlets.push((target, false));
                    }
                },
            }
        }
        assert(outlets@ =~= fluid_outlets_upto(position, kind, neighbours@, forbidden@, (i + 1) as nat));
        i = i + 1;
    }
    outlets
}

} // verus!
