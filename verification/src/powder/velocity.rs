//! Where a moving particle goes when the cell it moves into is taken: straight in when a
//! powder sinks into a fluid, else into one of the two cells beside that cell.
use super::{GridPosition, ParticleState};
use vstd::prelude::*;

verus! {

/// `fastrand::usize(0..bound)`: a number below `bound`, at random.
#[verifier::external_body]
fn random_below(bound: usize) -> (value: usize)
    requires
        bound > 0,
    ensures
        value < bound,
{
    fastrand::usize(0..bound)
}

/// Whether `step` moves one cell along one axis.
pub open spec fn is_axis_step(step: GridPosition) -> bool {
    ||| (step.x == 1 || step.x == -1) && step.y == 0
    ||| step.x == 0 && (step.y == 1 || step.y == -1)
}

/// The two offsets across a step: up and down for a horizontal step, right and left for
/// a vertical one.
pub open spec fn spec_side_offsets(step: GridPosition) -> (GridPosition, GridPosition) {
    if step.y == 0 {
        (GridPosition { x: 0i32, y: 1i32 }, GridPosition { x: 0i32, y: -1i32 })
    } else {
        (GridPosition { x: 1i32, y: 0i32 }, GridPosition { x: -1i32, y: 0i32 })
    }
}

/// The two offsets across `step`, in the order in which they are tried.
pub fn side_offsets(step: GridPosition) -> (offsets: (GridPosition, GridPosition))
    requires
        is_axis_step(step),
    ensures
        offsets == spec_side_offsets(step),
{
    if step.y == 0 {
        (GridPosition::new(0, 1), GridPosition::new(0, -1))
    } else {
        (GridPosition::new(1, 0), GridPosition::new(-1, 0))
    }
}

/// Whether a particle in `state` may go into a cell that holds `occupant`: an empty cell
/// always, a fluid one when the particle itself is no fluid.
pub open spec fn spec_slot_available(state: ParticleState, occupant: Option<ParticleState>) -> bool {
    match occupant {
        Some(other) => state != ParticleState::Fluid && other == ParticleState::Fluid,
        None => true,
    }
}

/// Whether a particle in `state` may go into a cell that holds `occupant`.
pub fn slot_available(state: ParticleState, occupant: Option<ParticleState>) -> (available: bool)
    ensures
        available == spec_slot_available(state, occupant),
{
    match occupant {
        Some(other) => state != ParticleState::Fluid && other == ParticleState::Fluid,
        None => true,
    }
}

/// Target of a blocked move and whether the particle there is swapped with the mover, given
/// which side a tie goes to.
pub open spec fn spec_side_target(
    state: ParticleState,
    first_position: GridPosition,
    first: Option<ParticleState>,
    second_position: GridPosition,
    second: Option<ParticleState>,
    prefer_first: bool,
) -> (Option<GridPosition>, bool) {
    let first_free = spec_slot_available(state, first);
    let second_free = spec_slot_available(state, second);
    if !first_free && second_free {
        (Some(second_position), second is Some)
    } else if first_free && !second_free {
        (Some(first_position), first is Some)
    } else if first_free && second_free {
        if prefer_first {
            (Some(first_position), first is Some)
        } else {
            (Some(second_position), second is Some)
        }
    } else {
        (None, false)
    }
}

/// Picks the side cell that a blocked particle in `state` moves to; `prefer_first` settles
/// the case where both are available.
pub fn side_target(
    state: ParticleState,
    first_position: GridPosition,
    first: Option<ParticleState>,
    second_position: GridPosition,
    second: Option<ParticleState>,
    prefer_first: bool,
) -> (target: (Option<GridPosition>, bool))
    ensures
        target == spec_side_target(state, first_position, first, second_position, second, prefer_first),
{
    let first_free = slot_available(state, first);
    let second_free = slot_available(state, second);
    if !first_free && second_free {
        (Some(second_position), second.is_some())
    } else if first_free && !second_free {
        (Some(first_position), first.is_some())
    } else if first_free && second_free {
        if prefer_first {
            (Some(first_position), first.is_some())
        } else {
            (Some(second_position), second.is_some())
        }
    } else {
        (None, false)
    }
}

/// Target of a move into `next` and whether the particle there is swapped with the mover:
/// an empty cell is entered, a powder sinks into a fluid, anything else goes to a side.
pub open spec fn spec_move_target(
    state: ParticleState,
    next: GridPosition,
    blocking: Option<ParticleState>,
    first_position: GridPosition,
    first: Option<ParticleState>,
    second_position: GridPosition,
    second: Option<ParticleState>,
    prefer_first: bool,
) -> (Option<GridPosition>, bool) {
    match blocking {
        None => (Some(next), false),
        Some(other) => if state == ParticleState::Powder && other == ParticleState::Fluid {
            (Some(next), true)
        } else {
            spec_side_target(state, first_position, first, second_position, second, prefer_first)
        },
    }
}

/// Where a particle in `state` that steps into `next` ends, given what occupies `next` and
/// its two side cells; a tie between the sides goes to a random one.
pub fn move_target(
    state: ParticleState,
    next: GridPosition,
    blocking: Option<ParticleState>,
    first_position: GridPosition,
    first: Option<ParticleState>,
    second_position: GridPosition,
    second: Option<ParticleState>,
) -> (target: (Option<GridPosition>, bool))
    ensures
        target == spec_move_target(
            state,
            next,
            blocking,
            first_position,
            first,
            second_position,
            second,
            true,
        ) || target == spec_move_target(
            state,
            next,
            blocking,
            first_position,
            first,
            second_position,
            second,
            false,
        ),
        blocking is None ==> target == (Some(next), false),
        blocking == Some(ParticleState::Fluid) && state == ParticleState::Powder ==> target == (
            Some(next),
            true,
        ),
        blocking is Some && !(blocking == Some(ParticleState::Fluid) && state == ParticleState::Powder)
            ==> ({
            let first_open = first is None || (state != ParticleState::Fluid && first == Some(
                ParticleState::Fluid,
            ));
            let second_open = second is None || (state != ParticleState::Fluid && second == Some(
                ParticleState::Fluid,
            ));
            &&& (first_open || second_open) ==> (target.0 == Some(first_position) && first_open
                && target.1 == (first is Some)) || (target.0 == Some(second_position) && second_open
                && target.1 == (second is Some))
            &&& !first_open && !second_open ==> target == (None::<GridPosition>, false)
        }),
{
    match blocking {
        None => (Some(next), false),
        Some(other) => {
            if state == ParticleState::Powder && other == ParticleState::Fluid {
                (Some(next), true)
            } else {
                let first_free = slot_available(state, first);
                let second_free = slot_available(state, second);
                let prefer_first = if first_free && second_free {
                    random_below(2) == 0
                } else {
                    true
                };
                side_target(state, first_position, first, second_position, second, prefer_first)
            }
        },
    }
}

/// A mover whose next cell is taken, unless it is a powder sinking into a fluid, goes to
/// one of the two side cells that it may enter (an empty cell, or a fluid one for a mover
/// that is no fluid), swapping only with a fluid it enters, and stops only when neither
/// side cell may be entered. What blocks it does not matter, so a grain of sand falling
/// onto sand slides to a free side cell just as it would off a solid.
pub proof fn lemma_blocked_mover_takes_an_open_side(
    state: ParticleState,
    next: GridPosition,
    blocking: ParticleState,
    other_blocking: ParticleState,
    first_position: GridPosition,
    first: Option<ParticleState>,
    second_position: GridPosition,
    second: Option<ParticleState>,
    prefer_first: bool,
)
    requires
        !(state == ParticleState::Powder && blocking == ParticleState::Fluid),
        !(state == ParticleState::Powder && other_blocking == ParticleState::Fluid),
    ensures
        ({
            let target = spec_move_target(
                state,
                next,
                Some(blocking),
                first_position,
                first,
                second_position,
                second,
                prefer_first,
            );
            let first_open = first is None || (state != ParticleState::Fluid && first == Some(
                ParticleState::Fluid,
            ));
            let second_open = second is None || (state != ParticleState::Fluid && second == Some(
                ParticleState::Fluid,
            ));
            &&& (first_open || second_open) ==> (target.0 == Some(first_position) && first_open
                && target.1 == (first is Some)) || (target.0 == Some(second_position) && second_open
                && target.1 == (second is Some))
            &&& first_open && !second_open ==> target == (Some(first_position), first is Some)
            &&& !first_open && second_open ==> target == (Some(second_position), second is Some)
            &&& !first_open && !second_open ==> target == (None::<GridPosition>, false)
            &&& target == spec_move_target(
                state,
                next,
                Some(other_blocking),
                first_position,
                first,
                second_position,
                second,
                prefer_first,
            )
        }),
{
}

/// An empty next cell is entered without a swap, and a powder whose next cell holds a
/// fluid takes that cell, swapping with the fluid.
pub proof fn lemma_open_or_sinking_move_goes_straight(
    state: ParticleState,
    next: GridPosition,
    first_position: GridPosition,
    first: Option<ParticleState>,
    second_position: GridPosition,
    second: Option<ParticleState>,
    prefer_first: bool,
)
    ensures
        spec_move_target(state, next, None, first_position, first, second_position, second, prefer_first)
            == (Some(next), false),
        spec_move_target(
            ParticleState::Powder,
            next,
            Some(ParticleState::Fluid),
            first_position,
            first,
            second_position,
            second,
            prefer_first,
        ) == (Some(next), true),
{
}

/// A side move swaps only a fluid side cell with a mover that is no fluid, and a move
/// that finds no side cell swaps nothing.
pub proof fn lemma_side_target_swaps_only_fluid(
    state: ParticleState,
    first_position: GridPosition,
    first: Option<ParticleState>,
    second_position: GridPosition,
    second: Option<ParticleState>,
    prefer_first: bool,
)
    ensures
        ({
            let target = spec_side_target(
                state,
                first_position,
                first,
                second_position,
                second,
                prefer_first,
            );
            &&& target.1 ==> state != ParticleState::Fluid && ((target.0 == Some(first_position)
                && first == Some(ParticleState::Fluid)) || (target.0 == Some(second_position)
                && second == Some(ParticleState::Fluid)))
            &&& target.0 is None ==> !target.1
        }),
{
}

/// A fluid never swaps: it only moves into empty cells.
pub proof fn lemma_fluid_never_swaps(
    next: GridPosition,
    blocking: Option<ParticleState>,
    first_position: GridPosition,
    first: Option<ParticleState>,
    second_position: GridPosition,
    second: Option<ParticleState>,
    prefer_first: bool,
)
    ensures
        !spec_move_target(
            ParticleState::Fluid,
            next,
            blocking,
            first_position,
            first,
            second_position,
            second,
            prefer_first,
        ).1,
{
}

} // verus!
