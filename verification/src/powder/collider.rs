//! Splitting the cells of a rigid structure into rectangles of uniform mass, one collider
//! part each: a cell is taken, its rectangle grown left, down, right and up while the grown
//! rectangle holds only cells of the same mass, and its cells are taken out.
use super::cell_map::{cell_count, cell_entry, first_cell, take_cell, CellMap};
use super::GridPosition;
use vstd::prelude::*;

verus! {

/// Mass class of each cell of a structure, by cell coordinates.
pub type CellMasses = CellMap<u32>;

/// The mass class of `cell`, if the cell is in the map.
fn cell_mass(cells: &CellMasses, cell: (i32, i32)) -> (mass: Option<u32>)
    ensures
        mass == if cells@.contains_key(cell) {
            Some(cells@[cell])
        } else {
            None::<u32>
        },
{
    match cell_entry(cells, cell) {
        Some(mass) => Some(*mass),
        None => None,
    }
}

/// A rectangle of cells, corners included, whose cells all have the same mass class.
#[derive(Copy, Clone, Debug, PartialEq, Eq, Structural)]
pub struct MassRectangle {
    pub left_bottom: GridPosition,
    pub right_top: GridPosition,
    pub mass: u32,
}

/// Whether `cell` lies in the rectangle between two corners, corners included.
pub open spec fn in_rectangle(left_bottom: GridPosition, right_top: GridPosition, cell: (i32, i32)) -> bool {
    left_bottom.x <= cell.0 <= right_top.x && left_bottom.y <= cell.1 <= right_top.y
}

/// Whether every cell of the rectangle between two corners is in `cells` with mass class `mass`.
pub open spec fn uniform_rectangle(
    cells: Map<(i32, i32), u32>,
    left_bottom: GridPosition,
    right_top: GridPosition,
    mass: u32,
) -> bool {
    forall|cell: (i32, i32)|
        #[trigger] in_rectangle(left_bottom, right_top, cell) ==> cells.contains_key(cell)
            && cells[cell] == mass
}

/// Whether a coordinate can be moved one step either way without overflow.
pub open spec fn within_bounds(v: i32) -> bool {
    i32::MIN < v < i32::MAX
}

/// Whether every cell can be moved one step in any direction without overflow.
pub open spec fn cells_within_bounds(cells: Map<(i32, i32), u32>) -> bool {
    forall|cell: (i32, i32)|
        #[trigger] cells.contains_key(cell) ==> within_bounds(cell.0) && within_bounds(cell.1)
}

/// Whether `cell` lies in one of the rectangles.
pub open spec fn covered(rectangles: Seq<MassRectangle>, cell: (i32, i32)) -> bool {
    exists|k: int|
        0 <= k < rectangles.len() && in_rectangle(
            (#[trigger] rectangles[k]).left_bottom,
            rectangles[k].right_top,
            cell,
        )
}

/// Whether the rectangles split exactly the cells of `cells`: each is non-empty and of
/// uniform mass, no two overlap, and every cell lies in one of them.
pub open spec fn splits(cells: Map<(i32, i32), u32>, rectangles: Seq<MassRectangle>) -> bool {
    &&& forall|k: int|
        0 <= k < rectangles.len() ==> (#[trigger] rectangles[k]).left_bottom.x
            <= rectangles[k].right_top.x && rectangles[k].left_bottom.y
            <= rectangles[k].right_top.y && uniform_rectangle(
            cells,
            rectangles[k].left_bottom,
            rectangles[k].right_top,
            rectangles[k].mass,
        )
    &&& forall|k: int, l: int, cell: (i32, i32)|
        #![trigger in_rectangle(rectangles[k].left_bottom, rectangles[k].right_top, cell), in_rectangle(rectangles[l].left_bottom, rectangles[l].right_top, cell)]
        0 <= k < l < rectangles.len() && in_rectangle(
            rectangles[k].left_bottom,
            rectangles[k].right_top,
            cell,
        ) ==> !in_rectangle(rectangles[l].left_bottom, rectangles[l].right_top, cell)
    &&& forall|cell: (i32, i32)| #[trigger] cells.contains_key(cell) ==> covered(rectangles, cell)
}

/// Whether no side of the rectangle between two corners can grow by one column or row:
/// none of the four rectangles one step wider to the left, lower, wider to the right or
/// higher holds only cells of mass class `mass`.
pub open spec fn maximal_rectangle(
    cells: Map<(i32, i32), u32>,
    left_bottom: GridPosition,
    right_top: GridPosition,
    mass: u32,
) -> bool {
    &&& !uniform_rectangle(
        cells,
        GridPosition { x: (left_bottom.x - 1) as i32, y: left_bottom.y },
        right_top,
        mass,
    )
    &&& !uniform_rectangle(
        cells,
        GridPosition { x: left_bottom.x, y: (left_bottom.y - 1) as i32 },
        right_top,
        mass,
    )
    &&& !uniform_rectangle(
        cells,
        left_bottom,
        GridPosition { x: (right_top.x + 1) as i32, y: right_top.y },
        mass,
    )
    &&& !uniform_rectangle(
        cells,
        left_bottom,
        GridPosition { x: right_top.x, y: (right_top.y + 1) as i32 },
        mass,
    )
}

/// The cells of `cells` that none of the rectangles covers, each with its mass class.
pub open spec fn remaining(cells: Map<(i32, i32), u32>, rectangles: Seq<MassRectangle>) -> Map<
    (i32, i32),
    u32,
> {
    Map::new(|cell: (i32, i32)| cells.contains_key(cell) && !covered(rectangles, cell), |cell: (i32, i32)| cells[cell])
}

/// Whether every cell of the rectangle between two corners is in `cells` with mass class
/// `mass`.
fn is_uniform(cells: &CellMasses, left_bottom: GridPosition, right_top: GridPosition, mass: u32) -> (uniform:
    bool)
    ensures
        uniform == uniform_rectangle(cells@, left_bottom, right_top, mass),
{
    let mut x: i64 = left_bottom.x as i64;
    while x <= right_top.x as i64
        invariant
            left_bottom.x <= x,
            x <= right_top.x + 1 || right_top.x < left_bottom.x,
            forall|cell: (i32, i32)|
                #[trigger] in_rectangle(left_bottom, right_top, cell) && cell.0 < x
                    ==> cells@.contains_key(cell) && cells@[cell] == mass,
        decreases right_top.x + 1 - x,
    {
        let mut y: i64 = left_bottom.y as i64;
        while y <= right_top.y as i64
            invariant
                left_bottom.x <= x <= right_top.x,
                left_bottom.y <= y,
                y <= right_top.y + 1 || right_top.y < left_bottom.y,
                forall|cell: (i32, i32)|
                    #[trigger] in_rectangle(left_bottom, right_top, cell) && (cell.0 < x || (cell.0
                        == x && cell.1 < y)) ==> cells@.contains_key(cell) && cells@[cell] == mass,
            decreases right_top.y + 1 - y,
        {
            let cell = (x as i32, y as i32);
            assert(in_rectangle(left_bottom, right_top, cell));
            match cell_mass(cells, cell) {
                Some(found) => {
                    if found != mass {
                        return false;
                    }
                },
                None => {
                    return false;
                },
            }
            y = y + 1;
        }
        x = x + 1;
    }
    true
}

/// Takes every cell of the rectangle between two corners out of `cells`.
fn remove_rectangle(cells: &mut CellMasses, left_bottom: GridPosition, right_top: GridPosition)
    ensures
        forall|cell: (i32, i32)|
            #[trigger] final(cells)@.contains_key(cell) <==> old(cells)@.contains_key(cell)
                && !in_rectangle(left_bottom, right_top, cell),
        forall|cell: (i32, i32)|
            #[trigger] final(cells)@.contains_key(cell) ==> final(cells)@[cell] == old(cells)@[cell],
{
    let ghost start = cells@;
    let mut x: i64 = left_bottom.x as i64;
    while x <= right_top.x as i64
        invariant
            left_bottom.x <= x,
            x <= right_top.x + 1 || right_top.x < left_bottom.x,
            forall|cell: (i32, i32)|
                #[trigger] cells@.contains_key(cell) <==> start.contains_key(cell) && !(
                in_rectangle(left_bottom, right_top, cell) && cell.0 < x),
            forall|cell: (i32, i32)| #[trigger] cells@.contains_key(cell) ==> cells@[cell] == start[cell],
        decreases right_top.x + 1 - x,
    {
        let mut y: i64 = left_bottom.y as i64;
        while y <= right_top.y as i64
            invariant
                left_bottom.x <= x <= right_top.x,
                left_bottom.y <= y,
                y <= right_top.y + 1 || right_top.y < left_bottom.y,
                forall|cell: (i32, i32)|
                    #[trigger] cells@.contains_key(cell) <==> start.contains_key(cell) && !(
                    in_rectangle(left_bottom, right_top, cell) && (cell.0 < x || (cell.0 == x
                        && cell.1 < y))),
                forall|cell: (i32, i32)|
                    #[trigger] cells@.contains_key(cell) ==> cells@[cell] == start[cell],
            decreases right_top.y + 1 - y,
        {
            take_cell(cells, (x as i32, y as i32));
            y = y + 1;
        }
        x = x + 1;
    }
}

/// Grows the rectangle of the single cell `origin` left, down, right and up, one row or
/// column at a time, while the grown rectangle holds only cells of the mass class of
/// `origin`; stops when no side can grow.
fn grow_rectangle(cells: &CellMasses, origin: (i32, i32), mass: u32) -> (corners: (GridPosition, GridPosition))
    requires
        cells@.contains_key(origin),
        cells@[origin] == mass,
        cells_within_bounds(cells@),
    ensures
        corners.0.x <= origin.0 <= corners.1.x,
        corners.0.y <= origin.1 <= corners.1.y,
        uniform_rectangle(cells@, corners.0, corners.1, mass),
        maximal_rectangle(cells@, corners.0, corners.1, mass),
{
    let mut left_bottom = GridPosition::new(origin.0, origin.1);
    let mut right_top = GridPosition::new(origin.0, origin.1);
    assert forall|cell: (i32, i32)| #[trigger]
        in_rectangle(left_bottom, right_top, cell) implies cells@.contains_key(cell) && cells@[cell]
        == mass by {
        assert(cell == origin);
    }
    loop
        invariant
            left_bottom.x <= origin.0 <= right_top.x,
            left_bottom.y <= origin.1 <= right_top.y,
            cells_within_bounds(cells@),
            uniform_rectangle(cells@, left_bottom, right_top, mass),
        ensures
            left_bottom.x <= origin.0 <= right_top.x,
            left_bottom.y <= origin.1 <= right_top.y,
            uniform_rectangle(cells@, left_bottom, right_top, mass),
            maximal_rectangle(cells@, left_bottom, right_top, mass),
        decreases (left_bottom.x - i32::MIN) + (left_bottom.y - i32::MIN) + (i32::MAX - right_top.x)
            + (i32::MAX - right_top.y),
    {
        assert(in_rectangle(left_bottom, right_top, (left_bottom.x, left_bottom.y)));
        assert(in_rectangle(left_bottom, right_top, (right_top.x, right_top.y)));
        let mut changed = false;
        let left = GridPosition::new(left_bottom.x - 1, left_bottom.y);
        if is_uniform(cells, left, right_top, mass) {
            assert(in_rectangle(left, right_top, (left.x, left.y)));
            left_bottom = left;
            changed = true;
        }
        assert(in_rectangle(left_bottom, right_top, (left_bottom.x, left_bottom.y)));
        let down = GridPosition::new(left_bottom.x, left_bottom.y - 1);
        if is_uniform(cells, down, right_top, mass) {
            assert(in_rectangle(down, right_top, (down.x, down.y)));
            left_bottom = down;
            changed = true;
        }
        assert(in_rectangle(left_bottom, right_top, (right_top.x, right_top.y)));
        let right = GridPosition::new(right_top.x + 1, right_top.y);
        if is_uniform(cells, left_bottom, right, mass) {
            assert(in_rectangle(left_bottom, right, (right.x, right.y)));
            right_top = right;
            changed = true;
        }
        assert(in_rectangle(left_bottom, right_top, (right_top.x, right_top.y)));
        let up = GridPosition::new(right_top.x, right_top.y + 1);
        if is_uniform(cells, left_bottom, up, mass) {
            assert(in_rectangle(left_bottom, up, (up.x, up.y)));
            right_top = up;
            changed = true;
        }
        if !changed {
            break;
        }
    }
    (left_bottom, right_top)
}

/// Splits the cells of a structure into rectangles of uniform mass, taking every cell out
/// of `cells`. The rectangles are non-empty, do not overlap, and hold exactly the cells
/// that `cells` held, each with its mass class; each one, when it was taken, could not grow
/// on any side over the cells that the rectangles before it had left.
pub fn split_into_rectangles(cells: &mut CellMasses) -> (rectangles: Vec<MassRectangle>)
    requires
        cells_within_bounds(old(cells)@),
    ensures
        splits(old(cells)@, rectangles@),
        forall|k: int|
            0 <= k < rectangles@.len() ==> maximal_rectangle(
                remaining(old(cells)@, rectangles@.take(k)),
                (#[trigger] rectangles@[k]).left_bottom,
                rectangles@[k].right_top,
                rectangles@[k].mass,
            ),
        final(cells)@.dom() == Set::<(i32, i32)>::empty(),
{
    let ghost start = cells@;
    cell_count(cells);
    let mut rectangles: Vec<MassRectangle> = Vec::new();
    loop
        invariant
            start == old(cells)@,
            cells@.dom().finite(),
            cells_within_bounds(start),
            forall|cell: (i32, i32)|
                #[trigger] cells@.contains_key(cell) ==> start.contains_key(cell) && cells@[cell]
                    == start[cell],
            forall|k: int|
                0 <= k < rectangles@.len() ==> (#[trigger] rectangles@[k]).left_bottom.x
                    <= rectangles@[k].right_top.x && rectangles@[k].left_bottom.y
                    <= rectangles@[k].right_top.y && uniform_rectangle(
                    start,
                    rectangles@[k].left_bottom,
                    rectangles@[k].right_top,
                    rectangles@[k].mass,
                ),
            forall|k: int, cell: (i32, i32)|
                0 <= k < rectangles@.len() && in_rectangle(
                    (#[trigger] rectangles@[k]).left_bottom,
                    rectangles@[k].right_top,
                    cell,
                ) ==> !#[trigger] cells@.contains_key(cell),
            forall|k: int, l: int, cell: (i32, i32)|
                #![trigger in_rectangle(rectangles@[k].left_bottom, rectangles@[k].right_top, cell), in_rectangle(rectangles@[l].left_bottom, rectangles@[l].right_top, cell)]
                0 <= k < l < rectangles@.len() && in_rectangle(
                    rectangles@[k].left_bottom,
                    rectangles@[k].right_top,
                    cell,
                ) ==> !in_rectangle(rectangles@[l].left_bottom, rectangles@[l].right_top, cell),
            forall|cell: (i32, i32)|
                #[trigger] start.contains_key(cell) ==> cells@.contains_key(cell) || covered(
                    rectangles@,
                    cell,
                ),
            forall|k: int|
                0 <= k < rectangles@.len() ==> maximal_rectangle(
                    remaining(start, rectangles@.take(k)),
                    (#[trigger] rectangles@[k]).left_bottom,
                    rectangles@[k].right_top,
                    rectangles@[k].mass,
                ),
        decreases cells@.dom().len(),
    {
        let origin = match first_cell(cells) {
            Some(origin) => origin,
            None => {
                proof {
                    assert forall|cell: (i32, i32)| #[trigger]
                        start.contains_key(cell) implies covered(rectangles@, cell) by {
                        assert(!cells@.dom().contains(cell));
                    }
                }
                return rectangles;
            },
        };
        let mass = match cell_mass(cells, origin) {
            Some(mass) => mass,
            None => vstd::pervasive::unreached(),
        };
        proof {
            assert forall|cell: (i32, i32)| #[trigger] cells@.contains_key(cell) implies within_bounds(
                cell.0,
            ) && within_bounds(cell.1) by {
                assert(start.contains_key(cell));
            }
        }
        let (left_bottom, right_top) = grow_rectangle(cells, origin, mass);
        let ghost before = cells@;
        let ghost old_rectangles = rectangles@;
        proof {
            assert forall|cell: (i32, i32)|
                #[trigger] remaining(start, old_rectangles).contains_key(cell) == before.contains_key(
                    cell,
                ) by {
                if before.contains_key(cell) && covered(old_rectangles, cell) {
                    let k = choose|k: int|
                        0 <= k < old_rectangles.len() && in_rectangle(
                            (#[trigger] old_rectangles[k]).left_bottom,
                            old_rectangles[k].right_top,
                            cell,
                        );
                }
            }
            assert(remaining(start, old_rectangles) =~= before);
        }
        remove_rectangle(cells, left_bottom, right_top);
        let rectangle = MassRectangle { left_bottom, right_top, mass };
        rectangles.push(rectangle);
        proof {
            assert(in_rectangle(left_bottom, right_top, origin));
            assert(!cells@.contains_key(origin));
            assert(cells@.dom() =~= before.dom().remove(origin).difference(
                Set::new(|cell: (i32, i32)| in_rectangle(left_bottom, right_top, cell)),
            ));
            vstd::set_lib::lemma_len_subset(cells@.dom(), before.dom().remove(origin));
            assert forall|k: int|
                0 <= k < rectangles@.len() implies (#[trigger] rectangles@[k]).left_bottom.x
                <= rectangles@[k].right_top.x && rectangles@[k].left_bottom.y
                <= rectangles@[k].right_top.y && uniform_rectangle(
                start,
                rectangles@[k].left_bottom,
                rectangles@[k].right_top,
                rectangles@[k].mass,
            ) by {
                if k == old_rectangles.len() {
                    assert forall|cell: (i32, i32)| #[trigger]
                        in_rectangle(left_bottom, right_top, cell) implies start.contains_key(cell)
                        && start[cell] == mass by {
                        assert(before.contains_key(cell));
                    }
                } else {
                    assert(rectangles@[k] == old_rectangles[k]);
                }
            }
            assert forall|k: int, cell: (i32, i32)|
                0 <= k < rectangles@.len() && in_rectangle(
                    (#[trigger] rectangles@[k]).left_bottom,
                    rectangles@[k].right_top,
                    cell,
                ) implies !#[trigger] cells@.contains_key(cell) by {
                if k < old_rectangles.len() {
                    assert(rectangles@[k] == old_rectangles[k]);
                    assert(!before.contains_key(cell));
                }
            }
            assert forall|k: int, l: int, cell: (i32, i32)|
                #![trigger in_rectangle(rectangles@[k].left_bottom, rectangles@[k].right_top, cell), in_rectangle(rectangles@[l].left_bottom, rectangles@[l].right_top, cell)]
                0 <= k < l < rectangles@.len() && in_rectangle(
                    rectangles@[k].left_bottom,
                    rectangles@[k].right_top,
                    cell,
                ) implies !in_rectangle(rectangles@[l].left_bottom, rectangles@[l].right_top, cell) by {
                assert(rectangles@[k] == old_rectangles[k]);
                if l == old_rectangles.len() {
                    assert(!before.contains_key(cell));
                } else {
                    assert(rectangles@[l] == old_rectangles[l]);
                }
            }
            assert forall|cell: (i32, i32)| #[trigger]
                start.contains_key(cell) implies cells@.contains_key(cell) || covered(
                rectangles@,
                cell,
            ) by {
                if !cells@.contains_key(cell) {
                    if before.contains_key(cell) {
                        assert(in_rectangle(rectangles@[old_rectangles.len() as int].left_bottom, rectangles@[old_rectangles.len() as int].right_top, cell));
                    } else {
                        let k = choose|k: int|
                            0 <= k < old_rectangles.len() && in_rectangle(
                                (#[trigger] old_rectangles[k]).left_bottom,
                                old_rectangles[k].right_top,
                                cell,
                            );
                        assert(rectangles@[k] == old_rectangles[k]);
                    }
                }
            }
            assert forall|k: int|
                0 <= k < rectangles@.len() implies maximal_rectangle(
                remaining(start, rectangles@.take(k)),
                (#[trigger] rectangles@[k]).left_bottom,
                rectangles@[k].right_top,
                rectangles@[k].mass,
            ) by {
                if k == old_rectangles.len() {
                    assert(rectangles@.take(k) =~= old_rectangles);
                } else {
                    assert(rectangles@.take(k) =~= old_rectangles.take(k));
                    assert(rectangles@[k] == old_rectangles[k]);
                }
            }
        }
    }
}

/// Lowest left-bottom corner and highest right-top corner over all the rectangles, each
/// coordinate on its own; `None` when there are none.
pub fn rectangles_bounds(rectangles: &[MassRectangle]) -> (bounds: Option<(GridPosition, GridPosition)>)
    ensures
        rectangles@.len() == 0 <==> bounds is None,
        bounds matches Some((min, max)) ==> {
            &&& forall|k: int|
                0 <= k < rectangles@.len() ==> min.x <= (#[trigger] rectangles@[k]).left_bottom.x
                    && min.y <= rectangles@[k].left_bottom.y && rectangles@[k].right_top.x <= max.x
                    && rectangles@[k].right_top.y <= max.y
            &&& exists|k: int|
                0 <= k < rectangles@.len() && (#[trigger] rectangles@[k]).left_bottom.x == min.x
            &&& exists|k: int|
                0 <= k < rectangles@.len() && (#[trigger] rectangles@[k]).left_bottom.y == min.y
            &&& exists|k: int|
                0 <= k < rectangles@.len() && (#[trigger] rectangles@[k]).right_top.x == max.x
            &&& exists|k: int|
                0 <= k < rectangles@.len() && (#[trigger] rectangles@[k]).right_top.y == max.y
        },
{
    if rectangles.len() == 0 {
        return None;
    }
    let mut min = rectangles[0].left_bottom;
    let mut max = rectangles[0].right_top;
    let ghost mut min_x: int = 0;
    let ghost mut min_y: int = 0;
    let ghost mut max_x: int = 0;
    let ghost mut max_y: int = 0;
    let mut index: usize = 1;
    while index < rectangles.len()
        invariant
            1 <= index <= rectangles@.len(),
            0 <= min_x < index && rectangles@[min_x].left_bottom.x == min.x,
            0 <= min_y < index && rectangles@[min_y].left_bottom.y == min.y,
            0 <= max_x < index && rectangles@[max_x].right_top.x == max.x,
            0 <= max_y < index && rectangles@[max_y].right_top.y == max.y,
            forall|k: int|
                0 <= k < index ==> min.x <= (#[trigger] rectangles@[k]).left_bottom.x && min.y
                    <= rectangles@[k].left_bottom.y && rectangles@[k].right_top.x <= max.x
                    && rectangles@[k].right_top.y <= max.y,
        decreases rectangles@.len() - index,
    {
        let rectangle = rectangles[index];
        if rectangle.left_bottom.x < min.x {
            min.x = rectangle.left_bottom.x;
            proof {
                min_x = index as int;
            }
        }
        if rectangle.left_bottom.y < min.y {
            min.y = rectangle.left_bottom.y;
            proof {
                min_y = index as int;
            }
        }
        if rectangle.right_top.x > max.x {
            max.x = rectangle.right_top.x;
            proof {
                max_x = index as int;
            }
        }
        if rectangle.right_top.y > max.y {
            max.y = rectangle.right_top.y;
            proof {
                max_y = index as int;
            }
        }
        index = index + 1;
    }
    Some((min, max))
}

} // verus!
