//! Scheduling of chunk processing: chunks are split into batches whose members are far
//! enough apart (more than two chunks on some axis) to be processed in parallel, since a
//! step of the simulation touches only a chunk and its direct neighbours.
use super::GridPosition;
use vstd::multiset::Multiset;
use vstd::prelude::*;

verus! {

broadcast use {vstd::seq_lib::group_to_multiset_ensures, vstd::multiset::group_multiset_axioms};

/// Whether two distinct chunks are at most two chunks apart on both axes, so that the
/// neighbourhoods they touch while being processed may overlap.
pub open spec fn near(a: GridPosition, b: GridPosition) -> bool {
    &&& a != b
    &&& -2 <= a.x - b.x <= 2
    &&& -2 <= a.y - b.y <= 2
}

/// Whether `p` is `center` or one of its eight direct neighbours: the chunks that a step
/// of the simulation of `center` touches.
pub open spec fn in_neighbourhood(center: GridPosition, p: GridPosition) -> bool {
    -1 <= p.x - center.x <= 1 && -1 <= p.y - center.y <= 1
}

/// Two distinct chunks that are not near each other touch disjoint neighbourhoods, so the
/// chunks of one batch can be processed at the same time.
pub proof fn lemma_separated_neighbourhoods_are_disjoint(a: GridPosition, b: GridPosition, p: GridPosition)
    requires
        a != b,
        !near(a, b),
    ensures
        !(in_neighbourhood(a, p) && in_neighbourhood(b, p)),
{
}

/// Whether the offsets between a chunk and its neighbours can be computed without overflow.
pub open spec fn within_limits(p: GridPosition) -> bool {
    -(i32::MAX - 2) <= p.x <= i32::MAX - 2 && -(i32::MAX - 2) <= p.y <= i32::MAX - 2
}

/// Number of occurrences of a chunk in a sequence.
pub open spec fn occurrences(s: Seq<GridPosition>, p: GridPosition) -> nat {
    s.to_multiset().count(p)
}

/// One less, stopping at zero.
pub open spec fn decrement(n: nat) -> nat {
    if n > 0 {
        (n - 1) as nat
    } else {
        0
    }
}

/// Index of the first occurrence of `target` in `items`.
fn position_of(items: &Vec<GridPosition>, target: GridPosition) -> (index: Option<usize>)
    ensures
        match index {
            Some(i) => i < items@.len() && items@[i as int] == target,
            None => !items@.contains(target),
        },
{
    let mut index: usize = 0;
    while index < items.len()
        invariant
            index <= items@.len(),
            forall|j: int| 0 <= j < index ==> items@[j] != target,
        decreases items@.len() - index,
    {
        if items[index] == target {
            return Some(index);
        }
        index = index + 1;
    }
    None
}

/// Removes the first occurrence of `target`, if any.
fn remove_first(items: &mut Vec<GridPosition>, target: GridPosition)
    ensures
        final(items)@.len() <= old(items)@.len(),
        final(items)@.to_multiset() == old(items)@.to_multiset().remove(target),
{
    match position_of(items, target) {
        Some(index) => {
            let ghost before = items@;
            items.remove(index);
            assert(before.remove(index as int) == items@);
        },
        None => {
            assert(old(items)@.to_multiset().count(target) == 0);
            assert(old(items)@.to_multiset().remove(target) =~= old(items)@.to_multiset());
        },
    }
}

/// Whether a chunk is near `center` at an offset visited before `(dx, dy)` in row order.
pub open spec fn visited_neighbour(center: GridPosition, p: GridPosition, dx: int, dy: int) -> bool {
    near(center, p) && (p.x - center.x < dx || (p.x - center.x == dx && p.y - center.y < dy))
}

/// Removes one occurrence of every chunk near `center`.
fn remove_neighbours(available: &mut Vec<GridPosition>, center: GridPosition)
    requires
        within_limits(center),
    ensures
        final(available)@.len() <= old(available)@.len(),
        forall|p: GridPosition|
            #[trigger] occurrences(final(available)@, p) == if near(center, p) {
                decrement(occurrences(old(available)@, p))
            } else {
                occurrences(old(available)@, p)
            },
{
    let ghost start = available@;
    let mut dx: i32 = -2;
    while dx <= 2
        invariant
            -2 <= dx <= 3,
            within_limits(center),
            available@.len() <= start.len(),
            forall|p: GridPosition|
                #[trigger] occurrences(available@, p) == if visited_neighbour(center, p, dx as int, -2) {
                    decrement(occurrences(start, p))
                } else {
                    occurrences(start, p)
                },
        decreases 3 - dx,
    {
        let mut dy: i32 = -2;
        while dy <= 2
            invariant
                -2 <= dx <= 2,
                -2 <= dy <= 3,
                within_limits(center),
                available@.len() <= start.len(),
                forall|p: GridPosition|
                    #[trigger] occurrences(available@, p) == if visited_neighbour(center, p, dx as int, dy as int) {
                        decrement(occurrences(start, p))
                    } else {
                        occurrences(start, p)
                    },
            decreases 3 - dy,
        {
            if dx != 0 || dy != 0 {
                let target = GridPosition::new(center.x + dx, center.y + dy);
                let ghost before = available@;
                remove_first(available, target);
                assert forall|p: GridPosition|
                    #[trigger] occurrences(available@, p) == if visited_neighbour(center, p, dx as int, dy + 1) {
                        decrement(occurrences(start, p))
                    } else {
                        occurrences(start, p)
                    } by {
                    assert(available@.to_multiset() == before.to_multiset().remove(target));
                    if p == target {
                        assert(near(center, p));
                        assert(!visited_neighbour(center, p, dx as int, dy as int));
                        assert(occurrences(available@, p) == decrement(occurrences(before, p)));
                    } else {
                        if p.x - center.x == dx && p.y - center.y == dy {
                            assert(p == target);
                        }
                        assert(occurrences(available@, p) == occurrences(before, p));
                    }
                }
            } else {
                assert forall|p: GridPosition|
                    #[trigger] occurrences(available@, p) == if visited_neighbour(center, p, dx as int, dy + 1) {
                        decrement(occurrences(start, p))
                    } else {
                        occurrences(start, p)
                    } by {
                    if p.x - center.x == dx && p.y - center.y == dy {
                        assert(p == center);
                    }
                }
            }
            dy = dy + 1;
        }
        dx = dx + 1;
    }
}


/// The chunks of each batch, as sequences.
pub open spec fn batches_view(batches: Seq<Vec<GridPosition>>) -> Seq<Seq<GridPosition>> {
    batches.map_values(|batch: Vec<GridPosition>| batch@)
}

/// No two chunks of a batch are near each other.
pub open spec fn separated(batch: Seq<GridPosition>) -> bool {
    forall|i: int, j: int|
        0 <= i < batch.len() && 0 <= j < batch.len() ==> !near(#[trigger] batch[i], #[trigger] batch[j])
}

/// Some chunk of a batch is near `p`.
pub open spec fn covers(batch: Seq<GridPosition>, p: GridPosition) -> bool {
    exists|i: int| 0 <= i < batch.len() && near(#[trigger] batch[i], p)
}

/// Splits the chunks to process into batches that can each be processed in parallel.
///
/// Every chunk lands in exactly one batch and no batch is empty. When the chunks are
/// distinct, no two chunks of a batch are near each other, and every chunk of a later
/// batch is near some chunk of each earlier batch: each batch takes, from the chunks
/// not yet scheduled, as many as it can.
pub fn schedule_chunks(chunks: &[GridPosition]) -> (batches: Vec<Vec<GridPosition>>)
    requires
        forall|i: int| 0 <= i < chunks@.len() ==> within_limits(#[trigger] chunks@[i]),
    ensures
        forall|k: int| 0 <= k < batches@.len() ==> (#[trigger] batches@[k])@.len() > 0,
        batches_view(batches@).flatten().to_multiset() == chunks@.to_multiset(),
        chunks@.no_duplicates() ==> forall|k: int|
            0 <= k < batches@.len() ==> separated(#[trigger] batches@[k]@),
        chunks@.no_duplicates() ==> forall|k: int, m: int, j: int|
            0 <= k < m < batches@.len() && 0 <= j < batches@[m]@.len() ==> covers(
                #[trigger] batches@[k]@,
                #[trigger] batches@[m]@[j],
            ),
{
    let ghost input = chunks@;
    let ghost nd = input.no_duplicates();
    proof {
        if nd {
            input.lemma_multiset_has_no_duplicates();
        }
        assert forall|p: GridPosition| occurrences(input, p) > 0 implies within_limits(p) by {
            assert(input.contains(p));
        }
    }
    let mut remaining: Vec<GridPosition> = vstd::slice::slice_to_vec(chunks);
    let mut batches: Vec<Vec<GridPosition>> = Vec::new();
    assert(batches_view(batches@).flatten() =~= Seq::<GridPosition>::empty());
    assert(remaining@.to_multiset().add(Seq::<GridPosition>::empty().to_multiset())
        =~= input.to_multiset());
    while remaining.len() > 0
        invariant
            input == chunks@,
            nd == input.no_duplicates(),
            remaining@.to_multiset().add(batches_view(batches@).flatten().to_multiset())
                == input.to_multiset(),
            forall|p: GridPosition| occurrences(input, p) > 0 ==> within_limits(p),
            forall|k: int| 0 <= k < batches@.len() ==> (#[trigger] batches@[k])@.len() > 0,
            nd ==> forall|p: GridPosition| #[trigger] occurrences(input, p) <= 1,
            nd ==> forall|k: int| 0 <= k < batches@.len() ==> separated(#[trigger] batches@[k]@),
            nd ==> forall|k: int, m: int, j: int|
                0 <= k < m < batches@.len() && 0 <= j < batches@[m]@.len() ==> covers(
                    #[trigger] batches@[k]@,
                    #[trigger] batches@[m]@[j],
                ),
            nd ==> forall|k: int, p: GridPosition|
                0 <= k < batches@.len() && occurrences(remaining@, p) > 0 ==> #[trigger] covers(batches@[k]@, p),
        decreases remaining@.len(),
    {
        let ghost r0 = remaining@;
        let ghost flat = batches_view(batches@).flatten();
        let mut now: Vec<GridPosition> = Vec::new();
        let mut available: Vec<GridPosition> = vstd::slice::slice_to_vec(remaining.as_slice());
        proof {
            assert forall|p: GridPosition| #[trigger] occurrences(r0, p) <= occurrences(input, p) by {
                assert(r0.to_multiset().add(flat.to_multiset()).count(p) == occurrences(input, p));
            }
            assert(now@.to_multiset() =~= Multiset::<GridPosition>::empty());
            assert(remaining@.to_multiset().add(now@.to_multiset()) =~= r0.to_multiset());
        }
        while available.len() > 0
            invariant
                nd ==> forall|p: GridPosition| #[trigger] occurrences(r0, p) <= 1,
                forall|p: GridPosition| occurrences(r0, p) > 0 ==> within_limits(p),
                remaining@.to_multiset().add(now@.to_multiset()) == r0.to_multiset(),
                available@.to_multiset().subset_of(remaining@.to_multiset()),
                now@.len() > 0 || available@.len() > 0,
                nd ==> separated(now@),
                nd ==> forall|i: int, j: int|
                    0 <= i < now@.len() && 0 <= j < available@.len() ==> !near(
                        #[trigger] now@[i],
                        #[trigger] available@[j],
                    ),
                nd ==> forall|p: GridPosition|
                    occurrences(remaining@, p) > 0 ==> #[trigger] occurrences(available@, p) > 0
                        || covers(now@, p),
            decreases available@.len(),
        {
            let ghost a0 = available@;
            let ghost n0 = now@;
            let ghost rem0 = remaining@;
            let center = match available.pop() {
                Some(center) => center,
                None => vstd::pervasive::unreached(),
            };
            let ghost a1 = available@;
            proof {
                assert(a1.push(center) =~= a0);
                assert(occurrences(a0, center) > 0);
                assert(occurrences(rem0, center) > 0);
                assert(occurrences(r0, center) > 0) by {
                    assert(rem0.to_multiset().add(n0.to_multiset()).count(center) == occurrences(r0, center));
                }
                assert(rem0.contains(center));
            }
            let index = match position_of(&remaining, center) {
                Some(index) => index,
                None => vstd::pervasive::unreached(),
            };
            remaining.remove(index);
            now.push(center);
            remove_neighbours(&mut available, center);
            proof {
                assert(rem0.remove(index as int) == remaining@);
                assert(remaining@.to_multiset() =~= rem0.to_multiset().remove(center));
                assert(a0.to_multiset() =~= a1.to_multiset().insert(center));
                assert(n0.push(center) == now@);
                assert(now@.to_multiset() =~= n0.to_multiset().insert(center));
                assert(remaining@.to_multiset().add(now@.to_multiset()) =~= r0.to_multiset()) by {
                    assert forall|p: GridPosition| #[trigger] remaining@.to_multiset().add(now@.to_multiset()).count(p)
                        == r0.to_multiset().count(p) by {
                        assert(rem0.to_multiset().add(n0.to_multiset()).count(p) == r0.to_multiset().count(p));
                    }
                }
                assert forall|p: GridPosition| #[trigger] available@.to_multiset().count(p) <= remaining@.to_multiset().count(p) by {
                    assert(a0.to_multiset().count(p) <= rem0.to_multiset().count(p));
                    assert(occurrences(available@, p) <= occurrences(a1, p));
                }
                assert(available@.to_multiset().subset_of(remaining@.to_multiset()));
                if nd {
                    assert forall|p: GridPosition| #[trigger] occurrences(a0, p) <= 1 by {
                        assert(a0.to_multiset().count(p) <= rem0.to_multiset().count(p));
                        assert(rem0.to_multiset().add(n0.to_multiset()).count(p) == r0.to_multiset().count(p));
                        assert(occurrences(r0, p) <= 1);
                    }
                    assert forall|i: int, j: int|
                        0 <= i < now@.len() && 0 <= j < now@.len() implies !near(
                        #[trigger] now@[i],
                        #[trigger] now@[j],
                    ) by {
                        if i < n0.len() && j == n0.len() {
                            assert(a0[a0.len() - 1] == center);
                            assert(!near(n0[i], a0[a0.len() - 1]));
                        } else if j < n0.len() && i == n0.len() {
                            assert(a0[a0.len() - 1] == center);
                            assert(!near(n0[j], a0[a0.len() - 1]));
                        }
                    }
                    assert forall|i: int, j: int|
                        0 <= i < now@.len() && 0 <= j < available@.len() implies !near(
                        #[trigger] now@[i],
                        #[trigger] available@[j],
                    ) by {
                        let y = available@[j];
                        assert(available@.contains(y));
                        assert(occurrences(available@, y) > 0);
                        if i == n0.len() {
                            if near(center, y) {
                                assert(occurrences(a1, y) <= occurrences(a0, y));
                                assert(false);
                            }
                        } else {
                            assert(occurrences(a0, y) > 0);
                            assert(a0.contains(y));
                            let j0 = choose|j0: int| 0 <= j0 < a0.len() && a0[j0] == y;
                            assert(!near(n0[i], a0[j0]));
                        }
                    }
                    assert forall|p: GridPosition|
                        occurrences(remaining@, p) > 0 implies #[trigger] occurrences(available@, p) > 0
                            || covers(now@, p) by {
                        assert(occurrences(rem0, p) > 0);
                        if p == center {
                            assert(rem0.to_multiset().add(n0.to_multiset()).count(p) == r0.to_multiset().count(p));
                            assert(false);
                        }
                        if covers(n0, p) {
                            let i = choose|i: int| 0 <= i < n0.len() && near(n0[i], p);
                            assert(now@[i] == n0[i]);
                            assert(covers(now@, p));
                        } else if near(center, p) {
                            assert(now@[n0.len() as int] == center);
                            assert(covers(now@, p));
                        } else {
                            assert(occurrences(a0, p) > 0);
                            assert(occurrences(a1, p) > 0);
                        }
                    }
                }
            }
        }
        let ghost batch = now@;
        let ghost b0 = batches@;
        batches.push(now);
        proof {
            assert(batches_view(batches@) =~= batches_view(b0).push(batch));
            batches_view(b0).lemma_flatten_push(batch);
            assert(batches_view(batches@).flatten() == flat + batch);
            vstd::seq_lib::lemma_multiset_commutative(flat, batch);
            assert(remaining@.to_multiset().add(batches_view(batches@).flatten().to_multiset())
                =~= input.to_multiset()) by {
                assert forall|p: GridPosition| #[trigger] remaining@.to_multiset().add(
                    batches_view(batches@).flatten().to_multiset(),
                ).count(p) == input.to_multiset().count(p) by {
                    assert(remaining@.to_multiset().add(batch.to_multiset()).count(p) == r0.to_multiset().count(p));
                    assert(r0.to_multiset().add(flat.to_multiset()).count(p) == input.to_multiset().count(p));
                }
            }
            assert(remaining@.to_multiset().len() + batch.to_multiset().len() == r0.to_multiset().len());
            assert(batches@[b0.len() as int]@ == batch);
            assert forall|k: int| 0 <= k < batches@.len() implies (#[trigger] batches@[k])@.len() > 0 by {
                if k < b0.len() {
                    assert(batches@[k] == b0[k]);
                }
            }
            if nd {
                assert forall|k: int| 0 <= k < batches@.len() implies separated(#[trigger] batches@[k]@) by {
                    if k < b0.len() {
                        assert(batches@[k] == b0[k]);
                    }
                }
                assert forall|k: int, m: int, j: int|
                    0 <= k < m < batches@.len() && 0 <= j < batches@[m]@.len() implies covers(
                    #[trigger] batches@[k]@,
                    #[trigger] batches@[m]@[j],
                ) by {
                    assert(batches@[k] == b0[k]);
                    if m < b0.len() {
                        assert(batches@[m] == b0[m]);
                    } else {
                        let q = batch[j];
                        assert(batch.contains(q));
                        assert(occurrences(batch, q) > 0);
                        assert(remaining@.to_multiset().add(batch.to_multiset()).count(q) == r0.to_multiset().count(q));
                        assert(occurrences(r0, q) > 0);
                    }
                }
                assert forall|k: int, p: GridPosition|
                    0 <= k < batches@.len() && occurrences(remaining@, p) > 0 implies #[trigger] covers(batches@[k]@, p) by {
                    assert(remaining@.to_multiset().add(batch.to_multiset()).count(p) == r0.to_multiset().count(p));
                    if k < b0.len() {
                        assert(batches@[k] == b0[k]);
                        assert(occurrences(r0, p) > 0);
                    } else {
                        assert(available@.to_multiset().len() == 0);
                        assert(occurrences(available@, p) == 0);
                    }
                }
            }
        }
    }
    batches
}

} // verus!
