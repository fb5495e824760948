use crate::cell::GhostCell;
use crate::token::GhostToken;
use vstd::prelude::*;

verus! {

/// However many times a cell is read through one shared token reference, each
/// read observes the payload that the cell holds, so all of them agree.
pub proof fn lemma_shared_reads_agree<'id, T>(
    cell: &GhostCell<'id, T>,
    token: &GhostToken<'id>,
    reads: Seq<&T>,
)
    requires
        forall|i: int|
            0 <= i < reads.len() ==> call_ensures(
                GhostCell::<'id, T>::ro,
                (cell, token),
                #[trigger] reads[i],
            ),
    ensures
        forall|i: int| 0 <= i < reads.len() ==> *(#[trigger] reads[i]) == cell@,
        forall|i: int, j: int|
            0 <= i < reads.len() && 0 <= j < reads.len() ==> *(#[trigger] reads[i]) == *(
            #[trigger] reads[j]),
{
}

/// Replacing the payload by `first` and then by `second` hands out the
/// payload that the cell started with, then `first`, and leaves `second` in
/// the cell.
pub proof fn lemma_replace_twice<'id, T>(first: T, second: T)
    ensures
        forall|
            c1: &mut GhostCell<'id, T>,
            c2: &mut GhostCell<'id, T>,
            t1: &mut GhostToken<'id>,
            t2: &mut GhostToken<'id>,
            r1: T,
            r2: T,
        |
            #[trigger] call_ensures(GhostCell::<'id, T>::replace, (c1, first, t1), r1)
                && (*c2)@ == (*final(c1))@
                && #[trigger] call_ensures(GhostCell::<'id, T>::replace, (c2, second, t2), r2)
                ==> r1 == (*c1)@ && r2 == first && (*final(c2))@ == second,
{
}

/// Swapping a cell with one outside location twice puts both payloads back
/// where they were.
pub proof fn lemma_swap_twice<'id, T>()
    ensures
        forall|
            c1: &mut GhostCell<'id, T>,
            c2: &mut GhostCell<'id, T>,
            x1: &mut T,
            x2: &mut T,
            t1: &mut GhostToken<'id>,
            t2: &mut GhostToken<'id>,
        |
            #[trigger] call_ensures(GhostCell::<'id, T>::swap, (c1, x1, t1), ())
                && (*c2)@ == (*final(c1))@
                && *x2 == *final(x1)
                && #[trigger] call_ensures(GhostCell::<'id, T>::swap, (c2, x2, t2), ())
                ==> (*final(c2))@ == (*c1)@ && *final(x2) == *x1,
{
}

} // verus!
