//! The first of several faults.

use vstd::prelude::*;

verus! {

/// The first fault in a list of checks, with the number of the check that
/// found it.
pub open spec fn first_fault<E>(faults: Seq<Option<E>>) -> Option<(int, E)>
    decreases faults.len(),
{
    if faults.len() == 0 {
        None
    } else {
        match first_fault(faults.drop_last()) {
            Some(found) => Some(found),
            None => match faults.last() {
                Some(e) => Some((faults.len() - 1, e)),
                None => None,
            },
        }
    }
}

/// What one more check adds to those before it.
pub proof fn lemma_first_fault_step<E>(faults: Seq<Option<E>>, i: int)
    requires
        0 <= i < faults.len(),
    ensures
        first_fault(faults.take(i + 1)) == match first_fault(faults.take(i)) {
            Some(found) => Some(found),
            None => match faults[i] {
                Some(e) => Some((i, e)),
                None => None,
            },
        },
{
    assert(faults.take(i + 1).drop_last() =~= faults.take(i));
}

/// A fault that was found stays the first, whatever follows.
pub proof fn lemma_first_fault_kept<E>(faults: Seq<Option<E>>, i: int, j: int)
    requires
        0 <= i <= j <= faults.len(),
        first_fault(faults.take(i)) is Some,
    ensures
        first_fault(faults.take(j)) == first_fault(faults.take(i)),
    decreases j - i,
{
    if i < j {
        lemma_first_fault_kept(faults, i, j - 1);
        lemma_first_fault_step(faults, j - 1);
    }
}

/// The first fault is reported with its number, and no check before it found
/// one.
pub proof fn lemma_first_fault_found<E>(faults: Seq<Option<E>>, i: int)
    requires
        0 <= i < faults.len(),
        first_fault(faults.take(i)) is None,
        faults[i] is Some,
    ensures
        first_fault(faults) == Some((i, faults[i]->0)),
{
    lemma_first_fault_step(faults, i);
    lemma_first_fault_kept(faults, i + 1, faults.len() as int);
    assert(faults.take(faults.len() as int) =~= faults);
}

} // verus!
