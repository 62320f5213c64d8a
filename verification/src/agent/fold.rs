//! Reading a list of items one by one into a state, where any item may be
//! refused: the first refusal ends the reading.

use vstd::prelude::*;

verus! {

/// The state after all `items` were taken in from `start`, or the error of
/// the first item that was refused.
pub open spec fn fold_until_error<S, I, E>(
    start: S,
    items: Seq<I>,
    step: spec_fn(S, I) -> Result<S, E>,
) -> Result<S, E>
    decreases items.len(),
{
    if items.len() == 0 {
        Ok(start)
    } else {
        match fold_until_error(start, items.drop_last(), step) {
            Ok(state) => step(state, items.last()),
            Err(error) => Err(error),
        }
    }
}

/// The state that the reading got to: the state after all items, or the
/// state in which the first refused item was met.
pub open spec fn fold_reached<S, I, E>(
    start: S,
    items: Seq<I>,
    step: spec_fn(S, I) -> Result<S, E>,
) -> S
    decreases items.len(),
{
    if items.len() == 0 {
        start
    } else {
        match fold_until_error(start, items.drop_last(), step) {
            Ok(state) => match step(state, items.last()) {
                Ok(next) => next,
                Err(_) => state,
            },
            Err(_) => fold_reached(start, items.drop_last(), step),
        }
    }
}

/// Taking in one more item continues from the state reached so far.
pub proof fn lemma_fold_next<S, I, E>(
    start: S,
    items: Seq<I>,
    step: spec_fn(S, I) -> Result<S, E>,
    count: int,
)
    requires
        0 <= count < items.len(),
    ensures
        fold_until_error(start, items.take(count + 1), step) == match fold_until_error(
            start,
            items.take(count),
            step,
        ) {
            Ok(state) => step(state, items[count]),
            Err(error) => Err(error),
        },
        fold_until_error(start, items.take(count), step) matches Ok(state) ==> fold_reached(
            start,
            items.take(count + 1),
            step,
        ) == match step(state, items[count]) {
            Ok(next) => next,
            Err(_) => state,
        },
{
    assert(items.take(count + 1).drop_last() =~= items.take(count));
}

/// Nothing is read after the first refusal: its error is the error of the
/// whole reading, and the state stays where it was.
pub proof fn lemma_fold_error_sticks<S, I, E>(
    start: S,
    items: Seq<I>,
    step: spec_fn(S, I) -> Result<S, E>,
    count: int,
)
    requires
        0 <= count <= items.len(),
        fold_until_error(start, items.take(count), step) is Err,
    ensures
        fold_until_error(start, items, step) == fold_until_error(start, items.take(count), step),
        fold_reached(start, items, step) == fold_reached(start, items.take(count), step),
    decreases items.len() - count,
{
    if count == items.len() {
        assert(items.take(count) =~= items);
    } else {
        lemma_fold_next(start, items, step, count);
        assert(items.take(count + 1).drop_last() =~= items.take(count));
        lemma_fold_error_sticks(start, items, step, count + 1);
    }
}

/// A reading that went through reached the state it returns.
pub proof fn lemma_fold_reached_ok<S, I, E>(
    start: S,
    items: Seq<I>,
    step: spec_fn(S, I) -> Result<S, E>,
)
    ensures
        fold_until_error(start, items, step) matches Ok(state) ==> fold_reached(
            start,
            items,
            step,
        ) == state,
    decreases items.len(),
{
    if items.len() > 0 {
        lemma_fold_reached_ok(start, items.drop_last(), step);
    }
}

} // verus!
