//! How the outcome of a node follows from the outcomes of its parts.

use crate::dns_client::{fits, DnsAnswerView};
use crate::resolvables::{outcome, step_of, ResolvableItem, ResolvableSpec, StepView};
use vstd::prelude::*;

verus! {

/// A node whose next step needs no query comes to that step, with no answer given.
pub proof fn lemma_outcome_without_query<T: ResolvableSpec<I>, I: ResolvableItem>(
    m: T::Model,
    r: Option<I>,
)
    requires
        T::advanced(m).1 == step_of(r),
    ensures
        outcome::<T, I>(m, Seq::empty()) == Some((T::advanced(m).0, r)),
{
}

/// A node that asks a query goes on, once it has the answer, from where the answer puts it.
pub proof fn lemma_outcome_after_answer<T: ResolvableSpec<I>, I: ResolvableItem>(
    m: T::Model,
    answer: DnsAnswerView,
    given: Seq<DnsAnswerView>,
)
    requires
        T::advanced(m).1 matches StepView::Query(query) && fits(query, answer),
    ensures
        outcome::<T, I>(m, seq![answer] + given) == outcome::<T, I>(
            T::supplied(T::advanced(m).0, answer),
            given,
        ),
{
    let all = seq![answer] + given;
    assert(all[0] == answer);
    assert(all.drop_first() =~= given);
}

/// A node that wraps another, and steps and takes answers as the other
/// does, comes to what the other comes to, wrapped.
pub proof fn lemma_outcome_lifted<W: ResolvableSpec<I>, T: ResolvableSpec<I>, I: ResolvableItem>(
    wrap: spec_fn(T::Model) -> W::Model,
    good: spec_fn(T::Model) -> bool,
    m: T::Model,
    given: Seq<DnsAnswerView>,
)
    requires
        good(m),
        forall|x: T::Model| #[trigger]
            good(x) ==> W::advanced(wrap(x)) == (wrap(T::advanced(x).0), T::advanced(x).1) && good(
                T::advanced(x).0,
            ),
        forall|x: T::Model, a: DnsAnswerView|
            good(x) ==> #[trigger] W::supplied(wrap(x), a) == wrap(T::supplied(x, a)) && good(
                T::supplied(x, a),
            ),
    ensures
        outcome::<W, I>(wrap(m), given) == (match outcome::<T, I>(m, given) {
            Some((after, r)) => Some((wrap(after), r)),
            None => None,
        }),
    decreases given.len(),
{
    let (next, step) = T::advanced(m);
    assert(good(next));
    assert(W::advanced(wrap(m)) == (wrap(next), step));
    match step {
        StepView::Query(query) => {
            if given.len() > 0 && fits(query, given[0]) {
                let fed = T::supplied(next, given[0]);
                assert(W::supplied(wrap(next), given[0]) == wrap(fed));
                assert(good(fed));
                lemma_outcome_lifted::<W, T, I>(wrap, good, fed, given.drop_first());
            }
        },
        _ => {},
    }
}

} // verus!
