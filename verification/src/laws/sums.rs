//! Sums over finite sets.

use vstd::prelude::*;

verus! {

/// The sum of what a function gives for the elements of a finite set.
pub open spec fn sum_over<A>(elements: Set<A>, f: spec_fn(A) -> int) -> int
    decreases elements.len(),
    when elements.finite()
{
    if elements.is_empty() {
        0
    } else {
        let element = elements.choose();
        f(element) + sum_over(elements.remove(element), f)
    }
}

/// Any element can be taken out of a sum.
pub proof fn lemma_sum_without<A>(elements: Set<A>, f: spec_fn(A) -> int, element: A)
    requires
        elements.finite(),
        elements.contains(element),
    ensures
        sum_over(elements, f) == f(element) + sum_over(elements.remove(element), f),
    decreases elements.len(),
{
    let chosen = elements.choose();
    if chosen != element {
        lemma_sum_without(elements.remove(chosen), f, element);
        lemma_sum_without(elements.remove(element), f, chosen);
        assert(elements.remove(chosen).remove(element) =~= elements.remove(element).remove(chosen));
    }
}

/// A sum depends only on what the function gives for the elements.
pub proof fn lemma_sum_of_equals<A>(elements: Set<A>, f: spec_fn(A) -> int, g: spec_fn(A) -> int)
    requires
        elements.finite(),
        forall|element: A| #[trigger] elements.contains(element) ==> f(element) == g(element),
    ensures
        sum_over(elements, f) == sum_over(elements, g),
    decreases elements.len(),
{
    if !elements.is_empty() {
        let chosen = elements.choose();
        assert(elements.contains(chosen));
        lemma_sum_of_equals(elements.remove(chosen), f, g);
    }
}

}
