//! The laws of composition: what holds of every outcome and of every
//! function handed to a combinator.

use crate::cause::ParseCause;
use crate::error_kind::ErrorKind;
use crate::outcome::FallibleResult;
use vstd::prelude::*;
use vstd::std_specs::convert::FromSpec;

verus! {

/// Of `is_success` and `is_failure`, exactly one holds of any outcome.
pub proof fn lemma_success_or_failure<T, E>(r: FallibleResult<T, E>)
    ensures
        r.is_success() != r.is_failure(),
{
}

/// Mapping a failure leaves it as it is, whatever the function: no result
/// but the same failure is possible.
pub proof fn lemma_map_keeps_failure<T, U, E, F: FnOnce(T) -> U>(
    e: E,
    f: F,
    out: FallibleResult<U, E>,
)
    requires
        FallibleResult::<T, E>::Failure(e).maps_to(f, out),
    ensures
        out == FallibleResult::<U, E>::Failure(e),
{
}

/// Mapping the error of a success leaves it as it is, whatever the
/// function.
pub proof fn lemma_map_error_keeps_success<T, E, F, O: FnOnce(E) -> F>(
    v: T,
    f: O,
    out: FallibleResult<T, F>,
)
    requires
        FallibleResult::<T, E>::Success(v).error_maps_to(f, out),
    ensures
        out == FallibleResult::<T, F>::Success(v),
{
}

/// Chaining a step onto a failure gives that failure, whatever the step:
/// the step has no say in the result.
pub proof fn lemma_and_then_short_circuits<T, U, E, F: FnOnce(T) -> FallibleResult<U, E>>(
    e: E,
    f: F,
    out: FallibleResult<U, E>,
)
    requires
        FallibleResult::<T, E>::Failure(e).chains_to(f, out),
    ensures
        out == FallibleResult::<U, E>::Failure(e),
{
}

/// A combinator applied to an outcome whose function is a plain
/// mathematical function gives what the functional reading says.
pub proof fn lemma_functional_reading<T, U, E, F: FnOnce(T) -> FallibleResult<U, E>>(
    r: FallibleResult<T, E>,
    f: F,
    model: spec_fn(T) -> FallibleResult<U, E>,
    out: FallibleResult<U, E>,
)
    requires
        forall|v: T, o: FallibleResult<U, E>| f.ensures((v,), o) ==> o == model(v),
        r.chains_to(f, out),
    ensures
        out == r.chained(model),
{
}

/// `out` can come of chaining `f` onto `r` and then `g` onto the result.
pub open spec fn grouped_left<
    T,
    U,
    V,
    E,
    F: FnOnce(T) -> FallibleResult<U, E>,
    G: FnOnce(U) -> FallibleResult<V, E>,
>(r: FallibleResult<T, E>, f: F, g: G, out: FallibleResult<V, E>) -> bool {
    exists|mid: FallibleResult<U, E>| r.chains_to(f, mid) && mid.chains_to(g, out)
}

/// `out` can come of chaining onto `r` the one step that runs `f` and
/// chains `g` onto what it gave.
pub open spec fn grouped_right<
    T,
    U,
    V,
    E,
    F: FnOnce(T) -> FallibleResult<U, E>,
    G: FnOnce(U) -> FallibleResult<V, E>,
>(r: FallibleResult<T, E>, f: F, g: G, out: FallibleResult<V, E>) -> bool {
    match r {
        FallibleResult::Success(v) => exists|mid: FallibleResult<U, E>|
            f.ensures((v,), mid) && mid.chains_to(g, out),
        FallibleResult::Failure(e) => out == FallibleResult::<V, E>::Failure(e),
    }
}

/// Chaining is associative: three steps give the same outcomes however
/// they are grouped.
pub proof fn lemma_and_then_associative<
    T,
    U,
    V,
    E,
    F: FnOnce(T) -> FallibleResult<U, E>,
    G: FnOnce(U) -> FallibleResult<V, E>,
>(r: FallibleResult<T, E>, f: F, g: G, out: FallibleResult<V, E>)
    ensures
        grouped_left(r, f, g, out) <==> grouped_right(r, f, g, out),
{
    match r {
        FallibleResult::Success(v) => {
            if grouped_left(r, f, g, out) {
                let mid = choose|mid: FallibleResult<U, E>|
                    r.chains_to(f, mid) && mid.chains_to(g, out);
                assert(f.ensures((v,), mid) && mid.chains_to(g, out));
            }
            if grouped_right(r, f, g, out) {
                let mid = choose|mid: FallibleResult<U, E>|
                    f.ensures((v,), mid) && mid.chains_to(g, out);
                assert(r.chains_to(f, mid) && mid.chains_to(g, out));
            }
        },
        FallibleResult::Failure(e) => {
            let mid = FallibleResult::<U, E>::Failure(e);
            if out == FallibleResult::<V, E>::Failure(e) {
                assert(r.chains_to(f, mid) && mid.chains_to(g, out));
            }
        },
    }
}

/// Where the first of three steps gave `v` and the second can only fail
/// on it with `e`, the chain ends in that failure however it is grouped,
/// and the third step has no say.
pub proof fn lemma_and_then_middle_failure<
    T,
    U,
    V,
    E,
    F: FnOnce(T) -> FallibleResult<U, E>,
    G: FnOnce(U) -> FallibleResult<V, E>,
>(v: T, e: E, f: F, g: G, out: FallibleResult<V, E>)
    requires
        forall|mid: FallibleResult<U, E>|
            f.ensures((v,), mid) ==> mid == FallibleResult::<U, E>::Failure(e),
        grouped_left(FallibleResult::<T, E>::Success(v), f, g, out) || grouped_right(
            FallibleResult::<T, E>::Success(v),
            f,
            g,
            out,
        ),
    ensures
        out == FallibleResult::<V, E>::Failure(e),
{
    lemma_and_then_associative(FallibleResult::<T, E>::Success(v), f, g, out);
}

/// Chaining is associative in its functional reading too.
pub proof fn lemma_chained_associative<T, U, V, E>(
    r: FallibleResult<T, E>,
    f: spec_fn(T) -> FallibleResult<U, E>,
    g: spec_fn(U) -> FallibleResult<V, E>,
)
    ensures
        r.chained(f).chained(g) == r.chained(|v: T| f(v).chained(g)),
{
}

/// The propagation shorthand is sugar: whatever it gives, converting the
/// error once and then chaining the rest gives too.
pub proof fn lemma_propagate_is_convert_then_chain<
    T,
    U,
    E,
    F: From<E>,
    K: FnOnce(T) -> FallibleResult<U, F>,
>(r: FallibleResult<T, E>, rest: K, out: FallibleResult<U, F>)
    requires
        F::obeys_from_spec(),
        r.propagates_to(rest, out),
    ensures
        r.converted::<F>().chains_to(rest, out),
{
}

/// Propagating a parse failure by the shorthand gives what matching on the
/// outcome by hand and returning `ErrorKind::from_parse` of the error
/// gives.
pub proof fn lemma_propagated_parse_failure<T>(step: FallibleResult<T, ParseCause>)
    ensures
        step.converted::<ErrorKind>() == match step {
            FallibleResult::Success(v) => FallibleResult::<T, ErrorKind>::Success(v),
            FallibleResult::Failure(e) => FallibleResult::<T, ErrorKind>::Failure(
                ErrorKind::ParseFailure(e),
            ),
        },
{
}

} // verus!
