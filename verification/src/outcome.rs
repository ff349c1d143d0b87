//! The success-or-failure container and its combinators.
//!
//! Every operation here is a pure transformation of data: none of them
//! aborts, and a failure is never dropped on the way.

use vstd::prelude::*;
use vstd::std_specs::convert::FromSpec;

verus! {

/// The outcome of an operation that either succeeds with a `T` or fails
/// with an `E`. Exactly one of the two payloads is present.
#[derive(Debug, Clone, PartialEq, Eq)]
pub enum FallibleResult<T, E> {
    Success(T),
    Failure(E),
}

impl<T, E> FallibleResult<T, E> {
    /// This outcome holds a success value.
    pub open spec fn succeeded(&self) -> bool {
        *self is Success
    }

    /// This outcome holds a failure value.
    pub open spec fn failed(&self) -> bool {
        *self is Failure
    }

    /// The success value, or `default` where there is none.
    pub open spec fn value_or(self, default: T) -> T {
        match self {
            FallibleResult::Success(v) => v,
            FallibleResult::Failure(_) => default,
        }
    }

    /// The outcome of the dependent step `f` on the success value; a
    /// failure is passed on and `f` plays no part.
    pub open spec fn chained<U>(self, f: spec_fn(T) -> FallibleResult<U, E>) -> FallibleResult<
        U,
        E,
    > {
        match self {
            FallibleResult::Success(v) => f(v),
            FallibleResult::Failure(e) => FallibleResult::Failure(e),
        }
    }

    /// `out` is a possible result of mapping the success value with `f`.
    pub open spec fn maps_to<U, F: FnOnce(T) -> U>(self, f: F, out: FallibleResult<U, E>) -> bool {
        match self {
            FallibleResult::Success(v) => out matches FallibleResult::Success(u) && f.ensures(
                (v,),
                u,
            ),
            FallibleResult::Failure(e) => out == FallibleResult::<U, E>::Failure(e),
        }
    }

    /// `out` is a possible result of mapping the failure value with `f`.
    pub open spec fn error_maps_to<F, O: FnOnce(E) -> F>(
        self,
        f: O,
        out: FallibleResult<T, F>,
    ) -> bool {
        match self {
            FallibleResult::Success(v) => out == FallibleResult::<T, F>::Success(v),
            FallibleResult::Failure(e) => out matches FallibleResult::Failure(x) && f.ensures(
                (e,),
                x,
            ),
        }
    }

    /// `out` is a possible result of chaining the dependent step `f`.
    pub open spec fn chains_to<U, F: FnOnce(T) -> FallibleResult<U, E>>(
        self,
        f: F,
        out: FallibleResult<U, E>,
    ) -> bool {
        match self {
            FallibleResult::Success(v) => f.ensures((v,), out),
            FallibleResult::Failure(e) => out == FallibleResult::<U, E>::Failure(e),
        }
    }

    /// The outcome as it leaves a function whose error type is `F`: a
    /// failure has gone through the conversion registered from `E` to `F`,
    /// once, and a success is left as it is.
    pub open spec fn converted<F: From<E>>(self) -> FallibleResult<T, F> {
        match self {
            FallibleResult::Success(v) => FallibleResult::Success(v),
            FallibleResult::Failure(e) => FallibleResult::Failure(F::from_spec(e)),
        }
    }

    /// `out` is a possible result of propagating this outcome into the
    /// continuation `rest`, whose error type is `F`.
    pub open spec fn propagates_to<U, F: From<E>, K: FnOnce(T) -> FallibleResult<U, F>>(
        self,
        rest: K,
        out: FallibleResult<U, F>,
    ) -> bool {
        match self {
            FallibleResult::Success(v) => rest.ensures((v,), out),
            FallibleResult::Failure(e) => out matches FallibleResult::Failure(x) && call_ensures(
                F::from,
                (e,),
                x,
            ),
        }
    }

    /// The same outcome as a standard `Result`.
    pub open spec fn as_result(self) -> Result<T, E> {
        match self {
            FallibleResult::Success(v) => Ok(v),
            FallibleResult::Failure(e) => Err(e),
        }
    }

    /// Takes a standard `Result` as it is: `Ok` is success, `Err` failure.
    pub fn from_result(result: Result<T, E>) -> (out: FallibleResult<T, E>)
        ensures
            out == match result {
                Ok(v) => FallibleResult::<T, E>::Success(v),
                Err(e) => FallibleResult::<T, E>::Failure(e),
            },
            out.as_result() == result,
    {
        match result {
            Ok(v) => FallibleResult::Success(v),
            Err(e) => FallibleResult::Failure(e),
        }
    }

    /// Hands the outcome over as a standard `Result`.
    pub fn into_result(self) -> (result: Result<T, E>)
        ensures
            result == self.as_result(),
    {
        match self {
            FallibleResult::Success(v) => Ok(v),
            FallibleResult::Failure(e) => Err(e),
        }
    }

    /// Whether this outcome is a success.
    #[verifier::when_used_as_spec(succeeded)]
    pub fn is_success(&self) -> (b: bool)
        ensures
            b == self.succeeded(),
    {
        match self {
            FallibleResult::Success(_) => true,
            FallibleResult::Failure(_) => false,
        }
    }

    /// Whether this outcome is a failure.
    #[verifier::when_used_as_spec(failed)]
    pub fn is_failure(&self) -> (b: bool)
        ensures
            b == self.failed(),
    {
        match self {
            FallibleResult::Success(_) => false,
            FallibleResult::Failure(_) => true,
        }
    }

    /// Takes the success value out, or hands back `default` on a failure.
    pub fn unwrap_or(self, default: T) -> (v: T)
        ensures
            v == self.value_or(default),
    {
        match self {
            FallibleResult::Success(v) => v,
            FallibleResult::Failure(_) => default,
        }
    }

    /// Applies `f` to the success value. A failure passes through
    /// untouched, and `f` need not even be callable then.
    pub fn map<U, F: FnOnce(T) -> U>(self, f: F) -> (out: FallibleResult<U, E>)
        requires
            self matches FallibleResult::Success(v) ==> f.requires((v,)),
        ensures
            self.maps_to(f, out),
            self matches FallibleResult::Failure(e) ==> out == FallibleResult::<U, E>::Failure(e),
    {
        match self {
            FallibleResult::Success(v) => FallibleResult::Success(f(v)),
            FallibleResult::Failure(e) => FallibleResult::Failure(e),
        }
    }

    /// Applies `f` to the failure value. A success passes through
    /// untouched, and `f` need not even be callable then.
    pub fn map_error<F, O: FnOnce(E) -> F>(self, f: O) -> (out: FallibleResult<T, F>)
        requires
            self matches FallibleResult::Failure(e) ==> f.requires((e,)),
        ensures
            self.error_maps_to(f, out),
            self matches FallibleResult::Success(v) ==> out == FallibleResult::<T, F>::Success(v),
    {
        match self {
            FallibleResult::Success(v) => FallibleResult::Success(v),
            FallibleResult::Failure(e) => FallibleResult::Failure(f(e)),
        }
    }

    /// Runs the dependent step `f` on the success value. On a failure the
    /// step is skipped and the failure is handed on as it is; nothing is
    /// asked of `f` in that case.
    pub fn and_then<U, F: FnOnce(T) -> FallibleResult<U, E>>(self, f: F) -> (out: FallibleResult<
        U,
        E,
    >)
        requires
            self matches FallibleResult::Success(v) ==> f.requires((v,)),
        ensures
            self.chains_to(f, out),
            self matches FallibleResult::Failure(e) ==> out == FallibleResult::<U, E>::Failure(e),
    {
        match self {
            FallibleResult::Success(v) => f(v),
            FallibleResult::Failure(e) => FallibleResult::Failure(e),
        }
    }

    /// The conversion step of propagation on its own: a failure is turned
    /// into the error type `F` by the conversion registered for it, a
    /// success passes through.
    pub fn convert_error<F: From<E>>(self) -> (out: FallibleResult<T, F>)
        ensures
            self.error_maps_to(F::from, out),
            F::obeys_from_spec() ==> out == self.converted::<F>(),
    {
        match self {
            FallibleResult::Success(v) => FallibleResult::Success(v),
            FallibleResult::Failure(e) => FallibleResult::Failure(F::from(e)),
        }
    }

    /// The propagation shorthand. `rest` is what the enclosing function
    /// goes on to do with the success value. On a failure `rest` is skipped
    /// and the failure leaves at once, converted to the enclosing function's
    /// error type; nothing is asked of `rest` in that case.
    pub fn propagate<U, F: From<E>, K: FnOnce(T) -> FallibleResult<U, F>>(self, rest: K) -> (out:
        FallibleResult<U, F>)
        requires
            self matches FallibleResult::Success(v) ==> rest.requires((v,)),
        ensures
            self.propagates_to(rest, out),
            F::obeys_from_spec() ==> self.converted::<F>().chains_to(rest, out),
    {
        match self {
            FallibleResult::Success(v) => rest(v),
            FallibleResult::Failure(e) => FallibleResult::Failure(F::from(e)),
        }
    }
}

} // verus!
