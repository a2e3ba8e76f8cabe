//! Chaining of fallible steps without nesting.
//!
//! [`OnlyOne`] adds two combinators to an outcome value (`Result`): `only` runs a
//! step whose failure type converts into the chain's failure type, and `only_or`
//! runs a step that may produce nothing, standing in a given failure for it.
//! A chain of them runs its steps left to right, stops at the first failure and
//! returns it, and otherwise returns the last success.
use vstd::prelude::*;

pub mod chain;

verus! {

/// `e` is a value that converting `g` into the chain's failure type may give.
pub open spec fn converts_to<G: Into<E>, E>(g: G, e: E) -> bool {
    call_ensures(<G as Into<E>>::into, (g,), e)
}

/// `only` may call its step on `s`: the step's own precondition holds on the
/// success payload, and nothing is asked of the step when `s` is a failure.
pub open spec fn only_callable<T, E, U, G, F: FnOnce(T) -> Result<U, G>>(
    s: Result<T, E>,
    f: F,
) -> bool {
    s is Ok ==> call_requires(f, (s->Ok_0,))
}

/// `r` is a result that `only` may give on `s` with step `f`: a failure of `s`
/// unchanged; on a success, what the step returned, its failure converted.
pub open spec fn only_outcome<T, E, U, G: Into<E>, F: FnOnce(T) -> Result<U, G>>(
    s: Result<T, E>,
    f: F,
    r: Result<U, E>,
) -> bool {
    match s {
        Ok(t) => exists|x: Result<U, G>|
            #[trigger] call_ensures(f, (t,), x) && match x {
                Ok(u) => r == Ok::<U, E>(u),
                Err(g) => r is Err && converts_to(g, r->Err_0),
            },
        Err(e) => r == Err::<U, E>(e),
    }
}

/// `only_or` may call its step on `s` (nothing is asked of it on a failure).
pub open spec fn only_or_callable<T, E, U, F: FnOnce(T) -> Option<U>>(s: Result<T, E>, f: F) -> bool {
    s is Ok ==> call_requires(f, (s->Ok_0,))
}

/// `r` is a result that `only_or` may give on `s` with step `f` and fallback
/// `error`: a failure of `s` unchanged; on a success, the step's value when it
/// gave one, else `error`.
pub open spec fn only_or_outcome<T, E, U, F: FnOnce(T) -> Option<U>>(
    s: Result<T, E>,
    f: F,
    error: E,
    r: Result<U, E>,
) -> bool {
    match s {
        Ok(t) => exists|o: Option<U>|
            #[trigger] call_ensures(f, (t,), o) && match o {
                Some(u) => r == Ok::<U, E>(u),
                None => r == Err::<U, E>(error),
            },
        Err(e) => r == Err::<U, E>(e),
    }
}

/// Chaining of fallible steps on an outcome value.
///
/// Each step runs only when the value is a success, and a failure passes
/// through every later step untouched.
pub trait OnlyOne<T> {
    /// The chain's failure type; every step's failure converts into it.
    type Error;

    /// The outcome this value stands for.
    spec fn outcome(self) -> Result<T, Self::Error>;

    /// Runs `f` on the success payload, converting its failure into
    /// `Self::Error`. On a failure `f` is not called and the failure is
    /// returned as it is, with no conversion.
    fn only<U, G, F>(self, f: F) -> (r: Result<U, Self::Error>) where
        F: FnOnce(T) -> Result<U, G>,
        G: Into<Self::Error>,
        Self: Sized,
        requires
            only_callable(self.outcome(), f),
        ensures
            only_outcome(self.outcome(), f, r),
    ;

    /// Runs `f` on the success payload and returns its value, or `error` when
    /// it gives none. On a failure `f` is not called and the failure is
    /// returned as it is.
    ///
    /// `error` is built by the caller before the call, whichever way it goes,
    /// so it should be cheap to make and free of side effects.
    fn only_or<U, F>(self, f: F, error: Self::Error) -> (r: Result<U, Self::Error>) where
        F: FnOnce(T) -> Option<U>,
        Self: Sized,
        requires
            only_or_callable(self.outcome(), f),
        ensures
            only_or_outcome(self.outcome(), f, error, r),
    ;
}

impl<Good, Bad> OnlyOne<Good> for Result<Good, Bad> {
    type Error = Bad;

    open spec fn outcome(self) -> Result<Good, Bad> {
        self
    }

    #[inline]
    fn only<U, G, F>(self, f: F) -> (r: Result<U, Bad>) where
        F: FnOnce(Good) -> Result<U, G>,
        G: Into<Bad>,
        Self: Sized,
        ensures
            only_outcome(self, f, r),
    {
        match self {
            Ok(o) => match f(o) {
                Ok(v) => Ok(v),
                Err(e) => {
                    // called as a function value, so that what it returned is
                    // recorded as one of its possible results (`converts_to`)
                    let convert = <G as Into<Bad>>::into;
                    Err(convert(e))
                },
            },
            Err(e) => Err(e),
        }
    }

    #[inline]
    fn only_or<U, F>(self, f: F, error: Bad) -> (r: Result<U, Bad>) where
        F: FnOnce(Good) -> Option<U>,
        Self: Sized,
        ensures
            only_or_outcome(self, f, error, r),
    {
        match self {
            Ok(v) => f(v).ok_or(error),
            Err(e) => Err(e),
        }
    }
}

} // verus!
