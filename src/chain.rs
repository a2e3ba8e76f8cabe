//! Chains of steps written as spec functions, and how `only` and `only_or`
//! relate to the same chain written by hand as nested conditionals.
use vstd::prelude::*;

use crate::converts_to;
use crate::only_or_outcome;
use crate::only_outcome;

verus! {

/// One step written out by hand: on a success run `step`, converting its
/// failure with `conv`; a failure goes on unchanged.
pub open spec fn nested_then<T, E, U, G>(
    s: Result<T, E>,
    step: spec_fn(T) -> Result<U, G>,
    conv: spec_fn(G) -> E,
) -> Result<U, E> {
    match s {
        Ok(t) => match step(t) {
            Ok(u) => Ok(u),
            Err(g) => Err(conv(g)),
        },
        Err(e) => Err(e),
    }
}

/// One optional step written out by hand: on a success run `step`, taking
/// `error` when it gives nothing; a failure goes on unchanged.
pub open spec fn nested_or<T, E, U>(
    s: Result<T, E>,
    step: spec_fn(T) -> Option<U>,
    error: E,
) -> Result<U, E> {
    match s {
        Ok(t) => match step(t) {
            Some(u) => Ok(u),
            None => Err(error),
        },
        Err(e) => Err(e),
    }
}

/// `f` always returns what `step` gives on its argument.
pub open spec fn computes<A, B, F: FnOnce(A) -> B>(f: F, step: spec_fn(A) -> B) -> bool {
    forall|a: A, b: B| #[trigger] call_ensures(f, (a,), b) ==> b == step(a)
}

/// Converting from `G` into `E` always gives what `conv` gives.
pub open spec fn converts_by<G: Into<E>, E>(conv: spec_fn(G) -> E) -> bool {
    forall|g: G, e: E| #[trigger] converts_to(g, e) ==> e == conv(g)
}

/// Whatever `only` returns on `s` with a step that computes `step`, it is
/// what the nested conditional gives.
pub proof fn lemma_only_is_nested<T, E, U, G: Into<E>, F: FnOnce(T) -> Result<U, G>>(
    s: Result<T, E>,
    f: F,
    step: spec_fn(T) -> Result<U, G>,
    conv: spec_fn(G) -> E,
    r: Result<U, E>,
)
    requires
        computes(f, step),
        converts_by(conv),
        only_outcome(s, f, r),
    ensures
        r == nested_then(s, step, conv),
{
    if let Ok(t) = s {
        let x = choose|x: Result<U, G>|
            #[trigger] call_ensures(f, (t,), x) && match x {
                Ok(u) => r == Ok::<U, E>(u),
                Err(g) => r is Err && converts_to(g, r->Err_0),
            };
        assert(x == step(t));
        if let Err(g) = x {
            assert(converts_to(g, r->Err_0));
        }
    }
}

/// Whatever `only_or` returns on `s` with a step that computes `step`, it is
/// what the nested conditional gives.
pub proof fn lemma_only_or_is_nested<T, E, U, F: FnOnce(T) -> Option<U>>(
    s: Result<T, E>,
    f: F,
    step: spec_fn(T) -> Option<U>,
    error: E,
    r: Result<U, E>,
)
    requires
        computes(f, step),
        only_or_outcome(s, f, error, r),
    ensures
        r == nested_or(s, step, error),
{
    if let Ok(t) = s {
        let o = choose|o: Option<U>|
            #[trigger] call_ensures(f, (t,), o) && match o {
                Some(u) => r == Ok::<U, E>(u),
                None => r == Err::<U, E>(error),
            };
        assert(o == step(t));
    }
}

/// A failure handed to `only` or `only_or` asks nothing of the step and comes
/// back unchanged, with no conversion.
pub proof fn lemma_failure_passes_through<
    T,
    E,
    U,
    G: Into<E>,
    F: FnOnce(T) -> Result<U, G>,
    H: FnOnce(T) -> Option<U>,
>(e: E, f: F, h: H, error: E, r: Result<U, E>)
    ensures
        crate::only_callable(Err::<T, E>(e), f),
        crate::only_or_callable(Err::<T, E>(e), h),
        only_outcome(Err::<T, E>(e), f, r) <==> r == Err::<U, E>(e),
        only_or_outcome(Err::<T, E>(e), h, error, r) <==> r == Err::<U, E>(e),
{
}

/// Three steps written out by hand as nested conditionals: a step with its
/// own failure type, then an optional step, then another such step.
pub open spec fn nested_chain<T, E, U1, G1, U2, U3, G3>(
    s: Result<T, E>,
    step1: spec_fn(T) -> Result<U1, G1>,
    conv1: spec_fn(G1) -> E,
    step2: spec_fn(U1) -> Option<U2>,
    error: E,
    step3: spec_fn(U2) -> Result<U3, G3>,
    conv3: spec_fn(G3) -> E,
) -> Result<U3, E> {
    match s {
        Ok(t) => match step1(t) {
            Ok(u1) => match step2(u1) {
                Some(u2) => match step3(u2) {
                    Ok(u3) => Ok(u3),
                    Err(g3) => Err(conv3(g3)),
                },
                None => Err(error),
            },
            Err(g1) => Err(conv1(g1)),
        },
        Err(e) => Err(e),
    }
}

/// The chain `s.only(f1).only_or(f2, error).only(f3)` gives what the same
/// three steps give written out as nested conditionals.
pub proof fn lemma_chain_is_nested<
    T,
    E,
    U1,
    G1: Into<E>,
    U2,
    U3,
    G3: Into<E>,
    F1: FnOnce(T) -> Result<U1, G1>,
    F2: FnOnce(U1) -> Option<U2>,
    F3: FnOnce(U2) -> Result<U3, G3>,
>(
    s: Result<T, E>,
    f1: F1,
    step1: spec_fn(T) -> Result<U1, G1>,
    conv1: spec_fn(G1) -> E,
    r1: Result<U1, E>,
    f2: F2,
    step2: spec_fn(U1) -> Option<U2>,
    error: E,
    r2: Result<U2, E>,
    f3: F3,
    step3: spec_fn(U2) -> Result<U3, G3>,
    conv3: spec_fn(G3) -> E,
    r3: Result<U3, E>,
)
    requires
        computes(f1, step1),
        computes(f2, step2),
        computes(f3, step3),
        converts_by(conv1),
        converts_by(conv3),
        only_outcome(s, f1, r1),
        only_or_outcome(r1, f2, error, r2),
        only_outcome(r2, f3, r3),
    ensures
        r3 == nested_chain(s, step1, conv1, step2, error, step3, conv3),
{
    lemma_only_is_nested(s, f1, step1, conv1, r1);
    lemma_only_or_is_nested(r1, f2, step2, error, r2);
    lemma_only_is_nested(r2, f3, step3, conv3, r3);
}

/// The outcome of a chain of steps that share one payload and one failure
/// type, each run on the outcome of the one before as `only` runs it (the
/// conversion of a failure into its own type being the identity).
pub open spec fn run_steps<T, E>(s: Result<T, E>, steps: Seq<spec_fn(T) -> Result<T, E>>) -> Result<
    T,
    E,
>
    decreases steps.len(),
{
    if steps.len() == 0 {
        s
    } else {
        run_steps(nested_then(s, steps[0], |e: E| e), steps.drop_first())
    }
}

/// How many steps of the chain are called: each one is called only on a
/// success.
pub open spec fn steps_called<T, E>(s: Result<T, E>, steps: Seq<spec_fn(T) -> Result<T, E>>) -> nat
    decreases steps.len(),
{
    if steps.len() == 0 {
        0
    } else {
        match s {
            Ok(t) => 1 + steps_called(steps[0](t), steps.drop_first()),
            Err(_) => 0,
        }
    }
}

/// A chain that starts from a failure calls none of its steps and gives that
/// failure.
pub proof fn lemma_failed_chain_stays<T, E>(e: E, steps: Seq<spec_fn(T) -> Result<T, E>>)
    ensures
        run_steps(Err::<T, E>(e), steps) == Err::<T, E>(e),
        steps_called(Err::<T, E>(e), steps) == 0,
    decreases steps.len(),
{
    if steps.len() > 0 {
        lemma_failed_chain_stays(e, steps.drop_first());
    }
}

/// When the first `k - 1` steps succeed and step `k` fails, exactly `k` steps
/// are called, and the chain gives the failure of step `k`.
pub proof fn lemma_short_circuit<T, E>(s: Result<T, E>, steps: Seq<spec_fn(T) -> Result<T, E>>, k: nat)
    requires
        1 <= k <= steps.len(),
        run_steps(s, steps.take(k - 1)) is Ok,
        run_steps(s, steps.take(k as int)) is Err,
    ensures
        steps_called(s, steps) == k,
        run_steps(s, steps) == run_steps(s, steps.take(k as int)),
    decreases k,
{
    if s is Err {
        lemma_failed_chain_stays(s->Err_0, steps.take(k - 1));
    } else {
        let next = steps[0](s->Ok_0);
        let rest = steps.drop_first();
        assert(steps.take(k as int).drop_first() =~= rest.take(k - 1));
        assert(steps.take(k as int)[0] == steps[0]);
        if k == 1 {
            lemma_failed_chain_stays(next->Err_0, rest);
        } else {
            assert(steps.take(k - 1).drop_first() =~= rest.take(k - 2));
            assert(steps.take(k - 1)[0] == steps[0]);
            lemma_short_circuit(next, rest, (k - 1) as nat);
        }
    }
}

} // verus!
