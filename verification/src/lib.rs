//! Early-return error wrapping for functions that chain sub-operations
//! with distinct error types.
//!
//! A function that calls several fallible sub-operations, each with its
//! own error type, usually declares one unified error enum whose variants
//! each wrap one source's error. The construct here, [`try_or_wrap`],
//! takes the outcome of one sub-operation together with the conversion
//! into that enum: on success it hands the payload back to continue with;
//! on failure it hands back the wrapped error, which the call site
//! propagates at once with a check-and-return. The first failure wins;
//! nothing after it runs; the original error payload travels inside the
//! variant unchanged.
//!
//! The rest of the crate is a worked example of the pattern: two
//! sub-operations with distinct error types, a unified error enum, and
//! [`try_both`], which chains them.

use vstd::prelude::*;

verus! {

/// Given one sub-operation's outcome and the conversion from its failure
/// type into the enclosing function's error type, yield `Ok(payload)` to
/// continue with, or `Err(converted)` which the call site must return at
/// once.
///
/// The outcome is taken by value, so the sub-operation expression has
/// been evaluated exactly once before this runs; the conversion is
/// `FnOnce`, is applied only on failure, and at most once.
pub fn try_or_wrap<T, E, W, F: FnOnce(E) -> W>(outcome: Result<T, E>, wrap: F) -> (r: Result<
    T,
    W,
>)
    requires
        forall|e: E| #[trigger] call_requires(wrap, (e,)),
    ensures
        outcome is Ok ==> r == Ok::<T, W>(outcome->Ok_0),
        outcome is Err ==> r is Err && call_ensures(wrap, (outcome->Err_0,), r->Err_0),
{
    match outcome {
        Ok(v) => Ok(v),
        Err(e) => Err(wrap(e)),
    }
}

/// The first sub-operation's error type.
#[derive(Clone, Copy, PartialEq, Eq, Debug)]
pub enum ErrorTypeA {
    Fail,
}

/// The second sub-operation's error type.
#[derive(Clone, Copy, PartialEq, Eq, Debug)]
pub enum ErrorTypeB {
    Fail,
}

/// The unified error type: one variant per failure source, each carrying
/// that source's error unchanged.
#[derive(Clone, Copy, PartialEq, Eq, Debug)]
pub enum ErrorWrapper {
    WrapA(ErrorTypeA),
    WrapB(ErrorTypeB),
}

/// The first sub-operation's error, where this wraps one.
pub open spec fn payload_a(w: ErrorWrapper) -> Option<ErrorTypeA> {
    match w {
        ErrorWrapper::WrapA(e) => Some(e),
        ErrorWrapper::WrapB(_) => None,
    }
}

/// The second sub-operation's error, where this wraps one.
pub open spec fn payload_b(w: ErrorWrapper) -> Option<ErrorTypeB> {
    match w {
        ErrorWrapper::WrapA(_) => None,
        ErrorWrapper::WrapB(e) => Some(e),
    }
}

impl ErrorWrapper {
    /// Recover the first sub-operation's error from its variant.
    pub fn unwrap_a(self) -> (r: Option<ErrorTypeA>)
        ensures
            r == payload_a(self),
    {
        match self {
            ErrorWrapper::WrapA(e) => Some(e),
            ErrorWrapper::WrapB(_) => None,
        }
    }

    /// Recover the second sub-operation's error from its variant.
    pub fn unwrap_b(self) -> (r: Option<ErrorTypeB>)
        ensures
            r == payload_b(self),
    {
        match self {
            ErrorWrapper::WrapA(_) => None,
            ErrorWrapper::WrapB(e) => Some(e),
        }
    }
}

/// What the first sub-operation returns for a given input.
pub open spec fn work_a_outcome(success: bool) -> Result<(), ErrorTypeA> {
    if success {
        Ok(())
    } else {
        Err(ErrorTypeA::Fail)
    }
}

/// What the second sub-operation returns for a given input.
pub open spec fn work_b_outcome(success: bool) -> Result<(), ErrorTypeB> {
    if success {
        Ok(())
    } else {
        Err(ErrorTypeB::Fail)
    }
}

/// What chaining the two sub-operations yields: the first failure,
/// wrapped as its own variant, or success once both succeed.
pub open spec fn try_both_outcome(success_a: bool, success_b: bool) -> Result<(), ErrorWrapper> {
    if !success_a {
        Err(ErrorWrapper::WrapA(ErrorTypeA::Fail))
    } else if !success_b {
        Err(ErrorWrapper::WrapB(ErrorTypeB::Fail))
    } else {
        Ok(())
    }
}

/// The conversion for the first sub-operation: wrap its error as its
/// own variant of the unified error type.
pub fn wrap_a(e: ErrorTypeA) -> (w: ErrorWrapper)
    ensures
        w == ErrorWrapper::WrapA(e),
{
    ErrorWrapper::WrapA(e)
}

/// The conversion for the second sub-operation: wrap its error as its
/// own variant of the unified error type.
pub fn wrap_b(e: ErrorTypeB) -> (w: ErrorWrapper)
    ensures
        w == ErrorWrapper::WrapB(e),
{
    ErrorWrapper::WrapB(e)
}

/// The first sub-operation: succeeds or fails as told.
pub fn do_work_a(success: bool) -> (r: Result<(), ErrorTypeA>)
    ensures
        r == work_a_outcome(success),
{
    match success {
        true => Ok(()),
        false => Err(ErrorTypeA::Fail),
    }
}

/// The second sub-operation: succeeds or fails as told.
pub fn do_work_b(success: bool) -> (r: Result<(), ErrorTypeB>)
    ensures
        r == work_b_outcome(success),
{
    match success {
        true => Ok(()),
        false => Err(ErrorTypeB::Fail),
    }
}

/// Chain the two sub-operations, wrapping each one's failure as its own
/// variant of [`ErrorWrapper`] and returning on the first failure.
pub fn try_both(success_a: bool, success_b: bool) -> (r: Result<(), ErrorWrapper>)
    ensures
        r == try_both_outcome(success_a, success_b),
{
    let step_a = try_or_wrap(do_work_a(success_a), wrap_a);
    match step_a {
        Ok(v) => v,
        Err(w) => return Err(w),
    };
    let step_b = try_or_wrap(do_work_b(success_b), wrap_b);
    match step_b {
        Ok(v) => v,
        Err(w) => return Err(w),
    };
    Ok(())
}

/// For every pair of sub-operation fates: two successes give success
/// with no payload; otherwise the first failure wins, wrapped as the
/// variant of the sub-operation that failed and carrying its original
/// error.
pub proof fn lemma_first_failure_wins(success_a: bool, success_b: bool)
    ensures
        success_a && success_b ==> try_both_outcome(success_a, success_b) == Ok::<
            (),
            ErrorWrapper,
        >(()),
        !success_a ==> try_both_outcome(success_a, success_b) == Err::<(), ErrorWrapper>(
            ErrorWrapper::WrapA(ErrorTypeA::Fail),
        ),
        success_a && !success_b ==> try_both_outcome(success_a, success_b) == Err::<
            (),
            ErrorWrapper,
        >(ErrorWrapper::WrapB(ErrorTypeB::Fail)),
{
}

/// The chain is deterministic: any two outcomes that the contract of
/// [`try_both`] admits on the same inputs are equal, so re-evaluation
/// yields the same outcome.
pub proof fn lemma_deterministic(
    success_a: bool,
    success_b: bool,
    r1: Result<(), ErrorWrapper>,
    r2: Result<(), ErrorWrapper>,
)
    requires
        r1 == try_both_outcome(success_a, success_b),
        r2 == try_both_outcome(success_a, success_b),
    ensures
        r1 == r2,
{
}

/// When the first sub-operation fails, the overall outcome does not
/// depend on the second sub-operation at all: the chain short-circuits.
pub proof fn lemma_short_circuit(success_a: bool, success_b1: bool, success_b2: bool)
    requires
        !success_a,
    ensures
        try_both_outcome(success_a, success_b1) == try_both_outcome(success_a, success_b2),
{
}

/// Wrapping a failure and reading it back yields the original payload
/// unchanged, for either variant.
pub proof fn lemma_wrap_round_trip(a: ErrorTypeA, b: ErrorTypeB)
    ensures
        payload_a(ErrorWrapper::WrapA(a)) == Some(a),
        payload_b(ErrorWrapper::WrapB(b)) == Some(b),
{
}

} // verus!
