use try_or_wrap::do_work_a;
use try_or_wrap::do_work_b;
use try_or_wrap::try_both;
use try_or_wrap::try_or_wrap;
use try_or_wrap::wrap_a;
use try_or_wrap::wrap_b;
use try_or_wrap::ErrorTypeA;
use try_or_wrap::ErrorTypeB;
use try_or_wrap::ErrorWrapper;

#[test]
fn with_error_a() {
    assert_eq!(
        Err(ErrorWrapper::WrapA(ErrorTypeA::Fail)),
        try_both(false, false)
    );
}

#[test]
fn with_error_b() {
    assert_eq!(
        Err(ErrorWrapper::WrapB(ErrorTypeB::Fail)),
        try_both(true, false)
    );
}

#[test]
fn without_error() {
    assert_eq!(Ok(()), try_both(true, true));
}

#[test]
fn first_failure_hides_second_input() {
    // With the first sub-operation failing, the second's fate never
    // shows: both calls give the first failure, wrapped.
    assert_eq!(try_both(false, true), try_both(false, false));
    assert_eq!(
        Err(ErrorWrapper::WrapA(ErrorTypeA::Fail)),
        try_both(false, true)
    );
}

#[test]
fn repeated_calls_agree() {
    let inputs = [(false, false), (false, true), (true, false), (true, true)];
    for (a, b) in inputs {
        assert_eq!(try_both(a, b), try_both(a, b));
    }
}

#[test]
fn round_trip_recovers_payload() {
    assert_eq!(
        Some(ErrorTypeA::Fail),
        wrap_a(ErrorTypeA::Fail).unwrap_a()
    );
    assert_eq!(
        Some(ErrorTypeB::Fail),
        wrap_b(ErrorTypeB::Fail).unwrap_b()
    );
}

#[test]
fn unwrap_of_other_variant_is_none() {
    assert_eq!(None, wrap_b(ErrorTypeB::Fail).unwrap_a());
    assert_eq!(None, wrap_a(ErrorTypeA::Fail).unwrap_b());
}

#[test]
fn try_or_wrap_passes_success_through() {
    let r: Result<u32, ErrorWrapper> = try_or_wrap(Ok::<u32, ErrorTypeA>(7), wrap_a);
    assert_eq!(Ok(7), r);
}

#[test]
fn try_or_wrap_wraps_failure() {
    let r: Result<u32, ErrorWrapper> =
        try_or_wrap(Err::<u32, ErrorTypeA>(ErrorTypeA::Fail), wrap_a);
    assert_eq!(Err(ErrorWrapper::WrapA(ErrorTypeA::Fail)), r);
}

#[test]
fn sub_operations_report_their_own_errors() {
    assert_eq!(Ok(()), do_work_a(true));
    assert_eq!(Err(ErrorTypeA::Fail), do_work_a(false));
    assert_eq!(Ok(()), do_work_b(true));
    assert_eq!(Err(ErrorTypeB::Fail), do_work_b(false));
}
