use failsafe::failsafe_error::FailsafeError;
use failsafe::run_state::{PolicyActionState, RunState};

#[test]
fn error_messages_name_the_kind() {
    assert_eq!(FailsafeError::<u64>::TimeoutError.message(), "Timeout error");
    assert_eq!(FailsafeError::<u64>::RetryError.message(), "Retry error");
    assert_eq!(FailsafeError::<u64>::RunnableError(7).message(), "Runnable Error");
    assert_eq!(FailsafeError::<u64>::UsedFallback.message(), "Used Fallback");
    assert_eq!(FailsafeError::<u64>::UnknownError.message(), "Unknown Error");
    assert_eq!(FailsafeError::<u64>::CircuitBreakerOpen.message(), "Circuit Breaker Open");
}

#[test]
fn duplicate_keeps_the_kind_and_payload() {
    let e = FailsafeError::<String>::RunnableError(String::from("boom"));
    match e.duplicate() {
        FailsafeError::RunnableError(p) => assert_eq!(p, "boom"),
        _ => panic!("the copy changed its kind"),
    }
    assert!(matches!(
        FailsafeError::<String>::RetryError.duplicate(),
        FailsafeError::RetryError
    ));
}

#[test]
fn state_enums_compare_by_variant() {
    assert_eq!(PolicyActionState::Success, PolicyActionState::Success);
    assert_ne!(PolicyActionState::Retry, PolicyActionState::UsingFallback);
    assert_eq!(RunState::Success, RunState::Success);
    assert_ne!(RunState::TimeoutError, RunState::CircuitBreakerError);
}
