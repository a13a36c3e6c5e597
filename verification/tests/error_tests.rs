use minisync::custom_error::CustomError;
use minisync::timeout_result::TimeoutResult;
use minisync::timeout_result::TimeoutResultError;
use std::ops::ControlFlow;

#[test]
fn constructors_pick_the_variant() {
    assert!(matches!(CustomError::unauthorized("a".to_string()), CustomError::Unauthorized(m) if m == "a"));
    assert!(matches!(CustomError::not_found("b".to_string()), CustomError::ResourceNotFound(m) if m == "b"));
    assert!(matches!(CustomError::timeout("c".to_string()), CustomError::Timeout(m) if m == "c"));
    assert!(matches!(CustomError::unknown("d".to_string()), CustomError::Unknown(m) if m == "d"));
}

#[test]
fn message_has_heading_and_detail() {
    assert_eq!(CustomError::unauthorized("no key".to_string()).message(), "Unauthorized: no key");
    assert_eq!(CustomError::not_found("123".to_string()).message(), "Resource not found: 123");
    assert_eq!(CustomError::timeout("slow".to_string()).message(), "Operation timed out: slow");
    assert_eq!(CustomError::unknown("".to_string()).message(), "Unknown error: ");
}

#[test]
fn timed_out_becomes_timeout_error() {
    let error = CustomError::from(TimeoutResultError::TimedOut);
    match error {
        CustomError::Timeout(msg) => {
            assert_eq!(msg, "Operation did not complete within the allotted time")
        }
        _ => panic!("Expected Timeout"),
    }
}

#[test]
fn inner_error_passes_through() {
    let inner = CustomError::not_found("test error".to_string());
    match CustomError::from(TimeoutResultError::Error(inner)) {
        CustomError::ResourceNotFound(msg) => assert_eq!(msg, "test error"),
        _ => panic!("Expected ResourceNotFound error"),
    }
}

#[test]
fn branch_continues_on_success() {
    let result: TimeoutResult<i32, CustomError> = TimeoutResult::from_output(42);
    match result.branch() {
        ControlFlow::Continue(value) => assert_eq!(value, 42),
        ControlFlow::Break(_) => panic!("Expected Success(42)"),
    }
}

#[test]
fn branch_breaks_on_error_and_timeout() {
    let failed: TimeoutResult<i32, &str> = TimeoutResult::Error("slow error");
    match failed.branch() {
        ControlFlow::Break(Err(TimeoutResultError::Error(e))) => assert_eq!(e, "slow error"),
        _ => panic!("Expected Error"),
    }
    let late: TimeoutResult<i32, &str> = TimeoutResult::TimedOut;
    assert!(matches!(
        late.branch(),
        ControlFlow::Break(Err(TimeoutResultError::TimedOut))
    ));
}

#[test]
fn from_residual_restores_the_ending() {
    let back: TimeoutResult<u8, u16> = TimeoutResult::from_residual(TimeoutResultError::Error(7));
    assert!(matches!(back, TimeoutResult::Error(7)));
    let back: TimeoutResult<u8, u16> = TimeoutResult::from_residual(TimeoutResultError::TimedOut);
    assert!(matches!(back, TimeoutResult::TimedOut));
}
