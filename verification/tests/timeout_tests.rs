use minisync::custom_error::CustomError;
use minisync::timeout_result::TimeoutResult;

fn quick_success_task() -> Option<Result<i32, CustomError>> {
    Some(Ok(42))
}

fn slow_success_task() -> Option<Result<i32, CustomError>> {
    Some(Ok(100))
}

fn quick_error_task() -> Option<Result<i32, CustomError>> {
    Some(Err(CustomError::not_found("test error".to_string())))
}

fn slow_error_task() -> Option<Result<i32, CustomError>> {
    Some(Err(CustomError::not_found("slow error".to_string())))
}

fn timeout_task() -> Option<Result<i32, CustomError>> {
    None
}

#[test]
fn test_timeout_with_result_success() {
    let result = TimeoutResult::settle(quick_success_task());

    match result {
        TimeoutResult::Success(value) => assert_eq!(value, 42),
        _ => panic!("Expected Success(42)"),
    }
}

#[test]
fn test_timeout_with_result_error() {
    let result = TimeoutResult::settle(quick_error_task());

    match result {
        TimeoutResult::Error(err) => match err {
            CustomError::ResourceNotFound(msg) => assert_eq!(msg, "test error"),
            _ => panic!("Expected ResourceNotFound error"),
        },
        _ => panic!("Expected Error"),
    }
}

#[test]
fn test_timeout_with_result_timeout() {
    let result = TimeoutResult::settle(timeout_task());

    match result {
        TimeoutResult::TimedOut => (),
        _ => panic!("Expected TimedOut"),
    }
}

#[test]
fn test_timeout_with_result_slow_success() {
    let result = TimeoutResult::settle(slow_success_task());

    match result {
        TimeoutResult::Success(value) => assert_eq!(value, 100),
        _ => panic!("Expected Success(100)"),
    }
}

#[test]
fn test_timeout_with_result_slow_error() {
    let result = TimeoutResult::settle(slow_error_task());

    match result {
        TimeoutResult::Error(err) => match err {
            CustomError::ResourceNotFound(msg) => assert_eq!(msg, "slow error"),
            _ => panic!("Expected ResourceNotFound error"),
        },
        _ => panic!("Expected Error"),
    }
}

#[test]
fn test_timeout_with_result_with_fallback() {
    let result = TimeoutResult::settle_or(timeout_task(), Ok(123));

    match result {
        TimeoutResult::Success(value) => assert_eq!(value, 123),
        _ => panic!("Expected Success(123) from fallback"),
    }
}

#[test]
fn fallback_is_unused_when_in_time() {
    let result = TimeoutResult::settle_or(quick_success_task(), Ok(123));
    assert!(matches!(result, TimeoutResult::Success(42)));
    let result = TimeoutResult::settle_or(quick_error_task(), Ok(123));
    assert!(matches!(result, TimeoutResult::Error(CustomError::ResourceNotFound(_))));
}

#[test]
fn fallback_error_counts_as_error() {
    let fallback: Result<i32, CustomError> = Err(CustomError::unknown("down".to_string()));
    match TimeoutResult::settle_or(timeout_task(), fallback) {
        TimeoutResult::Error(CustomError::Unknown(msg)) => assert_eq!(msg, "down"),
        _ => panic!("Expected Error from fallback"),
    }
}

#[test]
fn from_result_keeps_both_cases() {
    let ok: TimeoutResult<u8, u8> = TimeoutResult::from_result(Ok(1));
    assert!(matches!(ok, TimeoutResult::Success(1)));
    let err: TimeoutResult<u8, u8> = TimeoutResult::from_result(Err(2));
    assert!(matches!(err, TimeoutResult::Error(2)));
}
