use crypto_checker::errors::{AppError, IntoInternal, ProblemDetails};

#[test]
fn insufficient_sources_report() {
    let p = ProblemDetails::from(AppError::InsufficientSources);
    assert_eq!(p.title, "Price Unavailable");
    assert_eq!(p.status, 503);
    assert_eq!(p.detail, "Unable to retrieve price data at this time, please try again");
}

#[test]
fn internal_error_report_hides_cause() {
    let p = ProblemDetails::from(AppError::Internal { error: "database password is hunter2".to_string() });
    assert_eq!(p.title, "Internal Server Error");
    assert_eq!(p.status, 500);
    assert_eq!(p.detail, "An unexpected error occurred");
}

#[test]
fn unsupported_value_report() {
    let p = ProblemDetails::from(AppError::UnsupportedValue {
        param: "currency",
        value: "EUR".to_string(),
        supported: &["USD"],
    });
    assert_eq!(p.title, "Invalid Parameter");
    assert_eq!(p.status, 400);
    assert_eq!(p.detail, "\"EUR\" is not a supported value for \"currency\", accepted values are: USD");

    let p = ProblemDetails::from(AppError::UnsupportedValue {
        param: "currency",
        value: "JPY".to_string(),
        supported: &["USD", "EUR", "GBP"],
    });
    assert_eq!(p.detail, "\"JPY\" is not a supported value for \"currency\", accepted values are: USD, EUR, GBP");
}

#[test]
fn required_parameter_report() {
    let p = ProblemDetails::from(AppError::RequiredParameter { param: "coin" });
    assert_eq!(p.title, "Required Parameter");
    assert_eq!(p.status, 400);
    assert_eq!(p.detail, "Missing required parameter: coin");
}

#[test]
fn or_internal_error_keeps_success_and_wraps_failure() {
    let ok: Result<u32, &str> = Ok(7);
    assert!(matches!(ok.or_internal_error(), Ok(7)));
    let err: Result<u32, &str> = Err("upstream closed the connection");
    match err.or_internal_error() {
        Err(AppError::Internal { error }) => assert_eq!(error, "upstream closed the connection"),
        other => panic!("unexpected {:?}", other),
    }
    let err: Result<(), String> = Err("boom".to_string());
    match err.or_internal_error() {
        Err(AppError::Internal { error }) => assert_eq!(error, "boom"),
        other => panic!("unexpected {:?}", other),
    }
}
