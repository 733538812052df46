use crypto_checker::errors::{AppError, ProblemDetails};
use crypto_checker::price::{
    check_price_query, gather_sources, is_supported_fiat, latency_entries, latency_text,
    query_params, settings, supported_fiat, timeout_error, MIN_SOURCES,
};

fn params(pairs: &[(&str, &str)]) -> crypto_checker::price::QueryParams {
    let query: Vec<String> = pairs.iter().map(|(k, v)| format!("{}={}", k, v)).collect();
    query_params(&format!("https://example.com/v1/price?{}", query.join("&"))).unwrap()
}

#[test]
fn query_is_split_and_decoded() {
    let p = query_params("https://example.com/v1/price?coin=b%74c&currency=us+d&empty=&flag").unwrap();
    let pairs: Vec<(&str, &str)> = p.pairs.iter().map(|(k, v)| (k.as_str(), v.as_str())).collect();
    assert_eq!(pairs, vec![("coin", "btc"), ("currency", "us d"), ("empty", ""), ("flag", "")]);
    let p = query_params("https://example.com/v1/price").unwrap();
    assert!(p.pairs.is_empty());
}

#[test]
fn url_that_does_not_parse_is_internal() {
    match query_params("not a url") {
        Err(AppError::Internal { error }) => {
            assert_eq!(error, "failed to parse Url from relative URL without a base: not a url")
        }
        other => panic!("unexpected {:?}", other),
    }
}

#[test]
fn accepted_query() {
    let q = check_price_query(&params(&[("coin", "btc"), ("currency", "usd")])).unwrap();
    assert_eq!(q.coin, "btc");
    assert_eq!(q.currency, "usd");
    let q = check_price_query(&params(&[("currency", "USD"), ("coin", "ETH")])).unwrap();
    assert_eq!(q.coin, "ETH");
}

#[test]
fn missing_coin_is_reported_first() {
    let e = check_price_query(&params(&[("currency", "eur")])).unwrap_err();
    assert!(matches!(e, AppError::RequiredParameter { param: "coin" }));
    let e = check_price_query(&params(&[])).unwrap_err();
    assert!(matches!(e, AppError::RequiredParameter { param: "coin" }));
    assert_eq!(ProblemDetails::from(e).status, 400);
}

#[test]
fn missing_currency() {
    let e = check_price_query(&params(&[("coin", "btc")])).unwrap_err();
    assert!(matches!(e, AppError::RequiredParameter { param: "currency" }));
}

#[test]
fn unsupported_currency_is_upper_cased() {
    let e = check_price_query(&params(&[("coin", "btc"), ("currency", "eur")])).unwrap_err();
    match e {
        AppError::UnsupportedValue { param, value, supported } => {
            assert_eq!(param, "currency");
            assert_eq!(value, "EUR");
            assert_eq!(supported, &["USD"]);
        }
        other => panic!("unexpected {:?}", other),
    }
}

#[test]
fn last_parameter_wins() {
    let p = params(&[("coin", "btc"), ("currency", "eur"), ("coin", "eth"), ("currency", "Usd")]);
    assert_eq!(p.get("coin").unwrap(), "eth");
    let q = check_price_query(&p).unwrap();
    assert_eq!(q.coin, "eth");
    assert_eq!(q.currency, "Usd");
    assert!(p.get("other").is_none());
}

#[test]
fn supported_fiat_list() {
    assert_eq!(supported_fiat(), &["USD"]);
    assert!(is_supported_fiat(&"USD".to_string()));
    assert!(!is_supported_fiat(&"usd".to_string()));
}

#[test]
fn settings_from_variables() {
    let s = settings(Some("true".to_string()), Some("1500".to_string()));
    assert!(s.debug);
    assert_eq!(s.timeout_ms, Some(1500));
    let s = settings(Some("TRUE".to_string()), Some("fast".to_string()));
    assert!(!s.debug);
    assert_eq!(s.timeout_ms, None);
    let s = settings(None, None);
    assert!(!s.debug);
    assert_eq!(s.timeout_ms, None);
    let s = settings(Some("1".to_string()), Some("+20".to_string()));
    assert!(!s.debug);
    assert_eq!(s.timeout_ms, Some(20));
    let s = settings(None, Some("-1".to_string()));
    assert_eq!(s.timeout_ms, None);
    let s = settings(None, Some("18446744073709551616".to_string()));
    assert_eq!(s.timeout_ms, None);
    let s = settings(None, Some("+".to_string()));
    assert_eq!(s.timeout_ms, None);
    let s = settings(None, Some("0075".to_string()));
    assert_eq!(s.timeout_ms, Some(75));
    let s = settings(None, Some(" 75".to_string()));
    assert_eq!(s.timeout_ms, None);
}

#[test]
fn enough_sources_keep_successes_in_order() {
    let raw: Vec<Result<f64, AppError>> = vec![
        Ok(10.0),
        Err(AppError::Internal { error: "timeout".to_string() }),
        Ok(20.0),
        Ok(30.0),
    ];
    let (kept, count) = gather_sources(raw).unwrap();
    assert_eq!(kept, vec![10.0, 20.0, 30.0]);
    assert_eq!(count, 3);
    let mean = kept.iter().sum::<f64>() / count as f64;
    assert_eq!(mean, 20.0);
}

#[test]
fn too_few_sources_is_503() {
    assert_eq!(MIN_SOURCES, 2);
    let raw: Vec<Result<f64, AppError>> = vec![
        Ok(10.0),
        Err(AppError::Internal { error: "timeout".to_string() }),
        Err(AppError::InsufficientSources),
    ];
    let e = gather_sources(raw).unwrap_err();
    assert!(matches!(e, AppError::InsufficientSources));
    assert_eq!(ProblemDetails::from(e).status, 503);
    let none: Vec<Result<u8, AppError>> = vec![];
    assert!(matches!(gather_sources(none), Err(AppError::InsufficientSources)));
    let two: Vec<Result<u8, AppError>> = vec![Ok(1), Ok(2)];
    assert_eq!(gather_sources(two).unwrap().1, 2);
}

#[test]
fn timeout_error_text() {
    match timeout_error("Kraken", 250) {
        AppError::Internal { error } => assert_eq!(error, "Kraken timed out after 250ms"),
        other => panic!("unexpected {:?}", other),
    }
    assert_eq!(latency_text(0), "0ms");
    assert_eq!(latency_text(1234), "1234ms");
    let entries = latency_entries(&vec![("Kraken", 12), ("OKX", 0)]);
    assert_eq!(entries, vec![("Kraken".to_string(), "12ms".to_string()), ("OKX".to_string(), "0ms".to_string())]);
}

#[test]
fn currency_matched_without_case() {
    for c in ["USD", "usd", "Usd", "uSd"] {
        let q = check_price_query(&params(&[("coin", "btc"), ("currency", c)])).unwrap();
        assert_eq!(q.coin, "btc");
    }
}

#[test]
fn many_failed_answers_are_fine() {
    let mut raw: Vec<Result<u8, AppError>> = Vec::new();
    for _ in 0..300 {
        raw.push(Err(AppError::InsufficientSources));
    }
    raw.push(Ok(1));
    raw.push(Ok(2));
    let (kept, count) = gather_sources(raw).unwrap();
    assert_eq!(kept, vec![1, 2]);
    assert_eq!(count, 2);
}
