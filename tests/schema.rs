use market_data::{ErrorResponse, Schema, ServiceError};

#[test]
fn test_schema_parsing() {
    assert_eq!("trades".parse::<Schema>().unwrap(), Schema::Trades);
    assert_eq!("ohlcv-1s".parse::<Schema>().unwrap(), Schema::Ohlcv1S);
    assert_eq!("ohlcv-1m".parse::<Schema>().unwrap(), Schema::Ohlcv1M);
    assert!("invalid".parse::<Schema>().is_err());
}

#[test]
fn test_schema_as_str() {
    assert_eq!(Schema::Trades.as_str(), "trades");
    assert_eq!(Schema::Ohlcv1S.as_str(), "ohlcv-1s");
    assert_eq!(Schema::Ohlcv1M.as_str(), "ohlcv-1m");
}

#[test]
fn schema_text_round_trips() {
    for s in ["trades", "ohlcv-1s", "ohlcv-1m"] {
        assert_eq!(Schema::parse(s).unwrap().as_str(), s);
    }
}

#[test]
fn schema_rejects_near_misses() {
    for s in ["", "Trades", "ohlcv-1h", "ohlcv", "trades ", "ohlcv_1m"] {
        assert!(Schema::parse(s).is_err(), "{s}");
    }
    assert_eq!(
        Schema::parse("bogus").unwrap_err(),
        "Invalid schema: bogus. Expected: trades, ohlcv-1s, or ohlcv-1m"
    );
}

#[test]
fn error_statuses_and_texts() {
    let cases = [
        (ServiceError::InvalidSchema("x".to_string()), 400, "Invalid schema: x"),
        (ServiceError::InvalidTimeFormat("x".to_string()), 400, "Invalid time format: x"),
        (ServiceError::ApiError("x".to_string()), 502, "API error: x"),
        (ServiceError::ConnectionError("x".to_string()), 502, "Connection error: x"),
        (ServiceError::NotConfigured("x".to_string()), 401, "Not configured: x"),
    ];
    for (e, code, text) in cases {
        assert_eq!(e.status_code(), code);
        assert_eq!(e.message(), text);
        let ErrorResponse { error, code: c } = e.to_error_response();
        assert_eq!(error, text);
        assert_eq!(c, code);
    }
}

#[test]
fn defaults() {
    assert_eq!(market_data::default_symbols(), "ES.FUT");
    assert_eq!(market_data::default_schema(), "trades");
    assert_eq!(market_data::default_stype_in(), "parent");
    assert_eq!(market_data::default_limit(), 1000);
}

#[test]
fn from_str_reports_the_text() {
    let e = "ohlcv-1h".parse::<Schema>().unwrap_err();
    assert_eq!(e, "Invalid schema: ohlcv-1h. Expected: trades, ohlcv-1s, or ohlcv-1m");
}
