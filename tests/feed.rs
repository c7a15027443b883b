use market_data::{
    api_failure, resolve_symbol, split_symbols, subscribe_failure_message, DatabentoService,
    FeedEvent, HistoricalBatch, HistoricalRequest, HistoricalResponse, InboundFrame, LiveMessage,
    RelayEvent, RelaySession, Schema, ServiceError, SetupStep,
};

fn request(schema: &str, start: &str, end: &str) -> HistoricalRequest {
    HistoricalRequest {
        symbols: vec!["ES.FUT".to_string()],
        schema: schema.to_string(),
        stype_in: "parent".to_string(),
        start_rfc3339: start.to_string(),
        end_rfc3339: end.to_string(),
        limit: 10,
    }
}

#[test]
fn feed_rejects_invalid_time() {
    let service = DatabentoService::new("SECRET-REDACTED".to_string());
    let r = service.prepare_historical(&request("trades", "invalid-time", "2024-01-01T01:00:00Z"));
    assert!(matches!(r, Err(ServiceError::InvalidTimeFormat(_))));
}

#[test]
fn feed_rejects_unknown_schema() {
    let service = DatabentoService::new("SECRET-REDACTED".to_string());
    let r = service.prepare_historical(&request("tbbo", "2024-01-01T00:00:00Z", "2024-01-01T01:00:00Z"));
    match r {
        Err(ServiceError::InvalidSchema(m)) => {
            assert_eq!(m, "Unknown schema: tbbo. Expected: trades, ohlcv-1s, or ohlcv-1m")
        }
        other => panic!("unexpected {other:?}"),
    }
}

#[test]
fn feed_reads_instants() {
    let service = DatabentoService::new("SECRET-REDACTED".to_string());
    let q = service
        .prepare_historical(&request("ohlcv-1s", "2024-01-01T00:00:00.5Z", "2024-01-01T02:00:00+01:00"))
        .unwrap();
    assert_eq!(q.schema, Schema::Ohlcv1S);
    assert_eq!(q.start.secs, 1_704_067_200);
    assert_eq!(q.start.subsec_nanos, 500_000_000);
    assert_eq!(q.end.secs, 1_704_070_800);
    assert_eq!(q.symbols, vec!["ES.FUT".to_string()]);
    assert_eq!(q.limit, 10);
    assert_eq!(q.stype_in, "parent");
    assert_eq!(service.name(), "DatabentoService");
}

#[test]
fn unresolved_ids_get_placeholders() {
    assert_eq!(resolve_symbol(None, 42), "ID:42");
    assert_eq!(resolve_symbol(None, 0), "ID:0");
    assert_eq!(resolve_symbol(None, u32::MAX), "ID:4294967295");
    assert_eq!(resolve_symbol(Some("ESH4".to_string()), 42), "ESH4");
}

#[test]
fn batch_stops_at_limit() {
    let mut batch = HistoricalBatch::new(Schema::Trades, 2);
    let mut pushed = 0;
    while batch.wants_more() {
        batch.push_trade(10 + pushed, 7, None, 100, 1);
        pushed += 1;
    }
    batch.push_trade(99, 7, None, 100, 1);
    batch.push_bar(1, 1, None, 1, 1, 1, 1, 1);
    match batch.finish() {
        HistoricalResponse::Trades { data } => {
            assert_eq!(data.len(), 2);
            assert_eq!(data[1].ts_event_unix_ns, 11);
            assert_eq!(data[0].symbol, "ID:7");
        }
        other => panic!("unexpected {other:?}"),
    }
}

#[test]
fn batch_with_zero_limit_is_empty() {
    let mut batch = HistoricalBatch::new(Schema::Ohlcv1M, 0);
    assert!(!batch.wants_more());
    batch.push_bar(1, 1, Some("CLZ4".to_string()), 1, 2, 0, 1, 5);
    match batch.finish() {
        HistoricalResponse::Ohlcv1M { data } => assert!(data.is_empty()),
        other => panic!("unexpected {other:?}"),
    }
}

#[test]
fn feed_session_opens_streams_and_ends_on_error() {
    let service = DatabentoService::new("SECRET-REDACTED".to_string());
    assert!(matches!(
        service.subscribe_live(vec!["ES.FUT".to_string()], "x".to_string()),
        Err(ServiceError::InvalidSchema(_))
    ));
    let mut s = service.subscribe_live(vec!["ES.FUT".to_string()], "trades".to_string()).unwrap();
    match s.opening() {
        LiveMessage::Connected { symbols, schema } => {
            assert_eq!(symbols, vec!["ES.FUT".to_string()]);
            assert_eq!(schema, "trades");
        }
        other => panic!("unexpected {other:?}"),
    }
    assert!(s.on_event(FeedEvent::Other).is_none());
    match s.on_event(FeedEvent::Trade { ts_event: 5, instrument_id: 3, found: None, price: 9, size: 2 }) {
        Some(LiveMessage::Trade { ts_event_unix_ns, symbol, price_i64, size_u32 }) => {
            assert_eq!((ts_event_unix_ns, symbol.as_str(), price_i64, size_u32), (5, "ID:3", 9, 2));
        }
        other => panic!("unexpected {other:?}"),
    }
    match s.on_event(FeedEvent::Failed { detail: "reset".to_string() }) {
        Some(LiveMessage::Error { message }) => assert_eq!(message, "Stream error: reset"),
        other => panic!("unexpected {other:?}"),
    }
    assert!(s.on_event(FeedEvent::Trade { ts_event: 6, instrument_id: 3, found: None, price: 9, size: 2 }).is_none());
}

#[test]
fn feed_setup_failures_and_clean_end() {
    let service = DatabentoService::new("SECRET-REDACTED".to_string());
    let mut s = service.subscribe_live(vec![], "ohlcv-1s".to_string()).unwrap();
    let _ = s.opening();
    match s.on_event(FeedEvent::SetupFailed { step: SetupStep::Subscribe, detail: "denied".to_string() }) {
        Some(LiveMessage::Error { message }) => assert_eq!(message, "Subscription failed: denied"),
        other => panic!("unexpected {other:?}"),
    }
    assert!(s.on_event(FeedEvent::Failed { detail: "late".to_string() }).is_none());
    let mut s = service.subscribe_live(vec![], "trades".to_string()).unwrap();
    assert!(s.on_event(FeedEvent::End).is_none());
    assert!(s.ended);
}

#[test]
fn api_failures_carry_context() {
    match api_failure("Decode error", "truncated") {
        ServiceError::ApiError(m) => assert_eq!(m, "Decode error: truncated"),
        other => panic!("unexpected {other:?}"),
    }
}

#[test]
fn symbol_lists_are_split_and_trimmed() {
    assert_eq!(split_symbols(" ES.FUT, ,CL.FUT ,"), vec!["ES.FUT".to_string(), "CL.FUT".to_string()]);
    assert_eq!(split_symbols("ES.FUT"), vec!["ES.FUT".to_string()]);
    assert!(split_symbols("").is_empty());
    assert!(split_symbols(" , ").is_empty());
}

#[test]
fn relay_ends_when_either_side_ends() {
    let mut r = RelaySession::new();
    assert!(r.on_event(&RelayEvent::Sent));
    assert!(r.on_event(&RelayEvent::Received(InboundFrame::Text("hi".to_string()))));
    assert!(r.on_event(&RelayEvent::Received(InboundFrame::Ping(vec![1]))));
    assert!(!r.on_event(&RelayEvent::Received(InboundFrame::Close)));
    assert!(!r.on_event(&RelayEvent::Sent));
    let mut r = RelaySession::new();
    assert!(!r.on_event(&RelayEvent::SendFailed));
    let mut r = RelaySession::new();
    assert!(!r.on_event(&RelayEvent::StreamFinished));
}

#[test]
fn subscribe_failure_becomes_error_message() {
    match subscribe_failure_message(&ServiceError::InvalidSchema("bad".to_string())) {
        LiveMessage::Error { message } => assert_eq!(message, "Invalid schema: bad"),
        other => panic!("unexpected {other:?}"),
    }
}

#[test]
fn feed_keeps_instrument_id_kind() {
    let service = DatabentoService::new("SECRET-REDACTED".to_string());
    let mut req = request("trades", "2024-01-01T00:00:00Z", "2024-01-01T01:00:00Z");
    req.stype_in = "raw_symbol".to_string();
    let q = service.prepare_historical(&req).unwrap();
    assert_eq!(q.stype_in, "raw_symbol");
}

#[test]
fn feed_timestamp_errors_quote_the_text() {
    let service = DatabentoService::new("SECRET-REDACTED".to_string());
    match service.prepare_historical(&request("trades", "2024-01-01T00:00:00Z", "noon")) {
        Err(ServiceError::InvalidTimeFormat(m)) => {
            assert!(m.starts_with("Invalid RFC3339 timestamp 'noon': "), "{m}");
            assert!(m.len() > "Invalid RFC3339 timestamp 'noon': ".len());
        }
        other => panic!("unexpected {other:?}"),
    }
}

#[test]
fn symbols_are_trimmed_of_unicode_white_space() {
    assert_eq!(
        split_symbols("\u{3000}ES.FUT\u{a0},\tCL.FUT\u{2028}"),
        vec!["ES.FUT".to_string(), "CL.FUT".to_string()]
    );
}
