use market_data::{HistoricalRequest, HistoricalResponse, LiveMessage, MockService, ServiceError};

fn request(schema: &str, start: &str, end: &str, limit: u32, symbols: &[&str]) -> HistoricalRequest {
    HistoricalRequest {
        symbols: symbols.iter().map(|s| s.to_string()).collect(),
        schema: schema.to_string(),
        stype_in: "parent".to_string(),
        start_rfc3339: start.to_string(),
        end_rfc3339: end.to_string(),
        limit,
    }
}

const START: &str = "2024-01-01T00:00:00Z";
const END: &str = "2024-01-01T01:00:00Z";
const START_NS: u64 = 1_704_067_200_000_000_000;

#[test]
fn test_mock_historical_trades() {
    let service = MockService::new();
    let req = request("trades", START, END, 100, &["ES.FUT"]);
    let resp = service.get_historical(&req).unwrap();
    match resp {
        HistoricalResponse::Trades { data } => {
            assert!(!data.is_empty());
            assert!(data.len() <= 100);
            assert_eq!(data[0].symbol, "ES.FUT");
        }
        _ => panic!("Expected trades response"),
    }
}

#[test]
fn test_mock_historical_ohlcv() {
    let service = MockService::new();
    let req = request("ohlcv-1m", START, END, 100, &["ES.FUT"]);
    let resp = service.get_historical(&req).unwrap();
    match resp {
        HistoricalResponse::Ohlcv1M { data } => {
            assert!(!data.is_empty());
            assert!(data.len() <= 60);
            assert_eq!(data[0].symbol, "ES.FUT");
            for bar in &data {
                assert!(bar.low_i64 <= bar.open_i64);
                assert!(bar.low_i64 <= bar.close_i64);
                assert!(bar.high_i64 >= bar.open_i64);
                assert!(bar.high_i64 >= bar.close_i64);
            }
        }
        _ => panic!("Expected ohlcv-1m response"),
    }
}

#[test]
fn test_mock_invalid_schema() {
    let service = MockService::new();
    let req = request("invalid", START, END, 100, &["ES.FUT"]);
    assert!(service.get_historical(&req).is_err());
}

#[test]
fn test_mock_invalid_time_format() {
    let service = MockService::new();
    let req = request("trades", "invalid-time", END, 100, &["ES.FUT"]);
    assert!(service.get_historical(&req).is_err());
}

#[test]
fn test_mock_live_stream() {
    let service = MockService::new();
    let mut feed = service
        .subscribe_live(vec!["ES.FUT".to_string()], "trades".to_string())
        .unwrap();
    let messages: Vec<LiveMessage> = (0..3).filter_map(|_| feed.next_message()).collect();
    assert_eq!(messages.len(), 3);
    match &messages[0] {
        LiveMessage::Connected { symbols, schema } => {
            assert_eq!(symbols, &vec!["ES.FUT".to_string()]);
            assert_eq!(schema, "trades");
        }
        _ => panic!("Expected Connected message first"),
    }
    match &messages[1] {
        LiveMessage::Trade { symbol, .. } => {
            assert_eq!(symbol, "ES.FUT");
        }
        _ => panic!("Expected Trade message"),
    }
}

#[test]
fn invalid_time_is_reported_as_such() {
    let service = MockService::new();
    let req = request("trades", "invalid-time", END, 100, &["ES.FUT"]);
    assert!(matches!(service.get_historical(&req), Err(ServiceError::InvalidTimeFormat(_))));
    let req = request("ohlcv-1m", START, "2024-13-01T00:00:00Z", 100, &["ES.FUT"]);
    assert!(matches!(service.get_historical(&req), Err(ServiceError::InvalidTimeFormat(_))));
}

#[test]
fn schema_is_checked_before_time() {
    let service = MockService::new();
    let req = request("ohlcv-1h", "invalid-time", END, 100, &["ES.FUT"]);
    match service.get_historical(&req) {
        Err(ServiceError::InvalidSchema(m)) => {
            assert_eq!(m, "Invalid schema: ohlcv-1h. Expected: trades, ohlcv-1s, or ohlcv-1m")
        }
        other => panic!("unexpected {other:?}"),
    }
}

#[test]
fn trades_are_spread_evenly_and_walk_within_bounds() {
    let service = MockService::new();
    let req = request("trades", START, END, 5, &["ES.FUT", "CL.FUT"]);
    let HistoricalResponse::Trades { data } = service.get_historical(&req).unwrap() else {
        panic!("Expected trades response");
    };
    assert_eq!(data.len(), 5);
    let step = 900_000_000_000u64; // a quarter of the hour
    for (i, t) in data.iter().enumerate() {
        assert_eq!(t.ts_event_unix_ns, START_NS + step * i as u64);
        assert_eq!(t.symbol, if i % 2 == 0 { "ES.FUT" } else { "CL.FUT" });
        assert!((1..=50).contains(&t.size_u32));
        let prev = if i == 0 { 5_000_000_000_000 } else { data[i - 1].price_i64 };
        assert!((t.price_i64 - prev).abs() <= 500_000_000 || t.price_i64 == 4_950_000_000_000);
        assert!(t.price_i64 >= 4_950_000_000_000);
    }
}

#[test]
fn trades_are_capped_at_a_thousand() {
    let service = MockService::new();
    let req = request("trades", START, END, 5000, &["ES.FUT"]);
    let HistoricalResponse::Trades { data } = service.get_historical(&req).unwrap() else {
        panic!("Expected trades response");
    };
    assert_eq!(data.len(), 1000);
    assert_eq!(data[999].ts_event_unix_ns, START_NS + 3_600_000_000_000);
}

#[test]
fn single_trade_sits_at_start() {
    let service = MockService::new();
    let req = request("trades", START, END, 1, &["ES.FUT"]);
    let HistoricalResponse::Trades { data } = service.get_historical(&req).unwrap() else {
        panic!("Expected trades response");
    };
    assert_eq!(data.len(), 1);
    assert_eq!(data[0].ts_event_unix_ns, START_NS);
}

#[test]
fn empty_or_inverted_range_yields_nothing() {
    let service = MockService::new();
    for schema in ["trades", "ohlcv-1s", "ohlcv-1m"] {
        let req = request(schema, END, START, 100, &["ES.FUT"]);
        let resp = service.get_historical(&req).unwrap();
        let n = match resp {
            HistoricalResponse::Trades { data } => data.len(),
            HistoricalResponse::Ohlcv1S { data } | HistoricalResponse::Ohlcv1M { data } => data.len(),
        };
        assert_eq!(n, 0, "{schema}");
    }
}

#[test]
fn hour_of_minute_bars_chains_open_to_close() {
    let service = MockService::new();
    let req = request("ohlcv-1m", START, END, 100, &["ES.FUT"]);
    let HistoricalResponse::Ohlcv1M { data } = service.get_historical(&req).unwrap() else {
        panic!("Expected ohlcv-1m response");
    };
    assert_eq!(data.len(), 60);
    assert_eq!(data[0].open_i64, 5_000_000_000_000);
    for (i, bar) in data.iter().enumerate() {
        assert_eq!(bar.ts_event_unix_ns, START_NS + 60_000_000_000 * i as u64);
        if i > 0 {
            assert_eq!(bar.open_i64, data[i - 1].close_i64);
        }
        assert!(bar.high_i64 - bar.open_i64 <= 2_000_000_000);
        assert!(bar.open_i64 - bar.low_i64 <= 2_000_000_000);
        assert!((bar.close_i64 - bar.open_i64).abs() <= 1_000_000_000);
        assert!((100..=10_000).contains(&bar.volume_u64));
    }
}

#[test]
fn bars_come_per_symbol_per_slot() {
    let service = MockService::new();
    let req = request("ohlcv-1m", START, END, 100, &["ES.FUT", "CL.FUT"]);
    let HistoricalResponse::Ohlcv1M { data } = service.get_historical(&req).unwrap() else {
        panic!("Expected ohlcv-1m response");
    };
    assert_eq!(data.len(), 120);
    assert_eq!(data[0].symbol, "ES.FUT");
    assert_eq!(data[1].symbol, "CL.FUT");
    assert_eq!(data[1].ts_event_unix_ns, START_NS);
    assert_eq!(data[2].ts_event_unix_ns, START_NS + 60_000_000_000);
}

#[test]
fn second_bars_are_capped_by_limit() {
    let service = MockService::new();
    let req = request("ohlcv-1s", START, END, 100, &["ES.FUT"]);
    let HistoricalResponse::Ohlcv1S { data } = service.get_historical(&req).unwrap() else {
        panic!("Expected ohlcv-1s response");
    };
    assert_eq!(data.len(), 100);
    assert_eq!(data[99].ts_event_unix_ns, START_NS + 99_000_000_000);
}

#[test]
fn live_invalid_schema_fails_at_once() {
    let service = MockService::new();
    let r = service.subscribe_live(vec!["ES.FUT".to_string()], "bogus".to_string());
    assert!(matches!(r, Err(ServiceError::InvalidSchema(_))));
}

#[test]
fn live_trades_cycle_through_symbols() {
    let service = MockService::new();
    let symbols = vec!["ES.FUT".to_string(), "CL.FUT".to_string()];
    let mut feed = service.subscribe_live(symbols.clone(), "ohlcv-1m".to_string()).unwrap();
    match feed.next_message() {
        Some(LiveMessage::Connected { symbols: s, schema }) => {
            assert_eq!(s, symbols);
            assert_eq!(schema, "ohlcv-1m");
        }
        other => panic!("unexpected {other:?}"),
    }
    let mut prev = 5_000_000_000_000i64;
    for i in 0..6 {
        match feed.next_message() {
            Some(LiveMessage::Trade { symbol, price_i64, size_u32, ts_event_unix_ns }) => {
                assert_eq!(symbol, symbols[i % 2]);
                assert!((price_i64 - prev).abs() <= 250_000_000);
                assert!((1..=25).contains(&size_u32));
                assert!(ts_event_unix_ns > START_NS);
                prev = price_i64;
            }
            other => panic!("unexpected {other:?}"),
        }
        let d = feed.next_delay_ms();
        assert!((100..=500).contains(&d));
    }
}

#[test]
fn live_without_symbols_ends_after_connected() {
    let service = MockService::default();
    let mut feed = service.subscribe_live(Vec::new(), "trades".to_string()).unwrap();
    assert!(matches!(feed.next_message(), Some(LiveMessage::Connected { .. })));
    assert!(feed.next_message().is_none());
    assert_eq!(service.name(), "MockService");
}

#[test]
fn instants_before_the_epoch_are_written_as_zero() {
    let service = MockService::new();
    let req = request("trades", "1969-12-31T23:00:00Z", "1970-01-01T01:00:00Z", 3, &["ES.FUT"]);
    let HistoricalResponse::Trades { data } = service.get_historical(&req).unwrap() else {
        panic!("Expected trades response");
    };
    assert_eq!(data.len(), 3);
    assert_eq!(data[0].ts_event_unix_ns, 0);
    assert_eq!(data[1].ts_event_unix_ns, 0);
    assert_eq!(data[2].ts_event_unix_ns, 3_600_000_000_000);
}

#[test]
fn time_errors_name_the_failing_field() {
    let service = MockService::new();
    match service.get_historical(&request("trades", "yesterday", "tomorrow", 10, &["ES.FUT"])) {
        Err(ServiceError::InvalidTimeFormat(m)) => assert!(m.starts_with("start_rfc3339: "), "{m}"),
        other => panic!("unexpected {other:?}"),
    }
    match service.get_historical(&request("trades", START, "tomorrow", 10, &["ES.FUT"])) {
        Err(ServiceError::InvalidTimeFormat(m)) => assert!(m.starts_with("end_rfc3339: "), "{m}"),
        other => panic!("unexpected {other:?}"),
    }
}

#[test]
fn hour_of_minute_bars_gives_sixty_per_symbol() {
    let service = MockService::new();
    let symbols = ["ES.FUT", "CL.FUT", "NQ.FUT"];
    let req = request("ohlcv-1m", START, END, 60, &symbols);
    let HistoricalResponse::Ohlcv1M { data } = service.get_historical(&req).unwrap() else {
        panic!("Expected ohlcv-1m response");
    };
    assert_eq!(data.len(), 180);
    for s in symbols {
        assert_eq!(data.iter().filter(|b| b.symbol == s).count(), 60);
    }
}
