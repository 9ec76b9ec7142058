use polysqueeze::text::{same_ignore_ascii_case, trim};
use polysqueeze::wss::{
    classify_frame, format_subscription, parse_market_events, parse_subscription, reconnect_delay,
    ConnectStep, Decimal, EnsureStep, FrameKind, Inbound, LastTradeMessage, MarketBook,
    NextStep, OrderLevel, ParseError, Reply, Side, WssError, WssMarketClient, WssMarketEvent,
};
use polysqueeze::history::DisconnectHistory;

const BOOK: &str = r#"{"event_type":"book","asset_id":"123","market":"0xabc","timestamp":"1700000000000","hash":"0xh","bids":[{"price":"0.45","size":"100"}],"asks":[{"price":"0.55","size":"20.5"},{"price":"0.6","size":"1"}]}"#;
const TRADE: &str = r#"{"event_type":"last_trade_price","asset_id":"123","fee_rate_bps":"0","market":"0xabc","price":"0.5","size":"10","side":"BUY","timestamp":"1700000000001"}"#;

fn dec(mantissa: i128, scale: u32) -> Decimal {
    Decimal { mantissa, scale }
}

fn malformed(event_type: &str, field: &str) -> ParseError {
    ParseError::Malformed { event_type: event_type.to_string(), field: field.to_string() }
}

fn ids(v: &[&str]) -> Vec<String> {
    v.iter().map(|s| s.to_string()).collect()
}

fn connected_client() -> WssMarketClient {
    let mut c = WssMarketClient::new();
    assert_eq!(c.on_connected(), None);
    c
}

fn expected_book() -> MarketBook {
    MarketBook {
        event_type: "book".to_string(),
        asset_id: "123".to_string(),
        market: "0xabc".to_string(),
        timestamp: "1700000000000".to_string(),
        hash: "0xh".to_string(),
        bids: vec![OrderLevel { price: dec(45, 2), size: dec(100, 0) }],
        asks: vec![
            OrderLevel { price: dec(55, 2), size: dec(205, 1) },
            OrderLevel { price: dec(6, 1), size: dec(1, 0) },
        ],
    }
}

fn expected_trade() -> LastTradeMessage {
    LastTradeMessage {
        event_type: "last_trade_price".to_string(),
        asset_id: "123".to_string(),
        fee_rate_bps: "0".to_string(),
        market: "0xabc".to_string(),
        price: dec(5, 1),
        size: dec(10, 0),
        side: Side::Buy,
        timestamp: "1700000000001".to_string(),
    }
}

#[test]
fn backoff_delays_follow_the_schedule() {
    assert_eq!(reconnect_delay(1), 250);
    assert_eq!(reconnect_delay(2), 500);
    assert_eq!(reconnect_delay(8), 2000);
    assert_eq!(reconnect_delay(40), 10_000);
    assert_eq!(reconnect_delay(41), 10_000);
    assert_eq!(reconnect_delay(u32::MAX), 10_000);
}

#[test]
fn connect_gives_up_after_eight_failures() {
    let mut c = WssMarketClient::new();
    for n in 1..8u64 {
        assert_eq!(c.on_connect_failed(), ConnectStep::Retry { delay_ms: 250 * n });
    }
    assert_eq!(
        c.on_connect_failed(),
        ConnectStep::GiveUp(WssError::ConnectionFailed { attempts: 8 })
    );
    assert_eq!(c.stats().errors, 8);
    assert!(!c.is_connected());
    // A new cycle starts from the first delay again.
    assert_eq!(c.on_connect_failed(), ConnectStep::Retry { delay_ms: 250 });
}

#[test]
fn reconnect_counted_only_after_a_failure() {
    let mut c = WssMarketClient::new();
    c.on_connected();
    assert_eq!(c.stats().reconnect_count, 0);
    c.handle_frame(Inbound::Ended, 1).unwrap();
    assert!(!c.is_connected());
    c.on_connect_failed();
    c.on_connected();
    assert_eq!(c.stats().reconnect_count, 1);
    assert_eq!(c.stats().errors, 1);
}

#[test]
fn disconnect_history_keeps_latest_five() {
    let mut c = connected_client();
    for t in 1..=6i64 {
        c.handle_frame(Inbound::Close, t * 100).unwrap();
        assert!(!c.is_connected());
        c.on_connected();
    }
    assert_eq!(c.disconnect_history(), vec![200, 300, 400, 500, 600]);
}

#[test]
fn disconnect_history_record_directly() {
    let mut h = DisconnectHistory::new();
    for t in 0..5i64 {
        h.record(t);
    }
    assert_eq!(h.entries(), vec![0, 1, 2, 3, 4]);
    h.record(5);
    assert_eq!(h.len(), 5);
    assert_eq!(h.entries(), vec![1, 2, 3, 4, 5]);
}

#[test]
fn array_frame_delivers_in_order() {
    let mut c = connected_client();
    let frame = format!("[{},{}]", BOOK, TRADE);
    assert_eq!(c.handle_frame(Inbound::Text(frame), 42), Ok(Reply::Nothing));
    assert_eq!(c.stats().messages_received, 2);
    assert_eq!(c.stats().last_message_time, Some(42));
    assert_eq!(c.next_event(), NextStep::Deliver(WssMarketEvent::Book(expected_book())));
    assert_eq!(c.next_event(), NextStep::Deliver(WssMarketEvent::LastTrade(expected_trade())));
    assert_eq!(c.next_event(), NextStep::AwaitFrame);
}

#[test]
fn single_object_frame_is_one_event() {
    let events = parse_market_events(TRADE).unwrap();
    assert_eq!(events, vec![WssMarketEvent::LastTrade(expected_trade())]);
}

#[test]
fn ping_frames_are_dropped() {
    let mut c = connected_client();
    for text in ["ping", "PING", "  Ping\n", "pong", "PoNg", "\u{2003}ping"] {
        assert_eq!(classify_frame(text), FrameKind::Control);
        assert_eq!(c.handle_frame(Inbound::Text(text.to_string()), 7), Ok(Reply::Nothing));
    }
    assert_eq!(c.stats().messages_received, 0);
    assert_eq!(c.stats().last_message_time, None);
    assert_eq!(c.pending_len(), 0);
}

#[test]
fn noise_frames_are_dropped() {
    let mut c = connected_client();
    for text in ["hello", "", "   ", "pingpong", "\"book\""] {
        assert_eq!(classify_frame(text), FrameKind::Noise);
        assert_eq!(c.handle_frame(Inbound::Text(text.to_string()), 7), Ok(Reply::Nothing));
    }
    assert_eq!(classify_frame("  {"), FrameKind::Payload);
    assert_eq!(classify_frame("\n[1]"), FrameKind::Payload);
    assert_eq!(c.pending_len(), 0);
}

#[test]
fn unknown_event_type_is_reported() {
    let mut c = connected_client();
    let r = c.handle_frame(Inbound::Text(r#"{"event_type":"unknown_kind"}"#.to_string()), 1);
    assert_eq!(
        r,
        Err(WssError::Parse(ParseError::UnknownEventType("unknown_kind".to_string())))
    );
    assert_eq!(c.pending_len(), 0);
    assert_eq!(c.stats().messages_received, 0);
}

#[test]
fn missing_event_type_is_reported() {
    assert_eq!(parse_market_events(r#"{"asset_id":"1"}"#), Err(ParseError::MissingEventType));
    assert_eq!(parse_market_events(r#"{"event_type":5}"#), Err(ParseError::MissingEventType));
    assert_eq!(parse_market_events("[1]"), Err(ParseError::MissingEventType));
}

#[test]
fn type_field_is_the_fallback_discriminant() {
    assert_eq!(
        parse_market_events(r#"{"type":"whatever"}"#),
        Err(ParseError::UnknownEventType("whatever".to_string()))
    );
    // Book needs its own event_type field, so the fallback alone is not enough.
    assert_eq!(
        parse_market_events(r#"{"type":"book"}"#),
        Err(malformed("book", "event_type"))
    );
}

#[test]
fn invalid_json_is_reported() {
    assert_eq!(
        parse_market_events("{oops"),
        Err(ParseError::InvalidJson("{oops".to_string()))
    );
    let mut c = connected_client();
    assert_eq!(
        c.handle_frame(Inbound::Text("[1,".to_string()), 1),
        Err(WssError::Parse(ParseError::InvalidJson("[1,".to_string())))
    );
}

#[test]
fn malformed_fields_are_reported() {
    let no_bids = r#"{"event_type":"book","asset_id":"1","market":"m","timestamp":"t","hash":"h","asks":[]}"#;
    assert_eq!(parse_market_events(no_bids), Err(malformed("book", "bids")));
    let bad_level = BOOK.replace("\"100\"", "100");
    assert_eq!(parse_market_events(&bad_level), Err(malformed("book", "bids")));
    let bad_price = TRADE.replace("\"0.5\"", "\"abc\"");
    assert_eq!(parse_market_events(&bad_price), Err(malformed("last_trade_price", "price")));
    let bad_side = TRADE.replace("BUY", "UP");
    assert_eq!(parse_market_events(&bad_side), Err(malformed("last_trade_price", "side")));
    let no_asset = TRADE.replace("\"asset_id\"", "\"asset\"");
    assert_eq!(parse_market_events(&no_asset), Err(malformed("last_trade_price", "asset_id")));
    let bad_tick = r#"{"event_type":"tick_size_change","asset_id":"a","market":"m","old_tick_size":"0.01","new_tick_size":0.001,"side":"BUY","timestamp":"9"}"#;
    assert_eq!(parse_market_events(bad_tick), Err(malformed("tick_size_change", "new_tick_size")));
    let bad_entry = r#"{"event_type":"price_change","market":"m","price_changes":[{"asset_id":"a"}]}"#;
    assert_eq!(parse_market_events(bad_entry), Err(malformed("price_change", "price_changes")));
    let no_timestamp = r#"{"event_type":"price_change","market":"m","price_changes":[]}"#;
    assert_eq!(parse_market_events(no_timestamp), Err(malformed("price_change", "timestamp")));
}

#[test]
fn batch_fails_on_first_bad_element() {
    let frame = format!(r#"[{},{{"event_type":"nope"}},{{"asset_id":"x"}}]"#, BOOK);
    assert_eq!(
        parse_market_events(&frame),
        Err(ParseError::UnknownEventType("nope".to_string()))
    );
    let mut c = connected_client();
    assert!(c.handle_frame(Inbound::Text(frame), 1).is_err());
    assert_eq!(c.pending_len(), 0);
}

#[test]
fn price_change_and_tick_size_decode() {
    let pc = r#"{"event_type":"price_change","market":"m","timestamp":"9","price_changes":[{"asset_id":"a","price":"0.5","size":"200","side":"SELL","hash":"h","best_bid":"0.49","best_ask":"0.51"}]}"#;
    match parse_market_events(pc).unwrap().as_slice() {
        [WssMarketEvent::PriceChange(p)] => {
            assert_eq!(p.market, "m");
            assert_eq!(p.price_changes.len(), 1);
            let e = &p.price_changes[0];
            assert_eq!(e.side, Side::Sell);
            assert_eq!(e.price, dec(5, 1));
            assert_eq!(e.best_bid, dec(49, 2));
            assert_eq!(e.best_ask, dec(51, 2));
        }
        other => panic!("unexpected {:?}", other),
    }
    let ts = r#"{"event_type":"tick_size_change","asset_id":"a","market":"m","old_tick_size":"0.01","new_tick_size":"0.001","side":"BUY","timestamp":"9"}"#;
    match parse_market_events(ts).unwrap().as_slice() {
        [WssMarketEvent::TickSizeChange(t)] => {
            assert_eq!(t.old_tick_size, dec(1, 2));
            assert_eq!(t.new_tick_size, dec(1, 3));
            assert_eq!(t.side, "BUY");
        }
        other => panic!("unexpected {:?}", other),
    }
}

#[test]
fn subscription_round_trip() {
    let frame = format_subscription(&ids(&["123", "456"]));
    assert_eq!(frame, r#"{"type":"market","assets_ids":["123","456"]}"#);
    assert_eq!(parse_subscription(&frame), Some(ids(&["123", "456"])));
    assert_eq!(format_subscription(&vec![]), r#"{"type":"market","assets_ids":[]}"#);
    assert_eq!(parse_subscription(r#"{"type":"user","assets_ids":["1"]}"#), None);
    assert_eq!(parse_subscription(r#"{"type":"market","assets_ids":[1]}"#), None);
}

#[test]
fn subscription_ids_are_escaped() {
    let frame = format_subscription(&ids(&["a\"b"]));
    assert_eq!(frame, r#"{"type":"market","assets_ids":["a\"b"]}"#);
    assert_eq!(parse_subscription(&frame), Some(ids(&["a\"b"])));
}

#[test]
fn subscription_ids_escape_control_characters() {
    let frame = format_subscription(&ids(&["a\\b\n\u{1}\u{e9}"]));
    assert_eq!(frame, "{\"type\":\"market\",\"assets_ids\":[\"a\\\\b\\n\\u0001\u{e9}\"]}");
}

#[test]
fn subscribe_sends_latest_set_only_when_non_empty() {
    let mut c = WssMarketClient::new();
    c.subscribe(ids(&["1", "2"]));
    assert_eq!(
        c.subscription_message(),
        Some(r#"{"type":"market","assets_ids":["1","2"]}"#.to_string())
    );
    c.subscribe(ids(&["3"]));
    assert_eq!(c.ensure_connection(), EnsureStep::Connect);
    assert_eq!(c.on_connected(), Some(r#"{"type":"market","assets_ids":["3"]}"#.to_string()));
    c.subscribe(vec![]);
    assert_eq!(c.subscription_message(), None);
}

#[test]
fn ensure_connection_is_idempotent() {
    let mut c = WssMarketClient::new();
    c.subscribe(ids(&["9"]));
    assert_eq!(c.ensure_connection(), EnsureStep::Connect);
    assert!(c.on_connected().is_some());
    assert_eq!(c.ensure_connection(), EnsureStep::Ready);
    assert_eq!(c.ensure_connection(), EnsureStep::Ready);
    assert_eq!(c.stats().reconnect_count, 0);
}

#[test]
fn next_event_connects_first() {
    let mut c = WssMarketClient::new();
    assert_eq!(c.next_event(), NextStep::Connect);
    c.on_connected();
    assert_eq!(c.next_event(), NextStep::AwaitFrame);
}

#[test]
fn transport_frames_update_state() {
    let mut c = connected_client();
    assert_eq!(c.handle_frame(Inbound::Ping(vec![1, 2]), 1), Ok(Reply::Pong(vec![1, 2])));
    assert_eq!(c.handle_frame(Inbound::Pong(vec![3]), 1), Ok(Reply::Nothing));
    assert_eq!(c.handle_frame(Inbound::Other, 1), Ok(Reply::Nothing));
    assert!(c.is_connected());
    assert!(c.disconnect_history().is_empty());
    assert_eq!(c.handle_frame(Inbound::Failed, 11), Ok(Reply::Nothing));
    assert!(!c.is_connected());
    assert_eq!(c.stats().errors, 1);
    assert_eq!(c.disconnect_history(), vec![11]);
    c.on_connected();
    assert_eq!(c.handle_frame(Inbound::Ended, 12), Ok(Reply::Nothing));
    assert!(!c.is_connected());
    assert_eq!(c.stats().errors, 1);
    assert_eq!(c.disconnect_history(), vec![11, 12]);
}

#[test]
fn telemetry_snapshot_holds_counters_and_history() {
    let mut c = connected_client();
    c.handle_frame(Inbound::Text(TRADE.to_string()), 5).unwrap();
    c.handle_frame(Inbound::Close, 6).unwrap();
    let t = c.telemetry();
    assert_eq!(t.stats, c.stats());
    assert_eq!(t.stats.messages_received, 1);
    assert_eq!(t.disconnect_history, vec![6]);
}

#[test]
fn begin_connect_restores_the_retry_budget() {
    let mut c = WssMarketClient::new();
    for _ in 0..5 {
        c.on_connect_failed();
    }
    c.begin_connect();
    for n in 1..8u64 {
        assert_eq!(c.on_connect_failed(), ConnectStep::Retry { delay_ms: 250 * n });
    }
    assert_eq!(
        c.on_connect_failed(),
        ConnectStep::GiveUp(WssError::ConnectionFailed { attempts: 8 })
    );
}

#[test]
fn channel_url_drops_trailing_slashes() {
    assert_eq!(
        WssMarketClient::new().connect_url(),
        "wss://ws-subscriptions-clob.polymarket.com/ws/market"
    );
    assert_eq!(WssMarketClient::with_url("ws://localhost:9///").connect_url(), "ws://localhost:9/ws/market");
}

#[test]
fn text_helpers() {
    assert_eq!(trim("\t ab c \n"), "ab c");
    assert_eq!(trim("\u{2003}x\u{2003}"), "x");
    assert_eq!(trim("   "), "");
    assert!(same_ignore_ascii_case("PiNg", "ping"));
    assert!(!same_ignore_ascii_case("pin", "ping"));
}
