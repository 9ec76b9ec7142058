//! The closed set of market-channel events and their decoding from JSON.
use vstd::prelude::*;
use crate::json::{Json, text_member, array_member};
use crate::text::same_text;

verus! {

/// A decimal number `mantissa * 10^-scale`, as rust_decimal stores it.
#[derive(Clone, Copy, Debug, PartialEq, Eq, Structural)]
pub struct Decimal {
    pub mantissa: i128,
    pub scale: u32,
}

/// Mantissa and scale of the decimal that rust_decimal reads from `s`.
pub uninterp spec fn decimal_of(s: Seq<char>) -> Option<(i128, u32)>;

/// Relies on `rust_decimal::Decimal`'s `FromStr`, read back through
/// `mantissa()` and `scale()`; the result depends on the text alone.
#[verifier::external_body]
fn parse_decimal(s: &str) -> (r: Option<Decimal>)
    ensures
        match decimal_of(s@) {
            Some(p) => r == Some(Decimal { mantissa: p.0, scale: p.1 }),
            None => r is None,
        },
{
    match <rust_decimal::Decimal as std::str::FromStr>::from_str(s) {
        Ok(d) => Some(Decimal { mantissa: d.mantissa(), scale: d.scale() }),
        Err(_) => None,
    }
}

/// Side of an order or a trade.
#[derive(Clone, Copy, Debug, PartialEq, Eq, Structural)]
pub enum Side {
    Buy,
    Sell,
}

/// One price level of a book.
#[derive(Clone, Copy, Debug, PartialEq, Eq, Structural)]
pub struct OrderLevel {
    pub price: Decimal,
    pub size: Decimal,
}

/// Book summary message.
#[derive(Clone, Debug, PartialEq)]
pub struct MarketBook {
    pub event_type: String,
    pub asset_id: String,
    pub market: String,
    pub timestamp: String,
    pub hash: String,
    pub bids: Vec<OrderLevel>,
    pub asks: Vec<OrderLevel>,
}

/// Payload for price change notifications.
#[derive(Clone, Debug, PartialEq)]
pub struct PriceChangeMessage {
    pub event_type: String,
    pub market: String,
    pub price_changes: Vec<PriceChangeEntry>,
    pub timestamp: String,
}

/// Individual price change entry.
#[derive(Clone, Debug, PartialEq)]
pub struct PriceChangeEntry {
    pub asset_id: String,
    pub price: Decimal,
    pub size: Decimal,
    pub side: Side,
    pub hash: String,
    pub best_bid: Decimal,
    pub best_ask: Decimal,
}

/// Tick size change events.
#[derive(Clone, Debug, PartialEq)]
pub struct TickSizeChangeMessage {
    pub event_type: String,
    pub asset_id: String,
    pub market: String,
    pub old_tick_size: Decimal,
    pub new_tick_size: Decimal,
    pub side: String,
    pub timestamp: String,
}

/// Trade events emitted when a trade settles.
#[derive(Clone, Debug, PartialEq)]
pub struct LastTradeMessage {
    pub event_type: String,
    pub asset_id: String,
    pub fee_rate_bps: String,
    pub market: String,
    pub price: Decimal,
    pub size: Decimal,
    pub side: Side,
    pub timestamp: String,
}

/// A parsed market broadcast from the public market channel.
#[derive(Clone, Debug, PartialEq)]
pub enum WssMarketEvent {
    Book(MarketBook),
    PriceChange(PriceChangeMessage),
    TickSizeChange(TickSizeChangeMessage),
    LastTrade(LastTradeMessage),
}

/// Why an inbound frame could not be decoded.
#[derive(Clone, Debug, PartialEq)]
pub enum ParseError {
    /// The frame, which is not valid JSON.
    InvalidJson(String),
    /// An element carries neither `event_type` nor `type` as a string.
    MissingEventType,
    /// The discriminant names no known event kind.
    UnknownEventType(String),
    /// A known event kind with a field that is missing or of the wrong
    /// type: the kind, and the first such field.
    Malformed { event_type: String, field: String },
}

// ----- what each field decodes to -----

pub open spec fn decimal_member(j: Json, key: Seq<char>) -> Option<Decimal> {
    match text_member(j, key) {
        Some(s) => match decimal_of(s@) {
            Some(p) => Some(Decimal { mantissa: p.0, scale: p.1 }),
            None => None,
        },
        None => None,
    }
}

pub open spec fn side_member(j: Json, key: Seq<char>) -> Option<Side> {
    match text_member(j, key) {
        Some(s) => if s@ == "BUY"@ {
            Some(Side::Buy)
        } else if s@ == "SELL"@ {
            Some(Side::Sell)
        } else {
            None
        },
        None => None,
    }
}

pub open spec fn level_of(j: Json) -> Option<OrderLevel> {
    match (decimal_member(j, "price"@), decimal_member(j, "size"@)) {
        (Some(price), Some(size)) => Some(OrderLevel { price, size }),
        _ => None,
    }
}

/// Member `key` of `j` is an array of price levels, decoded in order into `levels`.
pub open spec fn levels_member(j: Json, key: Seq<char>, levels: Seq<OrderLevel>) -> bool {
    match array_member(j, key) {
        Some(items) => items.len() == levels.len() && forall|i: int|
            0 <= i < items.len() ==> level_of(#[trigger] items[i]) == Some(levels[i]),
        None => false,
    }
}

pub open spec fn levels_member_ok(j: Json, key: Seq<char>) -> bool {
    match array_member(j, key) {
        Some(items) => forall|i: int| 0 <= i < items.len() ==> (#[trigger] level_of(items[i])) is Some,
        None => false,
    }
}

pub open spec fn entry_of(j: Json) -> Option<PriceChangeEntry> {
    if text_member(j, "asset_id"@) is Some && decimal_member(j, "price"@) is Some
        && decimal_member(j, "size"@) is Some && side_member(j, "side"@) is Some
        && text_member(j, "hash"@) is Some && decimal_member(j, "best_bid"@) is Some
        && decimal_member(j, "best_ask"@) is Some {
        Some(PriceChangeEntry {
            asset_id: text_member(j, "asset_id"@)->Some_0,
            price: decimal_member(j, "price"@)->Some_0,
            size: decimal_member(j, "size"@)->Some_0,
            side: side_member(j, "side"@)->Some_0,
            hash: text_member(j, "hash"@)->Some_0,
            best_bid: decimal_member(j, "best_bid"@)->Some_0,
            best_ask: decimal_member(j, "best_ask"@)->Some_0,
        })
    } else {
        None
    }
}

pub open spec fn book_of(j: Json, b: MarketBook) -> bool {
    &&& text_member(j, "event_type"@) == Some(b.event_type)
    &&& text_member(j, "asset_id"@) == Some(b.asset_id)
    &&& text_member(j, "market"@) == Some(b.market)
    &&& text_member(j, "timestamp"@) == Some(b.timestamp)
    &&& text_member(j, "hash"@) == Some(b.hash)
    &&& levels_member(j, "bids"@, b.bids@)
    &&& levels_member(j, "asks"@, b.asks@)
}

/// The first field of a book, in declaration order, that is missing or ill-typed.
pub open spec fn book_bad_field(j: Json) -> Option<Seq<char>> {
    if text_member(j, "event_type"@) is None {
        Some("event_type"@)
    } else if text_member(j, "asset_id"@) is None {
        Some("asset_id"@)
    } else if text_member(j, "market"@) is None {
        Some("market"@)
    } else if text_member(j, "timestamp"@) is None {
        Some("timestamp"@)
    } else if text_member(j, "hash"@) is None {
        Some("hash"@)
    } else if !levels_member_ok(j, "bids"@) {
        Some("bids"@)
    } else if !levels_member_ok(j, "asks"@) {
        Some("asks"@)
    } else {
        None
    }
}

pub open spec fn price_change_of(j: Json, p: PriceChangeMessage) -> bool {
    &&& text_member(j, "event_type"@) == Some(p.event_type)
    &&& text_member(j, "market"@) == Some(p.market)
    &&& text_member(j, "timestamp"@) == Some(p.timestamp)
    &&& match array_member(j, "price_changes"@) {
        Some(items) => items.len() == p.price_changes@.len() && forall|i: int|
            0 <= i < items.len() ==> entry_of(#[trigger] items[i]) == Some(p.price_changes@[i]),
        None => false,
    }
}

pub open spec fn entries_ok(j: Json) -> bool {
    match array_member(j, "price_changes"@) {
        Some(items) => forall|i: int| 0 <= i < items.len() ==> (#[trigger] entry_of(items[i])) is Some,
        None => false,
    }
}

/// The first field of a price change, in declaration order, that is
/// missing or ill-typed.
pub open spec fn price_change_bad_field(j: Json) -> Option<Seq<char>> {
    if text_member(j, "event_type"@) is None {
        Some("event_type"@)
    } else if text_member(j, "market"@) is None {
        Some("market"@)
    } else if !entries_ok(j) {
        Some("price_changes"@)
    } else if text_member(j, "timestamp"@) is None {
        Some("timestamp"@)
    } else {
        None
    }
}

/// The first field of a tick size change, in declaration order, that is
/// missing or ill-typed.
pub open spec fn tick_size_change_bad_field(j: Json) -> Option<Seq<char>> {
    if text_member(j, "event_type"@) is None {
        Some("event_type"@)
    } else if text_member(j, "asset_id"@) is None {
        Some("asset_id"@)
    } else if text_member(j, "market"@) is None {
        Some("market"@)
    } else if decimal_member(j, "old_tick_size"@) is None {
        Some("old_tick_size"@)
    } else if decimal_member(j, "new_tick_size"@) is None {
        Some("new_tick_size"@)
    } else if text_member(j, "side"@) is None {
        Some("side"@)
    } else if text_member(j, "timestamp"@) is None {
        Some("timestamp"@)
    } else {
        None
    }
}

pub open spec fn tick_size_change_of(j: Json) -> TickSizeChangeMessage {
    TickSizeChangeMessage {
        event_type: text_member(j, "event_type"@)->Some_0,
        asset_id: text_member(j, "asset_id"@)->Some_0,
        market: text_member(j, "market"@)->Some_0,
        old_tick_size: decimal_member(j, "old_tick_size"@)->Some_0,
        new_tick_size: decimal_member(j, "new_tick_size"@)->Some_0,
        side: text_member(j, "side"@)->Some_0,
        timestamp: text_member(j, "timestamp"@)->Some_0,
    }
}

/// The first field of a trade, in declaration order, that is missing or
/// ill-typed.
pub open spec fn last_trade_bad_field(j: Json) -> Option<Seq<char>> {
    if text_member(j, "event_type"@) is None {
        Some("event_type"@)
    } else if text_member(j, "asset_id"@) is None {
        Some("asset_id"@)
    } else if text_member(j, "fee_rate_bps"@) is None {
        Some("fee_rate_bps"@)
    } else if text_member(j, "market"@) is None {
        Some("market"@)
    } else if decimal_member(j, "price"@) is None {
        Some("price"@)
    } else if decimal_member(j, "size"@) is None {
        Some("size"@)
    } else if side_member(j, "side"@) is None {
        Some("side"@)
    } else if text_member(j, "timestamp"@) is None {
        Some("timestamp"@)
    } else {
        None
    }
}

pub open spec fn last_trade_of(j: Json) -> LastTradeMessage {
    LastTradeMessage {
        event_type: text_member(j, "event_type"@)->Some_0,
        asset_id: text_member(j, "asset_id"@)->Some_0,
        fee_rate_bps: text_member(j, "fee_rate_bps"@)->Some_0,
        market: text_member(j, "market"@)->Some_0,
        price: decimal_member(j, "price"@)->Some_0,
        size: decimal_member(j, "size"@)->Some_0,
        side: side_member(j, "side"@)->Some_0,
        timestamp: text_member(j, "timestamp"@)->Some_0,
    }
}

// ----- dispatch on the discriminant -----

/// The discriminant: `event_type` when it is a string, else `type`.
pub open spec fn event_kind(j: Json) -> Option<String> {
    if text_member(j, "event_type"@) is Some {
        text_member(j, "event_type"@)
    } else {
        text_member(j, "type"@)
    }
}

pub open spec fn known_kind(k: Seq<char>) -> bool {
    k == "book"@ || k == "price_change"@ || k == "tick_size_change"@ || k == "last_trade_price"@
}

/// For a known kind `k`, the first field of `j` that keeps it from decoding.
pub open spec fn bad_field(k: Seq<char>, j: Json) -> Option<Seq<char>> {
    if k == "book"@ {
        book_bad_field(j)
    } else if k == "price_change"@ {
        price_change_bad_field(j)
    } else if k == "tick_size_change"@ {
        tick_size_change_bad_field(j)
    } else {
        last_trade_bad_field(j)
    }
}

/// `j` decodes as one event.
pub open spec fn decodes_ok(j: Json) -> bool {
    event_kind(j) matches Some(k) && known_kind(k@) && bad_field(k@, j) is None
}

/// `e` is the error that decoding `j` as one event gives.
pub open spec fn decode_error(j: Json, e: ParseError) -> bool {
    match event_kind(j) {
        None => e == ParseError::MissingEventType,
        Some(k) => if known_kind(k@) {
            bad_field(k@, j) matches Some(f) && e matches ParseError::Malformed { event_type, field }
                && event_type == k && field@ == f
        } else {
            e == ParseError::UnknownEventType(k)
        },
    }
}

/// `e` is the event that `j` decodes to.
pub open spec fn decodes_to(j: Json, e: WssMarketEvent) -> bool {
    match event_kind(j) {
        None => false,
        Some(k) => match e {
            WssMarketEvent::Book(b) => k@ == "book"@ && book_of(j, b),
            WssMarketEvent::PriceChange(p) => k@ == "price_change"@ && price_change_of(j, p),
            WssMarketEvent::TickSizeChange(t) => k@ == "tick_size_change"@
                && tick_size_change_of(j) == t,
            WssMarketEvent::LastTrade(t) => k@ == "last_trade_price"@ && last_trade_of(j) == t,
        },
    }
}

// ----- decoders -----

fn text_field(j: &Json, key: &str) -> (r: Option<String>)
    ensures
        r == text_member(*j, key@),
{
    match j.get_text(key) {
        Some(s) => Some(s.clone()),
        None => None,
    }
}

fn decimal_field(j: &Json, key: &str) -> (r: Option<Decimal>)
    ensures
        r == decimal_member(*j, key@),
{
    match j.get_text(key) {
        Some(s) => parse_decimal(s.as_str()),
        None => None,
    }
}

fn side_field(j: &Json, key: &str) -> (r: Option<Side>)
    ensures
        r == side_member(*j, key@),
{
    match j.get_text(key) {
        Some(s) => if same_text(s.as_str(), "BUY") {
            Some(Side::Buy)
        } else if same_text(s.as_str(), "SELL") {
            Some(Side::Sell)
        } else {
            None
        },
        None => None,
    }
}

fn order_level(j: &Json) -> (r: Option<OrderLevel>)
    ensures
        r == level_of(*j),
{
    match (decimal_field(j, "price"), decimal_field(j, "size")) {
        (Some(price), Some(size)) => Some(OrderLevel { price, size }),
        _ => None,
    }
}

fn order_levels(j: &Json, key: &str) -> (r: Option<Vec<OrderLevel>>)
    ensures
        r matches Some(v) ==> levels_member(*j, key@, v@),
        r is None <==> !levels_member_ok(*j, key@),
{
    let items = match j.get_array(key) {
        Some(items) => items,
        None => return None,
    };
    let mut out: Vec<OrderLevel> = Vec::new();
    let mut i: usize = 0;
    while i < items.len()
        invariant
            array_member(*j, key@) == Some(items@),
            i <= items@.len(),
            out@.len() == i,
            forall|k: int| 0 <= k < i ==> level_of(#[trigger] items@[k]) == Some(out@[k]),
        decreases items.len() - i,
    {
        match order_level(&items[i]) {
            Some(level) => out.push(level),
            None => return None,
        }
        i = i + 1;
    }
    Some(out)
}

fn price_change_entry(j: &Json) -> (r: Option<PriceChangeEntry>)
    ensures
        r == entry_of(*j),
{
    let asset_id = match text_field(j, "asset_id") { Some(v) => v, None => return None };
    let price = match decimal_field(j, "price") { Some(v) => v, None => return None };
    let size = match decimal_field(j, "size") { Some(v) => v, None => return None };
    let side = match side_field(j, "side") { Some(v) => v, None => return None };
    let hash = match text_field(j, "hash") { Some(v) => v, None => return None };
    let best_bid = match decimal_field(j, "best_bid") { Some(v) => v, None => return None };
    let best_ask = match decimal_field(j, "best_ask") { Some(v) => v, None => return None };
    Some(PriceChangeEntry { asset_id, price, size, side, hash, best_bid, best_ask })
}

fn decode_book(j: &Json) -> (r: Result<MarketBook, &'static str>)
    ensures
        match r {
            Ok(b) => book_bad_field(*j) is None && book_of(*j, b),
            Err(f) => book_bad_field(*j) == Some(f@),
        },
{
    let event_type = match text_field(j, "event_type") { Some(v) => v, None => return Err("event_type") };
    let asset_id = match text_field(j, "asset_id") { Some(v) => v, None => return Err("asset_id") };
    let market = match text_field(j, "market") { Some(v) => v, None => return Err("market") };
    let timestamp = match text_field(j, "timestamp") { Some(v) => v, None => return Err("timestamp") };
    let hash = match text_field(j, "hash") { Some(v) => v, None => return Err("hash") };
    let bids = match order_levels(j, "bids") { Some(v) => v, None => return Err("bids") };
    let asks = match order_levels(j, "asks") { Some(v) => v, None => return Err("asks") };
    proof {
        assert forall|i: int| 0 <= i < array_member(*j, "bids"@)->Some_0.len() implies
            (#[trigger] level_of(array_member(*j, "bids"@)->Some_0[i])) is Some by {}
        assert forall|i: int| 0 <= i < array_member(*j, "asks"@)->Some_0.len() implies
            (#[trigger] level_of(array_member(*j, "asks"@)->Some_0[i])) is Some by {}
    }
    Ok(MarketBook { event_type, asset_id, market, timestamp, hash, bids, asks })
}

fn decode_price_change(j: &Json) -> (r: Result<PriceChangeMessage, &'static str>)
    ensures
        match r {
            Ok(p) => price_change_bad_field(*j) is None && price_change_of(*j, p),
            Err(f) => price_change_bad_field(*j) == Some(f@),
        },
{
    let event_type = match text_field(j, "event_type") { Some(v) => v, None => return Err("event_type") };
    let market = match text_field(j, "market") { Some(v) => v, None => return Err("market") };
    let items = match j.get_array("price_changes") {
        Some(items) => items,
        None => return Err("price_changes"),
    };
    let mut price_changes: Vec<PriceChangeEntry> = Vec::new();
    let mut i: usize = 0;
    while i < items.len()
        invariant
            array_member(*j, "price_changes"@) == Some(items@),
            text_member(*j, "event_type"@) == Some(event_type),
            text_member(*j, "market"@) == Some(market),
            i <= items@.len(),
            price_changes@.len() == i,
            forall|k: int| 0 <= k < i ==> entry_of(#[trigger] items@[k]) == Some(price_changes@[k]),
        decreases items.len() - i,
    {
        match price_change_entry(&items[i]) {
            Some(entry) => price_changes.push(entry),
            None => return Err("price_changes"),
        }
        i = i + 1;
    }
    let timestamp = match text_field(j, "timestamp") { Some(v) => v, None => return Err("timestamp") };
    Ok(PriceChangeMessage { event_type, market, price_changes, timestamp })
}

fn decode_tick_size_change(j: &Json) -> (r: Result<TickSizeChangeMessage, &'static str>)
    ensures
        match r {
            Ok(t) => tick_size_change_bad_field(*j) is None && tick_size_change_of(*j) == t,
            Err(f) => tick_size_change_bad_field(*j) == Some(f@),
        },
{
    let event_type = match text_field(j, "event_type") { Some(v) => v, None => return Err("event_type") };
    let asset_id = match text_field(j, "asset_id") { Some(v) => v, None => return Err("asset_id") };
    let market = match text_field(j, "market") { Some(v) => v, None => return Err("market") };
    let old_tick_size = match decimal_field(j, "old_tick_size") {
        Some(v) => v,
        None => return Err("old_tick_size"),
    };
    let new_tick_size = match decimal_field(j, "new_tick_size") {
        Some(v) => v,
        None => return Err("new_tick_size"),
    };
    let side = match text_field(j, "side") { Some(v) => v, None => return Err("side") };
    let timestamp = match text_field(j, "timestamp") { Some(v) => v, None => return Err("timestamp") };
    Ok(TickSizeChangeMessage {
        event_type, asset_id, market, old_tick_size, new_tick_size, side, timestamp,
    })
}

fn decode_last_trade(j: &Json) -> (r: Result<LastTradeMessage, &'static str>)
    ensures
        match r {
            Ok(t) => last_trade_bad_field(*j) is None && last_trade_of(*j) == t,
            Err(f) => last_trade_bad_field(*j) == Some(f@),
        },
{
    let event_type = match text_field(j, "event_type") { Some(v) => v, None => return Err("event_type") };
    let asset_id = match text_field(j, "asset_id") { Some(v) => v, None => return Err("asset_id") };
    let fee_rate_bps = match text_field(j, "fee_rate_bps") {
        Some(v) => v,
        None => return Err("fee_rate_bps"),
    };
    let market = match text_field(j, "market") { Some(v) => v, None => return Err("market") };
    let price = match decimal_field(j, "price") { Some(v) => v, None => return Err("price") };
    let size = match decimal_field(j, "size") { Some(v) => v, None => return Err("size") };
    let side = match side_field(j, "side") { Some(v) => v, None => return Err("side") };
    let timestamp = match text_field(j, "timestamp") { Some(v) => v, None => return Err("timestamp") };
    Ok(LastTradeMessage {
        event_type, asset_id, fee_rate_bps, market, price, size, side, timestamp,
    })
}

fn malformed(kind: String, field: &str) -> (r: ParseError)
    ensures
        r matches ParseError::Malformed { event_type, field: f } && event_type == kind && f@ == field@,
{
    ParseError::Malformed { event_type: kind, field: String::from_str(field) }
}

/// Decodes one JSON element into an event, dispatching on its discriminant.
pub fn parse_market_event_value(j: &Json) -> (r: Result<WssMarketEvent, ParseError>)
    ensures
        match r {
            Ok(e) => decodes_ok(*j) && decodes_to(*j, e),
            Err(err) => !decodes_ok(*j) && decode_error(*j, err),
        },
{
    let kind = match text_field(j, "event_type") {
        Some(k) => k,
        None => match text_field(j, "type") {
            Some(k) => k,
            None => return Err(ParseError::MissingEventType),
        },
    };
    if same_text(kind.as_str(), "book") {
        match decode_book(j) {
            Ok(b) => Ok(WssMarketEvent::Book(b)),
            Err(f) => Err(malformed(kind, f)),
        }
    } else if same_text(kind.as_str(), "price_change") {
        match decode_price_change(j) {
            Ok(p) => Ok(WssMarketEvent::PriceChange(p)),
            Err(f) => Err(malformed(kind, f)),
        }
    } else if same_text(kind.as_str(), "tick_size_change") {
        match decode_tick_size_change(j) {
            Ok(t) => Ok(WssMarketEvent::TickSizeChange(t)),
            Err(f) => Err(malformed(kind, f)),
        }
    } else if same_text(kind.as_str(), "last_trade_price") {
        match decode_last_trade(j) {
            Ok(t) => Ok(WssMarketEvent::LastTrade(t)),
            Err(f) => Err(malformed(kind, f)),
        }
    } else {
        Err(ParseError::UnknownEventType(kind))
    }
}

} // verus!
