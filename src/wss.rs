//! The public market channel: a reconnecting client that replays the latest
//! subscription, classifies inbound frames and decodes typed events.
pub use crate::backoff::{
    reconnect_delay, BASE_RECONNECT_DELAY_MS, MAX_RECONNECT_ATTEMPTS, MAX_RECONNECT_DELAY_MS,
};
pub use crate::client::{
    ConnectStep, EnsureStep, Inbound, NextStep, Reply, Telemetry, WssError, WssMarketClient,
    WssStats,
};
pub use crate::events::{
    Decimal, LastTradeMessage, MarketBook, OrderLevel, ParseError, PriceChangeEntry,
    PriceChangeMessage, Side, TickSizeChangeMessage, WssMarketEvent, parse_market_event_value,
};
pub use crate::frame::{classify_frame, market_events_from_value, parse_market_events, FrameKind};
pub use crate::history::{DisconnectHistory, DISCONNECT_HISTORY_LEN};
pub use crate::subscription::{format_subscription, parse_subscription, subscription_ids};
