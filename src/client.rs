//! The market-channel client as a state machine: it decides when to
//! connect, what to send, and what each inbound frame does to its queue and
//! telemetry. The transport itself is driven by the caller.
use vstd::prelude::*;
use std::collections::VecDeque;
use crate::backoff::{reconnect_delay, backoff_delay, MAX_RECONNECT_ATTEMPTS};
use crate::events::{ParseError, WssMarketEvent};
use crate::frame::{FrameKind, classify_frame, frame_kind, parse_market_events, decodes_all, frame_items};
use crate::history::{DisconnectHistory, recorded, DISCONNECT_HISTORY_LEN};
use crate::json::{Json, json_accepts, json_tree};
use crate::subscription::{format_subscription, subscription_frame};
use crate::text::{trim_end_char, strip_end, trimmed, eq_ignore_ascii_case};

verus! {

/// Counters for monitoring connection health.
#[derive(Clone, Copy, Debug, PartialEq, Eq)]
pub struct WssStats {
    /// Events decoded from payload frames.
    pub messages_received: u64,
    /// Failed connection attempts and transport read errors.
    pub errors: u64,
    /// Connections made after at least one failed attempt.
    pub reconnect_count: u32,
    /// Time of the last payload frame, in milliseconds since the Unix epoch.
    pub last_message_time: Option<i64>,
}

pub open spec fn zero_stats() -> WssStats {
    WssStats { messages_received: 0, errors: 0, reconnect_count: 0, last_message_time: None }
}

impl Default for WssStats {
    fn default() -> (r: Self)
        ensures
            r == zero_stats(),
    {
        WssStats { messages_received: 0, errors: 0, reconnect_count: 0, last_message_time: None }
    }
}

/// `x + n`, held at `u64::MAX`.
pub open spec fn add_sat(x: u64, n: nat) -> u64 {
    if x + n <= u64::MAX { (x + n) as u64 } else { u64::MAX }
}

/// `x + 1`, held at `u32::MAX`.
pub open spec fn bump32(x: u32) -> u32 {
    if x < u32::MAX { (x + 1) as u32 } else { u32::MAX }
}

fn saturating_add_u64(x: u64, n: usize) -> (r: u64)
    ensures
        r == add_sat(x, n as nat),
{
    if n as u64 <= u64::MAX - x { x + n as u64 } else { u64::MAX }
}

fn saturating_inc_u32(x: u32) -> (r: u32)
    ensures
        r == bump32(x),
{
    if x < u32::MAX { x + 1 } else { u32::MAX }
}

/// Errors surfaced to the caller of the client.
#[derive(Clone, Debug, PartialEq)]
pub enum WssError {
    /// No connection after the whole retry budget.
    ConnectionFailed { attempts: u32 },
    /// An outbound message could not be sent on the connection.
    MessageCorrupted,
    /// An inbound frame could not be decoded.
    Parse(ParseError),
    /// The caller's cancellation signal or deadline came first.
    Cancelled,
}

/// What to do about the connection before reading or sending.
#[derive(Clone, Copy, Debug, PartialEq, Eq, Structural)]
pub enum EnsureStep {
    /// A connection is live: nothing to do.
    Ready,
    /// No connection: connect, then report the outcome.
    Connect,
}

/// What to do after a failed connection attempt.
#[derive(Clone, Debug, PartialEq)]
pub enum ConnectStep {
    /// Wait this many milliseconds, then try again.
    Retry { delay_ms: u64 },
    /// Stop and report this error.
    GiveUp(WssError),
}

/// What `next_event` asks the caller to do.
#[derive(Clone, Debug, PartialEq)]
pub enum NextStep {
    /// Hand this event to the consumer.
    Deliver(WssMarketEvent),
    /// Connect first.
    Connect,
    /// Read one frame and pass it to `handle_frame`.
    AwaitFrame,
}

/// Counters and disconnect history, taken together.
#[derive(Clone, Debug, PartialEq)]
pub struct Telemetry {
    pub stats: WssStats,
    /// Recent disconnect times, oldest first.
    pub disconnect_history: Vec<i64>,
}

/// A frame, or the end of the stream, as the transport delivered it.
#[derive(Clone, Debug, PartialEq)]
pub enum Inbound {
    Text(String),
    Ping(Vec<u8>),
    Pong(Vec<u8>),
    Close,
    /// Any other frame kind (binary, raw).
    Other,
    /// The transport reported a read error.
    Failed,
    /// The stream ended.
    Ended,
}

/// What to send back for a frame.
#[derive(Clone, Debug, PartialEq)]
pub enum Reply {
    Nothing,
    Pong(Vec<u8>),
}

/// The state of a client, as its contracts see it.
pub struct ClientView {
    pub url: Seq<char>,
    pub connected: bool,
    /// Failed attempts in the current connection cycle.
    pub attempts: nat,
    pub ids: Seq<String>,
    pub stats: WssStats,
    pub history: Seq<i64>,
    pub pending: Seq<WssMarketEvent>,
}

/// Reconnecting client for the market channel.
pub struct WssMarketClient {
    connect_url: String,
    connected: bool,
    connect_attempts: u32,
    subscribed_asset_ids: Vec<String>,
    stats: WssStats,
    disconnect_history: DisconnectHistory,
    pending_events: VecDeque<WssMarketEvent>,
}

impl View for WssMarketClient {
    type V = ClientView;

    closed spec fn view(&self) -> ClientView {
        ClientView {
            url: self.connect_url@,
            connected: self.connected,
            attempts: self.connect_attempts as nat,
            ids: self.subscribed_asset_ids@,
            stats: self.stats,
            history: self.disconnect_history@,
            pending: self.pending_events@,
        }
    }
}

// ----- the transitions -----

/// The connection URL for a base URL.
pub open spec fn channel_url(base: Seq<char>) -> Seq<char> {
    strip_end(base, '/') + "/ws/market"@
}

pub open spec fn fresh(url: Seq<char>) -> ClientView {
    ClientView {
        url,
        connected: false,
        attempts: 0,
        ids: Seq::<String>::empty(),
        stats: zero_stats(),
        history: Seq::<i64>::empty(),
        pending: Seq::<WssMarketEvent>::empty(),
    }
}

/// The subscription frame that the state calls for, if any.
pub open spec fn outgoing(v: ClientView) -> Option<Seq<char>> {
    if v.ids.len() == 0 { None } else { Some(subscription_frame(v.ids)) }
}

pub open spec fn subscribed(v: ClientView, ids: Seq<String>) -> ClientView {
    ClientView { ids, ..v }
}

pub open spec fn ensure_step(v: ClientView) -> EnsureStep {
    if v.connected { EnsureStep::Ready } else { EnsureStep::Connect }
}

/// State at the start of a connection cycle: no failed attempts yet.
pub open spec fn cycle_started(v: ClientView) -> ClientView {
    ClientView { attempts: 0, ..v }
}

/// State and step after one more failed connection attempt.
pub open spec fn failure_transition(v: ClientView) -> (ClientView, ConnectStep) {
    let n = v.attempts + 1;
    let stats = WssStats { errors: add_sat(v.stats.errors, 1), ..v.stats };
    if n >= MAX_RECONNECT_ATTEMPTS {
        (
            ClientView { attempts: 0, stats, ..v },
            ConnectStep::GiveUp(WssError::ConnectionFailed { attempts: n as u32 }),
        )
    } else {
        (ClientView { attempts: n, stats, ..v }, ConnectStep::Retry { delay_ms: backoff_delay(n) as u64 })
    }
}

/// State after a connection attempt succeeded.
pub open spec fn connected_transition(v: ClientView) -> ClientView {
    let stats = if v.attempts > 0 {
        WssStats { reconnect_count: bump32(v.stats.reconnect_count), ..v.stats }
    } else {
        v.stats
    };
    ClientView { connected: true, attempts: 0, stats, ..v }
}

/// State after the events of one payload frame were received at `now`.
pub open spec fn received(v: ClientView, events: Seq<WssMarketEvent>, now: i64) -> ClientView {
    ClientView {
        pending: v.pending + events,
        stats: WssStats {
            messages_received: add_sat(v.stats.messages_received, events.len()),
            last_message_time: Some(now),
            ..v.stats
        },
        ..v
    }
}

/// How a payload frame that parsed as `j` moved the state from `v` to `w`.
pub open spec fn payload_outcome(
    v: ClientView,
    w: ClientView,
    r: Result<Reply, WssError>,
    j: Json,
    now: i64,
) -> bool {
    match r {
        Ok(reply) => reply == Reply::Nothing && exists|events: Vec<WssMarketEvent>|
            decodes_all(frame_items(j), Ok(events)) && w == received(v, events@, now),
        Err(WssError::Parse(e)) => decodes_all(frame_items(j), Err(e)) && w == v,
        Err(_) => false,
    }
}

/// How the text frame `t` moved the state from `v` to `w`.
pub open spec fn text_outcome(
    v: ClientView,
    w: ClientView,
    r: Result<Reply, WssError>,
    t: Seq<char>,
    now: i64,
) -> bool {
    match frame_kind(t) {
        FrameKind::Payload => if json_accepts(t) {
            payload_outcome(v, w, r, json_tree(t), now)
        } else {
            (r matches Err(WssError::Parse(ParseError::InvalidJson(raw))) && raw@ == t) && w == v
        },
        _ => r == Ok::<Reply, WssError>(Reply::Nothing) && w == v,
    }
}

/// State and step after `k` (at least one) consecutive failed attempts from `v`.
pub open spec fn failures(v: ClientView, k: nat) -> (ClientView, ConnectStep)
    decreases k,
{
    if k <= 1 {
        failure_transition(v)
    } else {
        failure_transition(failures(v, (k - 1) as nat).0)
    }
}

proof fn lemma_failures_count(v: ClientView, k: nat)
    requires
        v.attempts == 0,
        1 <= k < MAX_RECONNECT_ATTEMPTS,
    ensures
        failures(v, k).0.attempts == k,
        failures(v, k).1 == (ConnectStep::Retry { delay_ms: backoff_delay(k) as u64 }),
    decreases k,
{
    if k > 1 {
        lemma_failures_count(v, (k - 1) as nat);
    }
}

/// In a connection cycle begun from any state, failed attempt `n` below the
/// limit is followed by a retry after `backoff_delay(n)`; the failure that
/// reaches the limit ends the cycle with `ConnectionFailed`, and no retry
/// follows it.
pub proof fn lemma_connect_gives_up_after_max_attempts(v: ClientView)
    ensures
        forall|n: nat| 1 <= n < MAX_RECONNECT_ATTEMPTS ==> #[trigger] failures(cycle_started(v), n).1
            == (ConnectStep::Retry { delay_ms: backoff_delay(n) as u64 }),
        failures(cycle_started(v), MAX_RECONNECT_ATTEMPTS as nat).1 == ConnectStep::GiveUp(
            WssError::ConnectionFailed { attempts: MAX_RECONNECT_ATTEMPTS },
        ),
        failures(cycle_started(v), MAX_RECONNECT_ATTEMPTS as nat).0.attempts == 0,
{
    let c = cycle_started(v);
    assert forall|n: nat| 1 <= n < MAX_RECONNECT_ATTEMPTS implies #[trigger] failures(c, n).1
        == (ConnectStep::Retry { delay_ms: backoff_delay(n) as u64 }) by {
        lemma_failures_count(c, n);
    }
    lemma_failures_count(c, (MAX_RECONNECT_ATTEMPTS - 1) as nat);
}

/// After `subscribe(ids)` the frame to transmit, whether straight away or
/// as the replay that follows a new connection, is exactly the subscription
/// frame for `ids`; with no identifiers nothing is transmitted.
pub proof fn lemma_subscribe_transmits(v: ClientView, ids: Seq<String>)
    ensures
        outgoing(subscribed(v, ids)) == (if ids.len() == 0 {
            None
        } else {
            Some(subscription_frame(ids))
        }),
        outgoing(connected_transition(subscribed(v, ids))) == outgoing(subscribed(v, ids)),
{
}

/// A text frame that reads `ping` in any letter case, once trimmed, is
/// dropped: nothing is queued and no counter moves.
pub proof fn lemma_ping_frame_dropped(
    v: ClientView,
    w: ClientView,
    r: Result<Reply, WssError>,
    t: Seq<char>,
    now: i64,
)
    requires
        eq_ignore_ascii_case(trimmed(t), "ping"@),
        text_outcome(v, w, r, t, now),
    ensures
        w == v,
        r == Ok::<Reply, WssError>(Reply::Nothing),
{
}

/// Events of successive payload frames queue up behind what was already
/// pending, each frame's events in their own order.
pub proof fn lemma_queue_keeps_arrival_order(
    v: ClientView,
    first: Seq<WssMarketEvent>,
    second: Seq<WssMarketEvent>,
    t1: i64,
    t2: i64,
)
    ensures
        received(received(v, first, t1), second, t2).pending == v.pending + first + second,
{
    assert(v.pending + first + second =~= (v.pending + first) + second);
}

/// Making sure of the connection while connected asks for nothing, and once
/// a connection has been made (with its one replay) the next call asks for
/// nothing either: no second attempt and no second replay.
pub proof fn lemma_ensure_connection_idempotent(v: ClientView)
    ensures
        v.connected ==> ensure_step(v) == EnsureStep::Ready,
        ensure_step(connected_transition(v)) == EnsureStep::Ready,
{
}

impl WssMarketClient {
    pub open spec fn wf(&self) -> bool {
        &&& self@.attempts < MAX_RECONNECT_ATTEMPTS
        &&& self@.history.len() <= DISCONNECT_HISTORY_LEN
    }

    /// A client for the default market-channel endpoint.
    pub fn new() -> (r: Self)
        ensures
            r@ == fresh(channel_url("wss://ws-subscriptions-clob.polymarket.com"@)),
            r.wf(),
    {
        Self::with_url("wss://ws-subscriptions-clob.polymarket.com")
    }

    /// A client against a custom base URL; trailing slashes are dropped
    /// before the channel path is appended.
    pub fn with_url(url: &str) -> (r: Self)
        ensures
            r@ == fresh(channel_url(url@)),
            r.wf(),
    {
        let mut connect_url = String::from_str(trim_end_char(url, '/'));
        connect_url.append("/ws/market");
        let history = DisconnectHistory::new();
        WssMarketClient {
            connect_url,
            connected: false,
            connect_attempts: 0,
            subscribed_asset_ids: Vec::new(),
            stats: WssStats::default(),
            disconnect_history: history,
            pending_events: VecDeque::new(),
        }
    }

    /// The URL to connect to.
    pub fn connect_url(&self) -> (r: &str)
        ensures
            r@ == self@.url,
    {
        self.connect_url.as_str()
    }

    /// A snapshot of the connection stats.
    pub fn stats(&self) -> (r: WssStats)
        ensures
            r == self@.stats,
    {
        self.stats
    }

    /// The counters and the disconnect history in one snapshot.
    pub fn telemetry(&self) -> (r: Telemetry)
        ensures
            r.stats == self@.stats,
            r.disconnect_history@ == self@.history,
    {
        Telemetry { stats: self.stats, disconnect_history: self.disconnect_history.entries() }
    }

    /// The recent disconnect times, oldest first.
    pub fn disconnect_history(&self) -> (r: Vec<i64>)
        ensures
            r@ == self@.history,
    {
        self.disconnect_history.entries()
    }

    pub fn is_connected(&self) -> (r: bool)
        ensures
            r == self@.connected,
    {
        self.connected
    }

    /// Events decoded but not yet delivered.
    pub fn pending_len(&self) -> (r: usize)
        ensures
            r == self@.pending.len(),
    {
        self.pending_events.len()
    }

    /// Replaces the subscribed identifiers; an empty list clears them. The
    /// caller then makes sure of the connection and sends
    /// `subscription_message`.
    pub fn subscribe(&mut self, asset_ids: Vec<String>)
        requires
            old(self).wf(),
        ensures
            final(self)@ == subscribed(old(self)@, asset_ids@),
            final(self).wf(),
    {
        self.subscribed_asset_ids = asset_ids;
    }

    /// The subscription frame to send; `None` when nothing is subscribed.
    pub fn subscription_message(&self) -> (r: Option<String>)
        ensures
            match outgoing(self@) {
                Some(f) => r matches Some(m) && m@ == f,
                None => r is None,
            },
    {
        if self.subscribed_asset_ids.len() == 0 {
            None
        } else {
            Some(format_subscription(&self.subscribed_asset_ids))
        }
    }

    /// Whether a connection must be made first; a live connection needs nothing.
    pub fn ensure_connection(&self) -> (r: EnsureStep)
        ensures
            r == ensure_step(self@),
    {
        if self.connected { EnsureStep::Ready } else { EnsureStep::Connect }
    }

    /// Starts a connection cycle: the retry budget is whole again, whatever
    /// an interrupted earlier cycle left.
    pub fn begin_connect(&mut self)
        requires
            old(self).wf(),
        ensures
            final(self)@ == cycle_started(old(self)@),
            final(self).wf(),
    {
        self.connect_attempts = 0;
    }

    /// Records a failed connection attempt and says whether to retry.
    pub fn on_connect_failed(&mut self) -> (r: ConnectStep)
        requires
            old(self).wf(),
        ensures
            (final(self)@, r) == failure_transition(old(self)@),
            final(self).wf(),
    {
        self.stats.errors = saturating_add_u64(self.stats.errors, 1);
        let n = self.connect_attempts + 1;
        if n >= MAX_RECONNECT_ATTEMPTS {
            self.connect_attempts = 0;
            ConnectStep::GiveUp(WssError::ConnectionFailed { attempts: n })
        } else {
            self.connect_attempts = n;
            ConnectStep::Retry { delay_ms: reconnect_delay(n) }
        }
    }

    /// Records a successful connection; returns the subscription to replay.
    pub fn on_connected(&mut self) -> (replay: Option<String>)
        requires
            old(self).wf(),
        ensures
            final(self)@ == connected_transition(old(self)@),
            final(self).wf(),
            match outgoing(old(self)@) {
                Some(f) => replay matches Some(m) && m@ == f,
                None => replay is None,
            },
    {
        if self.connect_attempts > 0 {
            self.stats.reconnect_count = saturating_inc_u32(self.stats.reconnect_count);
        }
        self.connect_attempts = 0;
        self.connected = true;
        self.subscription_message()
    }

    /// The next thing to do to obtain an event: the queue is drained first.
    pub fn next_event(&mut self) -> (r: NextStep)
        requires
            old(self).wf(),
        ensures
            final(self).wf(),
            old(self)@.pending.len() > 0 ==> r == NextStep::Deliver(old(self)@.pending[0])
                && final(self)@ == (ClientView { pending: old(self)@.pending.drop_first(), ..old(self)@ }),
            old(self)@.pending.len() == 0 ==> final(self)@ == old(self)@
                && r == (if old(self)@.connected { NextStep::AwaitFrame } else { NextStep::Connect }),
    {
        match self.pending_events.pop_front() {
            Some(e) => {
                assert(self.pending_events@ =~= old(self)@.pending.drop_first());
                NextStep::Deliver(e)
            },
            None => if self.connected {
                NextStep::AwaitFrame
            } else {
                NextStep::Connect
            },
        }
    }

    fn enqueue(&mut self, events: Vec<WssMarketEvent>, now_ms: i64)
        requires
            old(self).wf(),
        ensures
            final(self)@ == received(old(self)@, events@, now_ms),
            final(self).wf(),
    {
        self.stats.messages_received = saturating_add_u64(self.stats.messages_received, events.len());
        self.stats.last_message_time = Some(now_ms);
        let mut events = events;
        let ghost all = events@;
        let n = events.len();
        let mut i: usize = 0;
        while events.len() > 0
            invariant
                all.len() == n,
                i + events@.len() == all.len(),
                events@ == all.skip(i as int),
                self.pending_events@ == old(self)@.pending + all.take(i as int),
                self.connect_url == old(self).connect_url,
                self.connected == old(self).connected,
                self.connect_attempts == old(self).connect_attempts,
                self.subscribed_asset_ids == old(self).subscribed_asset_ids,
                self.disconnect_history == old(self).disconnect_history,
                self.stats == received(old(self)@, all, now_ms).stats,
            decreases events.len(),
        {
            let e = events.remove(0);
            self.pending_events.push_back(e);
            assert(all.take(i + 1) =~= all.take(i as int).push(e));
            i = i + 1;
            assert(events@ =~= all.skip(i as int));
        }
        assert(all.take(i as int) =~= all);
    }

    /// Applies one inbound frame, read at `now_ms`, to the state.
    pub fn handle_frame(&mut self, frame: Inbound, now_ms: i64) -> (r: Result<Reply, WssError>)
        requires
            old(self).wf(),
        ensures
            final(self).wf(),
            match frame {
                Inbound::Text(t) => text_outcome(old(self)@, final(self)@, r, t@, now_ms),
                Inbound::Ping(p) => r == Ok::<Reply, WssError>(Reply::Pong(p)) && final(self)@ == old(self)@,
                Inbound::Close => r == Ok::<Reply, WssError>(Reply::Nothing) && final(self)@ == (ClientView {
                    connected: false,
                    history: recorded(old(self)@.history, now_ms),
                    ..old(self)@
                }),
                Inbound::Failed => r == Ok::<Reply, WssError>(Reply::Nothing) && final(self)@ == (ClientView {
                    connected: false,
                    history: recorded(old(self)@.history, now_ms),
                    stats: WssStats { errors: add_sat(old(self)@.stats.errors, 1), ..old(self)@.stats },
                    ..old(self)@
                }),
                Inbound::Ended => r == Ok::<Reply, WssError>(Reply::Nothing) && final(self)@ == (ClientView {
                    connected: false,
                    history: recorded(old(self)@.history, now_ms),
                    ..old(self)@
                }),
                _ => r == Ok::<Reply, WssError>(Reply::Nothing) && final(self)@ == old(self)@,
            },
    {
        match frame {
            Inbound::Text(t) => {
                match classify_frame(t.as_str()) {
                    FrameKind::Payload => {},
                    _ => return Ok(Reply::Nothing),
                }
                match parse_market_events(t.as_str()) {
                    Ok(events) => {
                        let ghost evs = events;
                        self.enqueue(events, now_ms);
                        assert(json_accepts(t@) ==> payload_outcome(
                            old(self)@, self@, Ok(Reply::Nothing), json_tree(t@), now_ms));
                        Ok(Reply::Nothing)
                    },
                    Err(e) => {
                        Err(WssError::Parse(e))
                    },
                }
            },
            Inbound::Ping(p) => Ok(Reply::Pong(p)),
            Inbound::Close => {
                self.disconnect_history.record(now_ms);
                self.connected = false;
                Ok(Reply::Nothing)
            },
            Inbound::Failed => {
                self.disconnect_history.record(now_ms);
                self.connected = false;
                self.stats.errors = saturating_add_u64(self.stats.errors, 1);
                Ok(Reply::Nothing)
            },
            Inbound::Ended => {
                self.disconnect_history.record(now_ms);
                self.connected = false;
                Ok(Reply::Nothing)
            },
            _ => Ok(Reply::Nothing),
        }
    }
}

} // verus!
