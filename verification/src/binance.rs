//! The feed connector for the Binance spot aggregated-trade channel: it owns
//! one streaming connection's lifecycle, parses inbound data frames against
//! the venue's wire schema, converts them into normalized trade records, and
//! publishes those to a broker handle.

use vstd::prelude::*;

use std::sync::mpsc::Sender;

use vstd::string::StringExecFns;

use crate::brokers::MarketDataMsg;
use crate::channels::channel_send;
use crate::decimal::{parse_decimal, spec_decimal_result, Decimal, DecimalError};
use crate::json::{
    digits_to_u64, digits_val, parse_string, parse_value, skip_ws, spec_parse_string,
    spec_parse_value, spec_skip_ws, tok_ranges_ok, tok_val, JsonTok, JsonVal,
};
use crate::types::{BaseSymbol, QuoteSymbol, SpotTrade, Symbol, Taker, Timestamp, Venue};

verus! {

// ------------------------- the wire schema -------------------------

/// The consumed fields of one aggregated-trade data frame: `p` (price,
/// decimal string), `q` (base quantity, decimal string), `T` (trade time,
/// epoch milliseconds) and `m` (buyer is the market maker). The other
/// documented fields are present on the wire but not consumed.
pub struct BinanceAggTradeRecord {
    pub p: Vec<u8>,
    pub q: Vec<u8>,
    pub t: u64,
    pub m: bool,
}

/// Spec-level image of a parsed data frame.
pub struct AggRec {
    pub p: Seq<u8>,
    pub q: Seq<u8>,
    pub t: nat,
    pub m: bool,
}

/// The fields gathered so far while scanning an object's members.
pub struct PartialAgg {
    pub p: Option<Seq<u8>>,
    pub q: Option<Seq<u8>>,
    pub t: Option<nat>,
    pub m: Option<bool>,
}

pub open spec fn empty_partial() -> PartialAgg {
    PartialAgg { p: None, q: None, t: None, m: None }
}

/// How one `key: value` member updates the gathered fields. A consumed key
/// takes one occurrence of the right shape: a second occurrence, a wrong
/// shape, or a `T` too large for a `u64` rejects the frame. Any other key is
/// skipped regardless of its value.
pub open spec fn spec_update(st: PartialAgg, key: Seq<u8>, v: JsonVal) -> Option<PartialAgg> {
    if key.len() == 1 && key[0] == 112 {
        match v {
            JsonVal::VStr(c) => if st.p is Some {
                None
            } else {
                Some(PartialAgg { p: Some(c), q: st.q, t: st.t, m: st.m })
            },
            _ => None,
        }
    } else if key.len() == 1 && key[0] == 113 {
        match v {
            JsonVal::VStr(c) => if st.q is Some {
                None
            } else {
                Some(PartialAgg { p: st.p, q: Some(c), t: st.t, m: st.m })
            },
            _ => None,
        }
    } else if key.len() == 1 && key[0] == 84 {
        match v {
            JsonVal::VNum(d) => if st.t is Some {
                None
            } else if digits_val(d) > u64::MAX {
                None
            } else {
                Some(PartialAgg { p: st.p, q: st.q, t: Some(digits_val(d)), m: st.m })
            },
            _ => None,
        }
    } else if key.len() == 1 && key[0] == 109 {
        match v {
            JsonVal::VBool(b) => if st.m is Some {
                None
            } else {
                Some(PartialAgg { p: st.p, q: st.q, t: st.t, m: Some(b) })
            },
            _ => None,
        }
    } else {
        Some(st)
    }
}

/// A member list from `i` up to and including the closing brace: repeatedly
/// a string key, a colon and a scalar value, separated by commas. Yields the
/// gathered fields and the index just past the brace. A member consumes at
/// least one byte, so an index that fails to advance can only mean a
/// malformed list.
pub open spec fn spec_members(s: Seq<u8>, i: int, st: PartialAgg) -> Option<(PartialAgg, int)>
    decreases s.len() - i,
{
    match spec_parse_string(s, i) {
        None => None,
        Some(key_next) => {
            let j1 = spec_skip_ws(s, key_next.1);
            if j1 >= s.len() || s[j1] != 58 {
                None
            } else {
                match spec_parse_value(s, spec_skip_ws(s, j1 + 1)) {
                    None => None,
                    Some(vn) => match spec_update(st, key_next.0, vn.0) {
                        None => None,
                        Some(st2) => {
                            let j3 = spec_skip_ws(s, vn.1);
                            if j3 >= s.len() {
                                None
                            } else if s[j3] == 125 {
                                Some((st2, j3 + 1))
                            } else if s[j3] == 44 {
                                let j4 = spec_skip_ws(s, j3 + 1);
                                if i < j4 <= s.len() {
                                    spec_members(s, j4, st2)
                                } else {
                                    None
                                }
                            } else {
                                None
                            }
                        },
                    },
                }
            }
        },
    }
}

/// What a data frame's payload denotes: `Some` exactly when the payload is
/// one object of the accepted JSON subset whose members include `p` and `q`
/// as strings, `T` as an integer fitting a `u64`, and `m` as a boolean, each
/// exactly once, with nothing but whitespace around the object.
pub open spec fn spec_parse_agg(s: Seq<u8>) -> Option<AggRec> {
    let i0 = spec_skip_ws(s, 0);
    if i0 >= s.len() || s[i0] != 123 {
        None
    } else {
        let i1 = spec_skip_ws(s, i0 + 1);
        let scanned = if i1 < s.len() && s[i1] == 125 {
            Some((empty_partial(), i1 + 1))
        } else {
            spec_members(s, i1, empty_partial())
        };
        match scanned {
            None => None,
            Some(st_end) => {
                if spec_skip_ws(s, st_end.1) != s.len() {
                    None
                } else {
                    match st_end.0 {
                        PartialAgg { p: Some(p), q: Some(q), t: Some(t), m: Some(m) } => Some(
                            AggRec { p, q, t, m },
                        ),
                        _ => None,
                    }
                }
            },
        }
    }
}

// ------------------------- the executable parser -------------------------

/// The gathered fields as token ranges into the input.
#[derive(Copy, Clone)]
struct PartialTok {
    p: Option<(usize, usize)>,
    q: Option<(usize, usize)>,
    t: Option<u64>,
    m: Option<bool>,
}

spec fn partial_wf(s: Seq<u8>, st: PartialTok) -> bool {
    &&& match st.p {
        Some(r) => r.0 <= r.1 <= s.len(),
        None => true,
    }
    &&& match st.q {
        Some(r) => r.0 <= r.1 <= s.len(),
        None => true,
    }
}

spec fn partial_view(s: Seq<u8>, st: PartialTok) -> PartialAgg {
    PartialAgg {
        p: match st.p {
            Some(r) => Some(s.subrange(r.0 as int, r.1 as int)),
            None => None,
        },
        q: match st.q {
            Some(r) => Some(s.subrange(r.0 as int, r.1 as int)),
            None => None,
        },
        t: match st.t {
            Some(v) => Some(v as nat),
            None => None,
        },
        m: st.m,
    }
}

fn update_fields(s: &[u8], st: PartialTok, ka: usize, kb: usize, tok: JsonTok) -> (r: Option<
    PartialTok,
>)
    requires
        ka <= kb <= s@.len(),
        partial_wf(s@, st),
        tok_ranges_ok(s@, tok),
    ensures
        match r {
            Some(st2) => {
                &&& spec_update(partial_view(s@, st), s@.subrange(ka as int, kb as int), tok_val(s@, tok))
                    == Some(partial_view(s@, st2))
                &&& partial_wf(s@, st2)
            },
            None => spec_update(partial_view(s@, st), s@.subrange(ka as int, kb as int), tok_val(s@, tok))
                is None,
        },
{
    let ghost key = s@.subrange(ka as int, kb as int);
    if kb - ka == 1 {
        let kc = s[ka];
        proof {
            assert(key.len() == 1);
            assert(key[0] == s@[ka as int]);
        }
        if kc == 112 {
            match tok {
                JsonTok::TStr(a, b) => {
                    if st.p.is_some() {
                        None
                    } else {
                        Some(PartialTok { p: Some((a, b)), q: st.q, t: st.t, m: st.m })
                    }
                },
                _ => None,
            }
        } else if kc == 113 {
            match tok {
                JsonTok::TStr(a, b) => {
                    if st.q.is_some() {
                        None
                    } else {
                        Some(PartialTok { p: st.p, q: Some((a, b)), t: st.t, m: st.m })
                    }
                },
                _ => None,
            }
        } else if kc == 84 {
            match tok {
                JsonTok::TNum(a, b) => {
                    if st.t.is_some() {
                        None
                    } else {
                        match digits_to_u64(s, a, b) {
                            Some(v) => Some(PartialTok { p: st.p, q: st.q, t: Some(v), m: st.m }),
                            None => None,
                        }
                    }
                },
                _ => None,
            }
        } else if kc == 109 {
            match tok {
                JsonTok::TBool(b) => {
                    if st.m.is_some() {
                        None
                    } else {
                        Some(PartialTok { p: st.p, q: st.q, t: st.t, m: Some(b) })
                    }
                },
                _ => None,
            }
        } else {
            Some(st)
        }
    } else {
        Some(st)
    }
}

fn parse_members(s: &[u8], i: usize, st: PartialTok) -> (r: Option<(PartialTok, usize)>)
    requires
        i <= s@.len(),
        partial_wf(s@, st),
    ensures
        match r {
            Some(res) => {
                &&& spec_members(s@, i as int, partial_view(s@, st)) == Some(
                    (partial_view(s@, res.0), res.1 as int),
                )
                &&& partial_wf(s@, res.0)
                &&& res.1 <= s@.len()
            },
            None => spec_members(s@, i as int, partial_view(s@, st)) is None,
        },
    decreases s@.len() - i,
{
    let n = s.len();
    let key = match parse_string(s, i) {
        Some(k) => k,
        None => {
            return None;
        },
    };
    let j1 = skip_ws(s, key.1 + 1);
    if j1 >= n {
        return None;
    }
    if s[j1] != 58 {
        return None;
    }
    let j2 = skip_ws(s, j1 + 1);
    let (tok, j2v) = match parse_value(s, j2) {
        Some(tv) => tv,
        None => {
            return None;
        },
    };
    let st2 = match update_fields(s, st, key.0, key.1, tok) {
        Some(x) => x,
        None => {
            return None;
        },
    };
    let j3 = skip_ws(s, j2v);
    if j3 >= s.len() {
        return None;
    }
    let c3 = s[j3];
    if c3 == 125 {
        return Some((st2, j3 + 1));
    }
    if c3 == 44 {
        let j4 = skip_ws(s, j3 + 1);
        return parse_members(s, j4, st2);
    }
    None
}

fn copy_range(s: &[u8], a: usize, b: usize) -> (r: Vec<u8>)
    requires
        a <= b <= s@.len(),
    ensures
        r@ == s@.subrange(a as int, b as int),
{
    let mut v: Vec<u8> = Vec::new();
    let mut k: usize = a;
    while k < b
        invariant
            a <= k <= b <= s@.len(),
            v@ == s@.subrange(a as int, k as int),
        decreases b - k,
    {
        v.push(s[k]);
        k = k + 1;
        proof {
            assert(v@ =~= s@.subrange(a as int, k as int));
        }
    }
    v
}

/// Parses one data-frame payload against the wire schema. The result is
/// exactly what `spec_parse_agg` denotes; `None` stands for a malformed
/// frame, which the connector treats as a recoverable, per-frame error.
pub fn parse_agg_trade(s: &[u8]) -> (r: Option<BinanceAggTradeRecord>)
    ensures
        match r {
            Some(rec) => spec_parse_agg(s@) == Some(
                AggRec { p: rec.p@, q: rec.q@, t: rec.t as nat, m: rec.m },
            ),
            None => spec_parse_agg(s@) is None,
        },
{
    let i0 = skip_ws(s, 0);
    if i0 >= s.len() {
        return None;
    }
    if s[i0] != 123 {
        return None;
    }
    let empty = PartialTok { p: None, q: None, t: None, m: None };
    proof {
        assert(partial_view(s@, empty) == empty_partial());
    }
    let i1 = skip_ws(s, i0 + 1);
    let scanned: Option<(PartialTok, usize)> = if i1 < s.len() && s[i1] == 125 {
        Some((empty, i1 + 1))
    } else {
        parse_members(s, i1, empty)
    };
    let (st, end) = match scanned {
        Some(x) => x,
        None => {
            return None;
        },
    };
    let e2 = skip_ws(s, end);
    if e2 != s.len() {
        return None;
    }
    let (pa, pb) = match st.p {
        Some(x) => x,
        None => {
            return None;
        },
    };
    let (qa, qb) = match st.q {
        Some(x) => x,
        None => {
            return None;
        },
    };
    let t = match st.t {
        Some(x) => x,
        None => {
            return None;
        },
    };
    let m = match st.m {
        Some(x) => x,
        None => {
            return None;
        },
    };
    let p = copy_range(s, pa, pb);
    let q = copy_range(s, qa, qb);
    Some(BinanceAggTradeRecord { p, q, t, m })
}

// ------------------------- record conversion -------------------------

/// Why a parsed frame could not be converted into a trade record.
#[derive(Copy, Clone, Debug, PartialEq, Eq, Structural)]
pub enum TradeConvError {
    /// The `q` field is not a decimal quantity the representation can hold.
    Quantity(DecimalError),
    /// The `p` field is not a decimal price the representation can hold.
    Price(DecimalError),
    /// The price denotes zero; a trade's price is strictly positive.
    NonPositivePrice,
    /// The `T` field does not fit the timestamp's millisecond range.
    TimestampOutOfRange,
}

/// What converting a parsed frame yields, given the connector's fixed pair:
/// the quantity is read first, then the price, then the price's positivity
/// and the timestamp range are checked; `m` set means the buyer was the
/// maker, so the taker was the seller.
pub open spec fn spec_try_trade(
    base: Symbol,
    quote: Symbol,
    ps: Seq<u8>,
    qs: Seq<u8>,
    t: nat,
    m: bool,
) -> Result<SpotTrade, TradeConvError> {
    match spec_decimal_result(qs) {
        Err(e) => Err(TradeConvError::Quantity(e)),
        Ok(qty) => match spec_decimal_result(ps) {
            Err(e) => Err(TradeConvError::Price(e)),
            Ok(price) => if price.mantissa == 0 {
                Err(TradeConvError::NonPositivePrice)
            } else if t > i64::MAX {
                Err(TradeConvError::TimestampOutOfRange)
            } else {
                Ok(
                    SpotTrade {
                        venue: Venue::BinanceSpot,
                        taker: if m {
                            Taker::Seller
                        } else {
                            Taker::Buyer
                        },
                        base_sym: base,
                        quote_sym: quote,
                        base_qty: qty,
                        price: price,
                        ts: Timestamp { millis: t as i64 },
                    },
                )
            },
        },
    }
}

impl SpotTrade {
    /// Builds the normalized record for one parsed frame, using the
    /// connector's fixed trading pair and venue tag.
    pub fn try_from(feed: &BinanceFeedActor, rec: &BinanceAggTradeRecord) -> (r: Result<
        SpotTrade,
        TradeConvError,
    >)
        ensures
            r == spec_try_trade(
                feed.spec_base(),
                feed.spec_quote(),
                rec.p@,
                rec.q@,
                rec.t as nat,
                rec.m,
            ),
            r is Ok ==> r->Ok_0.wf(),
    {
        let base_qty = match parse_decimal(rec.q.as_slice()) {
            Ok(d) => d,
            Err(e) => {
                return Err(TradeConvError::Quantity(e));
            },
        };
        let price = match parse_decimal(rec.p.as_slice()) {
            Ok(d) => d,
            Err(e) => {
                return Err(TradeConvError::Price(e));
            },
        };
        if price.mantissa == 0 {
            return Err(TradeConvError::NonPositivePrice);
        }
        if rec.t > i64::MAX as u64 {
            return Err(TradeConvError::TimestampOutOfRange);
        }
        Ok(
            SpotTrade {
                venue: Venue::BinanceSpot,
                taker: if rec.m {
                    Taker::Seller
                } else {
                    Taker::Buyer
                },
                base_sym: feed.base_sym,
                quote_sym: feed.quote_sym,
                base_qty,
                price,
                ts: Timestamp { millis: rec.t as i64 },
            },
        )
    }
}

/// The record a data frame yields, when its payload both parses and
/// converts; `None` stands for the recoverable, per-frame error path.
pub open spec fn spec_frame_trade(base: Symbol, quote: Symbol, payload: Seq<u8>) -> Option<
    SpotTrade,
> {
    match spec_parse_agg(payload) {
        None => None,
        Some(a) => match spec_try_trade(base, quote, a.p, a.q, a.t, a.m) {
            Ok(tr) => Some(tr),
            Err(_) => None,
        },
    }
}

/// Law: the round trip from a well-formed data frame to the normalized
/// record. Whenever a payload parses and converts, the record's taker side
/// is Seller exactly when the frame's `m` flag is set, its timestamp is the
/// frame's `T` in epoch milliseconds unchanged, its venue and pair are the
/// connector's, and its quantity and price are exactly the decimals the
/// frame's `q` and `p` strings denote.
pub proof fn lemma_frame_round_trip(base: Symbol, quote: Symbol, payload: Seq<u8>)
    requires
        spec_frame_trade(base, quote, payload) is Some,
    ensures
        ({
            let a = spec_parse_agg(payload)->Some_0;
            let tr = spec_frame_trade(base, quote, payload)->Some_0;
            &&& tr.taker == (if a.m {
                Taker::Seller
            } else {
                Taker::Buyer
            })
            &&& tr.ts.millis == a.t
            &&& tr.venue == Venue::BinanceSpot
            &&& tr.base_sym == base
            &&& tr.quote_sym == quote
            &&& Ok::<Decimal, DecimalError>(tr.base_qty) == spec_decimal_result(a.q)
            &&& Ok::<Decimal, DecimalError>(tr.price) == spec_decimal_result(a.p)
            &&& tr.wf()
        }),
{
}

// ------------------------- the connector -------------------------

/// The connector's lifecycle state.
#[derive(Copy, Clone, Debug, PartialEq, Eq, Structural)]
pub enum FeedState {
    /// The connection request is outstanding.
    Connecting,
    /// Frames are being consumed; the outbound sink is held.
    Streaming,
    /// The connection attempt failed; terminal, no automatic retry.
    Failed,
    /// The connection was closed, by the peer or by an external stop.
    Closed,
}

/// An outbound protocol message for the connection's write half.
#[derive(Debug, PartialEq)]
pub enum WsMessage {
    Pong(Vec<u8>),
    Close,
}

/// One inbound item: a data frame, a keepalive request, a close frame, or
/// any other frame kind, which is discarded.
#[derive(Debug)]
pub enum Frame {
    Text(Vec<u8>),
    Ping(Vec<u8>),
    Close,
    Other,
}

/// A protocol-level error reported by the stream in place of a frame.
#[derive(Copy, Clone, Debug)]
pub struct StreamError;

/// What handling one inbound item did.
#[derive(Copy, Clone, Debug, PartialEq, Eq, Structural)]
pub enum FrameOutcome {
    /// A data frame was parsed, converted and delivered to the broker.
    Published(SpotTrade),
    /// A data frame was parsed and converted, but the broker was
    /// unreachable; the record is dropped.
    PublishFailed(SpotTrade),
    /// A data frame was malformed or unconvertible: logged and skipped,
    /// the stream continues.
    Skipped,
    /// A keepalive request was answered with one matching response.
    PongSent,
    /// A keepalive request arrived but the response could not be sent; the
    /// stream continues.
    PongSendFailed,
    /// A close frame arrived: the sink was released and the connector
    /// stopped consuming.
    ClosedByPeer,
    /// Another frame kind or a stream error: discarded.
    Ignored,
    /// The connector is not streaming; the item was not processed.
    NotStreaming,
}

/// The deterministic channel URL for a trading pair: the venue's documented
/// convention, with both symbols lower-cased.
pub open spec fn spec_feed_url(base: Symbol, quote: Symbol) -> Seq<char> {
    "wss://stream.binance.com:443/ws/"@ + base.spec_lower_str() + quote.spec_lower_str()
        + "@aggTrade"@
}

/// Owns one streaming connection to one venue for one trading pair and
/// turns every inbound trade frame into a publish call on the broker
/// handle.
pub struct BinanceFeedActor {
    broker_addr: Sender<MarketDataMsg>,
    base_sym: Symbol,
    quote_sym: Symbol,
    ws: Option<Sender<WsMessage>>,
    state: FeedState,
}

impl BinanceFeedActor {
    pub closed spec fn spec_base(&self) -> Symbol {
        self.base_sym
    }

    pub closed spec fn spec_quote(&self) -> Symbol {
        self.quote_sym
    }

    pub closed spec fn spec_state(&self) -> FeedState {
        self.state
    }

    pub closed spec fn has_sink(&self) -> bool {
        self.ws is Some
    }

    /// At most one outbound-sink handle exists at a time, held exactly
    /// while streaming.
    pub open spec fn wf(&self) -> bool {
        self.has_sink() <==> self.spec_state() == FeedState::Streaming
    }

    pub fn new(broker_addr: Sender<MarketDataMsg>, base_sym: BaseSymbol, quote_sym: QuoteSymbol) -> (r:
        Self)
        ensures
            r.spec_base() == base_sym.0,
            r.spec_quote() == quote_sym.0,
            r.spec_state() == FeedState::Connecting,
            r.wf(),
    {
        BinanceFeedActor {
            broker_addr,
            base_sym: base_sym.0,
            quote_sym: quote_sym.0,
            ws: None,
            state: FeedState::Connecting,
        }
    }

    /// The connector's observable lifecycle state.
    pub fn state(&self) -> (r: FeedState)
        ensures
            r == self.spec_state(),
    {
        self.state
    }

    /// The URL the connector requests on start.
    pub fn feed_url(&self) -> (r: String)
        ensures
            r@ == spec_feed_url(self.spec_base(), self.spec_quote()),
    {
        let mut url = String::from_str("wss://stream.binance.com:443/ws/");
        url.append(self.base_sym.as_lower_str());
        url.append(self.quote_sym.as_lower_str());
        url.append("@aggTrade");
        proof {
            assert(url@ =~= spec_feed_url(self.spec_base(), self.spec_quote()));
        }
        url
    }

    /// The connection request succeeded: adopt the outbound sink and begin
    /// streaming.
    pub fn on_connected(&mut self, sink: Sender<WsMessage>)
        requires
            old(self).wf(),
            old(self).spec_state() == FeedState::Connecting,
        ensures
            final(self).spec_state() == FeedState::Streaming,
            final(self).wf(),
            final(self).spec_base() == old(self).spec_base(),
            final(self).spec_quote() == old(self).spec_quote(),
    {
        self.ws = Some(sink);
        self.state = FeedState::Streaming;
    }

    /// The connection request failed: terminal for this instance, no
    /// automatic retry.
    pub fn on_connect_failed(&mut self)
        requires
            old(self).wf(),
            old(self).spec_state() == FeedState::Connecting,
        ensures
            final(self).spec_state() == FeedState::Failed,
            final(self).wf(),
            final(self).spec_base() == old(self).spec_base(),
            final(self).spec_quote() == old(self).spec_quote(),
    {
        self.state = FeedState::Failed;
    }

    fn try_publish(&self, msg: SpotTrade) -> (r: bool) {
        channel_send(&self.broker_addr, MarketDataMsg::SpotTrade(msg))
    }

    /// An external stop request: if the outbound sink is still held, send a
    /// close frame on it and release it. The sink is taken, so a second
    /// stop attempt is a no-op rather than a double close.
    pub fn stopping(&mut self)
        ensures
            final(self).spec_state() == FeedState::Closed,
            !final(self).has_sink(),
            final(self).wf(),
            final(self).spec_base() == old(self).spec_base(),
            final(self).spec_quote() == old(self).spec_quote(),
            old(self).spec_state() == FeedState::Closed && !old(self).has_sink() ==> *final(self)
                == *old(self),
    {
        let ws = self.ws.take();
        match ws {
            Some(tx) => {
                let _sent = channel_send(&tx, WsMessage::Close);
            },
            None => {},
        }
        self.state = FeedState::Closed;
    }

    /// Handles one inbound stream item. While streaming: a data frame is
    /// parsed and converted, and the resulting record — exactly the one the
    /// payload denotes — is delivered to the broker, a malformed frame
    /// being skipped as a recoverable error; a keepalive request is
    /// answered with one matching response on the sink and publishes
    /// nothing; a close frame releases the sink and stops consumption; any
    /// other frame kind, and any stream error, is discarded. Once the
    /// connector has left the streaming state nothing is processed any
    /// more.
    pub fn handle(&mut self, item: Result<Frame, StreamError>) -> (r: FrameOutcome)
        requires
            old(self).wf(),
        ensures
            final(self).wf(),
            final(self).spec_base() == old(self).spec_base(),
            final(self).spec_quote() == old(self).spec_quote(),
            old(self).spec_state() != FeedState::Streaming ==> *final(self) == *old(self) && r
                == FrameOutcome::NotStreaming,
            old(self).spec_state() == FeedState::Streaming ==> match item {
                Ok(Frame::Text(b)) => *final(self) == *old(self) && (match spec_frame_trade(
                    old(self).spec_base(),
                    old(self).spec_quote(),
                    b@,
                ) {
                    Some(tr) => r == FrameOutcome::Published(tr) || r == FrameOutcome::PublishFailed(
                        tr,
                    ),
                    None => r == FrameOutcome::Skipped,
                }),
                Ok(Frame::Ping(_)) => *final(self) == *old(self) && (r == FrameOutcome::PongSent
                    || r == FrameOutcome::PongSendFailed),
                Ok(Frame::Close) => final(self).spec_state() == FeedState::Closed
                    && !final(self).has_sink() && r == FrameOutcome::ClosedByPeer,
                Ok(Frame::Other) => *final(self) == *old(self) && r == FrameOutcome::Ignored,
                Err(_) => *final(self) == *old(self) && r == FrameOutcome::Ignored,
            },
    {
        if self.state != FeedState::Streaming {
            return FrameOutcome::NotStreaming;
        }
        match item {
            Ok(frame) => match frame {
                Frame::Text(bytes) => {
                    match parse_agg_trade(bytes.as_slice()) {
                        None => FrameOutcome::Skipped,
                        Some(rec) => match SpotTrade::try_from(&*self, &rec) {
                            Err(_) => FrameOutcome::Skipped,
                            Ok(tr) => {
                                if self.try_publish(tr) {
                                    FrameOutcome::Published(tr)
                                } else {
                                    FrameOutcome::PublishFailed(tr)
                                }
                            },
                        },
                    }
                },
                Frame::Ping(bytes) => {
                    match &self.ws {
                        Some(tx) => {
                            if channel_send(tx, WsMessage::Pong(bytes)) {
                                FrameOutcome::PongSent
                            } else {
                                FrameOutcome::PongSendFailed
                            }
                        },
                        None => {
                            proof {
                                assert(false);
                            }
                            FrameOutcome::PongSendFailed
                        },
                    }
                },
                Frame::Close => {
                    let ws = self.ws.take();
                    match ws {
                        Some(tx) => {
                            let _sent = channel_send(&tx, WsMessage::Close);
                        },
                        None => {},
                    }
                    self.state = FeedState::Closed;
                    FrameOutcome::ClosedByPeer
                },
                Frame::Other => FrameOutcome::Ignored,
            },
            Err(_) => FrameOutcome::Ignored,
        }
    }
}

} // verus!
