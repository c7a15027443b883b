//! The external feed adapter's own logic: checking a historical request,
//! resolving instrument ids to symbols, collecting decoded records up to the
//! limit, and the message decisions of a live session. The vendor client
//! itself is driven from outside the library, which hands each outcome in.

use vstd::prelude::*;
use crate::clock::{Instant, instant_of, parse_detail, parse_rfc3339_time, time_rfc3339};
use crate::error::ServiceError;
use crate::model::{
    HistoricalRequest, HistoricalResponse, LiveMessage, OhlcvRecord, Schema, TradeRecord,
    parse_schema, response_len, response_schema,
};
use crate::text::{copy_texts, decimal, push_decimal, same_texts};
use crate::synthetic::opens_session;

verus! {

/// The text of the error for a schema the feed does not know.
pub open spec fn unknown_schema_text(t: Seq<char>) -> Seq<char> {
    "Unknown schema: "@ + t + ". Expected: trades, ohlcv-1s, or ohlcv-1m"@
}

/// The text of the error for a timestamp the time crate's RFC 3339 parser
/// rejects: the timestamp quoted, then the parser's message.
pub open spec fn timestamp_error_text(t: Seq<char>) -> Seq<char> {
    "Invalid RFC3339 timestamp '"@ + t + "': "@ + parse_detail(time_rfc3339(t))
}

/// The symbol written for an instrument id: the name the symbol map holds
/// for it, else `ID:` and the id in decimal.
pub open spec fn symbol_for(found: Option<String>, instrument_id: u32) -> Seq<char> {
    match found {
        Some(s) => s@,
        None => "ID:"@ + decimal(instrument_id as nat),
    }
}

/// The symbol for an instrument id, given what the symbol map holds for it.
/// An unknown id never fails: it gets a placeholder.
pub fn resolve_symbol(found: Option<String>, instrument_id: u32) -> (r: String)
    ensures
        r@ == symbol_for(found, instrument_id),
{
    match found {
        Some(s) => s,
        None => {
            let mut r = String::from_str("ID:");
            push_decimal(&mut r, instrument_id as u64);
            r
        },
    }
}

/// A checked historical request, ready to be sent to the vendor.
#[derive(Debug, Clone)]
pub struct HistoricalQuery {
    pub schema: Schema,
    pub symbols: Vec<String>,
    /// How the vendor is to read the symbols (its instrument-id kind).
    pub stype_in: String,
    pub start: Instant,
    pub end: Instant,
    pub limit: u32,
}

/// Adapter to the external market-data vendor, holding its API key.
pub struct DatabentoService {
    api_key: String,
}

impl DatabentoService {
    /// The API key this adapter authenticates with.
    pub closed spec fn key(&self) -> Seq<char> {
        self.api_key@
    }

    /// An adapter for a non-empty API key.
    pub fn new(api_key: String) -> (r: DatabentoService)
        requires
            api_key@.len() > 0,
        ensures
            r.key() == api_key@,
    {
        DatabentoService { api_key }
    }

    /// The API key.
    pub fn api_key(&self) -> (r: &str)
        ensures
            r@ == self.key(),
    {
        self.api_key.as_str()
    }

    /// Name of this provider.
    pub fn name(&self) -> (r: &'static str)
        ensures
            r@ == "DatabentoService"@,
    {
        "DatabentoService"
    }

    /// The schema named by `t`, or `InvalidSchema`.
    pub fn map_schema(t: &str) -> (r: Result<Schema, ServiceError>)
        ensures
            parse_schema(t@) matches Some(s) ==> r == Ok::<Schema, ServiceError>(s),
            parse_schema(t@) is None ==> (r matches Err(ServiceError::InvalidSchema(m))
                && m@ == unknown_schema_text(t@)),
    {
        match Schema::parse(t) {
            Ok(s) => Ok(s),
            Err(_) => {
                let mut m = String::from_str("Unknown schema: ");
                m.append(t);
                m.append(". Expected: trades, ohlcv-1s, or ohlcv-1m");
                Err(ServiceError::InvalidSchema(m))
            },
        }
    }

    /// The instant written in `t` (RFC 3339), or `InvalidTimeFormat`.
    pub fn parse_timestamp(t: &str) -> (r: Result<Instant, ServiceError>)
        ensures
            time_rfc3339(t@) is Ok ==> r == Ok::<Instant, ServiceError>(instant_of(time_rfc3339(t@))->0),
            time_rfc3339(t@) is Err ==> (r matches Err(ServiceError::InvalidTimeFormat(m))
                && m@ == timestamp_error_text(t@)),
            r matches Ok(i) ==> i.subsec_nanos < 1_000_000_000,
    {
        match parse_rfc3339_time(t) {
            Ok(i) => Ok(i),
            Err(e) => {
                let mut m = String::from_str("Invalid RFC3339 timestamp '");
                m.append(t);
                m.append("': ");
                m.append(e.as_str());
                Err(ServiceError::InvalidTimeFormat(m))
            },
        }
    }

    /// Checks a historical request: the schema first, then the start and the
    /// end instant. The query keeps the symbols, their kind and the limit.
    pub fn prepare_historical(&self, req: &HistoricalRequest) -> (r: Result<HistoricalQuery, ServiceError>)
        ensures
            parse_schema(req.schema@) is None ==> (r matches Err(ServiceError::InvalidSchema(m))
                && m@ == unknown_schema_text(req.schema@)),
            parse_schema(req.schema@) is Some && time_rfc3339(req.start_rfc3339@) is Err ==> (r matches Err(
                ServiceError::InvalidTimeFormat(m),
            ) && m@ == timestamp_error_text(req.start_rfc3339@)),
            parse_schema(req.schema@) is Some && time_rfc3339(req.start_rfc3339@) is Ok
                && time_rfc3339(req.end_rfc3339@) is Err ==> (r matches Err(
                ServiceError::InvalidTimeFormat(m),
            ) && m@ == timestamp_error_text(req.end_rfc3339@)),
            r is Ok <==> parse_schema(req.schema@) is Some && time_rfc3339(req.start_rfc3339@) is Ok
                && time_rfc3339(req.end_rfc3339@) is Ok,
            r matches Ok(q) ==> q.schema == parse_schema(req.schema@)->0
                && same_texts(q.symbols@, req.symbols@)
                && Some(q.start) == instant_of(time_rfc3339(req.start_rfc3339@))
                && Some(q.end) == instant_of(time_rfc3339(req.end_rfc3339@))
                && q.stype_in@ == req.stype_in@
                && q.limit == req.limit,
    {
        let schema = DatabentoService::map_schema(req.schema.as_str())?;
        let start = DatabentoService::parse_timestamp(req.start_rfc3339.as_str())?;
        let end = DatabentoService::parse_timestamp(req.end_rfc3339.as_str())?;
        Ok(HistoricalQuery {
            schema,
            symbols: copy_texts(&req.symbols),
            stype_in: req.stype_in.clone(),
            start,
            end,
            limit: req.limit,
        })
    }

    /// Opens a live session: an unknown schema fails at once; otherwise the
    /// session is fresh and will open with `Connected`.
    pub fn subscribe_live(&self, symbols: Vec<String>, schema: String) -> (r: Result<FeedSession, ServiceError>)
        ensures
            parse_schema(schema@) is None ==> (r matches Err(ServiceError::InvalidSchema(m))
                && m@ == unknown_schema_text(schema@)),
            parse_schema(schema@) matches Some(s) ==> (r matches Ok(f) && f.schema == s
                && f.symbols@ == symbols@ && f.schema_text@ == schema@ && !f.opened && !f.ended),
    {
        let s = DatabentoService::map_schema(schema.as_str())?;
        Ok(FeedSession { symbols, schema_text: schema, schema: s, opened: false, ended: false })
    }
}

/// An error mapped from a vendor failure: `ApiError` with the context and
/// the vendor's detail.
pub fn api_failure(context: &str, detail: &str) -> (r: ServiceError)
    ensures
        r matches ServiceError::ApiError(m) && m@ == context@ + ": "@ + detail@,
{
    let mut m = String::from_str(context);
    m.append(": ");
    m.append(detail);
    ServiceError::ApiError(m)
}

/// Decoded records of a historical query, collected up to its limit.
pub struct HistoricalBatch {
    schema: Schema,
    limit: u32,
    trades: Vec<TradeRecord>,
    bars: Vec<OhlcvRecord>,
}

impl HistoricalBatch {
    pub closed spec fn schema(&self) -> Schema {
        self.schema
    }

    pub closed spec fn limit(&self) -> u32 {
        self.limit
    }

    /// The trades collected so far.
    pub closed spec fn trades(&self) -> Seq<TradeRecord> {
        self.trades@
    }

    /// The bars collected so far.
    pub closed spec fn bars(&self) -> Seq<OhlcvRecord> {
        self.bars@
    }

    /// How many records are collected.
    pub open spec fn count(&self) -> nat {
        if self.schema() == Schema::Trades {
            self.trades().len()
        } else {
            self.bars().len()
        }
    }

    pub closed spec fn wf(&self) -> bool {
        &&& self.schema == Schema::Trades ==> self.bars@.len() == 0
        &&& self.schema != Schema::Trades ==> self.trades@.len() == 0
        &&& self.count() <= self.limit
    }

    /// An empty batch for a query.
    pub fn new(schema: Schema, limit: u32) -> (r: HistoricalBatch)
        ensures
            r.wf(),
            r.schema() == schema,
            r.limit() == limit,
            r.trades().len() == 0,
            r.bars().len() == 0,
    {
        HistoricalBatch { schema, limit, trades: Vec::new(), bars: Vec::new() }
    }

    /// Whether another record is wanted: fewer than `limit` are collected.
    pub fn wants_more(&self) -> (r: bool)
        requires
            self.wf(),
        ensures
            r == (self.count() < self.limit()),
    {
        if self.schema == Schema::Trades {
            self.trades.len() < self.limit as usize
        } else {
            self.bars.len() < self.limit as usize
        }
    }

    /// Adds a decoded trade, its symbol resolved from what the symbol map
    /// holds for its instrument id. Nothing is added once the limit is
    /// reached, nor to a batch of bars.
    pub fn push_trade(
        &mut self,
        ts_event: u64,
        instrument_id: u32,
        found: Option<String>,
        price: i64,
        size: u32,
    )
        requires
            old(self).wf(),
        ensures
            final(self).wf(),
            final(self).schema() == old(self).schema(),
            final(self).limit() == old(self).limit(),
            final(self).bars() == old(self).bars(),
            old(self).schema() == Schema::Trades && old(self).count() < old(self).limit() ==> ({
                let t = final(self).trades().last();
                &&& final(self).trades().len() == old(self).trades().len() + 1
                &&& final(self).trades().drop_last() == old(self).trades()
                &&& t.ts_event_unix_ns == ts_event
                &&& t.symbol@ == symbol_for(found, instrument_id)
                &&& t.price_i64 == price
                &&& t.size_u32 == size
            }),
            !(old(self).schema() == Schema::Trades && old(self).count() < old(self).limit())
                ==> final(self).trades() == old(self).trades(),
    {
        if self.schema == Schema::Trades && self.trades.len() < self.limit as usize {
            let symbol = resolve_symbol(found, instrument_id);
            self.trades.push(TradeRecord { ts_event_unix_ns: ts_event, symbol, price_i64: price, size_u32: size });
            assert(self.trades@.drop_last() =~= old(self).trades@);
        }
    }

    /// Adds a decoded bar, its symbol resolved as for trades. Nothing is
    /// added once the limit is reached, nor to a batch of trades.
    pub fn push_bar(
        &mut self,
        ts_event: u64,
        instrument_id: u32,
        found: Option<String>,
        open: i64,
        high: i64,
        low: i64,
        close: i64,
        volume: u64,
    )
        requires
            old(self).wf(),
        ensures
            final(self).wf(),
            final(self).schema() == old(self).schema(),
            final(self).limit() == old(self).limit(),
            final(self).trades() == old(self).trades(),
            old(self).schema() != Schema::Trades && old(self).count() < old(self).limit() ==> ({
                let b = final(self).bars().last();
                &&& final(self).bars().len() == old(self).bars().len() + 1
                &&& final(self).bars().drop_last() == old(self).bars()
                &&& b.ts_event_unix_ns == ts_event
                &&& b.symbol@ == symbol_for(found, instrument_id)
                &&& b.open_i64 == open
                &&& b.high_i64 == high
                &&& b.low_i64 == low
                &&& b.close_i64 == close
                &&& b.volume_u64 == volume
            }),
            !(old(self).schema() != Schema::Trades && old(self).count() < old(self).limit())
                ==> final(self).bars() == old(self).bars(),
    {
        if self.schema != Schema::Trades && self.bars.len() < self.limit as usize {
            let symbol = resolve_symbol(found, instrument_id);
            self.bars.push(OhlcvRecord {
                ts_event_unix_ns: ts_event,
                symbol,
                open_i64: open,
                high_i64: high,
                low_i64: low,
                close_i64: close,
                volume_u64: volume,
            });
            assert(self.bars@.drop_last() =~= old(self).bars@);
        }
    }

    /// The response: tagged with the query's schema, holding what was
    /// collected, never more than the limit.
    pub fn finish(self) -> (r: HistoricalResponse)
        requires
            self.wf(),
        ensures
            response_schema(r) == self.schema(),
            response_len(r) == self.count(),
            response_len(r) <= self.limit(),
            r matches HistoricalResponse::Trades { data } ==> data@ == self.trades(),
            r matches HistoricalResponse::Ohlcv1S { data } ==> data@ == self.bars(),
            r matches HistoricalResponse::Ohlcv1M { data } ==> data@ == self.bars(),
    {
        match self.schema {
            Schema::Trades => HistoricalResponse::Trades { data: self.trades },
            Schema::Ohlcv1S => HistoricalResponse::Ohlcv1S { data: self.bars },
            Schema::Ohlcv1M => HistoricalResponse::Ohlcv1M { data: self.bars },
        }
    }
}

/// A step of opening a live vendor session.
#[derive(Debug, Clone, Copy, PartialEq, Eq, Structural)]
pub enum SetupStep {
    Authenticate,
    Connect,
    Subscribe,
    Start,
}

/// The text that opens the error message of a failed setup step.
pub open spec fn setup_failure_prefix(step: SetupStep) -> Seq<char> {
    match step {
        SetupStep::Authenticate => "Failed to set API key: "@,
        SetupStep::Connect => "Failed to connect: "@,
        SetupStep::Subscribe => "Subscription failed: "@,
        SetupStep::Start => "Failed to start stream: "@,
    }
}

/// What the vendor's live session produced next.
#[derive(Debug, Clone)]
pub enum FeedEvent {
    /// A setup step failed with the vendor's detail.
    SetupFailed { step: SetupStep, detail: String },
    /// A trade record, with what the symbol map holds for its instrument id.
    Trade { ts_event: u64, instrument_id: u32, found: Option<String>, price: i64, size: u32 },
    /// A record of another kind (it only updates the symbol map).
    Other,
    /// The vendor ended the stream cleanly.
    End,
    /// The stream failed with the vendor's detail.
    Failed { detail: String },
}

/// The message decisions of one live vendor session: `Connected` first,
/// then one `Trade` per trade record, and at most one `Error`, after which
/// nothing more is emitted.
pub struct FeedSession {
    pub symbols: Vec<String>,
    pub schema_text: String,
    pub schema: Schema,
    pub opened: bool,
    pub ended: bool,
}

/// The message a live session emits for an event while it runs.
pub open spec fn feed_message_fits(ev: FeedEvent, r: Option<LiveMessage>) -> bool {
    match ev {
        FeedEvent::SetupFailed { step, detail } => r matches Some(LiveMessage::Error { message })
            && message@ == setup_failure_prefix(step) + detail@,
        FeedEvent::Trade { ts_event, instrument_id, found, price, size } => r matches Some(
            LiveMessage::Trade { ts_event_unix_ns, symbol, price_i64, size_u32 },
        ) && ts_event_unix_ns == ts_event && symbol@ == symbol_for(found, instrument_id)
            && price_i64 == price && size_u32 == size,
        FeedEvent::Other => r is None,
        FeedEvent::End => r is None,
        FeedEvent::Failed { detail } => r matches Some(LiveMessage::Error { message })
            && message@ == "Stream error: "@ + detail@,
    }
}

/// Whether an event ends a live session.
pub open spec fn ends_session(ev: FeedEvent) -> bool {
    ev is SetupFailed || ev is End || ev is Failed
}

impl FeedSession {
    /// The first message: `Connected`, echoing the symbols and the schema.
    pub fn opening(&mut self) -> (r: LiveMessage)
        ensures
            opens_session(r, old(self).symbols@, old(self).schema_text@),
            final(self).opened,
            final(self).ended == old(self).ended,
            final(self).symbols == old(self).symbols,
            final(self).schema_text == old(self).schema_text,
            final(self).schema == old(self).schema,
    {
        self.opened = true;
        LiveMessage::Connected { symbols: copy_texts(&self.symbols), schema: self.schema_text.clone() }
    }

    /// The message for an event, if any. An ended session emits nothing;
    /// a setup failure or a stream failure emits one `Error` and ends it; a
    /// clean end ends it silently.
    pub fn on_event(&mut self, ev: FeedEvent) -> (r: Option<LiveMessage>)
        ensures
            old(self).ended ==> r is None && final(self).ended,
            !old(self).ended ==> feed_message_fits(ev, r) && final(self).ended == ends_session(ev),
            r matches Some(LiveMessage::Error { .. }) ==> final(self).ended,
            final(self).opened == old(self).opened,
            final(self).symbols == old(self).symbols,
            final(self).schema_text == old(self).schema_text,
            final(self).schema == old(self).schema,
    {
        if self.ended {
            return None;
        }
        match ev {
            FeedEvent::SetupFailed { step, detail } => {
                self.ended = true;
                let mut m = String::from_str(match step {
                    SetupStep::Authenticate => "Failed to set API key: ",
                    SetupStep::Connect => "Failed to connect: ",
                    SetupStep::Subscribe => "Subscription failed: ",
                    SetupStep::Start => "Failed to start stream: ",
                });
                m.append(detail.as_str());
                Some(LiveMessage::Error { message: m })
            },
            FeedEvent::Trade { ts_event, instrument_id, found, price, size } => {
                Some(LiveMessage::Trade {
                    ts_event_unix_ns: ts_event,
                    symbol: resolve_symbol(found, instrument_id),
                    price_i64: price,
                    size_u32: size,
                })
            },
            FeedEvent::Other => None,
            FeedEvent::End => {
                self.ended = true;
                None
            },
            FeedEvent::Failed { detail } => {
                self.ended = true;
                let mut m = String::from_str("Stream error: ");
                m.append(detail.as_str());
                Some(LiveMessage::Error { message: m })
            },
        }
    }
}

} // verus!
