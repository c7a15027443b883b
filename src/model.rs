//! The record model shared by every provider: schemas, requests, records,
//! responses and live messages.

use vstd::prelude::*;
use crate::text::same_text;

verus! {

/// The kind of market data requested.
#[derive(Debug, Clone, Copy, PartialEq, Eq, Structural)]
pub enum Schema {
    Trades,
    Ohlcv1S,
    Ohlcv1M,
}

/// The canonical (kebab-case) text of a schema.
pub open spec fn schema_text(s: Schema) -> Seq<char> {
    match s {
        Schema::Trades => "trades"@,
        Schema::Ohlcv1S => "ohlcv-1s"@,
        Schema::Ohlcv1M => "ohlcv-1m"@,
    }
}

/// The schema whose canonical text is `t`, if any.
pub open spec fn parse_schema(t: Seq<char>) -> Option<Schema> {
    if t == "trades"@ {
        Some(Schema::Trades)
    } else if t == "ohlcv-1s"@ {
        Some(Schema::Ohlcv1S)
    } else if t == "ohlcv-1m"@ {
        Some(Schema::Ohlcv1M)
    } else {
        None
    }
}

/// The text of the error returned for an unknown schema `t`.
pub open spec fn invalid_schema_text(t: Seq<char>) -> Seq<char> {
    "Invalid schema: "@ + t + ". Expected: trades, ohlcv-1s, or ohlcv-1m"@
}

/// Parsing the canonical text of a schema gives that schema back, and a
/// schema parsed from a text renders as that same text.
pub proof fn lemma_schema_round_trip(t: Seq<char>, s: Schema)
    ensures
        parse_schema(schema_text(s)) == Some(s),
        parse_schema(t) matches Some(p) ==> schema_text(p) == t,
{
    reveal_strlit("trades");
    reveal_strlit("ohlcv-1s");
    reveal_strlit("ohlcv-1m");
    assert("trades"@.len() != "ohlcv-1s"@.len());
    assert("trades"@.len() != "ohlcv-1m"@.len());
    assert("ohlcv-1s"@[7] != "ohlcv-1m"@[7]);
}

/// Every text other than the three canonical ones fails to parse.
pub proof fn lemma_schema_rejects_others(t: Seq<char>)
    requires
        t != "trades"@,
        t != "ohlcv-1s"@,
        t != "ohlcv-1m"@,
    ensures
        parse_schema(t) is None,
{
}

impl Schema {
    /// The canonical text of this schema.
    pub fn as_str(&self) -> (r: &'static str)
        ensures
            r@ == schema_text(*self),
    {
        match self {
            Schema::Trades => "trades",
            Schema::Ohlcv1S => "ohlcv-1s",
            Schema::Ohlcv1M => "ohlcv-1m",
        }
    }

    /// Parses the canonical text of a schema; any other text is an error
    /// whose message names the text and the accepted values.
    pub fn parse(t: &str) -> (r: Result<Schema, String>)
        ensures
            parse_schema(t@) matches Some(s) ==> r == Ok::<Schema, String>(s),
            parse_schema(t@) is None ==> (r matches Err(e) && e@ == invalid_schema_text(t@)),
    {
        if same_text(t, "trades") {
            Ok(Schema::Trades)
        } else if same_text(t, "ohlcv-1s") {
            Ok(Schema::Ohlcv1S)
        } else if same_text(t, "ohlcv-1m") {
            Ok(Schema::Ohlcv1M)
        } else {
            let mut e = String::from_str("Invalid schema: ");
            e.append(t);
            e.append(". Expected: trades, ohlcv-1s, or ohlcv-1m");
            Err(e)
        }
    }
}

impl core::str::FromStr for Schema {
    type Err = String;

    fn from_str(t: &str) -> (r: Result<Schema, String>)
        ensures
            parse_schema(t@) matches Some(s) ==> r == Ok::<Schema, String>(s),
            parse_schema(t@) is None ==> (r matches Err(e) && e@ == invalid_schema_text(t@)),
    {
        Schema::parse(t)
    }
}

/// Request for historical market data.
#[derive(Debug, Clone)]
pub struct HistoricalRequest {
    /// Symbols to query, e.g. "ES.FUT".
    pub symbols: Vec<String>,
    /// Data schema: "trades", "ohlcv-1s" or "ohlcv-1m".
    pub schema: String,
    /// How the symbols are to be read, e.g. "parent" or "raw_symbol".
    pub stype_in: String,
    /// Start of the range, RFC 3339.
    pub start_rfc3339: String,
    /// End of the range, RFC 3339.
    pub end_rfc3339: String,
    /// Maximum number of records to return.
    pub limit: u32,
}

/// The symbol kind used when a request names none.
pub fn default_stype_in() -> (r: String)
    ensures
        r@ == "parent"@,
{
    String::from_str("parent")
}

/// The record limit used when a request names none.
pub fn default_limit() -> (r: u32)
    ensures
        r == 1000,
{
    1000
}

/// Query parameters of a live subscription.
#[derive(Debug, Clone)]
pub struct LiveParams {
    /// Comma-separated list of symbols.
    pub symbols: String,
    /// Schema text.
    pub schema: String,
    /// Symbol kind, kept for the external feed.
    pub stype_in: String,
}

/// The symbol list used when a live subscription names none.
pub fn default_symbols() -> (r: String)
    ensures
        r@ == "ES.FUT"@,
{
    String::from_str("ES.FUT")
}

/// The schema used when a live subscription names none.
pub fn default_schema() -> (r: String)
    ensures
        r@ == "trades"@,
{
    String::from_str("trades")
}

/// A single trade.
#[derive(Debug, Clone)]
pub struct TradeRecord {
    /// Nanoseconds since the Unix epoch.
    pub ts_event_unix_ns: u64,
    pub symbol: String,
    /// Price, fixed point scaled by 1e9.
    pub price_i64: i64,
    pub size_u32: u32,
}

/// A single OHLCV bar.
#[derive(Debug, Clone)]
pub struct OhlcvRecord {
    /// Bar open time, nanoseconds since the Unix epoch.
    pub ts_event_unix_ns: u64,
    pub symbol: String,
    /// Prices, fixed point scaled by 1e9.
    pub open_i64: i64,
    pub high_i64: i64,
    pub low_i64: i64,
    pub close_i64: i64,
    pub volume_u64: u64,
}

/// The price relation every bar keeps: `low <= open <= high` and
/// `low <= close <= high`.
pub open spec fn bar_is_consistent(b: OhlcvRecord) -> bool {
    &&& b.low_i64 <= b.open_i64 <= b.high_i64
    &&& b.low_i64 <= b.close_i64 <= b.high_i64
}

/// Historical trades tagged with their schema text.
#[derive(Debug, Clone)]
pub struct TradesResponse {
    pub schema: String,
    pub data: Vec<TradeRecord>,
}

/// Historical bars tagged with their schema text.
#[derive(Debug, Clone)]
pub struct OhlcvResponse {
    pub schema: String,
    pub data: Vec<OhlcvRecord>,
}

/// Historical data, tagged by schema.
#[derive(Debug, Clone)]
#[allow(inconsistent_fields)]
pub enum HistoricalResponse {
    Trades { data: Vec<TradeRecord> },
    Ohlcv1S { data: Vec<OhlcvRecord> },
    Ohlcv1M { data: Vec<OhlcvRecord> },
}

/// The schema a response is tagged with.
pub open spec fn response_schema(r: HistoricalResponse) -> Schema {
    match r {
        HistoricalResponse::Trades { .. } => Schema::Trades,
        HistoricalResponse::Ohlcv1S { .. } => Schema::Ohlcv1S,
        HistoricalResponse::Ohlcv1M { .. } => Schema::Ohlcv1M,
    }
}

/// The number of records a response holds.
pub open spec fn response_len(r: HistoricalResponse) -> nat {
    match r {
        HistoricalResponse::Trades { data } => data@.len(),
        HistoricalResponse::Ohlcv1S { data } => data@.len(),
        HistoricalResponse::Ohlcv1M { data } => data@.len(),
    }
}

/// The bars of a response, empty for trades.
pub open spec fn response_bars(r: HistoricalResponse) -> Seq<OhlcvRecord> {
    match r {
        HistoricalResponse::Trades { .. } => Seq::empty(),
        HistoricalResponse::Ohlcv1S { data } => data@,
        HistoricalResponse::Ohlcv1M { data } => data@,
    }
}

/// A message of a live session.
#[derive(Debug, Clone)]
pub enum LiveMessage {
    Trade { ts_event_unix_ns: u64, symbol: String, price_i64: i64, size_u32: u32 },
    Ohlcv {
        ts_event_unix_ns: u64,
        symbol: String,
        open_i64: i64,
        high_i64: i64,
        low_i64: i64,
        close_i64: i64,
        volume_u64: u64,
    },
    Error { message: String },
    Connected { symbols: Vec<String>, schema: String },
}

/// Error body of the HTTP interface.
#[derive(Debug, Clone)]
pub struct ErrorResponse {
    pub error: String,
    pub code: u16,
}

} // verus!
