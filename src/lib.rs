//! Market-data provider library: the record model, schema handling, the
//! synthetic data generator, the decision logic of the external feed adapter
//! and of the live streaming relay.

pub mod clock;
pub mod error;
pub mod feed;
pub mod model;
pub mod random;
pub mod relay;
pub mod synthetic;
pub mod text;

pub use clock::Instant;
pub use error::ServiceError;
pub use feed::{
    api_failure, resolve_symbol, DatabentoService, FeedEvent, FeedSession, HistoricalBatch,
    HistoricalQuery, SetupStep,
};
pub use model::{
    default_limit, default_schema, default_stype_in, default_symbols, ErrorResponse,
    HistoricalRequest, HistoricalResponse, LiveMessage, LiveParams, OhlcvRecord, OhlcvResponse,
    Schema, TradeRecord, TradesResponse,
};
pub use relay::{
    split_symbols, subscribe_failure_message, InboundFrame, RelayEvent, RelaySession,
};
pub use synthetic::{MockLiveFeed, MockService};
