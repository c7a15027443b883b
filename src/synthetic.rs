//! The synthetic data generator: random-walk trades, OHLCV bars whose prices
//! keep the bar relation, and an endless live trade feed.

use vstd::prelude::*;
use vstd::arithmetic::div_mod::{
    lemma_fundamental_div_mod, lemma_fundamental_div_mod_converse, lemma_mod_bound,
};
use rand::rngs::StdRng;
use crate::clock::{
    Instant, chrono_rfc3339, instant_of, now, parse_detail, parse_rfc3339_chrono, to_wire_ns,
    wire_ns,
};
use crate::error::ServiceError;
use crate::model::{
    HistoricalRequest, HistoricalResponse, LiveMessage, OhlcvRecord, Schema, TradeRecord,
    bar_is_consistent, invalid_schema_text, parse_schema, response_bars, response_len,
    response_schema,
};
use crate::random::{draw, fresh_rng};
use crate::text::{copy_texts, same_texts};

verus! {

/// Base price of the generator, 5000.00 in fixed point.
pub const BASE_PRICE: i64 = 5_000_000_000_000;
/// How far below the base price a random walk may fall, 50.00.
pub const FLOOR_DISTANCE: i64 = 50_000_000_000;
/// Largest price step between two historical trades, 0.50.
pub const TRADE_STEP: i64 = 500_000_000;
/// Largest price step between two live trades, 0.25.
pub const LIVE_STEP: i64 = 250_000_000;
/// Most trades one historical request yields.
pub const MAX_TRADES: u32 = 1000;
/// Largest distance of a bar's high above, or low below, its open, 2.00.
pub const BAR_RANGE: i64 = 2_000_000_000;
/// Largest move of a bar's close away from its open, 1.00.
pub const CLOSE_STEP: i64 = 1_000_000_000;
/// Bounds of a bar's volume.
pub const VOLUME_MIN: i64 = 100;
pub const VOLUME_MAX: i64 = 10_000;
/// Largest size of a historical trade.
pub const TRADE_SIZE_MAX: i64 = 50;
/// Largest size of a live trade.
pub const LIVE_SIZE_MAX: i64 = 25;

/// `x`, saturated to the `i64` range.
pub open spec fn clamp_i64(x: int) -> i64 {
    if x < i64::MIN {
        i64::MIN
    } else if x > i64::MAX {
        i64::MAX
    } else {
        x as i64
    }
}

fn saturating_sum(a: i64, b: i64) -> (r: i64)
    ensures
        r == clamp_i64(a + b),
{
    let s = a as i128 + b as i128;
    if s < i64::MIN as i128 {
        i64::MIN
    } else if s > i64::MAX as i128 {
        i64::MAX
    } else {
        s as i64
    }
}

/// The lowest price a random walk from `base` may reach.
pub open spec fn price_floor(base: i64) -> i64 {
    clamp_i64(base - FLOOR_DISTANCE)
}

/// One step of the random walk: move by `step`, but not below `floor`.
pub open spec fn walk_next(cur: i64, step: int, floor: i64) -> i64 {
    let moved = clamp_i64(cur + step);
    if moved < floor {
        floor
    } else {
        moved
    }
}

/// `next` follows `prev` by one walk step of at most `bound` either way.
pub open spec fn walked(prev: i64, next: i64, bound: int, floor: i64) -> bool {
    exists|d: int| -bound <= d <= bound && next == #[trigger] walk_next(prev, d, floor)
}

fn walk(cur: i64, step: i64, floor: i64) -> (r: i64)
    ensures
        r == walk_next(cur, step as int, floor),
{
    let moved = saturating_sum(cur, step);
    if moved < floor {
        floor
    } else {
        moved
    }
}

/// How many trades a historical request yields: none for an empty range or
/// no symbols, else the limit, capped.
pub open spec fn trade_count(start: int, end: int, limit: u32, n_symbols: nat) -> nat {
    if start < end && n_symbols > 0 {
        if limit < MAX_TRADES {
            limit as nat
        } else {
            MAX_TRADES as nat
        }
    } else {
        0
    }
}

/// When trade `i` of `n` happens: evenly spread from `start` towards `end`,
/// the last one at `end` itself.
pub open spec fn trade_time(start: int, end: int, n: nat, i: int) -> int {
    if n > 1 {
        start + (end - start) * i / (n - 1)
    } else {
        start
    }
}

/// Trade `i` of `trades` is as the generator makes it.
pub open spec fn trade_fits(
    trades: Seq<TradeRecord>,
    i: int,
    symbols: Seq<String>,
    start: int,
    end: int,
    base: i64,
) -> bool {
    let t = trades[i];
    let prev = if i == 0 { base } else { trades[i - 1].price_i64 };
    &&& t.symbol@ == symbols[i % symbols.len() as int]@
    &&& t.ts_event_unix_ns == wire_ns(trade_time(start, end, trades.len(), i))
    &&& walked(prev, t.price_i64, TRADE_STEP as int, price_floor(base))
    &&& 1 <= t.size_u32 <= TRADE_SIZE_MAX
}

/// `trades` is what the generator may return for the request.
pub open spec fn trades_fit(
    trades: Seq<TradeRecord>,
    symbols: Seq<String>,
    start: int,
    end: int,
    limit: u32,
    base: i64,
) -> bool {
    &&& trades.len() == trade_count(start, end, limit, symbols.len())
    &&& forall|i: int| 0 <= i < trades.len() ==> #[trigger] trade_fits(trades, i, symbols, start, end, base)
}

proof fn lemma_instant_bounds(t: Instant)
    requires
        t.subsec_nanos < 2_000_000_000,
    ensures
        -10_000_000_000_000_000_000_000_000_000 <= t.unix_ns() <= 10_000_000_000_000_000_000_000_000_000,
{
    assert(-10_000_000_000_000_000_000_000_000_000 <= t.secs * 1_000_000_000 <= 10_000_000_000_000_000_000_000_000_000 - 2_000_000_000) by (nonlinear_arith)
        requires
            i64::MIN <= t.secs <= i64::MAX,
    ;
}

/// Random-walk trades over `[start, end]`, the symbols taken in turn.
fn generate_trades(
    rng: &mut StdRng,
    base: i64,
    symbols: &Vec<String>,
    start: Instant,
    end: Instant,
    limit: u32,
) -> (r: Vec<TradeRecord>)
    requires
        start.subsec_nanos < 2_000_000_000,
        end.subsec_nanos < 2_000_000_000,
    ensures
        trades_fit(r@, symbols@, start.unix_ns(), end.unix_ns(), limit, base),
{
    proof {
        lemma_instant_bounds(start);
        lemma_instant_bounds(end);
    }
    let start_ns = start.nanos();
    let end_ns = end.nanos();
    let n_symbols = symbols.len();
    let n: u32 = if start_ns < end_ns && n_symbols > 0 {
        if limit < MAX_TRADES {
            limit
        } else {
            MAX_TRADES
        }
    } else {
        0
    };
    let floor = saturating_sum(base, -FLOOR_DISTANCE);
    let span = end_ns - start_ns;
    let mut trades: Vec<TradeRecord> = Vec::new();
    let mut price = base;
    let mut i: u32 = 0;
    while i < n
        invariant
            n as nat == trade_count(start_ns as int, end_ns as int, limit, symbols@.len()),
            n > 0 ==> n_symbols > 0 && start_ns < end_ns,
            n <= MAX_TRADES,
            n_symbols == symbols@.len(),
            span == end_ns - start_ns,
            start_ns == start.unix_ns(),
            end_ns == end.unix_ns(),
            -10_000_000_000_000_000_000_000_000_000 <= start_ns <= 10_000_000_000_000_000_000_000_000_000,
            -10_000_000_000_000_000_000_000_000_000 <= end_ns <= 10_000_000_000_000_000_000_000_000_000,
            floor == price_floor(base),
            i <= n,
            trades@.len() == i,
            price == (if i == 0 { base } else { trades@[i - 1].price_i64 }),
            forall|k: int| 0 <= k < i ==> {
                let t = #[trigger] trades@[k];
                let prev = if k == 0 { base } else { trades@[k - 1].price_i64 };
                &&& t.symbol@ == symbols@[k % n_symbols as int]@
                &&& t.ts_event_unix_ns == wire_ns(trade_time(start_ns as int, end_ns as int, n as nat, k))
                &&& walked(prev, t.price_i64, TRADE_STEP as int, floor)
                &&& 1 <= t.size_u32 <= TRADE_SIZE_MAX
            },
        decreases n - i,
    {
        let step = draw(rng, -TRADE_STEP, TRADE_STEP);
        let prev = price;
        price = walk(price, step, floor);
        assert(walked(prev, price, TRADE_STEP as int, floor));
        let at: i128 = if n > 1 {
            assert(0 <= span * (i as int) <= 20_000_000_000_000_000_000_000_000_000 * 1000) by (nonlinear_arith)
                requires
                    0 < span <= 20_000_000_000_000_000_000_000_000_000,
                    0 <= i <= 1000,
            ;
            start_ns + span * (i as i128) / ((n - 1) as i128)
        } else {
            start_ns
        };
        let size = draw(rng, 1, TRADE_SIZE_MAX) as u32;
        let symbol = symbols[(i as usize) % n_symbols].clone();
        trades.push(TradeRecord {
            ts_event_unix_ns: to_wire_ns(at),
            symbol,
            price_i64: price,
            size_u32: size,
        });
        i = i + 1;
    }
    assert forall|k: int| 0 <= k < trades@.len() implies #[trigger] trade_fits(
        trades@,
        k,
        symbols@,
        start.unix_ns(),
        end.unix_ns(),
        base,
    ) by {}
    trades
}

/// How many time slots a range holds for bars of `bar_ns` nanoseconds,
/// capped at `limit`; none for an empty range.
pub open spec fn bar_count(start: int, end: int, bar_ns: int, limit: u32) -> nat {
    if start < end {
        let slots = (end - start) / bar_ns;
        if slots < limit {
            slots as nat
        } else {
            limit as nat
        }
    } else {
        0
    }
}

/// Bar `k` of `bars` is as the generator makes it: slot `k / n` for symbol
/// `k % n` of the `n` symbols, opening at the previous bar's close.
pub open spec fn bar_fits(
    bars: Seq<OhlcvRecord>,
    k: int,
    symbols: Seq<String>,
    start: int,
    bar_ns: int,
    base: i64,
) -> bool {
    let b = bars[k];
    let n = symbols.len() as int;
    &&& b.symbol@ == symbols[k % n]@
    &&& b.ts_event_unix_ns == wire_ns(start + (k / n) * bar_ns)
    &&& b.open_i64 == (if k == 0 { base } else { bars[k - 1].close_i64 })
    &&& bar_is_consistent(b)
    &&& b.high_i64 <= b.open_i64 + BAR_RANGE
    &&& b.open_i64 - BAR_RANGE <= b.low_i64
    &&& b.open_i64 - CLOSE_STEP <= b.close_i64 <= b.open_i64 + CLOSE_STEP
    &&& VOLUME_MIN <= b.volume_u64 <= VOLUME_MAX
}

/// `bars` is what the generator may return for the request: one bar per
/// symbol per slot.
pub open spec fn bars_fit(
    bars: Seq<OhlcvRecord>,
    symbols: Seq<String>,
    start: int,
    end: int,
    bar_ns: int,
    limit: u32,
    base: i64,
) -> bool {
    &&& bars.len() == bar_count(start, end, bar_ns, limit) * symbols.len()
    &&& forall|k: int| 0 <= k < bars.len() ==> #[trigger] bar_fits(bars, k, symbols, start, bar_ns, base)
}

/// One bar opening at `open`: high and low at random distances above and
/// below it, the close a random move from it kept between the two.
fn random_bar(rng: &mut StdRng, ts: u64, symbol: String, open: i64) -> (b: OhlcvRecord)
    ensures
        b.ts_event_unix_ns == ts,
        b.symbol == symbol,
        b.open_i64 == open,
        bar_is_consistent(b),
        b.high_i64 <= b.open_i64 + BAR_RANGE,
        b.open_i64 - BAR_RANGE <= b.low_i64,
        b.open_i64 - CLOSE_STEP <= b.close_i64 <= b.open_i64 + CLOSE_STEP,
        VOLUME_MIN <= b.volume_u64 <= VOLUME_MAX,
{
    let high_delta = draw(rng, 0, BAR_RANGE);
    let low_delta = draw(rng, 0, BAR_RANGE);
    let close_delta = draw(rng, -CLOSE_STEP, CLOSE_STEP);
    let high = saturating_sum(open, high_delta);
    let low = saturating_sum(open, -low_delta);
    let moved = saturating_sum(open, close_delta);
    let close = if moved < low {
        low
    } else if moved > high {
        high
    } else {
        moved
    };
    let volume = draw(rng, VOLUME_MIN, VOLUME_MAX) as u64;
    OhlcvRecord {
        ts_event_unix_ns: ts,
        symbol,
        open_i64: open,
        high_i64: high,
        low_i64: low,
        close_i64: close,
        volume_u64: volume,
    }
}

/// Bars of `bar_secs` seconds over `[start, end)`, one per symbol per slot,
/// each opening at the close of the bar before it.
fn generate_ohlcv(
    rng: &mut StdRng,
    base: i64,
    symbols: &Vec<String>,
    start: Instant,
    end: Instant,
    bar_secs: i64,
    limit: u32,
) -> (r: Vec<OhlcvRecord>)
    requires
        start.subsec_nanos < 2_000_000_000,
        end.subsec_nanos < 2_000_000_000,
        1 <= bar_secs <= 60,
    ensures
        bars_fit(r@, symbols@, start.unix_ns(), end.unix_ns(), bar_secs * 1_000_000_000, limit, base),
{
    proof {
        lemma_instant_bounds(start);
        lemma_instant_bounds(end);
    }
    let start_ns = start.nanos();
    let end_ns = end.nanos();
    let bar_ns: i128 = (bar_secs as i128) * 1_000_000_000;
    let n_slots: u32 = if start_ns < end_ns {
        let slots = (end_ns - start_ns) / bar_ns;
        if slots < limit as i128 {
            slots as u32
        } else {
            limit
        }
    } else {
        0
    };
    let n_symbols = symbols.len();
    let ghost n = n_symbols as int;
    let mut bars: Vec<OhlcvRecord> = Vec::new();
    let mut price = base;
    let mut i: u32 = 0;
    while i < n_slots
        invariant
            n_slots as nat == bar_count(start_ns as int, end_ns as int, bar_ns as int, limit),
            n_symbols == symbols@.len(),
            n == n_symbols,
            bar_ns == bar_secs * 1_000_000_000,
            1 <= bar_secs <= 60,
            start_ns == start.unix_ns(),
            -10_000_000_000_000_000_000_000_000_000 <= start_ns <= 10_000_000_000_000_000_000_000_000_000,
            i <= n_slots,
            bars@.len() == i * n,
            price == (if bars@.len() == 0 { base } else { bars@[bars@.len() - 1].close_i64 }),
            forall|k: int| 0 <= k < bars@.len() ==> #[trigger] bar_fits(bars@, k, symbols@, start_ns as int, bar_ns as int, base),
        decreases n_slots - i,
    {
        assert(0 <= (i as int) * bar_ns <= 4_294_967_296 * 60_000_000_000) by (nonlinear_arith)
            requires
                0 <= i <= 4_294_967_296,
                0 < bar_ns <= 60_000_000_000,
        ;
        let ts = to_wire_ns(start_ns + (i as i128) * bar_ns);
        let mut j: usize = 0;
        while j < n_symbols
            invariant
                n_symbols == symbols@.len(),
                n == n_symbols,
                i < n_slots,
                j <= n_symbols,
                ts == wire_ns(start_ns + i * bar_ns),
                bars@.len() == i * n + j,
                price == (if bars@.len() == 0 { base } else { bars@[bars@.len() - 1].close_i64 }),
                forall|k: int| 0 <= k < bars@.len() ==> #[trigger] bar_fits(bars@, k, symbols@, start_ns as int, bar_ns as int, base),
            decreases n_symbols - j,
        {
            let bar = random_bar(rng, ts, symbols[j].clone(), price);
            let ghost before = bars@;
            price = bar.close_i64;
            bars.push(bar);
            proof {
                let k = i * n + j;
                lemma_fundamental_div_mod_converse(k, n, i as int, j as int);
                assert(bar_fits(bars@, k, symbols@, start_ns as int, bar_ns as int, base));
                assert forall|m: int| 0 <= m < bars@.len() implies #[trigger] bar_fits(
                    bars@,
                    m,
                    symbols@,
                    start_ns as int,
                    bar_ns as int,
                    base,
                ) by {
                    if m < k {
                        assert(bar_fits(before, m, symbols@, start_ns as int, bar_ns as int, base));
                    }
                }
            }
            j = j + 1;
        }
        assert((i + 1) * n == i * n + n) by (nonlinear_arith);
        i = i + 1;
    }
    bars
}

/// The data the generator may answer a well-formed request with.
pub open spec fn historical_fits(
    resp: HistoricalResponse,
    schema: Schema,
    symbols: Seq<String>,
    start: int,
    end: int,
    limit: u32,
    base: i64,
) -> bool {
    &&& response_schema(resp) == schema
    &&& match resp {
        HistoricalResponse::Trades { data } => trades_fit(data@, symbols, start, end, limit, base),
        HistoricalResponse::Ohlcv1S { data } => bars_fit(data@, symbols, start, end, 1_000_000_000, limit, base),
        HistoricalResponse::Ohlcv1M { data } => bars_fit(data@, symbols, start, end, 60_000_000_000, limit, base),
    }
}

/// Every bar of a response that fits the generator keeps the bar relation.
pub proof fn lemma_generated_bars_consistent(
    resp: HistoricalResponse,
    schema: Schema,
    symbols: Seq<String>,
    start: int,
    end: int,
    limit: u32,
    base: i64,
    k: int,
)
    requires
        historical_fits(resp, schema, symbols, start, end, limit, base),
        0 <= k < response_bars(resp).len(),
    ensures
        bar_is_consistent(response_bars(resp)[k]),
{
    match resp {
        HistoricalResponse::Trades { .. } => {},
        HistoricalResponse::Ohlcv1S { data } => {
            assert(bar_fits(data@, k, symbols, start, 1_000_000_000, base));
        },
        HistoricalResponse::Ohlcv1M { data } => {
            assert(bar_fits(data@, k, symbols, start, 60_000_000_000, base));
        },
    }
}

/// Trades that fit a request number at most its limit and at most the cap,
/// and at least one when the range is non-empty, the limit at least one and
/// a symbol given.
pub proof fn lemma_trade_count_bounds(
    resp: HistoricalResponse,
    symbols: Seq<String>,
    start: int,
    end: int,
    limit: u32,
    base: i64,
)
    requires
        historical_fits(resp, Schema::Trades, symbols, start, end, limit, base),
    ensures
        response_len(resp) <= limit,
        response_len(resp) <= MAX_TRADES,
        start < end && limit >= 1 && symbols.len() >= 1 ==> response_len(resp) >= 1,
{
}

/// One hour of one-minute bars with a limit of at least sixty holds sixty
/// bars for each symbol: sixty times as many bars as symbols, the symbols
/// taken in turn.
pub proof fn lemma_hour_of_minute_bars(
    resp: HistoricalResponse,
    symbols: Seq<String>,
    start: int,
    end: int,
    limit: u32,
    base: i64,
)
    requires
        historical_fits(resp, Schema::Ohlcv1M, symbols, start, end, limit, base),
        end - start == 3_600_000_000_000,
        limit >= 60,
    ensures
        response_len(resp) == 60 * symbols.len(),
        forall|k: int| 0 <= k < response_len(resp) ==> (#[trigger] response_bars(resp)[k]).symbol@
            == symbols[k % symbols.len() as int]@,
{
    assert(bar_count(start, end, 60_000_000_000, limit) == 60);
    if let HistoricalResponse::Ohlcv1M { data } = resp {
        assert forall|k: int| 0 <= k < response_len(resp) implies (#[trigger] response_bars(resp)[k]).symbol@
            == symbols[k % symbols.len() as int]@ by {
            assert(bar_fits(data@, k, symbols, start, 60_000_000_000, base));
        }
    }
}

/// How many of `bars` are on the symbol `s`.
pub open spec fn bars_on(bars: Seq<OhlcvRecord>, s: Seq<char>) -> nat
    decreases bars.len(),
{
    if bars.len() == 0 {
        0
    } else {
        bars_on(bars.drop_last(), s) + if bars.last().symbol@ == s { 1nat } else { 0nat }
    }
}

/// No two of the symbols have the same text.
pub open spec fn distinct_texts(symbols: Seq<String>) -> bool {
    forall|i: int, j: int| 0 <= i < j < symbols.len() ==> symbols[i]@ != symbols[j]@
}

/// Among the first `len` bars taken in turn over distinct symbols, symbol
/// `j` has one bar per full round, and one more if the last round reached it.
proof fn lemma_bars_on_prefix(bars: Seq<OhlcvRecord>, symbols: Seq<String>, j: int, len: int)
    requires
        symbols.len() > 0,
        distinct_texts(symbols),
        0 <= j < symbols.len(),
        0 <= len <= bars.len(),
        forall|k: int| 0 <= k < bars.len() ==> (#[trigger] bars[k]).symbol@ == symbols[k % symbols.len() as int]@,
    ensures
        bars_on(bars.take(len), symbols[j]@) == len / symbols.len() as int + if len % symbols.len() as int > j { 1int } else { 0int },
    decreases len,
{
    let n = symbols.len() as int;
    if len == 0 {
        assert(bars.take(0) =~= Seq::<OhlcvRecord>::empty());
    } else {
        let p = len - 1;
        lemma_bars_on_prefix(bars, symbols, j, p);
        assert(bars.take(len).drop_last() =~= bars.take(p));
        assert(bars.take(len).last() == bars[p]);
        lemma_fundamental_div_mod(p, n);
        lemma_mod_bound(p, n);
        let q = p / n;
        let r = p % n;
        assert(bars[p].symbol@ == symbols[r]@);
        assert((bars[p].symbol@ == symbols[j]@) == (r == j)) by {
            if r < j {
                assert(symbols[r]@ != symbols[j]@);
            } else if r > j {
                assert(symbols[j]@ != symbols[r]@);
            }
        }
        if r + 1 < n {
            assert(len == q * n + (r + 1)) by (nonlinear_arith)
                requires
                    p == n * q + r,
                    len == p + 1,
            ;
            lemma_fundamental_div_mod_converse(len, n, q, r + 1);
        } else {
            assert(len == (q + 1) * n + 0) by (nonlinear_arith)
                requires
                    p == n * q + r,
                    len == p + 1,
                    r + 1 == n,
            ;
            lemma_fundamental_div_mod_converse(len, n, q + 1, 0);
        }
    }
}

/// One hour of one-minute bars over distinct symbols, with a limit of at
/// least sixty, holds exactly sixty bars on each symbol.
pub proof fn lemma_minute_bars_per_symbol(
    resp: HistoricalResponse,
    symbols: Seq<String>,
    start: int,
    end: int,
    limit: u32,
    base: i64,
    j: int,
)
    requires
        historical_fits(resp, Schema::Ohlcv1M, symbols, start, end, limit, base),
        end - start == 3_600_000_000_000,
        limit >= 60,
        distinct_texts(symbols),
        0 <= j < symbols.len(),
    ensures
        bars_on(response_bars(resp), symbols[j]@) == 60,
{
    lemma_hour_of_minute_bars(resp, symbols, start, end, limit, base);
    let bars = response_bars(resp);
    let n = symbols.len() as int;
    assert forall|k: int| 0 <= k < bars.len() implies (#[trigger] bars[k]).symbol@ == symbols[k % n]@ by {
        assert(response_bars(resp)[k] == bars[k]);
    }
    lemma_bars_on_prefix(bars, symbols, j, bars.len() as int);
    assert(bars.take(bars.len() as int) =~= bars);
    lemma_fundamental_div_mod_converse(60 * n, n, 60, 0);
}

/// Generator of synthetic market data around a fixed base price.
pub struct MockService {
    base_price: i64,
}

impl MockService {
    /// The base price every walk starts from.
    pub closed spec fn base(&self) -> i64 {
        self.base_price
    }

    /// A generator around 5000.00.
    pub fn new() -> (r: MockService)
        ensures
            r.base() == BASE_PRICE,
    {
        MockService { base_price: BASE_PRICE }
    }

    /// Name of this provider.
    pub fn name(&self) -> (r: &'static str)
        ensures
            r@ == "MockService"@,
    {
        "MockService"
    }

    /// Historical data for a request. The schema is checked first, then the
    /// two instants; the data then is random but as `historical_fits` says.
    pub fn get_historical(&self, req: &HistoricalRequest) -> (r: Result<HistoricalResponse, ServiceError>)
        ensures
            parse_schema(req.schema@) is None ==> (r matches Err(ServiceError::InvalidSchema(m))
                && m@ == invalid_schema_text(req.schema@)),
            parse_schema(req.schema@) is Some && chrono_rfc3339(req.start_rfc3339@) is Err ==> (r matches Err(
                ServiceError::InvalidTimeFormat(m),
            ) && m@ == "start_rfc3339: "@ + parse_detail(chrono_rfc3339(req.start_rfc3339@))),
            parse_schema(req.schema@) is Some && chrono_rfc3339(req.start_rfc3339@) is Ok
                && chrono_rfc3339(req.end_rfc3339@) is Err ==> (r matches Err(
                ServiceError::InvalidTimeFormat(m),
            ) && m@ == "end_rfc3339: "@ + parse_detail(chrono_rfc3339(req.end_rfc3339@))),
            r is Ok <==> parse_schema(req.schema@) is Some && chrono_rfc3339(req.start_rfc3339@) is Ok
                && chrono_rfc3339(req.end_rfc3339@) is Ok,
            r matches Ok(resp) ==> historical_fits(
                resp,
                parse_schema(req.schema@)->0,
                req.symbols@,
                instant_of(chrono_rfc3339(req.start_rfc3339@))->0.unix_ns(),
                instant_of(chrono_rfc3339(req.end_rfc3339@))->0.unix_ns(),
                req.limit,
                self.base(),
            ),
    {
        let schema = match Schema::parse(req.schema.as_str()) {
            Ok(s) => s,
            Err(e) => return Err(ServiceError::InvalidSchema(e)),
        };
        let start = match parse_rfc3339_chrono(req.start_rfc3339.as_str()) {
            Ok(t) => t,
            Err(e) => {
                let mut m = String::from_str("start_rfc3339: ");
                m.append(e.as_str());
                return Err(ServiceError::InvalidTimeFormat(m));
            },
        };
        let end = match parse_rfc3339_chrono(req.end_rfc3339.as_str()) {
            Ok(t) => t,
            Err(e) => {
                let mut m = String::from_str("end_rfc3339: ");
                m.append(e.as_str());
                return Err(ServiceError::InvalidTimeFormat(m));
            },
        };
        let mut rng = fresh_rng();
        match schema {
            Schema::Trades => {
                let data = generate_trades(&mut rng, self.base_price, &req.symbols, start, end, req.limit);
                Ok(HistoricalResponse::Trades { data })
            },
            Schema::Ohlcv1S => {
                let data = generate_ohlcv(&mut rng, self.base_price, &req.symbols, start, end, 1, req.limit);
                Ok(HistoricalResponse::Ohlcv1S { data })
            },
            Schema::Ohlcv1M => {
                let data = generate_ohlcv(&mut rng, self.base_price, &req.symbols, start, end, 60, req.limit);
                Ok(HistoricalResponse::Ohlcv1M { data })
            },
        }
    }
}

/// Bounds of the pause between two live trades, in milliseconds.
pub const DELAY_MIN_MS: i64 = 100;
pub const DELAY_MAX_MS: i64 = 500;

/// `msg` is the opening message of a live session for `symbols` and `schema`.
pub open spec fn opens_session(msg: LiveMessage, symbols: Seq<String>, schema: Seq<char>) -> bool {
    msg matches LiveMessage::Connected { symbols: s, schema: t } && same_texts(s@, symbols) && t@ == schema
}

/// The endless synthetic trade feed of one live session: a `Connected`
/// message, then trades on the symbols in turn, the price a random walk.
pub struct MockLiveFeed {
    symbols: Vec<String>,
    schema: String,
    floor: i64,
    price: i64,
    next_symbol: usize,
    connected: bool,
    rng: StdRng,
}

impl MockLiveFeed {
    pub closed spec fn symbols(&self) -> Seq<String> {
        self.symbols@
    }

    pub closed spec fn schema(&self) -> Seq<char> {
        self.schema@
    }

    /// The floor of the price walk.
    pub closed spec fn floor(&self) -> i64 {
        self.floor
    }

    /// The price of the last trade, or the base price before the first.
    pub closed spec fn price(&self) -> i64 {
        self.price
    }

    /// Position of the symbol the next trade is on.
    pub closed spec fn next_symbol(&self) -> nat {
        self.next_symbol as nat
    }

    /// Whether the `Connected` message has been handed out.
    pub closed spec fn connected(&self) -> bool {
        self.connected
    }

    pub closed spec fn wf(&self) -> bool {
        self.symbols@.len() == 0 || self.next_symbol < self.symbols@.len()
    }

    /// The feed's state apart from its random source.
    pub open spec fn same_state(&self, other: &MockLiveFeed) -> bool {
        &&& self.symbols() == other.symbols()
        &&& self.schema() == other.schema()
        &&& self.floor() == other.floor()
        &&& self.price() == other.price()
        &&& self.next_symbol() == other.next_symbol()
        &&& self.connected() == other.connected()
    }

    /// The next message of the session. The first is `Connected`, echoing
    /// the symbols and schema; then each is a trade on the next symbol in
    /// turn, one walk step from the last price. With no symbols the session
    /// ends after `Connected` (`None`).
    pub fn next_message(&mut self) -> (r: Option<LiveMessage>)
        requires
            old(self).wf(),
        ensures
            final(self).wf(),
            final(self).symbols() == old(self).symbols(),
            final(self).schema() == old(self).schema(),
            final(self).floor() == old(self).floor(),
            final(self).connected(),
            !old(self).connected() ==> (r matches Some(m) && opens_session(m, old(self).symbols(), old(self).schema())),
            !old(self).connected() ==> final(self).price() == old(self).price()
                && final(self).next_symbol() == old(self).next_symbol(),
            old(self).connected() && old(self).symbols().len() == 0 ==> r is None,
            old(self).connected() && old(self).symbols().len() > 0 ==> (r matches Some(
                LiveMessage::Trade { symbol, price_i64, size_u32, .. },
            ) && symbol@ == old(self).symbols()[old(self).next_symbol() as int]@
                && price_i64 == final(self).price()
                && walked(old(self).price(), price_i64, LIVE_STEP as int, old(self).floor())
                && 1 <= size_u32 <= LIVE_SIZE_MAX
                && final(self).next_symbol() == (old(self).next_symbol() + 1) % old(self).symbols().len()),
    {
        if !self.connected {
            self.connected = true;
            return Some(LiveMessage::Connected { symbols: copy_texts(&self.symbols), schema: self.schema.clone() });
        }
        if self.symbols.len() == 0 {
            return None;
        }
        let step = draw(&mut self.rng, -LIVE_STEP, LIVE_STEP);
        let prev = self.price;
        self.price = walk(self.price, step, self.floor);
        assert(walked(prev, self.price, LIVE_STEP as int, self.floor));
        let symbol = self.symbols[self.next_symbol].clone();
        self.next_symbol = (self.next_symbol + 1) % self.symbols.len();
        let size = draw(&mut self.rng, 1, LIVE_SIZE_MAX) as u32;
        let at = now();
        proof {
            lemma_instant_bounds(at);
        }
        Some(LiveMessage::Trade {
            ts_event_unix_ns: to_wire_ns(at.nanos()),
            symbol,
            price_i64: self.price,
            size_u32: size,
        })
    }

    /// How long to pause before the next trade, in milliseconds.
    pub fn next_delay_ms(&mut self) -> (r: u64)
        requires
            old(self).wf(),
        ensures
            final(self).wf(),
            final(self).same_state(old(self)),
            DELAY_MIN_MS <= r <= DELAY_MAX_MS,
    {
        draw(&mut self.rng, DELAY_MIN_MS, DELAY_MAX_MS) as u64
    }
}

impl MockService {
    /// Opens a live session. An unknown schema fails at once; otherwise the
    /// feed is fresh: its first message will be `Connected` with these
    /// symbols and this schema, and its walk starts at the base price.
    pub fn subscribe_live(&self, symbols: Vec<String>, schema: String) -> (r: Result<MockLiveFeed, ServiceError>)
        ensures
            parse_schema(schema@) is None ==> (r matches Err(ServiceError::InvalidSchema(m))
                && m@ == invalid_schema_text(schema@)),
            parse_schema(schema@) is Some ==> (r matches Ok(f) && f.wf() && !f.connected()
                && f.symbols() == symbols@ && f.schema() == schema@ && f.price() == self.base()
                && f.floor() == price_floor(self.base()) && f.next_symbol() == 0),
    {
        if let Err(e) = Schema::parse(schema.as_str()) {
            return Err(ServiceError::InvalidSchema(e));
        }
        Ok(MockLiveFeed {
            symbols,
            schema,
            floor: saturating_sum(self.base_price, -FLOOR_DISTANCE),
            price: self.base_price,
            next_symbol: 0,
            connected: false,
            rng: fresh_rng(),
        })
    }
}

impl Default for MockService {
    fn default() -> (r: MockService)
        ensures
            r.base() == BASE_PRICE,
    {
        MockService::new()
    }
}

} // verus!
