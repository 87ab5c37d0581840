use vstd::prelude::*;

verus! {

/// One bar as the market-data provider reports it: an unsigned epoch
/// timestamp and the four session prices. Prices are fixed-point values in
/// an arbitrary sub-currency unit chosen by the caller; every rule in this
/// library is scale-invariant, so the unit never matters.
#[derive(Clone, Copy, Debug)]
pub struct ProviderQuote {
    pub timestamp: u64,
    pub open: i64,
    pub high: i64,
    pub low: i64,
    pub close: i64,
}

/// One trading day's bar: seconds since the epoch (UTC) and the four
/// session prices, in the same fixed-point unit as the provider record it
/// was mapped from.
#[derive(Clone, Copy, Debug)]
pub struct QuoteRecord {
    pub timestamp: i64,
    pub open: i64,
    pub high: i64,
    pub low: i64,
    pub close: i64,
}

/// The value of a provider timestamp once widened into a signed 64-bit
/// field: unchanged when it fits, reduced by 2^64 (the two's-complement
/// reading) when it does not.
pub open spec fn widened_timestamp(t: u64) -> int {
    if t <= i64::MAX {
        t as int
    } else {
        t - 0x1_0000_0000_0000_0000
    }
}

/// `r` is exactly the bar that the provider record `p` maps to: every price
/// copied unchanged, the timestamp widened.
pub open spec fn is_record_of(p: ProviderQuote, r: QuoteRecord) -> bool {
    &&& r.timestamp == widened_timestamp(p.timestamp)
    &&& r.open == p.open
    &&& r.high == p.high
    &&& r.low == p.low
    &&& r.close == p.close
}

/// Maps one provider record into a bar by field copy; the timestamp is
/// widened to a signed 64-bit integer.
pub fn from_provider(p: &ProviderQuote) -> (r: QuoteRecord)
    ensures
        is_record_of(*p, r),
{
    let ts: i64 = if p.timestamp <= i64::MAX as u64 {
        p.timestamp as i64
    } else {
        -1 - ((u64::MAX - p.timestamp) as i64)
    };
    QuoteRecord { timestamp: ts, open: p.open, high: p.high, low: p.low, close: p.close }
}

/// Maps a whole provider response into a series of bars, in the provider's
/// order, one bar per record.
pub fn map_provider_quotes(quotes: &Vec<ProviderQuote>) -> (r: Vec<QuoteRecord>)
    ensures
        r@.len() == quotes@.len(),
        forall|i: int| 0 <= i < quotes@.len() ==> is_record_of(quotes@[i], #[trigger] r@[i]),
{
    let mut out: Vec<QuoteRecord> = Vec::new();
    let mut i: usize = 0;
    while i < quotes.len()
        invariant
            i <= quotes.len(),
            out@.len() == i,
            forall|j: int| 0 <= j < i ==> is_record_of(quotes@[j], #[trigger] out@[j]),
        decreases quotes.len() - i,
    {
        out.push(from_provider(&quotes[i]));
        i += 1;
    }
    out
}

} // verus!
