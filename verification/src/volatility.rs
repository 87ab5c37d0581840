use vstd::prelude::*;

verus! {

/// A bar is volatile when its high-low range exceeds two percent of its
/// close: the exact rational comparison `(high - low) / close > 1/50`,
/// split on the sign of `close`. A bar with `close == 0` has no defined
/// ratio and is never volatile.
pub open spec fn is_volatile(high: int, low: int, close: int) -> bool {
    if close > 0 {
        50 * (high - low) > close
    } else if close < 0 {
        50 * (high - low) < close
    } else {
        false
    }
}

/// The positions, in ascending order, of the volatile bars among the first
/// `n` entries of three equal-length price columns.
pub open spec fn volatile_indices(
    highs: Seq<i64>,
    lows: Seq<i64>,
    closes: Seq<i64>,
    n: int,
) -> Seq<int>
    decreases n,
{
    if n <= 0 {
        Seq::empty()
    } else {
        let rest = volatile_indices(highs, lows, closes, n - 1);
        if is_volatile(highs[n - 1] as int, lows[n - 1] as int, closes[n - 1] as int) {
            rest.push(n - 1)
        } else {
            rest
        }
    }
}

/// Decides whether one bar is volatile.
pub fn bar_is_volatile(high: i64, low: i64, close: i64) -> (r: bool)
    ensures
        r == is_volatile(high as int, low as int, close as int),
{
    let range: i128 = 50 * ((high as i128) - (low as i128));
    if close > 0 {
        range > close as i128
    } else if close < 0 {
        range < close as i128
    } else {
        false
    }
}

/// The five output columns hold exactly the volatile bars of the first `n`
/// input rows, in input order: dates and prices read off at the selected
/// positions, the open column filled with the zero placeholder the overlay
/// never plots.
pub open spec fn volatile_selection(
    dates: Seq<String>,
    highs: Seq<i64>,
    lows: Seq<i64>,
    closes: Seq<i64>,
    n: int,
    v_dates: Seq<String>,
    v_opens: Seq<i64>,
    v_highs: Seq<i64>,
    v_lows: Seq<i64>,
    v_closes: Seq<i64>,
) -> bool {
    let idx = volatile_indices(highs, lows, closes, n);
    &&& v_dates.len() == idx.len()
    &&& v_opens.len() == idx.len()
    &&& v_highs.len() == idx.len()
    &&& v_lows.len() == idx.len()
    &&& v_closes.len() == idx.len()
    &&& forall|k: int| 0 <= k < idx.len() ==> (#[trigger] v_dates[k])@ == dates[idx[k]]@
    &&& forall|k: int| 0 <= k < idx.len() ==> #[trigger] v_opens[k] == 0
    &&& forall|k: int| 0 <= k < idx.len() ==> #[trigger] v_highs[k] == highs[idx[k]]
    &&& forall|k: int| 0 <= k < idx.len() ==> #[trigger] v_lows[k] == lows[idx[k]]
    &&& forall|k: int| 0 <= k < idx.len() ==> #[trigger] v_closes[k] == closes[idx[k]]
}

/// Filters the series columns down to the volatile days, preserving input
/// order. Returns the five columns the marker overlay is built from; the
/// open column carries a zero placeholder, since the overlay only plots the
/// close.
pub fn identify_volatile_days(
    dates: &Vec<String>,
    highs: &Vec<i64>,
    lows: &Vec<i64>,
    closes: &Vec<i64>,
) -> (r: (Vec<String>, Vec<i64>, Vec<i64>, Vec<i64>, Vec<i64>))
    requires
        highs@.len() == dates@.len(),
        lows@.len() == dates@.len(),
        closes@.len() == dates@.len(),
    ensures
        volatile_selection(
            dates@,
            highs@,
            lows@,
            closes@,
            dates@.len() as int,
            r.0@,
            r.1@,
            r.2@,
            r.3@,
            r.4@,
        ),
{
    let mut v_dates: Vec<String> = Vec::new();
    let mut v_opens: Vec<i64> = Vec::new();
    let mut v_highs: Vec<i64> = Vec::new();
    let mut v_lows: Vec<i64> = Vec::new();
    let mut v_closes: Vec<i64> = Vec::new();

    let mut i: usize = 0;
    while i < dates.len()
        invariant
            i <= dates@.len(),
            highs@.len() == dates@.len(),
            lows@.len() == dates@.len(),
            closes@.len() == dates@.len(),
            volatile_selection(
                dates@,
                highs@,
                lows@,
                closes@,
                i as int,
                v_dates@,
                v_opens@,
                v_highs@,
                v_lows@,
                v_closes@,
            ),
        decreases dates@.len() - i,
    {
        if bar_is_volatile(highs[i], lows[i], closes[i]) {
            v_dates.push(dates[i].clone());
            v_opens.push(0);
            v_highs.push(highs[i]);
            v_lows.push(lows[i]);
            v_closes.push(closes[i]);
        }
        i += 1;
    }

    (v_dates, v_opens, v_highs, v_lows, v_closes)
}

/// The classification never invents, reorders or repeats bars: the selected
/// positions are strictly increasing, all lie among the first `n` bars, and
/// there are never more of them than bars.
pub proof fn lemma_markers_form_subsequence(
    highs: Seq<i64>,
    lows: Seq<i64>,
    closes: Seq<i64>,
    n: int,
)
    requires
        0 <= n,
    ensures
        volatile_indices(highs, lows, closes, n).len() <= n,
        forall|k: int|
            0 <= k < volatile_indices(highs, lows, closes, n).len()
                ==> 0 <= #[trigger] volatile_indices(highs, lows, closes, n)[k] < n,
        forall|k1: int, k2: int|
            0 <= k1 < k2 < volatile_indices(highs, lows, closes, n).len()
                ==> volatile_indices(highs, lows, closes, n)[k1]
                    < volatile_indices(highs, lows, closes, n)[k2],
    decreases n,
{
    if n > 0 {
        lemma_markers_form_subsequence(highs, lows, closes, n - 1);
    }
}

/// A bar is selected if and only if it satisfies the volatility predicate:
/// strictly above the two-percent threshold, equality excluded, and a zero
/// close never selected.
pub proof fn lemma_classified_iff_volatile(
    highs: Seq<i64>,
    lows: Seq<i64>,
    closes: Seq<i64>,
    n: int,
)
    requires
        0 <= n,
    ensures
        forall|i: int|
            0 <= i < n
                ==> (volatile_indices(highs, lows, closes, n).contains(i)
                    <==> is_volatile(highs[i] as int, lows[i] as int, closes[i] as int)),
    decreases n,
{
    if n > 0 {
        lemma_classified_iff_volatile(highs, lows, closes, n - 1);
        lemma_markers_form_subsequence(highs, lows, closes, n - 1);
        let prev = volatile_indices(highs, lows, closes, n - 1);
        let cur = volatile_indices(highs, lows, closes, n);
        assert forall|i: int|
            0 <= i < n implies (cur.contains(i)
                <==> is_volatile(highs[i] as int, lows[i] as int, closes[i] as int)) by {
            if is_volatile(highs[n - 1] as int, lows[n - 1] as int, closes[n - 1] as int) {
                assert(cur == prev.push(n - 1));
                if i < n - 1 {
                    if prev.contains(i) {
                        let k = choose|k: int| 0 <= k < prev.len() && prev[k] == i;
                        assert(cur[k] == i);
                    }
                    if cur.contains(i) {
                        let k = choose|k: int| 0 <= k < cur.len() && cur[k] == i;
                        assert(0 <= k < prev.len());
                        assert(prev.contains(i));
                    }
                } else {
                    assert(cur[cur.len() - 1] == n - 1);
                }
            } else {
                assert(cur == prev);
                if i < n - 1 {
                } else {
                    if cur.contains(i) {
                        let k = choose|k: int| 0 <= k < cur.len() && cur[k] == i;
                        assert(cur[k] < n - 1);
                    }
                }
            }
        }
    }
}

/// A bar whose close is zero is never classified as volatile.
pub proof fn lemma_zero_close_never_volatile(
    highs: Seq<i64>,
    lows: Seq<i64>,
    closes: Seq<i64>,
    n: int,
    i: int,
)
    requires
        0 <= i < n,
        closes[i] == 0,
    ensures
        !volatile_indices(highs, lows, closes, n).contains(i),
{
    lemma_classified_iff_volatile(highs, lows, closes, n);
}

} // verus!
