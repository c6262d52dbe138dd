//! The stock endpoints: listing, selecting, adding and deleting the tickers
//! of a session, and gathering the series a prediction is made from.

use vstd::prelude::*;

use crate::auth::extractor::SessionContext;
use crate::models::MessageResponse;
use crate::stocks_register::{same_record, ticker_key, StockRecord, StocksRegister};
use crate::text::{concat2, concat3, concat4};

verus! {

/// A request for the records of some tickers.
#[derive(Debug)]
pub struct TickersRequest {
    pub tickers: Vec<String>,
}

/// A ticker and its display name.
#[derive(Debug)]
pub struct TickerName {
    pub ticker: String,
    pub full_name: String,
}

/// A request to fetch a ticker into the session.
#[derive(Debug)]
pub struct AddTickerRequest {
    pub ticker: String,
    pub interval: String,
    pub range: String,
}

/// A request to drop a ticker from the session.
#[derive(Debug)]
pub struct DeleteTickerRequest {
    pub ticker: String,
}

/// The answer of a stock endpoint, and the user whose saved tickers are to be
/// updated in the database accordingly (none for a guest or a failure).
#[derive(Debug)]
pub struct StockOutcome {
    pub status: u16,
    pub message: MessageResponse,
    pub persist_for: Option<String>,
}

/// Seconds in a day.
pub const SECONDS_PER_DAY: i64 = 86400;

/// A timestamp moved back by `days` days.
pub open spec fn shifted_stamp(t: i64, days: i32) -> int {
    t - days * SECONDS_PER_DAY
}

/// Moving every timestamp back by `days` days stays within `i64`.
pub open spec fn shift_fits(timestamps: Seq<i64>, days: i32) -> bool {
    forall|i: int| 0 <= i < timestamps.len() ==> i64::MIN <= #[trigger] shifted_stamp(timestamps[i], days) <= i64::MAX
}

/// `a` is `b` with every timestamp moved back by `days` days.
pub open spec fn is_shifted<P>(a: StockRecord<P>, b: StockRecord<P>, days: i32) -> bool {
    &&& a.ticker@ == b.ticker@
    &&& a.timestamps@.len() == b.timestamps@.len()
    &&& forall|i: int| 0 <= i < a.timestamps@.len() ==> #[trigger] a.timestamps@[i] == shifted_stamp(b.timestamps@[i], days)
    &&& a.close_prices@ == b.close_prices@
    &&& a.open_prices@ == b.open_prices@
    &&& a.high_prices@ == b.high_prices@
    &&& a.low_prices@ == b.low_prices@
}

/// Whether moving the timestamps back by `days` days stays within `i64`.
pub fn shift_stays_in_range(timestamps: &Vec<i64>, days: i32) -> (r: bool)
    ensures
        r == shift_fits(timestamps@, days),
{
    let offset: i64 = (days as i64) * SECONDS_PER_DAY;
    let mut i: usize = 0;
    while i < timestamps.len()
        invariant
            offset == days * SECONDS_PER_DAY,
            i <= timestamps@.len(),
            forall|j: int| 0 <= j < i ==> i64::MIN <= #[trigger] shifted_stamp(timestamps@[j], days) <= i64::MAX,
        decreases timestamps@.len() - i,
    {
        if timestamps[i].checked_sub(offset).is_none() {
            assert(!(i64::MIN <= shifted_stamp(timestamps@[i as int], days) <= i64::MAX));
            return false;
        }
        i = i + 1;
    }
    true
}

/// Moves every timestamp of the record back by `days_offset` days.
pub fn shift_stock_dates<P>(stock: &mut StockRecord<P>, days_offset: i32)
    requires
        shift_fits(old(stock).timestamps@, days_offset),
    ensures
        is_shifted(*final(stock), *old(stock), days_offset),
{
    let offset_seconds: i64 = (days_offset as i64) * SECONDS_PER_DAY;
    let mut i: usize = 0;
    while i < stock.timestamps.len()
        invariant
            offset_seconds == days_offset * SECONDS_PER_DAY,
            i <= stock.timestamps@.len(),
            stock.timestamps@.len() == old(stock).timestamps@.len(),
            shift_fits(old(stock).timestamps@, days_offset),
            forall|j: int| 0 <= j < i ==> #[trigger] stock.timestamps@[j] == shifted_stamp(old(stock).timestamps@[j], days_offset),
            forall|j: int| i <= j < stock.timestamps@.len() ==> #[trigger] stock.timestamps@[j] == old(stock).timestamps@[j],
            stock.ticker == old(stock).ticker,
            stock.close_prices == old(stock).close_prices,
            stock.open_prices == old(stock).open_prices,
            stock.high_prices == old(stock).high_prices,
            stock.low_prices == old(stock).low_prices,
        decreases stock.timestamps@.len() - i,
    {
        let t = stock.timestamps[i];
        assert(i64::MIN <= shifted_stamp(old(stock).timestamps@[i as int], days_offset) <= i64::MAX);
        stock.timestamps.set(i, t - offset_seconds);
        i = i + 1;
    }
}

/// The names listed for a session: each of its tickers, with the display name "no name".
pub fn ticker_names<P>(register: &StocksRegister<P>) -> (r: Vec<TickerName>)
    requires
        register.wf(),
    ensures
        r@.len() == register@.dom().len(),
        forall|i: int| 0 <= i < r@.len() ==> {
            &&& register@.dom().contains(#[trigger] r@[i].ticker@)
            &&& r@[i].full_name@ == "no name"@
        },
        forall|k: Seq<char>| #[trigger] register@.dom().contains(k) ==> exists|i: int| 0 <= i < r@.len() && r@[i].ticker@ == k,
{
    let tickers = register.tickers();
    let mut r: Vec<TickerName> = Vec::new();
    let mut i: usize = 0;
    while i < tickers.len()
        invariant
            i <= tickers@.len(),
            r@.len() == i,
            forall|j: int| 0 <= j < i ==> #[trigger] r@[j].ticker@ == tickers@[j]@ && r@[j].full_name@ == "no name"@,
        decreases tickers@.len() - i,
    {
        r.push(TickerName { ticker: tickers[i].clone(), full_name: "no name".to_owned() });
        i = i + 1;
    }
    proof {
        assert forall|k: Seq<char>| #[trigger] register@.dom().contains(k) implies exists|i: int| 0 <= i < r@.len() && r@[i].ticker@ == k by {
            let j = choose|j: int| 0 <= j < tickers@.len() && tickers@[j]@ == k;
            assert(r@[j].ticker@ == k);
        }
        assert forall|a: int| 0 <= a < r@.len() implies register@.dom().contains(#[trigger] r@[a].ticker@) by {
            assert(r@[a].ticker@ == tickers@[a]@);
        }
    }
    r
}

/// The records of the requested tickers that the register holds, in the order requested.
pub open spec fn selected<P>(register: Map<Seq<char>, StockRecord<P>>, tickers: Seq<String>) -> Seq<StockRecord<P>>
    decreases tickers.len(),
{
    if tickers.len() == 0 {
        Seq::empty()
    } else {
        let rest = selected(register, tickers.drop_last());
        let k = ticker_key(tickers.last()@);
        if register.dom().contains(k) {
            rest.push(register[k])
        } else {
            rest
        }
    }
}

/// A selection holds only records of the register, never more than were asked
/// for, and one for each asked ticker that the register holds.
pub proof fn law_selection_comes_from_the_register<P>(register: Map<Seq<char>, StockRecord<P>>, tickers: Seq<String>)
    ensures
        selected(register, tickers).len() <= tickers.len(),
        forall|i: int| 0 <= i < selected(register, tickers).len() ==> register.contains_value(
            #[trigger] selected(register, tickers)[i],
        ),
        (forall|j: int| 0 <= j < tickers.len() ==> register.dom().contains(ticker_key(#[trigger] tickers[j]@)))
            ==> selected(register, tickers).len() == tickers.len(),
    decreases tickers.len(),
{
    if tickers.len() > 0 {
        let rest = tickers.drop_last();
        law_selection_comes_from_the_register(register, rest);
        let k = ticker_key(tickers.last()@);
        let s = selected(register, tickers);
        let r = selected(register, rest);
        assert forall|i: int| 0 <= i < s.len() implies register.contains_value(#[trigger] s[i]) by {
            if i < r.len() {
                assert(s[i] == r[i]);
            } else {
                assert(s[i] == register[k]);
                assert(register.dom().contains(k));
            }
        }
        if forall|j: int| 0 <= j < tickers.len() ==> register.dom().contains(ticker_key(#[trigger] tickers[j]@)) {
            assert forall|j: int| 0 <= j < rest.len() implies register.dom().contains(ticker_key(#[trigger] rest[j]@)) by {
                assert(rest[j] == tickers[j]);
            }
            assert(register.dom().contains(ticker_key(tickers[tickers.len() - 1]@)));
        }
    }
}

/// When every requested ticker is held, the selection has one record per
/// request, and the `i`-th is the record of the `i`-th requested ticker.
pub proof fn law_selection_of_held_tickers_follows_the_request<P>(register: Map<Seq<char>, StockRecord<P>>, tickers: Seq<String>)
    ensures
        (forall|j: int| 0 <= j < tickers.len() ==> register.dom().contains(ticker_key(#[trigger] tickers[j]@))) ==> {
            &&& selected(register, tickers).len() == tickers.len()
            &&& forall|i: int| 0 <= i < tickers.len() ==> #[trigger] selected(register, tickers)[i]
                == register[ticker_key(tickers[i]@)]
        },
    decreases tickers.len(),
{
    if tickers.len() > 0 && forall|j: int| 0 <= j < tickers.len() ==> register.dom().contains(ticker_key(#[trigger] tickers[j]@)) {
        let rest = tickers.drop_last();
        assert forall|j: int| 0 <= j < rest.len() implies register.dom().contains(ticker_key(#[trigger] rest[j]@)) by {
            assert(rest[j] == tickers[j]);
        }
        law_selection_of_held_tickers_follows_the_request(register, rest);
        assert(register.dom().contains(ticker_key(tickers[tickers.len() - 1]@)));
        let s = selected(register, tickers);
        assert forall|i: int| 0 <= i < tickers.len() implies #[trigger] s[i] == register[ticker_key(tickers[i]@)] by {
            if i < rest.len() {
                assert(rest[i] == tickers[i]);
            }
        }
    }
}

/// Selecting for one ticker gives its record when it is held, else nothing.
pub proof fn law_selection_of_one_ticker<P>(register: Map<Seq<char>, StockRecord<P>>, ticker: String)
    ensures
        register.dom().contains(ticker_key(ticker@)) ==> selected(register, seq![ticker]) == seq![register[ticker_key(ticker@)]],
        !register.dom().contains(ticker_key(ticker@)) ==> selected(register, seq![ticker]).len() == 0,
{
    let t = seq![ticker];
    assert(t.drop_last() =~= Seq::<String>::empty());
    assert(selected(register, t.drop_last()).len() == 0);
    assert(t.last() == ticker);
    if register.dom().contains(ticker_key(ticker@)) {
        assert(selected(register, t) =~= seq![register[ticker_key(ticker@)]]);
    }
}

/// Selecting for two requests one after the other gives the selection for the
/// first followed by the selection for the second: the order of the request is kept.
pub proof fn law_selection_keeps_the_request_order<P>(register: Map<Seq<char>, StockRecord<P>>, first: Seq<String>, second: Seq<String>)
    ensures
        selected(register, first + second) == selected(register, first) + selected(register, second),
    decreases second.len(),
{
    if second.len() == 0 {
        assert(first + second =~= first);
        assert(selected(register, second) =~= Seq::<StockRecord<P>>::empty());
        assert(selected(register, first) + selected(register, second) =~= selected(register, first));
    } else {
        let rest = second.drop_last();
        law_selection_keeps_the_request_order(register, first, rest);
        assert((first + second).drop_last() =~= first + rest);
        assert((first + second).last() == second.last());
        let k = ticker_key(second.last()@);
        if register.dom().contains(k) {
            assert(selected(register, first) + selected(register, rest).push(register[k])
                =~= (selected(register, first) + selected(register, rest)).push(register[k]));
        }
    }
}

/// The records of the requested tickers that the register holds, in the order
/// requested; tickers it does not hold are skipped.
pub fn select_stocks<'a, P>(register: &'a StocksRegister<P>, tickers: &Vec<String>) -> (r: Vec<&'a StockRecord<P>>)
    requires
        register.wf(),
    ensures
        r@.len() == selected(register@, tickers@).len(),
        forall|i: int| 0 <= i < r@.len() ==> *#[trigger] r@[i] == selected(register@, tickers@)[i],
        (forall|j: int| 0 <= j < tickers@.len() ==> register@.dom().contains(ticker_key(#[trigger] tickers@[j]@)))
            ==> r@.len() == tickers@.len() && forall|i: int| 0 <= i < r@.len()
            ==> *#[trigger] r@[i] == register@[ticker_key(tickers@[i]@)],
{
    proof {
        law_selection_of_held_tickers_follows_the_request(register@, tickers@);
    }
    let mut r: Vec<&'a StockRecord<P>> = Vec::new();
    let mut i: usize = 0;
    while i < tickers.len()
        invariant
            register.wf(),
            i <= tickers@.len(),
            r@.len() == selected(register@, tickers@.subrange(0, i as int)).len(),
            forall|j: int| 0 <= j < r@.len() ==> *#[trigger] r@[j] == selected(register@, tickers@.subrange(0, i as int))[j],
        decreases tickers@.len() - i,
    {
        let ghost before = tickers@.subrange(0, i as int);
        let ghost after = tickers@.subrange(0, i + 1);
        assert(after.drop_last() =~= before);
        assert(after.last() == tickers@[i as int]);
        if let Some(rec) = register.get(tickers[i].as_str()) {
            r.push(rec);
        }
        i = i + 1;
    }
    assert(tickers@.subrange(0, tickers@.len() as int) =~= tickers@);
    r
}

/// The answer to adding `ticker` to a session, given how its fetch ended
/// (`None` for success, else the error's text).
pub fn add_stock_outcome(ticker: &str, fetch_error: Option<&str>, session: &SessionContext) -> (r: StockOutcome)
    ensures
        match fetch_error {
            None => {
                &&& r.status == 200
                &&& r.message.message@ == "Successfully added "@ + ticker@
                &&& r.persist_for == session.user_id
            },
            Some(e) => {
                &&& r.status == 400
                &&& r.message.message@ == "Failed to add "@ + ticker@ + ": "@ + e@
                &&& r.persist_for is None
            },
        },
{
    match fetch_error {
        None => StockOutcome {
            status: 200,
            message: MessageResponse { message: concat2("Successfully added ", ticker) },
            persist_for: session.user_id.clone(),
        },
        Some(e) => StockOutcome {
            status: 400,
            message: MessageResponse { message: concat4("Failed to add ", ticker, ": ", e) },
            persist_for: None,
        },
    }
}

/// Drops `ticker` from a session's register and gives the answer.
pub fn delete_stock_outcome<P>(register: &mut StocksRegister<P>, ticker: &str, session: &SessionContext) -> (r: StockOutcome)
    requires
        old(register).wf(),
    ensures
        final(register).wf(),
        final(register)@ == old(register)@.remove(ticker_key(ticker@)),
        if old(register)@.dom().contains(ticker_key(ticker@)) {
            &&& r.status == 200
            &&& r.message.message@ == "Successfully deleted "@ + ticker@
            &&& r.persist_for == session.user_id
        } else {
            &&& r.status == 404
            &&& r.message.message@ == "Ticker "@ + ticker@ + " not found"@
            &&& r.persist_for is None
        },
{
    if register.remove(ticker) {
        StockOutcome {
            status: 200,
            message: MessageResponse { message: concat2("Successfully deleted ", ticker) },
            persist_for: session.user_id.clone(),
        }
    } else {
        StockOutcome {
            status: 404,
            message: MessageResponse { message: concat3("Ticker ", ticker, " not found") },
            persist_for: None,
        }
    }
}

/// The requested features that the register holds, each with its day offset,
/// in the order requested.
pub open spec fn found_features<P>(register: Map<Seq<char>, StockRecord<P>>, features: Seq<(String, i32)>) -> Seq<(StockRecord<P>, i32)>
    decreases features.len(),
{
    if features.len() == 0 {
        Seq::empty()
    } else {
        let rest = found_features(register, features.drop_last());
        let k = ticker_key(features.last().0@);
        if register.dom().contains(k) {
            rest.push((register[k], features.last().1))
        } else {
            rest
        }
    }
}

/// Every feature found can be moved back by its offset within `i64`.
pub open spec fn features_shift_fits<P>(found: Seq<(StockRecord<P>, i32)>) -> bool {
    forall|i: int| 0 <= i < found.len() ==> shift_fits(#[trigger] found[i].0.timestamps@, found[i].1)
}

proof fn lemma_found_step<P>(register: Map<Seq<char>, StockRecord<P>>, features: Seq<(String, i32)>, i: int)
    requires
        0 <= i < features.len(),
    ensures
        found_features(register, features.subrange(0, i + 1)) == if register.dom().contains(ticker_key(features[i].0@)) {
            found_features(register, features.subrange(0, i)).push((register[ticker_key(features[i].0@)], features[i].1))
        } else {
            found_features(register, features.subrange(0, i))
        },
{
    let a = features.subrange(0, i + 1);
    assert(a.drop_last() =~= features.subrange(0, i));
    assert(a.last() == features[i]);
}

proof fn lemma_found_prefix<P>(register: Map<Seq<char>, StockRecord<P>>, features: Seq<(String, i32)>, n: int)
    requires
        0 <= n <= features.len(),
    ensures
        found_features(register, features.subrange(0, n)).len() <= found_features(register, features).len(),
        forall|i: int| 0 <= i < found_features(register, features.subrange(0, n)).len()
            ==> #[trigger] found_features(register, features.subrange(0, n))[i] == found_features(register, features)[i],
    decreases features.len() - n,
{
    if n < features.len() {
        lemma_found_prefix(register, features, n + 1);
        lemma_found_step(register, features, n);
        let p = found_features(register, features.subrange(0, n));
        let q = found_features(register, features.subrange(0, n + 1));
        assert forall|i: int| 0 <= i < p.len() implies #[trigger] p[i] == found_features(register, features)[i] by {
            assert(q[i] == p[i]);
        }
    } else {
        assert(features.subrange(0, n) =~= features);
    }
}

/// Whether every requested feature that the register holds can be moved back
/// by its offset within `i64`.
pub fn prediction_shifts_fit<P>(register: &StocksRegister<P>, features: &Vec<(String, i32)>) -> (r: bool)
    requires
        register.wf(),
    ensures
        r == features_shift_fits(found_features(register@, features@)),
{
    let ghost all = found_features(register@, features@);
    let mut i: usize = 0;
    let ghost mut count: int = 0;
    while i < features.len()
        invariant
            register.wf(),
            i <= features@.len(),
            all == found_features(register@, features@),
            count == found_features(register@, features@.subrange(0, i as int)).len(),
            forall|j: int| 0 <= j < count ==> shift_fits(#[trigger] all[j].0.timestamps@, all[j].1),
        decreases features@.len() - i,
    {
        proof {
            lemma_found_prefix(register@, features@, i + 1);
            lemma_found_step(register@, features@, i as int);
        }
        if let Some(rec) = register.get(features[i].0.as_str()) {
            proof {
                let q = found_features(register@, features@.subrange(0, i + 1));
                assert(q[count] == (*rec, features@[i as int].1));
                assert(q[count] == all[count]);
            }
            if !shift_stays_in_range(&rec.timestamps, features[i].1) {
                assert(!shift_fits(all[count].0.timestamps@, all[count].1));
                return false;
            }
        }
        proof {
            count = found_features(register@, features@.subrange(0, i + 1)).len() as int;
        }
        i = i + 1;
    }
    assert(features@.subrange(0, features@.len() as int) =~= features@);
    true
}

/// The answer when the prediction's target is not in the register.
pub open spec fn target_missing_message(target: Seq<char>) -> Seq<char> {
    "Target ticker "@ + target + " not found"@
}

/// What gathering the prediction's series answers: 404 when the target is not
/// held, 400 when no feature is, else a copy of the target and the shifted
/// copies of the features found.
pub open spec fn is_prediction_inputs<P>(
    register: Map<Seq<char>, StockRecord<P>>,
    target: Seq<char>,
    features: Seq<(String, i32)>,
    r: Result<(StockRecord<P>, Vec<StockRecord<P>>), StockOutcome>,
) -> bool {
    if !register.dom().contains(ticker_key(target)) {
        r matches Err(o) && o.status == 404 && o.message.message@ == target_missing_message(target)
            && o.persist_for is None
    } else if found_features(register, features).len() == 0 {
        r matches Err(o) && o.status == 400 && o.message.message@ == "No valid training tickers provided"@
            && o.persist_for is None
    } else {
        r matches Ok((t, fs)) && {
            &&& same_record(t, register[ticker_key(target)])
            &&& fs@.len() == found_features(register, features).len()
            &&& forall|i: int| 0 <= i < fs@.len() ==> is_shifted(#[trigger] fs@[i],
                found_features(register, features)[i].0, found_features(register, features)[i].1)
        }
    }
}

/// The series a prediction is made from: a copy of the target's record and,
/// in the order requested, a copy of each requested feature that the register
/// holds, moved back by its day offset. Refused with 404 when the target is
/// not held (before any feature is looked at) and with 400 when no feature is.
pub fn prediction_inputs<P: Copy>(register: &StocksRegister<P>, target: &str, features: &Vec<(String, i32)>) -> (r: Result<(StockRecord<P>, Vec<StockRecord<P>>), StockOutcome>)
    requires
        register.wf(),
        register@.dom().contains(ticker_key(target@)) ==> features_shift_fits(found_features(register@, features@)),
    ensures
        is_prediction_inputs(register@, target@, features@, r),
{
    let target_stock = match register.get(target) {
        Some(s) => s.copied(),
        None => {
            return Err(StockOutcome {
                status: 404,
                message: MessageResponse { message: concat3("Target ticker ", target, " not found") },
                persist_for: None,
            });
        },
    };
    let ghost all = found_features(register@, features@);
    let mut shifted: Vec<StockRecord<P>> = Vec::new();
    let mut i: usize = 0;
    while i < features.len()
        invariant
            register.wf(),
            i <= features@.len(),
            all == found_features(register@, features@),
            features_shift_fits(all),
            shifted@.len() == found_features(register@, features@.subrange(0, i as int)).len(),
            shifted@.len() <= all.len(),
            forall|j: int| 0 <= j < shifted@.len() ==> is_shifted(#[trigger] shifted@[j], all[j].0, all[j].1),
        decreases features@.len() - i,
    {
        proof {
            lemma_found_prefix(register@, features@, i + 1);
            lemma_found_step(register@, features@, i as int);
        }
        if let Some(rec) = register.get(features[i].0.as_str()) {
            let ghost n = shifted@.len();
            proof {
                let q = found_features(register@, features@.subrange(0, i + 1));
                assert(q[n as int] == (*rec, features@[i as int].1));
                assert(q[n as int] == all[n as int]);
            }
            let mut stock = rec.copied();
            assert(shift_fits(all[n as int].0.timestamps@, all[n as int].1));
            shift_stock_dates(&mut stock, features[i].1);
            shifted.push(stock);
        }
        i = i + 1;
    }
    assert(features@.subrange(0, features@.len() as int) =~= features@);
    if shifted.len() == 0 {
        return Err(StockOutcome {
            status: 400,
            message: MessageResponse { message: "No valid training tickers provided".to_owned() },
            persist_for: None,
        });
    }
    Ok((target_stock, shifted))
}


/// The series a prediction is made from, checked first: `None` where the
/// target is held and moving some found feature back by its offset would leave
/// `i64` (the arithmetic overflows there), else the answer of `prediction_inputs`.
pub fn checked_prediction_inputs<P: Copy>(register: &StocksRegister<P>, target: &str, features: &Vec<(String, i32)>) -> (r: Option<Result<(StockRecord<P>, Vec<StockRecord<P>>), StockOutcome>>)
    requires
        register.wf(),
    ensures
        r is None <==> (register@.dom().contains(ticker_key(target@)) && !features_shift_fits(found_features(register@, features@))),
        r matches Some(x) ==> is_prediction_inputs(register@, target@, features@, x),
{
    if register.get(target).is_some() && !prediction_shifts_fit(register, features) {
        return None;
    }
    Some(prediction_inputs(register, target, features))
}

} // verus!
