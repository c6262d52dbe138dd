//! The stock register of one session: price series keyed by upper-cased ticker.
//!
//! Prices are a type parameter: the register stores and hands them out but
//! never computes with them.

use vstd::prelude::*;

use crate::table::Table;
use crate::text::{to_uppercase, unicode_uppercase};

verus! {

/// The price history of one ticker: one timestamp and one price of each kind per quote.
#[derive(Debug, Clone)]
pub struct StockRecord<P> {
    pub ticker: String,
    pub timestamps: Vec<i64>,
    pub close_prices: Vec<P>,
    pub open_prices: Vec<P>,
    pub high_prices: Vec<P>,
    pub low_prices: Vec<P>,
}

/// Whether two records hold the same ticker and the same series.
pub open spec fn same_record<P>(a: StockRecord<P>, b: StockRecord<P>) -> bool {
    &&& a.ticker@ == b.ticker@
    &&& a.timestamps@ == b.timestamps@
    &&& a.close_prices@ == b.close_prices@
    &&& a.open_prices@ == b.open_prices@
    &&& a.high_prices@ == b.high_prices@
    &&& a.low_prices@ == b.low_prices@
}

/// Copies the elements of a vector one by one.
pub fn copy_vec<T: Copy>(v: &Vec<T>) -> (r: Vec<T>)
    ensures
        r@ == v@,
{
    let mut r: Vec<T> = Vec::new();
    let mut i: usize = 0;
    while i < v.len()
        invariant
            i <= v@.len(),
            r@ == v@.subrange(0, i as int),
        decreases v@.len() - i,
    {
        r.push(v[i]);
        i = i + 1;
        assert(r@ =~= v@.subrange(0, i as int));
    }
    assert(v@.subrange(0, v@.len() as int) =~= v@);
    r
}

impl<P: Copy> StockRecord<P> {
    /// A copy of the record with the same ticker and series.
    pub fn copied(&self) -> (r: Self)
        ensures
            same_record(r, *self),
    {
        StockRecord {
            ticker: self.ticker.clone(),
            timestamps: copy_vec(&self.timestamps),
            close_prices: copy_vec(&self.close_prices),
            open_prices: copy_vec(&self.open_prices),
            high_prices: copy_vec(&self.high_prices),
            low_prices: copy_vec(&self.low_prices),
        }
    }
}

/// The key under which a ticker is kept: its upper-case form.
pub open spec fn ticker_key(ticker: Seq<char>) -> Seq<char> {
    unicode_uppercase(ticker)
}

/// The stock records of one session.
pub struct StocksRegister<P> {
    stocks: Table<StockRecord<P>>,
}

impl<P> View for StocksRegister<P> {
    type V = Map<Seq<char>, StockRecord<P>>;

    closed spec fn view(&self) -> Map<Seq<char>, StockRecord<P>> {
        self.stocks@
    }
}

impl<P> StocksRegister<P> {
    /// The register's table is well formed.
    pub closed spec fn wf(&self) -> bool {
        self.stocks.wf()
    }

    /// The register holds finitely many tickers.
    pub proof fn lemma_finite(&self)
        requires
            self.wf(),
        ensures
            self@.dom().finite(),
    {
        self.stocks.lemma_finite();
    }

    /// An empty register.
    pub fn new() -> (r: Self)
        ensures
            r.wf(),
            r@ == Map::<Seq<char>, StockRecord<P>>::empty(),
    {
        StocksRegister { stocks: Table::new() }
    }

    /// Stores the quotes fetched for `ticker` under its upper-case form,
    /// replacing what was kept for it.
    pub fn record_quotes(
        &mut self,
        ticker: &str,
        timestamps: Vec<i64>,
        close_prices: Vec<P>,
        open_prices: Vec<P>,
        high_prices: Vec<P>,
        low_prices: Vec<P>,
    )
        requires
            old(self).wf(),
        ensures
            final(self).wf(),
            final(self)@.dom() == old(self)@.dom().insert(ticker_key(ticker@)),
            forall|k: Seq<char>| k != ticker_key(ticker@) && #[trigger] old(self)@.dom().contains(k)
                ==> final(self)@[k] == old(self)@[k],
            final(self)@[ticker_key(ticker@)].ticker@ == ticker_key(ticker@),
            final(self)@[ticker_key(ticker@)].timestamps == timestamps,
            final(self)@[ticker_key(ticker@)].close_prices == close_prices,
            final(self)@[ticker_key(ticker@)].open_prices == open_prices,
            final(self)@[ticker_key(ticker@)].high_prices == high_prices,
            final(self)@[ticker_key(ticker@)].low_prices == low_prices,
    {
        let key = to_uppercase(ticker);
        let record = StockRecord {
            ticker: key.clone(),
            timestamps,
            close_prices,
            open_prices,
            high_prices,
            low_prices,
        };
        let _ = self.stocks.insert(key, record);
    }

    /// Stores a record under the upper-case form of its ticker, replacing what
    /// was kept there.
    pub fn insert(&mut self, record: StockRecord<P>) -> (replaced: bool)
        requires
            old(self).wf(),
        ensures
            final(self).wf(),
            final(self)@ == old(self)@.insert(ticker_key(record.ticker@), record),
            replaced == old(self)@.dom().contains(ticker_key(record.ticker@)),
    {
        let key = to_uppercase(record.ticker.as_str());
        self.stocks.insert(key, record).is_some()
    }

    /// The record kept for `ticker`, looked up by its upper-case form.
    pub fn get(&self, ticker: &str) -> (r: Option<&StockRecord<P>>)
        requires
            self.wf(),
        ensures
            match r {
                Some(rec) => self@.dom().contains(ticker_key(ticker@)) && *rec == self@[ticker_key(ticker@)],
                None => !self@.dom().contains(ticker_key(ticker@)),
            },
    {
        let key = to_uppercase(ticker);
        self.stocks.get(&key)
    }

    /// All records, one for each ticker.
    pub fn all(&self) -> (r: Vec<&StockRecord<P>>)
        requires
            self.wf(),
        ensures
            r@.len() == self@.dom().len(),
            forall|i: int| 0 <= i < r@.len() ==> self@.contains_value(*#[trigger] r@[i]),
            forall|k: Seq<char>| #[trigger] self@.dom().contains(k) ==> exists|i: int| 0 <= i < r@.len() && *r@[i] == self@[k],
    {
        self.stocks.values()
    }

    /// The keys of the register, each once.
    pub fn tickers(&self) -> (r: Vec<String>)
        requires
            self.wf(),
        ensures
            r@.len() == self@.dom().len(),
            forall|i: int| 0 <= i < r@.len() ==> self@.dom().contains(#[trigger] r@[i]@),
            forall|k: Seq<char>| #[trigger] self@.dom().contains(k) ==> exists|i: int| 0 <= i < r@.len() && r@[i]@ == k,
            forall|i: int, j: int| 0 <= i < r@.len() && 0 <= j < r@.len() && i != j ==> #[trigger] r@[i]@ != #[trigger] r@[j]@,
    {
        self.stocks.keys()
    }

    /// Forgets the record of `ticker` (by its upper-case form); tells whether there was one.
    pub fn remove(&mut self, ticker: &str) -> (removed: bool)
        requires
            old(self).wf(),
        ensures
            final(self).wf(),
            final(self)@ == old(self)@.remove(ticker_key(ticker@)),
            removed == old(self)@.dom().contains(ticker_key(ticker@)),
    {
        let key = to_uppercase(ticker);
        self.stocks.remove(&key).is_some()
    }

    /// The number of tickers kept.
    pub fn len(&self) -> (n: usize)
        requires
            self.wf(),
        ensures
            n == self@.dom().len(),
    {
        self.stocks.len()
    }
}


/// After quotes are stored for a ticker, every spelling of that ticker with
/// the same upper-case form finds them, and every other ticker finds what it
/// found before.
pub proof fn law_lookup_after_record<P>(
    before: Map<Seq<char>, StockRecord<P>>,
    after: Map<Seq<char>, StockRecord<P>>,
    ticker: Seq<char>,
    stored: StockRecord<P>,
    asked: Seq<char>,
)
    requires
        after == before.insert(ticker_key(ticker), stored),
    ensures
        ticker_key(asked) == ticker_key(ticker) ==> after.dom().contains(ticker_key(asked)) && after[ticker_key(asked)]
            == stored,
        ticker_key(asked) != ticker_key(ticker) ==> (after.dom().contains(ticker_key(asked)) <==> before.dom().contains(
            ticker_key(asked),
        )),
        ticker_key(asked) != ticker_key(ticker) && before.dom().contains(ticker_key(asked)) ==> after[ticker_key(asked)]
            == before[ticker_key(asked)],
{
}

/// After a ticker is removed, no spelling of it with the same upper-case form
/// finds anything, and every other ticker finds what it found before.
pub proof fn law_lookup_after_remove<P>(
    before: Map<Seq<char>, StockRecord<P>>,
    after: Map<Seq<char>, StockRecord<P>>,
    ticker: Seq<char>,
    asked: Seq<char>,
)
    requires
        after == before.remove(ticker_key(ticker)),
    ensures
        ticker_key(asked) == ticker_key(ticker) ==> !after.dom().contains(ticker_key(asked)),
        ticker_key(asked) != ticker_key(ticker) ==> (after.dom().contains(ticker_key(asked)) <==> before.dom().contains(
            ticker_key(asked),
        )),
        ticker_key(asked) != ticker_key(ticker) && before.dom().contains(ticker_key(asked)) ==> after[ticker_key(asked)]
            == before[ticker_key(asked)],
{
}

} // verus!
