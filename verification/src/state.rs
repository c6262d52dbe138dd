//! The server's sessions: one stock register per session, created on first
//! use and seeded with a fixed list of tickers.

use vstd::prelude::*;

use crate::table::Table;

verus! {

/// A ticker that a new session is seeded with.
#[derive(Debug, Clone)]
pub struct DefaultTicker {
    pub symbol: String,
    pub interval: String,
    pub range: String,
}

/// The symbols a new session is seeded with, in order.
pub open spec fn default_symbols() -> Seq<Seq<char>> {
    seq!["AAPL"@, "TSLA"@, "AMZN"@, "NVDA"@, "META"@, "MSFT"@, "GOOGL"@]
}

fn default_ticker(symbol: &str) -> (t: DefaultTicker)
    ensures
        t.symbol@ == symbol@,
        t.interval@ == "1d"@,
        t.range@ == "3mo"@,
{
    DefaultTicker { symbol: symbol.to_owned(), interval: "1d".to_owned(), range: "3mo".to_owned() }
}

/// The tickers a new session is seeded with: seven symbols, each with daily
/// quotes over three months.
pub fn default_tickers() -> (r: Vec<DefaultTicker>)
    ensures
        r@.len() == default_symbols().len(),
        forall|i: int| 0 <= i < r@.len() ==> {
            &&& #[trigger] r@[i].symbol@ == default_symbols()[i]
            &&& r@[i].interval@ == "1d"@
            &&& r@[i].range@ == "3mo"@
        },
{
    let mut r: Vec<DefaultTicker> = Vec::new();
    r.push(default_ticker("AAPL"));
    r.push(default_ticker("TSLA"));
    r.push(default_ticker("AMZN"));
    r.push(default_ticker("NVDA"));
    r.push(default_ticker("META"));
    r.push(default_ticker("MSFT"));
    r.push(default_ticker("GOOGL"));
    r
}

/// The sessions of the server, each with its register handle `V`, keyed by session id.
pub struct Sessions<V> {
    table: Table<V>,
}

impl<V> View for Sessions<V> {
    type V = Map<Seq<char>, V>;

    closed spec fn view(&self) -> Map<Seq<char>, V> {
        self.table@
    }
}

impl<V> Sessions<V> {
    /// The session table is well formed.
    pub closed spec fn wf(&self) -> bool {
        self.table.wf()
    }

    /// No sessions.
    pub fn new() -> (s: Self)
        ensures
            s.wf(),
            s@ == Map::<Seq<char>, V>::empty(),
    {
        Sessions { table: Table::new() }
    }

    /// The register handle of a session.
    pub fn get(&self, session_id: &String) -> (r: Option<&V>)
        requires
            self.wf(),
        ensures
            match r {
                Some(v) => self@.dom().contains(session_id@) && *v == self@[session_id@],
                None => !self@.dom().contains(session_id@),
            },
    {
        self.table.get(session_id)
    }

    /// Makes sure the session exists: an existing session keeps its register,
    /// a new one gets `fresh`. Tells whether the session was created (and so
    /// is to be seeded).
    pub fn get_or_insert(&mut self, session_id: &String, fresh: V) -> (created: bool)
        requires
            old(self).wf(),
        ensures
            final(self).wf(),
            created == !old(self)@.dom().contains(session_id@),
            final(self)@ == if created { old(self)@.insert(session_id@, fresh) } else { old(self)@ },
    {
        if self.table.contains_key(session_id) {
            false
        } else {
            let _ = self.table.insert(session_id.clone(), fresh);
            true
        }
    }

    /// Ends a session.
    pub fn remove(&mut self, session_id: &String) -> (r: Option<V>)
        requires
            old(self).wf(),
        ensures
            final(self).wf(),
            final(self)@ == old(self)@.remove(session_id@),
            match r {
                Some(v) => old(self)@.dom().contains(session_id@) && v == old(self)@[session_id@],
                None => !old(self)@.dom().contains(session_id@),
            },
    {
        self.table.remove(session_id)
    }

    /// Hands the register of session `from` over to session `to` (a guest
    /// who registers keeps the tickers of the guest session). Nothing changes
    /// where `from` does not exist.
    pub fn hand_over(&mut self, from: &String, to: String) -> (moved: bool)
        requires
            old(self).wf(),
        ensures
            final(self).wf(),
            moved == old(self)@.dom().contains(from@),
            final(self)@ == if moved {
                old(self)@.remove(from@).insert(to@, old(self)@[from@])
            } else {
                old(self)@
            },
    {
        match self.table.remove(from) {
            Some(register) => {
                let _ = self.table.insert(to, register);
                true
            },
            None => false,
        }
    }
}

/// After a hand-over the new session has the register that the old one had,
/// the old session is gone (when the two differ), and every other session is
/// untouched.
pub proof fn law_hand_over_moves_the_register<V>(before: Map<Seq<char>, V>, after: Map<Seq<char>, V>, from: Seq<char>, to: Seq<char>)
    requires
        before.dom().contains(from),
        after == before.remove(from).insert(to, before[from]),
    ensures
        after.dom().contains(to),
        after[to] == before[from],
        from != to ==> !after.dom().contains(from),
        forall|k: Seq<char>| k != from && k != to ==> (#[trigger] after.dom().contains(k) <==> before.dom().contains(k)),
        forall|k: Seq<char>| k != from && k != to && before.dom().contains(k) ==> #[trigger] after[k] == before[k],
{
}

/// Two sessions opened one after the other each keep the register they were
/// opened with: neither sees the other's.
pub proof fn law_sessions_keep_their_own_register<V>(
    s0: Map<Seq<char>, V>,
    s1: Map<Seq<char>, V>,
    s2: Map<Seq<char>, V>,
    a: Seq<char>,
    b: Seq<char>,
    fresh_a: V,
    fresh_b: V,
)
    requires
        a != b,
        !s0.dom().contains(a),
        !s0.dom().contains(b),
        s1 == s0.insert(a, fresh_a),
        s2 == s1.insert(b, fresh_b),
    ensures
        s2.dom().contains(a) && s2[a] == fresh_a,
        s2.dom().contains(b) && s2[b] == fresh_b,
{
}

/// Asking twice for the same session creates it at most once: the second
/// request finds it and leaves the sessions as they were.
pub proof fn law_get_or_insert_is_idempotent<V>(
    s0: Map<Seq<char>, V>,
    s1: Map<Seq<char>, V>,
    s2: Map<Seq<char>, V>,
    id: Seq<char>,
    fresh1: V,
    fresh2: V,
    created1: bool,
    created2: bool,
)
    requires
        created1 == !s0.dom().contains(id),
        s1 == if created1 { s0.insert(id, fresh1) } else { s0 },
        created2 == !s1.dom().contains(id),
        s2 == if created2 { s1.insert(id, fresh2) } else { s1 },
    ensures
        !created2,
        s2 == s1,
        s2[id] == if created1 { fresh1 } else { s0[id] },
{
}

} // verus!
