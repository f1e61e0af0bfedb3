//! The table of invocations that await their response.
//!
//! Each entry pairs a correlation token with the sink that will take the
//! response. An entry is added when an invocation arrives and removed, at
//! most once, when the host supplies the response. An invocation that is
//! never answered stays in the table.

use std::collections::HashMap;
use vstd::prelude::*;

verus! {

broadcast use vstd::std_specs::hash::group_hash_axioms;

/// The table, keyed by token. `S` is the type of the response sinks.
pub struct PendingCallTable<S> {
    calls: HashMap<u128, S>,
}

impl<S> View for PendingCallTable<S> {
    type V = Map<u128, S>;

    closed spec fn view(&self) -> Map<u128, S> {
        self.calls@
    }
}

impl<S> PendingCallTable<S> {
    /// A table with no entries.
    pub fn new() -> (table: Self)
        ensures
            table@ == Map::<u128, S>::empty(),
    {
        PendingCallTable { calls: HashMap::new() }
    }

    /// The number of invocations that await a response.
    pub fn len(&self) -> (count: usize)
        ensures
            count == self@.len(),
            self@.dom().finite(),
    {
        self.calls.len()
    }

    /// Whether an invocation with this token awaits a response.
    pub fn is_pending(&self, token: u128) -> (pending: bool)
        ensures
            pending == self@.contains_key(token),
    {
        self.calls.contains_key(&token)
    }

    /// Records that `sink` awaits the response to `token`. An entry that
    /// held the same token is replaced, and its sink comes back.
    pub fn insert(&mut self, token: u128, sink: S) -> (displaced: Option<S>)
        ensures
            final(self)@ == old(self)@.insert(token, sink),
            match displaced {
                Some(earlier) => old(self)@.contains_key(token) && earlier == old(self)@[token],
                None => !old(self)@.contains_key(token),
            },
    {
        self.calls.insert(token, sink)
    }

    /// Removes the entry for `token` and hands out its sink. Without such
    /// an entry the table is left as it is.
    pub fn take(&mut self, token: u128) -> (sink: Option<S>)
        ensures
            match sink {
                Some(found) => old(self)@.contains_key(token) && found == old(self)@[token],
                None => !old(self)@.contains_key(token),
            },
            final(self)@ == old(self)@.remove(token),
    {
        self.calls.remove(&token)
    }
}

/// An invocation under a token that is not in use adds exactly one entry,
/// and every entry that was there is there unchanged.
pub proof fn lemma_insert_adds_one<S>(table: Map<u128, S>, token: u128, sink: S)
    requires
        table.dom().finite(),
        !table.contains_key(token),
    ensures
        table.insert(token, sink).len() == table.len() + 1,
        table.insert(token, sink).contains_key(token),
        forall|other: u128|
            other != token ==> (table.insert(token, sink).contains_key(other)
                == table.contains_key(other)),
        forall|other: u128|
            table.contains_key(other) ==> table.insert(token, sink)[other] == table[other],
{
}

/// Resolving a token that is pending removes exactly one entry, its own,
/// and every other entry is there unchanged. Resolving a token that is not
/// pending changes nothing.
pub proof fn lemma_take_removes_one<S>(table: Map<u128, S>, token: u128)
    requires
        table.dom().finite(),
    ensures
        table.contains_key(token) ==> table.remove(token).len() == table.len() - 1,
        !table.contains_key(token) ==> table.remove(token) == table,
        !table.remove(token).contains_key(token),
        forall|other: u128|
            other != token ==> (table.remove(token).contains_key(other) == table.contains_key(
                other,
            )),
        forall|other: u128|
            other != token && table.contains_key(other) ==> table.remove(token)[other]
                == table[other],
{
    if !table.contains_key(token) {
        assert(table.remove(token) =~= table);
    }
}

/// Invocations under tokens that are pairwise different all stay in the
/// table: after as many insertions as there are tokens, the table that was
/// empty holds that many entries, one for each token.
pub proof fn lemma_distinct_tokens_all_pending<S>(tokens: Seq<u128>, sinks: Seq<S>)
    requires
        tokens.len() == sinks.len(),
        tokens.no_duplicates(),
    ensures
        inserted_all(tokens, sinks).dom().finite(),
        inserted_all(tokens, sinks).len() == tokens.len(),
        forall|i: int|
            0 <= i < tokens.len() ==> inserted_all(tokens, sinks).contains_key(#[trigger] tokens[i])
                && inserted_all(tokens, sinks)[tokens[i]] == sinks[i],
        forall|token: u128|
            inserted_all(tokens, sinks).contains_key(token) ==> tokens.contains(token),
    decreases tokens.len(),
{
    if tokens.len() > 0 {
        let head = tokens.drop_last();
        let head_sinks = sinks.drop_last();
        lemma_distinct_tokens_all_pending(head, head_sinks);
        let before = inserted_all(head, head_sinks);
        assert(!before.contains_key(tokens.last())) by {
            if before.contains_key(tokens.last()) {
                assert(head.contains(tokens.last()));
                let j = choose|j: int| 0 <= j < head.len() && head[j] == tokens.last();
                assert(tokens[j] == tokens[tokens.len() - 1]);
            }
        }
        lemma_insert_adds_one(before, tokens.last(), sinks.last());
        assert forall|i: int| 0 <= i < tokens.len() implies inserted_all(
            tokens,
            sinks,
        ).contains_key(#[trigger] tokens[i]) && inserted_all(tokens, sinks)[tokens[i]]
            == sinks[i] by {
            if i < tokens.len() - 1 {
                assert(head[i] == tokens[i]);
                assert(head_sinks[i] == sinks[i]);
                assert(before.contains_key(head[i]) && before[head[i]] == head_sinks[i]);
                assert(tokens[i] != tokens.last());
            }
        }
        assert forall|token: u128|
            inserted_all(tokens, sinks).contains_key(token) implies tokens.contains(token) by {
            if token == tokens.last() {
                assert(tokens[tokens.len() - 1] == token);
            } else {
                assert(head.contains(token));
                let j = choose|j: int| 0 <= j < head.len() && head[j] == token;
                assert(tokens[j] == token);
            }
        }
    }
}

/// The table after invocations under `tokens`, oldest first, each with the
/// sink at the same position, starting from an empty table.
pub open spec fn inserted_all<S>(tokens: Seq<u128>, sinks: Seq<S>) -> Map<u128, S>
    decreases tokens.len(),
{
    if tokens.len() == 0 {
        Map::empty()
    } else {
        inserted_all(tokens.drop_last(), sinks.drop_last()).insert(tokens.last(), sinks.last())
    }
}

} // verus!
