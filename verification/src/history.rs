//! The history of completed runs: newest first, and never more than a fixed
//! number of entries.

use crate::models::HistoryEntry;
use crate::text::{contains, contains_chars, lowercase, lowercase_of, to_chars};
use std::collections::VecDeque;
use vstd::prelude::*;

verus! {

/// The most entries that the history keeps.
pub const MAX_HISTORY_SIZE: usize = 100;

// ---------------------------------------------------------------------------
// The history as a sequence, newest first
// ---------------------------------------------------------------------------

/// The history after an entry is added: the entry first, then the entries
/// there were, without the oldest where that would make more than 100.
pub open spec fn added(entries: Seq<HistoryEntry>, entry: HistoryEntry) -> Seq<HistoryEntry> {
    let all = seq![entry] + entries;
    if all.len() > 100 {
        all.drop_last()
    } else {
        all
    }
}

/// The history after the entries of `new` are added one by one, the first
/// of `new` first.
pub open spec fn added_all(entries: Seq<HistoryEntry>, new: Seq<HistoryEntry>) -> Seq<
    HistoryEntry,
>
    decreases new.len(),
{
    if new.len() == 0 {
        entries
    } else {
        added(added_all(entries, new.drop_last()), new.last())
    }
}

/// The window of `limit` entries that begins at `offset`, as far as there
/// are entries: nothing where `offset` is at or past the end.
pub open spec fn page(entries: Seq<HistoryEntry>, offset: int, limit: int) -> Seq<HistoryEntry> {
    if offset >= entries.len() {
        Seq::<HistoryEntry>::empty()
    } else if limit >= entries.len() - offset {
        entries.subrange(offset, entries.len() as int)
    } else {
        entries.subrange(offset, offset + limit)
    }
}

/// Whether an entry matches a query that is in lower case already: the query
/// stands in the lower-case form of the template's name, of the source
/// preview or of the result preview.
pub open spec fn entry_matches(entry: HistoryEntry, query: Seq<char>) -> bool {
    ||| contains(lowercase_of(entry.template_name@), query)
    ||| contains(lowercase_of(entry.source_preview@), query)
    ||| contains(lowercase_of(entry.result_preview@), query)
}

/// The entries that match the query without regard to case, in their order.
pub open spec fn searched(entries: Seq<HistoryEntry>, query: Seq<char>) -> Seq<HistoryEntry> {
    entries.filter(|e: HistoryEntry| entry_matches(e, lowercase_of(query)))
}

// ---------------------------------------------------------------------------
// The store
// ---------------------------------------------------------------------------

/// The history, kept in memory. It never holds more than 100 entries.
pub struct HistoryStore {
    entries: VecDeque<HistoryEntry>,
}

impl View for HistoryStore {
    type V = Seq<HistoryEntry>;

    closed spec fn view(&self) -> Seq<HistoryEntry> {
        self.entries@
    }
}

/// Whether the entry matches the query, which is in lower case already.
pub fn matches_query(entry: &HistoryEntry, query: &str) -> (b: bool)
    ensures
        b == entry_matches(*entry, query@),
{
    let q = to_chars(query);
    let name = to_chars(lowercase(entry.template_name.as_str()).as_str());
    if contains_chars(&name, &q) {
        return true;
    }
    let source = to_chars(lowercase(entry.source_preview.as_str()).as_str());
    if contains_chars(&source, &q) {
        return true;
    }
    let result = to_chars(lowercase(entry.result_preview.as_str()).as_str());
    contains_chars(&result, &q)
}

impl HistoryStore {
    #[verifier::type_invariant]
    spec fn inv(self) -> bool {
        self.entries@.len() <= 100
    }

    /// An empty history.
    pub fn new() -> (r: HistoryStore)
        ensures
            r@ == Seq::<HistoryEntry>::empty(),
    {
        HistoryStore { entries: VecDeque::with_capacity(MAX_HISTORY_SIZE) }
    }

    /// Adds an entry as the newest. Where the history is full, the oldest
    /// entry leaves.
    pub fn add_entry(&mut self, entry: HistoryEntry)
        ensures
            final(self)@ == added(old(self)@, entry),
            final(self)@.len() <= 100,
            final(self)@[0] == entry,
    {
        proof {
            use_type_invariant(&*self);
        }
        let mut entries: VecDeque<HistoryEntry> = VecDeque::new();
        std::mem::swap(&mut self.entries, &mut entries);
        let ghost before = entries@;
        entries.push_front(entry);
        if entries.len() > MAX_HISTORY_SIZE {
            entries.pop_back();
        }
        assert(entries@ =~= added(before, entry));
        self.entries = entries;
    }

    /// Every entry, newest first.
    pub fn get_all(&self) -> (r: Vec<HistoryEntry>)
        ensures
            r@ == self@,
    {
        let mut out: Vec<HistoryEntry> = Vec::new();
        let mut i: usize = 0;
        while i < self.entries.len()
            invariant
                i <= self.entries.len(),
                out@ == self.entries@.subrange(0, i as int),
            decreases self.entries.len() - i,
        {
            out.push(self.entries[i].clone());
            i += 1;
            assert(self.entries@.subrange(0, i as int) =~= self.entries@.subrange(0, i - 1).push(
                self.entries@[i - 1],
            ));
        }
        assert(self.entries@.subrange(0, self.entries.len() as int) =~= self.entries@);
        out
    }

    /// At most `limit` entries from the one at `offset` on, newest first.
    pub fn get_page(&self, offset: usize, limit: usize) -> (r: Vec<HistoryEntry>)
        ensures
            r@ == page(self@, offset as int, limit as int),
    {
        let n: usize = self.entries.len();
        let mut out: Vec<HistoryEntry> = Vec::new();
        if offset >= n {
            return out;
        }
        let end: usize = if limit >= n - offset {
            n
        } else {
            offset + limit
        };
        let mut i: usize = offset;
        while i < end
            invariant
                offset <= i <= end <= n,
                n == self.entries.len(),
                out@ == self.entries@.subrange(offset as int, i as int),
            decreases end - i,
        {
            out.push(self.entries[i].clone());
            i += 1;
            assert(self.entries@.subrange(offset as int, i as int) =~= self.entries@.subrange(
                offset as int,
                i - 1,
            ).push(self.entries@[i - 1]));
        }
        out
    }

    /// Empties the history.
    pub fn clear(&mut self)
        ensures
            final(self)@ == Seq::<HistoryEntry>::empty(),
    {
        self.entries = VecDeque::new();
    }

    /// The number of entries.
    pub fn count(&self) -> (n: usize)
        ensures
            n == self@.len(),
            n <= 100,
    {
        proof {
            use_type_invariant(self);
        }
        self.entries.len()
    }

    /// The entries that match the query without regard to case, newest first.
    pub fn search(&self, query: &str) -> (r: Vec<HistoryEntry>)
        ensures
            r@ == searched(self@, query@),
    {
        let query_lower = lowercase(query);
        let ghost wanted = |e: HistoryEntry| entry_matches(e, lowercase_of(query@));
        let ghost all = self.entries@;
        let mut out: Vec<HistoryEntry> = Vec::new();
        let mut i: usize = 0;
        proof {
            reveal(Seq::filter);
            assert(all.subrange(0, 0) =~= Seq::<HistoryEntry>::empty());
        }
        while i < self.entries.len()
            invariant
                i <= self.entries.len(),
                all == self.entries@,
                query_lower@ == lowercase_of(query@),
                wanted == (|e: HistoryEntry| entry_matches(e, lowercase_of(query@))),
                out@ == all.subrange(0, i as int).filter(wanted),
            decreases self.entries.len() - i,
        {
            proof {
                reveal(Seq::filter);
                assert(all.subrange(0, i + 1).drop_last() =~= all.subrange(0, i as int));
            }
            if matches_query(&self.entries[i], query_lower.as_str()) {
                out.push(self.entries[i].clone());
            }
            i += 1;
        }
        assert(all.subrange(0, all.len() as int) =~= all);
        out
    }
}

impl Default for HistoryStore {
    fn default() -> (r: HistoryStore)
        ensures
            r@ == Seq::<HistoryEntry>::empty(),
    {
        HistoryStore::new()
    }
}

// ---------------------------------------------------------------------------
// Laws
// ---------------------------------------------------------------------------

/// What the history holds once the entries of `new` have been added to
/// `entries`: those of `new`, the last added first, then those of `entries`;
/// of all these the first 100.
pub open spec fn newest_first(entries: Seq<HistoryEntry>, new: Seq<HistoryEntry>) -> Seq<
    HistoryEntry,
> {
    let all = new.reverse() + entries;
    if all.len() > 100 {
        all.subrange(0, 100)
    } else {
        all
    }
}

/// Adding an entry to a history of at most 100 entries gives a history of at
/// most 100 entries, with the new entry first.
pub proof fn lemma_added_is_bounded(entries: Seq<HistoryEntry>, entry: HistoryEntry)
    requires
        entries.len() <= 100,
    ensures
        added(entries, entry).len() <= 100,
        added(entries, entry)[0] == entry,
        added(entries, entry).len() == if entries.len() == 100 {
            100
        } else {
            entries.len() + 1
        },
{
}

/// Adding entries one by one keeps the newest 100, newest first: the entries
/// added, the last one first, followed by the older ones.
pub proof fn lemma_added_all(entries: Seq<HistoryEntry>, new: Seq<HistoryEntry>)
    requires
        entries.len() <= 100,
    ensures
        added_all(entries, new) == newest_first(entries, new),
        added_all(entries, new).len() <= 100,
    decreases new.len(),
{
    if new.len() == 0 {
        assert(new.reverse() + entries =~= entries);
    } else {
        let front = new.drop_last();
        lemma_added_all(entries, front);
        let older = front.reverse() + entries;
        let all = new.reverse() + entries;
        assert(new.reverse() =~= seq![new.last()] + front.reverse());
        assert(all =~= seq![new.last()] + older);
        assert(added(newest_first(entries, front), new.last()) =~= newest_first(entries, new));
    }
}

/// After 101 distinct entries are added to an empty history, it holds 100 of
/// them, the last added first, and the first added is gone.
pub proof fn lemma_oldest_leaves(new: Seq<HistoryEntry>)
    requires
        new.len() == 101,
        new.no_duplicates(),
    ensures
        ({
            let history = added_all(Seq::<HistoryEntry>::empty(), new);
            &&& history.len() == 100
            &&& !history.contains(new[0])
            &&& forall|i: int| 0 <= i < 100 ==> history[i] == new[100 - i]
        }),
{
    lemma_added_all(Seq::<HistoryEntry>::empty(), new);
    let history = added_all(Seq::<HistoryEntry>::empty(), new);
    assert(new.reverse() + Seq::<HistoryEntry>::empty() =~= new.reverse());
    assert forall|i: int| 0 <= i < 100 implies history[i] == new[100 - i] by {}
    if history.contains(new[0]) {
        let i = choose|i: int| 0 <= i < history.len() && history[i] == new[0];
        assert(history[i] == new[100 - i]);
    }
}

/// A page is the window of the whole history that begins at `offset` and has
/// `limit` entries, or as many as are left; it is empty where `offset` is at
/// or past the end.
pub proof fn lemma_page_is_window(entries: Seq<HistoryEntry>, offset: int, limit: int)
    requires
        0 <= offset,
        0 <= limit,
    ensures
        offset >= entries.len() ==> page(entries, offset, limit) == Seq::<HistoryEntry>::empty(),
        page(entries, offset, limit).len() == if offset >= entries.len() {
            0
        } else if limit >= entries.len() - offset {
            entries.len() - offset
        } else {
            limit
        },
        forall|i: int|
            0 <= i < page(entries, offset, limit).len() ==> page(entries, offset, limit)[i]
                == entries[offset + i],
{
}

/// Two tests that agree on every entry select the same entries.
proof fn lemma_filter_agrees(
    entries: Seq<HistoryEntry>,
    f: spec_fn(HistoryEntry) -> bool,
    g: spec_fn(HistoryEntry) -> bool,
)
    requires
        forall|e: HistoryEntry| #[trigger] f(e) == g(e),
    ensures
        entries.filter(f) == entries.filter(g),
    decreases entries.len(),
{
    reveal(Seq::filter);
    if entries.len() > 0 {
        lemma_filter_agrees(entries.drop_last(), f, g);
    }
}

/// A search does not tell case apart: two queries with the same lower-case
/// form find the same entries.
pub proof fn lemma_search_ignores_case(
    entries: Seq<HistoryEntry>,
    query: Seq<char>,
    other: Seq<char>,
)
    requires
        lowercase_of(query) == lowercase_of(other),
    ensures
        searched(entries, query) == searched(entries, other),
{
    lemma_filter_agrees(
        entries,
        |e: HistoryEntry| entry_matches(e, lowercase_of(query)),
        |e: HistoryEntry| entry_matches(e, lowercase_of(other)),
    );
}

/// A search finds the matching entries and no others: what it returns
/// matches and is in the history, and every matching entry of the history is
/// returned. A query that no entry matches finds nothing.
pub proof fn lemma_search_finds_matches(entries: Seq<HistoryEntry>, query: Seq<char>)
    ensures
        forall|i: int|
            0 <= i < searched(entries, query).len() ==> entry_matches(
                #[trigger] searched(entries, query)[i],
                lowercase_of(query),
            ) && entries.contains(searched(entries, query)[i]),
        forall|i: int|
            0 <= i < entries.len() && entry_matches(entries[i], lowercase_of(query))
                ==> searched(entries, query).contains(#[trigger] entries[i]),
        (forall|i: int| 0 <= i < entries.len() ==> !entry_matches(entries[i], lowercase_of(query)))
            ==> searched(entries, query) == Seq::<HistoryEntry>::empty(),
{
    let wanted = |e: HistoryEntry| entry_matches(e, lowercase_of(query));
    let found = entries.filter(wanted);
    broadcast use vstd::seq_lib::group_filter_ensures;
    assert forall|i: int| 0 <= i < found.len() implies entry_matches(
        #[trigger] found[i],
        lowercase_of(query),
    ) && entries.contains(found[i]) by {
        entries.lemma_filter_pred(wanted, i);
        entries.lemma_filter_contains_rev(wanted, found[i]);
    }
    assert forall|i: int|
        0 <= i < entries.len() && entry_matches(
            entries[i],
            lowercase_of(query),
        ) implies found.contains(#[trigger] entries[i]) by {
        entries.lemma_filter_contains(wanted, i);
    }
    if forall|i: int| 0 <= i < entries.len() ==> !entry_matches(entries[i], lowercase_of(query)) {
        if found.len() > 0 {
            entries.lemma_filter_pred(wanted, 0);
            entries.lemma_filter_contains_rev(wanted, found[0]);
            let j = choose|j: int| 0 <= j < entries.len() && entries[j] == found[0];
            assert(!entry_matches(entries[j], lowercase_of(query)));
        }
        assert(found =~= Seq::<HistoryEntry>::empty());
    }
}

} // verus!
