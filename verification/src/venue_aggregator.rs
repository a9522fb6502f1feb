//! The latest quote of every venue, merged into one view.

use vstd::prelude::*;
use crate::quote::{copy_quotes, quote_views, Quote, QuoteView, Snapshot};

verus! {

/// No two entries have the same venue.
pub open spec fn distinct_venues(entries: Seq<QuoteView>) -> bool {
    forall|i: int, j: int|
        0 <= i < j < entries.len() ==> (#[trigger] entries[i]).venue != (#[trigger] entries[j]).venue
}

/// Some entry is of `venue`.
pub open spec fn holds_venue(entries: Seq<QuoteView>, venue: Seq<char>) -> bool {
    exists|i: int| 0 <= i < entries.len() && (#[trigger] entries[i]).venue == venue
}

/// The place of an entry of `venue`, where there is one.
pub open spec fn position(entries: Seq<QuoteView>, venue: Seq<char>) -> int {
    choose|i: int| 0 <= i < entries.len() && (#[trigger] entries[i]).venue == venue
}

/// The entry of `venue`, where there is one.
pub open spec fn latest(entries: Seq<QuoteView>, venue: Seq<char>) -> Option<QuoteView> {
    if holds_venue(entries, venue) {
        Some(entries[position(entries, venue)])
    } else {
        None
    }
}

/// The entries after `quote` came in: it takes the place of the entry of its
/// venue, or the end where its venue has none yet.
pub open spec fn merged(entries: Seq<QuoteView>, quote: QuoteView) -> Seq<QuoteView> {
    if holds_venue(entries, quote.venue) {
        entries.update(position(entries, quote.venue), quote)
    } else {
        entries.push(quote)
    }
}

/// Among entries of distinct venues, a venue's entry has one place only.
pub proof fn lemma_position_unique(entries: Seq<QuoteView>, venue: Seq<char>, i: int)
    requires
        distinct_venues(entries),
        0 <= i < entries.len(),
        entries[i].venue == venue,
    ensures
        holds_venue(entries, venue),
        position(entries, venue) == i,
{
    let p = position(entries, venue);
    if p < i {
        assert(entries[p].venue != entries[i].venue);
    } else if i < p {
        assert(entries[i].venue != entries[p].venue);
    }
}

/// Merging a quote keeps the venues distinct, and changes the number of
/// entries only where the venue is new: there is one entry for every venue
/// heard so far.
pub proof fn lemma_merged_distinct(entries: Seq<QuoteView>, quote: QuoteView)
    requires
        distinct_venues(entries),
    ensures
        distinct_venues(merged(entries, quote)),
        merged(entries, quote).len() == entries.len() + if holds_venue(entries, quote.venue) {
            0int
        } else {
            1int
        },
{
    let after = merged(entries, quote);
    if holds_venue(entries, quote.venue) {
        let p = position(entries, quote.venue);
        assert forall|i: int, j: int| 0 <= i < j < after.len() implies (#[trigger] after[i]).venue
            != (#[trigger] after[j]).venue by {
            assert(after[i].venue == entries[i].venue);
            assert(after[j].venue == entries[j].venue);
        }
    } else {
        assert forall|i: int, j: int| 0 <= i < j < after.len() implies (#[trigger] after[i]).venue
            != (#[trigger] after[j]).venue by {
            if j == entries.len() {
                assert(after[i] == entries[i]);
            } else {
                assert(after[i] == entries[i]);
                assert(after[j] == entries[j]);
            }
        }
    }
}

/// After a quote was merged, its venue's entry is that quote, and the entry
/// of every other venue is what it was: the last quote of a venue wins, and
/// no venue's quote changes another's.
pub proof fn lemma_merged_latest(entries: Seq<QuoteView>, quote: QuoteView, other: Seq<char>)
    requires
        distinct_venues(entries),
    ensures
        latest(merged(entries, quote), quote.venue) == Some(quote),
        other != quote.venue ==> latest(merged(entries, quote), other) == latest(entries, other),
{
    let after = merged(entries, quote);
    lemma_merged_distinct(entries, quote);
    let p = if holds_venue(entries, quote.venue) {
        position(entries, quote.venue)
    } else {
        entries.len() as int
    };
    assert(after[p] == quote);
    lemma_position_unique(after, quote.venue, p);
    if other != quote.venue {
        if holds_venue(entries, other) {
            let q = position(entries, other);
            assert(after[q] == entries[q]);
            lemma_position_unique(after, other, q);
        } else if holds_venue(after, other) {
            let q = position(after, other);
            assert(q != p);
            assert(after[q] == entries[q]);
        }
    }
}

/// The same quote merged twice in a row gives the same entries as merged
/// once.
pub proof fn lemma_merged_twice(entries: Seq<QuoteView>, quote: QuoteView)
    requires
        distinct_venues(entries),
    ensures
        merged(merged(entries, quote), quote) == merged(entries, quote),
{
    let once = merged(entries, quote);
    lemma_merged_distinct(entries, quote);
    let p = if holds_venue(entries, quote.venue) {
        position(entries, quote.venue)
    } else {
        entries.len() as int
    };
    assert(once[p] == quote);
    lemma_position_unique(once, quote.venue, p);
    assert(merged(once, quote) =~= once);
}

/// After quotes of two venues and then a second quote of the first venue,
/// there is one entry for each: the second quote of the first venue, and the
/// quote of the other venue as it came. Where nothing was held before, these
/// two are all the entries.
pub proof fn lemma_update_keeps_other(
    entries: Seq<QuoteView>,
    first: QuoteView,
    second: QuoteView,
    update: QuoteView,
)
    requires
        distinct_venues(entries),
        first.venue != second.venue,
        update.venue == first.venue,
    ensures
        ({
            let after = merged(merged(merged(entries, first), second), update);
            &&& distinct_venues(after)
            &&& latest(after, first.venue) == Some(update)
            &&& latest(after, second.venue) == Some(second)
            &&& entries.len() == 0 ==> after.len() == 2
        }),
{
    let one = merged(entries, first);
    let two = merged(one, second);
    let after = merged(two, update);
    lemma_merged_distinct(entries, first);
    lemma_merged_distinct(one, second);
    lemma_merged_distinct(two, update);
    lemma_merged_latest(entries, first, second.venue);
    lemma_merged_latest(one, second, first.venue);
    lemma_merged_latest(two, update, second.venue);
    if entries.len() == 0 {
        assert(!holds_venue(entries, first.venue));
        assert(latest(one, second.venue) == latest(entries, second.venue));
        assert(!holds_venue(entries, second.venue));
        assert(!holds_venue(one, second.venue));
        assert(latest(two, first.venue) == latest(one, first.venue));
        assert(holds_venue(two, update.venue));
    }
}

/// The entries after every quote of `history` came in, oldest first,
/// starting from nothing.
pub open spec fn replayed(history: Seq<QuoteView>) -> Seq<QuoteView>
    decreases history.len(),
{
    if history.len() == 0 {
        Seq::empty()
    } else {
        merged(replayed(history.drop_last()), history.last())
    }
}

/// The last quote of `venue` in `history`, where there is one.
pub open spec fn last_heard(history: Seq<QuoteView>, venue: Seq<char>) -> Option<QuoteView>
    decreases history.len(),
{
    if history.len() == 0 {
        None
    } else if history.last().venue == venue {
        Some(history.last())
    } else {
        last_heard(history.drop_last(), venue)
    }
}

/// The venues of which `history` holds a quote.
pub open spec fn venues_heard(history: Seq<QuoteView>) -> Set<Seq<char>> {
    Set::new(
        |venue: Seq<char>|
            exists|i: int| 0 <= i < history.len() && (#[trigger] history[i]).venue == venue,
    )
}

/// Whatever quotes came in, no venue has two entries, and the entry of a
/// venue is the last quote that came in for it: never an older one, and
/// none where no quote of the venue came in.
pub proof fn lemma_replayed_latest(history: Seq<QuoteView>, venue: Seq<char>)
    ensures
        distinct_venues(replayed(history)),
        latest(replayed(history), venue) == last_heard(history, venue),
        holds_venue(replayed(history), venue) <==> venues_heard(history).contains(venue),
    decreases history.len(),
{
    if history.len() > 0 {
        let earlier = history.drop_last();
        let quote = history.last();
        lemma_replayed_latest(earlier, venue);
        lemma_merged_distinct(replayed(earlier), quote);
        lemma_merged_latest(replayed(earlier), quote, venue);
        if venues_heard(history).contains(venue) {
            let i = choose|i: int| 0 <= i < history.len() && (#[trigger] history[i]).venue == venue;
            if i < earlier.len() {
                assert(earlier[i].venue == venue);
            }
        }
        if venues_heard(earlier).contains(venue) {
            let i = choose|i: int| 0 <= i < earlier.len() && (#[trigger] earlier[i]).venue == venue;
            assert(history[i].venue == venue);
        }
        assert(history[history.len() - 1] == quote);
    }
}

/// Whatever quotes came in, there are as many entries as venues of which a
/// quote came in.
pub proof fn lemma_replayed_size(history: Seq<QuoteView>)
    ensures
        venues_heard(history).finite(),
        replayed(history).len() == venues_heard(history).len(),
    decreases history.len(),
{
    if history.len() == 0 {
        assert(venues_heard(history) =~= Set::<Seq<char>>::empty());
    } else {
        let earlier = history.drop_last();
        let quote = history.last();
        lemma_replayed_size(earlier);
        lemma_replayed_latest(earlier, quote.venue);
        lemma_merged_distinct(replayed(earlier), quote);
        assert(venues_heard(history) =~= venues_heard(earlier).insert(quote.venue)) by {
            assert forall|venue: Seq<char>| venues_heard(history).contains(venue) implies venues_heard(
                earlier,
            ).insert(quote.venue).contains(venue) by {
                let i = choose|i: int|
                    0 <= i < history.len() && (#[trigger] history[i]).venue == venue;
                if i < earlier.len() {
                    assert(earlier[i].venue == venue);
                }
            }
            assert forall|venue: Seq<char>| venues_heard(earlier).insert(quote.venue).contains(
                venue,
            ) implies venues_heard(history).contains(venue) by {
                if venue == quote.venue {
                    assert(history[history.len() - 1].venue == venue);
                } else {
                    let i = choose|i: int|
                        0 <= i < earlier.len() && (#[trigger] earlier[i]).venue == venue;
                    assert(history[i].venue == venue);
                }
            }
        }
    }
}

/// The state of the aggregator: the latest quote of every venue heard so
/// far, in the order in which the venues were first heard.
///
/// The quotes stand in a vector that is searched by venue name. Venues are
/// few, and of a hash map keyed by a string nothing could be proved here:
/// its specification holds only for keys whose hashing is known to be sound,
/// which is not stated of strings.
pub struct VenueAggregator {
    quotes: Vec<Quote>,
    history: Ghost<Seq<QuoteView>>,
}

impl View for VenueAggregator {
    type V = Seq<QuoteView>;

    closed spec fn view(&self) -> Seq<QuoteView> {
        quote_views(self.quotes@)
    }
}

impl VenueAggregator {
    #[verifier::type_invariant]
    closed spec fn holds_latest_of_history(&self) -> bool {
        quote_views(self.quotes@) == replayed(self.history@)
    }

    /// Every quote that was taken in, oldest first.
    pub closed spec fn history(&self) -> Seq<QuoteView> {
        self.history@
    }

    /// An aggregator that has heard of no venue.
    pub fn new() -> (empty: VenueAggregator)
        ensures
            empty@ == Seq::<QuoteView>::empty(),
            empty.history() == Seq::<QuoteView>::empty(),
    {
        let quotes: Vec<Quote> = Vec::new();
        assert(quote_views(quotes@) =~= replayed(Seq::empty()));
        VenueAggregator { quotes, history: Ghost(Seq::empty()) }
    }

    /// The number of venues heard so far: those of which a quote was ever
    /// taken in.
    pub fn len(&self) -> (count: usize)
        ensures
            count == self@.len(),
            count == venues_heard(self.history()).len(),
    {
        proof {
            use_type_invariant(self);
            lemma_replayed_size(self.history@);
        }
        self.quotes.len()
    }

    /// The current view: the latest quote of every venue, no venue twice.
    /// It is what the quotes taken in so far lead to from nothing.
    pub fn snapshot(&self) -> (snapshot: Snapshot)
        ensures
            snapshot@ == self@,
            snapshot@ == replayed(self.history()),
            distinct_venues(snapshot@),
    {
        proof {
            use_type_invariant(self);
            lemma_replayed_latest(self.history@, Seq::empty());
        }
        Snapshot { venues: copy_quotes(&self.quotes) }
    }

    /// Takes in one quote and returns the view to publish. Every quote is
    /// taken and leads to a view, also one equal to the venue's last.
    pub fn accept(&mut self, quote: Quote) -> (snapshot: Snapshot)
        ensures
            final(self)@ == merged(old(self)@, quote@),
            final(self).history() == old(self).history().push(quote@),
            snapshot@ == final(self)@,
            snapshot@ == replayed(final(self).history()),
            distinct_venues(snapshot@),
    {
        proof {
            use_type_invariant(&*self);
            lemma_replayed_latest(self.history@, Seq::empty());
        }
        let ghost heard = self.history@;
        let ghost before = self@;
        let ghost incoming = quote@;
        let mut i: usize = 0;
        while i < self.quotes.len() && !(self.quotes[i].venue == quote.venue)
            invariant
                i <= self.quotes@.len(),
                self@ == before,
                forall|k: int| 0 <= k < i ==> (#[trigger] before[k]).venue != quote.venue@,
            decreases self.quotes@.len() - i,
        {
            i = i + 1;
        }
        proof {
            lemma_merged_distinct(before, incoming);
            if i < before.len() {
                lemma_position_unique(before, incoming.venue, i as int);
            } else {
                assert(!holds_venue(before, incoming.venue));
            }
        }
        let mut next = copy_quotes(&self.quotes);
        assert(next@.len() == quote_views(next@).len());
        if i < next.len() {
            next.set(i, quote);
        } else {
            next.push(quote);
        }
        assert(quote_views(next@) =~= merged(before, incoming)) by {
            assert(forall|k: int| 0 <= k < before.len() ==> before[k] == quote_views(self.quotes@)[k]);
        }
        assert(heard.push(incoming).drop_last() =~= heard);
        *self = VenueAggregator { quotes: next, history: Ghost(heard.push(incoming)) };
        self.snapshot()
    }
}

} // verus!
