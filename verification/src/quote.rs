//! The records that every venue's messages are turned into.

use vstd::prelude::*;
use crate::number::Number;

verus! {

/// One venue's best bid and ask.
#[derive(Debug)]
pub struct Quote {
    pub venue: String,
    pub bid_price: Number,
    pub bid_size: Number,
    pub ask_price: Number,
    pub ask_size: Number,
}

/// What a quote holds: the venue's name and the text of each number.
pub ghost struct QuoteView {
    pub venue: Seq<char>,
    pub bid_price: Seq<char>,
    pub bid_size: Seq<char>,
    pub ask_price: Seq<char>,
    pub ask_size: Seq<char>,
}

impl View for Quote {
    type V = QuoteView;

    open spec fn view(&self) -> QuoteView {
        QuoteView {
            venue: self.venue@,
            bid_price: self.bid_price@,
            bid_size: self.bid_size@,
            ask_price: self.ask_price@,
            ask_size: self.ask_size@,
        }
    }
}

impl Clone for Quote {
    fn clone(&self) -> (copy: Quote)
        ensures
            copy@ == self@,
    {
        Quote {
            venue: self.venue.clone(),
            bid_price: self.bid_price.duplicate(),
            bid_size: self.bid_size.duplicate(),
            ask_price: self.ask_price.duplicate(),
            ask_size: self.ask_size.duplicate(),
        }
    }
}

/// What each quote of `quotes` holds, in the same order.
pub open spec fn quote_views(quotes: Seq<Quote>) -> Seq<QuoteView> {
    Seq::new(quotes.len(), |i: int| quotes[i]@)
}

/// The latest quote of every venue heard so far, one for each venue.
#[derive(Debug)]
pub struct Snapshot {
    pub venues: Vec<Quote>,
}

impl Clone for Snapshot {
    fn clone(&self) -> (copy: Snapshot)
        ensures
            copy@ == self@,
    {
        Snapshot { venues: copy_quotes(&self.venues) }
    }
}

/// A copy of each quote, in the same order.
pub fn copy_quotes(quotes: &Vec<Quote>) -> (copies: Vec<Quote>)
    ensures
        quote_views(copies@) == quote_views(quotes@),
{
    let mut copies: Vec<Quote> = Vec::new();
    let mut i: usize = 0;
    while i < quotes.len()
        invariant
            i <= quotes@.len(),
            copies@.len() == i,
            forall|k: int| 0 <= k < i ==> (#[trigger] copies@[k])@ == quotes@[k]@,
        decreases quotes@.len() - i,
    {
        copies.push(quotes[i].clone());
        i = i + 1;
    }
    assert(quote_views(copies@) =~= quote_views(quotes@));
    copies
}

impl View for Snapshot {
    type V = Seq<QuoteView>;

    open spec fn view(&self) -> Seq<QuoteView> {
        quote_views(self.venues@)
    }
}

} // verus!
