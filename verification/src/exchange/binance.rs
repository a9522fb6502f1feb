//! A venue whose depth message may leave out a side.

use vstd::prelude::*;
use vstd::string::*;
use crate::exchange::{best_level, read_best_level, well_formed_side, DecodeError, Exchange};
use crate::number::Number;
use crate::quote::{Quote, QuoteView};

verus! {

/// A depth message: up to ten levels of each side, best first, each level a
/// price and a size written as strings.
#[derive(Debug)]
pub struct Binance {
    pub bids: Option<Vec<Vec<String>>>,
    pub asks: Option<Vec<Vec<String>>>,
}

/// Price and size of one side: those of its best level, or zero and zero
/// where the message leaves the side out.
pub open spec fn side_or_zero(levels: Option<Vec<Vec<String>>>) -> Result<
    (Seq<char>, Seq<char>),
    DecodeError,
> {
    match levels {
        Some(levels) => best_level(levels.deep_view()),
        None => Ok((seq!['0'], seq!['0'])),
    }
}

fn read_side(levels: &Option<Vec<Vec<String>>>) -> (side: Result<(Number, Number), DecodeError>)
    ensures
        match side {
            Ok((price, size)) => side_or_zero(*levels) == Ok::<_, DecodeError>((price@, size@)),
            Err(error) => side_or_zero(*levels) == Err::<(Seq<char>, Seq<char>), _>(error),
        },
{
    match levels {
        Some(levels) => read_best_level(levels),
        None => Ok((Number::zero(), Number::zero())),
    }
}

impl Binance {
    /// A message with neither side.
    pub fn new() -> (empty: Binance)
        ensures
            empty.bids.is_none(),
            empty.asks.is_none(),
    {
        Binance { bids: None, asks: None }
    }

    /// The address of the stream that carries the depth of `token_pair`:
    /// ten levels, every 100 milliseconds.
    pub fn stream_url(token_pair: &str) -> (url: String)
        ensures
            url@ == "wss://stream.binance.com:9443/ws/"@ + token_pair@ + "@depth10@100ms"@,
    {
        let mut url = String::from_str("wss://stream.binance.com:9443/ws/");
        url.append(token_pair);
        url.append("@depth10@100ms");
        url
    }
}

impl Exchange<Binance> for Binance {
    /// The bids are read first: where both sides are at fault, the error is
    /// that of the bids.
    open spec fn normalized(exch: &Binance) -> Result<Option<QuoteView>, DecodeError> {
        match side_or_zero(exch.bids) {
            Err(error) => Err(error),
            Ok(bid) => match side_or_zero(exch.asks) {
                Err(error) => Err(error),
                Ok(ask) => Ok(
                    Some(
                        QuoteView {
                            venue: "binance"@,
                            bid_price: bid.0,
                            bid_size: bid.1,
                            ask_price: ask.0,
                            ask_size: ask.1,
                        },
                    ),
                ),
            },
        }
    }

    fn get_l1_data(exch: &Binance) -> (outcome: Result<Option<Quote>, DecodeError>) {
        let (bid_price, bid_size) = match read_side(&exch.bids) {
            Ok(bid) => bid,
            Err(error) => { return Err(error); },
        };
        let (ask_price, ask_size) = match read_side(&exch.asks) {
            Ok(ask) => ask,
            Err(error) => { return Err(error); },
        };
        Ok(Some(Quote { venue: String::from_str("binance"), bid_price, bid_size, ask_price, ask_size }))
    }
}

/// A message with both sides, the best level of each well formed, yields a
/// quote: bid price and size are the first two strings of the first bid
/// level, ask price and size the first two of the first ask level.
pub proof fn lemma_both_sides_present(exch: &Binance)
    requires
        exch.bids is Some,
        exch.asks is Some,
        well_formed_side(exch.bids->0.deep_view()),
        well_formed_side(exch.asks->0.deep_view()),
    ensures
        Binance::normalized(exch) == Ok::<_, DecodeError>(
            Some(
                QuoteView {
                    venue: "binance"@,
                    bid_price: exch.bids->0.deep_view()[0][0],
                    bid_size: exch.bids->0.deep_view()[0][1],
                    ask_price: exch.asks->0.deep_view()[0][0],
                    ask_size: exch.asks->0.deep_view()[0][1],
                },
            ),
        ),
{
}

/// A message yields a quote if and only if each side that it holds has a
/// well-formed best level; a message that yields none is an error, so no
/// quote is ever made of a part of a message.
pub proof fn lemma_quote_needs_every_side(exch: &Binance)
    ensures
        Binance::normalized(exch) is Ok <==> {
            &&& exch.bids is Some ==> well_formed_side(exch.bids->0.deep_view())
            &&& exch.asks is Some ==> well_formed_side(exch.asks->0.deep_view())
        },
        Binance::normalized(exch) != Ok::<Option<QuoteView>, DecodeError>(None),
{
}

} // verus!
