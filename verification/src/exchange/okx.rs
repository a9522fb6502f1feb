//! A venue that answers a subscription and then pushes depth entries.

use vstd::prelude::*;
use vstd::string::*;
use crate::exchange::{best_level, read_best_level, well_formed_side, DecodeError, Exchange};
use crate::quote::{Quote, QuoteView};

verus! {

/// One depth entry: the levels of each side, best first, each level a price,
/// a size, an order count and a level number written as strings.
#[derive(Debug)]
pub struct AskBid {
    pub asks: Vec<Vec<String>>,
    pub bids: Vec<Vec<String>>,
}

/// A message of the venue: depth entries that it pushes, or its answer to a
/// command.
#[derive(Debug)]
pub enum OkxData {
    Push { data: Vec<AskBid> },
    Response { event: String },
}

/// The decoder of this venue's messages.
pub struct Okx {}

/// What the first message after the subscription command turned out to be.
#[derive(Clone, Copy, Debug, PartialEq, Eq, Structural)]
pub enum Confirmation {
    /// The venue confirmed the subscription.
    Confirmed,
    /// The venue sent something else: an anomaly to report, no reason to
    /// give the connection up.
    Unexpected,
    /// The text is no message of the venue: reported likewise.
    Unparsed,
}

/// The confirmation that a decoded first message is, `None` standing for a
/// text that could not be decoded. Only an answer whose event is
/// `subscribe` confirms.
pub open spec fn confirmation_of(decoded: Option<OkxData>) -> Confirmation {
    match decoded {
        None => Confirmation::Unparsed,
        Some(OkxData::Response { event }) => if event@ == "subscribe"@ {
            Confirmation::Confirmed
        } else {
            Confirmation::Unexpected
        },
        Some(OkxData::Push { .. }) => Confirmation::Unexpected,
    }
}

impl Okx {
    /// The address of the venue's public stream.
    pub fn endpoint() -> (url: String)
        ensures
            url@ == "wss://ws.okx.com:8443/ws/v5/public"@,
    {
        String::from_str("wss://ws.okx.com:8443/ws/v5/public")
    }

    /// The command that subscribes to the five best levels of `token_pair`,
    /// to be sent as soon as the connection is open.
    pub fn subscription(token_pair: &str) -> (command: String)
        ensures
            command@ == "{\"op\": \"subscribe\",\"args\": [{\"channel\": \"books5\",\"instId\": \""@
                + token_pair@ + "\"}]}"@,
    {
        let mut command = String::from_str(
            "{\"op\": \"subscribe\",\"args\": [{\"channel\": \"books5\",\"instId\": \"",
        );
        command.append(token_pair);
        command.append("\"}]}");
        command
    }

    /// Judges the first message after the subscription command.
    pub fn check_confirmation(decoded: &Option<OkxData>) -> (answer: Confirmation)
        ensures
            answer == confirmation_of(*decoded),
    {
        match decoded {
            None => Confirmation::Unparsed,
            Some(OkxData::Response { event }) => {
                let expected = String::from_str("subscribe");
                if *event == expected {
                    Confirmation::Confirmed
                } else {
                    Confirmation::Unexpected
                }
            },
            Some(OkxData::Push { .. }) => Confirmation::Unexpected,
        }
    }
}

/// The quote of one depth entry. The asks are read first: where both sides
/// are at fault, the error is that of the asks.
pub open spec fn entry_quote(entry: AskBid) -> Result<Option<QuoteView>, DecodeError> {
    match best_level(entry.asks.deep_view()) {
        Err(error) => Err(error),
        Ok(ask) => match best_level(entry.bids.deep_view()) {
            Err(error) => Err(error),
            Ok(bid) => Ok(
                Some(
                    QuoteView {
                        venue: "okx"@,
                        bid_price: bid.0,
                        bid_size: bid.1,
                        ask_price: ask.0,
                        ask_size: ask.1,
                    },
                ),
            ),
        },
    }
}

impl Exchange<OkxData> for Okx {
    /// Only the first entry of a push counts; a push without entries and an
    /// answer to a command hold no quote.
    open spec fn normalized(exch: &OkxData) -> Result<Option<QuoteView>, DecodeError> {
        match *exch {
            OkxData::Push { data } => if data@.len() == 0 {
                Ok(None)
            } else {
                entry_quote(data@[0])
            },
            OkxData::Response { .. } => Ok(None),
        }
    }

    fn get_l1_data(exch: &OkxData) -> (outcome: Result<Option<Quote>, DecodeError>) {
        match exch {
            OkxData::Push { data } => {
                if data.len() == 0 {
                    return Ok(None);
                }
                let entry = &data[0];
                let (ask_price, ask_size) = match read_best_level(&entry.asks) {
                    Ok(ask) => ask,
                    Err(error) => { return Err(error); },
                };
                let (bid_price, bid_size) = match read_best_level(&entry.bids) {
                    Ok(bid) => bid,
                    Err(error) => { return Err(error); },
                };
                Ok(Some(Quote { venue: String::from_str("okx"), bid_price, bid_size, ask_price, ask_size }))
            },
            OkxData::Response { .. } => Ok(None),
        }
    }
}

/// A push with one entry or more, the best level of each side of the first
/// entry well formed, yields a quote made of the first entry alone: price
/// and size of each side are the first two strings of its first level. The
/// order count and the level number behind them, the levels behind the first
/// and the entries behind the first play no part.
pub proof fn lemma_push_first_entry(data: Vec<AskBid>)
    requires
        data@.len() > 0,
        well_formed_side(data@[0].asks.deep_view()),
        well_formed_side(data@[0].bids.deep_view()),
    ensures
        Okx::normalized(&OkxData::Push { data }) == Ok::<_, DecodeError>(
            Some(
                QuoteView {
                    venue: "okx"@,
                    bid_price: data@[0].bids.deep_view()[0][0],
                    bid_size: data@[0].bids.deep_view()[0][1],
                    ask_price: data@[0].asks.deep_view()[0][0],
                    ask_size: data@[0].asks.deep_view()[0][1],
                },
            ),
        ),
{
}

/// An answer to a command never yields a quote, whatever its event.
pub proof fn lemma_response_holds_no_quote(event: String)
    ensures
        Okx::normalized(&OkxData::Response { event }) == Ok::<Option<QuoteView>, DecodeError>(None),
{
}

/// A push yields a quote if and only if it has an entry and both sides of
/// its first entry have a well-formed best level.
pub proof fn lemma_quote_needs_both_sides(data: Vec<AskBid>)
    ensures
        Okx::normalized(&OkxData::Push { data }) is Ok && Okx::normalized(
            &OkxData::Push { data },
        )->Ok_0 is Some <==> {
            &&& data@.len() > 0
            &&& well_formed_side(data@[0].asks.deep_view())
            &&& well_formed_side(data@[0].bids.deep_view())
        },
{
}

} // verus!
