//! What the venues' decoders share: the error of a message that cannot be
//! read, and the rule by which the best level of one side is taken.

use vstd::prelude::*;
use crate::number::{is_number_literal, Number};
use crate::quote::{Quote, QuoteView};

pub mod binance;
pub mod okx;

verus! {

/// Why a message yields no quote.
#[derive(Clone, Copy, Debug, PartialEq, Eq, Structural)]
pub enum DecodeError {
    /// The price or the size of a best level is not a number.
    MalformedNumber,
    /// A side has no level, or its best level has no price or no size.
    MissingField,
}

impl DecodeError {
    /// One line for an operator's log.
    pub fn message(&self) -> (line: String)
        ensures
            line@ == match *self {
                DecodeError::MalformedNumber => "failed to parse string into float"@,
                DecodeError::MissingField => "expected field is absent"@,
            },
    {
        match self {
            DecodeError::MalformedNumber => String::from_str("failed to parse string into float"),
            DecodeError::MissingField => String::from_str("expected field is absent"),
        }
    }
}

/// What a decoder returns, with each quote taken by its view.
pub open spec fn outcome_view(outcome: Result<Option<Quote>, DecodeError>) -> Result<
    Option<QuoteView>,
    DecodeError,
> {
    match outcome {
        Ok(Some(quote)) => Ok(Some(quote@)),
        Ok(None) => Ok(None),
        Err(error) => Err(error),
    }
}

/// Price and size of the best level of one side: the first two strings of
/// the first level, each of which has to be a number. What the level holds
/// behind its size, and the levels behind the first, are not looked at.
pub open spec fn best_level(levels: Seq<Seq<Seq<char>>>) -> Result<
    (Seq<char>, Seq<char>),
    DecodeError,
> {
    if levels.len() == 0 || levels[0].len() < 2 {
        Err(DecodeError::MissingField)
    } else if !is_number_literal(levels[0][0]) || !is_number_literal(levels[0][1]) {
        Err(DecodeError::MalformedNumber)
    } else {
        Ok((levels[0][0], levels[0][1]))
    }
}

/// The best level of a side is well formed: it is there, it has a price and
/// a size, and each of the two is a number.
pub open spec fn well_formed_side(levels: Seq<Seq<Seq<char>>>) -> bool {
    &&& levels.len() > 0
    &&& levels[0].len() >= 2
    &&& is_number_literal(levels[0][0])
    &&& is_number_literal(levels[0][1])
}

/// A side is read if and only if its best level is well formed, and what is
/// read is then the first two strings of the first level.
pub proof fn lemma_best_level_read(levels: Seq<Seq<Seq<char>>>)
    ensures
        well_formed_side(levels) <==> best_level(levels) is Ok,
        well_formed_side(levels) ==> best_level(levels) == Ok::<_, DecodeError>(
            (levels[0][0], levels[0][1]),
        ),
{
}

/// Two sides whose best levels agree in price and size are read alike:
/// nothing else of a side plays a part.
pub proof fn lemma_best_level_ignores_rest(one: Seq<Seq<Seq<char>>>, other: Seq<Seq<Seq<char>>>)
    requires
        one.len() > 0,
        other.len() > 0,
        one[0].len() >= 2,
        other[0].len() >= 2,
        one[0][0] == other[0][0],
        one[0][1] == other[0][1],
    ensures
        best_level(one) == best_level(other),
{
}

/// A side whose price or size is no number is not read.
pub proof fn lemma_malformed_number_rejected(levels: Seq<Seq<Seq<char>>>)
    requires
        levels.len() > 0,
        levels[0].len() >= 2,
        !is_number_literal(levels[0][0]) || !is_number_literal(levels[0][1]),
    ensures
        best_level(levels) == Err::<(Seq<char>, Seq<char>), _>(DecodeError::MalformedNumber),
{
}

/// Reads price and size of the best level of one side.
pub fn read_best_level(levels: &Vec<Vec<String>>) -> (best: Result<(Number, Number), DecodeError>)
    ensures
        match best {
            Ok((price, size)) => best_level(levels.deep_view()) == Ok::<_, DecodeError>(
                (price@, size@),
            ),
            Err(error) => best_level(levels.deep_view()) == Err::<(Seq<char>, Seq<char>), _>(error),
        },
{
    if levels.len() == 0 {
        return Err(DecodeError::MissingField);
    }
    let level = &levels[0];
    let ghost texts = levels.deep_view()[0];
    assert(texts == level.deep_view());
    assert(texts.len() == level@.len());
    assert(forall|k: int| 0 <= k < level@.len() ==> texts[k] == level@[k]@);
    if level.len() < 2 {
        return Err(DecodeError::MissingField);
    }
    match (Number::parse(level[0].as_str()), Number::parse(level[1].as_str())) {
        (Some(price), Some(size)) => Ok((price, size)),
        _ => Err(DecodeError::MalformedNumber),
    }
}

/// A decoder of one venue's messages, of type `T`.
pub trait Exchange<T> {
    /// The quote that the message holds, `None` where it is no quote message,
    /// or the reason for which it cannot be read.
    spec fn normalized(exch: &T) -> Result<Option<QuoteView>, DecodeError>;

    /// Turns a decoded message into a quote.
    fn get_l1_data(exch: &T) -> (outcome: Result<Option<Quote>, DecodeError>)
        ensures
            outcome_view(outcome) == Self::normalized(exch),
    ;
}

} // verus!
