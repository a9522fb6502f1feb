//! The life of one venue's connection, and what becomes of each text frame.
//!
//! The adapter itself performs no input or output. Whoever owns the
//! connection carries out the action that a step names and reports what
//! came of it; the next step decides from there, without end.

use vstd::prelude::*;
use crate::exchange::{DecodeError, Exchange};
use crate::quote::{Quote, QuoteView};

verus! {

/// Seconds to wait before connecting again after a failure.
pub const BACKOFF_SECONDS: u64 = 5;

/// Seconds that a venue has to answer the subscription command.
pub const ANSWER_SECONDS: u64 = 10;

/// Where a connection stands while the adapter's last action is carried out.
#[derive(Clone, Copy, Debug, PartialEq, Eq, Structural)]
pub enum Phase {
    /// No connection, and none is being opened.
    Disconnected,
    /// A connection is being opened.
    Connecting,
    /// The subscription command is being sent.
    Subscribing,
    /// The answer to the subscription command is awaited.
    Confirming,
    /// Frames are being read.
    Streaming,
}

/// What came of the last action.
#[derive(Clone, Copy, Debug, PartialEq, Eq, Structural)]
pub enum Signal {
    /// The adapter was started, or the wait is over.
    Ready,
    /// The connection is open.
    Connected,
    /// The connection could not be opened.
    ConnectFailed,
    /// The subscription command was sent.
    Sent,
    /// The subscription command could not be sent.
    SendFailed,
    /// A text frame was read.
    Text,
    /// A frame that is no text was read.
    NonText,
    /// Reading failed.
    ReadFailed,
    /// The venue closed the connection.
    Closed,
    /// No frame came within the time that the adapter allows for one: see
    /// [`Adapter::read_limit`].
    TimedOut,
}

/// What to do next.
#[derive(Clone, Copy, Debug, PartialEq, Eq, Structural)]
pub enum Action {
    /// Open a connection.
    Connect,
    /// Wait for so many seconds.
    Wait { seconds: u64 },
    /// Send the subscription command.
    Subscribe,
    /// Read the next frame.
    Read,
    /// Check the text frame just read as the answer to the subscription
    /// command, then read the next frame.
    Confirm,
    /// Report that the venue sent something else in place of its answer to
    /// the subscription command, then read the next frame.
    ReportUnconfirmed,
    /// Decode the text frame just read and emit its quote, if it holds one,
    /// then read the next frame.
    Decode,
}

/// The phase and the action that follow `signal` in `phase`, for a venue
/// that does or does not ask for a subscription.
///
/// A failure to connect is followed by a wait; a failure to send the
/// command, and while streaming a failed read, a closed connection and a
/// read that timed out, by a new connection at once: the adapter is then
/// disconnected for no longer than it takes to decide so. While streaming, a
/// frame that is no text is passed over.
///
/// While the answer to the subscription command is awaited, only a failed
/// read, a closed connection and a read that timed out give the connection
/// up, and a wait follows. A text frame is checked as the answer. Anything
/// else, such as a frame that is no text, means that the answer is missing:
/// that is reported, the connection is kept, and the frames that follow are
/// decoded as they come.
pub open spec fn next_step(subscribes: bool, phase: Phase, signal: Signal) -> (Phase, Action) {
    match phase {
        Phase::Disconnected => (Phase::Connecting, Action::Connect),
        Phase::Connecting => match signal {
            Signal::Connected => if subscribes {
                (Phase::Subscribing, Action::Subscribe)
            } else {
                (Phase::Streaming, Action::Read)
            },
            _ => (Phase::Disconnected, Action::Wait { seconds: BACKOFF_SECONDS }),
        },
        Phase::Subscribing => match signal {
            Signal::Sent => (Phase::Confirming, Action::Read),
            _ => (Phase::Connecting, Action::Connect),
        },
        Phase::Confirming => match signal {
            Signal::Text => (Phase::Streaming, Action::Confirm),
            Signal::ReadFailed | Signal::Closed | Signal::TimedOut => (
                Phase::Disconnected,
                Action::Wait { seconds: BACKOFF_SECONDS },
            ),
            _ => (Phase::Streaming, Action::ReportUnconfirmed),
        },
        Phase::Streaming => match signal {
            Signal::Text => (Phase::Streaming, Action::Decode),
            Signal::NonText => (Phase::Streaming, Action::Read),
            _ => (Phase::Connecting, Action::Connect),
        },
    }
}

/// The longest that a read may take in `phase`, in seconds, where it is
/// bounded: only the answer to the subscription command is awaited for a
/// fixed time.
pub open spec fn read_limit_in(phase: Phase) -> Option<u64> {
    if phase == Phase::Confirming {
        Some(ANSWER_SECONDS)
    } else {
        None
    }
}

/// One venue's connection: whether the venue asks for a subscription, and
/// the phase that the connection is in.
#[derive(Clone, Copy, Debug, PartialEq, Eq, Structural)]
pub struct Adapter {
    pub subscribes: bool,
    pub phase: Phase,
}

impl Adapter {
    /// An adapter that has not connected yet.
    pub fn new(subscribes: bool) -> (adapter: Adapter)
        ensures
            adapter.subscribes == subscribes,
            adapter.phase == Phase::Disconnected,
    {
        Adapter { subscribes, phase: Phase::Disconnected }
    }

    /// The longest that the next read may take, in seconds, where it is
    /// bounded: the answer to the subscription command is awaited for a
    /// fixed time, so that a venue that never answers does not hold the
    /// adapter up for ever. A read that takes longer is given up and
    /// reported as [`Signal::TimedOut`].
    pub fn read_limit(&self) -> (limit: Option<u64>)
        ensures
            limit == (if self.phase == Phase::Confirming {
                Some(ANSWER_SECONDS)
            } else {
                None::<u64>
            }),
            limit == read_limit_in(self.phase),
    {
        match self.phase {
            Phase::Confirming => Some(ANSWER_SECONDS),
            _ => None,
        }
    }

    /// Takes in what came of the last action, moves to the next phase and
    /// names the next action.
    pub fn step(&mut self, signal: Signal) -> (action: Action)
        ensures
            final(self).subscribes == old(self).subscribes,
            (final(self).phase, action) == next_step(old(self).subscribes, old(self).phase, signal),
    {
        let (phase, action) = match self.phase {
            Phase::Disconnected => (Phase::Connecting, Action::Connect),
            Phase::Connecting => match signal {
                Signal::Connected => if self.subscribes {
                    (Phase::Subscribing, Action::Subscribe)
                } else {
                    (Phase::Streaming, Action::Read)
                },
                _ => (Phase::Disconnected, Action::Wait { seconds: BACKOFF_SECONDS }),
            },
            Phase::Subscribing => match signal {
                Signal::Sent => (Phase::Confirming, Action::Read),
                _ => (Phase::Connecting, Action::Connect),
            },
            Phase::Confirming => match signal {
                Signal::Text => (Phase::Streaming, Action::Confirm),
                Signal::ReadFailed | Signal::Closed | Signal::TimedOut => (
                    Phase::Disconnected,
                    Action::Wait { seconds: BACKOFF_SECONDS },
                ),
                _ => (Phase::Streaming, Action::ReportUnconfirmed),
            },
            Phase::Streaming => match signal {
                Signal::Text => (Phase::Streaming, Action::Decode),
                Signal::NonText => (Phase::Streaming, Action::Read),
                _ => (Phase::Connecting, Action::Connect),
            },
        };
        self.phase = phase;
        action
    }
}

/// A frame is decoded only while streaming, and only a text frame; the
/// connection then stays as it is.
pub proof fn lemma_decodes_text_while_streaming(subscribes: bool, phase: Phase, signal: Signal)
    ensures
        next_step(subscribes, phase, signal).1 == Action::Decode <==> phase == Phase::Streaming
            && signal == Signal::Text,
        next_step(subscribes, phase, signal).1 == Action::Decode ==> next_step(
            subscribes,
            phase,
            signal,
        ).0 == Phase::Streaming,
{
}

/// Every wait is of the fixed length, leaves the adapter disconnected, and
/// is followed by a new attempt to connect, whatever is reported after it.
pub proof fn lemma_wait_is_fixed(subscribes: bool, phase: Phase, signal: Signal, after: Signal)
    ensures
        next_step(subscribes, phase, signal).1 is Wait ==> {
            &&& next_step(subscribes, phase, signal) == (
                Phase::Disconnected,
                Action::Wait { seconds: 5 },
            )
            &&& next_step(subscribes, Phase::Disconnected, after) == (
                Phase::Connecting,
                Action::Connect,
            )
        },
{
}

/// A venue that asks for no subscription is never sent one, and no answer
/// is awaited from it.
pub proof fn lemma_no_subscription_unless_asked(phase: Phase, signal: Signal)
    requires
        phase != Phase::Subscribing,
        phase != Phase::Confirming,
    ensures
        next_step(false, phase, signal).0 != Phase::Subscribing,
        next_step(false, phase, signal).0 != Phase::Confirming,
        next_step(false, phase, signal).1 != Action::Subscribe,
        next_step(false, phase, signal).1 != Action::Confirm,
        next_step(false, phase, signal).1 != Action::ReportUnconfirmed,
{
}

/// While the answer to the subscription command is awaited, the connection
/// is given up if and only if the read failed, the venue closed the
/// connection or the read timed out. Whatever else comes, the connection is
/// kept and streaming begins: a text frame is checked as the answer, and an
/// answer that is missing is reported.
pub proof fn lemma_missing_answer_keeps_connection(subscribes: bool, signal: Signal)
    ensures
        ({
            let (phase, action) = next_step(subscribes, Phase::Confirming, signal);
            let given_up = signal == Signal::ReadFailed || signal == Signal::Closed || signal
                == Signal::TimedOut;
            &&& given_up <==> phase == Phase::Disconnected
            &&& given_up <==> action == Action::Wait { seconds: 5 }
            &&& !given_up <==> phase == Phase::Streaming
            &&& signal == Signal::Text <==> action == Action::Confirm
            &&& !given_up && signal != Signal::Text <==> action == Action::ReportUnconfirmed
        }),
{
}

/// The adapter never waits for the answer to the subscription command
/// without a limit: every step that leaves it awaiting the answer is
/// followed by a read of at most the fixed time, and a read that timed out
/// then ends the wait.
pub proof fn lemma_answer_is_awaited_for_a_fixed_time(subscribes: bool, phase: Phase, signal: Signal)
    ensures
        next_step(subscribes, phase, signal).0 == Phase::Confirming ==> {
            &&& next_step(subscribes, phase, signal).1 == Action::Read
            &&& read_limit_in(next_step(subscribes, phase, signal).0) == Some(10u64)
            &&& next_step(subscribes, Phase::Confirming, Signal::TimedOut) == (
                Phase::Disconnected,
                Action::Wait { seconds: 5 },
            )
        },
{
}

/// Why a text frame was set aside.
#[derive(Clone, Copy, Debug, PartialEq, Eq, Structural)]
pub enum Fault {
    /// The text is no message of the venue.
    Unparsed,
    /// The message cannot be read as a quote.
    Rejected(DecodeError),
}

/// What becomes of one text frame.
#[derive(Debug)]
pub enum Reaction {
    /// The frame holds this quote: hand it on.
    Emit(Quote),
    /// The frame holds no quote and is no fault.
    Skip,
    /// The frame is set aside: report why, and hand nothing on.
    Report(Fault),
}

/// A reaction, with its quote taken by its view.
pub ghost enum ReactionView {
    Emit(QuoteView),
    Skip,
    Report(Fault),
}

impl View for Reaction {
    type V = ReactionView;

    open spec fn view(&self) -> ReactionView {
        match *self {
            Reaction::Emit(quote) => ReactionView::Emit(quote@),
            Reaction::Skip => ReactionView::Skip,
            Reaction::Report(fault) => ReactionView::Report(fault),
        }
    }
}

/// The reaction to a frame whose text was decoded with the given outcome:
/// `None` where the text is no message of the venue, else what the venue's
/// decoder makes of the message.
pub open spec fn reaction_to(decoded: Option<Result<Option<QuoteView>, DecodeError>>)
    -> ReactionView {
    match decoded {
        None => ReactionView::Report(Fault::Unparsed),
        Some(Err(error)) => ReactionView::Report(Fault::Rejected(error)),
        Some(Ok(None)) => ReactionView::Skip,
        Some(Ok(Some(quote))) => ReactionView::Emit(quote),
    }
}

/// A quote is emitted of a frame only where its text was a message and the
/// decoder read a quote from it, and the quote is then that one, whole. A
/// frame whose text is no message, or whose message the decoder rejects, is
/// reported, and nothing of it is handed on.
pub proof fn lemma_fault_emits_nothing(decoded: Option<Result<Option<QuoteView>, DecodeError>>)
    ensures
        reaction_to(decoded) is Emit <==> decoded is Some && decoded->0 is Ok
            && decoded->0->Ok_0 is Some,
        reaction_to(decoded) is Emit ==> reaction_to(decoded)->Emit_0 == decoded->0->Ok_0->0,
        decoded is None || decoded->0 is Err <==> reaction_to(decoded) is Report,
{
}

/// What the venue's decoder makes of a frame's message, where the frame's
/// text was one.
pub open spec fn decoded_outcome<T, X: Exchange<T>>(decoded: Option<T>) -> Option<
    Result<Option<QuoteView>, DecodeError>,
> {
    match decoded {
        None => None,
        Some(message) => Some(X::normalized(&message)),
    }
}

/// Decides what becomes of one text frame of the venue `X`, given the
/// message that its text was decoded to, or `None` where it could not be
/// decoded. A quote is emitted whole or not at all.
pub fn on_message<T, X: Exchange<T>>(decoded: &Option<T>) -> (reaction: Reaction)
    ensures
        reaction@ == reaction_to(decoded_outcome::<T, X>(*decoded)),
{
    match decoded {
        None => Reaction::Report(Fault::Unparsed),
        Some(message) => match X::get_l1_data(message) {
            Ok(Some(quote)) => Reaction::Emit(quote),
            Ok(None) => Reaction::Skip,
            Err(error) => Reaction::Report(Fault::Rejected(error)),
        },
    }
}

} // verus!
