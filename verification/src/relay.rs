//! The single-connection relay: standard input goes to one WebSocket as
//! binary messages, and what the WebSocket sends goes to standard output.
//!
//! Three loops do the work, one that reads standard input, one that sends and
//! one that receives. Reading, sending and writing are the caller's; what
//! each loop does next is decided here.

use vstd::prelude::*;

verus! {

/// The size of the buffer that standard input is read into.
pub const BUFSIZ: usize = 8192;

/// How many messages may wait to be sent.
pub const QSIZ: usize = 1;

/// The kinds of WebSocket message.
#[derive(Clone, Copy, Debug, PartialEq, Eq, Hash, Structural)]
pub enum MessageKind {
    Text,
    Binary,
    Close,
    Ping,
    Pong,
}

/// What the receiving loop does with a message.
#[derive(Clone, Copy, Debug, PartialEq, Eq, Hash, Structural)]
pub enum Received {
    /// The peer closed: stop receiving.
    Stop,
    /// Queue a pong with the payload of the ping.
    AnswerPong,
    /// Write the payload to standard output.
    WriteOut,
}

/// What the receiving loop does with a message of a kind.
pub open spec fn received_of(kind: MessageKind) -> Received {
    match kind {
        MessageKind::Close => Received::Stop,
        MessageKind::Ping => Received::AnswerPong,
        _ => Received::WriteOut,
    }
}

/// What the receiving loop does with a message of a kind.
pub fn on_received(kind: MessageKind) -> (next: Received)
    ensures
        next == received_of(kind),
{
    match kind {
        MessageKind::Close => Received::Stop,
        MessageKind::Ping => Received::AnswerPong,
        _ => Received::WriteOut,
    }
}

/// What the sending loop does after it has tried to send a message.
#[derive(Clone, Copy, Debug, PartialEq, Eq, Hash, Structural)]
pub enum Sent {
    /// Take the next message.
    Continue,
    /// Stop sending.
    Stop,
    /// Try to send a close message, then stop.
    CloseAndStop,
}

/// What the sending loop does after a message of a kind was sent or failed
/// to be sent: a close message ends the loop either way, and a failure ends
/// it with an attempt to close.
pub open spec fn sent_of(kind: MessageKind, delivered: bool) -> Sent {
    if kind == MessageKind::Close {
        Sent::Stop
    } else if delivered {
        Sent::Continue
    } else {
        Sent::CloseAndStop
    }
}

/// What the sending loop does after it has tried to send a message.
pub fn on_sent(kind: MessageKind, delivered: bool) -> (next: Sent)
    ensures
        next == sent_of(kind, delivered),
{
    match kind {
        MessageKind::Close => Sent::Stop,
        _ => if delivered {
            Sent::Continue
        } else {
            Sent::CloseAndStop
        },
    }
}

/// How a read of standard input ended.
#[derive(Clone, Copy, Debug, PartialEq, Eq, Hash, Structural)]
pub enum ReadOutcome {
    /// So many bytes were read; none at the end of input.
    Data(usize),
    /// The read was interrupted.
    Interrupted,
    /// The read would have blocked.
    WouldBlock,
    /// The read failed for another reason.
    Failed,
}

/// What the reading loop does after a read.
#[derive(Clone, Copy, Debug, PartialEq, Eq, Hash, Structural)]
pub enum ReadNext {
    /// Queue the first so many bytes of the buffer as one binary message.
    Forward(usize),
    /// Read again.
    Retry,
    /// Leave the loop and queue a close message.
    Finish,
}

/// What the reading loop does after a read: data is forwarded, the end of
/// input and a failure end the loop, and a read that was interrupted or
/// would have blocked is tried again.
pub open spec fn read_next_of(outcome: ReadOutcome) -> ReadNext {
    match outcome {
        ReadOutcome::Data(n) => if n == 0 {
            ReadNext::Finish
        } else {
            ReadNext::Forward(n)
        },
        ReadOutcome::Interrupted => ReadNext::Retry,
        ReadOutcome::WouldBlock => ReadNext::Retry,
        ReadOutcome::Failed => ReadNext::Finish,
    }
}

/// What the reading loop does after a read.
pub fn on_read(outcome: ReadOutcome) -> (next: ReadNext)
    ensures
        next == read_next_of(outcome),
{
    match outcome {
        ReadOutcome::Data(n) => if n == 0 {
            ReadNext::Finish
        } else {
            ReadNext::Forward(n)
        },
        ReadOutcome::Interrupted => ReadNext::Retry,
        ReadOutcome::WouldBlock => ReadNext::Retry,
        ReadOutcome::Failed => ReadNext::Finish,
    }
}

} // verus!
