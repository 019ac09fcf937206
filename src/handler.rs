//! One connection, from accept to close: a single read, then a single write.
use vstd::prelude::*;

use crate::response::{response, response_bytes};

verus! {

/// The most bytes taken from a connection: one read into a buffer of this size.
pub const READ_BUFFER_SIZE: usize = 4096;

/// Where a connection stands.
#[derive(Clone, Copy, Debug, PartialEq, Eq, Structural)]
pub enum Phase {
    /// Waiting for the outcome of the read.
    Reading,
    /// The response was handed out; waiting for the outcome of the write.
    Writing,
    /// Nothing more is done with the connection; it is dropped.
    Closed,
}

/// What came of the read that a connection asked for.
pub enum ReadOutcome {
    /// The read succeeded with these bytes; none at all when the client had
    /// closed its side.
    Received(Vec<u8>),
    /// The read failed.
    Failed,
}

/// What came of writing the response.
pub enum WriteOutcome {
    /// The write succeeded and took this many bytes from the front of those
    /// it was given; a write may take fewer than all of them.
    Written(usize),
    /// The write failed.
    Failed,
}

/// The next thing to do with a connection.
pub enum HandlerAction {
    /// Read once, at most `capacity` bytes; hand the outcome to `handle_read`.
    Read { capacity: usize },
    /// Write these bytes; hand the outcome to `handle_write`.
    Write { bytes: Vec<u8> },
    /// Log that the read failed and drop the connection without a reply.
    ReportReadFailure,
    /// Log that the write failed and drop the connection.
    ReportWriteFailure,
    /// Drop the connection.
    Close,
}

/// The bytes that an action writes to the client, if it writes any.
pub open spec fn written(a: HandlerAction) -> Option<Seq<u8>> {
    match a {
        HandlerAction::Write { bytes } => Some(bytes@),
        _ => None,
    }
}

/// Whether a read succeeded, whatever it brought.
pub open spec fn read_succeeded(outcome: ReadOutcome) -> bool {
    outcome is Received
}

/// The phase a connection reaches after the outcome of its read.
pub open spec fn phase_after_read(outcome: ReadOutcome) -> Phase {
    if read_succeeded(outcome) {
        Phase::Writing
    } else {
        Phase::Closed
    }
}

/// What a connection writes after the outcome of its read: the response when
/// the read succeeded, whatever was read, and nothing when it failed.
pub open spec fn reply_to_read(outcome: ReadOutcome) -> Option<Seq<u8>> {
    if read_succeeded(outcome) {
        Some(response_bytes())
    } else {
        None
    }
}

/// The handler of one accepted connection.
pub struct Connection {
    phase: Phase,
    unsent: Vec<u8>,
}

impl View for Connection {
    type V = Phase;

    closed spec fn view(&self) -> Phase {
        self.phase
    }
}

impl Connection {
    /// The bytes of the response that are still to be written.
    pub closed spec fn unsent(&self) -> Seq<u8> {
        self.unsent@
    }

    /// Takes a freshly accepted connection and asks for its one read.
    pub fn open() -> (r: (Connection, HandlerAction))
        ensures
            r.0@ == Phase::Reading,
            r.0.unsent() == Seq::<u8>::empty(),
            r.1 == (HandlerAction::Read { capacity: READ_BUFFER_SIZE }),
    {
        let c = Connection { phase: Phase::Reading, unsent: Vec::new() };
        (c, HandlerAction::Read { capacity: READ_BUFFER_SIZE })
    }

    /// Where the connection stands.
    pub fn phase(&self) -> (r: Phase)
        ensures
            r == self@,
    {
        self.phase
    }

    /// Decides on the outcome of the read. What was read is not looked at:
    /// every successful read, of any bytes or of none, is answered with the
    /// response; a failed read is reported and the connection dropped unanswered.
    pub fn handle_read(&mut self, outcome: ReadOutcome) -> (a: HandlerAction)
        requires
            old(self)@ == Phase::Reading,
        ensures
            final(self)@ == phase_after_read(outcome),
            written(a) == reply_to_read(outcome),
            read_succeeded(outcome) ==> written(a) == Some(response_bytes())
                && final(self).unsent() == response_bytes(),
            !read_succeeded(outcome) ==> written(a) is None && a is ReportReadFailure
                && final(self).unsent() == Seq::<u8>::empty(),
    {
        match outcome {
            ReadOutcome::Received(_) => {
                self.phase = Phase::Writing;
                self.unsent = response();
                HandlerAction::Write { bytes: response() }
            },
            ReadOutcome::Failed => {
                self.phase = Phase::Closed;
                self.unsent = Vec::new();
                HandlerAction::ReportReadFailure
            },
        }
    }

    /// Decides on the outcome of a write of the unsent bytes. A write that
    /// took only some of them is followed by a write of the rest, so the
    /// client gets the whole response; once nothing is left the connection is
    /// dropped. A failed write is reported and the connection dropped, and so
    /// is a write that took no byte while some were left, since asking again
    /// could go on forever.
    pub fn handle_write(&mut self, outcome: WriteOutcome) -> (a: HandlerAction)
        requires
            old(self)@ == Phase::Writing,
        ensures
            match outcome {
                WriteOutcome::Failed => {
                    &&& final(self)@ == Phase::Closed
                    &&& a is ReportWriteFailure
                },
                WriteOutcome::Written(n) => if n >= old(self).unsent().len() {
                    &&& final(self)@ == Phase::Closed
                    &&& final(self).unsent() == Seq::<u8>::empty()
                    &&& a is Close
                } else if n == 0 {
                    &&& final(self)@ == Phase::Closed
                    &&& final(self).unsent() == old(self).unsent()
                    &&& a is ReportWriteFailure
                } else {
                    &&& final(self)@ == Phase::Writing
                    &&& old(self).unsent() == old(self).unsent().take(n as int)
                        + final(self).unsent()
                    &&& final(self).unsent() == old(self).unsent().skip(n as int)
                    &&& written(a) == Some(final(self).unsent())
                },
            },
    {
        match outcome {
            WriteOutcome::Written(n) => {
                if n >= self.unsent.len() {
                    self.phase = Phase::Closed;
                    self.unsent = Vec::new();
                    HandlerAction::Close
                } else if n == 0 {
                    self.phase = Phase::Closed;
                    HandlerAction::ReportWriteFailure
                } else {
                    let rest = self.unsent.split_off(n);
                    self.unsent = rest.clone();
                    assert(self.unsent@ =~= rest@);
                    assert(old(self).unsent() =~= old(self).unsent().take(n as int) + rest@);
                    HandlerAction::Write { bytes: rest }
                }
            },
            WriteOutcome::Failed => {
                self.phase = Phase::Closed;
                HandlerAction::ReportWriteFailure
            },
        }
    }
}

/// Whatever two clients send, methods, paths, headers, bodies, garbage or
/// nothing at all, the two are written the same bytes once their reads succeed.
pub proof fn lemma_reply_ignores_request(first: ReadOutcome, second: ReadOutcome)
    requires
        read_succeeded(first),
        read_succeeded(second),
    ensures
        reply_to_read(first) == reply_to_read(second),
        phase_after_read(first) == phase_after_read(second),
{
}

/// A failed read is never answered: nothing is written and the connection is
/// closed.
pub proof fn lemma_failed_read_is_silent(outcome: ReadOutcome)
    requires
        !read_succeeded(outcome),
    ensures
        reply_to_read(outcome) is None,
        phase_after_read(outcome) == Phase::Closed,
{
}

/// Connections do not depend on one another: among any number of them, each
/// whose read succeeded is written the whole response, the same for all,
/// whatever the others sent or whether their reads failed.
pub proof fn lemma_connections_independent(outcomes: Seq<ReadOutcome>)
    requires
        outcomes.len() >= 2,
    ensures
        forall|i: int|
            0 <= i < outcomes.len() && read_succeeded(#[trigger] outcomes[i]) ==> reply_to_read(
                outcomes[i],
            ) == Some(response_bytes()),
        forall|i: int, j: int|
            0 <= i < outcomes.len() && 0 <= j < outcomes.len() && read_succeeded(
                #[trigger] outcomes[i],
            ) && read_succeeded(#[trigger] outcomes[j]) ==> reply_to_read(outcomes[i])
                == reply_to_read(outcomes[j]),
{
}

/// A request longer than the read buffer is answered as any other. The one
/// read takes a prefix of it of at most `READ_BUFFER_SIZE` bytes, the rest is
/// never read, and the response is written all the same.
pub proof fn lemma_oversized_request(request: Seq<u8>, outcome: ReadOutcome)
    requires
        request.len() > READ_BUFFER_SIZE,
        outcome matches ReadOutcome::Received(bytes) && bytes@.len() <= READ_BUFFER_SIZE
            && bytes@ == request.take(bytes@.len() as int),
    ensures
        reply_to_read(outcome) == Some(response_bytes()),
        outcome matches ReadOutcome::Received(bytes) && request.skip(bytes@.len() as int).len()
            > 0,
{
}

} // verus!
