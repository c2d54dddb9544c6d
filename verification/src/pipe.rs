//! One direction of a session: its two buffers, and what it decides on each
//! event. The caller owns the streams, the handler and the channels; it waits
//! for an event, hands it to the pipe and carries out what the pipe answers.

use crate::framing::{front_frame, get_packet};
use crate::packet::{is_ssl_request_spec, DatabaseType, Packet};
use crate::packet_handler::{direction_name, Direction};
use vstd::prelude::*;
use vstd::slice::slice_subrange;

verus! {

/// Why a pipe ended.
#[derive(Clone, Copy, Debug, PartialEq, Eq, Structural)]
pub enum FailureKind {
    /// The source delivered zero bytes: the peer has closed.
    SourceClosed,
    /// Reading from the source failed.
    SourceIOError,
    /// The sibling pipe has ended and closed its channel.
    SiblingChannelClosed,
}

/// The failure that ends a pipe. None is retried.
#[derive(Clone, Debug, PartialEq, Eq)]
pub struct PipeError {
    pub kind: FailureKind,
    /// What happened, after the pipe's name and direction.
    pub message: String,
}

/// The text of a failure of the pipe `name` in `direction`.
pub open spec fn error_text(name: Seq<char>, direction: Direction, text: Seq<char>) -> Seq<char> {
    "["@ + name + ":"@ + direction_name(direction) + "]: "@ + text
}

/// The reply that declines an SSL negotiation probe: the single byte `N`.
pub open spec fn ssl_decline_bytes() -> Seq<u8> {
    seq![0x4Eu8]
}

/// What the caller of a pipe does next.
#[derive(Clone, Debug, PartialEq, Eq)]
pub enum Action {
    /// Nothing is left to do: no complete frame is buffered and the output
    /// buffer is empty. Wait for bytes from the source or for a packet from
    /// the sibling, whichever comes first, and hand it to
    /// `process_read_buf` or to `process_short_circuit`.
    Wait,
    /// Write the output buffer to the sink, once, and report how many bytes
    /// it accepted to `consume_written`.
    Flush,
    /// Send this packet to the sibling pipe, and report to
    /// `process_send_result`. The frame that caused it goes neither to the
    /// handler nor to this pipe's own sink.
    ShortCircuit(Packet),
    /// Give this packet to the handler's operation for requests, and its
    /// answer to `process_transformed`.
    HandleRequest(Packet),
    /// Give this packet to the handler's operation for responses, and its
    /// answer to `process_transformed`.
    HandleResponse(Packet),
}

/// What is done with an extracted `frame`: the reply to an SSL negotiation
/// probe goes to the sibling, any other frame to the handler operation that
/// the direction selects.
pub open spec fn dispatches(
    db_type: DatabaseType,
    direction: Direction,
    frame: Seq<u8>,
    action: Action,
) -> bool {
    if is_ssl_request_spec(db_type, frame) {
        action matches Action::ShortCircuit(p) && p.db_type == db_type && p.bytes@
            == ssl_decline_bytes()
    } else {
        match direction {
            Direction::Forward => action matches Action::HandleRequest(p) && p.db_type == db_type
                && p.bytes@ == frame,
            Direction::Backward => action matches Action::HandleResponse(p) && p.db_type
                == db_type && p.bytes@ == frame,
        }
    }
}

/// How many of `actions` hand a packet to the handler.
pub open spec fn handler_calls(actions: Seq<Action>) -> nat
    decreases actions.len(),
{
    if actions.len() == 0 {
        0
    } else {
        let last: nat = if actions.last() is HandleRequest || actions.last() is HandleResponse {
            1
        } else {
            0
        };
        handler_calls(actions.drop_last()) + last
    }
}

/// How many of `frames` are no SSL negotiation probe.
pub open spec fn plain_frames(db_type: DatabaseType, frames: Seq<Seq<u8>>) -> nat
    decreases frames.len(),
{
    if frames.len() == 0 {
        0
    } else {
        let last: nat = if is_ssl_request_spec(db_type, frames.last()) {
            0
        } else {
            1
        };
        plain_frames(db_type, frames.drop_last()) + last
    }
}

/// The handler is called once for each frame that is no SSL negotiation
/// probe, and for no other: where `actions[i]` is what frame `i` was
/// dispatched to, the handler calls among them are as many as those frames.
pub proof fn lemma_one_handler_call_per_plain_frame(
    db_type: DatabaseType,
    direction: Direction,
    frames: Seq<Seq<u8>>,
    actions: Seq<Action>,
)
    requires
        actions.len() == frames.len(),
        forall|i: int|
            0 <= i < frames.len() ==> dispatches(
                db_type,
                direction,
                #[trigger] frames[i],
                actions[i],
            ),
    ensures
        handler_calls(actions) == plain_frames(db_type, frames),
    decreases frames.len(),
{
    if frames.len() > 0 {
        let n = frames.len() - 1;
        assert forall|i: int| 0 <= i < n implies dispatches(
            db_type,
            direction,
            #[trigger] frames.drop_last()[i],
            actions.drop_last()[i],
        ) by {}
        lemma_one_handler_call_per_plain_frame(
            db_type,
            direction,
            frames.drop_last(),
            actions.drop_last(),
        );
    }
}

/// The state of a pipe as contracts see it.
pub struct PipeView {
    pub name: Seq<char>,
    pub db_type: DatabaseType,
    pub direction: Direction,
    /// The bytes read from the source that are not yet part of an extracted frame.
    pub packet_buf: Seq<u8>,
    /// The bytes that wait to be written to the sink.
    pub write_buf: Seq<u8>,
}

impl PipeView {
    /// The same pipe with other buffers.
    pub open spec fn with_buffers(self, packet_buf: Seq<u8>, write_buf: Seq<u8>) -> PipeView {
        PipeView { packet_buf, write_buf, ..self }
    }
}

/// One direction of a session.
pub struct Pipe {
    name: String,
    db_type: DatabaseType,
    direction: Direction,
    packet_buf: Vec<u8>,
    write_buf: Vec<u8>,
}

impl View for Pipe {
    type V = PipeView;

    closed spec fn view(&self) -> PipeView {
        PipeView {
            name: self.name@,
            db_type: self.db_type,
            direction: self.direction,
            packet_buf: self.packet_buf@,
            write_buf: self.write_buf@,
        }
    }
}

impl Pipe {
    /// A pipe with empty buffers.
    pub fn new(name: String, db_type: DatabaseType, direction: Direction) -> (pipe: Pipe)
        ensures
            pipe@ == (PipeView {
                name: name@,
                db_type,
                direction,
                packet_buf: Seq::<u8>::empty(),
                write_buf: Seq::<u8>::empty(),
            }),
    {
        Pipe { name, db_type, direction, packet_buf: Vec::new(), write_buf: Vec::new() }
    }

    /// The name that identifies this pipe in diagnostics.
    pub fn name(&self) -> (s: &str)
        ensures
            s@ == self@.name,
    {
        self.name.as_str()
    }

    /// The protocol of the session.
    pub fn db_type(&self) -> (t: DatabaseType)
        ensures
            t == self@.db_type,
    {
        self.db_type
    }

    /// The direction of this pipe.
    pub fn direction(&self) -> (d: Direction)
        ensures
            d == self@.direction,
    {
        self.direction
    }

    /// The accumulation buffer: the bytes read from the source that are not
    /// yet part of an extracted frame.
    pub fn packet_buf(&self) -> (b: &[u8])
        ensures
            b@ == self@.packet_buf,
    {
        self.packet_buf.as_slice()
    }

    /// The output buffer: the bytes that the sink has still to accept.
    pub fn write_buf(&self) -> (b: &[u8])
        ensures
            b@ == self@.write_buf,
    {
        self.write_buf.as_slice()
    }

    /// A failure of this pipe, its text prefixed with name and direction.
    pub fn create_error(&self, kind: FailureKind, text: &str) -> (e: PipeError)
        ensures
            e.kind == kind,
            e.message@ == error_text(self@.name, self@.direction, text@),
    {
        let mut message = String::from_str("[");
        message.append(self.name.as_str());
        message.append(":");
        message.append(self.direction.name());
        message.append("]: ");
        message.append(text);
        PipeError { kind, message }
    }

    /// Takes the outcome of one read from the source. A read of `n > 0`
    /// bytes adds the first `n` bytes of `read_buf` to the accumulation
    /// buffer. A read of zero bytes and a failed read end the pipe.
    pub fn process_read_buf(&mut self, read_result: Result<usize, String>, read_buf: &[u8]) -> (r:
        Result<(), PipeError>)
        requires
            read_result matches Ok(n) ==> n <= read_buf@.len(),
        ensures
            match read_result {
                Ok(n) => if n == 0 {
                    &&& final(self)@ == old(self)@
                    &&& r matches Err(e) && e.kind == FailureKind::SourceClosed && e.message@
                        == error_text(
                        old(self)@.name,
                        old(self)@.direction,
                        "Read 0 bytes, closing pipe."@,
                    )
                } else {
                    &&& r is Ok
                    &&& final(self)@ == old(self)@.with_buffers(
                        old(self)@.packet_buf + read_buf@.take(n as int),
                        old(self)@.write_buf,
                    )
                },
                Err(cause) => {
                    &&& final(self)@ == old(self)@
                    &&& r matches Err(e) && e.kind == FailureKind::SourceIOError && e.message@
                        == error_text(old(self)@.name, old(self)@.direction, cause@)
                },
            },
    {
        match read_result {
            Ok(n) => {
                if n == 0 {
                    return Err(
                        self.create_error(FailureKind::SourceClosed, "Read 0 bytes, closing pipe."),
                    );
                }
                self.packet_buf.extend_from_slice(slice_subrange(read_buf, 0, n));
                assert(self.packet_buf@ =~= old(self).packet_buf@ + read_buf@.take(n as int));
                Ok(())
            },
            Err(cause) => Err(self.create_error(FailureKind::SourceIOError, cause.as_str())),
        }
    }

    /// Says what is to be done next. While a complete frame is buffered it
    /// is extracted and dispatched: an SSL negotiation probe is answered
    /// with the decline reply, which goes to the sibling, and any other
    /// frame goes to the handler. After that the output buffer is flushed
    /// until it is empty, and only then does the pipe wait for an event.
    pub fn next_action(&mut self) -> (action: Action)
        ensures
            match front_frame(old(self)@.db_type, old(self)@.packet_buf) {
                Some(frame) => {
                    &&& final(self)@ == old(self)@.with_buffers(
                        old(self)@.packet_buf.skip(frame.len() as int),
                        old(self)@.write_buf,
                    )
                    &&& dispatches(old(self)@.db_type, old(self)@.direction, frame, action)
                },
                None => {
                    &&& final(self)@ == old(self)@
                    &&& action == if old(self)@.write_buf.len() > 0 {
                        Action::Flush
                    } else {
                        Action::Wait
                    }
                },
            },
            action == Action::Wait ==> final(self)@.write_buf.len() == 0 && front_frame(
                final(self)@.db_type,
                final(self)@.packet_buf,
            ) is None,
    {
        match get_packet(self.db_type, &mut self.packet_buf) {
            Some(packet) => {
                if packet.is_ssl_request() {
                    let reply: Vec<u8> = vec![0x4Eu8];
                    assert(reply@ =~= ssl_decline_bytes());
                    Action::ShortCircuit(Packet::new(self.db_type, reply))
                } else {
                    match self.direction {
                        Direction::Forward => Action::HandleRequest(packet),
                        Direction::Backward => Action::HandleResponse(packet),
                    }
                }
            },
            None => {
                if self.write_buf.is_empty() {
                    Action::Wait
                } else {
                    Action::Flush
                }
            },
        }
    }

    /// Takes the outcome of sending the decline reply to the sibling. A
    /// send that failed ends the pipe: the sibling is gone.
    pub fn process_send_result(&self, sent: bool) -> (r: Result<(), PipeError>)
        ensures
            if sent {
                r is Ok
            } else {
                r matches Err(e) && e.kind == FailureKind::SiblingChannelClosed && e.message@
                    == error_text(
                    self@.name,
                    self@.direction,
                    "Error sending SSL response of no"@,
                )
            },
    {
        if sent {
            Ok(())
        } else {
            Err(
                self.create_error(
                    FailureKind::SiblingChannelClosed,
                    "Error sending SSL response of no",
                ),
            )
        }
    }

    /// Takes the packet that the handler returned: its bytes go to the end
    /// of the output buffer.
    pub fn process_transformed(&mut self, packet: &Packet)
        ensures
            final(self)@ == old(self)@.with_buffers(
                old(self)@.packet_buf,
                old(self)@.write_buf + packet.bytes@,
            ),
    {
        self.write_buf.extend_from_slice(packet.bytes.as_slice());
        assert(self.write_buf@ =~= old(self).write_buf@ + packet.bytes@);
    }

    /// Takes what the channel from the sibling pipe delivered. The bytes of
    /// a packet go to the end of the output buffer as they are, past framing
    /// and handler. A closed channel ends the pipe.
    pub fn process_short_circuit(&mut self, packet: Option<Packet>) -> (r: Result<(), PipeError>)
        ensures
            match packet {
                Some(p) => {
                    &&& r is Ok
                    &&& final(self)@ == old(self)@.with_buffers(
                        old(self)@.packet_buf,
                        old(self)@.write_buf + p.bytes@,
                    )
                },
                None => {
                    &&& final(self)@ == old(self)@
                    &&& r matches Err(e) && e.kind == FailureKind::SiblingChannelClosed
                        && e.message@ == error_text(
                        old(self)@.name,
                        old(self)@.direction,
                        "other_pipe_receiver prematurely closed"@,
                    )
                },
            },
    {
        match packet {
            Some(p) => {
                self.write_buf.extend_from_slice(p.bytes.as_slice());
                assert(self.write_buf@ =~= old(self).write_buf@ + p.bytes@);
                Ok(())
            },
            None => Err(
                self.create_error(
                    FailureKind::SiblingChannelClosed,
                    "other_pipe_receiver prematurely closed",
                ),
            ),
        }
    }

    /// Removes from the output buffer the `n` bytes at its front that the
    /// sink has accepted.
    pub fn consume_written(&mut self, n: usize)
        requires
            n <= old(self)@.write_buf.len(),
        ensures
            final(self)@ == old(self)@.with_buffers(
                old(self)@.packet_buf,
                old(self)@.write_buf.skip(n as int),
            ),
    {
        let rest = self.write_buf.split_off(n);
        self.write_buf = rest;
    }
}

} // verus!
