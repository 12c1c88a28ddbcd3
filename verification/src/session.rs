//! The per-connection handler's decisions.  The handler loop reads a frame,
//! consults the processor, writes the reply, and repeats until a control
//! message or an I/O failure closes the session.  What to do with each
//! received type byte, and how the session state advances, is decided here;
//! the loop around it performs the socket work.

use vstd::prelude::*;
use crate::message::Message;
use crate::message::END_BYTE;
use crate::message::QUIT_BYTE;
use crate::message::HEADER_SIZE;
use crate::message::msg_wf;
use crate::message::spec_msg_type;
use crate::message::spec_content_size;

verus! {

/// What the handler does with one received message.
#[derive(Clone, Copy, PartialEq, Eq, Structural, Debug)]
pub enum SessionControl {
    /// END: this session is done; the connection closes and the worker
    /// returns to the pool.
    EndSession,
    /// QUIT: the whole listener shuts down; the run flag is cleared and the
    /// blocked accept is woken.
    QuitServer,
    /// Any other type: the processor builds a reply to send back.
    Data,
}

/// The handler's decision for a received type byte.
pub open spec fn spec_classify(t: u8) -> SessionControl {
    if t == END_BYTE {
        SessionControl::EndSession
    } else if t == QUIT_BYTE {
        SessionControl::QuitServer
    } else {
        SessionControl::Data
    }
}

/// Decides what the handler does with a message of type byte `t`: END ends
/// the session, QUIT shuts the server down, everything else is data for the
/// processor.
pub fn classify(t: u8) -> (r: SessionControl)
    ensures
        r == spec_classify(t),
        r == SessionControl::EndSession <==> t == END_BYTE,
        r == SessionControl::QuitServer <==> t == QUIT_BYTE,
        r == SessionControl::Data <==> (t != END_BYTE && t != QUIT_BYTE),
{
    if t == END_BYTE {
        SessionControl::EndSession
    } else if t == QUIT_BYTE {
        SessionControl::QuitServer
    } else {
        SessionControl::Data
    }
}

/// The states of one connection's handler.
#[derive(Clone, Copy, PartialEq, Eq, Structural, Debug)]
pub enum SessionState {
    /// Waiting for the next frame.
    Reading,
    /// The processor is building the reply.
    Processing,
    /// The reply is being written.
    Writing,
    /// The session is over.
    Closed,
}

/// What happens to a connection's handler.
#[derive(Clone, Copy, PartialEq, Eq, Structural, Debug)]
pub enum SessionEvent {
    /// A frame with the given type byte was read.
    FrameRead(u8),
    /// The read failed: the peer closed or the frame was cut short.
    ReadFailed,
    /// The processor returned the reply.
    ProcessorDone,
    /// The reply was written.
    ReplySent,
}

/// How a session state advances on an event.  A read of a control frame or
/// a failed read closes the session; data frames go through processing and
/// writing and back to reading.  An event that cannot occur in a state
/// leaves the state unchanged.
pub open spec fn spec_session_next(s: SessionState, e: SessionEvent) -> SessionState {
    match (s, e) {
        (SessionState::Reading, SessionEvent::FrameRead(t)) => if t == END_BYTE || t == QUIT_BYTE {
            SessionState::Closed
        } else {
            SessionState::Processing
        },
        (SessionState::Reading, SessionEvent::ReadFailed) => SessionState::Closed,
        (SessionState::Processing, SessionEvent::ProcessorDone) => SessionState::Writing,
        (SessionState::Writing, SessionEvent::ReplySent) => SessionState::Reading,
        (_, _) => s,
    }
}

/// Advances a session state by one event.
pub fn session_next(s: SessionState, e: SessionEvent) -> (r: SessionState)
    ensures
        r == spec_session_next(s, e),
{
    match (s, e) {
        (SessionState::Reading, SessionEvent::FrameRead(t)) => {
            if t == END_BYTE || t == QUIT_BYTE {
                SessionState::Closed
            } else {
                SessionState::Processing
            }
        },
        (SessionState::Reading, SessionEvent::ReadFailed) => SessionState::Closed,
        (SessionState::Processing, SessionEvent::ProcessorDone) => SessionState::Writing,
        (SessionState::Writing, SessionEvent::ReplySent) => SessionState::Reading,
        (_, _) => s,
    }
}

/// A closed session stays closed, whatever else is reported about it.
pub proof fn lemma_closed_is_final(e: SessionEvent)
    ensures
        spec_session_next(SessionState::Closed, e) == SessionState::Closed,
{
}

/// The header-only QUIT message the stop routine sends to its own listener
/// so the blocked accept wakes, observes the cleared run flag, and exits.
pub fn make_quit_message() -> (r: Message)
    ensures
        msg_wf(r@),
        r@.len() == HEADER_SIZE,
        spec_msg_type(r@) == QUIT_BYTE,
        spec_content_size(r@) == 0,
    {
    make_control_message(QUIT_BYTE)
}

/// The header-only END message a connector posts to finish its session;
/// the send worker transmits it, flushes, and stops.
pub fn make_end_message() -> (r: Message)
    ensures
        msg_wf(r@),
        r@.len() == HEADER_SIZE,
        spec_msg_type(r@) == END_BYTE,
        spec_content_size(r@) == 0,
    {
    make_control_message(END_BYTE)
}

/// A header-only message of the given type byte.
pub fn make_control_message(t: u8) -> (r: Message)
    ensures
        msg_wf(r@),
        r@.len() == HEADER_SIZE,
        spec_msg_type(r@) == t,
        spec_content_size(r@) == 0,
    {
    let mut m = Message::create_msg_header_only();
    let ghost m0 = m@;
    m.set_type(t);
    proof {
        assert(m@.subrange(1, HEADER_SIZE as int) =~= m0.subrange(1, HEADER_SIZE as int));
    }
    m
}

} // verus!
