//! The default processor: control messages (FLUSH, END, QUIT) pass through
//! unchanged, every other message is marked REPLY with its content kept.
//! The per-connection handler consults it between reading a frame and
//! writing the reply.

use vstd::prelude::*;
use crate::codec::spec_needs_flush;
use crate::message::Message;
use crate::message::REPLY_BYTE;
use crate::message::TYPE_SIZE;
use crate::message::spec_msg_type;
use crate::traits::Logger;
use crate::traits::Process;

verus! {

/// The library's default processor, generic over the logger it reports to.
#[derive(Debug, Copy, Clone, Default)]
pub struct CommProcessing<L> {
    log: L,
}

impl<L: Logger + Default> CommProcessing<L> {
    /// A processor with a fresh logger.
    pub fn new() -> (r: CommProcessing<L>) {
        CommProcessing { log: L::default() }
    }
}

impl<L> CommProcessing<L> {
    /// Rewrites a message into its reply: FLUSH, END and QUIT pass through
    /// unchanged; any other message keeps its content and becomes a REPLY.
    pub fn process_message(msg: &mut Message)
        requires
            old(msg)@.len() >= TYPE_SIZE,
        ensures
            spec_needs_flush(spec_msg_type(old(msg)@)) ==> final(msg)@ == old(msg)@,
            !spec_needs_flush(spec_msg_type(old(msg)@)) ==> final(msg)@ == old(msg)@.update(
                0,
                REPLY_BYTE,
            ),
    {
        let t = msg.get_type();
        if !crate::codec::needs_flush(t) {
            msg.set_type(REPLY_BYTE);
        }
    }
}

impl<L> Process<Message> for CommProcessing<L> {
    /// The hook form of the default processor; a buffer too short to carry
    /// a type byte is left alone.
    fn process_message(m: &mut Message) {
        if m.len() >= TYPE_SIZE {
            CommProcessing::<L>::process_message(m);
        }
    }
}

} // verus!
