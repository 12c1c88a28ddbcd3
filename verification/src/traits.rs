//! The pluggable hooks: a logger that a build may mute, and the processor
//! that turns a received message into its reply.  Both are capabilities the
//! application chooses at construction time.

use vstd::prelude::*;
use vstd::string::StringSliceAdditionalSpecFns;
use crate::message::HEADER_SIZE;
use crate::message::TYPE_SIZE;
use crate::message::msg_wf;
use crate::message::spec_msg_type;
use crate::message::spec_content_size;
use crate::message::spec_content;

verus! {

/// A logging sink.  Implementations decide whether the text goes anywhere.
pub trait Logger {
    /// Writes one piece of log text.
    fn write(msg: &str);
}

/// Read and write access to a message's type byte.
pub trait MsgType {
    /// The type byte.
    fn get_type(&self) -> u8;

    /// Sets the type byte.
    fn set_type(&mut self, mt: u8);
}

/// The interface of a framed message: a byte buffer holding a type byte,
/// a big-endian content size, the content, and tolerated padding.  The
/// contracts are stated over `bytes`, the buffer the implementation holds.
pub trait Msg: Sized {
    /// The bytes of the message buffer.
    spec fn bytes(&self) -> Seq<u8>;

    /// A zeroed buffer of `sz` bytes; the header must fit.
    fn new(sz: usize) -> (r: Self)
        requires
            sz >= HEADER_SIZE,
        ensures
            r.bytes() == Seq::new(sz as nat, |i: int| 0u8),
    ;

    /// Zeroes the buffer, keeping its length.
    fn init(&mut self)
        ensures
            final(self).bytes() == Seq::new(old(self).bytes().len(), |i: int| 0u8),
    ;

    /// The buffer length.
    fn len(&self) -> (r: usize)
        ensures
            r == self.bytes().len(),
    ;

    /// Whether the buffer is empty.
    fn is_empty(&self) -> (r: bool)
        ensures
            r == (self.bytes().len() == 0),
    ;

    /// Sets the type byte.
    fn set_type(&mut self, mt: u8)
        requires
            old(self).bytes().len() >= TYPE_SIZE,
        ensures
            final(self).bytes() == old(self).bytes().update(0, mt),
    ;

    /// The type byte.
    fn get_type(&self) -> (r: u8)
        requires
            self.bytes().len() >= TYPE_SIZE,
        ensures
            r == spec_msg_type(self.bytes()),
    ;

    /// Stores `buff` as the content and records its length as the content
    /// size.
    fn set_content_bytes(&mut self, buff: &[u8])
        requires
            HEADER_SIZE + buff@.len() <= old(self).bytes().len(),
        ensures
            final(self).bytes().len() == old(self).bytes().len(),
            msg_wf(final(self).bytes()),
            spec_msg_type(final(self).bytes()) == spec_msg_type(old(self).bytes()),
            spec_content_size(final(self).bytes()) == buff@.len(),
            spec_content(final(self).bytes()) == buff@,
    ;

    /// The content bytes.
    fn get_content_bytes(&self) -> (r: &[u8])
        requires
            msg_wf(self.bytes()),
        ensures
            r@ == spec_content(self.bytes()),
    ;

    /// Stores the UTF-8 bytes of `s` as the content.
    fn set_content_str(&mut self, s: &str)
        requires
            HEADER_SIZE + s.spec_bytes().len() <= old(self).bytes().len(),
        ensures
            final(self).bytes().len() == old(self).bytes().len(),
            msg_wf(final(self).bytes()),
            spec_msg_type(final(self).bytes()) == spec_msg_type(old(self).bytes()),
            spec_content_size(final(self).bytes()) == s.spec_bytes().len(),
            spec_content(final(self).bytes()) == s.spec_bytes(),
    ;

    /// The content bytes read back as UTF-8 text.
    fn get_content_str(&self) -> (r: Result<&str, core::str::Utf8Error>)
        requires
            msg_wf(self.bytes()),
        ensures
            r is Ok <==> vstd::utf8::valid_utf8(spec_content(self.bytes())),
            r matches Ok(t) ==> t.spec_bytes() == spec_content(self.bytes()),
    ;

    /// Records `sz` as the content size.
    fn set_content_size(&mut self, sz: usize)
        requires
            old(self).bytes().len() >= HEADER_SIZE,
        ensures
            final(self).bytes().len() == old(self).bytes().len(),
            spec_content_size(final(self).bytes()) == sz,
            spec_msg_type(final(self).bytes()) == spec_msg_type(old(self).bytes()),
    ;

    /// The content size recorded in the header.
    fn get_content_size(&self) -> (r: usize)
        requires
            msg_wf(self.bytes()),
        ensures
            r == spec_content_size(self.bytes()),
    ;

    /// Copies `buff` over the start of the buffer.
    fn set_bytes(&mut self, buff: &[u8])
        requires
            buff@.len() <= old(self).bytes().len(),
        ensures
            final(self).bytes().len() == old(self).bytes().len(),
            forall|i: int|
                0 <= i < old(self).bytes().len() ==> final(self).bytes()[i] == (if i < buff@.len() {
                    buff@[i]
                } else {
                    old(self).bytes()[i]
                }),
    ;

    /// The whole buffer, padding included.
    fn get_bytes(&self) -> (r: &[u8])
        ensures
            r@ == self.bytes(),
    ;

    /// A shared reference to the underlying byte vector.
    fn get_ref(&self) -> (r: &Vec<u8>)
        ensures
            r@ == self.bytes(),
    ;

    /// The name of the message's type byte.
    fn type_display(&self) -> (r: String)
        requires
            self.bytes().len() >= TYPE_SIZE,
    ;
}

/// The application hook that transforms a received message into the reply
/// the handler sends back.  It must be safe to call from every pool worker
/// at once, so implementations are expected to be stateless.
pub trait Process<M> {
    /// Rewrites a received message in place into the reply to send.
    fn process_message(m: &mut M);
}

} // verus!
