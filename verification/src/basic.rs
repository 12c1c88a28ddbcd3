//! A first, unframed message shape: a type attribute next to a growable
//! body buffer, with the codec work left to whoever writes it out.  The
//! queued transport works on the framed `message::Message`; this simpler
//! shape serves the unqueued sender and receiver built around it.

use vstd::prelude::*;
use vstd::string::StringSliceAdditionalSpecFns;
use crate::logger::console_write;

verus! {

/// A logging hook with a way to make the default sink.
pub trait Log: Sized {
    /// Writes one piece of log text.
    fn write(msg: &str);

    /// The implementation's default instance.
    fn default() -> Self;
}

/// A `Log` that drops everything.
pub struct MuteLog;

impl Log for MuteLog {
    fn write(_msg: &str) {
    }

    fn default() -> (r: MuteLog) {
        MuteLog {  }
    }
}

impl MuteLog {
    /// A fresh mute logger.
    pub fn new() -> (r: MuteLog) {
        MuteLog {  }
    }
}

/// A `Log` that prints to the console.
pub struct VerboseLog;

impl Log for VerboseLog {
    fn write(msg: &str) {
        console_write(msg);
    }

    fn default() -> (r: VerboseLog) {
        VerboseLog {  }
    }
}

impl VerboseLog {
    /// A fresh verbose logger.
    pub fn new() -> (r: VerboseLog) {
        VerboseLog {  }
    }
}

/// The message type attribute: a byte restricted to the values this
/// transport knows.
#[derive(Debug, Copy, Clone, PartialEq, Eq, Structural)]
pub struct MessageType {
    msgtype: u8,
}

impl View for MessageType {
    type V = u8;

    closed spec fn view(&self) -> u8 {
        self.msgtype
    }
}

impl MessageType {
    /// Wire value of a text message.
    pub const TEXT: u8 = 1;

    /// Wire value of a byte message.
    pub const BYTES: u8 = 2;

    /// Wire value of the message that ends a session.
    pub const END: u8 = 4;

    /// Wire value of the message that shuts the receiver down.
    pub const QUIT: u8 = 8;

    /// Whether `mt` is a value this transport knows.
    pub open spec fn spec_valid(mt: u8) -> bool {
        mt == MessageType::TEXT || mt == MessageType::BYTES || mt == MessageType::END || mt
            == MessageType::QUIT
    }

    /// The type value.
    pub fn get_type(&self) -> (r: u8)
        ensures
            r == self@,
    {
        self.msgtype
    }

    /// Sets the type value; an unknown value is ignored.
    pub fn set_type(&mut self, mt: u8)
        ensures
            MessageType::spec_valid(mt) ==> final(self)@ == mt,
            !MessageType::spec_valid(mt) ==> final(self)@ == old(self)@,
    {
        if mt == MessageType::TEXT || mt == MessageType::BYTES || mt == MessageType::END || mt
            == MessageType::QUIT {
            self.msgtype = mt;
        }
    }
}

impl crate::traits::MsgType for MessageType {
    fn get_type(&self) -> u8 {
        MessageType::get_type(self)
    }

    fn set_type(&mut self, mt: u8) {
        MessageType::set_type(self, mt);
    }
}

/// An unframed message: its type attribute and its body bytes.
#[derive(Debug)]
pub struct Message {
    mt: MessageType,
    body_buffer: Vec<u8>,
}

impl View for Message {
    type V = (u8, Seq<u8>);

    closed spec fn view(&self) -> (u8, Seq<u8>) {
        (self.mt@, self.body_buffer@)
    }
}

impl Clone for Message {
    /// A clone carries the same type and body.
    fn clone(&self) -> (r: Self)
        ensures
            r@ == self@,
    {
        Message { mt: self.mt, body_buffer: self.body_buffer.clone() }
    }
}

impl Default for Message {
    /// The default message is text-typed with an empty body.
    fn default() -> (r: Self)
        ensures
            r@ == (MessageType::TEXT, Seq::<u8>::empty()),
    {
        Message { mt: MessageType { msgtype: MessageType::TEXT }, body_buffer: Vec::new() }
    }
}

impl Message {
    /// A text-typed message with an empty body.
    pub fn new() -> (r: Message)
        ensures
            r@ == (MessageType::TEXT, Seq::<u8>::empty()),
    {
        Message { mt: MessageType { msgtype: MessageType::TEXT }, body_buffer: Vec::<u8>::new() }
    }

    /// Sets the type attribute; an unknown value is ignored.
    pub fn set_type(&mut self, mt: u8)
        ensures
            final(self)@.1 == old(self)@.1,
            MessageType::spec_valid(mt) ==> final(self)@.0 == mt,
            !MessageType::spec_valid(mt) ==> final(self)@.0 == old(self)@.0,
    {
        self.mt.set_type(mt);
    }

    /// The type attribute.
    pub fn get_type(&self) -> (r: MessageType)
        ensures
            r@ == self@.0,
    {
        self.mt
    }

    /// Replaces the body with the given bytes.
    pub fn set_body_bytes(&mut self, b: Vec<u8>)
        ensures
            final(self)@ == (old(self)@.0, b@),
    {
        self.body_buffer = b;
    }

    /// Appends the UTF-8 bytes of `s` to the body.
    pub fn set_body_str(&mut self, s: &str)
        ensures
            final(self)@.0 == old(self)@.0,
            final(self)@.1 == old(self)@.1 + s.spec_bytes(),
    {
        let buff = s.as_bytes();
        let n = buff.len();
        let mut i: usize = 0;
        while i < n
            invariant
                i <= n,
                n == s.spec_bytes().len(),
                buff@ == s.spec_bytes(),
                self@.0 == old(self)@.0,
                self@.1 == old(self)@.1 + s.spec_bytes().take(i as int),
            decreases n - i,
        {
            self.body_buffer.push(buff[i]);
            proof {
                assert(self@.1 =~= old(self)@.1 + s.spec_bytes().take(i + 1));
            }
            i = i + 1;
        }
        proof {
            assert(old(self)@.1 + s.spec_bytes().take(n as int) =~= old(self)@.1
                + s.spec_bytes());
        }
    }

    /// The body length in bytes.
    pub fn get_body_size(&self) -> (r: usize)
        ensures
            r == self@.1.len(),
    {
        self.body_buffer.len()
    }

    /// The body bytes.
    pub fn get_body(&self) -> (r: &Vec<u8>)
        ensures
            r@ == self@.1,
    {
        &self.body_buffer
    }

    /// The body read as text, with invalid UTF-8 replaced as
    /// `from_utf8_lossy` replaces it.
    pub fn get_body_str(&self) -> (r: String)
        ensures
            r@ == lossy_chars(self@.1),
            vstd::utf8::valid_utf8(self@.1) ==> r@ == vstd::utf8::decode_utf8(self@.1),
    {
        bytes_to_lossy_string(self.body_buffer.as_slice())
    }

    /// Empties the body; the type attribute stays.
    pub fn clear(&mut self)
        ensures
            final(self)@ == (old(self)@.0, Seq::<u8>::empty()),
    {
        self.body_buffer.clear();
    }

    /// The name of the message's type attribute: TEXT or BYTES by value,
    /// and END for everything else.
    pub fn type_display(&self) -> (r: String)
        ensures
            self@.0 == MessageType::TEXT ==> r@ == "TEXT"@,
            self@.0 == MessageType::BYTES ==> r@ == "BYTES"@,
            !(self@.0 == MessageType::TEXT || self@.0 == MessageType::BYTES) ==> r@ == "END"@,
    {
        let typ: u8 = self.mt.get_type();
        if typ == MessageType::TEXT {
            "TEXT".to_owned()
        } else if typ == MessageType::BYTES {
            "BYTES".to_owned()
        } else {
            "END".to_owned()
        }
    }
}

/// What `String::from_utf8_lossy` makes of a byte sequence.
pub uninterp spec fn lossy_chars(b: Seq<u8>) -> Seq<char>;

/// Reads bytes as text, substituting for invalid UTF-8.
///
/// Relies on `String::from_utf8_lossy`: the result is a function of the
/// bytes alone, and valid UTF-8 decodes to itself.
#[verifier::external_body]
fn bytes_to_lossy_string(b: &[u8]) -> (r: String)
    ensures
        r@ == lossy_chars(b@),
        vstd::utf8::valid_utf8(b@) ==> r@ == vstd::utf8::decode_utf8(b@),
{
    String::from_utf8_lossy(b).to_string()
}

/// Copies a byte slice into a fresh vector.
pub fn bytes_to_vec(ba: &[u8]) -> (r: Vec<u8>)
    ensures
        r@ == ba@,
{
    vstd::slice::slice_to_vec(ba)
}

} // verus!
