//! The framed message: one byte of message type, eight bytes of big-endian
//! content length, then the content bytes, all held in a single byte buffer.
//! The buffer may be longer than `HEADER_SIZE + content size`; the surplus is
//! padding that the codec never transmits.

use vstd::prelude::*;
use vstd::string::StringSliceAdditionalSpecFns;

verus! {

/// Width of the type field at offset 0.
pub const TYPE_SIZE: usize = 1;

/// Width of the big-endian content-size field at offset 1.
pub const CONTENT_SIZE: usize = 8;

/// Width of the whole header: type byte plus content-size field.
pub const HEADER_SIZE: usize = 9;

/// Wire value of the DEFAULT message type: no reply is expected.
pub const DEFAULT_BYTE: u8 = 0;

/// Wire value of the TEXT message type: a reply is expected.
pub const TEXT_BYTE: u8 = 1;

/// Wire value of the REPLY message type.
pub const REPLY_BYTE: u8 = 2;

/// Wire value of the END message type: ends one session.
pub const END_BYTE: u8 = 4;

/// Wire value of the QUIT message type: shuts the whole listener down.
pub const QUIT_BYTE: u8 = 8;

/// Wire value of the FLUSH message type: like TEXT, but the sender flushes
/// its buffered writer after transmitting.
pub const FLUSH_BYTE: u8 = 16;

/// The known message types.  Unknown type bytes are carried through the
/// codec unchanged, so a `u8` remains the wire representation; this enum
/// names the values the protocol gives a meaning to.
#[derive(Clone, Copy, PartialEq, Eq, Structural, Debug)]
pub enum MessageType {
    Default,
    Text,
    Reply,
    End,
    Quit,
    Flush,
}

impl MessageType {
    /// The wire value of this message type.
    pub open spec fn spec_byte(self) -> u8 {
        match self {
            MessageType::Default => DEFAULT_BYTE,
            MessageType::Text => TEXT_BYTE,
            MessageType::Reply => REPLY_BYTE,
            MessageType::End => END_BYTE,
            MessageType::Quit => QUIT_BYTE,
            MessageType::Flush => FLUSH_BYTE,
        }
    }

    /// Converts this message type to its wire value.
    pub fn to_byte(self) -> (r: u8)
        ensures
            r == self.spec_byte(),
    {
        match self {
            MessageType::Default => DEFAULT_BYTE,
            MessageType::Text => TEXT_BYTE,
            MessageType::Reply => REPLY_BYTE,
            MessageType::End => END_BYTE,
            MessageType::Quit => QUIT_BYTE,
            MessageType::Flush => FLUSH_BYTE,
        }
    }
}

/// The big-endian value of eight bytes.
pub open spec fn be64(s: Seq<u8>) -> u64
    recommends
        s.len() == 8,
{
    ((s[0] as u64) << 56) | ((s[1] as u64) << 48) | ((s[2] as u64) << 40) | ((s[3] as u64) << 32)
        | ((s[4] as u64) << 24) | ((s[5] as u64) << 16) | ((s[6] as u64) << 8) | (s[7] as u64)
}

/// The eight big-endian bytes of a 64-bit value, most significant first.
pub open spec fn be64_bytes(x: u64) -> Seq<u8> {
    seq![
        (x >> 56) as u8,
        (x >> 48) as u8,
        (x >> 40) as u8,
        (x >> 32) as u8,
        (x >> 24) as u8,
        (x >> 16) as u8,
        (x >> 8) as u8,
        x as u8,
    ]
}

/// Reading back the eight big-endian bytes of a value yields the value.
pub proof fn lemma_be64_of_bytes(x: u64)
    ensures
        be64(be64_bytes(x)) == x,
{
    assert((((x >> 56) as u8) as u64) << 56 | (((x >> 48) as u8) as u64) << 48
        | (((x >> 40) as u8) as u64) << 40 | (((x >> 32) as u8) as u64) << 32
        | (((x >> 24) as u8) as u64) << 24 | (((x >> 16) as u8) as u64) << 16
        | (((x >> 8) as u8) as u64) << 8 | ((x as u8) as u64) == x) by (bit_vector);
}

/// The type byte of a message buffer.
pub open spec fn spec_msg_type(s: Seq<u8>) -> u8
    recommends
        s.len() >= HEADER_SIZE,
{
    s[0]
}

/// The content size recorded in a message buffer's header.
pub open spec fn spec_content_size(s: Seq<u8>) -> u64
    recommends
        s.len() >= HEADER_SIZE,
{
    be64(s.subrange(TYPE_SIZE as int, HEADER_SIZE as int))
}

/// The content bytes of a message buffer: the bytes after the header, up to
/// the recorded content size.  Bytes beyond them are padding.
pub open spec fn spec_content(s: Seq<u8>) -> Seq<u8>
    recommends
        msg_wf(s),
{
    s.subrange(HEADER_SIZE as int, HEADER_SIZE + spec_content_size(s))
}

/// Well-formedness of a message buffer: the header is present and the
/// recorded content size never exceeds the room after the header.
pub open spec fn msg_wf(s: Seq<u8>) -> bool {
    &&& s.len() >= HEADER_SIZE
    &&& spec_content_size(s) <= s.len() - HEADER_SIZE
}

/// A framed message: a contiguous byte buffer holding the header and the
/// content, with tolerated padding after the content.
#[derive(Debug)]
pub struct Message {
    br: Vec<u8>,
}

impl View for Message {
    type V = Seq<u8>;

    closed spec fn view(&self) -> Seq<u8> {
        self.br@
    }
}

impl Clone for Message {
    /// A clone carries the same bytes.
    fn clone(&self) -> (r: Self)
        ensures
            r@ == self@,
    {
        Message { br: self.br.clone() }
    }
}

impl Default for Message {
    /// The default message has an empty buffer: not even a header yet.
    fn default() -> (r: Self)
        ensures
            r@ == Seq::<u8>::empty(),
    {
        Message { br: Vec::new() }
    }
}

/// A vector of `sz` zero bytes.
fn zero_vec(sz: usize) -> (r: Vec<u8>)
    ensures
        r@ == Seq::new(sz as nat, |i: int| 0u8),
{
    let mut v: Vec<u8> = Vec::new();
    let mut i: usize = 0;
    while i < sz
        invariant
            i <= sz,
            v@ =~= Seq::new(i as nat, |j: int| 0u8),
        decreases sz - i,
    {
        v.push(0u8);
        i = i + 1;
    }
    proof {
        assert(v@ =~= Seq::new(sz as nat, |i: int| 0u8));
    }
    v
}

impl Message {
    /// A zeroed message buffer of `sz` bytes.  The header must fit.
    pub fn new(sz: usize) -> (r: Message)
        requires
            sz >= HEADER_SIZE,
        ensures
            r@ == Seq::new(sz as nat, |i: int| 0u8),
            msg_wf(r@),
    {
        let br = zero_vec(sz);
        let r = Message { br };
        proof {
            let s = r@;
            assert(s.subrange(TYPE_SIZE as int, HEADER_SIZE as int) =~= be64_bytes(0)) by {
                assert((0u64 >> 56) as u8 == 0 && (0u64 >> 48) as u8 == 0 && (0u64 >> 40) as u8
                    == 0 && (0u64 >> 32) as u8 == 0 && (0u64 >> 24) as u8 == 0 && (0u64 >> 16) as u8
                    == 0 && (0u64 >> 8) as u8 == 0 && 0u64 as u8 == 0) by (bit_vector);
            }
            lemma_be64_of_bytes(0);
            assert(spec_content_size(s) == 0);
        }
        r
    }

    /// The buffer length.
    pub fn len(&self) -> (r: usize)
        ensures
            r == self@.len(),
    {
        self.br.len()
    }

    /// Whether the buffer is empty.
    pub fn is_empty(&self) -> (r: bool)
        ensures
            r == (self@.len() == 0),
    {
        self.br.len() == 0
    }

    /// Zeroes the buffer, keeping its length.
    pub fn init(&mut self)
        ensures
            final(self)@ == Seq::new(old(self)@.len(), |i: int| 0u8),
    {
        let sz = self.br.len();
        self.br = zero_vec(sz);
    }

    /// Sets the type byte.
    pub fn set_type(&mut self, mt: u8)
        requires
            old(self)@.len() >= TYPE_SIZE,
        ensures
            final(self)@ == old(self)@.update(0, mt),
    {
        self.br.set(0, mt);
    }

    /// The type byte.
    pub fn get_type(&self) -> (r: u8)
        requires
            self@.len() >= TYPE_SIZE,
        ensures
            r == spec_msg_type(self@),
    {
        self.br[0]
    }

    /// Copies `buff` into the buffer starting at `offset`.  Bytes that would
    /// fall outside the buffer are dropped; every other byte is unchanged.
    pub fn set_field(&mut self, offset: usize, buff: &[u8])
        ensures
            final(self)@.len() == old(self)@.len(),
            forall|i: int|
                0 <= i < old(self)@.len() ==> final(self)@[i] == (if offset <= i < offset
                    + buff@.len() {
                    buff@[i - offset]
                } else {
                    old(self)@[i]
                }),
    {
        let n = self.br.len();
        let mut i: usize = 0;
        while i < buff.len()
            invariant
                self@.len() == old(self)@.len(),
                n == self@.len(),
                i <= buff@.len(),
                forall|k: int|
                    0 <= k < self@.len() ==> self@[k] == (if offset <= k < offset + i && k - offset
                        < buff@.len() {
                        buff@[k - offset]
                    } else {
                        old(self)@[k]
                    }),
            decreases buff@.len() - i,
        {
            if offset < n && i < n - offset {
                self.br.set(offset + i, buff[i]);
            }
            i = i + 1;
        }
    }

    /// The `size` bytes of the buffer starting at `offset`.
    pub fn get_field(&self, offset: usize, size: usize) -> (r: &[u8])
        requires
            offset + size <= self@.len(),
        ensures
            r@ == self@.subrange(offset as int, offset + size),
    {
        let n = self.br.len();
        vstd::slice::slice_subrange(self.br.as_slice(), offset, offset + size)
    }

    /// Whether the buffer is well formed: the header is present and the
    /// recorded content size fits in the room after the header.
    pub fn is_wf(&self) -> (r: bool)
        ensures
            r == msg_wf(self@),
    {
        let n = self.br.len();
        if n < HEADER_SIZE {
            return false;
        }
        let x: u64 = ((self.br[1] as u64) << 56) | ((self.br[2] as u64) << 48) | ((self.br[3]
            as u64) << 40) | ((self.br[4] as u64) << 32) | ((self.br[5] as u64) << 24) | ((self.br[6]
            as u64) << 16) | ((self.br[7] as u64) << 8) | (self.br[8] as u64);
        proof {
            assert(self@.subrange(TYPE_SIZE as int, HEADER_SIZE as int) =~= seq![
                self@[1],
                self@[2],
                self@[3],
                self@[4],
                self@[5],
                self@[6],
                self@[7],
                self@[8],
            ]);
        }
        x <= (n - HEADER_SIZE) as u64
    }

    /// Records `sz` as the content size, in big-endian bytes after the type
    /// byte.  The rest of the buffer is unchanged.
    pub fn set_content_size(&mut self, sz: usize)
        requires
            old(self)@.len() >= HEADER_SIZE,
        ensures
            final(self)@ == old(self)@.subrange(0, TYPE_SIZE as int) + be64_bytes(sz as u64)
                + old(self)@.subrange(HEADER_SIZE as int, old(self)@.len() as int),
            spec_content_size(final(self)@) == sz,
            final(self)@.len() == old(self)@.len(),
    {
        let bytes = u64_to_be_vec(sz as u64);
        self.set_field(TYPE_SIZE, bytes.as_slice());
        proof {
            lemma_be64_of_bytes(sz as u64);
            assert(self@.subrange(TYPE_SIZE as int, HEADER_SIZE as int) =~= be64_bytes(sz as u64));
            assert(self@ =~= old(self)@.subrange(0, TYPE_SIZE as int) + be64_bytes(sz as u64)
                + old(self)@.subrange(HEADER_SIZE as int, old(self)@.len() as int));
        }
    }

    /// The content size recorded in the header.
    pub fn get_content_size(&self) -> (r: usize)
        requires
            msg_wf(self@),
        ensures
            r == spec_content_size(self@),
    {
        let x: u64 = ((self.br[1] as u64) << 56) | ((self.br[2] as u64) << 48) | ((self.br[3]
            as u64) << 40) | ((self.br[4] as u64) << 32) | ((self.br[5] as u64) << 24) | ((self.br[6]
            as u64) << 16) | ((self.br[7] as u64) << 8) | (self.br[8] as u64);
        proof {
            assert(self@.subrange(TYPE_SIZE as int, HEADER_SIZE as int) =~= seq![
                self@[1],
                self@[2],
                self@[3],
                self@[4],
                self@[5],
                self@[6],
                self@[7],
                self@[8],
            ]);
            assert(x == spec_content_size(self@));
        }
        let n = self.br.len();
        proof {
            assert(x <= n - HEADER_SIZE);
        }
        x as usize
    }

    /// Stores `buff` as the content: records its length as the content size
    /// and copies its bytes after the header.  Padding past the content and
    /// the type byte are unchanged.
    pub fn set_content_bytes(&mut self, buff: &[u8])
        requires
            HEADER_SIZE + buff@.len() <= old(self)@.len(),
        ensures
            final(self)@ == old(self)@.subrange(0, TYPE_SIZE as int) + be64_bytes(
                buff@.len() as u64,
            ) + buff@ + old(self)@.subrange(
                HEADER_SIZE + buff@.len(),
                old(self)@.len() as int,
            ),
            final(self)@.len() == old(self)@.len(),
            msg_wf(final(self)@),
            spec_msg_type(final(self)@) == spec_msg_type(old(self)@),
            spec_content_size(final(self)@) == buff@.len(),
            spec_content(final(self)@) == buff@,
    {
        let n = buff.len();
        self.set_content_size(n);
        self.set_field(HEADER_SIZE, buff);
        proof {
            lemma_be64_of_bytes(n as u64);
            assert(self@.subrange(TYPE_SIZE as int, HEADER_SIZE as int) =~= be64_bytes(n as u64));
            assert(self@ =~= old(self)@.subrange(0, TYPE_SIZE as int) + be64_bytes(n as u64)
                + buff@ + old(self)@.subrange(HEADER_SIZE + n, old(self)@.len() as int));
            assert(spec_content(self@) =~= buff@);
        }
    }

    /// The content bytes: the recorded number of bytes after the header.
    pub fn get_content_bytes(&self) -> (r: &[u8])
        requires
            msg_wf(self@),
        ensures
            r@ == spec_content(self@),
    {
        let sz = self.get_content_size();
        self.get_field(HEADER_SIZE, sz)
    }

    /// Stores the UTF-8 bytes of `s` as the content.
    pub fn set_content_str(&mut self, s: &str)
        requires
            HEADER_SIZE + s.spec_bytes().len() <= old(self)@.len(),
        ensures
            final(self)@.len() == old(self)@.len(),
            msg_wf(final(self)@),
            spec_msg_type(final(self)@) == spec_msg_type(old(self)@),
            spec_content_size(final(self)@) == s.spec_bytes().len(),
            spec_content(final(self)@) == s.spec_bytes(),
    {
        let bytes = s.as_bytes();
        self.set_content_bytes(bytes);
    }

    /// The content bytes read back as UTF-8 text; an error when they are not
    /// valid UTF-8.
    pub fn get_content_str(&self) -> (r: Result<&str, core::str::Utf8Error>)
        requires
            msg_wf(self@),
        ensures
            r is Ok <==> vstd::utf8::valid_utf8(spec_content(self@)),
            r matches Ok(t) ==> t.spec_bytes() == spec_content(self@),
    {
        Self::str_from_bytes(self.get_content_bytes())
    }

    /// The whole buffer, padding included.
    pub fn get_bytes(&self) -> (r: &[u8])
        ensures
            r@ == self@,
    {
        self.br.as_slice()
    }

    /// Copies `buff` over the start of the buffer; the bytes after it are
    /// unchanged.  `buff` must not be longer than the buffer.
    pub fn set_bytes(&mut self, buff: &[u8])
        requires
            buff@.len() <= old(self)@.len(),
        ensures
            final(self)@.len() == old(self)@.len(),
            forall|i: int|
                0 <= i < old(self)@.len() ==> final(self)@[i] == (if i < buff@.len() {
                    buff@[i]
                } else {
                    old(self)@[i]
                }),
    {
        self.set_field(0, buff);
    }

    /// A shared reference to the underlying byte vector.
    pub fn get_ref(&self) -> (r: &Vec<u8>)
        ensures
            r@ == self@,
    {
        &self.br
    }

    /// A mutable reference to the underlying byte vector.
    pub fn get_mut_ref(&mut self) -> (r: &mut Vec<u8>)
        ensures
            r@ == old(self)@,
            final(self)@ == final(r)@,
    {
        &mut self.br
    }

    /// A message sized exactly for the given text: no padding.
    pub fn create_msg_str_fit(content: &str) -> (r: Message)
        requires
            content.spec_bytes().len() <= usize::MAX - HEADER_SIZE,
        ensures
            msg_wf(r@),
            r@.len() == HEADER_SIZE + content.spec_bytes().len(),
            spec_msg_type(r@) == DEFAULT_BYTE,
            spec_content_size(r@) == content.spec_bytes().len(),
            spec_content(r@) == content.spec_bytes(),
    {
        let bytes = content.as_bytes();
        let msg_size = bytes.len() + HEADER_SIZE;
        let mut msg = Message::new(msg_size);
        msg.set_content_size(bytes.len());
        if bytes.len() > 0 {
            msg.set_content_str(content);
        }
        proof {
            if content.spec_bytes().len() == 0 {
                assert(spec_content(msg@) =~= content.spec_bytes());
            }
        }
        msg
    }

    /// A message sized exactly for the given bytes: no padding.
    pub fn create_msg_bytes_fit(content: &[u8]) -> (r: Message)
        requires
            content@.len() <= usize::MAX - HEADER_SIZE,
        ensures
            msg_wf(r@),
            r@.len() == HEADER_SIZE + content@.len(),
            spec_msg_type(r@) == DEFAULT_BYTE,
            spec_content_size(r@) == content@.len(),
            spec_content(r@) == content@,
    {
        let msg_size = content.len() + HEADER_SIZE;
        let mut msg = Message::new(msg_size);
        msg.set_content_size(content.len());
        if content.len() > 0 {
            msg.set_content_bytes(content);
        }
        proof {
            if content@.len() == 0 {
                assert(spec_content(msg@) =~= content@);
            }
        }
        msg
    }

    /// A message holding only a zeroed header.
    pub fn create_msg_header_only() -> (r: Message)
        ensures
            r@ == Seq::new(HEADER_SIZE as nat, |i: int| 0u8),
            msg_wf(r@),
            spec_content_size(r@) == 0,
    {
        let mut msg = Message::new(HEADER_SIZE);
        msg.set_content_size(0);
        proof {
            assert((0u64 >> 56) as u8 == 0 && (0u64 >> 48) as u8 == 0 && (0u64 >> 40) as u8 == 0
                && (0u64 >> 32) as u8 == 0 && (0u64 >> 24) as u8 == 0 && (0u64 >> 16) as u8 == 0 && (
            0u64 >> 8) as u8 == 0 && 0u64 as u8 == 0) by (bit_vector);
            assert(msg@ =~= Seq::new(HEADER_SIZE as nat, |i: int| 0u8));
        }
        msg
    }

    /// Copies the UTF-8 bytes of `s` into the buffer at `offset`, as
    /// `set_field` does.
    pub fn set_str(&mut self, offset: usize, s: &str)
        ensures
            final(self)@.len() == old(self)@.len(),
            forall|i: int|
                0 <= i < old(self)@.len() ==> final(self)@[i] == (if offset <= i < offset
                    + s.spec_bytes().len() {
                    s.spec_bytes()[i - offset]
                } else {
                    old(self)@[i]
                }),
    {
        let buff = Self::str_to_bytes(s);
        self.set_field(offset, buff);
    }

    /// Reads the `size` bytes at `offset` back as UTF-8 text.
    pub fn get_str(&self, offset: usize, size: usize) -> (r: Result<&str, core::str::Utf8Error>)
        requires
            offset + size <= self@.len(),
        ensures
            r is Ok <==> vstd::utf8::valid_utf8(self@.subrange(offset as int, offset + size)),
            r matches Ok(t) ==> t.spec_bytes() == self@.subrange(offset as int, offset + size),
    {
        Self::str_from_bytes(self.get_field(offset, size))
    }

    /// The name of the message's type byte, or `UNKNOWN`.
    pub fn type_display(&self) -> (r: String)
        requires
            self@.len() >= TYPE_SIZE,
        ensures
            spec_msg_type(self@) == DEFAULT_BYTE ==> r@ == "DEFAULT"@,
            spec_msg_type(self@) == END_BYTE ==> r@ == "END"@,
            spec_msg_type(self@) == QUIT_BYTE ==> r@ == "QUIT"@,
            spec_msg_type(self@) == REPLY_BYTE ==> r@ == "REPLY"@,
            spec_msg_type(self@) == TEXT_BYTE ==> r@ == "TEXT"@,
            spec_msg_type(self@) == FLUSH_BYTE ==> r@ == "FLUSH"@,
            !(spec_msg_type(self@) == DEFAULT_BYTE || spec_msg_type(self@) == END_BYTE
                || spec_msg_type(self@) == QUIT_BYTE || spec_msg_type(self@) == REPLY_BYTE
                || spec_msg_type(self@) == TEXT_BYTE || spec_msg_type(self@) == FLUSH_BYTE) ==> r@
                == "UNKNOWN"@,
    {
        let t = self.br[0];
        if t == DEFAULT_BYTE {
            "DEFAULT".to_owned()
        } else if t == END_BYTE {
            "END".to_owned()
        } else if t == QUIT_BYTE {
            "QUIT".to_owned()
        } else if t == REPLY_BYTE {
            "REPLY".to_owned()
        } else if t == TEXT_BYTE {
            "TEXT".to_owned()
        } else if t == FLUSH_BYTE {
            "FLUSH".to_owned()
        } else {
            "UNKNOWN".to_owned()
        }
    }

    /// The UTF-8 bytes of `s`.
    pub fn str_to_bytes(s: &str) -> (r: &[u8])
        ensures
            r@ == s.spec_bytes(),
    {
        s.as_bytes()
    }

    /// Reads bytes back as UTF-8 text.
    ///
    /// Relies on `std::str::from_utf8`: it returns `Ok` exactly when the
    /// bytes are valid UTF-8, and the returned text views those very bytes.
    #[verifier::external_body]
    pub fn str_from_bytes(b: &[u8]) -> (r: Result<&str, core::str::Utf8Error>)
        ensures
            r is Ok <==> vstd::utf8::valid_utf8(b@),
            r matches Ok(t) ==> t.spec_bytes() == b@,
    {
        std::str::from_utf8(b)
    }
}

impl crate::traits::Msg for Message {
    open spec fn bytes(&self) -> Seq<u8> {
        self@
    }

    fn new(sz: usize) -> (r: Self) {
        Message::new(sz)
    }

    fn init(&mut self) {
        Message::init(self);
    }

    fn len(&self) -> (r: usize) {
        Message::len(self)
    }

    fn is_empty(&self) -> (r: bool) {
        Message::is_empty(self)
    }

    fn set_type(&mut self, mt: u8) {
        Message::set_type(self, mt);
    }

    fn get_type(&self) -> (r: u8) {
        Message::get_type(self)
    }

    fn set_content_bytes(&mut self, buff: &[u8]) {
        Message::set_content_bytes(self, buff);
    }

    fn get_content_bytes(&self) -> (r: &[u8]) {
        Message::get_content_bytes(self)
    }

    fn set_content_str(&mut self, s: &str) {
        Message::set_content_str(self, s);
    }

    fn get_content_str(&self) -> (r: Result<&str, core::str::Utf8Error>) {
        Message::get_content_str(self)
    }

    fn set_content_size(&mut self, sz: usize) {
        Message::set_content_size(self, sz);
    }

    fn get_content_size(&self) -> (r: usize) {
        Message::get_content_size(self)
    }

    fn set_bytes(&mut self, buff: &[u8]) {
        Message::set_bytes(self, buff);
    }

    fn get_bytes(&self) -> (r: &[u8]) {
        Message::get_bytes(self)
    }

    fn get_ref(&self) -> (r: &Vec<u8>) {
        Message::get_ref(self)
    }

    fn type_display(&self) -> (r: String) {
        Message::type_display(self)
    }
}

/// The error std reports for bytes that are not valid UTF-8.
#[verifier::external_type_specification]
#[verifier::external_body]
pub struct ExUtf8Error(core::str::Utf8Error);

/// The eight big-endian bytes of `x` as a vector.
fn u64_to_be_vec(x: u64) -> (r: Vec<u8>)
    ensures
        r@ == be64_bytes(x),
{
    let mut v: Vec<u8> = Vec::new();
    v.push((x >> 56) as u8);
    v.push((x >> 48) as u8);
    v.push((x >> 40) as u8);
    v.push((x >> 32) as u8);
    v.push((x >> 24) as u8);
    v.push((x >> 16) as u8);
    v.push((x >> 8) as u8);
    v.push(x as u8);
    proof {
        assert(v@ =~= be64_bytes(x));
    }
    v
}

} // verus!
