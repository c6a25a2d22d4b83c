//! Buffers, result messages and call results.
//!
//! A buffer owns its bytes; handing it across the boundary moves it.
use vstd::prelude::*;
use core::marker::PhantomData;
use vstd::utf8::encode_utf8;
use crate::text::{join, push_char, seq_join, views};

verus! {

/// A code that tells how a call went.
pub type ResultCode = i8;

/// The call succeeded.
pub const RC_NO_ERROR: i8 = 0;
/// A message could not be decoded.
pub const RC_DECODE: i8 = -1;
/// A message could not be encoded.
pub const RC_ENCODE: i8 = -2;
/// The call failed for a reason that it did not name.
pub const RC_UNKNOWN: i8 = -128;

/// Bytes that cross the boundary. An empty buffer is the null buffer.
#[derive(Debug)]
pub struct Buffer {
    pub bytes: Vec<u8>,
}

impl View for Buffer {
    type V = Seq<u8>;

    open spec fn view(&self) -> Seq<u8> {
        self.bytes@
    }
}

impl Buffer {
    /// The null buffer, which holds nothing.
    pub fn null() -> (r: Buffer)
        ensures
            r@ == Seq::<u8>::empty(),
    {
        Buffer { bytes: Vec::new() }
    }

    /// The buffer that takes over `v`.
    pub fn from_vec(v: Vec<u8>) -> (r: Buffer)
        ensures
            r@ == v@,
    {
        Buffer { bytes: v }
    }

    /// Whether the buffer holds nothing.
    pub fn is_empty(&self) -> (r: bool)
        ensures
            r == (self@.len() == 0),
    {
        self.bytes.len() == 0
    }

    /// The bytes of the buffer; none for the null buffer.
    pub fn read(&self) -> (r: Option<&[u8]>)
        ensures
            self@.len() == 0 ==> r is None,
            self@.len() > 0 ==> (r matches Some(s) && s@ == self@),
    {
        if self.is_empty() {
            None
        } else {
            Some(self.bytes.as_slice())
        }
    }

    /// The text that `Display` gives a buffer: the `Debug` text of `read()`,
    /// `None` or `Some([b0, b1, ...])` with the bytes in decimal.
    pub fn to_text(&self) -> (r: String)
        ensures
            r@ == buffer_text(self@),
    {
        if self.is_empty() {
            return String::from_str("None");
        }
        let ghost f = |b: u8| dec_u8(b);
        let mut parts: Vec<String> = Vec::new();
        let n = self.bytes.len();
        let mut i: usize = 0;
        while i < n
            invariant
                n == self@.len(),
                i <= n,
                f == (|b: u8| dec_u8(b)),
                views(parts@) =~= self@.take(i as int).map_values(f),
            decreases n - i,
        {
            let t = dec_u8_text(self.bytes[i]);
            let ghost old_parts = parts@;
            parts.push(t);
            assert(views(parts@) =~= views(old_parts).push(t@));
            assert(self@.take(i + 1) =~= self@.take(i as int).push(self@[i as int]));
            i = i + 1;
        }
        assert(self@.take(n as int) =~= self@);
        let mut r = String::from_str("Some([");
        let body = join(&parts, ", ");
        r.append(body.as_str());
        r.append("])");
        r
    }
}

impl Default for Buffer {
    fn default() -> (r: Buffer)
        ensures
            r@ == Seq::<u8>::empty(),
    {
        Buffer::null()
    }
}

/// The decimal digit `d` (below 10).
pub open spec fn digit(d: u8) -> char {
    ((d + 48) as u8) as char
}

/// The decimal text of a byte.
pub open spec fn dec_u8(b: u8) -> Seq<char> {
    if b < 10 {
        seq![digit(b)]
    } else if b < 100 {
        seq![digit(b / 10), digit(b % 10)]
    } else {
        seq![digit(b / 100), digit((b / 10) % 10), digit(b % 10)]
    }
}

/// The decimal text of a byte.
fn dec_u8_text(b: u8) -> (r: String)
    ensures
        r@ == dec_u8(b),
{
    let mut r = String::new();
    if b >= 100 {
        push_char(&mut r, ((b / 100 + 48) as u8) as char);
    }
    if b >= 10 {
        push_char(&mut r, (((b / 10) % 10 + 48) as u8) as char);
    }
    push_char(&mut r, ((b % 10 + 48) as u8) as char);
    assert(r@ =~= dec_u8(b));
    r
}

/// The text of a buffer: `None` for the null buffer, else `Some([..])` with
/// the bytes in decimal, separated by `, `.
pub open spec fn buffer_text(bytes: Seq<u8>) -> Seq<char> {
    if bytes.len() == 0 {
        "None"@
    } else {
        "Some(["@ + seq_join(bytes.map_values(|b: u8| dec_u8(b)), ", "@) + "])"@
    }
}

/// An error of a call: its code and its message.
#[derive(Debug)]
pub struct ResultMsg {
    pub code: ResultCode,
    pub msg: String,
}

/// The result of a call across the boundary.
pub type ABIResult<T> = Result<T, ResultMsg>;

/// The code that an error is reported with: an error without a code
/// (`RC_NO_ERROR`) is reported as `RC_UNKNOWN`.
pub open spec fn error_code(code: i8) -> i8 {
    if code == RC_NO_ERROR {
        RC_UNKNOWN
    } else {
        code
    }
}

/// The encoded bytes of a message of type `T`.
#[derive(Debug)]
pub struct TBytes<T> {
    pub bytes: Vec<u8>,
    pub _p: PhantomData<T>,
}

impl<T> TBytes<T> {
    /// The encoded message `bytes`.
    pub fn new(bytes: Vec<u8>) -> (r: TBytes<T>)
        ensures
            r.bytes@ == bytes@,
    {
        TBytes { bytes, _p: PhantomData }
    }

    /// The bytes, which are already encoded: this never fails.
    pub fn try_into_bytes(self) -> (r: ABIResult<Vec<u8>>)
        ensures
            r matches Ok(v) && v@ == self.bytes@,
    {
        Ok(self.bytes)
    }
}

/// An argument handed to Rust: the buffer of its encoded message.
#[derive(Debug)]
pub struct RustFfiArg<T> {
    pub buf: Buffer,
    pub _p: PhantomData<T>,
}

impl<T> RustFfiArg<T> {
    /// The argument carried by `buf`.
    pub fn from(buf: Buffer) -> (r: RustFfiArg<T>)
        ensures
            r.buf@ == buf@,
    {
        RustFfiArg { buf, _p: PhantomData }
    }

    /// The encoded bytes of the argument (none for the null buffer).
    pub fn bytes(&self) -> (r: &[u8])
        ensures
            r@ == self.buf@,
    {
        self.buf.bytes.as_slice()
    }

    /// The encoded bytes of the argument, to change in place; what is
    /// written through them is what the argument then holds.
    pub fn bytes_mut(&mut self) -> (r: &mut [u8])
        ensures
            r@ == old(self).buf@,
            final(self).buf@ == final(r)@,
    {
        self.buf.bytes.as_mut_slice()
    }
}

/// What a Go call hands back to Rust: nothing, a value, or an error message.
#[derive(Debug)]
pub enum GoFfiData<T> {
    Nothing,
    Value(T),
    Message(String),
}

/// The result of a call from Rust into Go: a code, and the data that goes
/// with it (the value for `RC_NO_ERROR`, else the error message).
#[derive(Debug)]
pub struct GoFfiResult<T> {
    pub code: ResultCode,
    pub data: GoFfiData<T>,
}

/// The success that carries `x`.
pub open spec fn go_ok<T>(x: T) -> GoFfiResult<T> {
    GoFfiResult { code: RC_NO_ERROR, data: GoFfiData::Value(x) }
}

/// Whether `g` is the failure made of `m`: the code of `m` (`RC_UNKNOWN`
/// for `RC_NO_ERROR`) and its message.
pub open spec fn go_err<T>(g: GoFfiResult<T>, m: ResultMsg) -> bool {
    g.code == error_code(m.code) && (g.data matches GoFfiData::Message(t) && t@ == m.msg@)
}

/// Whether Rust receives the result `g` as `r`: for `RC_NO_ERROR`, a
/// success, with the value where one came; else an error with the code and
/// the message (an empty one where none came).
pub open spec fn received_as<T>(g: GoFfiResult<T>, r: ABIResult<T>) -> bool {
    if g.code == RC_NO_ERROR {
        &&& r is Ok
        &&& g.data matches GoFfiData::Value(v) ==> r == Ok::<T, ResultMsg>(v)
    } else {
        r matches Err(e) && e.code == g.code && e.msg@ == match g.data {
            GoFfiData::Message(m) => m@,
            _ => Seq::<char>::empty(),
        }
    }
}

impl<T> GoFfiResult<T> {
    /// A success that carries `data`.
    pub fn from_ok(data: T) -> (r: GoFfiResult<T>)
        ensures
            r == go_ok(data),
    {
        GoFfiResult { code: RC_NO_ERROR, data: GoFfiData::Value(data) }
    }

    /// A failure: the code of `ret_msg` (`RC_UNKNOWN` for a code of
    /// `RC_NO_ERROR`) and its message.
    pub fn from_err(ret_msg: ResultMsg) -> (r: GoFfiResult<T>)
        ensures
            go_err(r, ret_msg),
    {
        let code = if ret_msg.code == RC_NO_ERROR {
            RC_UNKNOWN
        } else {
            ret_msg.code
        };
        GoFfiResult { code, data: GoFfiData::Message(ret_msg.msg) }
    }

    /// Takes the value out of the result, leaving nothing; none where it
    /// holds no value.
    pub fn consume_data(&mut self) -> (r: Option<T>)
        ensures
            match old(self).data {
                GoFfiData::Value(v) => r == Some(v) && final(self).data is Nothing,
                _ => r is None && final(self).data == old(self).data,
            },
            final(self).code == old(self).code,
    {
        let mut data = GoFfiData::Nothing;
        core::mem::swap(&mut data, &mut self.data);
        match data {
            GoFfiData::Value(v) => Some(v),
            other => {
                self.data = other;
                None
            },
        }
    }

    /// Takes the error message out of the result, leaving nothing; none
    /// where it holds no message.
    pub fn consume_msg(&mut self) -> (r: Option<String>)
        ensures
            match old(self).data {
                GoFfiData::Message(m) => r matches Some(t) && t@ == m@ && final(self).data is Nothing,
                _ => r is None && final(self).data == old(self).data,
            },
            final(self).code == old(self).code,
    {
        let mut data = GoFfiData::Nothing;
        core::mem::swap(&mut data, &mut self.data);
        match data {
            GoFfiData::Message(m) => Some(m),
            other => {
                self.data = other;
                None
            },
        }
    }
}

impl GoFfiResult<Buffer> {
    /// The result of a call whose value was encoded into `value`'s bytes: a
    /// success carries them in a buffer, a failure its code and message.
    pub fn from_encoded(value: ABIResult<Vec<u8>>) -> (r: GoFfiResult<Buffer>)
        ensures
            match value {
                Ok(v) => r.code == RC_NO_ERROR && (r.data matches GoFfiData::Value(b) && b@ == v@),
                Err(e) => r.code == error_code(e.code) && (r.data matches GoFfiData::Message(m)
                    && m@ == e.msg@),
            },
    {
        match value {
            Ok(v) => GoFfiResult::from_ok(Buffer::from_vec(v)),
            Err(e) => GoFfiResult::from_err(e),
        }
    }
}

impl<T: Default> GoFfiResult<T> {
    /// What Rust makes of the result: for `RC_NO_ERROR`, the value (a default
    /// value where none came); else an error with the code and the message
    /// (an empty one where none came).
    pub fn into_abi_result(self) -> (r: ABIResult<T>)
        ensures
            received_as(self, r),
    {
        let mut value = self;
        if value.code == RC_NO_ERROR {
            match value.consume_data() {
                Some(v) => Ok(v),
                None => Ok(T::default()),
            }
        } else {
            let code = value.code;
            let msg = match value.consume_msg() {
                Some(m) => m,
                None => String::new(),
            };
            Err(ResultMsg { code, msg })
        }
    }
}

/// The result of a call from Go into Rust: a code, and a buffer that holds
/// the encoded value for `RC_NO_ERROR`, else the bytes of the error message.
#[derive(Debug)]
pub struct RustFfiResult {
    pub code: ResultCode,
    pub data: Buffer,
}

impl RustFfiResult {
    /// A success that carries `data`.
    pub fn from_ok(data: Buffer) -> (r: RustFfiResult)
        ensures
            r.code == RC_NO_ERROR,
            r.data@ == data@,
    {
        RustFfiResult { code: RC_NO_ERROR, data }
    }

    /// A failure: the code of `ret_msg` (`RC_UNKNOWN` for a code of
    /// `RC_NO_ERROR`) and the UTF-8 bytes of its message.
    pub fn from_err(ret_msg: ResultMsg) -> (r: RustFfiResult)
        ensures
            r.code == error_code(ret_msg.code),
            r.data@ == encode_utf8(ret_msg.msg@),
    {
        let code = if ret_msg.code == RC_NO_ERROR {
            RC_UNKNOWN
        } else {
            ret_msg.code
        };
        RustFfiResult { code, data: Buffer::from_vec(ret_msg.msg.as_str().as_bytes_vec()) }
    }
}

impl RustFfiResult {
    /// The result of a call whose value was encoded into `value`'s bytes: a
    /// success carries them, a failure its code and message.
    pub fn from_encoded(value: ABIResult<Vec<u8>>) -> (r: RustFfiResult)
        ensures
            match value {
                Ok(v) => r.code == RC_NO_ERROR && r.data@ == v@,
                Err(e) => r.code == error_code(e.code) && r.data@ == encode_utf8(e.msg@),
            },
    {
        match value {
            Ok(v) => RustFfiResult::from_ok(Buffer::from_vec(v)),
            Err(e) => RustFfiResult::from_err(e),
        }
    }

    /// What the caller reads of the result: for `RC_NO_ERROR`, the bytes to
    /// decode; else an error with the code, whose message is the text of the
    /// data buffer.
    pub fn to_abi_bytes(&self) -> (r: ABIResult<&[u8]>)
        ensures
            self.code == RC_NO_ERROR ==> (r matches Ok(b) && b@ == self.data@),
            self.code != RC_NO_ERROR ==> (r matches Err(e) && e.code == self.code && e.msg@
                == buffer_text(self.data@)),
    {
        if self.code == RC_NO_ERROR {
            Ok(self.data.bytes.as_slice())
        } else {
            Err(ResultMsg { code: self.code, msg: self.data.to_text() })
        }
    }
}

/// A copy of some bytes.
pub fn bytes_to_vec(buf: &[u8]) -> (r: Vec<u8>)
    ensures
        r@ == buf@,
{
    let mut v: Vec<u8> = Vec::new();
    let n = buf.len();
    let mut i: usize = 0;
    while i < n
        invariant
            n == buf@.len(),
            i <= n,
            v@ == buf@.take(i as int),
        decreases n - i,
    {
        v.push(buf[i]);
        assert(buf@.take(i + 1) =~= buf@.take(i as int).push(buf@[i as int]));
        i = i + 1;
    }
    assert(buf@.take(n as int) =~= buf@);
    v
}

/// Whether `r` carries the error `e` (its code and message).
pub open spec fn is_error<T>(r: ABIResult<T>, e: (i8, Seq<char>)) -> bool {
    r matches Err(m) && m.code == e.0 && m.msg@ == e.1
}

/// A message that can be decoded from bytes.
pub trait TryFromBytes: Sized {
    /// The error of decoding `buf`, if it cannot be decoded.
    closed spec fn decode_error(buf: Seq<u8>) -> Option<(i8, Seq<char>)> {
        arbitrary()
    }

    /// Whether `v` is what decoding `buf` gives.
    closed spec fn decodes_to(buf: Seq<u8>, v: Self) -> bool {
        arbitrary()
    }

    fn try_from_bytes(buf: &[u8]) -> (r: ABIResult<Self>)
        ensures
            match Self::decode_error(buf@) {
                Some(e) => is_error(r, e),
                None => r matches Ok(v) && Self::decodes_to(buf@, v),
            },
    ;
}

/// A message that can be encoded into bytes.
pub trait TryIntoBytes: Sized {
    /// The bytes of the message, or the error of encoding it.
    closed spec fn encoded(self) -> Result<Seq<u8>, (i8, Seq<char>)> {
        arbitrary()
    }

    fn try_into_bytes(self) -> (r: ABIResult<Vec<u8>>)
        ensures
            match self.encoded() {
                Ok(b) => r matches Ok(v) && v@ == b,
                Err(e) => is_error(r, e),
            },
    ;
}

/// A message that goes both ways.
pub trait ABIMessage: TryFromBytes + TryIntoBytes {}

/// A type made from a message of type `M`.
pub trait FromMessage<M>: Sized {
    /// The value made from `value`.
    closed spec fn from_message_spec(value: M) -> Self {
        arbitrary()
    }

    fn from_message(value: M) -> (r: Self)
        ensures
            r == Self::from_message_spec(value),
    ;
}

/// A type turned into a message of type `M`.
pub trait IntoMessage<M>: Sized {
    /// The message of `self`.
    closed spec fn into_message_spec(self) -> M {
        arbitrary()
    }

    fn into_message(self) -> (r: M)
        ensures
            r == self.into_message_spec(),
    ;
}

/// What encoding the message of `value` gives, as typed bytes: the bytes, or
/// the error of encoding.
pub open spec fn typed_bytes_of<T: IntoMessage<M>, M: TryIntoBytes>(value: T, r: ABIResult<TBytes<T>>) -> bool {
    match value.into_message_spec().encoded() {
        Ok(b) => r matches Ok(t) && t.bytes@ == b,
        Err(e) => is_error(r, e),
    }
}

/// A type whose message can be encoded into typed bytes.
pub trait TryIntoTBytes: Sized {
    fn try_into_tbytes<M: TryIntoBytes>(self) -> ABIResult<TBytes<Self>>
        where Self: IntoMessage<M>,
    ;
}

impl<T> TryIntoTBytes for T {
    /// The typed bytes of the message of `self`; the error of encoding it, if any.
    fn try_into_tbytes<M: TryIntoBytes>(self) -> (r: ABIResult<TBytes<T>>)
        where T: IntoMessage<M>,
        ensures
            typed_bytes_of::<T, M>(self, r),
    {
        match self.into_message().try_into_bytes() {
            Ok(v) => Ok(TBytes::new(v)),
            Err(e) => Err(e),
        }
    }
}

impl TryFromBytes for Vec<u8> {
    open spec fn decode_error(buf: Seq<u8>) -> Option<(i8, Seq<char>)> {
        None
    }

    open spec fn decodes_to(buf: Seq<u8>, v: Vec<u8>) -> bool {
        v@ == buf
    }

    fn try_from_bytes(buf: &[u8]) -> (r: ABIResult<Vec<u8>>)
        ensures
            r matches Ok(v) && v@ == buf@,
    {
        Ok(bytes_to_vec(buf))
    }
}

impl TryFromBytes for () {
    open spec fn decode_error(buf: Seq<u8>) -> Option<(i8, Seq<char>)> {
        None
    }

    open spec fn decodes_to(buf: Seq<u8>, v: ()) -> bool {
        true
    }

    fn try_from_bytes(buf: &[u8]) -> (r: ABIResult<()>)
        ensures
            r is Ok,
    {
        Ok(())
    }
}

impl TryIntoBytes for Vec<u8> {
    open spec fn encoded(self) -> Result<Seq<u8>, (i8, Seq<char>)> {
        Ok(self@)
    }

    fn try_into_bytes(self) -> (r: ABIResult<Vec<u8>>)
        ensures
            r matches Ok(v) && v@ == self@,
    {
        Ok(self)
    }
}

impl TryIntoBytes for String {
    open spec fn encoded(self) -> Result<Seq<u8>, (i8, Seq<char>)> {
        Ok(encode_utf8(self@))
    }

    fn try_into_bytes(self) -> (r: ABIResult<Vec<u8>>)
        ensures
            r matches Ok(v) && v@ == encode_utf8(self@),
    {
        Ok(self.as_str().as_bytes_vec())
    }
}

impl<T> TryIntoBytes for TBytes<T> {
    open spec fn encoded(self) -> Result<Seq<u8>, (i8, Seq<char>)> {
        Ok(self.bytes@)
    }

    fn try_into_bytes(self) -> (r: ABIResult<Vec<u8>>)
        ensures
            r matches Ok(v) && v@ == self.bytes@,
    {
        Ok(self.bytes)
    }
}

impl<T> TBytes<T> {
    /// The typed bytes of `value`'s message; the error of encoding it, if any.
    pub fn try_from<M: TryIntoBytes>(value: T) -> (r: ABIResult<TBytes<T>>)
        where T: IntoMessage<M>,
        ensures
            typed_bytes_of::<T, M>(value, r),
    {
        match value.into_message().try_into_bytes() {
            Ok(v) => Ok(TBytes::new(v)),
            Err(e) => Err(e),
        }
    }
}

impl<T> RustFfiArg<T> {
    /// The argument's object: its bytes decoded as a message of type `U`,
    /// then turned into `T`; the error of decoding, if any.
    pub fn try_to_object<U: TryFromBytes>(&self) -> (r: ABIResult<T>)
        where T: FromMessage<U>,
        ensures
            match U::decode_error(self.buf@) {
                Some(e) => is_error(r, e),
                None => r matches Ok(t) && exists|u: U| U::decodes_to(self.buf@, u) && t
                    == T::from_message_spec(u),
            },
    {
        match U::try_from_bytes(self.bytes()) {
            Ok(m) => Ok(T::from_message(m)),
            Err(e) => Err(e),
        }
    }
}

impl GoFfiResult<Buffer> {
    /// The result of a call, with its value encoded into a buffer: an error
    /// of the call, or of encoding, becomes the failure.
    pub fn from_abi_result<T: TryIntoBytes>(value: ABIResult<T>) -> (r: GoFfiResult<Buffer>)
        ensures
            value matches Err(e) ==> r.code == error_code(e.code) && (r.data matches GoFfiData::Message(
                m,
            ) && m@ == e.msg@),
            value matches Ok(v) ==> match v.encoded() {
                Ok(b) => r.code == RC_NO_ERROR && (r.data matches GoFfiData::Value(buf) && buf@ == b),
                Err(e) => r.code == error_code(e.0) && (r.data matches GoFfiData::Message(m) && m@ == e.1),
            },
    {
        match value {
            Ok(v) => GoFfiResult::from_encoded(v.try_into_bytes()),
            Err(e) => GoFfiResult::from_err(e),
        }
    }
}

impl RustFfiResult {
    /// The result of a call, with its value encoded into the data buffer: an
    /// error of the call, or of encoding, becomes the failure.
    pub fn from_abi_result<T: TryIntoBytes>(value: ABIResult<T>) -> (r: RustFfiResult)
        ensures
            value matches Err(e) ==> r.code == error_code(e.code) && r.data@ == encode_utf8(e.msg@),
            value matches Ok(v) ==> match v.encoded() {
                Ok(b) => r.code == RC_NO_ERROR && r.data@ == b,
                Err(e) => r.code == error_code(e.0) && r.data@ == encode_utf8(e.1),
            },
    {
        match value {
            Ok(v) => RustFfiResult::from_encoded(v.try_into_bytes()),
            Err(e) => RustFfiResult::from_err(e),
        }
    }
}

} // verus!
