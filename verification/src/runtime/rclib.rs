//! The earlier runtime, whose results carry a code and a leaked buffer.
use vstd::prelude::*;

verus! {

/// Bytes that cross the boundary; the empty buffer is the null buffer.
#[derive(Debug)]
pub struct Buffer {
    pub bytes: Vec<u8>,
}

impl View for Buffer {
    type V = Seq<u8>;

    open spec fn view(&self) -> Seq<u8> {
        self.bytes@
    }
}

impl Buffer {
    /// The null buffer.
    pub fn null() -> (r: Buffer)
        ensures
            r@ == Seq::<u8>::empty(),
    {
        Buffer { bytes: Vec::new() }
    }

    /// Whether the buffer holds nothing.
    pub fn is_empty(&self) -> (r: bool)
        ensures
            r == (self@.len() == 0),
    {
        self.bytes.len() == 0
    }

    /// The bytes of the buffer; none for the null buffer.
    pub fn read(&self) -> (r: Option<&[u8]>)
        ensures
            self@.len() == 0 ==> r is None,
            self@.len() > 0 ==> (r matches Some(s) && s@ == self@),
    {
        if self.is_empty() {
            None
        } else {
            Some(self.bytes.as_slice())
        }
    }
}

/// How a leaked buffer was made, which tells how to free it.
#[derive(Clone, Copy, Debug, PartialEq, Eq, Structural)]
pub enum OriginType {
    Vec,
    FlatBuffer,
}

/// A buffer handed over to the caller, with what it takes to free it.
#[derive(Debug)]
pub struct LeakBuffer {
    pub free_type: OriginType,
    pub buffer: Buffer,
}

impl View for LeakBuffer {
    /// How the buffer is freed, and its bytes.
    type V = (OriginType, Seq<u8>);

    open spec fn view(&self) -> (OriginType, Seq<u8>) {
        (self.free_type, self.buffer@)
    }
}

/// The null buffer, as a value.
pub open spec fn null_leak_buffer() -> (OriginType, Seq<u8>) {
    (OriginType::Vec, Seq::<u8>::empty())
}

impl LeakBuffer {
    /// The null buffer, made from a vector.
    pub fn null() -> (r: LeakBuffer)
        ensures
            r@ == null_leak_buffer(),
    {
        LeakBuffer { free_type: OriginType::Vec, buffer: Buffer::null() }
    }

    /// The buffer that takes over `v`.
    pub fn from_vec(v: Vec<u8>) -> (r: LeakBuffer)
        ensures
            r@ == (OriginType::Vec, v@),
    {
        LeakBuffer { free_type: OriginType::Vec, buffer: Buffer { bytes: v } }
    }

    /// Whether the buffer holds nothing.
    pub fn is_empty(&self) -> (r: bool)
        ensures
            r == (self@.1.len() == 0),
    {
        self.buffer.is_empty()
    }

    /// The bytes of the buffer; none for the null buffer.
    pub fn read(&self) -> (r: Option<&[u8]>)
        ensures
            self@.1.len() == 0 ==> r is None,
            self@.1.len() > 0 ==> (r matches Some(s) && s@ == self@.1),
    {
        self.buffer.read()
    }

    /// The underlying buffer.
    pub fn buffer(&self) -> (r: &Buffer)
        ensures
            r@ == self@.1,
    {
        &self.buffer
    }
}

/// How a call went.
#[derive(Clone, Copy, Debug, PartialEq, Eq, Structural)]
pub enum ResultCode {
    NoError,
    Decode,
    Encode,
}

/// The number that a result code is written as across the boundary.
pub fn result_code_number(code: ResultCode) -> (r: u8)
    ensures
        r == match code {
            ResultCode::NoError => 0u8,
            ResultCode::Decode => 1u8,
            ResultCode::Encode => 2u8,
        },
{
    match code {
        ResultCode::NoError => 0,
        ResultCode::Decode => 1,
        ResultCode::Encode => 2,
    }
}

/// The result of a call: its code and the buffer of its encoded value.
#[derive(Debug)]
pub struct FFIResult {
    pub code: ResultCode,
    pub data: LeakBuffer,
}

impl View for FFIResult {
    /// The code and the buffer.
    type V = (ResultCode, (OriginType, Seq<u8>));

    open spec fn view(&self) -> (ResultCode, (OriginType, Seq<u8>)) {
        (self.code, self.data@)
    }
}

/// The result of a call with a bare code as its error.
pub type ABIResult<T> = Result<T, ResultCode>;

impl FFIResult {
    /// A success that carries `data`.
    pub fn ok(data: LeakBuffer) -> (r: FFIResult)
        ensures
            r@ == (ResultCode::NoError, data@),
    {
        FFIResult { code: ResultCode::NoError, data }
    }

    /// A failure with `code` and no data.
    pub fn err(code: ResultCode) -> (r: FFIResult)
        ensures
            r@ == (code, null_leak_buffer()),
    {
        FFIResult { code, data: LeakBuffer::null() }
    }

    /// The result of a call whose value was encoded into `value`'s buffer;
    /// a call that failed, or whose value could not be encoded, reports
    /// `Encode`.
    pub fn from_encoded<E>(value: ABIResult<Result<LeakBuffer, E>>) -> (r: FFIResult)
        ensures
            match value {
                Ok(Ok(b)) => r@ == (ResultCode::NoError, b@),
                _ => r@ == (ResultCode::Encode, null_leak_buffer()),
            },
    {
        match value {
            Ok(Ok(b)) => FFIResult::ok(b),
            _ => FFIResult::err(ResultCode::Encode),
        }
    }

    /// The bytes that a successful result carries for decoding, or the code
    /// of a failed one.
    pub fn to_request_bytes(&self) -> (r: ABIResult<&[u8]>)
        ensures
            self.code == ResultCode::NoError ==> (r matches Ok(s) && s@ == self.data@.1),
            self.code != ResultCode::NoError ==> r == Err::<&[u8], ResultCode>(self.code),
    {
        match self.code {
            ResultCode::NoError => Ok(self.data.buffer.bytes.as_slice()),
            code => Err(code),
        }
    }
}

/// A request decoded from a flatbuffer.
#[derive(Debug)]
pub struct FbRequest<T> {
    pub request: T,
}

impl<T> FbRequest<T> {
    /// The request that wraps `req`.
    pub fn new(req: T) -> (r: FbRequest<T>)
        ensures
            r.request == req,
    {
        FbRequest { request: req }
    }
}

/// A message that can be decoded from request bytes.
pub trait ABIRequest: Sized {
    type DecodeError;

    /// Whether `buf` cannot be decoded.
    closed spec fn decode_fails(buf: Seq<u8>) -> bool {
        arbitrary()
    }

    /// Whether `v` is what decoding `buf` gives.
    closed spec fn decodes_to(buf: Seq<u8>, v: Self) -> bool {
        arbitrary()
    }

    fn try_from_bytes(buf: &[u8]) -> (r: Result<Self, Self::DecodeError>)
        ensures
            r is Err <==> Self::decode_fails(buf@),
            r matches Ok(v) ==> Self::decodes_to(buf@, v),
    ;
}

/// A message that can be encoded into a buffer.
pub trait ABIResponse: Sized {
    type EncodeError;

    /// The buffer that encoding the message gives; none where it cannot be
    /// encoded.
    closed spec fn encoded(self) -> Option<(OriginType, Seq<u8>)> {
        arbitrary()
    }

    fn try_into_buffer(self) -> (r: Result<LeakBuffer, Self::EncodeError>)
        ensures
            match self.encoded() {
                Some(b) => r matches Ok(l) && l@ == b,
                None => r is Err,
            },
    ;
}

/// A message that goes both ways.
pub trait ABIMessage: ABIRequest + ABIResponse {}

/// What serving a call whose method returned `res` gives: the encoded
/// response; `Encode` with no data for a failed call or a response that
/// cannot be encoded.
pub open spec fn served<Response: ABIResponse>(res: ABIResult<Response>) -> (ResultCode, (OriginType, Seq<u8>)) {
    match res {
        Ok(v) => match v.encoded() {
            Some(b) => (ResultCode::NoError, b),
            None => (ResultCode::Encode, null_leak_buffer()),
        },
        Err(_) => (ResultCode::Encode, null_leak_buffer()),
    }
}

/// Serves one call: decodes the request from `args`, calls `method_fn`
/// once on it, and encodes its response. A request that cannot be decoded
/// gives `Decode`, and the method is not called; a failed call, or a
/// response that cannot be encoded, gives `Encode`; a failure carries no
/// data.
pub fn callback<Request: ABIRequest, Response: ABIResponse, F: Fn(Request) -> ABIResult<Response>>(
    ffi_method_name: &str,
    method_fn: F,
    args: &Buffer,
) -> (r: FFIResult)
    requires
        forall|req: Request| method_fn.requires((req,)),
    ensures
        r.code == ResultCode::Decode <==> Request::decode_fails(args@),
        Request::decode_fails(args@) ==> r@ == (ResultCode::Decode, null_leak_buffer()),
        !Request::decode_fails(args@) ==> exists|req: Request, res: ABIResult<Response>|
            Request::decodes_to(args@, req) && call_ensures(method_fn, (req,), res) && r@ == served(res),
{
    let args_obj = match Request::try_from_bytes(args.bytes.as_slice()) {
        Ok(args_obj) => args_obj,
        Err(_) => return FFIResult::err(ResultCode::Decode),
    };
    let ghost req = args_obj;
    let res_obj = method_fn(args_obj);
    let ghost res = res_obj;
    let encoded = match res_obj {
        Ok(v) => Ok(v.try_into_buffer()),
        Err(e) => Err(e),
    };
    let r = FFIResult::from_encoded(encoded);
    assert(Request::decodes_to(args@, req) && call_ensures(method_fn, (req,), res) && r@ == served(res));
    r
}

} // verus!
