use vstd::prelude::*;

use bytes::BytesMut;

use crate::generator::IDGenerator;

verus! {

#[verifier::external_type_specification]
#[verifier::external_body]
pub struct ExBytesMut(bytes::BytesMut);

/// The bytes that a buffer holds, in order.
pub uninterp spec fn buffer_bytes(b: bytes::BytesMut) -> Seq<u8>;

/// Relies on bytes::BytesMut::len: the number of bytes held.
pub assume_specification[ bytes::BytesMut::len ](b: &bytes::BytesMut) -> (r: usize)
    ensures
        r == buffer_bytes(*b).len(),
;

/// Relies on bytes::BytesMut::split_to: the first `at` bytes move to the
/// result and the rest stay (it panics when `at` exceeds the length).
pub assume_specification[ bytes::BytesMut::split_to ](b: &mut bytes::BytesMut, at: usize) -> (r:
    bytes::BytesMut)
    requires
        at <= buffer_bytes(*old(b)).len(),
    ensures
        buffer_bytes(r) == buffer_bytes(*old(b)).take(at as int),
        buffer_bytes(*final(b)) == buffer_bytes(*old(b)).skip(at as int),
;

/// Relies on bytes::BytesMut::extend_from_slice: the slice is appended,
/// growing the buffer first. It panics only when the grown allocation would
/// pass `isize::MAX` bytes, which the bound on the held length stands for.
pub assume_specification[ bytes::BytesMut::extend_from_slice ](
    b: &mut bytes::BytesMut,
    extend: &[u8],
)
    requires
        buffer_bytes(*old(b)).len() + extend@.len() <= isize::MAX,
    ensures
        buffer_bytes(*final(b)) == buffer_bytes(*old(b)) + extend@,
;

/// Relies on indexing a bytes::BytesMut through its `Deref` to `[u8]`: the
/// first byte held.
#[verifier::external_body]
fn first_byte(b: &BytesMut) -> (r: u8)
    requires
        buffer_bytes(*b).len() > 0,
    ensures
        r == buffer_bytes(*b)[0],
{
    b[0]
}

/// The request code that asks for one identifier.
pub const PRODUCE_REQUEST: u8 = 0x50;

/// The response value for a request code that is not recognized.
pub const REJECTED_ID: i64 = -1;

/// Byte `k` (counting from the least significant) of the two's-complement
/// form of `v`.
pub open spec fn byte_of(v: i64, k: u64) -> u8 {
    #[verifier::truncate] (((#[verifier::truncate] (v as u64)) >> (8 * k)) as u8)
}

/// The eight bytes of `v` in big-endian order.
pub open spec fn be_bytes(v: i64) -> Seq<u8> {
    seq![
        byte_of(v, 7),
        byte_of(v, 6),
        byte_of(v, 5),
        byte_of(v, 4),
        byte_of(v, 3),
        byte_of(v, 2),
        byte_of(v, 1),
        byte_of(v, 0),
    ]
}

/// The big-endian bytes of an `i64`.
pub fn i64_to_be_bytes(v: i64) -> (r: Vec<u8>)
    ensures
        r@ == be_bytes(v),
{
    let u: u64 = #[verifier::truncate] (v as u64);
    let mut r: Vec<u8> = Vec::new();
    let mut k: u64 = 8;
    while k > 0
        invariant
            k <= 8,
            u == #[verifier::truncate] (v as u64),
            r@ == be_bytes(v).take(8 - k),
        decreases k,
    {
        k = k - 1;
        r.push(#[verifier::truncate] ((u >> (8 * k)) as u8));
        assert(r@ =~= be_bytes(v).take(8 - k));
    }
    assert(r@ =~= be_bytes(v));
    r
}

/// One request: a single byte on the wire.
#[derive(Clone, Copy, Debug, PartialEq, Eq, Structural)]
pub struct IDRequest {
    pub request_code: u8,
}

/// One response: an eight-byte big-endian signed integer on the wire.
#[derive(Clone, Copy, Debug, PartialEq, Eq, Structural)]
pub struct IDResponse {
    pub id: i64,
}

/// The framing of the identifier protocol.
#[derive(Clone, Copy, Debug)]
pub struct IDCodec;

impl IDCodec {
    /// Takes the next request off the front of `src`, if a byte is there.
    pub fn decode(&mut self, src: &mut BytesMut) -> (r: Option<IDRequest>)
        ensures
            buffer_bytes(*old(src)).len() == 0 ==> r is None && buffer_bytes(*final(src))
                == buffer_bytes(*old(src)),
            buffer_bytes(*old(src)).len() > 0 ==> r == Some(
                IDRequest { request_code: buffer_bytes(*old(src))[0] },
            ) && buffer_bytes(*final(src)) == buffer_bytes(*old(src)).drop_first(),
    {
        if src.len() > 0 {
            let head = src.split_to(1);
            let code = first_byte(&head);
            Some(IDRequest { request_code: code })
        } else {
            None
        }
    }

    /// Appends the wire form of `item` to `dst`.
    pub fn encode(&mut self, item: IDResponse, dst: &mut BytesMut)
        requires
            buffer_bytes(*old(dst)).len() + 8 <= isize::MAX,
        ensures
            buffer_bytes(*final(dst)) == buffer_bytes(*old(dst)) + be_bytes(item.id),
    {
        let bytes = i64_to_be_bytes(item.id);
        dst.extend_from_slice(bytes.as_slice());
    }
}

/// What the service does with one request.
pub enum Reply {
    /// Answer at once, without touching the generator.
    Immediate(IDResponse),
    /// Wait for an identifier from the generator.
    Pending(IDFuture),
}

/// A request that waits for an identifier.
#[derive(Debug)]
pub struct IDFuture;

impl IDFuture {
    /// One attempt: the response, or `None` when the generator has nothing
    /// to hand out yet and the attempt must be made again later.
    pub fn poll<G: IDGenerator>(&mut self, generator: &mut G) -> (r: Option<IDResponse>)
        requires
            old(generator).inv(),
        ensures
            final(generator).inv(),
            (*old(generator)).produces(
                *final(generator),
                match r {
                    Some(resp) => Some(resp.id),
                    None => None,
                },
            ),
    {
        match generator.generate() {
            Some(id) => Some(IDResponse { id }),
            None => None,
        }
    }
}

/// Turns requests into responses.
#[derive(Debug)]
pub struct IDService;

impl IDService {
    /// Only the produce code asks the generator; any other code is rejected
    /// at once with the sentinel value.
    pub fn call(&self, req: IDRequest) -> (r: Reply)
        ensures
            req.request_code == PRODUCE_REQUEST ==> r is Pending,
            req.request_code != PRODUCE_REQUEST ==> r == Reply::Immediate(
                IDResponse { id: REJECTED_ID },
            ),
    {
        if req.request_code != PRODUCE_REQUEST {
            return Reply::Immediate(IDResponse { id: REJECTED_ID });
        }
        Reply::Pending(IDFuture)
    }
}

} // verus!
