//! Fixed-layout conversion between request/response values and datagram
//! payloads. All integers travel big-endian (network byte order).

use vstd::prelude::*;

verus! {

/// Length in bytes of a request payload: one opcode byte, then the operand.
pub const REQUEST_LEN: usize = 9;

/// Length in bytes of a response payload.
pub const RESPONSE_LEN: usize = 8;

/// What a request asks the server to do with its operand.
#[derive(Clone, Copy, Debug, PartialEq, Eq, Structural)]
pub enum Operation {
    Increment,
    Decrement,
}

/// One decoded request. The opcode is kept as it came off the wire, so that a
/// request with an unrecognized opcode can still be answered.
#[derive(Clone, Copy, Debug, PartialEq, Eq, Structural)]
pub struct Request {
    pub opcode: u8,
    pub operand: i64,
}

impl Operation {
    /// The operation that an opcode byte selects: `0` increments, `1`
    /// decrements, and no other byte selects anything.
    pub open spec fn of_opcode(opcode: u8) -> Option<Operation> {
        if opcode == 0 {
            Some(Operation::Increment)
        } else if opcode == 1 {
            Some(Operation::Decrement)
        } else {
            None
        }
    }

    /// The opcode byte that selects this operation.
    pub open spec fn spec_opcode(self) -> u8 {
        match self {
            Operation::Increment => 0,
            Operation::Decrement => 1,
        }
    }

    /// The operation that `opcode` selects, if it selects one.
    pub fn from_opcode(opcode: u8) -> (r: Option<Operation>)
        ensures
            r == Operation::of_opcode(opcode),
    {
        if opcode == 0 {
            Some(Operation::Increment)
        } else if opcode == 1 {
            Some(Operation::Decrement)
        } else {
            None
        }
    }

    /// The opcode byte that selects this operation.
    #[verifier::when_used_as_spec(spec_opcode)]
    pub fn opcode(self) -> (r: u8)
        ensures
            r == self.spec_opcode(),
            Operation::of_opcode(r) == Some(self),
    {
        match self {
            Operation::Increment => 0,
            Operation::Decrement => 1,
        }
    }
}

impl Request {
    /// The operation that this request asks for; `None` where its opcode is
    /// not a recognized one.
    pub fn operation(&self) -> (r: Option<Operation>)
        ensures
            r == Operation::of_opcode(self.opcode),
    {
        Operation::from_opcode(self.opcode)
    }
}

/// Why a payload could not be decoded.
#[derive(Clone, Copy, Debug, PartialEq, Eq, Structural)]
pub enum DecodeError {
    /// The payload does not have the length that the message needs.
    Truncated,
}

/// The two's-complement bit pattern of `v`, read as an unsigned number.
pub open spec fn bit_pattern(v: i64) -> int {
    if v < 0 {
        v + 0x1_0000_0000_0000_0000
    } else {
        v as int
    }
}

/// The signed value whose two's-complement bit pattern is `u`.
pub open spec fn signed_value(u: int) -> int {
    if u >= 0x8000_0000_0000_0000 {
        u - 0x1_0000_0000_0000_0000
    } else {
        u
    }
}

/// The eight big-endian bytes of `v`: most significant byte first.
pub open spec fn be_bytes(v: i64) -> Seq<u8> {
    let u = bit_pattern(v);
    seq![
        (u / 0x100_0000_0000_0000 % 256) as u8,
        (u / 0x1_0000_0000_0000 % 256) as u8,
        (u / 0x100_0000_0000 % 256) as u8,
        (u / 0x1_0000_0000 % 256) as u8,
        (u / 0x100_0000 % 256) as u8,
        (u / 0x1_0000 % 256) as u8,
        (u / 0x100 % 256) as u8,
        (u % 256) as u8,
    ]
}

/// The signed number that the first eight bytes of `s` spell, most
/// significant byte first.
pub open spec fn be_value(s: Seq<u8>) -> int
    recommends
        s.len() >= 8,
{
    signed_value(
        s[0] * 0x100_0000_0000_0000 + s[1] * 0x1_0000_0000_0000 + s[2] * 0x100_0000_0000 + s[3]
            * 0x1_0000_0000 + s[4] * 0x100_0000 + s[5] * 0x1_0000 + s[6] * 0x100 + s[7],
    )
}

/// The base-256 digits of a 64-bit pattern add up to the pattern.
proof fn lemma_digits_sum(u: u64)
    by (bit_vector)
    ensures
        (u / 0x100_0000_0000_0000 % 256) * 0x100_0000_0000_0000 + (u / 0x1_0000_0000_0000 % 256)
            * 0x1_0000_0000_0000 + (u / 0x100_0000_0000 % 256) * 0x100_0000_0000 + (u
            / 0x1_0000_0000 % 256) * 0x1_0000_0000 + (u / 0x100_0000 % 256) * 0x100_0000 + (u
            / 0x1_0000 % 256) * 0x1_0000 + (u / 0x100 % 256) * 0x100 + u % 256 == u,
{
}

/// Decoding the bytes of a number gives the number back.
pub proof fn lemma_be_value_of_bytes(v: i64)
    ensures
        be_bytes(v).len() == 8,
        be_value(be_bytes(v)) == v,
{
    let u = bit_pattern(v) as u64;
    lemma_digits_sum(u);
}

/// Eight bytes are the base-256 digits of the number they add up to.
proof fn lemma_sum_digits(b0: u8, b1: u8, b2: u8, b3: u8, b4: u8, b5: u8, b6: u8, b7: u8)
    by (bit_vector)
    ensures
        ({
            let u = b0 * 0x100_0000_0000_0000 + b1 * 0x1_0000_0000_0000 + b2 * 0x100_0000_0000 + b3
                * 0x1_0000_0000 + b4 * 0x100_0000 + b5 * 0x1_0000 + b6 * 0x100 + b7;
            &&& 0 <= u < 0x1_0000_0000_0000_0000
            &&& u / 0x100_0000_0000_0000 % 256 == b0
            &&& u / 0x1_0000_0000_0000 % 256 == b1
            &&& u / 0x100_0000_0000 % 256 == b2
            &&& u / 0x1_0000_0000 % 256 == b3
            &&& u / 0x100_0000 % 256 == b4
            &&& u / 0x1_0000 % 256 == b5
            &&& u / 0x100 % 256 == b6
            &&& u % 256 == b7
        }),
{
}

/// Encoding the number that eight bytes spell gives the same eight bytes.
pub proof fn lemma_be_bytes_of_value(s: Seq<u8>)
    requires
        s.len() == 8,
    ensures
        i64::MIN <= be_value(s) <= i64::MAX,
        be_bytes(be_value(s) as i64) == s,
{
    lemma_sum_digits(s[0], s[1], s[2], s[3], s[4], s[5], s[6], s[7]);
    assert(be_bytes(be_value(s) as i64) =~= s);
}

/// Appends the eight big-endian bytes of `v` to `out`.
fn push_be(out: &mut Vec<u8>, v: i64)
    ensures
        final(out)@ == old(out)@ + be_bytes(v),
{
    let u: u64 = v as u64;
    assert(u == bit_pattern(v)) by (bit_vector)
        requires
            u == v as u64,
    ;
    assert((u >> 56) & 0xff == u / 0x100_0000_0000_0000 % 256) by (bit_vector);
    assert((u >> 48) & 0xff == u / 0x1_0000_0000_0000 % 256) by (bit_vector);
    assert((u >> 40) & 0xff == u / 0x100_0000_0000 % 256) by (bit_vector);
    assert((u >> 32) & 0xff == u / 0x1_0000_0000 % 256) by (bit_vector);
    assert((u >> 24) & 0xff == u / 0x100_0000 % 256) by (bit_vector);
    assert((u >> 16) & 0xff == u / 0x1_0000 % 256) by (bit_vector);
    assert((u >> 8) & 0xff == u / 0x100 % 256) by (bit_vector);
    assert(u & 0xff == u % 256) by (bit_vector);
    out.push(((u >> 56) & 0xff) as u8);
    out.push(((u >> 48) & 0xff) as u8);
    out.push(((u >> 40) & 0xff) as u8);
    out.push(((u >> 32) & 0xff) as u8);
    out.push(((u >> 24) & 0xff) as u8);
    out.push(((u >> 16) & 0xff) as u8);
    out.push(((u >> 8) & 0xff) as u8);
    out.push((u & 0xff) as u8);
    assert(out@ =~= old(out)@ + be_bytes(v));
}

/// Reads the big-endian number that the eight bytes from `at` on spell.
fn read_be(bytes: &[u8], at: usize) -> (v: i64)
    requires
        at + 8 <= bytes.len(),
    ensures
        v == be_value(bytes@.subrange(at as int, at + 8)),
{
    let b0: u8 = bytes[at];
    let b1: u8 = bytes[at + 1];
    let b2: u8 = bytes[at + 2];
    let b3: u8 = bytes[at + 3];
    let b4: u8 = bytes[at + 4];
    let b5: u8 = bytes[at + 5];
    let b6: u8 = bytes[at + 6];
    let b7: u8 = bytes[at + 7];
    let u: u64 = ((b0 as u64) << 56) | ((b1 as u64) << 48) | ((b2 as u64) << 40) | ((b3 as u64)
        << 32) | ((b4 as u64) << 24) | ((b5 as u64) << 16) | ((b6 as u64) << 8) | (b7 as u64);
    assert(u == b0 * 0x100_0000_0000_0000 + b1 * 0x1_0000_0000_0000 + b2 * 0x100_0000_0000 + b3
        * 0x1_0000_0000 + b4 * 0x100_0000 + b5 * 0x1_0000 + b6 * 0x100 + b7) by (bit_vector)
        requires
            u == ((b0 as u64) << 56) | ((b1 as u64) << 48) | ((b2 as u64) << 40) | ((b3 as u64)
                << 32) | ((b4 as u64) << 24) | ((b5 as u64) << 16) | ((b6 as u64) << 8) | (
            b7 as u64),
    ;
    let v: i64 = u as i64;
    assert(v == signed_value(u as int)) by (bit_vector)
        requires
            v == u as i64,
    ;
    v
}

/// The payload of the request `(opcode, operand)`: the opcode byte, then the
/// operand big-endian.
pub open spec fn request_bytes(opcode: u8, operand: i64) -> Seq<u8> {
    seq![opcode] + be_bytes(operand)
}

/// The payload of the response that carries `result`.
pub open spec fn response_bytes(result: i64) -> Seq<u8> {
    be_bytes(result)
}

/// The request that a payload of at least nine bytes carries in its first
/// nine.
pub open spec fn request_of(bytes: Seq<u8>) -> Request
    recommends
        bytes.len() >= REQUEST_LEN,
{
    Request { opcode: bytes[0], operand: be_value(bytes.subrange(1, 9)) as i64 }
}

/// Encodes a request. Every opcode and every operand has an encoding.
pub fn encode_request(opcode: u8, operand: i64) -> (out: Vec<u8>)
    ensures
        out@ == request_bytes(opcode, operand),
        out@.len() == REQUEST_LEN,
{
    let mut out: Vec<u8> = Vec::with_capacity(REQUEST_LEN);
    out.push(opcode);
    push_be(&mut out, operand);
    assert(out@ =~= request_bytes(opcode, operand));
    out
}

/// Decodes a request from the first nine bytes of a payload. A payload of
/// fewer than nine bytes is truncated; bytes after the ninth are ignored.
pub fn decode_request(bytes: &[u8]) -> (r: Result<Request, DecodeError>)
    ensures
        bytes@.len() >= REQUEST_LEN ==> r == Ok::<Request, DecodeError>(request_of(bytes@)),
        bytes@.len() < REQUEST_LEN ==> r == Err::<Request, DecodeError>(DecodeError::Truncated),
{
    if bytes.len() < REQUEST_LEN {
        return Err(DecodeError::Truncated);
    }
    let opcode: u8 = bytes[0];
    let operand: i64 = read_be(bytes, 1);
    Ok(Request { opcode, operand })
}

/// Encodes a response.
pub fn encode_response(result: i64) -> (out: Vec<u8>)
    ensures
        out@ == response_bytes(result),
        out@.len() == RESPONSE_LEN,
{
    let mut out: Vec<u8> = Vec::with_capacity(RESPONSE_LEN);
    push_be(&mut out, result);
    assert(out@ =~= response_bytes(result));
    out
}

/// Decodes a response. Only a payload of exactly eight bytes is one.
pub fn decode_response(bytes: &[u8]) -> (r: Result<i64, DecodeError>)
    ensures
        bytes@.len() == RESPONSE_LEN ==> r == Ok::<i64, DecodeError>(be_value(bytes@) as i64),
        bytes@.len() != RESPONSE_LEN ==> r == Err::<i64, DecodeError>(DecodeError::Truncated),
{
    if bytes.len() != RESPONSE_LEN {
        return Err(DecodeError::Truncated);
    }
    let result: i64 = read_be(bytes, 0);
    assert(bytes@.subrange(0, 8) =~= bytes@);
    Ok(result)
}

/// Round trip of a request: decoding what `encode_request` produced gives the
/// opcode and the operand back, whatever they were.
pub proof fn lemma_request_round_trip(opcode: u8, operand: i64)
    ensures
        request_bytes(opcode, operand).len() == REQUEST_LEN,
        request_of(request_bytes(opcode, operand)) == (Request { opcode, operand }),
{
    lemma_be_value_of_bytes(operand);
    assert(request_bytes(opcode, operand).subrange(1, 9) =~= be_bytes(operand));
}

/// Round trip of a payload: encoding the request that nine bytes decode to
/// gives the same nine bytes, so no two payloads of that length carry the
/// same request.
pub proof fn lemma_payload_round_trip(bytes: Seq<u8>)
    requires
        bytes.len() == REQUEST_LEN,
    ensures
        request_bytes(request_of(bytes).opcode, request_of(bytes).operand) == bytes,
{
    lemma_be_bytes_of_value(bytes.subrange(1, 9));
    assert(request_bytes(request_of(bytes).opcode, request_of(bytes).operand) =~= bytes);
}

/// Round trip of a response: decoding what `encode_response` produced gives
/// the result back.
pub proof fn lemma_response_round_trip(result: i64)
    ensures
        response_bytes(result).len() == RESPONSE_LEN,
        be_value(response_bytes(result)) == result,
{
    lemma_be_value_of_bytes(result);
}

} // verus!
