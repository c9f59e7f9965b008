use vstd::prelude::*;
use crate::error::HandlerError;
use crate::state::BuyAccount;

verus! {

/// Width in bytes of the encoded counter at the front of an account buffer.
pub const COUNTER_WIDTH: usize = 4;

/// The counter value that the first four bytes of a buffer encode,
/// read as an unsigned 32-bit integer in little-endian byte order.
pub open spec fn counter_of(bytes: Seq<u8>) -> u32
    recommends
        bytes.len() >= COUNTER_WIDTH,
{
    (bytes[0] as u32) | ((bytes[1] as u32) << 8) | ((bytes[2] as u32) << 16) | (
    (bytes[3] as u32) << 24)
}

/// The four little-endian bytes that encode a counter value.
pub open spec fn bytes_of(counter: u32) -> Seq<u8> {
    seq![
        (counter & 0xff) as u8,
        ((counter >> 8) & 0xff) as u8,
        ((counter >> 16) & 0xff) as u8,
        ((counter >> 24) & 0xff) as u8,
    ]
}

/// Round-trip law: decoding the encoding of any representable state
/// gives that state back, `counter_of(bytes_of(c)) == c`.
pub proof fn lemma_round_trip(counter: u32)
    ensures
        counter_of(bytes_of(counter)) == counter,
{
    let b0 = (counter & 0xff) as u8;
    let b1 = ((counter >> 8) & 0xff) as u8;
    let b2 = ((counter >> 16) & 0xff) as u8;
    let b3 = ((counter >> 24) & 0xff) as u8;
    assert((b0 as u32) | ((b1 as u32) << 8) | ((b2 as u32) << 16) | ((b3 as u32) << 24)
        == counter) by (bit_vector)
        requires
            b0 == (counter & 0xff) as u8,
            b1 == ((counter >> 8) & 0xff) as u8,
            b2 == ((counter >> 16) & 0xff) as u8,
            b3 == ((counter >> 24) & 0xff) as u8,
    ;
}

/// Decode the counter state from the leading bytes of an account buffer.
/// Fails exactly when the buffer is shorter than the encoded width;
/// bytes beyond the encoded width are never inspected.
pub fn decode(bytes: &[u8]) -> (r: Result<BuyAccount, HandlerError>)
    ensures
        bytes@.len() < COUNTER_WIDTH ==> r == Err::<BuyAccount, HandlerError>(
            HandlerError::InvalidEncoding,
        ),
        bytes@.len() >= COUNTER_WIDTH ==> r == Ok::<BuyAccount, HandlerError>(
            BuyAccount { counter: counter_of(bytes@) },
        ),
{
    if bytes.len() < COUNTER_WIDTH {
        return Err(HandlerError::InvalidEncoding);
    }
    let counter = (bytes[0] as u32) | ((bytes[1] as u32) << 8) | ((bytes[2] as u32) << 16) | (
    (bytes[3] as u32) << 24);
    Ok(BuyAccount { counter })
}

/// Encode a counter state as exactly `COUNTER_WIDTH` little-endian bytes.
pub fn encode(state: &BuyAccount) -> (r: Vec<u8>)
    ensures
        r@ == bytes_of(state.counter),
        r@.len() == COUNTER_WIDTH,
{
    let c = state.counter;
    let mut out: Vec<u8> = Vec::new();
    out.push((c & 0xff) as u8);
    out.push(((c >> 8) & 0xff) as u8);
    out.push(((c >> 16) & 0xff) as u8);
    out.push(((c >> 24) & 0xff) as u8);
    proof {
        assert(out@ =~= bytes_of(state.counter));
    }
    out
}

/// Overwrite the leading `COUNTER_WIDTH` bytes of a buffer with the
/// encoding of a counter state, leaving every trailing byte unchanged.
pub fn encode_into(state: &BuyAccount, data: &mut Vec<u8>)
    requires
        old(data)@.len() >= COUNTER_WIDTH,
    ensures
        final(data)@ == bytes_of(state.counter) + old(data)@.skip(COUNTER_WIDTH as int),
        final(data)@.len() == old(data)@.len(),
{
    let c = state.counter;
    data[0] = (c & 0xff) as u8;
    data[1] = ((c >> 8) & 0xff) as u8;
    data[2] = ((c >> 16) & 0xff) as u8;
    data[3] = ((c >> 24) & 0xff) as u8;
    proof {
        assert(data@ =~= bytes_of(state.counter) + old(data)@.skip(COUNTER_WIDTH as int));
    }
}

} // verus!
