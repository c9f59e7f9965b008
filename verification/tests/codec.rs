use buy_counter::codec::{decode, encode};
use buy_counter::error::HandlerError;
use buy_counter::state::BuyAccount;

#[test]
fn encode_is_little_endian() {
    assert_eq!(encode(&BuyAccount { counter: 1 }), vec![1, 0, 0, 0]);
    assert_eq!(encode(&BuyAccount { counter: 0x0102_0304 }), vec![4, 3, 2, 1]);
    assert_eq!(encode(&BuyAccount { counter: 0 }), vec![0, 0, 0, 0]);
    assert_eq!(encode(&BuyAccount { counter: u32::MAX }), vec![0xff, 0xff, 0xff, 0xff]);
}

#[test]
fn decode_reads_leading_bytes_only() {
    assert_eq!(
        decode(&[4, 3, 2, 1]),
        Ok(BuyAccount { counter: 0x0102_0304 })
    );
    // Trailing bytes are never inspected.
    assert_eq!(
        decode(&[4, 3, 2, 1, 0xaa, 0xbb]),
        Ok(BuyAccount { counter: 0x0102_0304 })
    );
}

#[test]
fn decode_rejects_short_buffers() {
    assert_eq!(decode(&[]), Err(HandlerError::InvalidEncoding));
    assert_eq!(decode(&[1]), Err(HandlerError::InvalidEncoding));
    assert_eq!(decode(&[1, 2, 3]), Err(HandlerError::InvalidEncoding));
}

#[test]
fn round_trip_on_sample_values() {
    for c in [0u32, 1, 2, 255, 256, 0xdead_beef, u32::MAX - 1, u32::MAX] {
        let s = BuyAccount { counter: c };
        assert_eq!(decode(&encode(&s)), Ok(s));
    }
}

#[test]
fn encoding_agrees_with_borsh() {
    for c in [0u32, 1, 7, 0x0102_0304, 0xdead_beef, u32::MAX] {
        let ours = encode(&BuyAccount { counter: c });
        let theirs = borsh::to_vec(&c).expect("borsh can serialize a u32");
        assert_eq!(ours, theirs);
        let back: u32 = borsh::from_slice(&ours).expect("borsh can read our encoding");
        assert_eq!(back, c);
        assert_eq!(decode(&theirs), Ok(BuyAccount { counter: c }));
    }
}
