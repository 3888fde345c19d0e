//! The wire encoding of one datagram: eight bytes, holding the target index
//! and the action code as two signed 32-bit little-endian fields.

use vstd::prelude::*;

verus! {

/// The unsigned 32-bit value that four bytes hold in little-endian order.
pub open spec fn le32(b0: u8, b1: u8, b2: u8, b3: u8) -> u32 {
    (b0 as u32) | ((b1 as u32) << 8) | ((b2 as u32) << 16) | ((b3 as u32) << 24)
}

/// The datagram layout: bytes 0..4 carry `index` and bytes 4..8 carry `code`,
/// each as a signed 32-bit little-endian field (two's complement).
pub open spec fn encodes(bytes: Seq<u8>, index: i32, code: i32) -> bool {
    &&& bytes.len() == 8
    &&& le32(bytes[0], bytes[1], bytes[2], bytes[3]) == index as u32
    &&& le32(bytes[4], bytes[5], bytes[6], bytes[7]) == code as u32
}

/// Appends the four little-endian bytes of `value` to `buf`.
fn push_le32(buf: &mut Vec<u8>, value: i32)
    ensures
        final(buf)@.len() == old(buf)@.len() + 4,
        forall|i: int| 0 <= i < old(buf)@.len() ==> final(buf)@[i] == old(buf)@[i],
        le32(
            final(buf)@[old(buf)@.len() as int],
            final(buf)@[old(buf)@.len() as int + 1],
            final(buf)@[old(buf)@.len() as int + 2],
            final(buf)@[old(buf)@.len() as int + 3],
        ) == value as u32,
{
    let n: u32 = #[verifier::truncate] (value as u32);
    let b0: u8 = #[verifier::truncate] (n as u8);
    let b1: u8 = #[verifier::truncate] ((n >> 8) as u8);
    let b2: u8 = #[verifier::truncate] ((n >> 16) as u8);
    let b3: u8 = #[verifier::truncate] ((n >> 24) as u8);
    proof {
        assert(le32(b0, b1, b2, b3) == n) by (bit_vector)
            requires
                b0 == n as u8,
                b1 == (n >> 8) as u8,
                b2 == (n >> 16) as u8,
                b3 == (n >> 24) as u8,
        ;
    }
    buf.push(b0);
    buf.push(b1);
    buf.push(b2);
    buf.push(b3);
}

/// Builds the eight-byte datagram for the pair `(index, code)`.
pub fn encode_datagram(index: i32, code: i32) -> (r: Vec<u8>)
    ensures
        encodes(r@, index, code),
{
    let mut buf: Vec<u8> = Vec::new();
    push_le32(&mut buf, index);
    push_le32(&mut buf, code);
    buf
}

/// Reads the signed 32-bit little-endian field at `start`.
fn read_le32(bytes: &Vec<u8>, start: usize) -> (r: i32)
    requires
        start + 4 <= bytes@.len(),
    ensures
        r as u32 == le32(
            bytes@[start as int],
            bytes@[start + 1],
            bytes@[start + 2],
            bytes@[start + 3],
        ),
{
    // Pins the length into usize range, so the index sums below cannot overflow.
    let _len: usize = bytes.len();
    let b0 = bytes[start];
    let b1 = bytes[start + 1];
    let b2 = bytes[start + 2];
    let b3 = bytes[start + 3];
    let n: u32 = (b0 as u32) | ((b1 as u32) << 8) | ((b2 as u32) << 16) | ((b3 as u32) << 24);
    let r: i32 = #[verifier::truncate] (n as i32);
    proof {
        assert(r as u32 == n) by (bit_vector)
            requires
                r == n as i32,
        ;
    }
    r
}

/// Recovers the `(index, code)` pair that an eight-byte datagram carries.
pub fn decode_datagram(bytes: &Vec<u8>) -> (r: (i32, i32))
    requires
        bytes@.len() == 8,
    ensures
        encodes(bytes@, r.0, r.1),
{
    let index = read_le32(bytes, 0);
    let code = read_le32(bytes, 4);
    (index, code)
}

/// One datagram carries one pair: two pairs encoded by the same bytes are
/// equal, so decoding the bytes of an encoded pair recovers that pair exactly.
pub proof fn lemma_datagram_determines_pair(
    bytes: Seq<u8>,
    index1: i32,
    code1: i32,
    index2: i32,
    code2: i32,
)
    requires
        encodes(bytes, index1, code1),
        encodes(bytes, index2, code2),
    ensures
        index1 == index2,
        code1 == code2,
{
    assert(index1 as u32 == index2 as u32 ==> index1 == index2) by (bit_vector);
    assert(code1 as u32 == code2 as u32 ==> code1 == code2) by (bit_vector);
}

/// One pair has one encoding: any two byte sequences that encode the same
/// pair are identical.
pub proof fn lemma_pair_determines_datagram(a: Seq<u8>, b: Seq<u8>, index: i32, code: i32)
    requires
        encodes(a, index, code),
        encodes(b, index, code),
    ensures
        a =~= b,
{
    assert forall|i: int| 0 <= i < 8 implies a[i] == b[i] by {
        let (a0, a1, a2, a3) = (a[0], a[1], a[2], a[3]);
        let (b0, b1, b2, b3) = (b[0], b[1], b[2], b[3]);
        let (a4, a5, a6, a7) = (a[4], a[5], a[6], a[7]);
        let (b4, b5, b6, b7) = (b[4], b[5], b[6], b[7]);
        assert(le32(a0, a1, a2, a3) == le32(b0, b1, b2, b3) ==> a0 == b0 && a1 == b1 && a2 == b2
            && a3 == b3) by (bit_vector);
        assert(le32(a4, a5, a6, a7) == le32(b4, b5, b6, b7) ==> a4 == b4 && a5 == b5 && a6 == b6
            && a7 == b7) by (bit_vector);
    }
}

} // verus!
