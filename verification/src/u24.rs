use vstd::prelude::*;

verus! {

/// The value of three little-endian bytes.
pub open spec fn u24_value(b: Seq<u8>) -> int {
    b[0] + 256 * b[1] + 65536 * b[2]
}

/// Read and write 24-bit little-endian integers, as the card uses for
/// file offsets and sizes.
pub trait U24: Sized {
    /// The three bytes that [U24::to_le_bytes] gives for a value.
    spec fn spec_to_le(self) -> Seq<u8>;

    /// The value that [U24::from_le_bytes] gives for three bytes.
    spec fn spec_from_le(v: Seq<u8>) -> Self;

    /// The three low bytes of the value, least significant first.
    fn to_le_bytes(self) -> (r: [u8; 3])
        ensures
            r@ == self.spec_to_le(),
    ;

    /// The value of three bytes, least significant first.
    fn from_le_bytes(v: [u8; 3]) -> (r: Self)
        ensures
            r == Self::spec_from_le(v@),
    ;
}

impl U24 for u32 {
    /// The bytes of `self % 2^24`, least significant first; the high byte is
    /// dropped.
    open spec fn spec_to_le(self) -> Seq<u8> {
        seq![(self % 256) as u8, ((self / 256) % 256) as u8, ((self / 65536) % 256) as u8]
    }

    /// The value `v[0] + 256 * v[1] + 65536 * v[2]`.
    open spec fn spec_from_le(v: Seq<u8>) -> u32 {
        u24_value(v) as u32
    }

    fn to_le_bytes(self) -> (r: [u8; 3]) {
        let b0 = (self & 0xFF) as u8;
        let b1 = ((self >> 8) & 0xFF) as u8;
        let b2 = ((self >> 16) & 0xFF) as u8;
        assert(b0 == self % 256 && b1 == (self / 256) % 256 && b2 == (self / 65536) % 256) by (bit_vector)
            requires
                b0 == (self & 0xFF) as u8,
                b1 == ((self >> 8) & 0xFF) as u8,
                b2 == ((self >> 16) & 0xFF) as u8,
        ;
        let r: [u8; 3] = [b0, b1, b2];
        assert(r@ =~= self.spec_to_le());
        r
    }

    fn from_le_bytes(v: [u8; 3]) -> (r: u32) {
        let (b0, b1, b2) = (v[0], v[1], v[2]);
        let r = (b0 as u32) | ((b1 as u32) << 8) | ((b2 as u32) << 16);
        assert(r == b0 + 256 * b1 + 65536 * b2) by (bit_vector)
            requires
                r == (b0 as u32) | ((b1 as u32) << 8) | ((b2 as u32) << 16),
        ;
        r
    }
}

/// A value below 2^24 written as three bytes reads back as itself.
pub proof fn lemma_u24_round_trip(x: u32)
    requires
        x < 0x1000000,
    ensures
        <u32 as U24>::spec_from_le(x.spec_to_le()) == x,
{
    assert((x % 256) + 256 * ((x / 256) % 256) + 65536 * ((x / 65536) % 256) == x) by (nonlinear_arith)
        requires
            x < 0x1000000,
    ;
}

/// Three bytes read as a value and written back give the same bytes.
pub proof fn lemma_u24_bytes_round_trip(b: Seq<u8>)
    requires
        b.len() == 3,
    ensures
        <u32 as U24>::spec_from_le(b).spec_to_le() == b,
{
    let (b0, b1, b2) = (b[0], b[1], b[2]);
    let x = b0 + 256 * b1 + 65536 * b2;
    assert({
        &&& 0 <= x < 0x1000000
        &&& x % 256 == b0
        &&& (x / 256) % 256 == b1
        &&& (x / 65536) % 256 == b2
    }) by (nonlinear_arith)
        requires
            0 <= b0 < 256,
            0 <= b1 < 256,
            0 <= b2 < 256,
            x == b0 + 256 * b1 + 65536 * b2,
    ;
    assert(<u32 as U24>::spec_from_le(b).spec_to_le() =~= b);
}

/// Little-endian, least significant byte first: the three bytes written for
/// a value are its value modulo 256, then the next byte up, then the third,
/// and three bytes read as a value weigh 1, 256 and 65536.
pub proof fn lemma_u24_meaning(x: u32, b: Seq<u8>)
    requires
        b.len() == 3,
    ensures
        x.spec_to_le().len() == 3,
        x.spec_to_le()[0] == x % 256,
        x.spec_to_le()[1] == (x / 256) % 256,
        x.spec_to_le()[2] == (x / 65536) % 256,
        <u32 as U24>::spec_from_le(b) == b[0] + 256 * b[1] + 65536 * b[2],
{
}

} // verus!
