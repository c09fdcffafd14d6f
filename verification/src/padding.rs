use vstd::prelude::*;

verus! {

/// DESFire specific padding scheme: the first byte past the real data is set
/// to 0x80, and the remaining space in the block is filled with zeros.
///
/// Messages are not always padded -- block aligned data gets no padding --
/// so padding cannot be told apart from data that ends in 0x80 0x00 ...
#[derive(Copy, Clone, Debug, PartialEq, Eq, Structural)]
pub struct Padding;

/// A block of `len` bytes whose first `pos` bytes are those of `data`,
/// followed by 0x80 at `pos` and zeros after it.
pub open spec fn padded_block(data: Seq<u8>, pos: int) -> Seq<u8> {
    Seq::new(data.len(), |i: int| if i < pos { data[i] } else if i == pos { 0x80u8 } else { 0u8 })
}

impl Padding {
    /// Apply DESFire-specific padding to the data buffer, which is filled with
    /// data up to `pos`: byte `pos` becomes 0x80 and every byte after it 0.
    /// `pos` must lie inside the block.
    pub fn pad(block: &mut [u8], pos: usize)
        requires
            pos < old(block)@.len(),
        ensures
            final(block)@ == padded_block(old(block)@, pos as int),
    {
        let len = block.len();
        let mut i: usize = pos;
        while i < len
            invariant
                pos <= i <= len,
                len == block@.len(),
                block@.len() == old(block)@.len(),
                forall|j: int| 0 <= j < pos ==> block@[j] == old(block)@[j],
                forall|j: int| pos <= j < i ==> block@[j] == 0u8,
            decreases len - i,
        {
            block[i] = 0;
            i = i + 1;
        }
        block[pos] = 0x80;
        assert(block@ =~= padded_block(old(block)@, pos as int));
    }
}

} // verus!
