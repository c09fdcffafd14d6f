//! Helpers to move bytes between buffers: flattening a message given in
//! parts, and copying the next chunk of a message into a command buffer.
use vstd::prelude::*;

verus! {

/// The views of a list of byte slices.
pub open spec fn parts_view(parts: Seq<&[u8]>) -> Seq<Seq<u8>> {
    parts.map_values(|p: &[u8]| p@)
}

/// The concatenation of a list of byte strings, in order.
pub open spec fn flatten_parts(parts: Seq<Seq<u8>>) -> Seq<u8>
    decreases parts.len(),
{
    if parts.len() == 0 {
        Seq::empty()
    } else {
        flatten_parts(parts.drop_last()) + parts.last()
    }
}

/// The bytes of `header` followed by those of every part of `parts`.
pub fn concat_parts(header: &[u8], parts: &[&[u8]]) -> (r: Vec<u8>)
    ensures
        r@ == header@ + flatten_parts(parts_view(parts@)),
{
    let mut out: Vec<u8> = Vec::new();
    append_slice(&mut out, header);
    let mut i: usize = 0;
    while i < parts.len()
        invariant
            0 <= i <= parts@.len(),
            out@ == header@ + flatten_parts(parts_view(parts@).take(i as int)),
        decreases parts@.len() - i,
    {
        let p: &[u8] = parts[i];
        append_slice(&mut out, p);
        assert(parts_view(parts@).take(i + 1).drop_last() =~= parts_view(parts@).take(i as int));
        i = i + 1;
    }
    assert(parts_view(parts@).take(parts@.len() as int) =~= parts_view(parts@));
    out
}

/// Append the bytes of a slice to a vector.
pub fn append_slice(out: &mut Vec<u8>, s: &[u8])
    ensures
        final(out)@ == old(out)@ + s@,
{
    let mut i: usize = 0;
    while i < s.len()
        invariant
            0 <= i <= s@.len(),
            out@ == old(out)@ + s@.take(i as int),
        decreases s@.len() - i,
    {
        out.push(s[i]);
        assert(s@.take(i + 1) =~= s@.take(i as int).push(s@[i as int]));
        i = i + 1;
    }
    assert(s@.take(s@.len() as int) =~= s@);
}

/// Copy the bytes of `input` from position `pos` on into the front of `out`,
/// as many as both have room for, and return how many were copied; `None`
/// where none were.
pub fn copy_to_slice(input: &[u8], pos: usize, out: &mut [u8]) -> (r: Option<usize>)
    requires
        pos <= input@.len(),
    ensures
        final(out)@.len() == old(out)@.len(),
        ({
            let n = if input@.len() - pos < old(out)@.len() { input@.len() - pos } else { old(out)@.len() as int };
            &&& n == 0 ==> r is None && final(out)@ == old(out)@
            &&& n > 0 ==> r == Some(n as usize)
                && final(out)@ == input@.subrange(pos as int, pos + n) + old(out)@.skip(n)
        }),
{
    let avail = input.len() - pos;
    let n = if avail < out.len() { avail } else { out.len() };
    let mut i: usize = 0;
    while i < n
        invariant
            0 <= i <= n,
            n <= out@.len(),
            pos + n <= input@.len(),
            input@.len() <= usize::MAX,
            out@.len() == old(out)@.len(),
            forall|j: int| 0 <= j < i ==> out@[j] == input@[pos + j],
            forall|j: int| i <= j < out@.len() ==> out@[j] == old(out)@[j],
        decreases n - i,
    {
        out[i] = input[pos + i];
        i = i + 1;
    }
    assert(out@ =~= input@.subrange(pos as int, pos + n) + old(out)@.skip(n as int));
    if n == 0 {
        assert(out@ =~= old(out)@);
        None
    } else {
        Some(n)
    }
}

} // verus!
