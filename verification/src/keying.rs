//! The keying state shared between the host and the card: the session
//! scheme (key and IV) and the CMAC subkeys derived from the session key.
use crate::copy_to_slice::{append_slice, concat_parts, flatten_parts, parts_view};
use crate::crypto::{
    block_len, block_size, cbc_encrypt, cmac_subkeys, copy_last_n, key_algorithm, last_n, spec_cbc_encrypt,
    xor_seq, Algorithm, Scheme,
};
use crate::error::Error;
use crate::key::Key;
use vstd::prelude::*;
use vstd::slice::slice_subrange;

verus! {

/// A sequence of `n` zero bytes.
pub open spec fn zeros(n: nat) -> Seq<u8> {
    Seq::new(n, |i: int| 0u8)
}

/// A message padded the DESFire way to a whole number of blocks: 0x80
/// after the data, then zeros up to the end of the block.
pub open spec fn pad_message(m: Seq<u8>, bs: nat) -> Seq<u8> {
    m + seq![0x80u8] + zeros((bs - 1 - m.len() % bs) as nat)
}

/// A message whose last block is XOR-ed with `k`.
pub open spec fn xor_last_block(m: Seq<u8>, k: Seq<u8>) -> Seq<u8> {
    m.subrange(0, m.len() - k.len()) + xor_seq(last_n(m, k.len()), k)
}

/// The blocks that CMAC runs through CBC: a block-aligned message with its
/// last block XOR-ed with K1, or a padded one with its last block XOR-ed
/// with K2.
pub open spec fn cmac_input(m: Seq<u8>, k1: Seq<u8>, k2: Seq<u8>) -> Seq<u8> {
    if m.len() % k1.len() == 0 {
        xor_last_block(m, k1)
    } else {
        xor_last_block(pad_message(m, k1.len()), k2)
    }
}

/// The CMAC of a message under a keying state: the last block of the CBC
/// encryption of [cmac_input] under the session key and the current IV. The
/// empty message gives a zero block (nothing is encrypted).
pub open spec fn spec_cmac(alg: Algorithm, key: Seq<u8>, iv: Seq<u8>, k1: Seq<u8>, k2: Seq<u8>, m: Seq<u8>) -> Seq<u8> {
    if m.len() == 0 {
        zeros(block_size(alg))
    } else {
        last_n(spec_cbc_encrypt(alg, key, iv, cmac_input(m, k1, k2)), block_size(alg))
    }
}

/// Underlying keying state shared between the host (this library) and the
/// card: the session key and IV (in the [Scheme]), and the derived CMAC
/// signature keys `k1` and `k2`.
#[derive(Debug)]
pub struct KeyingState {
    backend: Scheme,
    k1: Vec<u8>,
    k2: Vec<u8>,
}

impl KeyingState {
    /// The session scheme (algorithm, key, IV).
    pub closed spec fn spec_scheme(self) -> Scheme {
        self.backend
    }

    /// CMAC subkey K1.
    pub closed spec fn spec_k1(self) -> Seq<u8> {
        self.k1@
    }

    /// CMAC subkey K2.
    pub closed spec fn spec_k2(self) -> Seq<u8> {
        self.k2@
    }

    /// The algorithm in use.
    pub open spec fn spec_algorithm(self) -> Algorithm {
        self.spec_scheme().spec_algorithm()
    }

    /// The session key.
    pub open spec fn spec_key(self) -> Seq<u8> {
        self.spec_scheme().spec_key()
    }

    /// The current IV.
    pub open spec fn spec_iv(self) -> Seq<u8> {
        self.spec_scheme().spec_iv()
    }

    /// The scheme is well formed, and K1 and K2 are the CMAC subkeys of the
    /// session key (derived with a zero IV).
    pub open spec fn wf(self) -> bool {
        &&& self.spec_scheme().wf()
        &&& (self.spec_k1(), self.spec_k2()) == cmac_subkeys(self.spec_algorithm(), self.spec_key(), zeros(block_size(self.spec_algorithm())))
        &&& self.spec_k1().len() == block_size(self.spec_algorithm())
        &&& self.spec_k2().len() == block_size(self.spec_algorithm())
    }

    /// The CMAC that [KeyingState::generate_cmac] computes for a message in
    /// this state.
    pub open spec fn spec_cmac_of(self, m: Seq<u8>) -> Seq<u8> {
        spec_cmac(self.spec_algorithm(), self.spec_key(), self.spec_iv(), self.spec_k1(), self.spec_k2(), m)
    }

    /// Create a new [KeyingState] for a session key: the scheme starts with
    /// a zero IV, and the CMAC subkeys are derived from the key.
    pub fn new(key: Key) -> (r: Self)
        ensures
            r.wf(),
            r.spec_algorithm() == key_algorithm(key),
            r.spec_key() == key.spec_bytes(),
            r.spec_iv() == zeros(block_size(key_algorithm(key))),
    {
        let session_key = Scheme::new(key);
        let (k1, k2) = session_key.generate_cmac_keys();
        KeyingState { k1, k2, backend: Scheme::new(key) }
    }

    /// The session scheme (algorithm, key, IV).
    pub fn scheme(&self) -> (r: &Scheme)
        ensures
            *r == self.spec_scheme(),
    {
        &self.backend
    }

    /// Get the current IV state.
    pub fn get_iv(&self) -> (r: &[u8])
        ensures
            r@ == self.spec_iv(),
    {
        self.backend.get_iv()
    }

    /// Set the IV manually.
    pub fn set_iv(&mut self, iv: &[u8])
        requires
            old(self).wf(),
            iv@.len() == block_size(old(self).spec_algorithm()),
        ensures
            final(self).wf(),
            final(self).spec_algorithm() == old(self).spec_algorithm(),
            final(self).spec_key() == old(self).spec_key(),
            final(self).spec_k1() == old(self).spec_k1(),
            final(self).spec_k2() == old(self).spec_k2(),
            final(self).spec_iv() == iv@,
    {
        self.backend.set_iv(iv);
    }

    /// Compute the CMAC of `header` followed by the parts of `data`, and
    /// move the IV to it (the IV ratchets forward with every CMAC).
    pub fn generate_cmac(&mut self, header: &[u8], data: &[&[u8]]) -> (r: Vec<u8>)
        requires
            old(self).wf(),
        ensures
            final(self).wf(),
            final(self).spec_algorithm() == old(self).spec_algorithm(),
            final(self).spec_key() == old(self).spec_key(),
            final(self).spec_k1() == old(self).spec_k1(),
            final(self).spec_k2() == old(self).spec_k2(),
            r@ == old(self).spec_cmac_of(header@ + flatten_parts(parts_view(data@))),
            r@.len() == block_size(old(self).spec_algorithm()),
            final(self).spec_iv() == r@,
    {
        let m = concat_parts(header, data);
        let mac = self.cmac_of_message(&m);
        self.backend.set_iv(mac.as_slice());
        mac
    }

    fn cmac_of_message(&self, m: &Vec<u8>) -> (r: Vec<u8>)
        requires
            self.wf(),
        ensures
            r@ == self.spec_cmac_of(m@),
            r@.len() == block_size(self.spec_algorithm()),
    {
        let alg = self.backend.algorithm();
        let bs = block_len(alg);
        if m.len() == 0 {
            let z = vec![0u8; bs];
            assert(z@ =~= zeros(bs as nat));
            return z;
        }
        let mut input: Vec<u8> = Vec::new();
        append_slice(&mut input, m.as_slice());
        assert(input@ == m@);
        if m.len() % bs == 0 {
            assert(m@.len() >= bs) by (nonlinear_arith)
                requires m@.len() > 0, m@.len() % (bs as nat) == 0, bs > 0;
            xor_last(&mut input, self.k1.as_slice());
            assert(input@.len() == m@.len());
        } else {
            input.push(0x80u8);
            let ghost pushed = input@;
            let fill = bs - 1 - m.len() % bs;
            let mut i: usize = 0;
            while i < fill
                invariant
                    0 <= i <= fill,
                    input@ == pushed + zeros(i as nat),
                decreases fill - i,
            {
                input.push(0u8);
                assert(zeros((i + 1) as nat) =~= zeros(i as nat).push(0u8));
                i = i + 1;
            }
            assert(input@ =~= pad_message(m@, bs as nat));
            proof { lemma_pad_message_aligned(m@, bs as nat); }
            let ghost padded_len = input@.len();
            xor_last(&mut input, self.k2.as_slice());
            assert(input@.len() == padded_len);
        }
        assert(input@.len() % (bs as nat) == 0);
        cbc_encrypt(alg, self.backend.get_key(), self.backend.get_iv(), &mut input);
        copy_last_n(input.as_slice(), bs)
    }

    /// The MiFare CMAC "short signature": the first 8 bytes of the CMAC, no
    /// matter what the key length is. The IV moves as for
    /// [KeyingState::generate_cmac].
    pub fn generate_cmac_short(&mut self, header: &[u8], data: &[&[u8]]) -> (r: [u8; 8])
        requires
            old(self).wf(),
        ensures
            final(self).wf(),
            final(self).spec_algorithm() == old(self).spec_algorithm(),
            final(self).spec_key() == old(self).spec_key(),
            final(self).spec_k1() == old(self).spec_k1(),
            final(self).spec_k2() == old(self).spec_k2(),
            r@ == old(self).spec_cmac_of(header@ + flatten_parts(parts_view(data@))).take(8),
            final(self).spec_iv() == old(self).spec_cmac_of(header@ + flatten_parts(parts_view(data@))),
    {
        let mac = self.generate_cmac(header, data);
        let r: [u8; 8] = [mac[0], mac[1], mac[2], mac[3], mac[4], mac[5], mac[6], mac[7]];
        assert(r@ =~= mac@.take(8));
        r
    }

    /// Validate the CMAC short signature that ends `data`: the CMAC is
    /// computed over the bytes before the last 8, followed by the trailer,
    /// and compared with those last 8 bytes. On success the signed bytes are
    /// returned. Data shorter than 8 bytes, or a signature that does not
    /// match, is [Error::InvalidSignature].
    pub fn validate_cmac<'a, IoBackendErrorT>(&mut self, data: &'a [u8], trailer: Option<&[u8]>) -> (r: Result<&'a [u8], Error<IoBackendErrorT>>)
        requires
            old(self).wf(),
        ensures
            final(self).wf(),
            final(self).spec_algorithm() == old(self).spec_algorithm(),
            final(self).spec_key() == old(self).spec_key(),
            final(self).spec_k1() == old(self).spec_k1(),
            final(self).spec_k2() == old(self).spec_k2(),
            data@.len() < 8 ==> (r matches Err(Error::InvalidSignature) && final(self).spec_iv() == old(self).spec_iv()),
            data@.len() >= 8 ==> ({
                let msg = data@.subrange(0, data@.len() - 8);
                let mac = old(self).spec_cmac_of(msg + trailer_view(trailer));
                &&& final(self).spec_iv() == mac
                &&& mac.take(8) == data@.skip(data@.len() - 8) ==> (r matches Ok(x) && x@ == msg)
                &&& mac.take(8) != data@.skip(data@.len() - 8) ==> r matches Err(Error::InvalidSignature)
            }),
    {
        if data.len() < 8 {
            return Err(Error::InvalidSignature);
        }
        let n = data.len() - 8;
        let msg = slice_subrange(data, 0, n);
        let read = slice_subrange(data, n, data.len());
        let t: &[u8] = match trailer {
            Some(t) => t,
            None => &[],
        };
        assert(t@ == trailer_view(trailer));
        let parts: [&[u8]; 1] = [t];
        let ghost pv = parts_view(parts@);
        assert(parts@.len() == 1 && parts@[0] == t);
        assert(pv.len() == 1 && pv[0] == t@);
        assert(pv.drop_last() =~= Seq::<Seq<u8>>::empty());
        assert(flatten_parts(pv.drop_last()) =~= Seq::<u8>::empty());
        assert(flatten_parts(pv) =~= t@);
        let computed = self.generate_cmac_short(msg, parts.as_slice());
        if !bytes_eq(read, &computed) {
            return Err(Error::InvalidSignature);
        }
        Ok(msg)
    }
}

impl std::ops::Deref for KeyingState {
    type Target = Scheme;

    /// The session scheme (algorithm, key, IV).
    fn deref(&self) -> (r: &Scheme)
        ensures
            *r == self.spec_scheme(),
    {
        &self.backend
    }
}

/// What a CMAC is, for a keying state: the empty message gives a zero
/// block; a non-empty message whose length is a whole number of blocks is
/// not padded, and has its last block XOR-ed with the subkey K1; any other
/// message is padded with 0x80 and then zeros up to a whole block, and has
/// its last block XOR-ed with the subkey K2. The CMAC is the last block of
/// the CBC encryption of that, under the session key from the current IV.
pub proof fn lemma_cmac_meaning(ks: KeyingState, m: Seq<u8>, mac: Seq<u8>)
    requires
        ks.wf(),
        mac == ks.spec_cmac_of(m),
    ensures
        ({
            let alg = ks.spec_algorithm();
            let bs = block_size(alg);
            &&& m.len() == 0 ==> mac == Seq::new(bs, |i: int| 0u8)
            &&& m.len() > 0 && m.len() % bs == 0 ==> mac == last_n(spec_cbc_encrypt(alg, ks.spec_key(), ks.spec_iv(),
                    Seq::new(m.len(), |i: int| if i < m.len() - bs { m[i] } else { m[i] ^ ks.spec_k1()[i - (m.len() - bs)] })), bs)
            &&& m.len() % bs != 0 ==> ({
                let p = m + seq![0x80u8] + Seq::new((bs - 1 - m.len() % bs) as nat, |i: int| 0u8);
                mac == last_n(spec_cbc_encrypt(alg, ks.spec_key(), ks.spec_iv(),
                    Seq::new(p.len(), |i: int| if i < p.len() - bs { p[i] } else { p[i] ^ ks.spec_k2()[i - (p.len() - bs)] })), bs)
            })
        }),
{
    let alg = ks.spec_algorithm();
    let bs = block_size(alg);
    let k1 = ks.spec_k1();
    let k2 = ks.spec_k2();
    if m.len() == 0 {
        assert(zeros(bs) =~= Seq::new(bs, |i: int| 0u8));
    } else if m.len() % bs == 0 {
        assert(m.len() >= bs) by (nonlinear_arith)
            requires m.len() > 0, m.len() % bs == 0, bs > 0;
        assert(cmac_input(m, k1, k2) =~= Seq::new(m.len(), |i: int| if i < m.len() - bs { m[i] } else { m[i] ^ k1[i - (m.len() - bs)] }));
    } else {
        let p = m + seq![0x80u8] + Seq::new((bs - 1 - m.len() % bs) as nat, |i: int| 0u8);
        assert(pad_message(m, bs) =~= p);
        lemma_pad_message_aligned(m, bs);
        assert(cmac_input(m, k1, k2) =~= Seq::new(p.len(), |i: int| if i < p.len() - bs { p[i] } else { p[i] ^ k2[i - (p.len() - bs)] }));
    }
}

/// What one side signs, the other verifies: a message followed by the short
/// signature that [KeyingState::generate_cmac_short] gives for it (with a
/// trailer appended to what is signed) passes [KeyingState::validate_cmac]
/// with that trailer in a keying state equal to the signer's: the bytes
/// before the signature are the message, and the signature they are checked
/// against is the one computed.
pub proof fn lemma_signed_message_validates(ks: KeyingState, m: Seq<u8>, trailer: Seq<u8>, sig: Seq<u8>)
    requires
        ks.wf(),
        sig.len() == 8,
        sig == ks.spec_cmac_of(m + trailer).take(8),
    ensures
        ({
            let data = m + sig;
            &&& data.len() >= 8
            &&& data.subrange(0, data.len() - 8) == m
            &&& ks.spec_cmac_of(data.subrange(0, data.len() - 8) + trailer).take(8) == data.skip(data.len() - 8)
        }),
{
    let data = m + sig;
    assert(data.subrange(0, data.len() - 8) =~= m);
    assert(data.skip(data.len() - 8) =~= sig);
}

/// The bytes of an optional trailer (none when absent).
pub open spec fn trailer_view(trailer: Option<&[u8]>) -> Seq<u8> {
    match trailer {
        Some(t) => t@,
        None => Seq::empty(),
    }
}

/// Whether two byte strings are equal.
pub fn bytes_eq(a: &[u8], b: &[u8]) -> (r: bool)
    ensures
        r == (a@ == b@),
{
    if a.len() != b.len() {
        return false;
    }
    let mut i: usize = 0;
    while i < a.len()
        invariant
            0 <= i <= a@.len(),
            a@.len() == b@.len(),
            forall|j: int| 0 <= j < i ==> a@[j] == b@[j],
        decreases a@.len() - i,
    {
        if a[i] != b[i] {
            return false;
        }
        i = i + 1;
    }
    assert(a@ =~= b@);
    true
}

proof fn lemma_pad_message_aligned(m: Seq<u8>, bs: nat)
    requires
        bs > 0,
        m.len() % bs != 0,
    ensures
        pad_message(m, bs).len() % bs == 0,
        pad_message(m, bs).len() >= bs,
{
    let r = m.len() % bs;
    assert(pad_message(m, bs).len() == m.len() + bs - r);
    assert(m.len() == (m.len() / bs) * bs + r) by (nonlinear_arith) requires bs > 0, r == m.len() % bs;
    assert((m.len() + bs - r) % (bs as int) == 0 && m.len() + bs - r >= bs) by (nonlinear_arith)
        requires bs > 0, m.len() == (m.len() / bs) * bs + r, 0 < r < bs;
}

/// XOR the last block of a buffer with `k`.
fn xor_last(buf: &mut Vec<u8>, k: &[u8])
    requires
        old(buf)@.len() >= k@.len(),
    ensures
        final(buf)@ == xor_last_block(old(buf)@, k@),
{
    let n = buf.len();
    let start = n - k.len();
    let mut i: usize = 0;
    while i < k.len()
        invariant
            0 <= i <= k@.len(),
            n == buf@.len(),
            n == old(buf)@.len(),
            start == n - k@.len(),
            forall|j: int| 0 <= j < start ==> buf@[j] == old(buf)@[j],
            forall|j: int| start <= j < start + i ==> buf@[j] == old(buf)@[j] ^ k@[j - start],
            forall|j: int| start + i <= j < n ==> buf@[j] == old(buf)@[j],
        decreases k@.len() - i,
    {
        let v = buf[start + i] ^ k[i];
        buf.set(start + i, v);
        i = i + 1;
    }
    assert(buf@ =~= xor_last_block(old(buf)@, k@));
}

} // verus!
