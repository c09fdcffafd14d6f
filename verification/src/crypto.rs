//! DESFire-specific cryptographic building blocks: CBC keying state shared
//! with the card, and the derivation of CMAC subkeys.
use crate::key::Key;
use cbc::cipher::block_padding::NoPadding;
use cbc::cipher::{BlockModeDecrypt, BlockModeEncrypt, KeyIvInit};
use vstd::prelude::*;
use vstd::slice::slice_subrange;
use vstd::slice::slice_to_vec;

verus! {

/// XOR a buffer with a key (usually a CMAC derived key), byte by byte.
pub fn xor<const BLOCK_SIZE: usize>(buf: &mut [u8; BLOCK_SIZE], key: &[u8; BLOCK_SIZE])
    ensures
        final(buf)@ == xor_seq(old(buf)@, key@),
{
    let mut i: usize = 0;
    while i < BLOCK_SIZE
        invariant
            0 <= i <= BLOCK_SIZE,
            buf@.len() == BLOCK_SIZE,
            key@.len() == BLOCK_SIZE,
            old(buf)@.len() == BLOCK_SIZE,
            forall|j: int| 0 <= j < i ==> buf@[j] == old(buf)@[j] ^ key@[j],
            forall|j: int| i <= j < BLOCK_SIZE ==> buf@[j] == old(buf)@[j],
        decreases BLOCK_SIZE - i,
    {
        buf[i] = buf[i] ^ key[i];
        i = i + 1;
    }
    assert(buf@ =~= xor_seq(old(buf)@, key@));
}

/// The byte-wise XOR of two sequences of one length.
pub open spec fn xor_seq(a: Seq<u8>, b: Seq<u8>) -> Seq<u8> {
    Seq::new(a.len(), |i: int| a[i] ^ b[i])
}

/// XOR-ing twice with the same key gives the buffer back.
pub proof fn lemma_xor_involution(a: Seq<u8>, k: Seq<u8>)
    requires
        a.len() == k.len(),
    ensures
        xor_seq(xor_seq(a, k), k) == a,
{
    assert forall|i: int| 0 <= i < a.len() implies #[trigger] xor_seq(xor_seq(a, k), k)[i] == a[i] by {
        let (x, y) = (a[i], k[i]);
        assert((x ^ y) ^ y == x) by (bit_vector);
    }
    assert(xor_seq(xor_seq(a, k), k) =~= a);
}

/// The block ciphers in use: DES (legacy) and AES-128, both in CBC mode.
#[derive(Copy, Clone, Debug, PartialEq, Eq, Structural)]
pub enum Algorithm {
    /// DES, with 8-byte keys and blocks.
    Des,
    /// AES-128, with 16-byte keys and blocks.
    Aes128,
}

/// Block (and key) size of an algorithm, in bytes.
pub open spec fn block_size(alg: Algorithm) -> nat {
    match alg {
        Algorithm::Des => 8,
        Algorithm::Aes128 => 16,
    }
}

/// Block (and key) size of an algorithm, in bytes.
pub fn block_len(alg: Algorithm) -> (r: usize)
    ensures
        r == block_size(alg),
{
    match alg {
        Algorithm::Des => 8,
        Algorithm::Aes128 => 16,
    }
}

/// The algorithm of a key.
pub open spec fn key_algorithm(key: Key) -> Algorithm {
    match key {
        Key::Des(_) => Algorithm::Des,
        Key::Aes(_) => Algorithm::Aes128,
    }
}

/// CBC encryption of `data` with DES under `key` and `iv`, as `cbc` computes
/// it with `des::Des`.
pub uninterp spec fn cbc_des_encrypt(key: Seq<u8>, iv: Seq<u8>, data: Seq<u8>) -> Seq<u8>;

/// CBC decryption of `data` with DES under `key` and `iv`, as `cbc` computes
/// it with `des::Des`.
pub uninterp spec fn cbc_des_decrypt(key: Seq<u8>, iv: Seq<u8>, data: Seq<u8>) -> Seq<u8>;

/// CBC encryption of `data` with AES-128 under `key` and `iv`, as `cbc`
/// computes it with `aes::Aes128`.
pub uninterp spec fn cbc_aes128_encrypt(key: Seq<u8>, iv: Seq<u8>, data: Seq<u8>) -> Seq<u8>;

/// CBC decryption of `data` with AES-128 under `key` and `iv`, as `cbc`
/// computes it with `aes::Aes128`.
pub uninterp spec fn cbc_aes128_decrypt(key: Seq<u8>, iv: Seq<u8>, data: Seq<u8>) -> Seq<u8>;

/// CBC encryption with the given algorithm.
pub open spec fn spec_cbc_encrypt(alg: Algorithm, key: Seq<u8>, iv: Seq<u8>, data: Seq<u8>) -> Seq<u8> {
    match alg {
        Algorithm::Des => cbc_des_encrypt(key, iv, data),
        Algorithm::Aes128 => cbc_aes128_encrypt(key, iv, data),
    }
}

/// CBC decryption with the given algorithm.
pub open spec fn spec_cbc_decrypt(alg: Algorithm, key: Seq<u8>, iv: Seq<u8>, data: Seq<u8>) -> Seq<u8> {
    match alg {
        Algorithm::Des => cbc_des_decrypt(key, iv, data),
        Algorithm::Aes128 => cbc_aes128_decrypt(key, iv, data),
    }
}

/// `cbc::Encryptor::<des::Des>`, set up with `key` and `iv`, encrypts
/// `data` in place (block aligned, no padding). The contract claims that the
/// buffer then holds `cbc_des_encrypt(key, iv, data)`, keeps its length, and
/// decrypts (same key and IV) back to `data`, as the crate's documented
/// encrypt-then-decrypt example shows of CBC.
#[verifier::external_body]
fn des_cbc_encrypt_in_place(key: &[u8], iv: &[u8], data: &mut [u8])
    requires
        key@.len() == 8,
        iv@.len() == 8,
        old(data)@.len() % 8 == 0,
    ensures
        final(data)@ == cbc_des_encrypt(key@, iv@, old(data)@),
        final(data)@.len() == old(data)@.len(),
        cbc_des_decrypt(key@, iv@, final(data)@) == old(data)@,
{
    let n = data.len();
    if let Ok(enc) = cbc::Encryptor::<des::Des>::new_from_slices(key, iv) {
        let _ = enc.encrypt_padded::<NoPadding>(data, n);
    }
}

/// `cbc::Decryptor::<des::Des>`, set up with `key` and `iv`, decrypts
/// `data` in place (block aligned, no padding). The contract claims that the
/// buffer then holds `cbc_des_decrypt(key, iv, data)`, keeps its length, and
/// encrypts (same key and IV) back to `data`: DES is a permutation of
/// blocks, so CBC decryption has CBC encryption as its inverse.
#[verifier::external_body]
fn des_cbc_decrypt_in_place(key: &[u8], iv: &[u8], data: &mut [u8])
    requires
        key@.len() == 8,
        iv@.len() == 8,
        old(data)@.len() % 8 == 0,
    ensures
        final(data)@ == cbc_des_decrypt(key@, iv@, old(data)@),
        final(data)@.len() == old(data)@.len(),
        cbc_des_encrypt(key@, iv@, final(data)@) == old(data)@,
{
    if let Ok(dec) = cbc::Decryptor::<des::Des>::new_from_slices(key, iv) {
        let _ = dec.decrypt_padded::<NoPadding>(data);
    }
}

/// `cbc::Encryptor::<aes::Aes128>`, set up with `key` and `iv`, encrypts
/// `data` in place (block aligned, no padding). The contract claims that the
/// buffer then holds `cbc_aes128_encrypt(key, iv, data)`, keeps its length,
/// and decrypts (same key and IV) back to `data`, as the crate's documented
/// encrypt-then-decrypt example shows of CBC.
#[verifier::external_body]
fn aes128_cbc_encrypt_in_place(key: &[u8], iv: &[u8], data: &mut [u8])
    requires
        key@.len() == 16,
        iv@.len() == 16,
        old(data)@.len() % 16 == 0,
    ensures
        final(data)@ == cbc_aes128_encrypt(key@, iv@, old(data)@),
        final(data)@.len() == old(data)@.len(),
        cbc_aes128_decrypt(key@, iv@, final(data)@) == old(data)@,
{
    let n = data.len();
    if let Ok(enc) = cbc::Encryptor::<aes::Aes128>::new_from_slices(key, iv) {
        let _ = enc.encrypt_padded::<NoPadding>(data, n);
    }
}

/// `cbc::Decryptor::<aes::Aes128>`, set up with `key` and `iv`, decrypts
/// `data` in place (block aligned, no padding). The contract claims that the
/// buffer then holds `cbc_aes128_decrypt(key, iv, data)`, keeps its length,
/// and encrypts (same key and IV) back to `data`: AES-128 is a permutation
/// of blocks, so CBC decryption has CBC encryption as its inverse.
#[verifier::external_body]
fn aes128_cbc_decrypt_in_place(key: &[u8], iv: &[u8], data: &mut [u8])
    requires
        key@.len() == 16,
        iv@.len() == 16,
        old(data)@.len() % 16 == 0,
    ensures
        final(data)@ == cbc_aes128_decrypt(key@, iv@, old(data)@),
        final(data)@.len() == old(data)@.len(),
        cbc_aes128_encrypt(key@, iv@, final(data)@) == old(data)@,
{
    if let Ok(dec) = cbc::Decryptor::<aes::Aes128>::new_from_slices(key, iv) {
        let _ = dec.decrypt_padded::<NoPadding>(data);
    }
}

/// CBC-encrypt a block-aligned buffer with the given algorithm, key and IV.
/// This does not touch any IV state: it is a one-off encryptor.
pub fn cbc_encrypt(alg: Algorithm, key: &[u8], iv: &[u8], data: &mut Vec<u8>)
    requires
        key@.len() == block_size(alg),
        iv@.len() == block_size(alg),
        old(data)@.len() % block_size(alg) == 0,
    ensures
        final(data)@ == spec_cbc_encrypt(alg, key@, iv@, old(data)@),
        final(data)@.len() == old(data)@.len(),
        spec_cbc_decrypt(alg, key@, iv@, final(data)@) == old(data)@,
{
    match alg {
        Algorithm::Des => des_cbc_encrypt_in_place(key, iv, data.as_mut_slice()),
        Algorithm::Aes128 => aes128_cbc_encrypt_in_place(key, iv, data.as_mut_slice()),
    }
}

/// CBC-decrypt a block-aligned buffer with the given algorithm, key and IV.
/// This does not touch any IV state: it is a one-off decryptor.
pub fn cbc_decrypt(alg: Algorithm, key: &[u8], iv: &[u8], data: &mut Vec<u8>)
    requires
        key@.len() == block_size(alg),
        iv@.len() == block_size(alg),
        old(data)@.len() % block_size(alg) == 0,
    ensures
        final(data)@ == spec_cbc_decrypt(alg, key@, iv@, old(data)@),
        final(data)@.len() == old(data)@.len(),
        spec_cbc_encrypt(alg, key@, iv@, final(data)@) == old(data)@,
{
    match alg {
        Algorithm::Des => des_cbc_decrypt_in_place(key, iv, data.as_mut_slice()),
        Algorithm::Aes128 => aes128_cbc_decrypt_in_place(key, iv, data.as_mut_slice()),
    }
}

/// Encryptor state: CBC block mode for some algorithm.
pub trait BackendEncryptor {
    /// Whether this state can encrypt `len` bytes (a whole number of
    /// blocks).
    spec fn accepts(&self, len: nat) -> bool;

    /// Encrypt block-aligned data in place, chaining on from the state's
    /// IV. No padding is added or removed.
    fn encrypt(&mut self, data: &mut [u8])
        requires
            old(self).accepts(old(data)@.len()),
    ;
}

/// Decryptor state: CBC block mode for some algorithm.
pub trait BackendDecryptor {
    /// Whether this state can decrypt `len` bytes (a whole number of
    /// blocks).
    spec fn accepts(&self, len: nat) -> bool;

    /// Decrypt block-aligned data in place, chaining on from the state's
    /// IV. No padding is removed.
    fn decrypt(&mut self, data: &mut [u8])
        requires
            old(self).accepts(old(data)@.len()),
    ;
}

/// CBC encryption state: the algorithm, the key, and the IV that chains the
/// next block (the last ciphertext block so far).
#[derive(Debug)]
pub struct Encryptor {
    algorithm: Algorithm,
    key: Vec<u8>,
    iv: Vec<u8>,
}

/// CBC decryption state: the algorithm, the key, and the IV that chains the
/// next block (the last ciphertext block so far).
#[derive(Debug)]
pub struct Decryptor {
    algorithm: Algorithm,
    key: Vec<u8>,
    iv: Vec<u8>,
}

impl Encryptor {
    /// The algorithm in use.
    pub closed spec fn spec_algorithm(self) -> Algorithm {
        self.algorithm
    }

    /// The key.
    pub closed spec fn spec_key(self) -> Seq<u8> {
        self.key@
    }

    /// The IV that chains the next block.
    pub closed spec fn spec_iv(self) -> Seq<u8> {
        self.iv@
    }

    /// Key and IV are one block long.
    pub open spec fn wf(self) -> bool {
        &&& self.spec_key().len() == block_size(self.spec_algorithm())
        &&& self.spec_iv().len() == block_size(self.spec_algorithm())
    }
}

impl Decryptor {
    /// The algorithm in use.
    pub closed spec fn spec_algorithm(self) -> Algorithm {
        self.algorithm
    }

    /// The key.
    pub closed spec fn spec_key(self) -> Seq<u8> {
        self.key@
    }

    /// The IV that chains the next block.
    pub closed spec fn spec_iv(self) -> Seq<u8> {
        self.iv@
    }

    /// Key and IV are one block long.
    pub open spec fn wf(self) -> bool {
        &&& self.spec_key().len() == block_size(self.spec_algorithm())
        &&& self.spec_iv().len() == block_size(self.spec_algorithm())
    }
}

impl BackendEncryptor for Encryptor {
    open spec fn accepts(&self, len: nat) -> bool {
        self.wf() && len % block_size(self.spec_algorithm()) == 0
    }

    /// The data becomes its CBC encryption under the key and the chaining
    /// IV; a non-empty encryption leaves its last block as the chaining IV.
    fn encrypt(&mut self, data: &mut [u8])
        ensures
            final(self).wf(),
            final(self).spec_algorithm() == old(self).spec_algorithm(),
            final(self).spec_key() == old(self).spec_key(),
            final(data)@ == spec_cbc_encrypt(old(self).spec_algorithm(), old(self).spec_key(), old(self).spec_iv(), old(data)@),
            final(data)@.len() == old(data)@.len(),
            spec_cbc_decrypt(old(self).spec_algorithm(), old(self).spec_key(), old(self).spec_iv(), final(data)@) == old(data)@,
            old(data)@.len() > 0 ==> final(self).spec_iv() == last_n(final(data)@, block_size(old(self).spec_algorithm())),
            old(data)@.len() == 0 ==> final(self).spec_iv() == old(self).spec_iv(),
    {
        let bs = block_len(self.algorithm);
        match self.algorithm {
            Algorithm::Des => des_cbc_encrypt_in_place(self.key.as_slice(), self.iv.as_slice(), data),
            Algorithm::Aes128 => aes128_cbc_encrypt_in_place(self.key.as_slice(), self.iv.as_slice(), data),
        }
        if data.len() > 0 {
            assert(data@.len() >= bs) by (nonlinear_arith)
                requires data@.len() > 0, data@.len() % (bs as nat) == 0, bs > 0;
            self.iv = copy_last_n(data, bs);
        }
    }
}

impl BackendDecryptor for Decryptor {
    open spec fn accepts(&self, len: nat) -> bool {
        self.wf() && len % block_size(self.spec_algorithm()) == 0
    }

    /// The data becomes its CBC decryption under the key and the chaining
    /// IV; a non-empty decryption leaves its last ciphertext block as the
    /// chaining IV.
    fn decrypt(&mut self, data: &mut [u8])
        ensures
            final(self).wf(),
            final(self).spec_algorithm() == old(self).spec_algorithm(),
            final(self).spec_key() == old(self).spec_key(),
            final(data)@ == spec_cbc_decrypt(old(self).spec_algorithm(), old(self).spec_key(), old(self).spec_iv(), old(data)@),
            final(data)@.len() == old(data)@.len(),
            spec_cbc_encrypt(old(self).spec_algorithm(), old(self).spec_key(), old(self).spec_iv(), final(data)@) == old(data)@,
            old(data)@.len() > 0 ==> final(self).spec_iv() == last_n(old(data)@, block_size(old(self).spec_algorithm())),
            old(data)@.len() == 0 ==> final(self).spec_iv() == old(self).spec_iv(),
    {
        let bs = block_len(self.algorithm);
        let n = data.len();
        if n > 0 {
            assert(n >= bs) by (nonlinear_arith)
                requires n > 0, n % bs == 0, bs > 0;
        }
        let next_iv = if n > 0 { copy_last_n(data, bs) } else { slice_to_vec(self.iv.as_slice()) };
        match self.algorithm {
            Algorithm::Des => des_cbc_decrypt_in_place(self.key.as_slice(), self.iv.as_slice(), data),
            Algorithm::Aes128 => aes128_cbc_decrypt_in_place(self.key.as_slice(), self.iv.as_slice(), data),
        }
        self.iv = next_iv;
    }
}

/// The last `n` bytes of `data`.
pub open spec fn last_n(data: Seq<u8>, n: nat) -> Seq<u8> {
    data.subrange(data.len() - n, data.len() as int)
}

/// Copy out the last `n` bytes of a buffer.
pub fn copy_last_n(data: &[u8], n: usize) -> (r: Vec<u8>)
    requires
        n <= data@.len(),
    ensures
        r@ == last_n(data@, n as nat),
{
    slice_to_vec(slice_subrange(data, data.len() - n, data.len()))
}

/// The reduction constant of the CMAC subkey doubling: 0x1B for 64-bit
/// blocks (DES), 0x87 for 128-bit blocks (AES).
pub open spec fn cmac_rb(alg: Algorithm) -> u8 {
    match alg {
        Algorithm::Des => 0x1B,
        Algorithm::Aes128 => 0x87,
    }
}

/// A block read as a big-endian number, shifted left by one bit (dropping
/// the top bit), and XOR-ed with `rb` in its last byte if the top bit was
/// set: the doubling of the CMAC subkey derivation.
pub open spec fn cmac_double(b: Seq<u8>, rb: u8) -> Seq<u8> {
    Seq::new(
        b.len(),
        |i: int|
            if i < b.len() - 1 {
                ((b[i] << 1u8) | (b[i + 1] >> 7u8)) as u8
            } else {
                ((b[i] << 1u8) as u8) ^ (if b[0] & 0x80 != 0 { rb } else { 0u8 })
            },
    )
}

/// The CMAC subkeys K1 and K2 of a key: K1 is the doubling of the
/// encryption of a zero block (under the given IV), K2 the doubling of K1.
pub open spec fn cmac_subkeys(alg: Algorithm, key: Seq<u8>, iv: Seq<u8>) -> (Seq<u8>, Seq<u8>) {
    let l = spec_cbc_encrypt(alg, key, iv, Seq::new(block_size(alg), |i: int| 0u8));
    let k1 = cmac_double(l, cmac_rb(alg));
    (k1, cmac_double(k1, cmac_rb(alg)))
}

/// How the CMAC subkeys come from the key: L is the encryption of a zero
/// block; K1 is L doubled and K2 is K1 doubled, where doubling shifts the
/// block left by one bit as a big-endian number and, where its top bit fell
/// out, XORs the last byte with 0x1B (DES, 64-bit blocks) or 0x87 (AES,
/// 128-bit blocks).
pub proof fn lemma_cmac_subkeys_meaning(alg: Algorithm, key: Seq<u8>, iv: Seq<u8>, k1: Seq<u8>, k2: Seq<u8>)
    requires
        (k1, k2) == cmac_subkeys(alg, key, iv),
    ensures
        ({
            let l = spec_cbc_encrypt(alg, key, iv, Seq::new(block_size(alg), |i: int| 0u8));
            let rb: u8 = if alg == Algorithm::Des { 0x1Bu8 } else { 0x87u8 };
            &&& k1.len() == l.len()
            &&& k2.len() == l.len()
            &&& forall|i: int| 0 <= i < l.len() - 1 ==> #[trigger] k1[i] == ((l[i] << 1u8) | (l[i + 1] >> 7u8)) as u8
            &&& forall|i: int| 0 <= i < l.len() - 1 ==> #[trigger] k2[i] == ((k1[i] << 1u8) | (k1[i + 1] >> 7u8)) as u8
            &&& l.len() > 0 ==> k1[l.len() - 1] == ((l[l.len() - 1] << 1u8) as u8) ^ (if l[0] & 0x80 != 0 { rb } else { 0u8 })
            &&& l.len() > 0 ==> k2[l.len() - 1] == ((k1[l.len() - 1] << 1u8) as u8) ^ (if k1[0] & 0x80 != 0 { rb } else { 0u8 })
        }),
{
}

fn double_in_place(b: &mut Vec<u8>, rb: u8)
    requires
        old(b)@.len() > 0,
    ensures
        final(b)@ == cmac_double(old(b)@, rb),
{
    let n = b.len();
    let top = b[0] & 0x80;
    let mut i: usize = 0;
    while i + 1 < n
        invariant
            n == b@.len(),
            n == old(b)@.len(),
            n > 0,
            top == old(b)@[0] & 0x80,
            0 <= i < n,
            forall|j: int| 0 <= j < i ==> b@[j] == #[trigger] cmac_double(old(b)@, rb)[j],
            forall|j: int| i <= j < n ==> b@[j] == old(b)@[j],
        decreases n - i,
    {
        let v = (b[i] << 1u8) | (b[i + 1] >> 7u8);
        b.set(i, v);
        i = i + 1;
    }
    let last = (b[n - 1] << 1u8) ^ (if top != 0 { rb } else { 0u8 });
    b.set(n - 1, last);
    assert(b@ =~= cmac_double(old(b)@, rb));
}

/// Holds the state of a cryptographic session: the algorithm, the session
/// key and the current IV.
#[derive(Debug)]
pub struct Scheme {
    algorithm: Algorithm,
    key: Vec<u8>,
    iv: Vec<u8>,
}

impl Scheme {
    /// The algorithm in use.
    pub closed spec fn spec_algorithm(self) -> Algorithm {
        self.algorithm
    }

    /// The session key.
    pub closed spec fn spec_key(self) -> Seq<u8> {
        self.key@
    }

    /// The current IV.
    pub closed spec fn spec_iv(self) -> Seq<u8> {
        self.iv@
    }

    /// Key and IV are one block long.
    pub open spec fn wf(self) -> bool {
        &&& self.spec_key().len() == block_size(self.spec_algorithm())
        &&& self.spec_iv().len() == block_size(self.spec_algorithm())
    }

    /// Create a new scheme for the algorithm of `key`, with an all-zero IV.
    pub fn new(key: Key) -> (r: Self)
        ensures
            r.wf(),
            r.spec_algorithm() == key_algorithm(key),
            r.spec_key() == key.spec_bytes(),
            r.spec_iv() == Seq::new(block_size(key_algorithm(key)), |i: int| 0u8),
    {
        match key {
            Key::Des(k) => {
                let r = Scheme { algorithm: Algorithm::Des, key: slice_to_vec(&k), iv: vec![0u8; 8] };
                assert(r.iv@ =~= Seq::new(8, |i: int| 0u8));
                r
            },
            Key::Aes(k) => {
                let r = Scheme { algorithm: Algorithm::Aes128, key: slice_to_vec(&k), iv: vec![0u8; 16] };
                assert(r.iv@ =~= Seq::new(16, |i: int| 0u8));
                r
            },
        }
    }

    /// The algorithm in use.
    pub fn algorithm(&self) -> (r: Algorithm)
        ensures
            r == self.spec_algorithm(),
    {
        self.algorithm
    }

    /// Set the IV manually.
    pub fn set_iv(&mut self, iv: &[u8])
        requires
            old(self).wf(),
            iv@.len() == block_size(old(self).spec_algorithm()),
        ensures
            final(self).wf(),
            final(self).spec_algorithm() == old(self).spec_algorithm(),
            final(self).spec_key() == old(self).spec_key(),
            final(self).spec_iv() == iv@,
    {
        self.iv = slice_to_vec(iv);
    }

    /// Get the current IV state.
    pub fn get_iv(&self) -> (r: &[u8])
        ensures
            r@ == self.spec_iv(),
    {
        self.iv.as_slice()
    }

    /// Get the current session key.
    pub fn get_key(&self) -> (r: &[u8])
        ensures
            r@ == self.spec_key(),
    {
        self.key.as_slice()
    }

    /// A CBC encryptor with the session key, starting from the current IV.
    /// The scheme's own IV is not touched by it.
    pub fn encryptor(&self) -> (r: Encryptor)
        ensures
            r.spec_algorithm() == self.spec_algorithm(),
            r.spec_key() == self.spec_key(),
            r.spec_iv() == self.spec_iv(),
    {
        Encryptor { algorithm: self.algorithm, key: slice_to_vec(self.key.as_slice()), iv: slice_to_vec(self.iv.as_slice()) }
    }

    /// A CBC decryptor with the session key, starting from the current IV.
    /// The scheme's own IV is not touched by it.
    pub fn decryptor(&self) -> (r: Decryptor)
        ensures
            r.spec_algorithm() == self.spec_algorithm(),
            r.spec_key() == self.spec_key(),
            r.spec_iv() == self.spec_iv(),
    {
        Decryptor { algorithm: self.algorithm, key: slice_to_vec(self.key.as_slice()), iv: slice_to_vec(self.iv.as_slice()) }
    }

    /// Encrypt a non-empty, block-aligned buffer in CBC mode with the
    /// current IV, then take its last ciphertext block as the new IV.
    pub fn encrypt(&mut self, data: &mut [u8])
        requires
            old(self).wf(),
            old(data)@.len() > 0,
            old(data)@.len() % block_size(old(self).spec_algorithm()) == 0,
        ensures
            final(self).wf(),
            final(self).spec_algorithm() == old(self).spec_algorithm(),
            final(self).spec_key() == old(self).spec_key(),
            final(data)@ == spec_cbc_encrypt(old(self).spec_algorithm(), old(self).spec_key(), old(self).spec_iv(), old(data)@),
            final(data)@.len() == old(data)@.len(),
            spec_cbc_decrypt(old(self).spec_algorithm(), old(self).spec_key(), old(self).spec_iv(), final(data)@) == old(data)@,
            final(self).spec_iv() == last_n(final(data)@, block_size(old(self).spec_algorithm())),
    {
        let mut encryptor = self.encryptor();
        encryptor.encrypt(data);
        self.iv = encryptor.iv;
    }

    /// Decrypt a non-empty, block-aligned buffer in CBC mode with the
    /// current IV, taking the last ciphertext block as the new IV.
    pub fn decrypt(&mut self, data: &mut [u8])
        requires
            old(self).wf(),
            old(data)@.len() > 0,
            old(data)@.len() % block_size(old(self).spec_algorithm()) == 0,
        ensures
            final(self).wf(),
            final(self).spec_algorithm() == old(self).spec_algorithm(),
            final(self).spec_key() == old(self).spec_key(),
            final(data)@ == spec_cbc_decrypt(old(self).spec_algorithm(), old(self).spec_key(), old(self).spec_iv(), old(data)@),
            final(data)@.len() == old(data)@.len(),
            spec_cbc_encrypt(old(self).spec_algorithm(), old(self).spec_key(), old(self).spec_iv(), final(data)@) == old(data)@,
            final(self).spec_iv() == last_n(old(data)@, block_size(old(self).spec_algorithm())),
    {
        let mut decryptor = self.decryptor();
        decryptor.decrypt(data);
        self.iv = decryptor.iv;
    }

    /// Generate the CMAC subkeys K1 and K2 of this scheme: encrypt a zero
    /// block with the current IV (usually all zeros) and double it twice.
    /// The scheme is consumed, since the encryption moves its IV.
    pub fn generate_cmac_keys(self) -> (r: (Vec<u8>, Vec<u8>))
        requires
            self.wf(),
        ensures
            (r.0@, r.1@) == cmac_subkeys(self.spec_algorithm(), self.spec_key(), self.spec_iv()),
            r.0@.len() == block_size(self.spec_algorithm()),
            r.1@.len() == block_size(self.spec_algorithm()),
    {
        let mut s = self;
        let bs = block_len(s.algorithm);
        let mut mac = vec![0u8; bs];
        assert(mac@ =~= Seq::new(block_size(s.algorithm), |i: int| 0u8));
        s.encrypt(mac.as_mut_slice());
        let rb: u8 = match s.algorithm {
            Algorithm::Des => 0x1B,
            Algorithm::Aes128 => 0x87,
        };
        let mut k1 = mac;
        double_in_place(&mut k1, rb);
        let mut k2 = k1.clone();
        double_in_place(&mut k2, rb);
        (k1, k2)
    }
}

} // verus!
