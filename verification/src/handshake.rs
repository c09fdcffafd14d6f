//! The mutual authentication handshake: the reader proves it holds the key
//! by decrypting the card's challenge RndB, and the card proves it by
//! answering our RndA; both halves then give the session key.
use crate::copy_to_slice::append_slice;
use crate::crypto::{block_len, block_size, key_algorithm, last_n, spec_cbc_decrypt, spec_cbc_encrypt, Algorithm, Scheme};
use crate::error::Error;
use crate::instruction::{instruction_byte, Instruction};
use crate::key::Key;
use crate::status_code::StatusCode;
use vstd::prelude::*;
use vstd::slice::slice_to_vec;

verus! {

/// In-progress handshake, in state `HandshakeState`. Each step consumes it.
#[derive(Debug)]
pub struct Handshake<HandshakeState> {
    keying: Scheme,
    state: HandshakeState,
}

/// Handshake state: nothing has been exchanged yet.
#[derive(Copy, Clone, Debug, PartialEq, Eq, Structural)]
pub struct Initial;

/// Handshake state: we hold the card's `RndB` and sent our `RndA`, and wait
/// for the card to prove it holds the same key.
#[derive(Debug)]
pub struct HalfOpen {
    rnd_a: Vec<u8>,
    rnd_b: Vec<u8>,
}

/// Handshake state: both sides proved to hold the key; the scheme holds the
/// session key.
#[derive(Copy, Clone, Debug, PartialEq, Eq, Structural)]
pub struct Successful;

/// Indicates which [Instruction] starts the authentication flow for an
/// algorithm.
pub trait Initiate {
    /// Return the [Instruction].
    fn instruction(&self) -> Instruction;
}

/// The instruction that starts authentication with a given algorithm.
pub open spec fn initiate_instruction(alg: Algorithm) -> Instruction {
    match alg {
        Algorithm::Des => Instruction::AuthenticateDes,
        Algorithm::Aes128 => Instruction::AuthenticateAes,
    }
}

impl Initiate for Scheme {
    /// [Instruction::AuthenticateDes] for DES, [Instruction::AuthenticateAes]
    /// for AES.
    fn instruction(&self) -> (r: Instruction)
        ensures
            r == initiate_instruction(self.spec_algorithm()),
    {
        match self.algorithm() {
            Algorithm::Des => Instruction::AuthenticateDes,
            Algorithm::Aes128 => Instruction::AuthenticateAes,
        }
    }
}

/// A block rotated left by one byte.
pub open spec fn rotate_left_1(s: Seq<u8>) -> Seq<u8> {
    s.skip(1).push(s[0])
}

/// A block rotated right by one byte.
pub open spec fn rotate_right_1(s: Seq<u8>) -> Seq<u8> {
    seq![s.last()] + s.drop_last()
}

/// The session key derived from both random halves: for DES the first 4
/// bytes of RndA then of RndB, with the parity (lowest) bit of every byte
/// cleared; for AES bytes 0..4 of RndA, 0..4 of RndB, 12..16 of RndA and
/// 12..16 of RndB.
pub open spec fn session_key_bytes(alg: Algorithm, rnd_a: Seq<u8>, rnd_b: Seq<u8>) -> Seq<u8> {
    match alg {
        Algorithm::Des => Seq::new(8, |i: int| (if i < 4 { rnd_a[i] } else { rnd_b[i - 4] }) & 0xFEu8),
        Algorithm::Aes128 => rnd_a.subrange(0, 4) + rnd_b.subrange(0, 4) + rnd_a.subrange(12, 16) + rnd_b.subrange(12, 16),
    }
}

/// The system's random source fills `n` bytes (`getrandom::fill`). Nothing
/// is claimed of the bytes; on failure the OS error code (where there is
/// one) is returned.
#[verifier::external_body]
fn random_bytes(n: usize) -> (r: Result<Vec<u8>, Option<i32>>)
    ensures
        r matches Ok(v) ==> v@.len() == n,
{
    let mut buf = vec![0u8; n];
    match getrandom::fill(&mut buf) {
        Ok(()) => Ok(buf),
        Err(e) => Err(e.raw_os_error()),
    }
}

fn rotate_left_copy(s: &[u8]) -> (r: Vec<u8>)
    requires
        s@.len() > 0,
    ensures
        r@ == rotate_left_1(s@),
{
    let mut r: Vec<u8> = Vec::new();
    let mut i: usize = 1;
    while i < s.len()
        invariant
            1 <= i <= s@.len(),
            r@ == s@.subrange(1, i as int),
        decreases s@.len() - i,
    {
        r.push(s[i]);
        assert(s@.subrange(1, i + 1) =~= s@.subrange(1, i as int).push(s@[i as int]));
        i = i + 1;
    }
    r.push(s[0]);
    assert(r@ =~= rotate_left_1(s@));
    r
}

fn rotate_right_copy(s: &[u8]) -> (r: Vec<u8>)
    requires
        s@.len() > 0,
    ensures
        r@ == rotate_right_1(s@),
{
    let n = s.len();
    let mut r: Vec<u8> = Vec::new();
    r.push(s[n - 1]);
    let mut i: usize = 0;
    while i + 1 < n
        invariant
            0 <= i < n,
            n == s@.len(),
            r@ == seq![s@[n - 1]] + s@.subrange(0, i as int),
        decreases n - i,
    {
        r.push(s[i]);
        assert(s@.subrange(0, i + 1) =~= s@.subrange(0, i as int).push(s@[i as int]));
        i = i + 1;
    }
    assert(r@ =~= rotate_right_1(s@));
    r
}

fn derive_session_key(alg: Algorithm, rnd_a: &[u8], rnd_b: &[u8]) -> (r: Key)
    requires
        rnd_a@.len() == block_size(alg),
        rnd_b@.len() == block_size(alg),
    ensures
        key_algorithm(r) == alg,
        r.spec_bytes() == session_key_bytes(alg, rnd_a@, rnd_b@),
{
    match alg {
        Algorithm::Des => {
            let k: [u8; 8] = [
                rnd_a[0] & 0xFE, rnd_a[1] & 0xFE, rnd_a[2] & 0xFE, rnd_a[3] & 0xFE,
                rnd_b[0] & 0xFE, rnd_b[1] & 0xFE, rnd_b[2] & 0xFE, rnd_b[3] & 0xFE,
            ];
            assert(k@ =~= session_key_bytes(alg, rnd_a@, rnd_b@));
            Key::Des(k)
        },
        Algorithm::Aes128 => {
            let k: [u8; 16] = [
                rnd_a[0], rnd_a[1], rnd_a[2], rnd_a[3], rnd_b[0], rnd_b[1], rnd_b[2], rnd_b[3],
                rnd_a[12], rnd_a[13], rnd_a[14], rnd_a[15], rnd_b[12], rnd_b[13], rnd_b[14], rnd_b[15],
            ];
            assert(k@ =~= session_key_bytes(alg, rnd_a@, rnd_b@));
            Key::Aes(k)
        },
    }
}

impl<HandshakeState> Handshake<HandshakeState> {
    /// The keying state of the handshake.
    pub closed spec fn spec_keying(self) -> Scheme {
        self.keying
    }

    /// The handshake state.
    pub closed spec fn spec_state(self) -> HandshakeState {
        self.state
    }
}

impl HalfOpen {
    /// Our random half, RndA.
    pub closed spec fn spec_rnd_a(self) -> Seq<u8> {
        self.rnd_a@
    }

    /// The card's random half, RndB.
    pub closed spec fn spec_rnd_b(self) -> Seq<u8> {
        self.rnd_b@
    }
}

impl Handshake<Initial> {
    /// Begin the authentication flow with `key` for key slot `key_id`: the
    /// command is the authentication instruction of the key's algorithm and
    /// the key id, and the scheme starts with the key and a zero IV.
    pub fn begin(key: Key, key_id: u8) -> (r: (Self, Vec<u8>))
        ensures
            r.0.spec_keying().wf(),
            r.0.spec_keying().spec_algorithm() == key_algorithm(key),
            r.0.spec_keying().spec_key() == key.spec_bytes(),
            r.0.spec_keying().spec_iv() == Seq::new(block_size(key_algorithm(key)), |i: int| 0u8),
            r.1@ == seq![instruction_byte(initiate_instruction(key_algorithm(key))), key_id],
    {
        let keying = Scheme::new(key);
        let mut command: Vec<u8> = Vec::new();
        command.push(keying.instruction().as_u8());
        command.push(key_id);
        assert(command@ =~= seq![instruction_byte(initiate_instruction(key_algorithm(key))), key_id]);
        (Handshake { keying, state: Initial }, command)
    }

    /// Given the encrypted `RndB` message from the card, decode it and
    /// compute the answer that proves we hold the same key, using a fresh
    /// random `RndA`. A failure of the random source is
    /// [Error::Getrandom]; otherwise as [Handshake::rnd_b_with_key].
    pub fn rnd_b<IoBackendErrorT>(self, input: &[u8]) -> (r: Result<(Handshake<HalfOpen>, Vec<u8>), Error<IoBackendErrorT>>)
        requires
            self.spec_keying().wf(),
        ensures
            input@.len() != block_size(self.spec_keying().spec_algorithm()) ==> (r matches Err(Error::BadSize)
                || r matches Err(Error::Getrandom(_))),
            input@.len() == block_size(self.spec_keying().spec_algorithm()) ==> (r is Ok
                || r matches Err(Error::Getrandom(_))),
            r matches Ok(x) ==> exists|rnd_a: Seq<u8>| #[trigger] rnd_b_step(self.spec_keying(), input@, rnd_a, x.0, x.1@),
    {
        let bs = block_len(self.keying.algorithm());
        let rnd_a = match random_bytes(bs) {
            Ok(v) => v,
            Err(code) => return Err(Error::Getrandom(code)),
        };
        let r = self.rnd_b_with_key(input, rnd_a.as_slice());
        r
    }

    /// Given the encrypted `RndB` message from the card, decode it and
    /// compute the answer with the provided `RndA`: the card's message is
    /// CBC-decrypted (the IV moves to that message), and the answer is
    /// 0xAF followed by the CBC encryption of `RndA` and `RndB` rotated left
    /// by one byte (the IV moves to its last block). A message that is not
    /// one block long is [Error::BadSize].
    pub fn rnd_b_with_key<IoBackendErrorT>(self, input: &[u8], rnd_a: &[u8]) -> (r: Result<(Handshake<HalfOpen>, Vec<u8>), Error<IoBackendErrorT>>)
        requires
            self.spec_keying().wf(),
            rnd_a@.len() == block_size(self.spec_keying().spec_algorithm()),
        ensures
            input@.len() != block_size(self.spec_keying().spec_algorithm()) ==> r matches Err(Error::BadSize),
            input@.len() == block_size(self.spec_keying().spec_algorithm()) ==> (r matches Ok(x)
                && rnd_b_step(self.spec_keying(), input@, rnd_a@, x.0, x.1@)),
    {
        let Handshake { mut keying, state: _ } = self;
        let bs = block_len(keying.algorithm());
        if input.len() != bs {
            return Err(Error::BadSize);
        }
        let ghost k0 = keying;
        let mut rnd_b = slice_to_vec(input);
        keying.decrypt(rnd_b.as_mut_slice());
        let rotated = rotate_left_copy(rnd_b.as_slice());
        let mut body: Vec<u8> = Vec::new();
        append_slice(&mut body, rnd_a);
        append_slice(&mut body, rotated.as_slice());
        proof {
            assert(body@.len() == 2 * block_size(k0.spec_algorithm()));
            assert(body@.len() % block_size(k0.spec_algorithm()) == 0) by {
                assert((2 * block_size(k0.spec_algorithm())) % block_size(k0.spec_algorithm()) == 0) by (nonlinear_arith)
                    requires block_size(k0.spec_algorithm()) > 0;
            }
        }
        let ghost k1 = keying;
        let ghost plain = body@;
        keying.encrypt(body.as_mut_slice());
        let mut command: Vec<u8> = Vec::new();
        command.push(Instruction::AdditionalData.as_u8());
        append_slice(&mut command, body.as_slice());
        let handshake = Handshake { keying, state: HalfOpen { rnd_a: slice_to_vec(rnd_a), rnd_b } };
        proof {
            assert(k1.spec_iv() == input@);
            assert(plain == rnd_a@ + rotate_left_1(spec_cbc_decrypt(k0.spec_algorithm(), k0.spec_key(), k0.spec_iv(), input@)));
        }
        Ok((handshake, command))
    }
}

/// What a correct [Handshake::rnd_b_with_key] step produces from the
/// initial keying state `k`, the card's message and our `RndA`: RndB is the
/// decryption of the message, the command is 0xAF followed by the CBC
/// encryption (IV: the card's message) of RndA and RndB rotated left by
/// one, and the half-open state holds both halves with the IV moved to the
/// last encrypted block. The card, decrypting the command's data with the
/// shared key, reads RndA followed by RndB rotated left.
pub open spec fn rnd_b_step(k: Scheme, input: Seq<u8>, rnd_a: Seq<u8>, h: Handshake<HalfOpen>, command: Seq<u8>) -> bool {
    let alg = k.spec_algorithm();
    let rnd_b = spec_cbc_decrypt(alg, k.spec_key(), k.spec_iv(), input);
    let enc = spec_cbc_encrypt(alg, k.spec_key(), input, rnd_a + rotate_left_1(rnd_b));
    &&& input.len() == block_size(alg)
    &&& h.spec_keying().wf()
    &&& h.spec_keying().spec_algorithm() == alg
    &&& h.spec_keying().spec_key() == k.spec_key()
    &&& h.spec_keying().spec_iv() == last_n(enc, block_size(alg))
    &&& h.spec_state().spec_rnd_a() == rnd_a
    &&& h.spec_state().spec_rnd_b() == rnd_b
    &&& h.spec_state().spec_rnd_a().len() == block_size(alg)
    &&& h.spec_state().spec_rnd_b().len() == block_size(alg)
    &&& command == seq![instruction_byte(Instruction::AdditionalData)] + enc
    &&& spec_cbc_decrypt(alg, k.spec_key(), input, enc) == rnd_a + rotate_left_1(rnd_b)
}

/// Rotating a block right by one byte and then left by one gives it back.
pub proof fn lemma_rotate_right_left(s: Seq<u8>)
    requires
        s.len() > 0,
    ensures
        rotate_left_1(rotate_right_1(s)) == s,
{
    assert(rotate_left_1(rotate_right_1(s)) =~= s);
}

impl Handshake<HalfOpen> {
    /// Given the card's answer, check that it holds the same key: the
    /// answer, CBC-decrypted and rotated right by one byte, must be our
    /// `RndA`. Then derive the session key from RndA and RndB and start a
    /// fresh scheme with it. An answer that is not one block long is
    /// [Error::BadSize]; a wrong one is [Error::InvalidHandshakeResponse].
    /// An accepted answer is exactly the encryption of RndA rotated left by
    /// one byte: only a card holding the key could have made it.
    pub fn complete<IoBackendErrorT>(self, input: &[u8]) -> (r: Result<Handshake<Successful>, Error<IoBackendErrorT>>)
        requires
            self.spec_keying().wf(),
            self.spec_state().spec_rnd_a().len() == block_size(self.spec_keying().spec_algorithm()),
            self.spec_state().spec_rnd_b().len() == block_size(self.spec_keying().spec_algorithm()),
        ensures
            ({
                let k = self.spec_keying();
                let alg = k.spec_algorithm();
                let answer = rotate_right_1(spec_cbc_decrypt(alg, k.spec_key(), k.spec_iv(), input@));
                &&& input@.len() != block_size(alg) ==> (r matches Err(Error::BadSize))
                &&& input@.len() == block_size(alg) && answer != self.spec_state().spec_rnd_a()
                    ==> (r matches Err(Error::InvalidHandshakeResponse))
                &&& input@.len() == block_size(alg) && answer == self.spec_state().spec_rnd_a() ==> (r matches Ok(h)
                    && h.spec_keying().wf()
                    && h.spec_keying().spec_algorithm() == alg
                    && h.spec_keying().spec_key() == session_key_bytes(alg, self.spec_state().spec_rnd_a(), self.spec_state().spec_rnd_b())
                    && h.spec_keying().spec_iv() == Seq::new(block_size(alg), |i: int| 0u8))
                &&& r is Ok ==> input@ == spec_cbc_encrypt(alg, k.spec_key(), k.spec_iv(), rotate_left_1(self.spec_state().spec_rnd_a()))
            }),
    {
        let Handshake { mut keying, state: HalfOpen { rnd_a: e_rnd_a, rnd_b } } = self;
        let alg = keying.algorithm();
        let bs = block_len(alg);
        if input.len() != bs {
            return Err(Error::BadSize);
        }
        let mut plaintext = slice_to_vec(input);
        keying.decrypt(plaintext.as_mut_slice());
        let rnd_a = rotate_right_copy(plaintext.as_slice());
        if !crate::keying::bytes_eq(rnd_a.as_slice(), e_rnd_a.as_slice()) {
            return Err(Error::InvalidHandshakeResponse);
        }
        proof { lemma_rotate_right_left(plaintext@); }
        let session_key = derive_session_key(alg, rnd_a.as_slice(), rnd_b.as_slice());
        Ok(Handshake { keying: Scheme::new(session_key), state: Successful })
    }
}

impl Handshake<Successful> {
    /// The session key that the handshake agreed on.
    pub fn into_key(self) -> (r: Key)
        requires
            self.spec_keying().wf(),
        ensures
            key_algorithm(r) == self.spec_keying().spec_algorithm(),
            r.spec_bytes() == self.spec_keying().spec_key(),
    {
        let k = self.keying.get_key();
        match self.keying.algorithm() {
            Algorithm::Des => {
                let a: [u8; 8] = [k[0], k[1], k[2], k[3], k[4], k[5], k[6], k[7]];
                assert(a@ =~= k@);
                Key::Des(a)
            },
            Algorithm::Aes128 => {
                let a: [u8; 16] = [k[0], k[1], k[2], k[3], k[4], k[5], k[6], k[7], k[8], k[9], k[10], k[11], k[12], k[13], k[14], k[15]];
                assert(a@ =~= k@);
                Key::Aes(a)
            },
        }
    }
}

impl Handshake<Initial> {
    /// Take the card's reply to the start of the handshake: it must carry
    /// AdditionalData ([Error::BadStatusCode] otherwise) with the encrypted
    /// RndB, which is answered with the given RndA ([Handshake::rnd_b_with_key])
    /// or, where none is given, a fresh random one ([Handshake::rnd_b]).
    pub fn rnd_b_reply<IoBackendErrorT>(self, status: StatusCode, input: &[u8], rnd_a: Option<&[u8]>) -> (r: Result<(Handshake<HalfOpen>, Vec<u8>), Error<IoBackendErrorT>>)
        requires
            self.spec_keying().wf(),
            rnd_a matches Some(a) ==> a@.len() == block_size(self.spec_keying().spec_algorithm()),
        ensures
            status != StatusCode::AdditionalData ==> (r matches Err(Error::BadStatusCode(s)) && s == status),
            status == StatusCode::AdditionalData && rnd_a is Some
                && input@.len() != block_size(self.spec_keying().spec_algorithm()) ==> r matches Err(Error::BadSize),
            status == StatusCode::AdditionalData && rnd_a is Some
                && input@.len() == block_size(self.spec_keying().spec_algorithm()) ==> (r matches Ok(x)
                && rnd_b_step(self.spec_keying(), input@, rnd_a.unwrap()@, x.0, x.1@)),
            status == StatusCode::AdditionalData && rnd_a is None
                && input@.len() != block_size(self.spec_keying().spec_algorithm()) ==> (r matches Err(Error::BadSize)
                || r matches Err(Error::Getrandom(_))),
            status == StatusCode::AdditionalData && rnd_a is None
                && input@.len() == block_size(self.spec_keying().spec_algorithm()) ==> (r is Ok
                || r matches Err(Error::Getrandom(_))),
            status == StatusCode::AdditionalData && rnd_a is None ==> (r matches Ok(x)
                ==> exists|a: Seq<u8>| #[trigger] rnd_b_step(self.spec_keying(), input@, a, x.0, x.1@)),
    {
        if status != StatusCode::AdditionalData {
            return Err(Error::BadStatusCode(status));
        }
        match rnd_a {
            Some(a) => self.rnd_b_with_key(input, a),
            None => self.rnd_b(input),
        }
    }
}

impl Handshake<HalfOpen> {
    /// Take the card's answer to our RndA: it must carry Ack
    /// ([Error::BadStatusCode] otherwise), and is then checked as
    /// [Handshake::complete] checks it.
    pub fn complete_reply<IoBackendErrorT>(self, status: StatusCode, input: &[u8]) -> (r: Result<Handshake<Successful>, Error<IoBackendErrorT>>)
        requires
            self.spec_keying().wf(),
            self.spec_state().spec_rnd_a().len() == block_size(self.spec_keying().spec_algorithm()),
            self.spec_state().spec_rnd_b().len() == block_size(self.spec_keying().spec_algorithm()),
        ensures
            status != StatusCode::Ack ==> (r matches Err(Error::BadStatusCode(s)) && s == status),
            status == StatusCode::Ack ==> ({
                let k = self.spec_keying();
                let alg = k.spec_algorithm();
                let answer = rotate_right_1(spec_cbc_decrypt(alg, k.spec_key(), k.spec_iv(), input@));
                &&& input@.len() != block_size(alg) ==> (r matches Err(Error::BadSize))
                &&& input@.len() == block_size(alg) && answer != self.spec_state().spec_rnd_a()
                    ==> (r matches Err(Error::InvalidHandshakeResponse))
                &&& input@.len() == block_size(alg) && answer == self.spec_state().spec_rnd_a() ==> (r matches Ok(h)
                    && h.spec_keying().wf()
                    && h.spec_keying().spec_algorithm() == alg
                    && h.spec_keying().spec_key() == session_key_bytes(alg, self.spec_state().spec_rnd_a(), self.spec_state().spec_rnd_b())
                    && h.spec_keying().spec_iv() == Seq::new(block_size(alg), |i: int| 0u8))
                &&& r is Ok ==> input@ == spec_cbc_encrypt(alg, k.spec_key(), k.spec_iv(), rotate_left_1(self.spec_state().spec_rnd_a()))
            }),
    {
        if status != StatusCode::Ack {
            return Err(Error::BadStatusCode(status));
        }
        self.complete(input)
    }
}

/// How the session key comes from the two random halves: for DES bytes 0 to
/// 3 of RndA, then bytes 0 to 3 of RndB, each with its lowest (parity) bit
/// cleared; for AES bytes 0 to 3 of RndA, 0 to 3 of RndB, 12 to 15 of RndA
/// and 12 to 15 of RndB.
pub proof fn lemma_session_key_meaning(alg: Algorithm, rnd_a: Seq<u8>, rnd_b: Seq<u8>, key: Seq<u8>)
    requires
        rnd_a.len() == block_size(alg),
        rnd_b.len() == block_size(alg),
        key == session_key_bytes(alg, rnd_a, rnd_b),
    ensures
        key.len() == block_size(alg),
        alg == Algorithm::Des ==> forall|i: int| 0 <= i < 4 ==> #[trigger] key[i] == rnd_a[i] & 0xFE && key[i + 4] == rnd_b[i] & 0xFE,
        alg == Algorithm::Aes128 ==> forall|i: int| 0 <= i < 4 ==> {
            &&& #[trigger] key[i] == rnd_a[i]
            &&& key[i + 4] == rnd_b[i]
            &&& key[i + 8] == rnd_a[i + 12]
            &&& key[i + 12] == rnd_b[i + 12]
        },
{
}

/// Rotating by one byte: left moves every byte one place to the front and
/// the first to the end; right moves the last to the front.
pub proof fn lemma_rotate_meaning(s: Seq<u8>)
    requires
        s.len() > 0,
    ensures
        rotate_left_1(s).len() == s.len(),
        rotate_right_1(s).len() == s.len(),
        forall|i: int| 0 <= i < s.len() - 1 ==> #[trigger] rotate_left_1(s)[i] == s[i + 1],
        rotate_left_1(s)[s.len() - 1] == s[0],
        forall|i: int| 1 <= i < s.len() ==> #[trigger] rotate_right_1(s)[i] == s[i - 1],
        rotate_right_1(s)[0] == s[s.len() - 1],
{
}

} // verus!
