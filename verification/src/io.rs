//! The decisions of the exchanges with a card. A transport moves the bytes;
//! these state machines say what to send next and what a reply means:
//! plain exchanges (with the card asking for more with AdditionalData),
//! exchanges whose outgoing data is encrypted, the CMAC and decryption
//! steps around them, and the exchanges of an authenticated session that
//! combine them ([SessionExchange]).
use crate::copy_to_slice::{append_slice, concat_parts, copy_to_slice, flatten_parts, parts_view};
use crate::crypto::{block_len, block_size, cbc_decrypt, cbc_encrypt, copy_last_n, last_n, spec_cbc_decrypt, spec_cbc_encrypt, Algorithm};
use crate::error::Error;
use crate::instruction::{instruction_byte, Instruction};
use crate::keying::{spec_cmac, trailer_view, zeros, KeyingState};
use crate::status_code::{status_code_byte, status_code_of_byte, StatusCode};
use vstd::prelude::*;
use vstd::slice::slice_subrange;
use vstd::slice::slice_to_vec;

pub use crate::mock::MockBackend;

verus! {

/// The most data bytes sent along with one AdditionalData command.
pub const MAX_SIZE: usize = 59;

/// Split a raw reply from the card into its status code (the first byte)
/// and its data (the rest). The reply must not be empty.
pub fn parse_response(raw: &[u8]) -> (r: (StatusCode, Vec<u8>))
    requires
        raw@.len() > 0,
    ensures
        r.0 == status_code_of_byte(raw@[0]),
        r.1@ == raw@.skip(1),
{
    let sc = StatusCode::from_u8(raw[0]);
    let data = slice_to_vec(slice_subrange(raw, 1, raw.len()));
    assert(data@ =~= raw@.skip(1));
    (sc, data)
}

/// What to do after a reply: send another command, or stop with the final
/// status code and all the data received.
#[derive(Debug)]
pub enum ExchangeStep {
    /// Send this command next.
    Send(Vec<u8>),
    /// The exchange is over.
    Done(StatusCode, Vec<u8>),
}

/// A plain exchange: the header goes first; while the card answers
/// AdditionalData, the next (up to 59) bytes of the data follow an
/// AdditionalData instruction. The data of all replies is collected.
#[derive(Debug)]
pub struct PlainExchange {
    data: Vec<u8>,
    pos: usize,
    output: Vec<u8>,
}

/// The number of bytes of the next chunk: up to `max` of what is left.
pub open spec fn chunk_len(total: int, pos: int, max: int) -> int {
    if total - pos < max { total - pos } else { max }
}

impl PlainExchange {
    /// All the data to send.
    pub closed spec fn spec_data(self) -> Seq<u8> {
        self.data@
    }

    /// How much of the data has been sent.
    pub closed spec fn spec_pos(self) -> nat {
        self.pos as nat
    }

    /// The data of all replies so far.
    pub closed spec fn spec_output(self) -> Seq<u8> {
        self.output@
    }

    /// No more data was sent than there is.
    pub open spec fn wf(self) -> bool {
        self.spec_pos() <= self.spec_data().len()
    }

    /// Start an exchange of `header` followed by the parts of `data`: the
    /// first command is the header alone.
    pub fn new(header: &[u8], data: &[&[u8]]) -> (r: (Self, Vec<u8>))
        ensures
            plain_start(r.0, r.1@, header@, flatten_parts(parts_view(data@))),
    {
        let empty: [u8; 0] = [];
        let all = concat_parts(empty.as_slice(), data);
        assert(empty@ + flatten_parts(parts_view(data@)) =~= flatten_parts(parts_view(data@)));
        (PlainExchange { data: all, pos: 0, output: Vec::new() }, slice_to_vec(header))
    }

    /// Take the card's reply. Its data is collected. On AdditionalData the
    /// next command is AdditionalData followed by the next (up to 59) bytes
    /// of data, if any are left; on any other status code the exchange is
    /// over.
    pub fn step(&mut self, status: StatusCode, response: &[u8]) -> (r: ExchangeStep)
        requires
            old(self).wf(),
        ensures
            plain_step(*old(self), *final(self), status, response@, r),
    {
        append_slice(&mut self.output, response);
        if status == StatusCode::AdditionalData {
            let mut command: Vec<u8> = Vec::new();
            command.push(Instruction::AdditionalData.as_u8());
            let mut chunk = vec![0u8; MAX_SIZE];
            let total = self.data.len();
            match copy_to_slice(self.data.as_slice(), self.pos, chunk.as_mut_slice()) {
                Some(n) => {
                    assert(self.pos + n <= total);
                    assert(chunk@.subrange(0, n as int) =~= self.data@.subrange(self.pos as int, self.pos + n));
                    append_slice(&mut command, slice_subrange(chunk.as_slice(), 0, n));
                    self.pos = self.pos + n;
                },
                None => {
                    assert(self.data@.subrange(self.pos as int, self.pos as int) =~= Seq::<u8>::empty());
                    assert(command@ =~= seq![instruction_byte(Instruction::AdditionalData)] + Seq::<u8>::empty());
                },
            }
            ExchangeStep::Send(command)
        } else {
            ExchangeStep::Done(status, slice_to_vec(self.output.as_slice()))
        }
    }
}

/// The start of a plain exchange of `data` after `header`: nothing sent
/// or received yet, and the first command is the header alone.
pub open spec fn plain_start(ex: PlainExchange, command: Seq<u8>, header: Seq<u8>, data: Seq<u8>) -> bool {
    &&& ex.wf()
    &&& ex.spec_data() == data
    &&& ex.spec_pos() == 0
    &&& ex.spec_output() == Seq::<u8>::empty()
    &&& command == header
}

/// One step of a plain exchange on the reply `status`, `response`: the
/// response is collected; on AdditionalData the next command carries the
/// next (up to 59) bytes of data, otherwise the exchange is over with all
/// the data received.
pub open spec fn plain_step(before: PlainExchange, after: PlainExchange, status: StatusCode, response: Seq<u8>, r: ExchangeStep) -> bool {
    &&& after.wf()
    &&& after.spec_data() == before.spec_data()
    &&& after.spec_output() == before.spec_output() + response
    &&& status == StatusCode::AdditionalData ==> ({
        let n = chunk_len(before.spec_data().len() as int, before.spec_pos() as int, MAX_SIZE as int);
        &&& after.spec_pos() == before.spec_pos() + n
        &&& r matches ExchangeStep::Send(c) && c@ == seq![instruction_byte(Instruction::AdditionalData)]
            + before.spec_data().subrange(before.spec_pos() as int, before.spec_pos() + n)
    })
    &&& status != StatusCode::AdditionalData ==> ({
        &&& after.spec_pos() == before.spec_pos()
        &&& r matches ExchangeStep::Done(s, out) && s == status && out@ == after.spec_output()
    })
}

/// A chunk of data padded with zeros to a whole number of blocks.
pub open spec fn zero_pad(chunk: Seq<u8>, bs: nat) -> Seq<u8> {
    chunk + zeros(((bs - chunk.len() % bs) % (bs as int)) as nat)
}

fn zero_pad_exec(chunk: &[u8], bs: usize) -> (r: Vec<u8>)
    requires
        bs > 0,
        chunk@.len() + bs <= usize::MAX,
    ensures
        r@ == zero_pad(chunk@, bs as nat),
        r@.len() % (bs as nat) == 0,
        chunk@.len() > 0 ==> r@.len() > 0,
{
    let mut r = slice_to_vec(chunk);
    let fill = (bs - chunk.len() % bs) % bs;
    let mut i: usize = 0;
    while i < fill
        invariant
            0 <= i <= fill,
            r@ == chunk@ + zeros(i as nat),
        decreases fill - i,
    {
        r.push(0u8);
        assert(zeros((i + 1) as nat) =~= zeros(i as nat).push(0u8));
        i = i + 1;
    }
    proof {
        let c = chunk@.len() as int;
        let b = bs as int;
        assert((c + (b - c % b) % b) % b == 0) by (nonlinear_arith) requires b > 0, c >= 0;
    }
    r
}

/// An exchange whose outgoing data is encrypted: the header goes in the
/// clear; the data is CBC-encrypted (chained across all chunks, starting
/// from the keying state's IV) after zero padding each chunk to whole
/// blocks. Short messages (header and data within 59 bytes) go in a single
/// command; otherwise the header goes alone, and each AdditionalData reply
/// is answered with the next two blocks' worth of data. At the end the
/// keying state's IV becomes the last encrypted block (or zeros, where no
/// data was sent). The card, decrypting each encrypted part with the
/// session key, reads the data of that part, zero padded.
#[derive(Debug)]
pub struct EncryptedExchange {
    algorithm: Algorithm,
    key: Vec<u8>,
    chain_iv: Vec<u8>,
    final_iv: Vec<u8>,
    data: Vec<u8>,
    pos: usize,
    output: Vec<u8>,
}

impl EncryptedExchange {
    /// The algorithm in use.
    pub closed spec fn spec_algorithm(self) -> Algorithm {
        self.algorithm
    }

    /// The session key.
    pub closed spec fn spec_key(self) -> Seq<u8> {
        self.key@
    }

    /// The IV that chains the next chunk (the last encrypted block).
    pub closed spec fn spec_chain_iv(self) -> Seq<u8> {
        self.chain_iv@
    }

    /// The IV the keying state takes at the end.
    pub closed spec fn spec_final_iv(self) -> Seq<u8> {
        self.final_iv@
    }

    /// All the data to send.
    pub closed spec fn spec_data(self) -> Seq<u8> {
        self.data@
    }

    /// How much of the data has been sent.
    pub closed spec fn spec_pos(self) -> nat {
        self.pos as nat
    }

    /// The data of all replies so far.
    pub closed spec fn spec_output(self) -> Seq<u8> {
        self.output@
    }

    /// Key and IVs are one block long, and no more data was sent than there
    /// is.
    pub open spec fn wf(self) -> bool {
        &&& self.spec_key().len() == block_size(self.spec_algorithm())
        &&& self.spec_chain_iv().len() == block_size(self.spec_algorithm())
        &&& self.spec_final_iv().len() == block_size(self.spec_algorithm())
        &&& self.spec_pos() <= self.spec_data().len()
    }

    /// Start an encrypted exchange of `header` followed by the parts of
    /// `data` under the keying state `ks` (which is not changed yet).
    pub fn new(ks: &KeyingState, header: &[u8], data: &[&[u8]]) -> (r: (Self, Vec<u8>))
        requires
            ks.wf(),
        ensures
            encrypted_start(*ks, r.0, r.1@, header@, flatten_parts(parts_view(data@))),
    {
        let empty: [u8; 0] = [];
        let all = concat_parts(empty.as_slice(), data);
        assert(empty@ + flatten_parts(parts_view(data@)) =~= flatten_parts(parts_view(data@)));
        let scheme = ks.scheme();
        let alg = scheme.algorithm();
        let bs = block_len(alg);
        let key = slice_to_vec(scheme.get_key());
        let ks_iv = slice_to_vec(ks.get_iv());
        if all.len() > 0 && header.len() <= MAX_SIZE && all.len() <= MAX_SIZE - header.len() {
            let mut enc = zero_pad_exec(all.as_slice(), bs);
            cbc_encrypt(alg, key.as_slice(), ks_iv.as_slice(), &mut enc);
            let last = copy_last_n(enc.as_slice(), bs);
            let mut command = slice_to_vec(header);
            append_slice(&mut command, enc.as_slice());
            let n = all.len();
            let ex = EncryptedExchange {
                algorithm: alg,
                key,
                chain_iv: slice_to_vec(last.as_slice()),
                final_iv: last,
                data: all,
                pos: n,
                output: Vec::new(),
            };
            (ex, command)
        } else {
            let z = vec![0u8; bs];
            assert(z@ =~= zeros(bs as nat));
            let ex = EncryptedExchange {
                algorithm: alg,
                key,
                chain_iv: ks_iv,
                final_iv: z,
                data: all,
                pos: 0,
                output: Vec::new(),
            };
            (ex, slice_to_vec(header))
        }
    }

    /// Take the card's reply. Its data is collected. On AdditionalData the
    /// next command is AdditionalData followed by the encryption (chained
    /// on from the last encrypted block) of the next two blocks' worth of
    /// data, zero padded; or AdditionalData alone if no data is left. On
    /// any other status code the exchange is over.
    pub fn step(&mut self, status: StatusCode, response: &[u8]) -> (r: ExchangeStep)
        requires
            old(self).wf(),
        ensures
            encrypted_step(*old(self), *final(self), status, response@, r),
    {
        append_slice(&mut self.output, response);
        if status == StatusCode::AdditionalData {
            let bs = block_len(self.algorithm);
            let mut command: Vec<u8> = Vec::new();
            command.push(Instruction::AdditionalData.as_u8());
            let mut buf = vec![0u8; 2 * bs];
            let total = self.data.len();
            let copied = copy_to_slice(self.data.as_slice(), self.pos, buf.as_mut_slice());
            let n: usize = match copied {
                Some(n) => n,
                None => 0,
            };
            if n > 0 {
                assert(self.pos + n <= total);
                let chunk = slice_subrange(buf.as_slice(), 0, n);
                assert(chunk@ =~= self.data@.subrange(self.pos as int, self.pos + n));
                let mut enc = zero_pad_exec(chunk, bs);
                cbc_encrypt(self.algorithm, self.key.as_slice(), self.chain_iv.as_slice(), &mut enc);
                let last = copy_last_n(enc.as_slice(), bs);
                append_slice(&mut command, enc.as_slice());
                self.chain_iv = slice_to_vec(last.as_slice());
                self.final_iv = last;
                self.pos = self.pos + n;
            }
            ExchangeStep::Send(command)
        } else {
            ExchangeStep::Done(status, slice_to_vec(self.output.as_slice()))
        }
    }

    /// End the exchange: the keying state's IV becomes the last encrypted
    /// block (zeros where no data was encrypted).
    pub fn finish(&self, ks: &mut KeyingState)
        requires
            self.wf(),
            old(ks).wf(),
            old(ks).spec_algorithm() == self.spec_algorithm(),
        ensures
            final(ks).wf(),
            final(ks).spec_algorithm() == old(ks).spec_algorithm(),
            final(ks).spec_key() == old(ks).spec_key(),
            final(ks).spec_k1() == old(ks).spec_k1(),
            final(ks).spec_k2() == old(ks).spec_k2(),
            final(ks).spec_iv() == self.spec_final_iv(),
    {
        ks.set_iv(self.final_iv.as_slice());
    }
}

/// The start of an encrypted exchange of `data` after `header` under the
/// keying state `ks`: nothing received yet. Data that fits with the header
/// in one command (59 bytes) goes at once, zero padded and encrypted from
/// the keying state's IV; otherwise the header goes alone. The card,
/// decrypting what was sent with the session key, reads the data, zero
/// padded.
pub open spec fn encrypted_start(ks: KeyingState, ex: EncryptedExchange, command: Seq<u8>, header: Seq<u8>, data: Seq<u8>) -> bool {
    let bs = block_size(ks.spec_algorithm());
    let enc = spec_cbc_encrypt(ks.spec_algorithm(), ks.spec_key(), ks.spec_iv(), zero_pad(data, bs));
    &&& ex.wf()
    &&& ex.spec_algorithm() == ks.spec_algorithm()
    &&& ex.spec_key() == ks.spec_key()
    &&& ex.spec_data() == data
    &&& ex.spec_output() == Seq::<u8>::empty()
    &&& if data.len() > 0 && header.len() + data.len() <= MAX_SIZE {
        &&& command == header + enc
        &&& spec_cbc_decrypt(ks.spec_algorithm(), ks.spec_key(), ks.spec_iv(), enc) == zero_pad(data, bs)
        &&& ex.spec_pos() == data.len()
        &&& ex.spec_chain_iv() == last_n(enc, bs)
        &&& ex.spec_final_iv() == last_n(enc, bs)
    } else {
        &&& command == header
        &&& ex.spec_pos() == 0
        &&& ex.spec_chain_iv() == ks.spec_iv()
        &&& ex.spec_final_iv() == zeros(bs)
    }
}

/// One step of an encrypted exchange on the reply `status`, `response`:
/// the response is collected; on AdditionalData the next command carries
/// the encryption (chained on from the last encrypted block) of the next
/// two blocks' worth of data, zero padded, or nothing if no data is left;
/// otherwise the exchange is over with all the data received.
pub open spec fn encrypted_step(before: EncryptedExchange, after: EncryptedExchange, status: StatusCode, response: Seq<u8>, r: ExchangeStep) -> bool {
    &&& after.wf()
    &&& after.spec_algorithm() == before.spec_algorithm()
    &&& after.spec_key() == before.spec_key()
    &&& after.spec_data() == before.spec_data()
    &&& after.spec_output() == before.spec_output() + response
    &&& status == StatusCode::AdditionalData ==> ({
        let bs = block_size(before.spec_algorithm());
        let n = chunk_len(before.spec_data().len() as int, before.spec_pos() as int, (2 * bs) as int);
        let chunk = before.spec_data().subrange(before.spec_pos() as int, before.spec_pos() + n);
        let enc = spec_cbc_encrypt(before.spec_algorithm(), before.spec_key(), before.spec_chain_iv(), zero_pad(chunk, bs));
        &&& after.spec_pos() == before.spec_pos() + n
        &&& n > 0 ==> spec_cbc_decrypt(before.spec_algorithm(), before.spec_key(), before.spec_chain_iv(), enc) == zero_pad(chunk, bs)
        &&& n > 0 ==> (r matches ExchangeStep::Send(c) && c@ == seq![instruction_byte(Instruction::AdditionalData)] + enc
            && after.spec_chain_iv() == last_n(enc, bs) && after.spec_final_iv() == last_n(enc, bs))
        &&& n == 0 ==> (r matches ExchangeStep::Send(c) && c@ == seq![instruction_byte(Instruction::AdditionalData)]
            && after.spec_chain_iv() == before.spec_chain_iv()
            && after.spec_final_iv() == before.spec_final_iv())
    })
    &&& status != StatusCode::AdditionalData ==> ({
        &&& after.spec_pos() == before.spec_pos()
        &&& after.spec_chain_iv() == before.spec_chain_iv()
        &&& after.spec_final_iv() == before.spec_final_iv()
        &&& r matches ExchangeStep::Done(s, out) && s == status && out@ == after.spec_output()
    })
}

/// Interpret a CMAC-signed reply ([cmac_reply]): a status other than Ack
/// is handed back with no data, unchecked; an Ack reply must end with the
/// CMAC short signature of its data followed by the status byte, and its
/// data is handed back; a bad signature is [Error::InvalidSignature].
pub fn cmac_response<IoBackendErrorT>(ks: &mut KeyingState, status: StatusCode, data: &[u8]) -> (r: Result<(StatusCode, Vec<u8>), Error<IoBackendErrorT>>)
    requires
        old(ks).wf(),
    ensures
        cmac_reply(*old(ks), *final(ks), status, data@, r),
{
    if status != StatusCode::Ack {
        return Ok((status, Vec::new()));
    }
    let sb: [u8; 1] = [status.as_u8()];
    assert(sb@ =~= seq![status_code_byte(status)]);
    let sbs: &[u8] = sb.as_slice();
    assert(trailer_view(Some(sbs)) == sb@);
    match ks.validate_cmac::<IoBackendErrorT>(data, Some(sbs)) {
        Ok(msg) => Ok((status, slice_to_vec(msg))),
        Err(e) => Err(e),
    }
}

/// The keying state after a step of the session: still well formed, with
/// the same algorithm, key and CMAC subkeys (only the IV moves).
pub open spec fn same_session(before: KeyingState, after: KeyingState) -> bool {
    &&& after.wf()
    &&& after.spec_algorithm() == before.spec_algorithm()
    &&& after.spec_key() == before.spec_key()
    &&& after.spec_k1() == before.spec_k1()
    &&& after.spec_k2() == before.spec_k2()
}

/// The outcome of checking a reply that ends with the CMAC short signature
/// of its data followed by the status byte, computed in the session of
/// `before` from the IV `iv`: as [KeyingState::validate_cmac] with that
/// trailer (the IV moves to the full CMAC), the status code and the signed
/// data handed back on success.
pub open spec fn signed_reply<E>(before: KeyingState, iv: Seq<u8>, after: KeyingState, status: StatusCode, data: Seq<u8>, r: Result<(StatusCode, Vec<u8>), Error<E>>) -> bool {
    let trailer = seq![status_code_byte(status)];
    &&& data.len() < 8 ==> (r matches Err(Error::InvalidSignature) && after.spec_iv() == iv)
    &&& data.len() >= 8 ==> ({
        let msg = data.subrange(0, data.len() - 8);
        let mac = spec_cmac(before.spec_algorithm(), before.spec_key(), iv, before.spec_k1(), before.spec_k2(), msg + trailer);
        &&& after.spec_iv() == mac
        &&& mac.take(8) == data.skip(data.len() - 8) ==> (r matches Ok(x) && x.0 == status && x.1@ == msg)
        &&& mac.take(8) != data.skip(data.len() - 8) ==> r matches Err(Error::InvalidSignature)
    })
}

/// What a CMAC-signed reply means: a status other than Ack is handed back
/// with no data, unchecked (the IV stays); an Ack reply is checked as
/// [signed_reply].
pub open spec fn cmac_reply<E>(before: KeyingState, after: KeyingState, status: StatusCode, data: Seq<u8>, r: Result<(StatusCode, Vec<u8>), Error<E>>) -> bool {
    &&& same_session(before, after)
    &&& status != StatusCode::Ack ==> (r matches Ok(x) && x.0 == status && x.1@ == Seq::<u8>::empty()
        && after.spec_iv() == before.spec_iv())
    &&& status == StatusCode::Ack ==> signed_reply(before, before.spec_iv(), after, status, data, r)
}

/// What an encrypted reply means: data that is not a whole number of
/// blocks is [Error::BadSize] (the IV stays); otherwise it is handed back
/// CBC-decrypted with the current IV (as long as it came), and the IV moves
/// to its last ciphertext block.
pub open spec fn decrypted_reply<E>(before: KeyingState, after: KeyingState, status: StatusCode, data: Seq<u8>, r: Result<(StatusCode, Vec<u8>), Error<E>>) -> bool {
    let bs = block_size(before.spec_algorithm());
    &&& same_session(before, after)
    &&& data.len() % bs != 0 ==> (r matches Err(Error::BadSize) && after.spec_iv() == before.spec_iv())
    &&& data.len() % bs == 0 ==> (r matches Ok(x) && x.0 == status
        && x.1@ == spec_cbc_decrypt(before.spec_algorithm(), before.spec_key(), before.spec_iv(), data)
        && x.1@.len() == data.len()
        && after.spec_iv() == last_n(data, bs))
}

/// What a CMAC-signed reply to an encrypted request means: whatever the
/// status, it is checked as [signed_reply].
pub open spec fn encrypted_cmac_reply<E>(before: KeyingState, after: KeyingState, status: StatusCode, data: Seq<u8>, r: Result<(StatusCode, Vec<u8>), Error<E>>) -> bool {
    &&& same_session(before, after)
    &&& signed_reply(before, before.spec_iv(), after, status, data, r)
}

/// The data of a CMAC-signed request: the parts of `data`, followed by the
/// CMAC short signature of the header and data (the IV moves to the full
/// CMAC).
pub fn signed_request(ks: &mut KeyingState, header: &[u8], data: &[&[u8]]) -> (r: Vec<u8>)
    requires
        old(ks).wf(),
    ensures
        final(ks).wf(),
        final(ks).spec_algorithm() == old(ks).spec_algorithm(),
        final(ks).spec_key() == old(ks).spec_key(),
        final(ks).spec_k1() == old(ks).spec_k1(),
        final(ks).spec_k2() == old(ks).spec_k2(),
        final(ks).spec_iv() == old(ks).spec_cmac_of(header@ + flatten_parts(parts_view(data@))),
        r@ == flatten_parts(parts_view(data@)) + old(ks).spec_cmac_of(header@ + flatten_parts(parts_view(data@))).take(8),
{
    let cmac = ks.generate_cmac_short(header, data);
    let empty: [u8; 0] = [];
    let mut all = concat_parts(empty.as_slice(), data);
    assert(empty@ + flatten_parts(parts_view(data@)) =~= flatten_parts(parts_view(data@)));
    append_slice(&mut all, cmac.as_slice());
    all
}

/// Interpret an encrypted reply ([decrypted_reply]): the data must be a
/// whole number of blocks ([Error::BadSize] otherwise); it is CBC-decrypted
/// with the current IV, and the IV moves to the last ciphertext block. No
/// padding is removed. The reply must hold at least one byte.
pub fn decrypt_response<IoBackendErrorT>(ks: &mut KeyingState, status: StatusCode, data: &[u8]) -> (r: Result<(StatusCode, Vec<u8>), Error<IoBackendErrorT>>)
    requires
        old(ks).wf(),
        data@.len() > 0,
    ensures
        decrypted_reply(*old(ks), *final(ks), status, data@, r),
{
    let alg = ks.scheme().algorithm();
    let bs = block_len(alg);
    if data.len() % bs != 0 {
        return Err(Error::BadSize);
    }
    assert(data@.len() >= bs) by (nonlinear_arith)
        requires data@.len() > 0, data@.len() % (bs as nat) == 0, bs > 0;
    let iv = copy_last_n(data, bs);
    let mut plain = slice_to_vec(data);
    cbc_decrypt(alg, ks.scheme().get_key(), ks.get_iv(), &mut plain);
    ks.set_iv(iv.as_slice());
    Ok((status, plain))
}

/// Interpret the CMAC-signed reply to an encrypted request
/// ([encrypted_cmac_reply]): whatever the status, the reply must end with
/// the CMAC short signature of its data followed by the status byte.
pub fn encrypted_cmac_response<IoBackendErrorT>(ks: &mut KeyingState, status: StatusCode, data: &[u8]) -> (r: Result<(StatusCode, Vec<u8>), Error<IoBackendErrorT>>)
    requires
        old(ks).wf(),
    ensures
        encrypted_cmac_reply(*old(ks), *final(ks), status, data@, r),
{
    let sb: [u8; 1] = [status.as_u8()];
    assert(sb@ =~= seq![status_code_byte(status)]);
    let sbs: &[u8] = sb.as_slice();
    assert(trailer_view(Some(sbs)) == sb@);
    match ks.validate_cmac::<IoBackendErrorT>(data, Some(sbs)) {
        Ok(msg) => Ok((status, slice_to_vec(msg))),
        Err(e) => Err(e),
    }
}

/// How a request and its reply travel in an authenticated session.
#[derive(Copy, Clone, Debug, PartialEq, Eq, Structural)]
pub enum Protection {
    /// A plain request, whose CMAC moves the IV on, and a CMAC-signed reply.
    PlainOutCmacIn,
    /// A CMAC-signed request and a CMAC-signed reply.
    CmacOutCmacIn,
    /// A plain request, whose CMAC moves the IV on, and an encrypted reply.
    PlainOutEncryptedIn,
    /// A request whose data is encrypted, and a plain reply.
    EncryptedOutPlainIn,
    /// A request whose data is encrypted, and a CMAC-signed reply.
    EncryptedOutCmacIn,
}

/// Whether a protection encrypts the request's data.
pub open spec fn encrypts_request(p: Protection) -> bool {
    p == Protection::EncryptedOutPlainIn || p == Protection::EncryptedOutCmacIn
}

/// An exchange of an authenticated session in progress, with the
/// protection it was started with.
#[derive(Debug)]
pub enum SessionExchange {
    /// The request goes in the clear (signed or not).
    Plain(Protection, PlainExchange),
    /// The request's data goes encrypted.
    Encrypted(Protection, EncryptedExchange),
}

/// How an authenticated exchange starts, from the keying state `before` to
/// `after`, for `header` followed by `data`. A plain request's CMAC moves
/// the IV on; a signed request carries the first 8 bytes of that CMAC
/// after its data; an encrypted request leaves the IV for the end of the
/// exchange.
pub open spec fn session_start(before: KeyingState, after: KeyingState, p: Protection, ex: SessionExchange, command: Seq<u8>, header: Seq<u8>, data: Seq<u8>) -> bool {
    let mac = before.spec_cmac_of(header + data);
    &&& same_session(before, after)
    &&& match ex {
        SessionExchange::Plain(q, pe) => q == p && match p {
            Protection::PlainOutCmacIn => after.spec_iv() == mac && plain_start(pe, command, header, data),
            Protection::PlainOutEncryptedIn => after.spec_iv() == mac && plain_start(pe, command, header, data),
            Protection::CmacOutCmacIn => after.spec_iv() == mac && plain_start(pe, command, header, data + mac.take(8)),
            _ => false,
        },
        SessionExchange::Encrypted(q, ee) => q == p && encrypts_request(p)
            && after.spec_iv() == before.spec_iv() && encrypted_start(before, ee, command, header, data),
    }
}

/// What the reply `status`, `data` that ends an authenticated exchange
/// means, from the keying state `before` to `after`: a signed reply is
/// checked ([cmac_reply]), an encrypted one decrypted ([decrypted_reply]);
/// after an encrypted request the IV first becomes its last encrypted block
/// (zeros where none was sent), then a plain reply is handed back as it
/// is, and a signed one is checked from that IV ([signed_reply]).
pub open spec fn session_finish<E>(ex: SessionExchange, before: KeyingState, after: KeyingState, status: StatusCode, data: Seq<u8>, r: Result<(StatusCode, Vec<u8>), Error<E>>) -> bool {
    match ex {
        SessionExchange::Plain(p, _) => match p {
            Protection::PlainOutEncryptedIn => decrypted_reply(before, after, status, data, r),
            _ => cmac_reply(before, after, status, data, r),
        },
        SessionExchange::Encrypted(p, ee) => same_session(before, after) && match p {
            Protection::EncryptedOutPlainIn => after.spec_iv() == ee.spec_final_iv()
                && (r matches Ok(x) && x.0 == status && x.1@ == data),
            _ => signed_reply(before, ee.spec_final_iv(), after, status, data, r),
        },
    }
}

impl SessionExchange {
    /// The protection of the exchange.
    pub open spec fn spec_protection(self) -> Protection {
        match self {
            SessionExchange::Plain(p, _) => p,
            SessionExchange::Encrypted(p, _) => p,
        }
    }

    /// The exchange is well formed, and encrypted exactly where its
    /// protection says so.
    pub open spec fn wf(self) -> bool {
        match self {
            SessionExchange::Plain(p, pe) => !encrypts_request(p) && pe.wf(),
            SessionExchange::Encrypted(p, ee) => encrypts_request(p) && ee.wf(),
        }
    }

    /// Start an exchange of `header` followed by the parts of `data` with
    /// the given protection ([session_start]); the first command to send is
    /// returned with it.
    pub fn start(ks: &mut KeyingState, protection: Protection, header: &[u8], data: &[&[u8]]) -> (r: (Self, Vec<u8>))
        requires
            old(ks).wf(),
        ensures
            r.0.wf(),
            r.0.spec_protection() == protection,
            session_start(*old(ks), *final(ks), protection, r.0, r.1@, header@, flatten_parts(parts_view(data@))),
    {
        match protection {
            Protection::PlainOutCmacIn | Protection::PlainOutEncryptedIn => {
                ks.generate_cmac(header, data);
                let (ex, command) = PlainExchange::new(header, data);
                (SessionExchange::Plain(protection, ex), command)
            },
            Protection::CmacOutCmacIn => {
                let signed = signed_request(ks, header, data);
                let parts: [&[u8]; 1] = [signed.as_slice()];
                proof { crate::commands::lemma_flatten_one(parts@, signed@); }
                let (ex, command) = PlainExchange::new(header, parts.as_slice());
                (SessionExchange::Plain(protection, ex), command)
            },
            Protection::EncryptedOutPlainIn | Protection::EncryptedOutCmacIn => {
                let (ex, command) = EncryptedExchange::new(ks, header, data);
                (SessionExchange::Encrypted(protection, ex), command)
            },
        }
    }

    /// Take the card's reply, as the exchange underneath does
    /// ([plain_step], [encrypted_step]).
    pub fn step(&mut self, status: StatusCode, response: &[u8]) -> (r: ExchangeStep)
        requires
            old(self).wf(),
        ensures
            final(self).wf(),
            final(self).spec_protection() == old(self).spec_protection(),
            match (*old(self), *final(self)) {
                (SessionExchange::Plain(_, a), SessionExchange::Plain(_, b)) => plain_step(a, b, status, response@, r),
                (SessionExchange::Encrypted(_, a), SessionExchange::Encrypted(_, b)) => encrypted_step(a, b, status, response@, r),
                _ => false,
            },
    {
        match self {
            SessionExchange::Plain(_, ex) => ex.step(status, response),
            SessionExchange::Encrypted(_, ex) => ex.step(status, response),
        }
    }

    /// End the exchange with its final reply ([session_finish]). An
    /// encrypted reply must hold at least one byte.
    pub fn finish<IoBackendErrorT>(self, ks: &mut KeyingState, status: StatusCode, output: &[u8]) -> (r: Result<(StatusCode, Vec<u8>), Error<IoBackendErrorT>>)
        requires
            self.wf(),
            old(ks).wf(),
            self matches SessionExchange::Encrypted(_, ee) ==> old(ks).spec_algorithm() == ee.spec_algorithm(),
            self.spec_protection() == Protection::PlainOutEncryptedIn ==> output@.len() > 0,
        ensures
            session_finish(self, *old(ks), *final(ks), status, output@, r),
    {
        match self {
            SessionExchange::Plain(Protection::PlainOutEncryptedIn, _) => decrypt_response(ks, status, output),
            SessionExchange::Plain(_, _) => cmac_response(ks, status, output),
            SessionExchange::Encrypted(p, ex) => {
                ex.finish(ks);
                match p {
                    Protection::EncryptedOutPlainIn => Ok((status, slice_to_vec(output))),
                    _ => encrypted_cmac_response(ks, status, output),
                }
            },
        }
    }
}

} // verus!
