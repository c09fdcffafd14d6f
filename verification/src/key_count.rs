use crate::error::Error;
use vstd::prelude::*;

verus! {

/// Number (and type) of keys of the PICC, or of the selected Application.
#[derive(Copy, Clone, Debug, PartialEq, Eq, Structural)]
pub enum KeyCount {
    /// Number of DES keys
    Des(u8),
    /// Number of AES keys
    Aes(u8),
}

/// The wire byte of a key count: the count (1 to 14) in the low nibble, with
/// the high bit set for AES. `None` for a count out of range.
pub open spec fn key_count_byte(kc: KeyCount) -> Option<u8> {
    match kc {
        KeyCount::Des(v) => if 1 <= v <= 14 { Some(v) } else { None },
        KeyCount::Aes(v) => if 1 <= v <= 14 { Some((v | 0x80) as u8) } else { None },
    }
}

/// What a wire byte holds: `Ok` with the key count, or the error that
/// [KeyCount::from_u8] reports. The low nibble is the count, the high nibble
/// the algorithm (0x0 DES, 0x8 AES).
pub open spec fn key_count_of_byte<E>(kc: u8) -> Result<KeyCount, Error<E>> {
    let count = kc & 0x0F;
    let type_ = kc & 0xF0;
    if type_ == 0x00 {
        if 1 <= count <= 14 { Ok(KeyCount::Des(count)) } else { Err(Error::BadKeyId) }
    } else if type_ == 0x80 {
        if 1 <= count <= 14 { Ok(KeyCount::Aes(count)) } else { Err(Error::BadKeyId) }
    } else {
        Err(Error::UnsupportedAlgorithm)
    }
}

impl KeyCount {
    /// Return the [KeyCount] as a serialized u8 value, as seen over the wire.
    ///
    /// A count must be within 1 to 14; any other count is [Error::BadKeyId].
    pub fn as_u8<IoBackendErrorT>(&self) -> (r: Result<u8, Error<IoBackendErrorT>>)
        ensures
            match key_count_byte(*self) {
                Some(b) => r matches Ok(x) && x == b,
                None => r matches Err(Error::BadKeyId),
            },
    {
        match self {
            KeyCount::Des(v) => {
                if 1 <= *v && *v <= 14 {
                    Ok(*v)
                } else {
                    Err(Error::BadKeyId)
                }
            },
            KeyCount::Aes(v) => {
                if 1 <= *v && *v <= 14 {
                    Ok(*v | 0x80)
                } else {
                    Err(Error::BadKeyId)
                }
            },
        }
    }

    /// Parse the wire encoded key count as a [KeyCount].
    pub fn from_u8<IoBackendErrorT>(kc: u8) -> (r: Result<Self, Error<IoBackendErrorT>>)
        ensures
            r == key_count_of_byte::<IoBackendErrorT>(kc),
    {
        let count = kc & 0x0F;
        let type_ = kc & 0xF0;
        if type_ == 0x00 {
            if 1 <= count && count <= 14 {
                Ok(KeyCount::Des(count))
            } else {
                Err(Error::BadKeyId)
            }
        } else if type_ == 0x80 {
            if 1 <= count && count <= 14 {
                Ok(KeyCount::Aes(count))
            } else {
                Err(Error::BadKeyId)
            }
        } else {
            Err(Error::UnsupportedAlgorithm)
        }
    }
}

/// A key count that can be written reads back as itself.
pub proof fn lemma_key_count_round_trip<E>(kc: KeyCount)
    requires
        key_count_byte(kc) is Some,
    ensures
        key_count_of_byte::<E>(key_count_byte(kc).unwrap()) == Ok::<KeyCount, Error<E>>(kc),
{
    match kc {
        KeyCount::Des(v) => {
            assert((v & 0x0F) == v && (v & 0xF0) == 0) by (bit_vector) requires 1 <= v <= 14;
        },
        KeyCount::Aes(v) => {
            let b = (v | 0x80) as u8;
            assert((b & 0x0F) == v && (b & 0xF0) == 0x80) by (bit_vector) requires 1 <= v <= 14, b == (v | 0x80) as u8;
        },
    }
}

/// A byte that parses as a key count is written back as that same byte.
pub proof fn lemma_key_count_byte_round_trip<E>(b: u8)
    requires
        key_count_of_byte::<E>(b) is Ok,
    ensures
        key_count_byte(key_count_of_byte::<E>(b)->Ok_0) == Some(b),
{
    let count = b & 0x0F;
    let type_ = b & 0xF0;
    assert(type_ == 0x00 ==> b == count) by (bit_vector) requires count == b & 0x0F, type_ == b & 0xF0;
    assert(type_ == 0x80 ==> b == (count | 0x80) as u8) by (bit_vector) requires count == b & 0x0F, type_ == b & 0xF0;
}

/// What a key count byte means: the count, 1 to 14, in the low nibble; a
/// high nibble of 0x0 for DES keys and 0x8 for AES keys. Reading a byte
/// gives a count only in that form, and writing a count gives that form.
pub proof fn lemma_key_count_meaning<E>(b: u8, kc: KeyCount)
    ensures
        key_count_of_byte::<E>(b) == Ok::<KeyCount, Error<E>>(kc) ==> ({
            &&& kc matches KeyCount::Des(n) ==> (1 <= n <= 14 && b == n)
            &&& kc matches KeyCount::Aes(n) ==> (1 <= n <= 14 && b & 0x0F == n && b & 0xF0 == 0x80)
        }),
        key_count_byte(kc) == Some(b) ==> ({
            &&& kc matches KeyCount::Des(n) ==> b == n
            &&& kc matches KeyCount::Aes(n) ==> (b & 0x0F == n && b & 0xF0 == 0x80)
        }),
{
    if key_count_of_byte::<E>(b) == Ok::<KeyCount, Error<E>>(kc) {
        let count = b & 0x0F;
        let type_ = b & 0xF0;
        assert(type_ == 0x00 ==> b == count) by (bit_vector) requires count == b & 0x0F, type_ == b & 0xF0;
    }
    if key_count_byte(kc) == Some(b) {
        match kc {
            KeyCount::Aes(n) => {
                assert((((n | 0x80) as u8) & 0x0F) == n && (((n | 0x80) as u8) & 0xF0) == 0x80) by (bit_vector)
                    requires 1 <= n <= 14;
            },
            KeyCount::Des(_) => {},
        }
    }
}

} // verus!
