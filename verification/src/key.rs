use vstd::prelude::*;

verus! {

/// MIFARE DESFire keys are symmetric keys shared by the reader and the
/// card. Only DES (legacy, and default key authentication) and AES-128 are
/// supported.
#[derive(Copy, Clone, Debug, PartialEq, Eq)]
pub enum Key {
    /// 8-byte DES key (this is legacy).
    Des([u8; 8]),
    /// 16-byte AES key (this is the one that you generally want to use).
    Aes([u8; 16]),
}

impl Key {
    /// The bytes of the key.
    pub open spec fn spec_bytes(self) -> Seq<u8> {
        match self {
            Key::Des(k) => k@,
            Key::Aes(k) => k@,
        }
    }
}

} // verus!
