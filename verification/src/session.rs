use crate::crypto::{key_algorithm, Algorithm};
use crate::key::Key;
use crate::keying::{zeros, KeyingState};
use crate::KeyId;
use vstd::prelude::*;

verus! {

/// An authenticated session: the key slot we authenticated with, and the
/// keying state shared with the card.
#[derive(Debug)]
pub enum Session {
    /// A session keyed with AES-128.
    Aes {
        /// The key slot used to authenticate.
        key_id: KeyId,
        /// The shared keying state.
        keying: KeyingState,
    },
    /// A session keyed with DES.
    Des {
        /// The key slot used to authenticate.
        key_id: KeyId,
        /// The shared keying state.
        keying: KeyingState,
    },
}

impl Session {
    /// The key slot of the session.
    pub open spec fn spec_key_id(self) -> KeyId {
        match self {
            Session::Aes { key_id, .. } => key_id,
            Session::Des { key_id, .. } => key_id,
        }
    }

    /// The keying state of the session.
    pub open spec fn spec_keying(self) -> KeyingState {
        match self {
            Session::Aes { keying, .. } => keying,
            Session::Des { keying, .. } => keying,
        }
    }

    /// The keying state is well formed, and its algorithm is the one the
    /// variant names.
    pub open spec fn wf(self) -> bool {
        &&& self.spec_keying().wf()
        &&& match self {
            Session::Aes { keying, .. } => keying.spec_algorithm() == Algorithm::Aes128,
            Session::Des { keying, .. } => keying.spec_algorithm() == Algorithm::Des,
        }
    }

    /// Start a session for key slot `key_id` with the session key that the
    /// handshake agreed on: the variant follows the key's algorithm, and
    /// the keying state starts with a zero IV.
    pub fn new(key_id: KeyId, session_key: Key) -> (r: Self)
        ensures
            r.wf(),
            r.spec_key_id() == key_id,
            r.spec_keying().spec_algorithm() == key_algorithm(session_key),
            r.spec_keying().spec_key() == session_key.spec_bytes(),
            r.spec_keying().spec_iv() == zeros(crate::crypto::block_size(key_algorithm(session_key))),
    {
        match session_key {
            Key::Aes(_) => Session::Aes { key_id, keying: KeyingState::new(session_key) },
            Key::Des(_) => Session::Des { key_id, keying: KeyingState::new(session_key) },
        }
    }

    /// The key slot of the session.
    pub fn get_key_id(&self) -> (r: KeyId)
        ensures
            r == self.spec_key_id(),
    {
        match self {
            Session::Aes { key_id, .. } => *key_id,
            Session::Des { key_id, .. } => *key_id,
        }
    }

    /// The keying state of the session.
    pub fn keying(&self) -> (r: &KeyingState)
        ensures
            *r == self.spec_keying(),
    {
        match self {
            Session::Aes { keying, .. } => keying,
            Session::Des { keying, .. } => keying,
        }
    }

    /// The keying state of the session, to be updated in place.
    pub fn keying_mut(&mut self) -> (r: &mut KeyingState)
        ensures
            *r == old(self).spec_keying(),
            final(self).spec_key_id() == old(self).spec_key_id(),
            final(self).spec_keying() == *final(r),
            (*final(self) is Aes) == (*old(self) is Aes),
    {
        match self {
            Session::Aes { keying, .. } => keying,
            Session::Des { keying, .. } => keying,
        }
    }
}

} // verus!
