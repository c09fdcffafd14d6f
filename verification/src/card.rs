//! The handle on a card: which backend it talks through, which application
//! is selected, and whether (and how) we are authenticated.
use crate::key::Key;
use crate::session::Session;
use crate::{ApplicationId, KeyId};
use vstd::prelude::*;

verus! {

/// Valid authentication state of a [Card]. This trait is here to limit the
/// possible states but is not generally useful.
pub trait AuthenticationState {}

/// Unauthenticated session. Everything is plaintext.
#[derive(Copy, Clone, Debug, PartialEq, Eq, Structural)]
pub struct Unauthenticated;

impl AuthenticationState for Unauthenticated {}

/// Authenticated session.
#[derive(Debug)]
pub struct Authenticated {
    session: Session,
}

impl AuthenticationState for Authenticated {}

impl Authenticated {
    /// The session.
    pub closed spec fn spec_session(self) -> Session {
        self.session
    }

    /// Wrap a session.
    pub fn new(session: Session) -> (r: Self)
        ensures
            r.spec_session() == session,
    {
        Authenticated { session }
    }

    /// Return a handle to the underlying [Session].
    pub fn session(&self) -> (r: &Session)
        ensures
            *r == self.spec_session(),
    {
        &self.session
    }

    /// Return a handle to the underlying [Session] (mutable).
    pub fn session_mut(&mut self) -> (r: &mut Session)
        ensures
            *r == old(self).spec_session(),
            final(self).spec_session() == *final(r),
    {
        &mut self.session
    }
}

/// The default application, selected when a card is first addressed.
pub open spec fn default_application() -> ApplicationId {
    [0u8, 0u8, 0u8]
}

/// Handle to interact with a MiFare DESFire card through a backend.
pub struct Card<'card, IoBackendT, AuthenticationStateT: AuthenticationState> {
    application_id: ApplicationId,
    card: &'card IoBackendT,
    authentication: AuthenticationStateT,
}

impl<'card, IoBackendT, AuthenticationStateT: AuthenticationState> Card<'card, IoBackendT, AuthenticationStateT> {
    /// The selected application.
    pub closed spec fn spec_application_id(self) -> ApplicationId {
        self.application_id
    }

    /// The backend the card is reached through.
    pub closed spec fn spec_backend(self) -> &'card IoBackendT {
        self.card
    }

    /// The authentication state.
    pub closed spec fn spec_authentication(self) -> AuthenticationStateT {
        self.authentication
    }

    /// Return a ref to the inner authentication state.
    pub fn authentication_state(&self) -> (r: &AuthenticationStateT)
        ensures
            *r == self.spec_authentication(),
    {
        &self.authentication
    }

    /// Return the currently selected application.
    pub fn get_current_application(&self) -> (r: ApplicationId)
        ensures
            r == self.spec_application_id(),
    {
        self.application_id
    }

    /// The backend the card is reached through.
    pub fn backend(&self) -> (r: &'card IoBackendT)
        ensures
            r == self.spec_backend(),
    {
        self.card
    }

    /// Drop Authentication. This doesn't change anything on the card -- it
    /// is only useful if you know you did something that logged you out
    /// that the type system didn't account for. Backend and application are
    /// kept.
    pub fn to_unauthenticated(self) -> (r: Card<'card, IoBackendT, Unauthenticated>)
        ensures
            r.spec_application_id() == self.spec_application_id(),
            r.spec_backend() == self.spec_backend(),
    {
        let Card { card, application_id, authentication: _ } = self;
        Card { card, application_id, authentication: Unauthenticated }
    }

    /// The card, now authenticated with key slot `key_id` and the session
    /// key the handshake agreed on. Backend and application are kept.
    pub fn into_authenticated(self, key_id: KeyId, session_key: Key) -> (r: Card<'card, IoBackendT, Authenticated>)
        ensures
            r.spec_application_id() == self.spec_application_id(),
            r.spec_backend() == self.spec_backend(),
            r.spec_authentication().spec_session().wf(),
            r.spec_authentication().spec_session().spec_key_id() == key_id,
            r.spec_authentication().spec_session().spec_keying().spec_key() == session_key.spec_bytes(),
            r.spec_authentication().spec_session().spec_keying().spec_algorithm() == crate::crypto::key_algorithm(session_key),
            r.spec_authentication().spec_session().spec_keying().spec_iv()
                == crate::keying::zeros(crate::crypto::block_size(crate::crypto::key_algorithm(session_key))),
    {
        let Card { card, application_id, authentication: _ } = self;
        Card { card, application_id, authentication: Authenticated { session: Session::new(key_id, session_key) } }
    }
}

impl<'card, IoBackendT, AuthenticationStateT: AuthenticationState> AsRef<IoBackendT> for Card<'card, IoBackendT, AuthenticationStateT> {
    /// The backend the card is reached through.
    fn as_ref(&self) -> (r: &IoBackendT)
        ensures
            r == self.spec_backend(),
    {
        self.card
    }
}

impl<'card, IoBackendT> Card<'card, IoBackendT, Unauthenticated> {
    /// Create a new, unauthenticated [Card] on a backend, with the default
    /// application (00 00 00) selected.
    pub fn new(card: &'card IoBackendT) -> (r: Self)
        ensures
            r.spec_application_id() == default_application(),
            r.spec_backend() == card,
    {
        Card { card, application_id: [0u8, 0u8, 0u8], authentication: Unauthenticated }
    }

    /// The card with `application_id` selected.
    pub fn with_application(self, application_id: ApplicationId) -> (r: Self)
        ensures
            r.spec_application_id() == application_id,
            r.spec_backend() == self.spec_backend(),
    {
        let Card { card, application_id: _, authentication } = self;
        Card { card, application_id, authentication }
    }
}

impl<'card, IoBackendT> Card<'card, IoBackendT, Authenticated> {
    /// Return the currently authenticated key id.
    pub fn get_current_key_id(&self) -> (r: KeyId)
        ensures
            r == self.spec_authentication().spec_session().spec_key_id(),
    {
        self.authentication.session.get_key_id()
    }

    /// The session, to be updated in place.
    pub fn session_mut(&mut self) -> (r: &mut Session)
        ensures
            *r == old(self).spec_authentication().spec_session(),
            final(self).spec_authentication().spec_session() == *final(r),
            final(self).spec_application_id() == old(self).spec_application_id(),
            final(self).spec_backend() == old(self).spec_backend(),
    {
        self.authentication.session_mut()
    }
}

} // verus!
