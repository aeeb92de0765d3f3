//! The credential-provider contract: the two-state credential, the capability
//! traits that expose client identity and token retrieval, and the refresh
//! decision procedure that turns a needs-refresh signal into a fresh token or
//! a typed failure.

use vstd::prelude::*;
use crate::AccessTokenExpired;

verus! {

/// Represents an access token: either a currently usable bearer token, or a
/// signal that the provider must refresh before a token is available.
#[derive(Debug, Clone)]
pub enum AccessToken {
    /// Access token
    Token(String),
    /// Access token expired or otherwise needs refreshing
    NeedsRefresh,
}

/// The mathematical value of an [`AccessToken`]: the same two states, with
/// the token as a sequence of characters.
#[verifier::ext_equal]
pub enum CredentialState {
    /// A usable bearer token.
    Token { token: Seq<char> },
    /// No usable token; a refresh is required first.
    NeedsRefresh,
}

impl View for AccessToken {
    type V = CredentialState;

    open spec fn view(&self) -> CredentialState {
        match self {
            AccessToken::Token(t) => CredentialState::Token { token: t@ },
            AccessToken::NeedsRefresh => CredentialState::NeedsRefresh,
        }
    }
}

impl From<String> for AccessToken {
    fn from(token: String) -> Self {
        AccessToken::Token(token)
    }
}

impl vstd::std_specs::convert::FromSpecImpl<String> for AccessToken {
    open spec fn obeys_from_spec() -> bool {
        true
    }

    open spec fn from_spec(token: String) -> Self {
        AccessToken::Token(token)
    }
}

/// A trait for an auth provider that can provide a client id.
pub trait ClientIdProvider {
    /// The identifier of the credential subject, as a mathematical value.
    spec fn spec_client_id(&self) -> Seq<char>;

    /// Get the client id for this auth provider. A non-failing read with no
    /// side effects: it always returns exactly the identifier this provider
    /// holds.
    fn client_id(&self) -> (r: &str)
        ensures
            r@ == self.spec_client_id(),
    ;
}

/// A simple client id provider that simply wraps the client id string.
#[derive(Debug, Clone)]
pub struct ClientId(pub String);

impl ClientId {
    /// Create a new ClientId wrapper with the given string.
    pub fn new(client_id: String) -> (r: Self)
        ensures
            r.0@ == client_id@,
    {
        ClientId(client_id)
    }
}

impl ClientIdProvider for ClientId {
    open spec fn spec_client_id(&self) -> Seq<char> {
        self.0@
    }

    fn client_id(&self) -> (r: &str) {
        self.0.as_str()
    }
}

/// A trait for an auth provider that can provide an access token.
///
/// Three spec functions describe a provider's behaviour: the credential state
/// it currently holds, and the two relations saying which tokens a successful
/// refresh may return and which errors a failed one may return. The exec
/// methods are bound to those descriptions by their contracts, so generic
/// code can reason about any conforming provider.
pub trait AccessTokenProvider: ClientIdProvider {
    /// Error type used for refreshing errors.
    type Error: core::fmt::Debug;

    /// The credential state this provider currently holds.
    spec fn spec_access_token(&self) -> CredentialState;

    /// Which token values a successful refresh may return.
    spec fn refresh_ok(&self, token: Seq<char>) -> bool;

    /// Which errors a failed refresh may return.
    spec fn refresh_err(&self, err: Self::Error) -> bool;

    /// Get the access token for this auth provider.
    ///
    /// A pure read: it never performs a refresh and never mutates the
    /// provider. If the token is expired, this returns
    /// [`AccessToken::NeedsRefresh`] to indicate that
    /// [`AccessTokenProvider::refresh_token`] should be called.
    fn access_token(&self) -> (r: AccessToken)
        ensures
            r@ == self.spec_access_token(),
    ;

    /// Refresh the token: attempt to obtain a new token, returning it on
    /// success and this provider's own error on failure.
    fn refresh_token(&self) -> (r: Result<String, Self::Error>)
        ensures
            match r {
                Ok(t) => self.refresh_ok(t@),
                Err(e) => self.refresh_err(e),
            },
    ;
}

/// A simple access token provider that errors if refreshing is attempted. It
/// is strongly advised that you implement your own [`AccessTokenProvider`] so
/// that you can handle refreshing.
#[derive(Debug)]
pub struct AccessTokenOnly {
    client_id: String,
    token: String,
}

impl AccessTokenOnly {
    /// Create a new [`AccessTokenOnly`] instance with the given client id and
    /// access token. The provider holds both unchanged: every read of the
    /// credential yields the given token, and a refresh can only fail.
    pub fn new(client_id: String, access_token: String) -> (r: Self)
        ensures
            r.spec_client_id() == client_id@,
            r.spec_access_token() == (CredentialState::Token { token: access_token@ }),
            forall|t: Seq<char>| !r.refresh_ok(t),
            forall|e: AccessTokenExpired| r.refresh_err(e),
    {
        AccessTokenOnly { client_id, token: access_token }
    }
}

impl ClientIdProvider for AccessTokenOnly {
    closed spec fn spec_client_id(&self) -> Seq<char> {
        self.client_id@
    }

    fn client_id(&self) -> (r: &str) {
        self.client_id.as_str()
    }
}

impl AccessTokenProvider for AccessTokenOnly {
    type Error = AccessTokenExpired;

    closed spec fn spec_access_token(&self) -> CredentialState {
        CredentialState::Token { token: self.token@ }
    }

    closed spec fn refresh_ok(&self, token: Seq<char>) -> bool {
        false
    }

    closed spec fn refresh_err(&self, err: AccessTokenExpired) -> bool {
        true
    }

    fn access_token(&self) -> (r: AccessToken) {
        AccessToken::Token(self.token.clone())
    }

    fn refresh_token(&self) -> (r: Result<String, AccessTokenExpired>) {
        Err(AccessTokenExpired)
    }
}

/// An [`AccessTokenOnly`] never signals a refresh: whatever token it was
/// constructed with, its credential state is a usable token, on this call and
/// on every later one (the provider is never mutated).
pub proof fn lemma_access_token_only_never_needs_refresh(p: AccessTokenOnly)
    ensures
        p.spec_access_token() is Token,
{
}

/// Refreshing an [`AccessTokenOnly`] always fails with the fixed
/// [`AccessTokenExpired`] error: any outcome permitted by the contract of
/// [`AccessTokenProvider::refresh_token`] on such a provider is an `Err`,
/// regardless of prior state or call count.
pub proof fn lemma_access_token_only_refresh_always_fails(
    p: AccessTokenOnly,
    r: Result<String, AccessTokenExpired>,
)
    requires
        match r {
            Ok(t) => p.refresh_ok(t@),
            Err(e) => p.refresh_err(e),
        },
    ensures
        r matches Err(e) && e == AccessTokenExpired,
{
}

/// What the refresh decision procedure guarantees of its outcome `r` for a
/// given provider: a held token is returned as it is, and otherwise the
/// outcome is one that the provider's refresh operation permits.
pub open spec fn refresh_decision_post<P: AccessTokenProvider>(
    provider: P,
    r: Result<String, P::Error>,
) -> bool {
    match provider.spec_access_token() {
        CredentialState::Token { token } => r matches Ok(t) && t@ == token,
        CredentialState::NeedsRefresh => match r {
            Ok(t) => provider.refresh_ok(t@),
            Err(e) => provider.refresh_err(e),
        },
    }
}

/// While the provider holds a usable token, the decision procedure yields
/// exactly that token, whatever the provider's refresh operation could return
/// or fail with: the refresh operation plays no part in the outcome.
pub proof fn lemma_valid_token_returned_without_refresh<P: AccessTokenProvider>(
    provider: P,
    token: Seq<char>,
    r: Result<String, P::Error>,
)
    requires
        provider.spec_access_token() == (CredentialState::Token { token }),
        refresh_decision_post(provider, r),
    ensures
        r matches Ok(t) && t@ == token,
{
}

/// When the provider needs a refresh and its refresh operation can only
/// succeed, and only with the token `fresh`, the decision procedure yields
/// exactly `fresh`.
pub proof fn lemma_needs_refresh_returns_fresh_token<P: AccessTokenProvider>(
    provider: P,
    fresh: Seq<char>,
    r: Result<String, P::Error>,
)
    requires
        provider.spec_access_token() is NeedsRefresh,
        forall|t: Seq<char>| provider.refresh_ok(t) ==> t == fresh,
        forall|e: P::Error| !provider.refresh_err(e),
        refresh_decision_post(provider, r),
    ensures
        r matches Ok(t) && t@ == fresh,
{
}

/// When the provider needs a refresh and its refresh operation can only
/// fail, the decision procedure propagates one of the provider's own errors:
/// the failure is never swallowed or replaced.
pub proof fn lemma_failed_refresh_propagates_error<P: AccessTokenProvider>(
    provider: P,
    r: Result<String, P::Error>,
)
    requires
        provider.spec_access_token() is NeedsRefresh,
        forall|t: Seq<char>| !provider.refresh_ok(t),
        refresh_decision_post(provider, r),
    ensures
        r matches Err(e) && provider.refresh_err(e),
{
}

/// Obtain an access token from an [`AccessTokenProvider`]: read the current
/// credential; if it already is a token, return it at once without invoking
/// the refresh operation; otherwise make a single refresh attempt and return
/// its outcome, success or failure, unchanged. No retries are performed.
pub fn obtain_access_token<P: AccessTokenProvider>(provider: &P) -> (r: Result<
    String,
    P::Error,
>)
    ensures
        refresh_decision_post(*provider, r),
{
    match provider.access_token() {
        AccessToken::Token(token) => Ok(token),
        AccessToken::NeedsRefresh => provider.refresh_token(),
    }
}

/// Obtain an access token from an [`AccessTokenProvider`], wrapping a refresh
/// failure into the caller's own error type through `wrap` (typically an
/// error-enum variant constructor). The decision procedure is that of
/// [`obtain_access_token`]; the inner error is never discarded: a failed
/// refresh yields exactly `wrap` applied to the provider's error.
pub fn obtain_access_token_or_wrap<P: AccessTokenProvider, E, F: FnOnce(P::Error) -> E>(
    provider: &P,
    wrap: F,
) -> (r: Result<String, E>)
    requires
        forall|e: P::Error| provider.refresh_err(e) ==> call_requires(wrap, (e,)),
    ensures
        match provider.spec_access_token() {
            CredentialState::Token { token } => r matches Ok(t) && t@ == token,
            CredentialState::NeedsRefresh => match r {
                Ok(t) => provider.refresh_ok(t@),
                Err(we) => exists|e: P::Error|
                    #[trigger] provider.refresh_err(e) && call_ensures(wrap, (e,), we),
            },
        },
{
    match provider.access_token() {
        AccessToken::Token(token) => Ok(token),
        AccessToken::NeedsRefresh => match provider.refresh_token() {
            Ok(token) => Ok(token),
            Err(e) => {
                let ghost ge = e;
                let we = wrap(e);
                proof {
                    assert(provider.refresh_err(ge) && call_ensures(wrap, (ge,), we));
                }
                Err(we)
            },
        },
    }
}

} // verus!
