use vstd::prelude::*;

verus! {

/// The confidential client that talks to the identity provider.
#[derive(Clone, Debug, PartialEq, Eq)]
pub struct ClientData {
    pub client_id: String,
    pub client_secret: String,
    /// The exact URL the provider redirects back to.
    pub redirect_url: String,
}

/// An authorization request that was started and awaits its callback.
#[derive(Clone, Debug, PartialEq, Eq)]
pub struct PendingAuthorization {
    /// The random value sent to the provider as `state`; the key of the request.
    pub correlation_token: String,
    pub client: ClientData,
    pub scopes: Vec<String>,
    /// Milliseconds since the Unix epoch at which the request was started.
    pub created_at: i64,
}

} // verus!

verus! {

/// The parameters that the provider hands back on the callback.
#[derive(Clone, Debug, PartialEq, Eq)]
pub struct CallbackParams {
    pub code: Option<String>,
    pub scope: Option<String>,
    pub state: Option<String>,
}

impl CallbackParams {
    /// All three of `code`, `scope` and `state` are present.
    pub open spec fn complete(&self) -> bool {
        self.code is Some && self.scope is Some && self.state is Some
    }
}

/// Why an authorization attempt ended without a stored token.
#[derive(Clone, Copy, Debug, PartialEq, Eq, Structural)]
pub enum AuthError {
    /// A required callback parameter is missing.
    MalformedCallback,
    /// The callback's state is unknown, expired or already used.
    UnknownOrExpiredState,
    /// The exchange with the provider could not be carried out.
    TransportError,
    /// The provider refused the exchange.
    ProviderRejected,
    /// The finished record could not be stored.
    PersistenceError,
}

/// Why an authorization request could not be opened.
#[derive(Clone, Copy, Debug, PartialEq, Eq, Structural)]
pub enum BeginError {
    /// The generated state is already pending; starting again draws another.
    StateCollision,
    /// The client's redirect URL is not a URL.
    InvalidRedirect,
}

} // verus!
