use vstd::prelude::*;

use crate::error::TransportError;
use crate::params::ParamMap;

verus! {

/// The response to a successful authentication: the session key issued by the
/// service, reusable across calls.
#[derive(Debug)]
pub struct SessionResponse {
    pub key: String,
}

impl View for SessionResponse {
    type V = Seq<char>;

    open spec fn view(&self) -> Seq<char> {
        self.key@
    }
}

/// Acknowledgement of a now-playing status update. The wire-level contents of
/// the acknowledgement belong to the transport collaborator, not to the core.
#[derive(Debug)]
pub struct NowPlayingResponse {}

/// Acknowledgement of one submitted play.
#[derive(Debug)]
pub struct ScrobbleResponse {}

/// Acknowledgement of one submitted batch of plays.
#[derive(Debug)]
pub struct BatchScrobbleResponse {}

/// The abstract API-client collaborator. Implementations own everything below
/// the parameter sets the core hands them: request signing, transport, and
/// response parsing. The core promises nothing about what these calls return;
/// its own contracts hold for every implementation.
pub trait ApiClient {
    /// Stores the username and password to authenticate with.
    fn set_user_credentials(&mut self, username: &str, password: &str);

    /// Stores the pre-issued authentication token to authenticate with.
    fn set_user_token(&mut self, token: &str);

    /// Performs the password authentication round trip with the stored
    /// credentials.
    fn authenticate_with_password(&mut self) -> Result<SessionResponse, TransportError>;

    /// Performs the token authentication round trip with the stored token.
    fn authenticate_with_token(&mut self) -> Result<SessionResponse, TransportError>;

    /// Sends a now-playing status update built from `params`.
    fn send_now_playing(&self, params: &ParamMap) -> Result<NowPlayingResponse, TransportError>;

    /// Sends one play record built from `params`.
    fn send_scrobble(&self, params: &ParamMap) -> Result<ScrobbleResponse, TransportError>;

    /// Sends one batch of play records built from `params`, keyed with the
    /// positional `name[index]` convention.
    fn send_batch_scrobbles(&self, params: &ParamMap) -> Result<
        BatchScrobbleResponse,
        TransportError,
    >;
}

} // verus!
