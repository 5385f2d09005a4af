//! Client core for a music-scrobbling web service.
//!
//! The crate models one track-play event (`Scrobble`), batches of such events
//! (`ScrobbleBatch`), and the `Scrobbler`, which owns the authentication
//! session state and builds the flat string-keyed parameter sets that the
//! transport collaborator (`ApiClient`) sends over the wire. The transport
//! itself — request signing, HTTP, response parsing — is outside this crate:
//! callers supply an `ApiClient` implementation.

pub mod api;
mod clock;
pub mod digits;
pub mod error;
pub mod params;
pub mod scrobble;
pub mod scrobbler;

pub use api::{ApiClient, BatchScrobbleResponse, NowPlayingResponse, ScrobbleResponse,
    SessionResponse};
pub use digits::u64_to_dec_string;
pub use error::{Error, TransportError};
pub use params::ParamMap;
pub use scrobble::{Scrobble, ScrobbleBatch};
pub use scrobbler::{build_batch_params, Scrobbler, MAX_BATCH_SIZE};
