//! Decision logic of an OAuth2 token broker that caches token pairs in an
//! object store, keyed by the application and user named in the incoming
//! authorization code.
//!
//! The handler is a state machine (`handler`): it is fed the results of the
//! storage and provider calls and answers with the next call to make. The
//! calls themselves are made by the program around the library.
//!
//! Claims carried by authorization codes and access tokens are read without
//! checking any signature: they only select the cache entry, and the provider
//! still validates every grant on its side.
//!
//! Two choices are fixed here: token payload segments are read as base64 of
//! the standard alphabet without padding, and a cached access token is renewed
//! once the clock passes its `exp` claim less `EXPIRY_MARGIN` seconds.

mod cache;
mod codec;
mod error;
mod handler;
mod request;

pub use cache::{
    cache_key, contains_key, decimal, decimal_string, is_expired, key_of, token_expired, EXPIRY_MARGIN,
    KEY_PREFIX,
};
pub use codec::{
    access_token_expiry, cached_token_of, expiry_of, extract_identity, identity_of, payload_segment,
    read_cached_token, second_segment, Claims,
};
pub use handler::{
    replay_is_equivalent, response_of, step_keeps_target, step_model, stored_payload_reads_back, target_of,
    Action, ActionView, Event, EventView, Phase, Session, SessionView,
};
pub use error::{make_error, ErrorKind, HandlerError};
pub use request::{code_grant_query, refresh_grant_query, token_url, validate_params, Params, TOKEN_ENDPOINT};
