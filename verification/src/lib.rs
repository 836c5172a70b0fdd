//! Stateless session authentication with signed bearer tokens.
//!
//! `auth` holds the claims model and the token codec: issuing a signed token
//! for a subject id and verifying an inbound token against the fixed secret,
//! the fixed algorithm, and the clock. `user_data` holds the identity
//! extractor: from an optional `Authorization` header value to a validated
//! identity or a typed failure, in a mandatory and an optional variant.

pub mod auth;
pub mod user_data;
