//! Client for a hosted Postgres backend: request builders for its REST
//! interface and the decoding of the claims a user token carries.
//!
//! A [`Client`] holds the configuration and hands out query builders for a
//! table or a remote procedure. Its `auth` client describes the request for
//! the current user and reads the claims out of the bearer token. Nothing
//! here touches the network: requests are described and built, and sent by
//! the caller.

pub mod auth;
pub mod client;
pub mod codec;
pub mod error;
pub mod header;
pub mod options;
pub mod query;
pub mod token;

pub use client::Client;
pub use codec::JsonObject;
pub use options::{ClientAuthOptions, ClientDbOptions, ClientGlobalOptions};
