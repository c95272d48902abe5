//! Verified core of an OAuth 2.0 token-exchange credential issuer (RFC 8693).
//!
//! The issuer exchanges a caller's subject token for a downstream access token, so that a
//! gateway can act on behalf of the end user. The library holds what is decided and computed:
//! which configuration is accepted, who may exchange what at which provider, what the request
//! to the token endpoint carries, and what its answer is turned into. Sending the request, and
//! decoding JSON into the types of the library, is left to the host.
pub mod config;
pub mod issue;
pub mod laws;
pub mod outside;
pub mod plugin;
pub mod reply;
pub mod str_map;
pub mod text;

pub use config::{ConfigError, ProviderConfig, TokenExchangeConfig, TokenExchangeTargetTemplate};
pub use plugin::OAuthTokenExchangePlugin;
