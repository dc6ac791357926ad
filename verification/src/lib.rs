//! Authenticated client core for a commerce HTTP API: OAuth2 access tokens
//! with expiry tracking, a single-slot token cache with refresh decisions,
//! and bearer-authenticated request building.

pub mod client;
pub mod error;
pub mod provider;
pub mod region;
pub mod token;

pub use client::CtpClient;
pub use error::Error;
pub use region::Region;
pub use token::Token;
