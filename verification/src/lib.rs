//! Loading and querying of signed security-policy rules databases.
//!
//! A rules database is an Ed25519 signature, a small little-endian header
//! and a payload of rule tables. The library checks the signature under a
//! configured public key, builds the tables from the decoded payload and
//! from the JSON lists of the configuration directory, and answers the
//! questions of a telemetry engine: is a path excluded, is a publisher
//! trusted, may a CLI tool access a category, is a domain an allowed CDN.

pub mod category;
pub mod crypto;
pub mod database;
pub mod error;
pub mod header;
pub mod json;
pub mod laws;
pub mod manager;
pub mod model;
pub mod payload;
pub mod policy;
pub mod sources;
pub mod state;
pub mod text;

pub use category::Category;
pub use error::ConfigError;
pub use manager::ConfigManager;
pub use payload::{ExternalLists, FlaggedPath, RulesPayload, SignerEntry};
pub use state::SignerInfo;
