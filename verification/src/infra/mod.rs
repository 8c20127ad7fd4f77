//! Adapters of the ports, as far as they decide anything: what the SQLite
//! store writes, how a database is migrated, how a model's answer is read,
//! and the clock, identifiers, digests and credentials they rely on.

pub mod sqlite;
pub mod migrations;
pub mod crypto;
pub mod clock;
pub mod credentials;
pub mod anthropic;
