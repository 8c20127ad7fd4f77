//! The domain layer: records, tags, settings, automation rules and the
//! lineage ledger. It depends on nothing else in the crate but `text`.

pub mod automation;
pub mod capture;
pub mod lineage;
pub mod meta;
pub mod mutation;
pub mod ports;
pub mod settings;
pub mod shared;
pub mod tag;
