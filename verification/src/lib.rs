//! Lineage core: records, tags, automation rules and the hash-chained ledger
//! that ties every generated document back to what it was derived from.

pub mod agentos;
pub mod domain;
pub mod features;
pub mod infra;
pub mod shell;
pub mod text;
