//! Use cases, one module per feature. They depend on the domain ports only.

pub mod automation;
pub mod capture;
pub mod lineage;
pub mod meta;
pub mod mutation;
pub mod settings;
