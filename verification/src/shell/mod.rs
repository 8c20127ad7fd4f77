//! What the desktop shell decides around `agentos` and agent skills:
//! where the `agentos` sidecar is looked for, how its exit is read, how
//! `agentos tick` is registered with the task scheduler, what the browser
//! backend reads from an AI page, and where skill files may be written.

pub mod browser;
pub mod schedule;
pub mod sidecar;
pub mod skill;
