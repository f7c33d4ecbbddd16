//! Protocol upgrades of a versioned global state: a tracking copy that buffers
//! reads and writes over one state root, the migration of the system contracts
//! on a major version change, and the orchestration that commits it all at once.

pub mod types;
pub mod store;
pub mod tracking_copy;
pub mod upgrade;
pub mod laws;
