//! Host interface of a stack-based contract virtual machine: storage access,
//! balance queries, block-hash lookups, message calls, contract creation,
//! return-data commits, logs and self-destruction, with their gas and depth rules.
//!
//! Nested execution is left to the caller: `Externalities::call` and
//! `Externalities::create` charge and admit a nested frame and describe it, and
//! `SubCall::finish` and `finish_create` turn that frame's outcome into the result.
pub mod types;
pub mod state;
pub mod substate;
pub mod ext;
pub mod laws;

pub use types::{ActionParams, Address, BytesRef, EnvInfo, Error, H256, LogEntry, OutputPolicy, Schedule};
pub use state::State;
pub use substate::Substate;
pub use ext::{CallStep, CreateRequest, CreateStep, Externalities, SubCall, finish_create};
