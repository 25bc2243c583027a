//! Instrumentation of a foreign process, with the decisions verified and the
//! platform kept at arm's length.
//!
//! Every operation that needs the operating system is expressed as a request
//! that the caller performs and answers. The modules of this crate decide
//! which request comes next and what the answers mean:
//!
//! - `handle`: ownership of one handle, closed at most once;
//! - `process` and `search`: finding a process by the name of its primary
//!   module, with `search_proofs` and `search_outcome` for what holds of
//!   every search;
//! - `memory`: pointer chains and the walk that resolves them;
//! - `dll_injector`: the sequence that makes a process load a module;
//! - `text`: names as the platform reports and expects them.

pub mod constants;
pub mod dll_injector;
pub mod error;
pub mod handle;
pub mod memory;
pub mod process;
pub mod search;
pub mod search_outcome;
pub mod search_proofs;
pub mod text;
