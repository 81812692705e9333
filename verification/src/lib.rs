//! Detects the continuous-integration service a process runs under and gives
//! uniform access to the metadata that the service publishes through
//! environment variables.
//!
//! The library never touches the process environment itself. A caller hands
//! it an [`Env`], a snapshot of environment variables, so every answer is a
//! function of that snapshot and is stated as such in the contracts.

pub mod ci;
pub mod env;
pub mod language;
pub mod lemmas;
pub mod service;
pub mod versions;

pub use ci::Ci;
pub use env::{Env, EnvError};
pub use language::Language;
pub use service::{is_ci, CiService};
