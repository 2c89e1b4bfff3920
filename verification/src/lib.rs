//! Orchestration logic for turning a clipped audio timeline into time-aligned
//! text segments: the clip merge plan, the remote client's event-stream parser,
//! the local engine lifecycle rules and the local process supervisor's decisions.
//!
//! Everything here computes on plain values. Spawning processes, touching the
//! file system and talking to the network are left to the caller, which feeds
//! what it observed back into these functions. Where work and decisions
//! alternate, as in a remote segmentation, a local one, the creation of an
//! environment and an installation, the library offers a function from the
//! current phase and the caller's report to the next phase and what to do.

pub mod audio_merge;
pub mod binaries;
pub mod cloud;
pub mod data_files;
pub mod error;
pub mod install;
pub mod json;
pub mod local;
pub mod params;
pub mod path;
pub mod process;
pub mod python_env;
pub mod requirements;
pub mod sse;
pub mod status;
pub mod text;
pub mod types;
