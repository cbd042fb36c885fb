//! Verified core of a scripted game host.
//!
//! The host loads a directory of user scripts, validates them with an
//! external static analyzer, formats them, and drives them through a
//! fixed-resolution, letterboxed render/update loop.  This crate holds the
//! decision logic of that host: the run-state machine, the analyzer-summary
//! parser that gates execution, the letterbox transform and its coordinate
//! mapping, and the tool-provisioning model.  The windowing backend, the
//! embedded interpreter and all file and process I/O live outside, in the
//! surrounding binary, which consults this crate for every decision.

pub mod bridge;
pub mod diagnostics;
pub mod letterbox;
pub mod overlay;
pub mod provision;
pub mod state;
