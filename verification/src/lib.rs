//! A verified core for provisioning a detection-resistant browser-automation
//! driver: scanning a driver binary for known marker strings, patching the
//! marker windows with random letters, planning the provisioning steps,
//! choosing a launch port, and bounding the connection retry protocol.

use vstd::prelude::*;

pub mod capabilities;
pub mod connector;
pub mod launcher;
pub mod patcher;
pub mod platform;
pub mod provision;
mod rng;
pub mod scanner;

verus! {

/// The terminal failure kinds of the fetch-patch-launch-connect pipeline.
#[derive(Clone, Copy, Debug, PartialEq, Eq, Structural)]
pub enum PipelineError {
    /// The host platform is not one of the recognized classes; fatal, never retried.
    UnsupportedPlatform,
    /// An HTTP fetch (version index or archive) failed.
    Download,
    /// The fetched archive could not be unpacked onto disk.
    Extraction,
    /// The patched binary could not be persisted; the pipeline may still try to launch.
    PatchWrite,
    /// The driver subprocess could not be started.
    Launch,
    /// Every connection attempt in the retry budget failed.
    ConnectionExhausted,
}

} // verus!
