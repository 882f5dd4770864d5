//! The playback process: options of the child the supervisor spawns.
//!
//! The process itself reads its credential bundle as JSON on standard
//! input, plays through the streaming client and emits raw PCM on
//! standard output; all of that is the caller's plumbing.  Its device
//! identity comes from `ids::device_id` on the device name below.

use vstd::prelude::*;

verus! {

/// Options of the playback process.
#[derive(Clone, Debug)]
pub struct Options {
    /// Name the process announces itself under.
    pub device_name: String,
}

} // verus!
