//! Start-up configuration.

use vstd::prelude::*;

verus! {

/// The path that is watched when none is given: the root filesystem.
pub const DEFAULT_PATH: &'static str = "/";

/// Milliseconds between two readings when no interval is given.
pub const DEFAULT_POLL_INTERVAL: u32 = 1000;

/// What the program was started with. It does not change afterwards.
#[derive(Debug, PartialEq, Eq)]
pub struct AppArgs {
    /// Any file or directory on the filesystem to watch.
    pub path: String,
    /// Milliseconds to wait between two readings.
    pub poll_interval: u32,
}

impl AppArgs {
    /// The configuration made of the two values that were resolved from the
    /// command line, or nothing if either of them is missing.
    pub fn new(path: Option<String>, poll_interval: Option<u32>) -> (args: Option<AppArgs>)
        ensures
            match (path, poll_interval) {
                (Some(path), Some(poll_interval)) => args == Some(
                    (AppArgs { path, poll_interval }),
                ),
                _ => args is None,
            },
    {
        match (path, poll_interval) {
            (Some(path), Some(poll_interval)) => Some(AppArgs { path, poll_interval }),
            _ => None,
        }
    }
}

} // verus!
