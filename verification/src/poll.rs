//! One cycle of the polling loop: what to write and how long to wait.
//!
//! The loop itself belongs to the program: it writes what a cycle hands it,
//! sleeps, and starts the next cycle. A cycle never asks it to stop.

use crate::config::AppArgs;
use crate::protocol::{format_disk_space, record_text};
use crate::sample::{get_disk_space, SampleError};
use crate::space::{DiskSpace, DiskSpaceView};
use vstd::prelude::*;
use vstd::string::*;

verus! {

/// What a cycle writes, and where.
#[derive(Debug, PartialEq, Eq)]
pub enum Emission {
    /// A record, for standard output.
    Record(String),
    /// One line about a failed reading, for the error stream.
    Diagnostic(String),
}

/// What the loop has to do at the end of a cycle: write, then sleep.
#[derive(Debug, PartialEq, Eq)]
pub struct Cycle {
    /// What to write.
    pub emission: Emission,
    /// Milliseconds to sleep before the next cycle.
    pub sleep_ms: u64,
}

/// The text that reports a failed reading of `path`. The line break that
/// ends it is left to whoever writes it.
pub open spec fn diagnostic_text(path: Seq<char>, message: Seq<char>) -> Seq<char> {
    "Failed to get disk space for "@ + path + ": "@ + message
}

/// Whether `text` is the record of some reading whose free and used bytes
/// add up to its total.
pub open spec fn is_record(text: Seq<char>) -> bool {
    exists|space: DiskSpaceView|
        space.free + space.used == space.total && text == #[trigger] record_text(space)
}

/// The text that reports a failed reading of `path`: the path and what went
/// wrong. The line break that ends it is left to whoever writes it.
pub fn diagnostic(path: &str, error: &SampleError) -> (text: String)
    ensures
        text@ == diagnostic_text(path@, error.message_text()),
{
    let message = error.message();
    let mut text = "Failed to get disk space for ".to_owned();
    text.append(path);
    text.append(": ");
    text.append(message.as_str());
    text
}

/// Ends a cycle whose reading came out as `sample`.
///
/// A reading is written as a record, a failure as a diagnostic line. Either
/// way the loop sleeps for the configured interval and goes on.
pub fn conclude_cycle(args: &AppArgs, sample: Result<DiskSpace, SampleError>) -> (cycle: Cycle)
    ensures
        cycle.sleep_ms == args.poll_interval,
        match sample {
            Ok(space) => cycle.emission matches Emission::Record(text) && text@ == record_text(
                space@,
            ),
            Err(error) => cycle.emission matches Emission::Diagnostic(text) && text@
                == diagnostic_text(args.path@, error.message_text()),
        },
{
    let emission = match sample {
        Ok(space) => Emission::Record(format_disk_space(space)),
        Err(error) => Emission::Diagnostic(diagnostic(args.path.as_str(), &error)),
    };
    Cycle { emission, sleep_ms: args.poll_interval as u64 }
}

/// Runs one cycle: takes a reading of the configured path and ends the cycle
/// with it.
///
/// Whatever the operating system answers, the loop is told to sleep for the
/// configured interval, and what goes to standard output is a well-formed
/// record.
pub fn poll_cycle(args: &AppArgs) -> (cycle: Cycle)
    ensures
        cycle.sleep_ms == args.poll_interval,
        cycle.emission matches Emission::Record(text) ==> is_record(text@),
{
    let sample = get_disk_space(args.path.as_str());
    conclude_cycle(args, sample)
}

} // verus!
