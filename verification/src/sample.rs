//! Sampling: asking the operating system for block counts and turning its
//! answer into a reading or an error.

use crate::space::{lemma_free_and_used_make_total, DiskSpace, DiskSpaceView, FsStats};
use vstd::prelude::*;

verus! {

/// An error that the operating system reported.
#[derive(Debug, PartialEq, Eq)]
pub struct OsError {
    /// The error number.
    pub code: i32,
    /// The name of the error and what it means, in words.
    pub message: String,
}

/// Why no reading could be taken.
#[derive(Debug, PartialEq, Eq)]
pub enum SampleError {
    /// The operating system refused the query: the path does not exist, may
    /// not be read, or the query itself failed.
    Os(OsError),
    /// The filesystem claims more free blocks than it has blocks.
    Inconsistent(FsStats),
    /// The size of the filesystem in bytes does not fit in 64 bits.
    TooLarge(FsStats),
}

impl SampleError {
    /// The description of the error, for a diagnostic line.
    pub open spec fn message_text(self) -> Seq<char> {
        match self {
            SampleError::Os(error) => error.message@,
            SampleError::Inconsistent(_) => "filesystem reports more free blocks than blocks"@,
            SampleError::TooLarge(_) => "filesystem size in bytes does not fit in 64 bits"@,
        }
    }

    /// The description of the error, for a diagnostic line.
    pub fn message(&self) -> (text: String)
        ensures
            text@ == self.message_text(),
    {
        match self {
            SampleError::Os(error) => error.message.clone(),
            SampleError::Inconsistent(_) => {
                "filesystem reports more free blocks than blocks".to_owned()
            },
            SampleError::TooLarge(_) => {
                "filesystem size in bytes does not fit in 64 bits".to_owned()
            },
        }
    }
}

/// What becomes of an answer of the operating system: its error is passed
/// on, block counts that cannot be turned into byte totals are rejected, and
/// all others give the byte totals they amount to.
pub open spec fn sample_outcome(answer: Result<FsStats, OsError>) -> Result<
    DiskSpaceView,
    SampleError,
> {
    match answer {
        Err(error) => Err(SampleError::Os(error)),
        Ok(stats) => if !stats.consistent() {
            Err(SampleError::Inconsistent(stats))
        } else if !stats.representable() {
            Err(SampleError::TooLarge(stats))
        } else {
            Ok(stats.byte_counts())
        },
    }
}

/// Turns an answer of the operating system into a reading or an error.
pub fn disk_space_from(answer: Result<FsStats, OsError>) -> (outcome: Result<
    DiskSpace,
    SampleError,
>)
    ensures
        match outcome {
            Ok(space) => sample_outcome(answer) == Ok::<DiskSpaceView, SampleError>(space@),
            Err(error) => sample_outcome(answer) == Err::<DiskSpaceView, SampleError>(error),
        },
{
    match answer {
        Err(error) => Err(SampleError::Os(error)),
        Ok(stats) => {
            if !stats.is_consistent() {
                Err(SampleError::Inconsistent(stats))
            } else if !stats.is_representable() {
                Err(SampleError::TooLarge(stats))
            } else {
                Ok(DiskSpace::from_statvfs(stats))
            }
        },
    }
}

/// Asks the operating system about the filesystem that holds `path`.
///
/// The call is `nix::sys::statvfs::statvfs`. From its answer come the number
/// of blocks (`Statvfs::blocks`), the number of free blocks
/// (`Statvfs::blocks_free`) and the size of a block
/// (`Statvfs::fragment_size`), each widened to 64 bits; from its error come
/// the error number and the text that `Errno` displays for it. What the
/// system answers depends on the filesystem at the time of the call, so
/// nothing is claimed about it.
#[verifier::external_body]
fn query_filesystem(path: &str) -> (answer: Result<FsStats, OsError>) {
    match nix::sys::statvfs::statvfs(path) {
        Ok(stat) => Ok(
            FsStats {
                total_blocks: u64::from(stat.blocks()),
                free_blocks: u64::from(stat.blocks_free()),
                block_size: u64::from(stat.fragment_size()),
            },
        ),
        Err(errno) => Err(OsError { code: errno as i32, message: errno.to_string() }),
    }
}

/// Takes a reading of the filesystem that holds `path`, which may name a
/// file or a directory.
///
/// Whether a reading comes back, and which, is for the operating system to
/// say. Whatever it says, a reading is made of whole blocks, so its free and
/// used bytes add up to its total, and block counts are only rejected for the
/// reason that the error names.
pub fn get_disk_space(path: &str) -> (outcome: Result<DiskSpace, SampleError>)
    ensures
        outcome matches Ok(space) ==> space@.free + space@.used == space@.total,
        outcome matches Err(SampleError::Inconsistent(stats)) ==> !stats.consistent(),
        outcome matches Err(SampleError::TooLarge(stats)) ==> stats.consistent()
            && !stats.representable(),
{
    let answer = query_filesystem(path);
    proof {
        if let Ok(stats) = answer {
            if stats.consistent() {
                lemma_free_and_used_make_total(stats);
            }
        }
    }
    disk_space_from(answer)
}

} // verus!
