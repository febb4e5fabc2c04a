//! Disk capacity readings for a status bar.
//!
//! The library turns the block counts that the operating system reports for a
//! mounted filesystem into byte totals and whole percentages, and renders them
//! as the line-oriented `key|type|value` records that a status-bar host reads.
//!
//! - [`config`]: what the program is started with.
//! - [`sample`]: asking the operating system, and what becomes of its answer.
//! - [`space`]: block counts, byte totals and percentages.
//! - [`decimal`]: numbers as decimal text.
//! - [`protocol`]: the record that is written for a reading.
//! - [`poll`]: one cycle of the polling loop.

pub mod config;
pub mod decimal;
pub mod poll;
pub mod protocol;
pub mod sample;
pub mod space;

pub use config::{AppArgs, DEFAULT_PATH, DEFAULT_POLL_INTERVAL};
pub use decimal::decimal_string;
pub use poll::{conclude_cycle, diagnostic, poll_cycle, Cycle, Emission};
pub use protocol::format_disk_space;
pub use sample::{disk_space_from, get_disk_space, OsError, SampleError};
pub use space::{percent, DiskSpace, FsStats};
