//! Block counts as the filesystem reports them, and the byte totals and
//! percentages derived from them.

use vstd::prelude::*;

verus! {

/// What a filesystem reports about its capacity, counted in blocks.
#[derive(Clone, Copy, Debug, PartialEq, Eq)]
pub struct FsStats {
    /// Number of blocks on the filesystem.
    pub total_blocks: u64,
    /// Number of those blocks that are free.
    pub free_blocks: u64,
    /// Size of one block in bytes.
    pub block_size: u64,
}

impl FsStats {
    /// Bytes on the filesystem.
    pub open spec fn total_bytes(self) -> nat {
        (self.total_blocks * self.block_size) as nat
    }

    /// Bytes that are free.
    pub open spec fn free_bytes(self) -> nat {
        (self.free_blocks * self.block_size) as nat
    }

    /// Bytes that are in use. Meaningful for consistent counts only.
    pub open spec fn used_bytes(self) -> nat
        recommends
            self.consistent(),
    {
        ((self.total_blocks - self.free_blocks) * self.block_size) as nat
    }

    /// The counts do not claim more free blocks than there are blocks.
    pub open spec fn consistent(self) -> bool {
        self.free_blocks <= self.total_blocks
    }

    /// The size of the filesystem in bytes fits in 64 bits.
    pub open spec fn representable(self) -> bool {
        self.total_bytes() <= u64::MAX
    }

    /// The byte totals that these counts amount to.
    pub open spec fn byte_counts(self) -> DiskSpaceView
        recommends
            self.consistent(),
    {
        DiskSpaceView {
            free: self.free_bytes(),
            used: self.used_bytes(),
            total: self.total_bytes(),
        }
    }

    /// Whether the counts are consistent.
    pub fn is_consistent(&self) -> (yes: bool)
        ensures
            yes == self.consistent(),
    {
        self.free_blocks <= self.total_blocks
    }

    /// Whether the size of the filesystem in bytes fits in 64 bits.
    pub fn is_representable(&self) -> (yes: bool)
        ensures
            yes == self.representable(),
    {
        self.total_blocks.checked_mul(self.block_size).is_some()
    }
}

/// Free and used bytes split the total between them: nothing is lost to
/// rounding, since all three are multiples of the same block size.
pub proof fn lemma_free_and_used_make_total(stats: FsStats)
    requires
        stats.consistent(),
    ensures
        stats.free_bytes() + stats.used_bytes() == stats.total_bytes(),
        stats.free_bytes() <= stats.total_bytes(),
        stats.used_bytes() <= stats.total_bytes(),
{
    let total = stats.total_blocks as int;
    let free = stats.free_blocks as int;
    let size = stats.block_size as int;
    assert(free * size + (total - free) * size == total * size && 0 <= free * size && 0 <= (total
        - free) * size) by (nonlinear_arith)
        requires
            0 <= free <= total,
            0 <= size,
    ;
}

/// The mathematical content of a [`DiskSpace`]: three byte totals.
pub struct DiskSpaceView {
    /// Free bytes.
    pub free: nat,
    /// Bytes in use.
    pub used: nat,
    /// All bytes, free or in use.
    pub total: nat,
}

impl DiskSpaceView {
    /// Whole percent of the total that is free.
    pub open spec fn percent_free(self) -> nat {
        percent_of(self.free, self.total)
    }

    /// Whole percent of the total that is in use.
    pub open spec fn percent_used(self) -> nat {
        percent_of(self.used, self.total)
    }
}

/// `part` as a percentage of `whole`, rounded down to a whole number. The
/// quotient is taken exactly, over the integers. Nothing at all has no parts
/// to speak of: every percentage of zero is zero.
pub open spec fn percent_of(part: nat, whole: nat) -> nat {
    if whole == 0 {
        0
    } else {
        part * 100 / whole
    }
}

/// A part of a whole is between 0 and 100 percent of it.
pub proof fn lemma_percent_in_range(part: nat, whole: nat)
    requires
        part <= whole,
    ensures
        0 <= percent_of(part, whole) <= 100,
{
    if whole > 0 {
        assert(part * 100 / whole <= 100) by (nonlinear_arith)
            requires
                0 <= part <= whole,
                whole > 0,
        ;
    }
}

/// Every percentage of an empty whole is zero.
pub proof fn lemma_percent_of_nothing(part: nat)
    ensures
        percent_of(part, 0) == 0,
{
}

/// The percentage is the largest whole number of hundredths of `whole` that
/// `part` still reaches: it is rounded down, never to the nearest.
pub proof fn lemma_percent_rounds_down(part: nat, whole: nat)
    requires
        whole > 0,
    ensures
        percent_of(part, whole) * whole <= part * 100 < (percent_of(part, whole) + 1) * whole,
{
    let scaled = (part * 100) as int;
    let w = whole as int;
    assert((scaled / w) * w <= scaled < (scaled / w + 1) * w) by (nonlinear_arith)
        requires
            0 <= scaled,
            0 < w,
    ;
}

/// `part` as a whole percentage of `whole`, rounded down; zero when `whole`
/// is zero.
pub fn percent(part: u64, whole: u64) -> (p: u64)
    requires
        part <= whole,
    ensures
        p == percent_of(part as nat, whole as nat),
        p <= 100,
{
    if whole == 0 {
        0
    } else {
        proof {
            lemma_percent_in_range(part as nat, whole as nat);
        }
        let scaled: u128 = part as u128 * 100;
        let quotient: u128 = scaled / (whole as u128);
        quotient as u64
    }
}

/// One reading of a filesystem's capacity, in bytes.
///
/// Free and used bytes always add up to the total.
#[derive(Clone, Copy, Debug, PartialEq, Eq)]
pub struct DiskSpace {
    free: u64,
    used: u64,
    total: u64,
}

impl View for DiskSpace {
    type V = DiskSpaceView;

    closed spec fn view(&self) -> DiskSpaceView {
        DiskSpaceView { free: self.free as nat, used: self.used as nat, total: self.total as nat }
    }
}

impl DiskSpace {
    #[verifier::type_invariant]
    spec fn partitioned(self) -> bool {
        self.free + self.used == self.total
    }

    /// The byte totals for the given block counts.
    pub fn from_statvfs(stat: FsStats) -> (space: DiskSpace)
        requires
            stat.consistent(),
            stat.representable(),
        ensures
            space@ == stat.byte_counts(),
            space@.free + space@.used == space@.total,
    {
        proof {
            lemma_free_and_used_make_total(stat);
        }
        DiskSpace {
            free: stat.free_blocks * stat.block_size,
            used: (stat.total_blocks - stat.free_blocks) * stat.block_size,
            total: stat.total_blocks * stat.block_size,
        }
    }

    /// Free bytes.
    pub fn free(&self) -> (bytes: u64)
        ensures
            bytes == self@.free,
    {
        self.free
    }

    /// Bytes in use.
    pub fn used(&self) -> (bytes: u64)
        ensures
            bytes == self@.used,
    {
        self.used
    }

    /// All bytes, free or in use.
    pub fn total(&self) -> (bytes: u64)
        ensures
            bytes == self@.total,
            self@.free + self@.used == self@.total,
    {
        proof {
            use_type_invariant(self);
        }
        self.total
    }

    /// Whole percent of the total that is free; zero on an empty filesystem.
    pub fn percent_free(&self) -> (p: u64)
        ensures
            p == self@.percent_free(),
            p <= 100,
    {
        proof {
            use_type_invariant(self);
        }
        percent(self.free, self.total)
    }

    /// Whole percent of the total that is in use; zero on an empty
    /// filesystem.
    pub fn percent_used(&self) -> (p: u64)
        ensures
            p == self@.percent_used(),
            p <= 100,
    {
        proof {
            use_type_invariant(self);
        }
        percent(self.used, self.total)
    }
}

} // verus!
