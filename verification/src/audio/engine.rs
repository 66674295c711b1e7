//! Stream planning for the real-time engine: block size, fixed driver
//! buffer, ring buffer capacities and resampling.
//!
//! The engine's callbacks only move samples through two ring buffers; a
//! processing thread pulls a block whenever one is available, runs the chain
//! and pushes the result, resampling to the output rate when it differs.
//! When the input ring overruns, the oldest samples are dropped; when the
//! output ring runs dry, silence is played.

use vstd::prelude::*;

verus! {

/// The block size used when the configuration leaves it to the driver.
pub const DEFAULT_BLOCK: usize = 256;

/// How the engine's streams and buffers are set up.
#[derive(Debug, Clone, Copy, PartialEq, Eq, Structural)]
pub struct StreamPlan {
    /// The buffer size requested from the driver; `None` lets it choose.
    pub fixed_buffer: Option<u32>,
    /// The samples processed per block.
    pub block_size: usize,
    /// The capacity of the input ring buffer, in samples.
    pub input_capacity: usize,
    /// The capacity of the output ring buffer, in samples.
    pub output_capacity: usize,
    /// Whether the processed signal is resampled to the output rate.
    pub resample: bool,
}

/// The block size for a configured buffer size (0 for the default).
pub open spec fn block_size_for(buffer_size: usize) -> usize {
    if buffer_size > 0 {
        buffer_size
    } else {
        DEFAULT_BLOCK
    }
}

/// A ring buffer holds about half a second at `rate`, and never less than
/// eight blocks.
pub open spec fn ring_capacity(rate: u32, block_size: usize) -> int {
    let half_second: int = (rate / 2) as int;
    let eight_blocks: int = block_size * 8;
    if half_second >= eight_blocks {
        half_second
    } else {
        eight_blocks
    }
}

/// How many of the oldest buffered input samples to drop: none while the
/// input ring has room; once it is full (an overrun), all but the newest
/// block.
pub open spec fn stale_samples(available: usize, capacity: usize, block_size: usize) -> usize {
    if available >= capacity && available > block_size {
        (available - block_size) as usize
    } else {
        0
    }
}

impl StreamPlan {
    /// The plan for a configured buffer size and the devices' sample rates.
    /// A buffer size of 0 leaves the driver buffer to the driver and
    /// processes blocks of `DEFAULT_BLOCK`; any other size is requested from
    /// the driver (as its low 32 bits) and used as block size.
    pub fn new(buffer_size: usize, input_rate: u32, output_rate: u32) -> (r: StreamPlan)
        requires
            buffer_size * 8 <= usize::MAX,
        ensures
            r.fixed_buffer == (if buffer_size > 0 {
                Some(buffer_size as u32)
            } else {
                None
            }),
            r.block_size == block_size_for(buffer_size),
            buffer_size > 0 ==> r.block_size == buffer_size,
            buffer_size == 0 ==> r.block_size == DEFAULT_BLOCK,
            r.input_capacity == ring_capacity(input_rate, r.block_size),
            r.output_capacity == ring_capacity(output_rate, r.block_size),
            r.resample == (input_rate != output_rate),
    {
        let fixed_buffer = if buffer_size > 0 {
            Some(buffer_size as u32)
        } else {
            None
        };
        let block_size: usize = if buffer_size > 0 {
            buffer_size
        } else {
            DEFAULT_BLOCK
        };
        let eight_blocks: usize = block_size * 8;
        let in_half: usize = (input_rate / 2) as usize;
        let out_half: usize = (output_rate / 2) as usize;
        StreamPlan {
            fixed_buffer,
            block_size,
            input_capacity: if in_half >= eight_blocks {
                in_half
            } else {
                eight_blocks
            },
            output_capacity: if out_half >= eight_blocks {
                out_half
            } else {
                eight_blocks
            },
            resample: input_rate != output_rate,
        }
    }

    /// Whether `available` buffered input samples make a whole block.
    pub fn block_ready(&self, available: usize) -> (b: bool)
        ensures
            b == (available >= self.block_size),
    {
        available >= self.block_size
    }

    /// How many of the oldest buffered input samples to drop when
    /// `available` samples are buffered: after an overrun the processing
    /// goes on with the newest block, and the older samples are dropped.
    pub fn stale_input(&self, available: usize) -> (n: usize)
        ensures
            n == stale_samples(available, self.input_capacity, self.block_size),
            n <= available,
    {
        if available >= self.input_capacity && available > self.block_size {
            available - self.block_size
        } else {
            0
        }
    }
}

/// The block size follows the configuration: a nonzero buffer size is
/// processed in blocks of exactly that size, whether smaller or larger than
/// the default, and only a size of 0 falls back to `DEFAULT_BLOCK`.
pub proof fn law_block_size_follows_configuration(buffer_size: usize)
    ensures
        buffer_size > 0 ==> block_size_for(buffer_size) == buffer_size,
        buffer_size == 0 ==> block_size_for(buffer_size) == 256,
        block_size_for(buffer_size) > 0,
{
}

/// A ring buffer holds at least half a second of samples and at least eight
/// blocks, and no more than the larger of the two.
pub proof fn law_ring_capacity_bounds(rate: u32, block_size: usize)
    ensures
        ring_capacity(rate, block_size) >= rate / 2,
        ring_capacity(rate, block_size) >= block_size * 8,
        ring_capacity(rate, block_size) == rate / 2 || ring_capacity(rate, block_size)
            == block_size * 8,
{
}

/// On an overrun of the input ring only the newest block is kept; while the
/// ring has room, nothing is dropped.
pub proof fn law_overrun_keeps_newest_block(available: usize, capacity: usize, block_size: usize)
    ensures
        available < capacity ==> stale_samples(available, capacity, block_size) == 0,
        available >= capacity && available > block_size ==> available - stale_samples(
            available,
            capacity,
            block_size,
        ) == block_size,
        stale_samples(available, capacity, block_size) <= available,
{
}

} // verus!
