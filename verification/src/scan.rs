//! The scan coordinator's decisions: sizing, validation, and the split
//! of the frame pool into transmit and receive halves.
//!
//! A misconfigured size is a construction-time failure: nothing here
//! retries.  The split point is half the pool, independent of the
//! target count; a target batch the transmit half (or the transmit
//! ring) cannot hold is rejected before any engine runs.

use vstd::prelude::*;

use crate::errors::ScanError;
use crate::pool::FrameDesc;

verus! {

/// Whether `n` is a power of two.
pub open spec fn spec_is_pow2(n: int) -> bool
    decreases n,
{
    if n <= 0 {
        false
    } else if n == 1 {
        true
    } else {
        n % 2 == 0 && spec_is_pow2(n / 2)
    }
}

/// Whether `n` is a power of two.
pub fn is_pow2(n: u32) -> (r: bool)
    ensures
        r == spec_is_pow2(n as int),
{
    if n == 0 {
        return false;
    }
    let mut m: u32 = n;
    while m > 1
        invariant
            m >= 1,
            spec_is_pow2(n as int) == spec_is_pow2(m as int),
        decreases m,
    {
        if m % 2 == 1 {
            return false;
        }
        m = m / 2;
    }
    true
}

/// The sizes a scan runs with: ring depths, frame geometry, the poll
/// timeout and the response-drain grace period.
#[derive(Clone, Copy, Debug, PartialEq, Eq)]
pub struct ScanConfig {
    pub rx_q_size: u32,
    pub tx_q_size: u32,
    pub comp_q_size: u32,
    pub fill_q_size: u32,
    pub frame_size: u32,
    pub frame_count: u32,
    pub poll_ms_timeout: i32,
    pub wait_time_secs: u64,
}

/// How many frames the transmit half of the pool gets: half of it.
pub open spec fn spec_n_tx_frames(c: ScanConfig) -> int {
    c.frame_count as int / 2
}

/// How many frames the receive half of the pool gets: the rest.
pub open spec fn spec_n_rx_frames(c: ScanConfig) -> int {
    c.frame_count - c.frame_count as int / 2
}

/// The largest target batch the transmit path can carry: bounded both
/// by the transmit frame set and by the transmit ring's depth.
pub open spec fn spec_tx_capacity(c: ScanConfig) -> int {
    if spec_n_tx_frames(c) <= c.tx_q_size as int {
        spec_n_tx_frames(c)
    } else {
        c.tx_q_size as int
    }
}

/// A coherent configuration: every ring depth and the frame size a
/// power of two, the pool exactly one frame per ring slot of the two
/// socket rings, frames big enough for the longest probe, and the fill
/// ring deep enough to take the whole receive frame set at arming.
pub open spec fn spec_valid_config(c: ScanConfig) -> bool {
    &&& spec_is_pow2(c.rx_q_size as int)
    &&& spec_is_pow2(c.tx_q_size as int)
    &&& spec_is_pow2(c.comp_q_size as int)
    &&& spec_is_pow2(c.fill_q_size as int)
    &&& spec_is_pow2(c.frame_size as int)
    &&& c.frame_size >= 128
    &&& c.frame_count == c.rx_q_size + c.tx_q_size
    &&& spec_n_rx_frames(c) <= c.fill_q_size as int
    &&& c.poll_ms_timeout >= 1
}

impl ScanConfig {
    /// The sizes a scan uses unless told otherwise: 4096-deep socket
    /// rings, an 8192-deep fill ring, 8192 frames of 2048 bytes, a
    /// 100 ms poll timeout and an 8 s grace period.
    pub fn default_config() -> (r: ScanConfig)
        ensures
            r == (ScanConfig {
                rx_q_size: 4096u32,
                tx_q_size: 4096u32,
                comp_q_size: 4096u32,
                fill_q_size: 8192u32,
                frame_size: 2048u32,
                frame_count: 8192u32,
                poll_ms_timeout: 100i32,
                wait_time_secs: 8u64,
            }),
    {
        ScanConfig {
            rx_q_size: 4096,
            tx_q_size: 4096,
            comp_q_size: 4096,
            fill_q_size: 8192,
            frame_size: 2048,
            frame_count: 8192,
            poll_ms_timeout: 100,
            wait_time_secs: 8,
        }
    }

    /// Accepts exactly the coherent configurations.
    pub fn validate(&self) -> (r: Result<(), ScanError>)
        ensures
            r is Ok <==> spec_valid_config(*self),
            r matches Err(e) ==> e == ScanError::BadConfig,
    {
        if !is_pow2(self.rx_q_size) {
            return Err(ScanError::BadConfig);
        }
        if !is_pow2(self.tx_q_size) {
            return Err(ScanError::BadConfig);
        }
        if !is_pow2(self.comp_q_size) {
            return Err(ScanError::BadConfig);
        }
        if !is_pow2(self.fill_q_size) {
            return Err(ScanError::BadConfig);
        }
        if !is_pow2(self.frame_size) {
            return Err(ScanError::BadConfig);
        }
        if self.frame_size < 128 {
            return Err(ScanError::BadConfig);
        }
        if self.rx_q_size > u32::MAX - self.tx_q_size {
            return Err(ScanError::BadConfig);
        }
        if self.frame_count != self.rx_q_size + self.tx_q_size {
            return Err(ScanError::BadConfig);
        }
        let n_tx = self.frame_count / 2;
        if self.frame_count - n_tx > self.fill_q_size {
            return Err(ScanError::BadConfig);
        }
        if self.poll_ms_timeout < 1 {
            return Err(ScanError::BadConfig);
        }
        Ok(())
    }
}

/// How the frame pool is divided for one scan: the first
/// `n_tx_frames` descriptors transmit, the rest receive.
#[derive(Clone, Copy, Debug, PartialEq, Eq)]
pub struct ScanPlan {
    pub n_tx_frames: usize,
    pub n_rx_frames: usize,
}

/// Sizes one scan: accepts exactly the coherent configurations whose
/// transmit path can carry the whole target batch, and hands back the
/// pool split.  Anything else is a construction-time failure.
pub fn plan_scan(c: &ScanConfig, n_targets: usize) -> (r: Result<ScanPlan, ScanError>)
    ensures
        r is Ok <==> spec_valid_config(*c) && n_targets <= spec_tx_capacity(*c),
        r matches Ok(p) ==> p.n_tx_frames == spec_n_tx_frames(*c) && p.n_rx_frames
            == spec_n_rx_frames(*c),
        r matches Err(e) ==> (if !spec_valid_config(*c) {
            e == ScanError::BadConfig
        } else {
            e == (ScanError::PoolTooSmall {
                targets: n_targets,
                capacity: spec_tx_capacity(*c) as usize,
            })
        }),
{
    match c.validate() {
        Ok(()) => {},
        Err(e) => {
            return Err(e);
        },
    }
    let n_tx = (c.frame_count / 2) as usize;
    let n_rx = c.frame_count as usize - n_tx;
    let capacity = if n_tx <= c.tx_q_size as usize {
        n_tx
    } else {
        c.tx_q_size as usize
    };
    if n_targets > capacity {
        return Err(ScanError::PoolTooSmall { targets: n_targets, capacity });
    }
    Ok(ScanPlan { n_tx_frames: n_tx, n_rx_frames: n_rx })
}

/// Splits the pool's descriptors into the disjoint transmit and
/// receive sets: the first `n_tx` descriptors and the rest.  No
/// descriptor is in both, so the two engines never touch the same
/// frame.
pub fn split_descs(descs: Vec<FrameDesc>, n_tx: usize) -> (r: (Vec<FrameDesc>, Vec<FrameDesc>))
    requires
        n_tx <= descs@.len(),
    ensures
        r.0@ == descs@.take(n_tx as int),
        r.1@ == descs@.skip(n_tx as int),
{
    let ghost orig = descs@;
    let mut head = descs;
    let tail = head.split_off(n_tx);
    proof {
        assert(head@ =~= orig.take(n_tx as int));
        assert(tail@ =~= orig.skip(n_tx as int));
    }
    (head, tail)
}

} // verus!
