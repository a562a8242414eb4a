//! The outcome of one acknowledged batch, and classic (non-hybrid) slow start.
use vstd::prelude::*;

verus! {

/// What a slow-start algorithm decides for one acknowledged batch.
#[derive(Debug, Clone, Copy, PartialEq, Eq, Structural)]
pub struct SlowStartResult {
    /// Bytes by which the congestion window grows.
    pub cwnd_increase: usize,
    /// Whether the caller must leave slow start now.
    pub exit_slow_start: bool,
}

/// Classic slow start: the window grows by the acknowledged bytes, but never
/// past the slow-start threshold, and slow start ends once the threshold is reached.
pub open spec fn classic_result(curr_cwnd: int, ssthresh: int, new_acked: int) -> SlowStartResult
    recommends
        curr_cwnd <= ssthresh,
{
    let inc = if new_acked < ssthresh - curr_cwnd {
        new_acked
    } else {
        ssthresh - curr_cwnd
    };
    SlowStartResult { cwnd_increase: inc as usize, exit_slow_start: curr_cwnd + inc == ssthresh }
}

/// Classic (non-hybrid) slow start. It keeps no state.
#[derive(Debug, Default, Clone, Copy)]
pub struct ClassicSlowStart {}

impl ClassicSlowStart {
    /// Classic slow start needs no configuration.
    pub fn new() -> Self {
        ClassicSlowStart {  }
    }

    /// Growth for one acknowledged batch. The RTT sample, datagram size and
    /// largest acknowledged packet number play no part in classic slow start.
    pub fn on_packets_acked(
        &self,
        curr_cwnd: usize,
        ssthresh: usize,
        new_acked: usize,
        _rtt_nanos: u64,
        _max_datagram_size: usize,
        _largest_acked: u64,
    ) -> (r: SlowStartResult)
        requires
            ssthresh >= curr_cwnd,
        ensures
            r == classic_result(curr_cwnd as int, ssthresh as int, new_acked as int),
    {
        let room = ssthresh - curr_cwnd;
        let cwnd_increase = if new_acked < room {
            new_acked
        } else {
            room
        };
        SlowStartResult { cwnd_increase, exit_slow_start: cwnd_increase == room }
    }
}

} // verus!
