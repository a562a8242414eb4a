//! The HyStart++ engine: round tracking, the conservative slow start (CSS)
//! sub-phase, and the growth allowed on each acknowledged batch.
//!
//! Durations are held as whole nanoseconds in a `u64`; `HyStart::RTT_INFINITE`
//! is the "no sample yet" value. Packet numbers are `u64`.
use vstd::prelude::*;

use crate::classic::{classic_result, ClassicSlowStart, SlowStartResult};

verus! {

/// Mathematical view of the round-tracking state.
pub struct RoundModel {
    pub last_round_min_rtt: u64,
    pub current_round_min_rtt: u64,
    pub rtt_sample_count: usize,
    pub window_end: Option<u64>,
    pub css_baseline_min_rtt: u64,
    pub css_round_count: usize,
}

/// Mathematical view of the engine: its growth limit and its round state.
pub struct EngineModel {
    pub limit: usize,
    pub round: RoundModel,
}

pub open spec fn min_u64(a: u64, b: u64) -> u64 {
    if a <= b {
        a
    } else {
        b
    }
}

/// The round state of a fresh engine: no round open, no samples, not in CSS.
pub open spec fn initial_round() -> RoundModel {
    RoundModel {
        last_round_min_rtt: HyStart::RTT_INFINITE,
        current_round_min_rtt: HyStart::RTT_INFINITE,
        rtt_sample_count: 0,
        window_end: None,
        css_baseline_min_rtt: HyStart::RTT_INFINITE,
        css_round_count: 0,
    }
}

pub open spec fn in_css_spec(m: RoundModel) -> bool {
    m.css_baseline_min_rtt != HyStart::RTT_INFINITE
}

/// A send opens a round unless one is open: the round ends at `pn`, the
/// current minimum becomes the last one, and sampling starts afresh.
pub open spec fn start_round(m: RoundModel, pn: u64) -> RoundModel {
    if m.window_end is Some {
        m
    } else {
        RoundModel {
            window_end: Some(pn),
            last_round_min_rtt: m.current_round_min_rtt,
            current_round_min_rtt: HyStart::RTT_INFINITE,
            rtt_sample_count: 0,
            ..m
        }
    }
}

/// Folds one RTT sample into the open round.
pub open spec fn collect_sample(m: RoundModel, rtt: u64) -> RoundModel {
    RoundModel {
        current_round_min_rtt: min_u64(m.current_round_min_rtt, rtt),
        rtt_sample_count: m.rtt_sample_count.saturating_add(1),
        ..m
    }
}

pub open spec fn enough_samples_spec(m: RoundModel) -> bool {
    m.rtt_sample_count >= HyStart::N_RTT_SAMPLE
}

/// The RTT increase that signals queueing: an eighth of the last round's
/// minimum, clamped to [4 ms, 16 ms].
pub open spec fn rtt_thresh(last_min: u64) -> int {
    let eighth = last_min as int / HyStart::MIN_RTT_DIVISOR as int;
    if eighth < HyStart::MIN_RTT_THRESH as int {
        HyStart::MIN_RTT_THRESH as int
    } else if eighth > HyStart::MAX_RTT_THRESH as int {
        HyStart::MAX_RTT_THRESH as int
    } else {
        eighth
    }
}

/// In CSS, with enough samples, the round's minimum fell below the baseline.
pub open spec fn css_exit_signal(m: RoundModel) -> bool {
    &&& in_css_spec(m)
    &&& enough_samples_spec(m)
    &&& m.current_round_min_rtt < m.css_baseline_min_rtt
}

/// Not in CSS, with enough samples over two rounds, the round's minimum grew
/// by at least the threshold over the last round's minimum.
pub open spec fn css_entry_signal(m: RoundModel) -> bool {
    &&& !in_css_spec(m)
    &&& enough_samples_spec(m)
    &&& m.current_round_min_rtt != HyStart::RTT_INFINITE
    &&& m.last_round_min_rtt != HyStart::RTT_INFINITE
    &&& m.current_round_min_rtt >= m.last_round_min_rtt + rtt_thresh(m.last_round_min_rtt)
}

/// The CSS transitions of one call: leave CSS back to normal growth, or enter it.
pub open spec fn phase_step(m: RoundModel) -> RoundModel {
    if css_exit_signal(m) {
        RoundModel { css_baseline_min_rtt: HyStart::RTT_INFINITE, css_round_count: 0, ..m }
    } else if css_entry_signal(m) {
        RoundModel { css_baseline_min_rtt: m.current_round_min_rtt, ..m }
    } else {
        m
    }
}

/// `limit * max_datagram_size`, saturating at `usize::MAX`.
pub open spec fn growth_cap(limit: usize, max_datagram_size: usize) -> int {
    if limit * max_datagram_size > usize::MAX {
        usize::MAX as int
    } else {
        limit * max_datagram_size
    }
}

/// Growth for one batch: the acked bytes capped by the limit, divided by 4 in CSS.
pub open spec fn growth(limit: usize, new_acked: usize, max_datagram_size: usize, css: bool) -> int {
    let cap = growth_cap(limit, max_datagram_size);
    let raw = if new_acked < cap {
        new_acked as int
    } else {
        cap
    };
    if css {
        raw / HyStart::CSS_GROWTH_DIVISOR as int
    } else {
        raw
    }
}

pub open spec fn closes_round(m: RoundModel, largest_acked: u64) -> bool {
    m.window_end is Some && largest_acked >= m.window_end->0
}

/// Closes the open round when the ack covers its end, counting the round if in CSS.
pub open spec fn round_step(m: RoundModel, largest_acked: u64) -> RoundModel {
    if closes_round(m, largest_acked) {
        RoundModel {
            window_end: None,
            css_round_count: if in_css_spec(m) {
                m.css_round_count.saturating_add(1)
            } else {
                m.css_round_count
            },
            ..m
        }
    } else {
        m
    }
}

/// Slow start must end: a round closed in CSS and brought the CSS round count to 5.
pub open spec fn forced_exit(m: RoundModel, largest_acked: u64) -> bool {
    &&& closes_round(m, largest_acked)
    &&& in_css_spec(m)
    &&& m.css_round_count.saturating_add(1) >= HyStart::CSS_ROUNDS
}

/// The round state after HyStart++ handles an acknowledged batch.
pub open spec fn ack_round(m: RoundModel, rtt: u64, largest_acked: u64) -> RoundModel {
    round_step(phase_step(collect_sample(m, rtt)), largest_acked)
}

/// What HyStart++ returns for an acknowledged batch.
pub open spec fn ack_result(
    limit: usize,
    m: RoundModel,
    new_acked: usize,
    rtt: u64,
    max_datagram_size: usize,
    largest_acked: u64,
) -> SlowStartResult {
    let p = phase_step(collect_sample(m, rtt));
    SlowStartResult {
        cwnd_increase: growth(limit, new_acked, max_datagram_size, in_css_spec(p)) as usize,
        exit_slow_start: forced_exit(p, largest_acked),
    }
}

/// One acknowledged batch as a whole: with a threshold already found
/// (`ssthresh != usize::MAX`) classic slow start decides and the engine is
/// untouched; otherwise HyStart++ runs.
pub open spec fn on_acked(
    e: EngineModel,
    curr_cwnd: usize,
    ssthresh: usize,
    new_acked: usize,
    rtt: u64,
    max_datagram_size: usize,
    largest_acked: u64,
) -> (EngineModel, SlowStartResult) {
    if ssthresh != usize::MAX {
        (e, classic_result(curr_cwnd as int, ssthresh as int, new_acked as int))
    } else {
        (
            EngineModel { round: ack_round(e.round, rtt, largest_acked), ..e },
            ack_result(e.limit, e.round, new_acked, rtt, max_datagram_size, largest_acked),
        )
    }
}

/// Round-tracking state of one HyStart++ engine.
#[derive(Debug, Clone, Copy)]
pub struct State {
    last_round_min_rtt: u64,
    current_round_min_rtt: u64,
    rtt_sample_count: usize,
    window_end: Option<u64>,
    css_baseline_min_rtt: u64,
    css_round_count: usize,
}

impl View for State {
    type V = RoundModel;

    closed spec fn view(&self) -> RoundModel {
        RoundModel {
            last_round_min_rtt: self.last_round_min_rtt,
            current_round_min_rtt: self.current_round_min_rtt,
            rtt_sample_count: self.rtt_sample_count,
            window_end: self.window_end,
            css_baseline_min_rtt: self.css_baseline_min_rtt,
            css_round_count: self.css_round_count,
        }
    }
}

impl State {
    /// No round open, no samples, not in CSS.
    pub fn new() -> (r: Self)
        ensures
            r@ == initial_round(),
    {
        State {
            last_round_min_rtt: HyStart::RTT_INFINITE,
            current_round_min_rtt: HyStart::RTT_INFINITE,
            rtt_sample_count: 0,
            window_end: None,
            css_baseline_min_rtt: HyStart::RTT_INFINITE,
            css_round_count: 0,
        }
    }
}

/// The HyStart++ slow-start engine.
#[derive(Debug)]
pub struct HyStart {
    limit: usize,
    current: State,
}

impl View for HyStart {
    type V = EngineModel;

    closed spec fn view(&self) -> EngineModel {
        EngineModel { limit: self.limit, round: self.current@ }
    }
}

impl HyStart {
    /// Duration value meaning "no sample": larger than every real RTT.
    pub const RTT_INFINITE: u64 = 0xffff_ffff_ffff_ffff;

    /// Lower bound of the RTT-increase threshold: 4 ms, in nanoseconds.
    pub const MIN_RTT_THRESH: u64 = 4_000_000;

    /// Upper bound of the RTT-increase threshold: 16 ms, in nanoseconds.
    pub const MAX_RTT_THRESH: u64 = 16_000_000;

    /// The threshold is the last round's minimum RTT divided by this.
    pub const MIN_RTT_DIVISOR: u64 = 8;

    /// Samples a round needs before the CSS transitions are considered.
    pub const N_RTT_SAMPLE: usize = 8;

    /// Growth is divided by this while in CSS.
    pub const CSS_GROWTH_DIVISOR: usize = 4;

    /// Rounds spent in CSS before slow start must end.
    pub const CSS_ROUNDS: usize = 5;

    /// Growth limit, in datagrams per acknowledged batch, without pacing.
    pub const NON_PACED_L: usize = 8;

    /// The engine's invariant: a limit of one of the two kinds, and no CSS
    /// rounds counted outside CSS.
    pub open spec fn wf(&self) -> bool {
        &&& (self@.limit == Self::NON_PACED_L || self@.limit == usize::MAX)
        &&& (!in_css_spec(self@.round) ==> self@.round.css_round_count == 0)
    }

    /// A new engine; with pacing, growth per batch is unbounded, else 8 datagrams.
    pub fn new(pacing: bool) -> (r: Self)
        ensures
            r.wf(),
            r@.limit == (if pacing {
                usize::MAX
            } else {
                Self::NON_PACED_L
            }),
            r@.round == initial_round(),
    {
        let limit = if pacing {
            usize::MAX
        } else {
            Self::NON_PACED_L
        };
        HyStart { limit, current: State::new() }
    }

    /// Whether the engine is in conservative slow start.
    pub fn in_css(&self) -> (r: bool)
        ensures
            r == in_css_spec(self@.round),
    {
        self.current.css_baseline_min_rtt != Self::RTT_INFINITE
    }

    /// Folds an RTT sample into the open round.
    fn collect_rtt_sample(&mut self, rtt: u64)
        ensures
            final(self)@ == (EngineModel { round: collect_sample(old(self)@.round, rtt), ..old(self)@ }),
    {
        if rtt < self.current.current_round_min_rtt {
            self.current.current_round_min_rtt = rtt;
        }
        self.current.rtt_sample_count = self.current.rtt_sample_count.saturating_add(1);
    }

    /// Counts a round spent in CSS; true once the count reaches `CSS_ROUNDS`.
    fn maybe_exit_to_ca(&mut self) -> (r: bool)
        ensures
            final(self)@ == (EngineModel {
                round: RoundModel {
                    css_round_count: old(self)@.round.css_round_count.saturating_add(1),
                    ..old(self)@.round
                },
                ..old(self)@
            }),
            r == (old(self)@.round.css_round_count.saturating_add(1) >= Self::CSS_ROUNDS),
    {
        self.current.css_round_count = self.current.css_round_count.saturating_add(1);
        self.current.css_round_count >= Self::CSS_ROUNDS
    }

    /// Growth for a batch: the acked bytes capped at `limit * max_datagram_size`
    /// (saturating), divided by `CSS_GROWTH_DIVISOR` in CSS.
    fn calc_cwnd_increase(&self, new_acked: usize, max_datagram_size: usize, css: bool) -> (r:
        usize)
        ensures
            r == growth(self@.limit, new_acked, max_datagram_size, css),
    {
        let cap = match self.limit.checked_mul(max_datagram_size) {
            Some(p) => p,
            None => usize::MAX,
        };
        let mut cwnd_increase = if new_acked < cap {
            new_acked
        } else {
            cap
        };
        if css {
            cwnd_increase = cwnd_increase / Self::CSS_GROWTH_DIVISOR;
        }
        cwnd_increase
    }

    /// Whether the open round has `N_RTT_SAMPLE` samples.
    fn enough_samples(&self) -> (r: bool)
        ensures
            r == enough_samples_spec(self@.round),
    {
        self.current.rtt_sample_count >= Self::N_RTT_SAMPLE
    }

    /// Opens a round ending at `sent_pn` unless one is open.
    fn maybe_start_new_round(&mut self, sent_pn: u64)
        ensures
            final(self)@ == (EngineModel { round: start_round(old(self)@.round, sent_pn), ..old(self)@ }),
    {
        if self.current.window_end.is_some() {
            return ;
        }
        self.current.window_end = Some(sent_pn);
        self.current.last_round_min_rtt = self.current.current_round_min_rtt;
        self.current.current_round_min_rtt = Self::RTT_INFINITE;
        self.current.rtt_sample_count = 0;
    }

    /// The end of the open round, if one is open.
    pub fn window_end(&self) -> (r: Option<u64>)
        ensures
            r == self@.round.window_end,
    {
        self.current.window_end
    }

    /// Samples collected in the open round.
    pub fn rtt_sample_count(&self) -> (r: usize)
        ensures
            r == self@.round.rtt_sample_count,
    {
        self.current.rtt_sample_count
    }

    /// Smallest RTT sample of the open round, in nanoseconds.
    pub fn current_round_min_rtt(&self) -> (r: u64)
        ensures
            r == self@.round.current_round_min_rtt,
    {
        self.current.current_round_min_rtt
    }

    /// Rounds completed while in CSS.
    pub fn css_round_count(&self) -> (r: usize)
        ensures
            r == self@.round.css_round_count,
    {
        self.current.css_round_count
    }

    /// A packet was sent: opens a round ending at `sent_pn` unless one is open.
    pub fn on_packet_sent(&mut self, sent_pn: u64)
        requires
            old(self).wf(),
        ensures
            final(self).wf(),
            final(self)@ == (EngineModel { round: start_round(old(self)@.round, sent_pn), ..old(self)@ }),
            old(self)@.round.window_end is Some ==> final(self)@ == old(self)@,
    {
        self.maybe_start_new_round(sent_pn);
    }

    /// A batch of packets was acknowledged. `ssthresh` is `usize::MAX` while no
    /// threshold has been found; otherwise classic slow start decides and the
    /// engine is left as it was. `latest_rtt` is the latest RTT sample, in nanoseconds.
    pub fn on_packets_acked(
        &mut self,
        curr_cwnd: usize,
        ssthresh: usize,
        new_acked: usize,
        latest_rtt: u64,
        max_datagram_size: usize,
        largest_acked: u64,
    ) -> (r: SlowStartResult)
        requires
            old(self).wf(),
            ssthresh >= curr_cwnd,
        ensures
            final(self).wf(),
            (final(self)@, r) == on_acked(
                old(self)@,
                curr_cwnd,
                ssthresh,
                new_acked,
                latest_rtt,
                max_datagram_size,
                largest_acked,
            ),
    {
        if ssthresh != usize::MAX {
            return ClassicSlowStart::new().on_packets_acked(
                curr_cwnd,
                ssthresh,
                new_acked,
                latest_rtt,
                max_datagram_size,
                largest_acked,
            );
        }
        self.collect_rtt_sample(latest_rtt);
        // Leaving and entering CSS are both judged on the phase the batch
        // found, so one batch never does both.
        let was_in_css = self.in_css();
        if was_in_css && self.enough_samples() && self.current.current_round_min_rtt
            < self.current.css_baseline_min_rtt {
            self.current.css_baseline_min_rtt = Self::RTT_INFINITE;
            self.current.css_round_count = 0;
        }
        if !was_in_css && self.enough_samples() && self.current.current_round_min_rtt
            != Self::RTT_INFINITE && self.current.last_round_min_rtt != Self::RTT_INFINITE {
            let last = self.current.last_round_min_rtt;
            let eighth = last / Self::MIN_RTT_DIVISOR;
            let rtt_thresh = if eighth < Self::MIN_RTT_THRESH {
                Self::MIN_RTT_THRESH
            } else if eighth > Self::MAX_RTT_THRESH {
                Self::MAX_RTT_THRESH
            } else {
                eighth
            };
            let cur = self.current.current_round_min_rtt;
            // `last + rtt_thresh` may not fit in a u64; compare the difference.
            if cur >= last && cur - last >= rtt_thresh {
                self.current.css_baseline_min_rtt = cur;
            }
        }
        let mut exit_slow_start = false;
        let css = self.in_css();
        let cwnd_increase = self.calc_cwnd_increase(new_acked, max_datagram_size, css);
        if let Some(window_end) = self.current.window_end {
            if largest_acked >= window_end {
                self.current.window_end = None;
                if self.in_css() {
                    exit_slow_start = self.maybe_exit_to_ca();
                }
            }
        }
        SlowStartResult { cwnd_increase, exit_slow_start }
    }
}

} // verus!
