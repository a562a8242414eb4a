use hystart::classic::{ClassicSlowStart, SlowStartResult};
use hystart::engine::{HyStart, State};

const MS: u64 = 1_000_000;
const MDS: usize = 1200;
const NO_THRESH: usize = usize::MAX;

fn ack(h: &mut HyStart, new_acked: usize, rtt: u64, largest_acked: u64) -> SlowStartResult {
    h.on_packets_acked(10_000, NO_THRESH, new_acked, rtt, MDS, largest_acked)
}

/// Opens a round ending at `end` and acks it with eight samples of `rtt`,
/// the last of which covers `end`. Returns the eight results.
fn full_round(h: &mut HyStart, end: u64, rtt: u64) -> Vec<SlowStartResult> {
    h.on_packet_sent(end);
    let mut out = Vec::new();
    for i in 0..8u64 {
        let largest = if i == 7 { end } else { end - 8 + i };
        out.push(ack(h, 1200, rtt, largest));
    }
    out
}

#[test]
fn new_engine_starts_outside_css_with_no_round() {
    let h = HyStart::new(false);
    assert!(!h.in_css());
    assert_eq!(h.window_end(), None);
    assert_eq!(h.rtt_sample_count(), 0);
    assert_eq!(h.current_round_min_rtt(), HyStart::RTT_INFINITE);
    assert_eq!(h.css_round_count(), 0);
    let _ = State::new();
}

#[test]
fn send_opens_round_once() {
    let mut h = HyStart::new(false);
    h.on_packet_sent(5);
    assert_eq!(h.window_end(), Some(5));
    ack(&mut h, 1200, 40 * MS, 1);
    ack(&mut h, 1200, 30 * MS, 2);
    h.on_packet_sent(6);
    h.on_packet_sent(7);
    assert_eq!(h.window_end(), Some(5));
    assert_eq!(h.rtt_sample_count(), 2);
    assert_eq!(h.current_round_min_rtt(), 30 * MS);
}

#[test]
fn round_closes_and_next_send_resets_sampling() {
    let mut h = HyStart::new(false);
    h.on_packet_sent(3);
    ack(&mut h, 1200, 40 * MS, 3);
    assert_eq!(h.window_end(), None);
    // the sample of the closing ack still counted
    assert_eq!(h.rtt_sample_count(), 1);
    h.on_packet_sent(9);
    assert_eq!(h.window_end(), Some(9));
    assert_eq!(h.rtt_sample_count(), 0);
    assert_eq!(h.current_round_min_rtt(), HyStart::RTT_INFINITE);
}

#[test]
fn round_min_rtt_only_falls() {
    let mut h = HyStart::new(false);
    h.on_packet_sent(100);
    ack(&mut h, 1200, 50 * MS, 1);
    assert_eq!(h.current_round_min_rtt(), 50 * MS);
    ack(&mut h, 1200, 80 * MS, 2);
    assert_eq!(h.current_round_min_rtt(), 50 * MS);
    ack(&mut h, 1200, 30 * MS, 3);
    assert_eq!(h.current_round_min_rtt(), 30 * MS);
}

#[test]
fn css_entered_on_rtt_rise() {
    let mut h = HyStart::new(false);
    let r1 = full_round(&mut h, 10, 50 * MS);
    assert!(r1.iter().all(|r| r.cwnd_increase == 1200 && !r.exit_slow_start));
    assert!(!h.in_css());
    let r2 = full_round(&mut h, 20, 70 * MS);
    for r in &r2[..7] {
        assert_eq!(r.cwnd_increase, 1200);
    }
    assert!(h.in_css());
    assert_eq!(r2[7].cwnd_increase, 1200 / 4);
    assert!(!r2[7].exit_slow_start);
    // the round that entered CSS was closed in CSS
    assert_eq!(h.css_round_count(), 1);
}

#[test]
fn css_entry_growth_capped_by_limit() {
    let mut h = HyStart::new(false);
    full_round(&mut h, 10, 50 * MS);
    h.on_packet_sent(20);
    for i in 0..7u64 {
        ack(&mut h, 1200, 70 * MS, 12 + i);
    }
    let r = ack(&mut h, 20_000, 70 * MS, 20);
    assert!(h.in_css());
    assert_eq!(r.cwnd_increase, 8 * 1200 / 4);
}

#[test]
fn css_not_entered_below_threshold() {
    let mut h = HyStart::new(false);
    full_round(&mut h, 10, 50 * MS);
    h.on_packet_sent(20);
    for i in 0..7u64 {
        ack(&mut h, 1200, 52 * MS, 12 + i);
    }
    let r = ack(&mut h, 20_000, 52 * MS, 20);
    assert!(!h.in_css());
    assert_eq!(r.cwnd_increase, 8 * 1200);
    assert!(!r.exit_slow_start);
}

#[test]
fn css_needs_enough_samples() {
    let mut h = HyStart::new(false);
    full_round(&mut h, 10, 50 * MS);
    h.on_packet_sent(20);
    for i in 0..7u64 {
        ack(&mut h, 1200, 90 * MS, 12 + i);
    }
    assert!(!h.in_css());
    ack(&mut h, 1200, 90 * MS, 19);
    assert!(h.in_css());
}

#[test]
fn threshold_clamped_low() {
    // 20 ms / 8 = 2.5 ms, raised to 4 ms
    let mut h = HyStart::new(false);
    full_round(&mut h, 10, 20 * MS);
    full_round(&mut h, 20, 24 * MS - 1);
    assert!(!h.in_css());
    let mut h = HyStart::new(false);
    full_round(&mut h, 10, 20 * MS);
    full_round(&mut h, 20, 24 * MS);
    assert!(h.in_css());
}

#[test]
fn threshold_clamped_high() {
    // 200 ms / 8 = 25 ms, lowered to 16 ms
    let mut h = HyStart::new(false);
    full_round(&mut h, 10, 200 * MS);
    full_round(&mut h, 20, 216 * MS - 1);
    assert!(!h.in_css());
    let mut h = HyStart::new(false);
    full_round(&mut h, 10, 200 * MS);
    full_round(&mut h, 20, 216 * MS);
    assert!(h.in_css());
}

#[test]
fn threshold_in_range_is_an_eighth() {
    // 50 ms / 8 = 6.25 ms
    let mut h = HyStart::new(false);
    full_round(&mut h, 10, 50 * MS);
    full_round(&mut h, 20, 56_250_000 - 1);
    assert!(!h.in_css());
    let mut h = HyStart::new(false);
    full_round(&mut h, 10, 50 * MS);
    full_round(&mut h, 20, 56_250_000);
    assert!(h.in_css());
}

#[test]
fn fifth_css_round_forces_exit() {
    let mut h = HyStart::new(false);
    full_round(&mut h, 10, 50 * MS);
    let r = full_round(&mut h, 20, 70 * MS);
    assert!(h.in_css());
    assert!(!r[7].exit_slow_start);
    assert_eq!(h.css_round_count(), 1);
    for (k, end) in [(2usize, 30u64), (3, 40), (4, 50)] {
        let r = full_round(&mut h, end, 70 * MS);
        assert!(r.iter().all(|x| !x.exit_slow_start && x.cwnd_increase == 300));
        assert_eq!(h.css_round_count(), k);
    }
    let r = full_round(&mut h, 60, 70 * MS);
    assert!(r[..7].iter().all(|x| !x.exit_slow_start));
    assert!(r[7].exit_slow_start);
    assert_eq!(h.css_round_count(), 5);
    // CSS itself is not left on the forced exit
    assert!(h.in_css());
}

#[test]
fn css_left_when_rtt_falls_below_baseline() {
    let mut h = HyStart::new(false);
    full_round(&mut h, 10, 50 * MS);
    full_round(&mut h, 20, 70 * MS);
    full_round(&mut h, 30, 70 * MS);
    assert_eq!(h.css_round_count(), 2);
    h.on_packet_sent(40);
    for i in 0..7u64 {
        let r = ack(&mut h, 1200, 60 * MS, 32 + i);
        assert_eq!(r.cwnd_increase, 300);
        assert!(h.in_css());
    }
    let r = ack(&mut h, 1200, 60 * MS, 39);
    assert!(!h.in_css());
    assert_eq!(h.css_round_count(), 0);
    assert_eq!(r.cwnd_increase, 1200);
    assert!(!r.exit_slow_start);
    // the round then closes outside CSS
    let r = ack(&mut h, 1200, 60 * MS, 40);
    assert_eq!(h.css_round_count(), 0);
    assert!(!r.exit_slow_start);
}

#[test]
fn leaving_css_does_not_reenter_in_same_call() {
    let mut h = HyStart::new(false);
    full_round(&mut h, 10, 50 * MS);
    // enter CSS with a 100 ms baseline
    full_round(&mut h, 20, 100 * MS);
    assert!(h.in_css());
    // a short round in CSS with a 50 ms minimum: too few samples to leave CSS
    h.on_packet_sent(30);
    ack(&mut h, 1200, 50 * MS, 28);
    ack(&mut h, 1200, 50 * MS, 29);
    ack(&mut h, 1200, 50 * MS, 30);
    assert!(h.in_css());
    assert_eq!(h.css_round_count(), 2);
    // next round at 70 ms: below the 100 ms baseline, and at least 6.25 ms
    // above the last round's 50 ms
    h.on_packet_sent(40);
    for i in 0..7u64 {
        ack(&mut h, 1200, 70 * MS, 32 + i);
    }
    assert!(h.in_css());
    let r = ack(&mut h, 1200, 70 * MS, 39);
    assert!(!h.in_css());
    assert_eq!(h.css_round_count(), 0);
    assert_eq!(r.cwnd_increase, 1200);
    // the following batch, judged from outside CSS, enters it again
    let r = ack(&mut h, 1200, 70 * MS, 40);
    assert!(h.in_css());
    assert_eq!(r.cwnd_increase, 300);
    assert_eq!(h.css_round_count(), 1);
}

#[test]
fn fallback_is_classic_slow_start() {
    let mut h = HyStart::new(false);
    h.on_packet_sent(10);
    ack(&mut h, 1200, 50 * MS, 1);
    let r = h.on_packets_acked(5000, 10_000, 3000, 20 * MS, MDS, 10);
    assert_eq!(r, SlowStartResult { cwnd_increase: 3000, exit_slow_start: false });
    let r = h.on_packets_acked(5000, 10_000, 6000, 20 * MS, MDS, 10);
    assert_eq!(r, SlowStartResult { cwnd_increase: 5000, exit_slow_start: true });
    // the engine is untouched
    assert_eq!(h.rtt_sample_count(), 1);
    assert_eq!(h.current_round_min_rtt(), 50 * MS);
    assert_eq!(h.window_end(), Some(10));
    let c = ClassicSlowStart::new().on_packets_acked(5000, 10_000, 3000, 20 * MS, MDS, 10);
    assert_eq!(c, SlowStartResult { cwnd_increase: 3000, exit_slow_start: false });
}

#[test]
fn fallback_ignores_css_state() {
    let mut h = HyStart::new(false);
    full_round(&mut h, 10, 50 * MS);
    full_round(&mut h, 20, 70 * MS);
    assert!(h.in_css());
    let r = h.on_packets_acked(4000, 9000, 2000, 70 * MS, MDS, 30);
    assert_eq!(r, SlowStartResult { cwnd_increase: 2000, exit_slow_start: false });
    let r = h.on_packets_acked(8000, 9000, 2000, 70 * MS, MDS, 30);
    assert_eq!(r, SlowStartResult { cwnd_increase: 1000, exit_slow_start: true });
}

#[test]
fn classic_at_threshold_grows_nothing() {
    let r = ClassicSlowStart::new().on_packets_acked(9000, 9000, 2000, MS, MDS, 1);
    assert_eq!(r, SlowStartResult { cwnd_increase: 0, exit_slow_start: true });
}

#[test]
fn growth_not_above_acked_bytes() {
    let mut h = HyStart::new(false);
    h.on_packet_sent(10);
    let r = ack(&mut h, 700, 50 * MS, 1);
    assert_eq!(r.cwnd_increase, 700);
    let r = ack(&mut h, 0, 50 * MS, 2);
    assert_eq!(r.cwnd_increase, 0);
}

#[test]
fn non_paced_growth_capped_at_eight_datagrams() {
    let mut h = HyStart::new(false);
    h.on_packet_sent(10);
    let r = ack(&mut h, 1_000_000, 50 * MS, 1);
    assert_eq!(r.cwnd_increase, 9600);
}

#[test]
fn paced_growth_saturates_instead_of_overflowing() {
    let mut h = HyStart::new(true);
    h.on_packet_sent(10);
    let r = ack(&mut h, 1_000_000, 50 * MS, 1);
    assert_eq!(r.cwnd_increase, 1_000_000);
    let r = h.on_packets_acked(10_000, NO_THRESH, usize::MAX, 50 * MS, usize::MAX, 2);
    assert_eq!(r.cwnd_increase, usize::MAX);
}

#[test]
fn non_paced_huge_datagram_saturates() {
    let mut h = HyStart::new(false);
    h.on_packet_sent(10);
    let r = h.on_packets_acked(10_000, NO_THRESH, 123_456, 50 * MS, usize::MAX, 1);
    assert_eq!(r.cwnd_increase, 123_456);
}

#[test]
fn first_round_never_enters_css() {
    // with no earlier round, the last round's minimum is still infinite
    let mut h = HyStart::new(false);
    h.on_packet_sent(100);
    for i in 0..20u64 {
        ack(&mut h, 1200, (100 + 10 * i) * MS, i);
    }
    assert!(!h.in_css());
}

#[test]
fn constants() {
    assert_eq!(HyStart::MIN_RTT_THRESH, 4 * MS);
    assert_eq!(HyStart::MAX_RTT_THRESH, 16 * MS);
    assert_eq!(HyStart::MIN_RTT_DIVISOR, 8);
    assert_eq!(HyStart::N_RTT_SAMPLE, 8);
    assert_eq!(HyStart::CSS_GROWTH_DIVISOR, 4);
    assert_eq!(HyStart::CSS_ROUNDS, 5);
    assert_eq!(HyStart::NON_PACED_L, 8);
    assert_eq!(HyStart::RTT_INFINITE, u64::MAX);
}
