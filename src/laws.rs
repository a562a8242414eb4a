//! Laws of the HyStart++ engine, stated over the spec functions that the
//! engine's own contracts use, and proved.
use vstd::prelude::*;

use crate::classic::classic_result;
use crate::engine::{
    ack_result, ack_round, closes_round, collect_sample, css_entry_signal, css_exit_signal, forced_exit,
    growth_cap, in_css_spec, on_acked, phase_step, start_round, EngineModel, HyStart, RoundModel,
};

verus! {

/// A send while a round is open changes nothing: the round's end, the last
/// round's minimum and the sample counter all stay as they were.
pub proof fn lemma_send_in_open_round_is_noop(m: RoundModel, pn: u64)
    requires
        m.window_end is Some,
    ensures
        start_round(m, pn) == m,
{
}

/// After an acknowledged batch the round's minimum RTT is no larger than
/// before, and no larger than the sample handed in when HyStart++ ran.
pub proof fn lemma_round_min_never_grows(
    e: EngineModel,
    curr_cwnd: usize,
    ssthresh: usize,
    new_acked: usize,
    rtt: u64,
    max_datagram_size: usize,
    largest_acked: u64,
)
    ensures
        ({
            let after = on_acked(
                e,
                curr_cwnd,
                ssthresh,
                new_acked,
                rtt,
                max_datagram_size,
                largest_acked,
            ).0;
            &&& after.round.current_round_min_rtt <= e.round.current_round_min_rtt
            &&& ssthresh == usize::MAX ==> after.round.current_round_min_rtt <= rtt
        }),
{
}

/// One call never both leaves and enters CSS: leaving needs the engine in
/// CSS, entering needs it out, both judged on the state the call started from.
pub proof fn lemma_css_exit_and_entry_exclusive(m: RoundModel, rtt: u64)
    ensures
        ({
            let c = collect_sample(m, rtt);
            let p = phase_step(c);
            &&& !(css_exit_signal(c) && css_entry_signal(c))
            &&& css_exit_signal(c) ==> !in_css_spec(p)
            &&& css_entry_signal(c) ==> in_css_spec(p)
            &&& in_css_spec(m) && !css_exit_signal(c) ==> p.css_baseline_min_rtt
                == m.css_baseline_min_rtt
        }),
{
}

/// Entering CSS starts the CSS round count afresh: it is 1 if the same batch
/// closes the round, else 0, and slow start does not end on that batch.
pub proof fn lemma_css_entry_starts_count(m: RoundModel, rtt: u64, largest_acked: u64)
    requires
        !in_css_spec(m) ==> m.css_round_count == 0,
        css_entry_signal(collect_sample(m, rtt)),
    ensures
        in_css_spec(ack_round(m, rtt, largest_acked)),
        ack_round(m, rtt, largest_acked).css_round_count == (if closes_round(m, largest_acked) {
            1int
        } else {
            0int
        }),
        forall|limit: usize, new_acked: usize, mds: usize|
            !(#[trigger] ack_result(limit, m, new_acked, rtt, mds, largest_acked)).exit_slow_start,
{
}

/// With a threshold already found, the result is classic slow start's for the
/// same inputs, whatever the engine's state, and the engine is left unchanged.
pub proof fn lemma_fallback_is_classic(
    e1: EngineModel,
    e2: EngineModel,
    curr_cwnd: usize,
    ssthresh: usize,
    new_acked: usize,
    rtt: u64,
    max_datagram_size: usize,
    largest_acked: u64,
)
    requires
        ssthresh != usize::MAX,
    ensures
        on_acked(e1, curr_cwnd, ssthresh, new_acked, rtt, max_datagram_size, largest_acked).1
            == classic_result(curr_cwnd as int, ssthresh as int, new_acked as int),
        on_acked(e1, curr_cwnd, ssthresh, new_acked, rtt, max_datagram_size, largest_acked).1
            == on_acked(e2, curr_cwnd, ssthresh, new_acked, rtt, max_datagram_size, largest_acked).1,
        on_acked(e1, curr_cwnd, ssthresh, new_acked, rtt, max_datagram_size, largest_acked).0
            == e1,
{
}

/// Growth never exceeds the acknowledged bytes; under HyStart++ it also never
/// exceeds `limit * max_datagram_size` (saturating), divided by 4 in CSS.
pub proof fn lemma_growth_capped(
    e: EngineModel,
    curr_cwnd: usize,
    ssthresh: usize,
    new_acked: usize,
    rtt: u64,
    max_datagram_size: usize,
    largest_acked: u64,
)
    requires
        ssthresh >= curr_cwnd,
    ensures
        ({
            let (after, r) = on_acked(
                e,
                curr_cwnd,
                ssthresh,
                new_acked,
                rtt,
                max_datagram_size,
                largest_acked,
            );
            &&& r.cwnd_increase <= new_acked
            &&& ssthresh == usize::MAX ==> r.cwnd_increase <= growth_cap(
                e.limit,
                max_datagram_size,
            ) / (if in_css_spec(after.round) {
                HyStart::CSS_GROWTH_DIVISOR as int
            } else {
                1int
            })
        }),
{
    if ssthresh == usize::MAX {
        let cap = growth_cap(e.limit, max_datagram_size);
        let raw = if (new_acked as int) < cap {
            new_acked as int
        } else {
            cap
        };
        assert(0 <= raw <= cap);
        assert(raw / 4 <= cap / 4) by (nonlinear_arith)
            requires
                0 <= raw <= cap,
        ;
        assert(raw / 4 <= raw) by (nonlinear_arith)
            requires
                0 <= raw,
        ;
    }
}

/// A send or an acknowledged batch handed to HyStart++ (no threshold found yet).
pub enum Event {
    Sent { pn: u64 },
    Acked { rtt: u64, largest_acked: u64 },
}

/// The round state after one event.
pub open spec fn step(m: RoundModel, ev: Event) -> RoundModel {
    match ev {
        Event::Sent { pn } => start_round(m, pn),
        Event::Acked { rtt, largest_acked } => ack_round(m, rtt, largest_acked),
    }
}

/// The round state after a sequence of events.
pub open spec fn run(m: RoundModel, evs: Seq<Event>) -> RoundModel
    decreases evs.len(),
{
    if evs.len() == 0 {
        m
    } else {
        step(run(m, evs.drop_last()), evs.last())
    }
}

/// The event is an ack that closes the open round.
pub open spec fn closes_on(m: RoundModel, ev: Event) -> bool {
    match ev {
        Event::Sent { .. } => false,
        Event::Acked { largest_acked, .. } => closes_round(m, largest_acked),
    }
}

/// The event is an ack whose result says to leave slow start
/// (the `exit_slow_start` of `ack_result`).
pub open spec fn exit_on(m: RoundModel, ev: Event) -> bool {
    match ev {
        Event::Sent { .. } => false,
        Event::Acked { rtt, largest_acked } => forced_exit(
            phase_step(collect_sample(m, rtt)),
            largest_acked,
        ),
    }
}

/// The event does not take the engine back out of CSS.
pub open spec fn keeps_css(m: RoundModel, ev: Event) -> bool {
    match ev {
        Event::Sent { .. } => true,
        Event::Acked { rtt, .. } => !css_exit_signal(collect_sample(m, rtt)),
    }
}

/// How many of the events close a round.
pub open spec fn closures(m: RoundModel, evs: Seq<Event>) -> nat
    decreases evs.len(),
{
    if evs.len() == 0 {
        0
    } else {
        closures(m, evs.drop_last()) + if closes_on(run(m, evs.drop_last()), evs.last()) {
            1nat
        } else {
            0nat
        }
    }
}

/// No event of the sequence takes the engine out of CSS.
pub open spec fn stays_in_css(m: RoundModel, evs: Seq<Event>) -> bool
    decreases evs.len(),
{
    if evs.len() == 0 {
        true
    } else {
        stays_in_css(m, evs.drop_last()) && keeps_css(run(m, evs.drop_last()), evs.last())
    }
}

/// Forced exit timing: from a state in CSS, over events that keep the engine
/// in CSS, the CSS round count grows by one per closed round, and an event
/// ends slow start exactly when it is the round closure that brings the count
/// to 5. Entering CSS leaves the count at the rounds closed since
/// (`lemma_css_entry_starts_count`), so the fifth round closed in CSS ends
/// slow start and none of the four before it does.
pub proof fn lemma_css_rounds_until_exit(m: RoundModel, evs: Seq<Event>)
    requires
        in_css_spec(m),
        stays_in_css(m, evs),
        m.css_round_count + closures(m, evs) <= HyStart::CSS_ROUNDS,
    ensures
        in_css_spec(run(m, evs)),
        run(m, evs).css_round_count == m.css_round_count + closures(m, evs),
        forall|i: int|
            0 <= i < evs.len() ==> exit_on(#[trigger] run(m, evs.take(i)), evs[i]) == (closes_on(
                run(m, evs.take(i)),
                evs[i],
            ) && m.css_round_count + closures(m, evs.take(i + 1)) == HyStart::CSS_ROUNDS),
    decreases evs.len(),
{
    if evs.len() > 0 {
        let pre = evs.drop_last();
        lemma_css_rounds_until_exit(m, pre);
        assert forall|i: int| 0 <= i < evs.len() implies exit_on(
            #[trigger] run(m, evs.take(i)),
            evs[i],
        ) == (closes_on(run(m, evs.take(i)), evs[i]) && m.css_round_count + closures(
            m,
            evs.take(i + 1),
        ) == HyStart::CSS_ROUNDS) by {
            if i < evs.len() - 1 {
                assert(evs.take(i) =~= pre.take(i));
                assert(evs.take(i + 1) =~= pre.take(i + 1));
                assert(evs[i] == pre[i]);
            } else {
                assert(evs.take(i) =~= pre);
                assert(evs.take(i + 1) =~= evs);
            }
        }
    }
}

} // verus!
