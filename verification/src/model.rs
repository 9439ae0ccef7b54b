//! A model of the two report programs that the controller installs on the
//! datapath. The datapath runtime interprets the program text once per
//! acknowledgment; the functions here state what one such invocation does to
//! the report fields, and the lemmas state the cadence each program keeps.

use vstd::prelude::*;

verus! {

/// The measurement inputs the datapath makes available to the program at one
/// invocation (one acknowledgment).
#[derive(Clone, Copy, Debug, PartialEq, Eq, Structural)]
pub struct AckSample {
    /// The current round-trip-time sample, in microseconds.
    pub rtt_sample_us: u64,
    /// The current congestion window, in bytes.
    pub cwnd: u64,
    /// The current outgoing byte rate.
    pub rate_outgoing: u64,
    /// The current incoming byte rate.
    pub rate_incoming: u64,
}

/// The five report-scoped accumulator fields that both programs declare.
#[derive(Clone, Copy, Debug, PartialEq, Eq, Structural)]
pub struct ReportFields {
    pub minrtt: u64,
    pub rtt: u64,
    pub cwnd: u64,
    pub rin: u64,
    pub rout: u64,
}

/// The declared defaults: four fields start at zero, the minimum
/// round-trip-time field at positive infinity (the largest representable
/// value).
pub open spec fn spec_default_fields() -> ReportFields {
    ReportFields { minrtt: u64::MAX, rtt: 0, cwnd: 0, rin: 0, rout: 0 }
}

/// The declared defaults of the report fields.
pub fn default_fields() -> (r: ReportFields)
    ensures
        r == spec_default_fields(),
{
    ReportFields { minrtt: u64::MAX, rtt: 0, cwnd: 0, rin: 0, rout: 0 }
}

/// What one invocation writes into the report fields. Both programs store
/// the latest round-trip sample into `minrtt` as well as `rtt`: no running
/// minimum is kept across invocations. `rin` takes the outgoing rate and
/// `rout` the incoming rate, exactly as the program texts assign them.
pub open spec fn spec_updated_fields(s: AckSample) -> ReportFields {
    ReportFields {
        minrtt: s.rtt_sample_us,
        rtt: s.rtt_sample_us,
        cwnd: s.cwnd,
        rin: s.rate_outgoing,
        rout: s.rate_incoming,
    }
}

/// One invocation of the per-acknowledgment program: the fields take the
/// current sample, and a report is emitted on every invocation.
pub fn perack_invoke(s: &AckSample) -> (r: Option<ReportFields>)
    ensures
        r is Some,
        r == Some(spec_updated_fields(*s)),
{
    Some(
        ReportFields {
            minrtt: s.rtt_sample_us,
            rtt: s.rtt_sample_us,
            cwnd: s.cwnd,
            rin: s.rate_outgoing,
            rout: s.rate_incoming,
        },
    )
}

/// The state the interval program keeps on the datapath between
/// invocations.
#[derive(Clone, Copy, Debug, PartialEq, Eq, Structural)]
pub struct IntervalState {
    pub fields: ReportFields,
    /// The datapath's elapsed-time register: microseconds accumulated since
    /// the last report (a report resets it).
    pub micros: u64,
}

/// The state of a freshly installed (or just-reset) interval program.
pub open spec fn spec_initial_interval_state() -> IntervalState {
    IntervalState { fields: spec_default_fields(), micros: 0 }
}

/// The state of a freshly installed (or just-reset) interval program.
pub fn initial_interval_state() -> (r: IntervalState)
    ensures
        r == spec_initial_interval_state(),
{
    IntervalState { fields: default_fields(), micros: 0 }
}

/// One invocation of the interval program, `delta` microseconds after the
/// previous one: the fields take the current sample; once the elapsed time
/// since the last report exceeds `interval`, the just-updated fields are
/// reported and the fields and the clock return to their defaults.
pub open spec fn spec_interval_invoke(
    st: IntervalState,
    s: AckSample,
    delta: u64,
    interval: u64,
) -> (IntervalState, Option<ReportFields>)
    recommends
        st.micros + delta <= u64::MAX,
{
    if st.micros + delta > interval {
        (spec_initial_interval_state(), Some(spec_updated_fields(s)))
    } else {
        (
            IntervalState { fields: spec_updated_fields(s), micros: (st.micros + delta) as u64 },
            None,
        )
    }
}

/// One invocation of the interval program (see `spec_interval_invoke`).
pub fn interval_invoke(st: &IntervalState, s: &AckSample, delta: u64, interval: u64) -> (r: (
    IntervalState,
    Option<ReportFields>,
))
    requires
        st.micros + delta <= u64::MAX,
    ensures
        r == spec_interval_invoke(*st, *s, delta, interval),
        // a report comes exactly when the accumulated elapsed time passes
        // the threshold
        r.1 is Some <==> st.micros + delta > interval,
        // each report carries the just-updated fields and is immediately
        // followed by a reset to the declared defaults
        r.1 is Some ==> r.1 == Some(spec_updated_fields(*s)) && r.0
            == spec_initial_interval_state(),
{
    let now = st.micros + delta;
    let f = ReportFields {
        minrtt: s.rtt_sample_us,
        rtt: s.rtt_sample_us,
        cwnd: s.cwnd,
        rin: s.rate_outgoing,
        rout: s.rate_incoming,
    };
    if now > interval {
        (initial_interval_state(), Some(f))
    } else {
        (IntervalState { fields: f, micros: now }, None)
    }
}

/// The state of the interval program before invocation `i` of a run that
/// starts in `st0` and sees the events `(sample, delta)` in order.
pub open spec fn spec_state_at(
    st0: IntervalState,
    events: Seq<(AckSample, u64)>,
    i: int,
    interval: u64,
) -> IntervalState
    recommends
        0 <= i <= events.len(),
    decreases i,
{
    if i <= 0 {
        st0
    } else {
        spec_interval_invoke(
            spec_state_at(st0, events, i - 1, interval),
            events[i - 1].0,
            events[i - 1].1,
            interval,
        ).0
    }
}

/// Whether invocation `i` of such a run emits a report.
pub open spec fn spec_reports_at(
    st0: IntervalState,
    events: Seq<(AckSample, u64)>,
    i: int,
    interval: u64,
) -> bool
    recommends
        0 <= i < events.len(),
{
    spec_interval_invoke(
        spec_state_at(st0, events, i, interval),
        events[i].0,
        events[i].1,
        interval,
    ).1 is Some
}

/// The elapsed microseconds summed over the events `lo..hi`.
pub open spec fn sum_deltas(events: Seq<(AckSample, u64)>, lo: int, hi: int) -> int
    decreases hi - lo,
{
    if lo >= hi {
        0
    } else {
        sum_deltas(events, lo, hi - 1) + events[hi - 1].1
    }
}

proof fn lemma_micros_accumulates(
    st0: IntervalState,
    events: Seq<(AckSample, u64)>,
    interval: u64,
    i: int,
)
    requires
        st0.micros == 0,
        0 <= i <= events.len(),
        forall|k: int| 0 <= k < i ==> !spec_reports_at(st0, events, k, interval),
    ensures
        spec_state_at(st0, events, i, interval).micros == sum_deltas(events, 0, i),
        sum_deltas(events, 0, i) <= interval,
    decreases i,
{
    if i > 0 {
        lemma_micros_accumulates(st0, events, interval, i - 1);
        assert(!spec_reports_at(st0, events, i - 1, interval));
    }
}

/// Reports of the interval program are separated by more than `interval`
/// microseconds of accumulated elapsed time: in a run that starts with the
/// elapsed-time register at zero (as it stands right after a report), if
/// invocations `0..j` emit no report and invocation `j` does, then the
/// elapsed time summed over invocations `0..=j` exceeds `interval`.
pub proof fn lemma_interval_report_separation(
    st0: IntervalState,
    events: Seq<(AckSample, u64)>,
    interval: u64,
    j: int,
)
    requires
        st0.micros == 0,
        0 <= j < events.len(),
        forall|k: int| 0 <= k < j ==> !spec_reports_at(st0, events, k, interval),
        spec_reports_at(st0, events, j, interval),
    ensures
        sum_deltas(events, 0, j + 1) > interval,
{
    lemma_micros_accumulates(st0, events, interval, j);
}

proof fn lemma_state_at_shift(
    st0: IntervalState,
    events: Seq<(AckSample, u64)>,
    interval: u64,
    base: int,
    i: int,
)
    requires
        0 <= base,
        0 <= i,
        base + i <= events.len(),
    ensures
        spec_state_at(
            spec_state_at(st0, events, base, interval),
            events.subrange(base, events.len() as int),
            i,
            interval,
        ) == spec_state_at(st0, events, base + i, interval),
    decreases i,
{
    if i > 0 {
        lemma_state_at_shift(st0, events, interval, base, i - 1);
        let suffix = events.subrange(base, events.len() as int);
        assert(suffix[i - 1] == events[base + i - 1]);
    }
}

proof fn lemma_sum_deltas_shift(events: Seq<(AckSample, u64)>, base: int, n: int)
    requires
        0 <= base,
        0 <= n,
        base + n <= events.len(),
    ensures
        sum_deltas(events.subrange(base, events.len() as int), 0, n) == sum_deltas(
            events,
            base,
            base + n,
        ),
    decreases n,
{
    if n > 0 {
        lemma_sum_deltas_shift(events, base, n - 1);
        let suffix = events.subrange(base, events.len() as int);
        assert(suffix[n - 1] == events[base + n - 1]);
    }
}

/// No two consecutive reports of the interval program come closer together
/// than the threshold: if invocations `i` and `j` of a run both emit a
/// report and no invocation between them does, then the elapsed time
/// accumulated over invocations `i+1 ..= j` exceeds `interval`.
pub proof fn lemma_consecutive_reports_separation(
    st0: IntervalState,
    events: Seq<(AckSample, u64)>,
    interval: u64,
    i: int,
    j: int,
)
    requires
        0 <= i < j < events.len(),
        spec_reports_at(st0, events, i, interval),
        forall|k: int| i < k < j ==> !spec_reports_at(st0, events, k, interval),
        spec_reports_at(st0, events, j, interval),
    ensures
        sum_deltas(events, i + 1, j + 1) > interval,
{
    // the state right after the report at `i` is freshly reset
    let st1 = spec_state_at(st0, events, i + 1, interval);
    assert(st1 == spec_initial_interval_state());
    // the rest of the run is the same run started from that fresh state
    let suffix = events.subrange(i + 1, events.len() as int);
    assert forall|k: int| 0 <= k < j - i - 1 implies !spec_reports_at(
        st1,
        suffix,
        k,
        interval,
    ) by {
        lemma_state_at_shift(st0, events, interval, i + 1, k);
        assert(suffix[k] == events[i + 1 + k]);
        assert(!spec_reports_at(st0, events, i + 1 + k, interval));
    }
    lemma_state_at_shift(st0, events, interval, i + 1, j - i - 1);
    assert(suffix[j - i - 1] == events[j]);
    assert(spec_reports_at(st1, suffix, j - i - 1, interval));
    lemma_interval_report_separation(st1, suffix, interval, j - i - 1);
    lemma_sum_deltas_shift(events, i + 1, j - i);
}

/// A report of the interval program is immediately followed by a reset: the
/// state after a reporting invocation is the initial one, fields at their
/// declared defaults and the elapsed-time register at zero.
pub proof fn lemma_interval_report_resets(
    st0: IntervalState,
    events: Seq<(AckSample, u64)>,
    interval: u64,
    j: int,
)
    requires
        0 <= j < events.len(),
        spec_reports_at(st0, events, j, interval),
    ensures
        spec_state_at(st0, events, j + 1, interval) == spec_initial_interval_state(),
{
}

} // verus!
