//! The two report programs the controller can install on the datapath, the
//! selection between them, and the one-shot field update that applies the
//! control target.

use vstd::prelude::*;

use crate::config::CcpExampleConfig;
use crate::config::CcpExampleConfigEnum;

verus! {

/// The default report interval, in milliseconds.
pub const DEFAULT_INTERVAL_MS: u32 = 100;

/// The per-acknowledgment program: on every invocation it copies the
/// current sample into the report fields and emits the report.
pub open spec fn perack_program_text() -> Seq<char> {
    "(def (Report
    (minrtt +infinity)
    (rtt 0)
    (cwnd 0)
    (rin 0)
    (rout 0)
))
(when true
    (:= Report.rtt Flow.rtt_sample_us)
    (:= Report.minrtt Flow.rtt_sample_us)
    (:= Report.cwnd Cwnd)
    (:= Report.rin Flow.rate_outgoing)
    (:= Report.rout Flow.rate_incoming)
    (report)
)"@
}

/// The interval program: on every invocation it copies the current sample
/// into the report fields; once the elapsed microseconds pass the
/// `interval` threshold it emits the report, upon which the volatile fields
/// return to their declared defaults.
pub open spec fn interval_program_text() -> Seq<char> {
    "(def
    (Report
        (volatile minrtt +infinity)
        (volatile rtt 0)
        (volatile cwnd 0)
        (volatile rin 0)
        (volatile rout 0)
    )
    (interval 100000)
)
(when true
    (:= Report.rtt Flow.rtt_sample_us)
    (:= Report.minrtt Flow.rtt_sample_us)
    (:= Report.cwnd Cwnd)
    (:= Report.rin Flow.rate_outgoing)
    (:= Report.rout Flow.rate_incoming)
    (fallthrough)
)
(when (> Micros interval)
    (report)
)"@
}

/// The per-acknowledgment program text.
pub fn perack_program() -> (r: &'static str)
    ensures
        r@ == perack_program_text(),
{
    "(def (Report
    (minrtt +infinity)
    (rtt 0)
    (cwnd 0)
    (rin 0)
    (rout 0)
))
(when true
    (:= Report.rtt Flow.rtt_sample_us)
    (:= Report.minrtt Flow.rtt_sample_us)
    (:= Report.cwnd Cwnd)
    (:= Report.rin Flow.rate_outgoing)
    (:= Report.rout Flow.rate_incoming)
    (report)
)"
}

/// The interval program text.
pub fn interval_program() -> (r: &'static str)
    ensures
        r@ == interval_program_text(),
{
    "(def
    (Report
        (volatile minrtt +infinity)
        (volatile rtt 0)
        (volatile cwnd 0)
        (volatile rin 0)
        (volatile rout 0)
    )
    (interval 100000)
)
(when true
    (:= Report.rtt Flow.rtt_sample_us)
    (:= Report.minrtt Flow.rtt_sample_us)
    (:= Report.cwnd Cwnd)
    (:= Report.rin Flow.rate_outgoing)
    (:= Report.rout Flow.rate_incoming)
    (fallthrough)
)
(when (> Micros interval)
    (report)
)"
}

/// Milliseconds to microseconds; `None` when the value does not fit in 32
/// bits.
pub fn millis_to_micros(ms: u32) -> (r: Option<u32>)
    ensures
        r is Some <==> ms * 1000 <= u32::MAX,
        r matches Some(us) ==> us == ms * 1000,
{
    if ms <= u32::MAX / 1000 {
        Some(ms * 1000)
    } else {
        None
    }
}

/// Which program the controller installs for the given cadence, and the
/// threshold handed along at installation: the per-acknowledgment program
/// takes no parameter; the interval program takes its threshold in
/// microseconds.
pub fn program_choice(perack: bool) -> (r: (&'static str, Option<u32>))
    ensures
        perack ==> r.0@ == "perack"@ && r.1 is None,
        !perack ==> r.0@ == "interval"@ && r.1 == Some((DEFAULT_INTERVAL_MS * 1000) as u32),
{
    if perack {
        ("perack", None)
    } else {
        let us = millis_to_micros(DEFAULT_INTERVAL_MS).unwrap();
        ("interval", Some(us))
    }
}

/// The one-shot field update that applies the control target: a window
/// target sets the datapath's `Cwnd` register, a rate target its `Rate`
/// register, each to the configured value.
pub fn target_update(set: &CcpExampleConfigEnum) -> (r: (&'static str, u32))
    ensures
        *set matches CcpExampleConfigEnum::Cwnd(c) ==> r.0@ == "Cwnd"@ && r.1 == c,
        *set matches CcpExampleConfigEnum::Rate(v) ==> r.0@ == "Rate"@ && r.1 == v,
{
    match set {
        CcpExampleConfigEnum::Cwnd(c) => ("Cwnd", *c),
        CcpExampleConfigEnum::Rate(v) => ("Rate", *v),
    }
}

impl CcpExampleConfig {
    /// The name under which the runtime registers this algorithm.
    pub fn name() -> (r: &'static str)
        ensures
            r@ == "flat_rate_cwnd"@,
    {
        "flat_rate_cwnd"
    }

    /// The table of datapath programs this algorithm installs from: the
    /// per-acknowledgment program and the interval program, each under the
    /// name `program_choice` selects it by.
    pub fn datapath_programs(&self) -> (r: Vec<(&'static str, String)>)
        ensures
            r@.len() == 2,
            r@[0].0@ == "perack"@,
            r@[0].1@ == perack_program_text(),
            r@[1].0@ == "interval"@,
            r@[1].1@ == interval_program_text(),
    {
        let mut h: Vec<(&'static str, String)> = Vec::new();
        h.push(("perack", perack_program().to_owned()));
        h.push(("interval", interval_program().to_owned()));
        h
    }
}

} // verus!
