//! The per-flow controller: it owns the field-addressing handle, the target
//! and the cadence, decodes each incoming report into its five required
//! fields, and turns them into a telemetry record.

use vstd::prelude::*;

use crate::config::CcpExampleConfigEnum;
use crate::portus_api::report_contents;
use crate::portus_api::report_get_field;

verus! {

/// Which required field a report decode failed on, in declaration order:
/// the first absent field names the error, and no partial tuple is ever
/// handed out.
#[derive(Clone, Copy, Debug, PartialEq, Eq, Structural)]
pub enum DecodeError {
    MinRtt,
    Rtt,
    Cwnd,
    Rin,
    Rout,
}

/// The 32 low bits of a 64-bit report value: how a retrieved field is
/// truncated (not rounded) into the decoded tuple.
pub open spec fn low32(v: u64) -> int {
    (v as int) % 0x1_0000_0000
}

/// Truncates a 64-bit report value to its 32 low bits.
pub fn truncate_u64(v: u64) -> (r: u32)
    ensures
        r == low32(v),
{
    (v % 0x1_0000_0000) as u32
}

/// Combines the five field lookups into the decoded tuple
/// `(min_rtt_us, rtt_us, cwnd_bytes, rate_out_bps, rate_in_bps)`. It
/// succeeds exactly when every lookup did, each element truncated to 32
/// bits; otherwise the first failed lookup, in declaration order, names the
/// error, and nothing of the tuple is returned.
pub fn decode_fields(
    minrtt: Result<u64, portus::Error>,
    rtt: Result<u64, portus::Error>,
    cwnd: Result<u64, portus::Error>,
    rin: Result<u64, portus::Error>,
    rout: Result<u64, portus::Error>,
) -> (r: Result<(u32, u32, u32, u32, u32), DecodeError>)
    ensures
        r is Ok <==> (minrtt is Ok && rtt is Ok && cwnd is Ok && rin is Ok && rout is Ok),
        r matches Ok(t) ==> t.0 == low32(minrtt.unwrap()) && t.1 == low32(rtt.unwrap()) && t.2
            == low32(cwnd.unwrap()) && t.3 == low32(rin.unwrap()) && t.4 == low32(rout.unwrap()),
        r == Err::<(u32, u32, u32, u32, u32), DecodeError>(DecodeError::MinRtt) <==> minrtt is Err,
        r == Err::<(u32, u32, u32, u32, u32), DecodeError>(DecodeError::Rtt) <==> (minrtt is Ok
            && rtt is Err),
        r == Err::<(u32, u32, u32, u32, u32), DecodeError>(DecodeError::Cwnd) <==> (minrtt is Ok
            && rtt is Ok && cwnd is Err),
        r == Err::<(u32, u32, u32, u32, u32), DecodeError>(DecodeError::Rin) <==> (minrtt is Ok
            && rtt is Ok && cwnd is Ok && rin is Err),
        r == Err::<(u32, u32, u32, u32, u32), DecodeError>(DecodeError::Rout) <==> (minrtt is Ok
            && rtt is Ok && cwnd is Ok && rin is Ok && rout is Err),
{
    let m = match minrtt {
        Ok(v) => v,
        Err(_) => {
            return Err(DecodeError::MinRtt);
        },
    };
    let t = match rtt {
        Ok(v) => v,
        Err(_) => {
            return Err(DecodeError::Rtt);
        },
    };
    let c = match cwnd {
        Ok(v) => v,
        Err(_) => {
            return Err(DecodeError::Cwnd);
        },
    };
    let i = match rin {
        Ok(v) => v,
        Err(_) => {
            return Err(DecodeError::Rin);
        },
    };
    let o = match rout {
        Ok(v) => v,
        Err(_) => {
            return Err(DecodeError::Rout);
        },
    };
    Ok((truncate_u64(m), truncate_u64(t), truncate_u64(c), truncate_u64(i), truncate_u64(o)))
}

/// Whether report contents carry all five fields the decoder requires.
pub open spec fn required_fields_present(c: Map<Seq<char>, u64>) -> bool {
    &&& c.contains_key("Report.minrtt"@)
    &&& c.contains_key("Report.rtt"@)
    &&& c.contains_key("Report.cwnd"@)
    &&& c.contains_key("Report.rin"@)
    &&& c.contains_key("Report.rout"@)
}

/// One telemetry record, emitted per decoded report.
#[derive(Clone, Copy, Debug, PartialEq, Eq, Structural)]
pub struct Telemetry {
    pub min_rtt_us: u32,
    pub rtt_us: u32,
    /// The congestion window in whole packets, not bytes.
    pub cwnd_pkts: u32,
    pub rin_bps: u32,
    pub rout_bps: u32,
}

/// The telemetry record for one decoded tuple: round-trip times and rates
/// pass through; the congestion window is converted from bytes to whole
/// packets by integer division, fractional packets truncated.
pub fn telemetry_from_fields(fields: (u32, u32, u32, u32, u32), mss: u32) -> (t: Telemetry)
    requires
        mss >= 1,
    ensures
        t.min_rtt_us == fields.0,
        t.rtt_us == fields.1,
        t.cwnd_pkts == fields.2 / mss,
        t.rin_bps == fields.3,
        t.rout_bps == fields.4,
{
    Telemetry {
        min_rtt_us: fields.0,
        rtt_us: fields.1,
        cwnd_pkts: fields.2 / mss,
        rin_bps: fields.3,
        rout_bps: fields.4,
    }
}

/// The per-flow controller: one instance per transport flow, created when
/// the flow starts, around the handle that installing the report program
/// returned.
pub struct CcpExample {
    /// The field-addressing handle for this flow's installed program.
    pub sc: portus::lang::Scope,
    /// The static control target, applied once at flow creation.
    pub set: CcpExampleConfigEnum,
    /// The flow's maximum segment size in bytes; used only to convert the
    /// window to packets for telemetry. Never zero.
    pub mss: u32,
    /// The cadence: report per acknowledgment, or per interval.
    pub perack: bool,
}

impl CcpExample {
    /// The controller is well formed: the segment size can divide.
    pub open spec fn wf(&self) -> bool {
        self.mss >= 1
    }

    /// Creates the controller for one flow. A zero maximum segment size is
    /// rejected at configuration: the window-in-packets conversion would be
    /// undefined.
    pub fn new(sc: portus::lang::Scope, set: CcpExampleConfigEnum, mss: u32, perack: bool) -> (r:
        Option<CcpExample>)
        ensures
            r is Some <==> mss >= 1,
            r matches Some(f) ==> f.wf() && f.sc == sc && f.set == set && f.mss == mss && f.perack
                == perack,
    {
        if mss >= 1 {
            Some(CcpExample { sc, set, mss, perack })
        } else {
            None
        }
    }

    /// Decodes the five required fields out of one report against this
    /// flow's own handle: `Report.minrtt`, `Report.rtt`, `Report.cwnd`,
    /// `Report.rin`, `Report.rout`, each truncated to 32 bits, via
    /// `decode_fields`. It succeeds exactly when the handle addresses all
    /// five names in this report; otherwise the first absent field, in
    /// declaration order, names the error, and never a partial tuple.
    pub fn get_fields(&self, m: &portus::Report) -> (r: Result<
        (u32, u32, u32, u32, u32),
        DecodeError,
    >)
        ensures
            ({
                let c = report_contents(*m, self.sc);
                &&& (r is Ok <==> required_fields_present(c))
                &&& (r matches Ok(t) ==> t.0 == low32(c["Report.minrtt"@]) && t.1 == low32(
                    c["Report.rtt"@],
                ) && t.2 == low32(c["Report.cwnd"@]) && t.3 == low32(c["Report.rin"@]) && t.4
                    == low32(c["Report.rout"@]))
                &&& (r == Err::<(u32, u32, u32, u32, u32), DecodeError>(DecodeError::MinRtt)
                    <==> !c.contains_key("Report.minrtt"@))
                &&& (r == Err::<(u32, u32, u32, u32, u32), DecodeError>(DecodeError::Rtt) <==> (
                c.contains_key("Report.minrtt"@) && !c.contains_key("Report.rtt"@)))
                &&& (r == Err::<(u32, u32, u32, u32, u32), DecodeError>(DecodeError::Cwnd) <==> (
                c.contains_key("Report.minrtt"@) && c.contains_key("Report.rtt"@)
                    && !c.contains_key("Report.cwnd"@)))
                &&& (r == Err::<(u32, u32, u32, u32, u32), DecodeError>(DecodeError::Rin) <==> (
                c.contains_key("Report.minrtt"@) && c.contains_key("Report.rtt"@)
                    && c.contains_key("Report.cwnd"@) && !c.contains_key("Report.rin"@)))
                &&& (r == Err::<(u32, u32, u32, u32, u32), DecodeError>(DecodeError::Rout) <==> (
                c.contains_key("Report.minrtt"@) && c.contains_key("Report.rtt"@)
                    && c.contains_key("Report.cwnd"@) && c.contains_key("Report.rin"@)
                    && !c.contains_key("Report.rout"@)))
            }),
    {
        let minrtt = report_get_field(m, "Report.minrtt", &self.sc);
        let rtt = report_get_field(m, "Report.rtt", &self.sc);
        let cwnd = report_get_field(m, "Report.cwnd", &self.sc);
        let rin = report_get_field(m, "Report.rin", &self.sc);
        let rout = report_get_field(m, "Report.rout", &self.sc);
        decode_fields(minrtt, rtt, cwnd, rin, rout)
    }

    /// Handles one report delivery: decodes the fields against this flow's
    /// own handle and builds the telemetry record, the congestion window
    /// converted from bytes to whole packets. It succeeds exactly when the
    /// handle addresses all five required names in this report; an absent
    /// field is a contract violation between the installed program and this
    /// decoder and is handed back as the error, never masked.
    pub fn on_report(&self, _sock_id: u32, m: &portus::Report) -> (r: Result<
        Telemetry,
        DecodeError,
    >)
        requires
            self.wf(),
        ensures
            ({
                let c = report_contents(*m, self.sc);
                &&& (r is Ok <==> required_fields_present(c))
                &&& (r matches Ok(t) ==> t.min_rtt_us == low32(c["Report.minrtt"@]) && t.rtt_us
                    == low32(c["Report.rtt"@]) && t.cwnd_pkts == low32(c["Report.cwnd"@])
                    / (self.mss as int) && t.rin_bps == low32(c["Report.rin"@]) && t.rout_bps == low32(
                    c["Report.rout"@],
                ))
                &&& (r == Err::<Telemetry, DecodeError>(DecodeError::MinRtt) <==> !c.contains_key(
                    "Report.minrtt"@,
                ))
                &&& (r == Err::<Telemetry, DecodeError>(DecodeError::Rtt) <==> (c.contains_key(
                    "Report.minrtt"@,
                ) && !c.contains_key("Report.rtt"@)))
                &&& (r == Err::<Telemetry, DecodeError>(DecodeError::Cwnd) <==> (c.contains_key(
                    "Report.minrtt"@,
                ) && c.contains_key("Report.rtt"@) && !c.contains_key("Report.cwnd"@)))
                &&& (r == Err::<Telemetry, DecodeError>(DecodeError::Rin) <==> (c.contains_key(
                    "Report.minrtt"@,
                ) && c.contains_key("Report.rtt"@) && c.contains_key("Report.cwnd"@)
                    && !c.contains_key("Report.rin"@)))
                &&& (r == Err::<Telemetry, DecodeError>(DecodeError::Rout) <==> (c.contains_key(
                    "Report.minrtt"@,
                ) && c.contains_key("Report.rtt"@) && c.contains_key("Report.cwnd"@)
                    && c.contains_key("Report.rin"@) && !c.contains_key("Report.rout"@)))
            }),
    {
        match self.get_fields(m) {
            Ok(fields) => Ok(telemetry_from_fields(fields, self.mss)),
            Err(e) => Err(e),
        }
    }
}

} // verus!
