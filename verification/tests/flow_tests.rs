use ccp_example_alg::config::make_args;
use ccp_example_alg::flow::decode_fields;
use ccp_example_alg::flow::telemetry_from_fields;
use ccp_example_alg::model::initial_interval_state;
use ccp_example_alg::model::interval_invoke;
use ccp_example_alg::model::perack_invoke;
use ccp_example_alg::model::AckSample;
use ccp_example_alg::program::interval_program;
use ccp_example_alg::program::perack_program;
use ccp_example_alg::program::program_choice;
use ccp_example_alg::program::target_update;
use ccp_example_alg::CcpExample;
use ccp_example_alg::CcpExampleConfigEnum;
use ccp_example_alg::DecodeError;

fn absent() -> portus::Error {
    portus::Error(String::from("field not found"))
}

#[test]
fn decode_all_fields_present() {
    let r = decode_fields(Ok(300), Ok(350), Ok(20000), Ok(5000), Ok(4000)).unwrap();
    assert_eq!(r, (300, 350, 20000, 5000, 4000));
}

#[test]
fn decode_truncates_to_32_bits() {
    let big: u64 = (1u64 << 32) + 7;
    let r = decode_fields(Ok(big), Ok(u64::MAX), Ok(1), Ok(2), Ok(3)).unwrap();
    assert_eq!(r.0, 7);
    assert_eq!(r.1, u32::MAX);
}

#[test]
fn decode_missing_field_fails_without_partial_tuple() {
    assert_eq!(
        decode_fields(Err(absent()), Ok(1), Ok(2), Ok(3), Ok(4)),
        Err(DecodeError::MinRtt)
    );
    assert_eq!(
        decode_fields(Ok(0), Err(absent()), Ok(2), Ok(3), Ok(4)),
        Err(DecodeError::Rtt)
    );
    assert_eq!(
        decode_fields(Ok(0), Ok(1), Err(absent()), Ok(3), Ok(4)),
        Err(DecodeError::Cwnd)
    );
    assert_eq!(
        decode_fields(Ok(0), Ok(1), Ok(2), Err(absent()), Ok(4)),
        Err(DecodeError::Rin)
    );
    assert_eq!(
        decode_fields(Ok(0), Ok(1), Ok(2), Ok(3), Err(absent())),
        Err(DecodeError::Rout)
    );
    // every field missing still names the first one
    assert_eq!(
        decode_fields(
            Err(absent()),
            Err(absent()),
            Err(absent()),
            Err(absent()),
            Err(absent())
        ),
        Err(DecodeError::MinRtt)
    );
}

#[test]
fn telemetry_window_floor_division() {
    let t = telemetry_from_fields((300, 350, 20500, 5000, 4000), 1000);
    assert_eq!(t.cwnd_pkts, 20); // truncated, not rounded
    assert_eq!(t.min_rtt_us, 300);
    assert_eq!(t.rtt_us, 350);
    assert_eq!(t.rin_bps, 5000);
    assert_eq!(t.rout_bps, 4000);
    let small = telemetry_from_fields((0, 0, 999, 0, 0), 1000);
    assert_eq!(small.cwnd_pkts, 0);
    let unit = telemetry_from_fields((0, 0, 999, 0, 0), 1);
    assert_eq!(unit.cwnd_pkts, 999);
}

#[test]
fn zero_mss_rejected_at_flow_creation() {
    let sc = portus::lang::Scope::new();
    assert!(CcpExample::new(sc, CcpExampleConfigEnum::Cwnd(1), 0, true).is_none());
}

#[test]
fn window_interval_scenario() {
    // target: a 20000-byte window; cadence: a 100 ms interval; mss 1000
    let cfg = make_args(None, Some("20000"), false).unwrap();
    assert_eq!(cfg.set, CcpExampleConfigEnum::Cwnd(20000));

    let (prog, param) = program_choice(cfg.perack);
    assert_eq!(prog, "interval");
    assert_eq!(param, Some(100000));
    let (_, scope) =
        portus::lang::compile(interval_program().as_bytes(), &[("interval", param.unwrap())])
            .unwrap();

    assert_eq!(target_update(&cfg.set), ("Cwnd", 20000));

    let flow = CcpExample::new(scope, cfg.set, 1000, cfg.perack).unwrap();

    // the datapath runs the installed program; its reported fields carry the
    // window, and 110 ms of accumulated time triggers exactly one report
    let sample = AckSample {
        rtt_sample_us: 300,
        cwnd: 20000,
        rate_outgoing: 5000,
        rate_incoming: 4000,
    };
    let (st1, r1) = interval_invoke(&initial_interval_state(), &sample, 60000, 100000);
    assert!(r1.is_none());
    let (_, r2) = interval_invoke(&st1, &sample, 50000, 100000);
    let fields = r2.unwrap();

    let decoded = decode_fields(
        Ok(fields.minrtt),
        Ok(fields.rtt),
        Ok(fields.cwnd),
        Ok(fields.rin),
        Ok(fields.rout),
    )
    .unwrap();
    let t = telemetry_from_fields(decoded, flow.mss);
    assert_eq!(t.cwnd_pkts, 20);
}

#[test]
fn rate_perack_scenario() {
    // target: 125000 bytes per second; cadence: a report on every ack
    let cfg = make_args(Some("125000"), None, true).unwrap();
    assert_eq!(cfg.set, CcpExampleConfigEnum::Rate(125000));

    let (prog, param) = program_choice(cfg.perack);
    assert_eq!(prog, "perack");
    assert_eq!(param, None);
    let (_, scope) = portus::lang::compile(perack_program().as_bytes(), &[]).unwrap();

    assert_eq!(target_update(&cfg.set), ("Rate", 125000));

    let flow = CcpExample::new(scope, cfg.set, 1460, cfg.perack).unwrap();

    // every delivered report triggers one telemetry emission, rates taken
    // directly from the report's fields
    for (out_rate, in_rate) in [(5000u64, 4000u64), (6000, 4100), (7000, 4200)] {
        let sample = AckSample {
            rtt_sample_us: 250,
            cwnd: 14600,
            rate_outgoing: out_rate,
            rate_incoming: in_rate,
        };
        let fields = perack_invoke(&sample).unwrap();
        let decoded = decode_fields(
            Ok(fields.minrtt),
            Ok(fields.rtt),
            Ok(fields.cwnd),
            Ok(fields.rin),
            Ok(fields.rout),
        )
        .unwrap();
        let t = telemetry_from_fields(decoded, flow.mss);
        assert_eq!(t.rin_bps, out_rate as u32);
        assert_eq!(t.rout_bps, in_rate as u32);
        assert_eq!(t.cwnd_pkts, 10);
    }
}
