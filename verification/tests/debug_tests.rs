use lau_construct_cli::{ConservationReport, ConstructDebug, TraceStep};

#[test]
fn test_trace_step_render() {
    let ts = TraceStep {
        timestamp: 1,
        agent: "a".to_string(),
        action: "act".to_string(),
        duration_ms: 10,
        energy_cost: 0.5f64.to_bits(),
    };
    let rendered = ts.render_with(&format!("{:.2}", 0.5));
    assert!(rendered.contains("a"));
    assert!(rendered.contains("act"));
}

fn report_panel(cr: &ConservationReport) -> String {
    cr.render_with(
        &format!("{:.4}", f64::from_bits(cr.total_in)),
        &format!("{:.4}", f64::from_bits(cr.total_out)),
        &format!("{:.6}", f64::from_bits(cr.discrepancy)),
        &format!("{:.6}", f64::from_bits(cr.tolerance)),
    )
}

#[test]
fn test_conservation_report_render_pass() {
    let cr = ConservationReport {
        law_holds: true,
        total_in: 100.0f64.to_bits(),
        total_out: 99.0f64.to_bits(),
        discrepancy: 1.0f64.to_bits(),
        tolerance: 2.0f64.to_bits(),
    };
    let rendered = report_panel(&cr);
    assert!(rendered.contains("PASS"));
    assert!(rendered.contains("100"));
}

#[test]
fn test_conservation_report_render_fail() {
    let cr = ConservationReport {
        law_holds: false,
        total_in: 100.0f64.to_bits(),
        total_out: 50.0f64.to_bits(),
        discrepancy: 50.0f64.to_bits(),
        tolerance: 1.0f64.to_bits(),
    };
    let rendered = report_panel(&cr);
    assert!(rendered.contains("FAIL"));
}

#[test]
fn test_construct_debug_trace_message() {
    let debug = ConstructDebug::new();
    let trace = debug.trace_message("msg-1");
    assert_eq!(trace.len(), 3);
    assert_eq!(trace[0].agent, "router");
    assert_eq!(trace[1].agent, "processor");
    assert_eq!(trace[2].agent, "emitter");
}

#[test]
fn test_construct_debug_trace_message_empty() {
    let debug = ConstructDebug::new();
    let trace = debug.trace_message("");
    assert!(trace.is_empty());
}

#[test]
fn test_construct_debug_verify_conservation() {
    let debug = ConstructDebug::new();
    let report = debug.verify_conservation();
    assert!(report.law_holds);
    assert!(f64::from_bits(report.discrepancy) <= f64::from_bits(report.tolerance));
}

#[test]
fn test_construct_debug_default() {
    let debug: ConstructDebug = Default::default();
    let report = debug.verify_conservation();
    assert!(report.law_holds);
}

#[test]
fn trace_steps_exact() {
    let trace = ConstructDebug::new().trace_message("msg-42");
    let expected = [
        (1_000u64, "router", "receive", 5u64, 0.1f64),
        (1_001, "processor", "transform", 12, 0.5),
        (1_002, "emitter", "dispatch", 3, 0.05),
    ];
    assert_eq!(trace.len(), expected.len());
    for (step, (ts, agent, action, dur, energy)) in trace.iter().zip(expected.iter()) {
        assert_eq!(step.timestamp, *ts);
        assert_eq!(step.agent, *agent);
        assert_eq!(step.action, *action);
        assert_eq!(step.duration_ms, *dur);
        assert_eq!(f64::from_bits(step.energy_cost), *energy);
    }
    assert!(trace.windows(2).all(|w| w[0].timestamp < w[1].timestamp));
}

#[test]
fn conservation_report_values() {
    let report = ConstructDebug::new().verify_conservation();
    assert_eq!(f64::from_bits(report.total_in), 1000.0);
    assert_eq!(f64::from_bits(report.total_out), 999.999);
    assert_eq!(f64::from_bits(report.discrepancy), 0.001);
    assert_eq!(f64::from_bits(report.tolerance), 0.01);
    let measured = f64::from_bits(report.total_in) - f64::from_bits(report.total_out);
    assert!(measured.abs() <= f64::from_bits(report.tolerance));
}

#[test]
fn trace_step_render_exact() {
    let ts = TraceStep {
        timestamp: 1002,
        agent: "emitter".to_string(),
        action: "dispatch".to_string(),
        duration_ms: 3,
        energy_cost: 0.05f64.to_bits(),
    };
    let expected = format!(
        "[{:>8}] {:<12} {:<16} {:>4}ms {:>6.2}J",
        1002, "emitter", "dispatch", 3, 0.05
    );
    assert_eq!(ts.render_with(&format!("{:.2}", 0.05)), expected);
}

#[test]
fn conservation_report_render_exact() {
    let cr = ConstructDebug::new().verify_conservation();
    let expected = format!(
        "+------------------------------+\n\
         | CONSERVATION REPORT: {:<9} |\n\
         | Total In:  {:<18.4} |\n\
         | Total Out: {:<18.4} |\n\
         | Discrepancy: {:<16.6} |\n\
         | Tolerance: {:<18.6} |\n\
         +------------------------------+",
        "PASS", 1000.0, 999.999, 0.001, 0.01
    );
    assert_eq!(report_panel(&cr), expected);
}
