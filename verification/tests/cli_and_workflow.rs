use eng::cli::{has_flag, parse_command, parse_flag_path, parse_flag_value, usage, worker_request, CliCommand};
use eng::solve::workflow::{provenance_code, studyable_workflows, QuantityProvenance, WorkflowBuilder, WorkflowError};

fn args(v: &[&str]) -> Vec<String> {
    v.iter().map(|s| s.to_string()).collect()
}

#[test]
fn commands_and_usage() {
    assert_eq!(parse_command(&args(&["invoke", "--request-json", "{}"])), Ok(CliCommand::Invoke));
    assert_eq!(parse_command(&args(&["serve-book"])), Ok(CliCommand::ServeBook));
    assert_eq!(parse_command(&args(&[])), Err(usage()));
    assert_eq!(parse_command(&args(&["nope"])), Err(usage()));
    assert!(usage().contains("\"protocol_version\":\"eng-invoke.v1\""));
    assert!(usage().starts_with("usage:\n  eng export-docs [--out-dir PATH]\n"));
}

#[test]
fn flags_take_the_following_argument() {
    let a = args(&["export-docs", "--out-dir", "/tmp/x", "--out-dir", "/tmp/y"]);
    assert_eq!(parse_flag_value(&a, "--out-dir"), Some("/tmp/x".to_string()));
    assert_eq!(parse_flag_path(&a, "--out-file"), None);
    assert_eq!(parse_flag_value(&args(&["x", "--out-dir"]), "--out-dir"), None);
    assert!(has_flag(&args(&["serve-book", "--no-open"]), "--no-open"));
    assert!(!has_flag(&args(&["serve-book"]), "--no-open"));
}

#[test]
fn worker_skips_blank_lines() {
    assert_eq!(worker_request("   \n"), None);
    assert_eq!(worker_request("  {\"op\":1}\n"), Some("{\"op\":1}"));
}

#[test]
fn workflow_records_provenance_and_propagates() {
    let mut b: WorkflowBuilder<f64> = WorkflowBuilder::new();
    b.add_station_input("s0_inlet", "area_ratio", 2.0);
    b.add_station_solved("s1_pre_shock", "mach", 2.197, "device.nozzle_flow_calc");
    b.add_step("nozzle", "device.nozzle_flow_calc", "compressible.area_mach:M via numerical [supersonic]".to_string());
    assert!(b.propagate("s1_pre_shock", "s2_shock", "mach", "device.normal_shock_calc").is_ok());
    let err = b.propagate("s1_pre_shock", "s2_shock", "pressure", "device.normal_shock_calc").unwrap_err();
    assert!(matches!(err, WorkflowError::MissingQuantity { ref station, ref key } if station == "s1_pre_shock" && key == "pressure"));
    b.add_step("shock", "device.normal_shock_calc", "compressible.normal_shock_m2:M2 via explicit".to_string());
    let run = b.finish();
    let s1 = run.station("s1_pre_shock").unwrap();
    let m = s1.quantity("mach").unwrap();
    assert_eq!(m.value_si, 2.197);
    assert_eq!(m.provenance, QuantityProvenance::Solved);
    let s2 = run.station("s2_shock").unwrap();
    let m2 = s2.quantity("mach").unwrap();
    assert_eq!(m2.provenance, QuantityProvenance::Propagated);
    assert_eq!(m2.produced_by.as_deref(), Some("device.normal_shock_calc"));
    assert_eq!(run.stations[0].quantity("area_ratio").unwrap().provenance, QuantityProvenance::Input);
    let text = run.path_text();
    assert!(text.contains("device.nozzle_flow_calc") && text.contains("device.normal_shock_calc"));
    assert_eq!(
        text,
        "device.nozzle_flow_calc -> compressible.area_mach:M via numerical [supersonic] => device.normal_shock_calc -> compressible.normal_shock_m2:M2 via explicit"
    );
    assert!(run.station("s9").is_none());
}

#[test]
fn writes_replace_in_place() {
    let mut b: WorkflowBuilder<i32> = WorkflowBuilder::new();
    b.add_station_input("a", "x", 1);
    b.add_station_input("a", "y", 2);
    b.add_station_solved("a", "x", 3, "op");
    let run = b.finish();
    assert_eq!(run.stations.len(), 1);
    let keys: Vec<&str> = run.stations[0].quantities.iter().map(|(k, _)| k.as_str()).collect();
    assert_eq!(keys, vec!["x", "y"]);
    assert_eq!(run.stations[0].quantity("x").unwrap().value_si, 3);
}

#[test]
fn study_specs_are_consistent() {
    let w = studyable_workflows();
    assert_eq!(w.len(), 1);
    let e = &w[0];
    assert_eq!(e.key, "nozzle_normal_shock_chain");
    assert!(e.input_fields.iter().any(|f| f.key == e.default_sweep_arg && f.sweepable));
    for c in &e.default_columns {
        assert!(e.output_fields.iter().any(|o| o.key == *c));
    }
    assert_eq!(provenance_code(Some(QuantityProvenance::Input)), 0);
    assert_eq!(provenance_code(Some(QuantityProvenance::Propagated)), 2);
    assert_eq!(provenance_code(None), -1);
}
