use eng::devices::conical_shock::{self, ConicalShockBranch, ConicalShockInputKind, ConicalShockOutputKind};
use eng::devices::fanno_flow::{self, FannoFlowBranch, FannoFlowInputKind, FannoFlowOutputKind};
use eng::devices::framework::{path_text, render_step, run_pivot_calculation, CalcStep, PivotCalcSpec, PlannedStep, RouteError, StepKind};
use eng::devices::isentropic::{self, IsentropicBranch, IsentropicInputKind, IsentropicOutputKind};
use eng::devices::normal_shock::{self, NormalShockInputKind, NormalShockOutputKind};
use eng::devices::nozzle_flow::{self, NozzleFlowBranch, NozzleFlowInputKind, NozzleFlowOutputKind, SuppliedReferences};
use eng::devices::oblique_shock::{self, ObliqueShockBranch, ObliqueShockInputKind, ObliqueShockOutputKind};
use eng::devices::rayleigh::{self, RayleighBranch, RayleighInputKind, RayleighOutputKind};
use eng::devices::{docs_entries, generation_specs};

fn ids(plan: &[PlannedStep]) -> Vec<&'static str> {
    plan.iter().map(|s| s.equation_path_id).collect()
}

const NO_REFS: SuppliedReferences = SuppliedReferences { p0: false, t0: false, rho0: false };

#[test]
fn area_ratio_to_mach_requires_branch() {
    let err = isentropic::route(IsentropicInputKind::AreaRatio, IsentropicOutputKind::Mach, None).unwrap_err();
    assert!(matches!(err, RouteError::MissingBranch { .. }));
}

#[test]
fn missing_branch_errors_on_inverse_paths() {
    let err = fanno_flow::route(FannoFlowInputKind::StagnationPressureRatio, FannoFlowOutputKind::Mach, None).unwrap_err();
    assert!(matches!(err, RouteError::MissingBranch { .. }));
}

#[test]
fn missing_branch_errors_on_ambiguous_inverse_paths() {
    let err = rayleigh::route(RayleighInputKind::TemperatureRatio, RayleighOutputKind::Mach, None).unwrap_err();
    assert!(matches!(err, RouteError::MissingBranch { .. }));
}

#[test]
fn area_ratio_requires_branch_for_inverse() {
    let err = nozzle_flow::route(NozzleFlowInputKind::AreaRatio, NozzleFlowOutputKind::Mach, None, NO_REFS).unwrap_err();
    assert!(matches!(err, RouteError::MissingBranch { .. }));
}

#[test]
fn static_pressure_requires_p0() {
    let err = nozzle_flow::route(NozzleFlowInputKind::Mach, NozzleFlowOutputKind::StaticPressure, None, NO_REFS).unwrap_err();
    assert!(matches!(err, RouteError::MissingReference { .. }));
}

#[test]
fn theta_requires_branch() {
    let err = oblique_shock::route(ObliqueShockInputKind::ThetaRad, None).unwrap_err();
    assert!(matches!(err, RouteError::MissingBranch { .. }));
}

#[test]
fn cone_input_requires_branch() {
    let err = conical_shock::route(ConicalShockInputKind::ConeAngleRad, None).unwrap_err();
    assert!(matches!(err, RouteError::MissingBranch { .. }));
}

#[test]
fn fanno_route_names_registry_equations() {
    let plan = fanno_flow::route(FannoFlowInputKind::PressureRatio, FannoFlowOutputKind::VelocityRatio, Some(FannoFlowBranch::Supersonic)).unwrap();
    let ids = ids(&plan);
    assert!(ids.contains(&"compressible.fanno_pressure_ratio"));
    assert!(ids.contains(&"compressible.fanno_velocity_ratio"));
}

#[test]
fn rayleigh_route_names_registry_equations() {
    let plan = rayleigh::route(RayleighInputKind::Mach, RayleighOutputKind::VelocityRatio, None).unwrap();
    assert_eq!(ids(&plan), vec!["compressible.rayleigh_velocity_ratio"]);
    let plan = rayleigh::route(RayleighInputKind::StagnationTemperatureRatio, RayleighOutputKind::Mach, Some(RayleighBranch::Subsonic)).unwrap();
    assert_eq!(ids(&plan), vec!["compressible.rayleigh_stagnation_temperature_ratio"]);
}

#[test]
fn nozzle_static_output_scales_after_its_ratio() {
    let refs = SuppliedReferences { p0: true, t0: false, rho0: false };
    let plan = nozzle_flow::route(NozzleFlowInputKind::AreaRatio, NozzleFlowOutputKind::StaticPressure, Some(NozzleFlowBranch::Supersonic), refs).unwrap();
    assert_eq!(
        ids(&plan),
        vec!["compressible.area_mach", "compressible.isentropic_pressure_ratio", "devices.nozzle_flow_calc.reference_scale"]
    );
    assert_eq!(plan[2].kind, StepKind::Scale);
}

#[test]
fn normal_shock_routes_through_m1() {
    let plan = normal_shock::route(NormalShockInputKind::PressureRatio, NormalShockOutputKind::TemperatureRatio);
    assert_eq!(
        ids(&plan),
        vec!["compressible.normal_shock_pressure_ratio", "compressible.normal_shock_temperature_ratio"]
    );
    let plan = normal_shock::route(NormalShockInputKind::M1, NormalShockOutputKind::M1);
    assert!(plan.is_empty());
}

#[test]
fn oblique_and_conical_routes_with_branch() {
    let plan = oblique_shock::route(ObliqueShockInputKind::ThetaRad, Some(ObliqueShockBranch::Weak)).unwrap();
    assert_eq!(plan[0].equation_path_id, "compressible.oblique_shock_theta_beta_m");
    assert_eq!(plan[0].branch, Some("weak"));
    assert!(ids(&plan).contains(&"compressible.oblique_shock_m2"));
    let plan = conical_shock::route(ConicalShockInputKind::ConeAngleRad, Some(ConicalShockBranch::Strong)).unwrap();
    assert!(ids(&plan).contains(&"compressible.conical_shock_taylor_maccoll"));
    assert!(conical_shock::route(ConicalShockInputKind::WaveAngleRad, None).is_ok());
}

#[test]
fn isentropic_routes_and_degrees() {
    let plan = isentropic::route(IsentropicInputKind::MachAngleRad, IsentropicOutputKind::PressureRatio, None).unwrap();
    assert_eq!(ids(&plan), vec!["compressible.mach_angle", "compressible.isentropic_pressure_ratio"]);
    let plan = isentropic::route(IsentropicInputKind::AreaRatio, IsentropicOutputKind::Mach, Some(IsentropicBranch::Subsonic)).unwrap();
    assert_eq!(ids(&plan), vec!["compressible.area_mach"]);
    assert_eq!(isentropic::parse_input_kind(" Mach_Angle_Deg "), Some((IsentropicInputKind::MachAngleRad, true)));
    assert_eq!(isentropic::parse_input_kind("mu"), Some((IsentropicInputKind::MachAngleRad, false)));
    assert_eq!(isentropic::parse_input_kind("nonsense"), None);
}

#[test]
fn parsers_ignore_case_and_whitespace() {
    assert_eq!(fanno_flow::parse_input_kind("  4FLSTAR_D "), Some(FannoFlowInputKind::FrictionParameter));
    assert_eq!(fanno_flow::parse_output_kind("V/V*"), Some(FannoFlowOutputKind::VelocityRatio));
    assert_eq!(fanno_flow::parse_branch("SuperSonic"), Some(FannoFlowBranch::Supersonic));
    assert_eq!(rayleigh::parse_input_kind("T0_T0STAR"), Some(RayleighInputKind::StagnationTemperatureRatio));
    assert_eq!(nozzle_flow::parse_output_kind("static_pressure"), Some(NozzleFlowOutputKind::StaticPressure));
    assert_eq!(oblique_shock::parse_output_kind("beta_deg"), Some((ObliqueShockOutputKind::BetaRad, true)));
    assert_eq!(conical_shock::parse_output_kind("MC"), Some((ConicalShockOutputKind::ConeSurfaceMach, false)));
    assert_eq!(conical_shock::parse_branch("strong"), Some(ConicalShockBranch::Strong));
    assert_eq!(oblique_shock::parse_branch("medium"), None);
}

#[test]
fn branch_names_round_trip() {
    for b in [FannoFlowBranch::Subsonic, FannoFlowBranch::Supersonic] {
        assert_eq!(fanno_flow::parse_branch(b.as_str()), Some(b));
    }
    for b in [ObliqueShockBranch::Weak, ObliqueShockBranch::Strong] {
        assert_eq!(oblique_shock::parse_branch(b.as_str()), Some(b));
    }
    assert_eq!(isentropic::IsentropicBranch::Supersonic.as_str(), "supersonic");
}

#[test]
fn advertised_keys_are_accepted() {
    let spec = fanno_flow::device_spec();
    for k in &spec.input_kinds {
        assert!(fanno_flow::parse_input_kind(k.key).is_some(), "{}", k.key);
    }
    for k in &spec.output_kinds {
        assert!(fanno_flow::parse_output_kind(k.key).is_some(), "{}", k.key);
    }
    let spec = isentropic::device_spec();
    for k in &spec.input_kinds {
        assert!(isentropic::parse_input_kind(k.key).is_some(), "{}", k.key);
    }
    assert!(isentropic::supported_input_kinds_text().contains("A/A*"));
}

#[test]
fn run_pivot_calculation_path_text() {
    let path: Vec<CalcStep<f64>> = vec![
        CalcStep {
            equation_path_id: "dummy.to_pivot".to_string(),
            solved_for: "pivot".to_string(),
            method: "explicit".to_string(),
            branch: None,
            inputs_used: vec![("input".to_string(), 2.0)],
        },
        CalcStep {
            equation_path_id: "dummy.from_pivot".to_string(),
            solved_for: "target".to_string(),
            method: "explicit".to_string(),
            branch: None,
            inputs_used: vec![("pivot".to_string(), 3.0)],
        },
    ];
    assert_eq!(path_text(&path), "dummy.to_pivot:pivot via explicit -> dummy.from_pivot:target via explicit");
    assert_eq!(render_step("a.b", "M", "numerical", Some("weak")), "a.b:M via numerical [weak]");
}

#[test]
fn generation_specs_have_distinct_keys_and_routes() {
    let specs = generation_specs();
    let keys: Vec<&str> = specs.iter().map(|s| s.key).collect();
    assert_eq!(keys, vec!["rayleigh_calc", "nozzle_flow_calc", "conical_shock_calc", "oblique_shock_calc", "fanno_flow_calc"]);
    assert_eq!(specs[3].key, "oblique_shock_calc");
    assert_eq!(specs[4].key, "fanno_flow_calc");
    for s in &specs {
        assert_eq!(s.route, format!("devices/{}.md", s.key));
        assert!(!s.equation_dependencies.is_empty());
        for b in &s.binding_functions {
            assert!(b.op.starts_with("device."));
            if !b.fixed_args.is_empty() {
                assert_eq!(b.fixed_args[0].0, "input_kind");
                assert_eq!(b.fixed_args[1].0, "target_kind");
            }
        }
    }
    let entries = docs_entries();
    assert_eq!(entries.len(), 5);
    assert_eq!(entries[4].key, "fanno_flow_calc");
    assert_eq!(entries[4].route, "devices/fanno_flow_calc.md");
}

#[test]
fn binding_fixed_kinds_parse_in_their_device() {
    for b in &fanno_flow::generation_spec().binding_functions {
        if b.fixed_args.len() == 2 {
            assert!(fanno_flow::parse_input_kind(b.fixed_args[0].1).is_some());
            assert!(fanno_flow::parse_output_kind(b.fixed_args[1].1).is_some());
        }
    }
    for b in &oblique_shock::generation_spec().binding_functions {
        if b.fixed_args.len() == 2 {
            assert!(oblique_shock::parse_input_kind(b.fixed_args[0].1).is_some());
            assert!(oblique_shock::parse_output_kind(b.fixed_args[1].1).is_some());
        }
    }
    for b in &conical_shock::generation_spec().binding_functions {
        if b.fixed_args.len() == 2 {
            assert!(conical_shock::parse_input_kind(b.fixed_args[0].1).is_some());
            assert!(conical_shock::parse_output_kind(b.fixed_args[1].1).is_some());
        }
    }
}

#[derive(Clone, Copy)]
struct DummyReq {
    input: f64,
    scale: f64,
}

#[derive(Debug)]
struct DummyErr;

struct DummySpec;

impl PivotCalcSpec for DummySpec {
    type Request = DummyReq;
    type Value = f64;
    type Error = DummyErr;

    fn resolve_pivot(&self, req: &Self::Request, path: &mut Vec<CalcStep<f64>>) -> Result<f64, Self::Error> {
        path.push(CalcStep {
            equation_path_id: "dummy.to_pivot".to_string(),
            solved_for: "pivot".to_string(),
            method: "explicit".to_string(),
            branch: None,
            inputs_used: vec![("input".to_string(), req.input)],
        });
        Ok(req.input + 1.0)
    }

    fn validate_pivot(&self, pivot_value: f64) -> Result<(), Self::Error> {
        if pivot_value > 0.0 {
            Ok(())
        } else {
            Err(DummyErr)
        }
    }

    fn solve_target(&self, req: &Self::Request, pivot_value: f64, path: &mut Vec<CalcStep<f64>>) -> Result<f64, Self::Error> {
        path.push(CalcStep {
            equation_path_id: "dummy.from_pivot".to_string(),
            solved_for: "target".to_string(),
            method: "explicit".to_string(),
            branch: None,
            inputs_used: vec![("pivot".to_string(), pivot_value)],
        });
        Ok(pivot_value * req.scale)
    }
}

#[test]
fn run_pivot_calculation_collects_path_and_value() {
    let out = run_pivot_calculation(&DummySpec, DummyReq { input: 2.0, scale: 3.0 }).expect("dummy calc should succeed");
    assert_eq!(out.pivot_value, 3.0);
    assert_eq!(out.value_si, 9.0);
    assert_eq!(out.path.len(), 2);
    assert_eq!(path_text(&out.path), "dummy.to_pivot:pivot via explicit -> dummy.from_pivot:target via explicit");
}

#[test]
fn pivot_calculation_stops_at_a_rejected_pivot() {
    let out = run_pivot_calculation(&DummySpec, DummyReq { input: -5.0, scale: 3.0 });
    assert!(matches!(out, Err(DummyErr)));
    let ok = run_pivot_calculation(&DummySpec, DummyReq { input: 0.5, scale: 2.0 }).unwrap();
    assert!(ok.warnings.is_empty());
    assert_eq!(ok.value_si, 3.0);
}

struct CheckedSpec;

impl PivotCalcSpec for CheckedSpec {
    type Request = DummyReq;
    type Value = f64;
    type Error = DummyErr;

    fn validate_request(&self, req: &Self::Request) -> Result<(), Self::Error> {
        if req.input < 0.0 {
            Err(DummyErr)
        } else {
            Ok(())
        }
    }

    fn resolve_pivot(&self, req: &Self::Request, path: &mut Vec<CalcStep<f64>>) -> Result<f64, Self::Error> {
        DummySpec.resolve_pivot(req, path)
    }

    fn validate_pivot(&self, pivot_value: f64) -> Result<(), Self::Error> {
        DummySpec.validate_pivot(pivot_value)
    }

    fn solve_target(&self, req: &Self::Request, pivot_value: f64, path: &mut Vec<CalcStep<f64>>) -> Result<f64, Self::Error> {
        DummySpec.solve_target(req, pivot_value, path)
    }
}

#[test]
fn pivot_calculation_checks_the_request_first() {
    assert!(run_pivot_calculation(&DummySpec, DummyReq { input: -0.5, scale: 2.0 }).is_ok());
    assert!(matches!(run_pivot_calculation(&CheckedSpec, DummyReq { input: -0.5, scale: 2.0 }), Err(DummyErr)));
    let out = run_pivot_calculation(&CheckedSpec, DummyReq { input: 1.0, scale: 2.0 }).unwrap();
    assert_eq!((out.pivot_value, out.value_si, out.path.len()), (2.0, 4.0, 2));
}
