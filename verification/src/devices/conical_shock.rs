//! Conical-shock calculator: kind vocabulary, key parsing and the order of
//! shock-jump and Taylor-Maccoll steps that resolves the cone flow.
use vstd::prelude::*;
use crate::text::ends_with_deg;
use crate::devices::framework::{
    failure_view, names3, plan_view, planned, route_view, sv, PlannedStep, RouteError,
    RouteFailure, StepKind, StepView,
};
use crate::devices::oblique_shock::{deflection_step, normal_component_steps, push_normal_component_steps};
use crate::devices::{
    device_binding_table, device_row_matches, device_table_bindings, fixed_kinds_in, texts, DeviceBindingFunctionSpec,
    DeviceGenerationSpec, DeviceNameRow,
};
use crate::docs::binding_tables::{rows_at, PairRow, TextRow};
use crate::text::{lemma_normalize_canonical, normalize_key, normalize_seq, str_eq};

verus! {

/// The angle given with the upstream Mach number (radians).
#[derive(Debug, Clone, Copy, PartialEq, Eq, Structural)]
pub enum ConicalShockInputKind {
    ConeAngleRad,
    WaveAngleRad,
}

/// Quantity a conical-shock calculation reports (angles in radians).
#[derive(Debug, Clone, Copy, PartialEq, Eq, Structural)]
pub enum ConicalShockOutputKind {
    WaveAngleRad,
    ConeAngleRad,
    ShockTurnAngleRad,
    ConeSurfaceMach,
    PressureRatio,
    DensityRatio,
    TemperatureRatio,
    StagnationPressureRatio,
}

/// Root selection for the double-valued cone -> wave-angle inversion.
#[derive(Debug, Clone, Copy, PartialEq, Eq, Structural)]
pub enum ConicalShockBranch {
    Weak,
    Strong,
}

pub open spec fn branch_text(b: ConicalShockBranch) -> Seq<char> {
    match b {
        ConicalShockBranch::Weak => "weak"@,
        ConicalShockBranch::Strong => "strong"@,
    }
}

impl ConicalShockBranch {
    /// The lower-case name of the branch.
    pub fn as_str(self) -> (res: &'static str)
        ensures
            res@ == branch_text(self),
    {
        match self {
            ConicalShockBranch::Weak => "weak",
            ConicalShockBranch::Strong => "strong",
        }
    }
}

/// The input kind that a normalized key names, if any.
pub open spec fn input_kind_of(k: Seq<char>) -> Option<ConicalShockInputKind> {
    if k == "cone_angle"@ || k == "cone_angle_rad"@ || k == "cone_deg"@ || k == "cone_angle_deg"@ {
        Some(ConicalShockInputKind::ConeAngleRad)
    } else if k == "wave_angle"@ || k == "wave_angle_rad"@ || k == "beta"@ || k == "beta_deg"@ || k == "wave_deg"@ || k == "wave_angle_deg"@ {
        Some(ConicalShockInputKind::WaveAngleRad)
    } else {
        None
    }
}

/// Parses a input kind name; surrounding whitespace and ASCII case are ignored.
pub fn parse_input_kind(raw: &str) -> (res: Option<ConicalShockInputKind>)
    ensures
        res == input_kind_of(normalize_seq(raw@)),
{
    let key = normalize_key(raw);
    let k = key.as_str();
    if str_eq(k, "cone_angle") || str_eq(k, "cone_angle_rad") || str_eq(k, "cone_deg") || str_eq(k, "cone_angle_deg") {
        Some(ConicalShockInputKind::ConeAngleRad)
    } else if str_eq(k, "wave_angle") || str_eq(k, "wave_angle_rad") || str_eq(k, "beta") || str_eq(k, "beta_deg") || str_eq(k, "wave_deg") || str_eq(k, "wave_angle_deg") {
        Some(ConicalShockInputKind::WaveAngleRad)
    } else {
        None
    }
}

/// The output kind (with whether the result is wanted in degrees) that a normalized key names, if any.
pub open spec fn output_kind_of(k: Seq<char>) -> Option<(ConicalShockOutputKind, bool)> {
    if k == "wave_angle"@ || k == "wave_angle_rad"@ || k == "beta"@ || k == "beta_rad"@ {
        Some((ConicalShockOutputKind::WaveAngleRad, false))
    } else if k == "wave_angle_deg"@ || k == "beta_deg"@ {
        Some((ConicalShockOutputKind::WaveAngleRad, true))
    } else if k == "cone_angle"@ || k == "cone_angle_rad"@ {
        Some((ConicalShockOutputKind::ConeAngleRad, false))
    } else if k == "cone_angle_deg"@ {
        Some((ConicalShockOutputKind::ConeAngleRad, true))
    } else if k == "shock_turn_angle"@ || k == "shock_turn_angle_rad"@ || k == "theta"@ || k == "theta_rad"@ {
        Some((ConicalShockOutputKind::ShockTurnAngleRad, false))
    } else if k == "shock_turn_angle_deg"@ || k == "theta_deg"@ {
        Some((ConicalShockOutputKind::ShockTurnAngleRad, true))
    } else if k == "mc"@ || k == "cone_surface_mach"@ {
        Some((ConicalShockOutputKind::ConeSurfaceMach, false))
    } else if k == "pressure_ratio"@ || k == "p2_p1"@ || k == "p2/p1"@ {
        Some((ConicalShockOutputKind::PressureRatio, false))
    } else if k == "density_ratio"@ || k == "rho2_rho1"@ || k == "rho2/rho1"@ {
        Some((ConicalShockOutputKind::DensityRatio, false))
    } else if k == "temperature_ratio"@ || k == "t2_t1"@ || k == "t2/t1"@ {
        Some((ConicalShockOutputKind::TemperatureRatio, false))
    } else if k == "stagnation_pressure_ratio"@ || k == "p02_p01"@ || k == "p02/p01"@ {
        Some((ConicalShockOutputKind::StagnationPressureRatio, false))
    } else {
        None
    }
}

/// An output key asks for degrees exactly when it ends in `_deg`.
pub proof fn output_degrees_follow_the_suffix(k: Seq<char>)
    ensures
        output_kind_of(k) matches Some((_, deg)) ==> deg == ends_with_deg(k),
{
    reveal_strlit("beta");
    reveal_strlit("beta_deg");
    reveal_strlit("beta_rad");
    reveal_strlit("cone_angle");
    reveal_strlit("cone_angle_deg");
    reveal_strlit("cone_angle_rad");
    reveal_strlit("cone_surface_mach");
    reveal_strlit("density_ratio");
    reveal_strlit("mc");
    reveal_strlit("p02/p01");
    reveal_strlit("p02_p01");
    reveal_strlit("p2/p1");
    reveal_strlit("p2_p1");
    reveal_strlit("pressure_ratio");
    reveal_strlit("rho2/rho1");
    reveal_strlit("rho2_rho1");
    reveal_strlit("shock_turn_angle");
    reveal_strlit("shock_turn_angle_deg");
    reveal_strlit("shock_turn_angle_rad");
    reveal_strlit("stagnation_pressure_ratio");
    reveal_strlit("t2/t1");
    reveal_strlit("t2_t1");
    reveal_strlit("temperature_ratio");
    reveal_strlit("theta");
    reveal_strlit("theta_deg");
    reveal_strlit("theta_rad");
    reveal_strlit("wave_angle");
    reveal_strlit("wave_angle_deg");
    reveal_strlit("wave_angle_rad");
}

/// Parses a output kind (with whether the result is wanted in degrees) name; surrounding whitespace and ASCII case are ignored.
pub fn parse_output_kind(raw: &str) -> (res: Option<(ConicalShockOutputKind, bool)>)
    ensures
        res == output_kind_of(normalize_seq(raw@)),
{
    let key = normalize_key(raw);
    let k = key.as_str();
    if str_eq(k, "wave_angle") || str_eq(k, "wave_angle_rad") || str_eq(k, "beta") || str_eq(k, "beta_rad") {
        Some((ConicalShockOutputKind::WaveAngleRad, false))
    } else if str_eq(k, "wave_angle_deg") || str_eq(k, "beta_deg") {
        Some((ConicalShockOutputKind::WaveAngleRad, true))
    } else if str_eq(k, "cone_angle") || str_eq(k, "cone_angle_rad") {
        Some((ConicalShockOutputKind::ConeAngleRad, false))
    } else if str_eq(k, "cone_angle_deg") {
        Some((ConicalShockOutputKind::ConeAngleRad, true))
    } else if str_eq(k, "shock_turn_angle") || str_eq(k, "shock_turn_angle_rad") || str_eq(k, "theta") || str_eq(k, "theta_rad") {
        Some((ConicalShockOutputKind::ShockTurnAngleRad, false))
    } else if str_eq(k, "shock_turn_angle_deg") || str_eq(k, "theta_deg") {
        Some((ConicalShockOutputKind::ShockTurnAngleRad, true))
    } else if str_eq(k, "mc") || str_eq(k, "cone_surface_mach") {
        Some((ConicalShockOutputKind::ConeSurfaceMach, false))
    } else if str_eq(k, "pressure_ratio") || str_eq(k, "p2_p1") || str_eq(k, "p2/p1") {
        Some((ConicalShockOutputKind::PressureRatio, false))
    } else if str_eq(k, "density_ratio") || str_eq(k, "rho2_rho1") || str_eq(k, "rho2/rho1") {
        Some((ConicalShockOutputKind::DensityRatio, false))
    } else if str_eq(k, "temperature_ratio") || str_eq(k, "t2_t1") || str_eq(k, "t2/t1") {
        Some((ConicalShockOutputKind::TemperatureRatio, false))
    } else if str_eq(k, "stagnation_pressure_ratio") || str_eq(k, "p02_p01") || str_eq(k, "p02/p01") {
        Some((ConicalShockOutputKind::StagnationPressureRatio, false))
    } else {
        None
    }
}

/// The branch that a normalized key names, if any.
pub open spec fn branch_of(k: Seq<char>) -> Option<ConicalShockBranch> {
    if k == "weak"@ {
        Some(ConicalShockBranch::Weak)
    } else if k == "strong"@ {
        Some(ConicalShockBranch::Strong)
    } else {
        None
    }
}

/// Parses a branch name; surrounding whitespace and ASCII case are ignored.
pub fn parse_branch(raw: &str) -> (res: Option<ConicalShockBranch>)
    ensures
        res == branch_of(normalize_seq(raw@)),
{
    let key = normalize_key(raw);
    let k = key.as_str();
    if str_eq(k, "weak") {
        Some(ConicalShockBranch::Weak)
    } else if str_eq(k, "strong") {
        Some(ConicalShockBranch::Strong)
    } else {
        None
    }
}

pub open spec fn input_kind_name(kind: ConicalShockInputKind) -> Seq<char> {
    match kind {
        ConicalShockInputKind::ConeAngleRad => "cone_angle"@,
        ConicalShockInputKind::WaveAngleRad => "wave_angle"@,
    }
}

/// The name under which errors report an input kind.
pub fn input_kind_label(kind: ConicalShockInputKind) -> (res: &'static str)
    ensures
        res@ == input_kind_name(kind),
{
    match kind {
        ConicalShockInputKind::ConeAngleRad => "cone_angle",
        ConicalShockInputKind::WaveAngleRad => "wave_angle",
    }
}

/// Whether the input value of a kind key is given in degrees (and is to be
/// converted to radians before solving).
pub open spec fn input_in_degrees(k: Seq<char>) -> bool {
    k == "cone_deg"@ || k == "cone_angle_deg"@ || k == "wave_deg"@ || k == "wave_angle_deg"@ || k == "beta_deg"@
}

/// An input key gives its value in degrees exactly when it is a known key ending in `_deg`.
pub proof fn input_degrees_follow_the_suffix(k: Seq<char>)
    ensures
        input_kind_of(k) is Some ==> (input_in_degrees(k) <==> ends_with_deg(k)),
        input_in_degrees(k) ==> input_kind_of(k) is Some,
{
    reveal_strlit("beta_deg");
    reveal_strlit("cone_angle_deg");
    reveal_strlit("cone_deg");
    reveal_strlit("wave_angle_deg");
    reveal_strlit("wave_deg");
    reveal_strlit("cone_angle");
    reveal_strlit("cone_angle_rad");
    reveal_strlit("wave_angle");
    reveal_strlit("wave_angle_rad");
    reveal_strlit("beta");
}

/// Whether the raw input kind names a degree-valued angle.
pub fn input_value_in_degrees(raw: &str) -> (res: bool)
    ensures
        res == input_in_degrees(normalize_seq(raw@)),
{
    let key = normalize_key(raw);
    let k = key.as_str();
    str_eq(k, "cone_deg") || str_eq(k, "cone_angle_deg") || str_eq(k, "wave_deg") || str_eq(k, "wave_angle_deg")
        || str_eq(k, "beta_deg")
}

/// The oblique-shock jump at the wave angle: deflection, then the normal-component relations.
pub open spec fn shock_jump_steps() -> Seq<StepView> {
    seq![deflection_step()] + normal_component_steps()
}

/// Appends the shock-jump steps.
pub fn push_shock_jump_steps(steps: &mut Vec<PlannedStep>)
    ensures
        plan_view(final(steps)@) == plan_view(old(steps)@) + shock_jump_steps(),
{
    let ghost start = plan_view(steps@);
    steps.push(planned(StepKind::Equation, "compressible.oblique_shock_theta_beta_m", "theta", names3("m1", "beta", "gamma"), None));
    let ghost mid = plan_view(steps@);
    assert(mid =~= start.push(deflection_step()));
    push_normal_component_steps(steps);
    assert(plan_view(steps@) =~= start + shock_jump_steps());
}

/// The whole solve route. From a wave angle: the jump, the Taylor-Maccoll
/// integration to the cone, the jump again. From a cone angle: the
/// branch-selected wave-angle search, then the jump twice.
pub open spec fn route_spec(input: ConicalShockInputKind, branch: Option<ConicalShockBranch>) -> Result<Seq<StepView>, RouteFailure> {
    match input {
        ConicalShockInputKind::WaveAngleRad => Ok(shock_jump_steps()
            + seq![sv(StepKind::Inversion, "compressible.conical_shock_taylor_maccoll"@, "cone_angle"@, seq!["m1"@, "wave_angle"@, "gamma"@], None)]
            + shock_jump_steps()),
        ConicalShockInputKind::ConeAngleRad => match branch {
            None => Err(RouteFailure::MissingBranch("cone_angle"@)),
            Some(b) => Ok(seq![sv(StepKind::Inversion, "compressible.conical_shock_taylor_maccoll"@, "wave_angle"@,
                seq!["m1"@, "cone_angle"@, "gamma"@], Some(branch_text(b)))] + shock_jump_steps() + shock_jump_steps()),
        },
    }
}

/// Plans the equation steps of a conical-shock calculation.
pub fn route(input: ConicalShockInputKind, branch: Option<ConicalShockBranch>) -> (res: Result<Vec<PlannedStep>, RouteError>)
    ensures
        route_view(res) == route_spec(input, branch),
{
    let mut steps: Vec<PlannedStep> = Vec::new();
    match input {
        ConicalShockInputKind::WaveAngleRad => {
            push_shock_jump_steps(&mut steps);
            let ghost a = plan_view(steps@);
            steps.push(planned(StepKind::Inversion, "compressible.conical_shock_taylor_maccoll", "cone_angle", names3("m1", "wave_angle", "gamma"), None));
            let ghost b = plan_view(steps@);
            assert(b =~= a.push(sv(StepKind::Inversion, "compressible.conical_shock_taylor_maccoll"@, "cone_angle"@, seq!["m1"@, "wave_angle"@, "gamma"@], None)));
            push_shock_jump_steps(&mut steps);
            assert(plan_view(steps@) =~= shock_jump_steps()
                + seq![sv(StepKind::Inversion, "compressible.conical_shock_taylor_maccoll"@, "cone_angle"@, seq!["m1"@, "wave_angle"@, "gamma"@], None)]
                + shock_jump_steps());
        },
        ConicalShockInputKind::ConeAngleRad => match branch {
            None => {
                let e = RouteError::MissingBranch { kind: "cone_angle" };
                assert(failure_view(e) == RouteFailure::MissingBranch("cone_angle"@));
                return Err(e);
            },
            Some(br) => {
                steps.push(planned(StepKind::Inversion, "compressible.conical_shock_taylor_maccoll", "wave_angle", names3("m1", "cone_angle", "gamma"), Some(br.as_str())));
                let ghost a = plan_view(steps@);
                assert(a =~= seq![sv(StepKind::Inversion, "compressible.conical_shock_taylor_maccoll"@, "wave_angle"@,
                    seq!["m1"@, "cone_angle"@, "gamma"@], Some(branch_text(br)))]);
                push_shock_jump_steps(&mut steps);
                push_shock_jump_steps(&mut steps);
                assert(plan_view(steps@) =~= a + shock_jump_steps() + shock_jump_steps());
            },
        },
    }
    Ok(steps)
}

/// A cone-angle input without a branch is refused; otherwise the route has
/// fifteen steps.
pub proof fn route_branch_law(input: ConicalShockInputKind, branch: Option<ConicalShockBranch>)
    ensures
        (route_spec(input, branch) is Err) <==> (input == ConicalShockInputKind::ConeAngleRad && branch is None),
        route_spec(input, branch) is Ok ==> route_spec(input, branch)->Ok_0.len() == 15,
{
}

/// Reading back a branch's own name gives that branch.
pub proof fn branch_name_round_trip(b: ConicalShockBranch)
    ensures
        branch_of(normalize_seq(branch_text(b))) == Some(b),
{
    reveal_strlit("weak");
    reveal_strlit("strong");
    lemma_normalize_canonical("weak"@);
    lemma_normalize_canonical("strong"@);
}

} // verus!

// ---- documentation and binding metadata ----

verus! {

/// The bindings section of the device's documentation page.
pub const BINDINGS_MD: &'static str = "## Bindings\n\n### Python\n```python\nengpy.devices.conical_shock_calc(2.2, \"cone_angle_deg\", 12.0, \"wave_angle_deg\", 1.4, \"weak\")\nengpy.devices.conical_shock_from_m1_cone_deg_to_wave_deg(2.2, 12.0, 1.4, \"weak\")\nengpy.devices.conical_shock_from_m1_cone_deg_to_p2_p1(2.2, 12.0, 1.4, \"weak\")\nengpy.devices.conical_shock_from_m1_cone_deg_to_mc(2.2, 12.0, 1.4, \"weak\")\nengpy.devices.conical_shock_from_m1_wave_deg_to_cone_deg(2.2, 36.0, 1.4)\nengpy.devices.conical_shock_path_text(2.2, \"cone_angle_deg\", 12.0, \"mc\", 1.4, \"weak\")\n```\n\n### Excel\n```excel\n=ENG_CONICAL_SHOCK(2.2,\"cone_angle_deg\",12.0,\"wave_angle_deg\",1.4,\"weak\")\n=ENG_CONICAL_SHOCK_FROM_M1_CONE_DEG_TO_WAVE_DEG(2.2,12.0,1.4,\"weak\")\n=ENG_CONICAL_SHOCK_FROM_M1_CONE_DEG_TO_P2_P1(2.2,12.0,1.4,\"weak\")\n=ENG_CONICAL_SHOCK_FROM_M1_CONE_DEG_TO_MC(2.2,12.0,1.4,\"weak\")\n=ENG_CONICAL_SHOCK_FROM_M1_WAVE_DEG_TO_CONE_DEG(2.2,36.0,1.4)\n=ENG_CONICAL_SHOCK_PATH_TEXT(2.2,\"cone_angle_deg\",12.0,\"mc\",1.4,\"weak\")\n```\n\n**Excel arguments**\n- `m1`: upstream Mach number\n- `value_kind_in`: `cone_angle_deg` or `wave_angle_deg`\n- `value_in`: input angle in degrees\n- `target_kind_out`: `wave_angle_deg`, `cone_angle_deg`, `shock_turn_angle_deg`, `mc`, `p2_p1`, `rho2_rho1`, `t2_t1`, `p02_p01`\n- `gamma`: specific heat ratio\n- `branch`: `weak`/`strong` for cone-angle inversion paths\n";

/// The overview section of the device's documentation page.
pub const OVERVIEW_MD: &'static str = "## Overview\n\nA production conical-shock calculator that combines compressible jump relations with Taylor-Maccoll integration for axisymmetric cone flow.\n\n### Supported input forms\n- `(M1, cone_angle_deg)`\n- `(M1, wave_angle_deg)`\n\n### Supported outputs\n- `wave_angle_deg`\n- `cone_angle_deg`\n- `shock_turn_angle_deg`\n- `mc` (cone-surface Mach)\n- `p2_p1`\n- `rho2_rho1`\n- `t2_t1`\n- `p02_p01`\n\n### Branch behavior\n- `M1 + cone_angle -> wave_angle` paths are branch-sensitive. Use explicit `weak` or `strong` branch selection.\n\n### Domain behavior\n- Returns structured errors for invalid Mach/angles, detached/no-solution regimes, and numerical convergence failures.\n\n### Rust\n```rust\nuse eng::devices::{conical_shock_calc, ConicalShockInputKind, ConicalShockOutputKind, ConicalShockBranch};\nlet out = conical_shock_calc()\n    .gamma(1.4)\n    .m1(2.2)\n    .input(ConicalShockInputKind::ConeAngleRad, 12f64.to_radians())\n    .target(ConicalShockOutputKind::WaveAngleRad)\n    .branch(ConicalShockBranch::Weak)\n    .solve()?;\nprintln!(\"wave={} deg, Mc={}\", out.wave_angle_rad.to_degrees(), out.cone_surface_mach);\n```\n";




/// The kind keys that a binding may fix.
pub open spec fn binding_input_keys() -> Seq<Seq<char>> {
    seq!["cone_angle_deg"@, "wave_angle_deg"@]
}

pub open spec fn binding_output_keys() -> Seq<Seq<char>> {
    seq!["wave_angle_deg"@, "p2_p1"@, "mc"@, "cone_angle_deg"@]
}

/// The invoke operations that the device's bindings call.
pub open spec fn binding_op(op: Seq<char>) -> bool {
    op == "device.conical_shock_calc.value"@ || op == "device.conical_shock_calc.path_text"@
}

/// Every binding calls one of the device's operations, and fixes either
/// nothing or an input kind and a target kind that the device accepts.
pub open spec fn bindings_ok(b: Seq<DeviceBindingFunctionSpec>) -> bool {
    forall|i: int| 0 <= i < b.len() ==> binding_op((#[trigger] b[i]).op@)
        && fixed_kinds_in(b[i].fixed_args@, binding_input_keys(), binding_output_keys())
}

/// The names of the device's bindings, and the kinds each fixes.
pub const BINDING_NAMES: [DeviceNameRow; 6] = [
    ("device.conical_shock_calc", "conical_shock_calc", "ENG_CONICAL_SHOCK", "device.conical_shock_calc.value", "", ""),
    ("device.conical_shock_calc.path_text", "conical_shock_path_text", "ENG_CONICAL_SHOCK_PATH_TEXT", "device.conical_shock_calc.path_text", "", ""),
    ("device.conical_shock_calc.from_m1_cone.to_wave", "conical_shock_from_m1_cone_deg_to_wave_deg", "ENG_CONICAL_SHOCK_FROM_M1_CONE_DEG_TO_WAVE_DEG", "device.conical_shock_calc.value", "cone_angle_deg", "wave_angle_deg"),
    ("device.conical_shock_calc.from_m1_cone.to_p2_p1", "conical_shock_from_m1_cone_deg_to_p2_p1", "ENG_CONICAL_SHOCK_FROM_M1_CONE_DEG_TO_P2_P1", "device.conical_shock_calc.value", "cone_angle_deg", "p2_p1"),
    ("device.conical_shock_calc.from_m1_cone.to_mc", "conical_shock_from_m1_cone_deg_to_mc", "ENG_CONICAL_SHOCK_FROM_M1_CONE_DEG_TO_MC", "device.conical_shock_calc.value", "cone_angle_deg", "mc"),
    ("device.conical_shock_calc.from_m1_wave.to_cone", "conical_shock_from_m1_wave_deg_to_cone_deg", "ENG_CONICAL_SHOCK_FROM_M1_WAVE_DEG_TO_CONE_DEG", "device.conical_shock_calc.value", "wave_angle_deg", "cone_angle_deg"),
];

/// The texts of the device's bindings, position by position.
pub const BINDING_TEXTS: [TextRow; 6] = [
    ("f64", "Conical shock calculator: (M1 + cone/wave angle) -> target with Taylor-Maccoll integration", "eng::devices::conical_shock_calc().solve()?", "engpy.devices.conical_shock_calc(2.2, \"cone_angle_deg\", 12.0, \"wave_angle_deg\", 1.4, \"weak\")", "=ENG_CONICAL_SHOCK(2.2,\"cone_angle_deg\",12.0,\"wave_angle_deg\",1.4,\"weak\")", "=ENG_CONICAL_SHOCK(2.2,\"cone_angle_deg\",12.0,\"wave_angle_deg\",1.4,\"weak\")"),
    ("str", "Conical shock calculator helper: compact step trace text", "eng::invoke::process_invoke_json(\"...\")", "engpy.devices.conical_shock_path_text(2.2, \"cone_angle_deg\", 12.0, \"p2_p1\", 1.4, \"weak\")", "=ENG_CONICAL_SHOCK_PATH_TEXT(2.2,\"cone_angle_deg\",12.0,\"p2_p1\",1.4,\"weak\")", "=ENG_CONICAL_SHOCK_PATH_TEXT(2.2,\"cone_angle_deg\",12.0,\"p2_p1\",1.4,\"weak\")"),
    ("f64", "Convenience conical-shock path: (M1, cone_angle_deg, branch) -> wave_angle_deg", "eng::invoke::process_invoke_json(\"...\")", "engpy.devices.conical_shock_from_m1_cone_deg_to_wave_deg(2.2, 12.0, 1.4, \"weak\")", "=ENG_CONICAL_SHOCK_FROM_M1_CONE_DEG_TO_WAVE_DEG(2.2,12.0,1.4,\"weak\")", "=ENG_CONICAL_SHOCK_FROM_M1_CONE_DEG_TO_WAVE_DEG(2.2,12.0,1.4,\"weak\")"),
    ("f64", "Convenience conical-shock path: (M1, cone_angle_deg, branch) -> p2/p1", "eng::invoke::process_invoke_json(\"...\")", "engpy.devices.conical_shock_from_m1_cone_deg_to_p2_p1(2.2, 12.0, 1.4, \"weak\")", "=ENG_CONICAL_SHOCK_FROM_M1_CONE_DEG_TO_P2_P1(2.2,12.0,1.4,\"weak\")", "=ENG_CONICAL_SHOCK_FROM_M1_CONE_DEG_TO_P2_P1(2.2,12.0,1.4,\"weak\")"),
    ("f64", "Convenience conical-shock path: (M1, cone_angle_deg, branch) -> cone-surface Mach", "eng::invoke::process_invoke_json(\"...\")", "engpy.devices.conical_shock_from_m1_cone_deg_to_mc(2.2, 12.0, 1.4, \"weak\")", "=ENG_CONICAL_SHOCK_FROM_M1_CONE_DEG_TO_MC(2.2,12.0,1.4,\"weak\")", "=ENG_CONICAL_SHOCK_FROM_M1_CONE_DEG_TO_MC(2.2,12.0,1.4,\"weak\")"),
    ("f64", "Convenience conical-shock path: (M1, wave_angle_deg) -> cone_angle_deg", "eng::invoke::process_invoke_json(\"...\")", "engpy.devices.conical_shock_from_m1_wave_deg_to_cone_deg(2.2, 36.0, 1.4)", "=ENG_CONICAL_SHOCK_FROM_M1_WAVE_DEG_TO_CONE_DEG(2.2,36.0,1.4)", "=ENG_CONICAL_SHOCK_FROM_M1_WAVE_DEG_TO_CONE_DEG(2.2,36.0,1.4)"),
];

/// The arguments of the device's bindings, in order: binding position, name, description.
pub const BINDING_ARGS: [PairRow; 27] = [
    (0, "m1", "Upstream Mach number M1"),
    (0, "input_kind", "Input kind (cone_angle_deg or wave_angle_deg)"),
    (0, "input_value", "Input angle value in degrees"),
    (0, "target_kind", "Target kind (wave_angle_deg, cone_angle_deg, shock_turn_angle_deg, mc, p2_p1, rho2_rho1, t2_t1, p02_p01)"),
    (0, "gamma", "Specific heat ratio"),
    (0, "branch", "Weak/strong branch for cone-angle inversion paths"),
    (1, "m1", "Upstream Mach number M1"),
    (1, "input_kind", "Input kind (cone_angle_deg or wave_angle_deg)"),
    (1, "input_value", "Input angle value in degrees"),
    (1, "target_kind", "Target kind (wave_angle_deg, cone_angle_deg, shock_turn_angle_deg, mc, p2_p1, rho2_rho1, t2_t1, p02_p01)"),
    (1, "gamma", "Specific heat ratio"),
    (1, "branch", "Weak/strong branch for cone-angle inversion paths"),
    (2, "m1", "Upstream Mach number M1"),
    (2, "input_value", "Cone angle in degrees"),
    (2, "gamma", "Specific heat ratio"),
    (2, "branch", "Weak or strong branch"),
    (3, "m1", "Upstream Mach number M1"),
    (3, "input_value", "Cone angle in degrees"),
    (3, "gamma", "Specific heat ratio"),
    (3, "branch", "Weak or strong branch"),
    (4, "m1", "Upstream Mach number M1"),
    (4, "input_value", "Cone angle in degrees"),
    (4, "gamma", "Specific heat ratio"),
    (4, "branch", "Weak or strong branch"),
    (5, "m1", "Upstream Mach number M1"),
    (5, "input_value", "Input angle in degrees"),
    (5, "gamma", "Specific heat ratio"),
];

fn binding_functions() -> (res: Vec<DeviceBindingFunctionSpec>)
    ensures
        device_table_bindings(res@, BINDING_NAMES@, BINDING_TEXTS@, BINDING_ARGS@),
        res.len() == 6,
        bindings_ok(res@),
{
    let names = BINDING_NAMES.as_slice();
    let texts = BINDING_TEXTS.as_slice();
    let args = BINDING_ARGS.as_slice();
    assert(names@ == BINDING_NAMES@ && texts@ == BINDING_TEXTS@ && args@ == BINDING_ARGS@);
    let res = device_binding_table(names, texts, args);
    proof {
        reveal_strlit("");
        assert forall|i: int| 0 <= i < res@.len() implies binding_op((#[trigger] res@[i]).op@) && fixed_kinds_in(
            res@[i].fixed_args@,
            binding_input_keys(),
            binding_output_keys(),
        ) by {
            assert(device_row_matches(res@[i], BINDING_NAMES@[i], BINDING_TEXTS@[i], rows_at(BINDING_ARGS@, i)));
            if i == 0 {
            } else if i == 1 {
            } else if i == 2 {
                reveal_strlit("cone_angle_deg");
                assert(binding_input_keys()[0] == "cone_angle_deg"@);
                assert(binding_output_keys()[0] == "wave_angle_deg"@);
            } else if i == 3 {
                reveal_strlit("cone_angle_deg");
                assert(binding_input_keys()[0] == "cone_angle_deg"@);
                assert(binding_output_keys()[1] == "p2_p1"@);
            } else if i == 4 {
                reveal_strlit("cone_angle_deg");
                assert(binding_input_keys()[0] == "cone_angle_deg"@);
                assert(binding_output_keys()[2] == "mc"@);
            } else if i == 5 {
                reveal_strlit("wave_angle_deg");
                assert(binding_input_keys()[1] == "wave_angle_deg"@);
                assert(binding_output_keys()[3] == "cone_angle_deg"@);
            }
        }
    }
    res
}


/// What the device's generation metadata holds: its names, route, modes,
/// outputs, equation dependencies, page sections and bindings.
pub open spec fn generation_spec_fields(spec: DeviceGenerationSpec) -> bool {
    &&& spec.key@ == "conical_shock_calc"@
    &&& spec.name@ == "Conical Shock Calculator"@
    &&& spec.summary@ == "Calculator-style compressible device for Taylor-Maccoll conical-shock workflows with explicit weak/strong branch handling."@
    &&& spec.route@ == "devices/conical_shock_calc.md"@
    &&& texts(spec.supported_modes@) == seq!["Input forms: (M1, cone_angle), (M1, wave_angle)"@, "Taylor-Maccoll integrated conical-flow state resolution"@]
    &&& texts(spec.outputs@) == seq!["value_si"@, "wave_angle_rad"@, "cone_angle_rad"@, "shock_turn_angle_rad"@, "cone_surface_mach"@, "path diagnostics"@]
    &&& texts(spec.equation_dependencies@) == seq!["compressible.oblique_shock_theta_beta_m"@, "compressible.oblique_shock_mn1"@, "compressible.normal_shock_m2"@, "compressible.normal_shock_pressure_ratio"@, "compressible.normal_shock_density_ratio"@, "compressible.normal_shock_temperature_ratio"@, "compressible.normal_shock_stagnation_pressure_ratio"@]
    &&& spec.binding_markdown == BINDINGS_MD
    &&& spec.overview_markdown == OVERVIEW_MD
    &&& spec.binding_functions.len() == 6
    &&& bindings_ok(spec.binding_functions@)
    &&& device_table_bindings(spec.binding_functions@, BINDING_NAMES@, BINDING_TEXTS@, BINDING_ARGS@)
}

/// The documentation and binding metadata of the device.
pub fn generation_spec() -> (spec: DeviceGenerationSpec)
    ensures
        generation_spec_fields(spec),
{
    let spec = DeviceGenerationSpec {
        key: "conical_shock_calc",
        name: "Conical Shock Calculator",
        summary: "Calculator-style compressible device for Taylor-Maccoll conical-shock workflows with explicit weak/strong branch handling.",
        supported_modes: vec!["Input forms: (M1, cone_angle), (M1, wave_angle)", "Taylor-Maccoll integrated conical-flow state resolution"],
        outputs: vec!["value_si", "wave_angle_rad", "cone_angle_rad", "shock_turn_angle_rad", "cone_surface_mach", "path diagnostics"],
        route: "devices/conical_shock_calc.md",
        binding_markdown: BINDINGS_MD,
        overview_markdown: OVERVIEW_MD,
        equation_dependencies: vec![
            "compressible.oblique_shock_theta_beta_m",
            "compressible.oblique_shock_mn1",
            "compressible.normal_shock_m2",
            "compressible.normal_shock_pressure_ratio",
            "compressible.normal_shock_density_ratio",
            "compressible.normal_shock_temperature_ratio",
            "compressible.normal_shock_stagnation_pressure_ratio",
        ],
        binding_functions: binding_functions(),
    };
    assert(texts(spec.supported_modes@) =~= seq!["Input forms: (M1, cone_angle), (M1, wave_angle)"@, "Taylor-Maccoll integrated conical-flow state resolution"@]);
    assert(texts(spec.outputs@) =~= seq!["value_si"@, "wave_angle_rad"@, "cone_angle_rad"@, "shock_turn_angle_rad"@, "cone_surface_mach"@, "path diagnostics"@]);
    assert(texts(spec.equation_dependencies@) =~= seq!["compressible.oblique_shock_theta_beta_m"@, "compressible.oblique_shock_mn1"@, "compressible.normal_shock_m2"@, "compressible.normal_shock_pressure_ratio"@, "compressible.normal_shock_density_ratio"@, "compressible.normal_shock_temperature_ratio"@, "compressible.normal_shock_stagnation_pressure_ratio"@]);
    spec
}

/// Each key a binding may fix is accepted by the matching parser.
pub proof fn binding_keys_parse()
    ensures
        input_kind_of(normalize_seq(binding_input_keys()[0])) is Some,
        input_kind_of(normalize_seq(binding_input_keys()[1])) is Some,
        output_kind_of(normalize_seq(binding_output_keys()[0])) is Some,
        output_kind_of(normalize_seq(binding_output_keys()[1])) is Some,
        output_kind_of(normalize_seq(binding_output_keys()[2])) is Some,
        output_kind_of(normalize_seq(binding_output_keys()[3])) is Some,
{
    reveal_strlit("cone_angle_deg");
    reveal_strlit("wave_angle_deg");
    reveal_strlit("p2_p1");
    reveal_strlit("mc");
    lemma_normalize_canonical("cone_angle_deg"@);
    lemma_normalize_canonical("wave_angle_deg"@);
    lemma_normalize_canonical("p2_p1"@);
    lemma_normalize_canonical("mc"@);
}

/// The kinds that a binding fixes are accepted by the device's parsers.
pub proof fn binding_fixed_kinds_parse(fixed: Seq<(&'static str, &'static str)>)
    requires
        fixed_kinds_in(fixed, binding_input_keys(), binding_output_keys()),
        fixed.len() == 2,
    ensures
        input_kind_of(normalize_seq(fixed[0].1@)) is Some,
        output_kind_of(normalize_seq(fixed[1].1@)) is Some,
{
    binding_keys_parse();
    let j = choose|j: int| 0 <= j < binding_input_keys().len() && binding_input_keys()[j] == fixed[0].1@;
    let k = choose|k: int| 0 <= k < binding_output_keys().len() && binding_output_keys()[k] == fixed[1].1@;
    assert(input_kind_of(normalize_seq(binding_input_keys()[j])) is Some) by {
        if j == 0 {} else if j == 1 {}
    }
    assert(output_kind_of(normalize_seq(binding_output_keys()[k])) is Some) by {
        if k == 0 {} else if k == 1 {} else if k == 2 {} else if k == 3 {}
    }
}



/// The `_deg` and `_rad` keys of one angle name the same output kind, the
/// first in degrees and the second in radians.
pub proof fn degree_and_radian_keys_agree(b: Seq<char>)
    ensures
        output_kind_of(b + "_rad"@) matches Some((kd, deg)) ==> !deg && output_kind_of(b + "_deg"@) == Some((kd, true)),
{
    reveal_strlit("_rad");
    reveal_strlit("_deg");
    if output_kind_of(b + "_rad"@) is Some {
        reveal_strlit("beta");
        reveal_strlit("beta_deg");
        reveal_strlit("beta_rad");
        reveal_strlit("cone_angle");
        reveal_strlit("cone_angle_deg");
        reveal_strlit("cone_angle_rad");
        reveal_strlit("cone_surface_mach");
        reveal_strlit("density_ratio");
        reveal_strlit("mc");
        reveal_strlit("p02/p01");
        reveal_strlit("p02_p01");
        reveal_strlit("p2/p1");
        reveal_strlit("p2_p1");
        reveal_strlit("pressure_ratio");
        reveal_strlit("rho2/rho1");
        reveal_strlit("rho2_rho1");
        reveal_strlit("shock_turn_angle");
        reveal_strlit("shock_turn_angle_deg");
        reveal_strlit("shock_turn_angle_rad");
        reveal_strlit("stagnation_pressure_ratio");
        reveal_strlit("t2/t1");
        reveal_strlit("t2_t1");
        reveal_strlit("temperature_ratio");
        reveal_strlit("theta");
        reveal_strlit("theta_deg");
        reveal_strlit("theta_rad");
        reveal_strlit("wave_angle");
        reveal_strlit("wave_angle_deg");
        reveal_strlit("wave_angle_rad");
        let r = b + "_rad"@;
        assert(r.len() >= 4 && r[r.len() - 4] == '_' && r[r.len() - 3] == 'r');
        if r == "beta_rad"@ {
            assert(b =~= "beta"@) by {
                assert(b =~= r.subrange(0, b.len() as int));
            }
            assert(b + "_deg"@ =~= "beta_deg"@);
            assert("beta_deg"@[5] != "beta_rad"@[5]);
        } else if r == "cone_angle_rad"@ {
            assert(b =~= "cone_angle"@) by {
                assert(b =~= r.subrange(0, b.len() as int));
            }
            assert(b + "_deg"@ =~= "cone_angle_deg"@);
            assert("cone_angle_deg"@[11] != "cone_angle_rad"@[11]);
            assert("cone_angle_deg"@[0] != "pressure_ratio"@[0]);
            assert("cone_angle_deg"@[0] != "wave_angle_deg"@[0]);
            assert("cone_angle_deg"@[0] != "wave_angle_rad"@[0]);
        } else if r == "shock_turn_angle_rad"@ {
            assert(b =~= "shock_turn_angle"@) by {
                assert(b =~= r.subrange(0, b.len() as int));
            }
            assert(b + "_deg"@ =~= "shock_turn_angle_deg"@);
            assert("shock_turn_angle_deg"@[17] != "shock_turn_angle_rad"@[17]);
        } else if r == "theta_rad"@ {
            assert(b =~= "theta"@) by {
                assert(b =~= r.subrange(0, b.len() as int));
            }
            assert(b + "_deg"@ =~= "theta_deg"@);
            assert("theta_deg"@[0] != "rho2/rho1"@[0]);
            assert("theta_deg"@[0] != "rho2_rho1"@[0]);
            assert("theta_deg"@[6] != "theta_rad"@[6]);
        } else {
            assert(r == "wave_angle_rad"@);
            assert(b =~= "wave_angle"@) by {
                assert(b =~= r.subrange(0, b.len() as int));
            }
            assert(b + "_deg"@ =~= "wave_angle_deg"@);
            assert("wave_angle_deg"@[0] != "cone_angle_deg"@[0]);
            assert("wave_angle_deg"@[0] != "cone_angle_rad"@[0]);
            assert("wave_angle_deg"@[0] != "pressure_ratio"@[0]);
            assert("wave_angle_deg"@[11] != "wave_angle_rad"@[11]);
        }
    }
}


/// The Taylor-Maccoll step takes the angle the input kind names and solves for
/// the other angle: from a wave angle the cone angle, from a cone angle the
/// wave angle.
pub proof fn taylor_maccoll_step_turns_the_given_angle_into_the_other(input: ConicalShockInputKind, branch: Option<ConicalShockBranch>)
    ensures
        route_spec(input, branch) matches Ok(steps) ==> exists|j: int|
            #![trigger steps[j]]
            0 <= j < steps.len() && steps[j].id == "compressible.conical_shock_taylor_maccoll"@ && input_kind_of(steps[j].inputs[1])
                == Some(input) && input_kind_of(steps[j].solved) is Some && input_kind_of(steps[j].solved) != Some(input),
{
    reveal_strlit("beta");
    reveal_strlit("beta_deg");
    reveal_strlit("compressible.conical_shock_taylor_maccoll");
    reveal_strlit("cone_angle");
    reveal_strlit("cone_angle_deg");
    reveal_strlit("cone_angle_rad");
    reveal_strlit("cone_deg");
    reveal_strlit("gamma");
    reveal_strlit("m1");
    reveal_strlit("wave_angle");
    reveal_strlit("wave_angle_deg");
    reveal_strlit("wave_angle_rad");
    reveal_strlit("wave_deg");
    assert("wave_angle"@[0] != "cone_angle"@[0]);
    assert("wave_angle"@.len() != "cone_angle_rad"@.len());
    assert("wave_angle"@.len() != "cone_deg"@.len());
    assert("wave_angle"@.len() != "cone_angle_deg"@.len());
    if route_spec(input, branch) is Ok {
        let steps = route_spec(input, branch)->Ok_0;
        match input {
            ConicalShockInputKind::WaveAngleRad => {
                assert(steps[7].id == "compressible.conical_shock_taylor_maccoll"@);
            },
            ConicalShockInputKind::ConeAngleRad => {
                assert(steps[0].id == "compressible.conical_shock_taylor_maccoll"@);
            },
        }
    }
}

} // verus!
