//! Oblique-shock calculator: kind vocabulary, key parsing and the fixed order
//! of equation steps that resolves the shock state.
use vstd::prelude::*;
use crate::devices::normal_shock;
use crate::text::lower_seq;
use crate::text::ends_with_deg;
use crate::devices::framework::{
    failure_view, names2, names3, opt_seq, plan_view, planned, route_view, sv, PlannedStep,
    RouteError, RouteFailure, StepKind, StepView,
};
use crate::bindings::INVOKE_SUPPORTED_OPS;
use crate::devices::{
    device_binding_table, device_row_matches, device_table_bindings, fixed_kinds_in, texts, DeviceBindingFunctionSpec,
    DeviceGenerationSpec, DeviceNameRow,
};
use crate::docs::binding_tables::{rows_at, PairRow, TextRow};
use crate::text::{lemma_normalize_canonical, normalize_key, normalize_seq, str_eq};

verus! {

/// The angle given with the upstream Mach number (radians).
#[derive(Debug, Clone, Copy, PartialEq, Eq, Structural)]
pub enum ObliqueShockInputKind {
    BetaRad,
    ThetaRad,
}

/// Quantity an oblique-shock calculation reports (angles in radians).
#[derive(Debug, Clone, Copy, PartialEq, Eq, Structural)]
pub enum ObliqueShockOutputKind {
    ThetaRad,
    BetaRad,
    Mn1,
    Mn2,
    M2,
    PressureRatio,
    DensityRatio,
    TemperatureRatio,
    StagnationPressureRatio,
}

/// Root selection for the double-valued deflection -> wave-angle inversion.
#[derive(Debug, Clone, Copy, PartialEq, Eq, Structural)]
pub enum ObliqueShockBranch {
    Weak,
    Strong,
}

pub open spec fn branch_text(b: ObliqueShockBranch) -> Seq<char> {
    match b {
        ObliqueShockBranch::Weak => "weak"@,
        ObliqueShockBranch::Strong => "strong"@,
    }
}

impl ObliqueShockBranch {
    /// The lower-case name of the branch.
    pub fn as_str(self) -> (res: &'static str)
        ensures
            res@ == branch_text(self),
    {
        match self {
            ObliqueShockBranch::Weak => "weak",
            ObliqueShockBranch::Strong => "strong",
        }
    }
}

/// The input kind that a normalized key names, if any.
pub open spec fn input_kind_of(k: Seq<char>) -> Option<ObliqueShockInputKind> {
    if k == "beta"@ || k == "beta_rad"@ || k == "shock_angle"@ {
        Some(ObliqueShockInputKind::BetaRad)
    } else if k == "beta_deg"@ {
        Some(ObliqueShockInputKind::BetaRad)
    } else if k == "theta"@ || k == "theta_rad"@ || k == "deflection_angle"@ {
        Some(ObliqueShockInputKind::ThetaRad)
    } else if k == "theta_deg"@ {
        Some(ObliqueShockInputKind::ThetaRad)
    } else {
        None
    }
}

/// Parses a input kind name; surrounding whitespace and ASCII case are ignored.
pub fn parse_input_kind(raw: &str) -> (res: Option<ObliqueShockInputKind>)
    ensures
        res == input_kind_of(normalize_seq(raw@)),
{
    let key = normalize_key(raw);
    let k = key.as_str();
    if str_eq(k, "beta") || str_eq(k, "beta_rad") || str_eq(k, "shock_angle") {
        Some(ObliqueShockInputKind::BetaRad)
    } else if str_eq(k, "beta_deg") {
        Some(ObliqueShockInputKind::BetaRad)
    } else if str_eq(k, "theta") || str_eq(k, "theta_rad") || str_eq(k, "deflection_angle") {
        Some(ObliqueShockInputKind::ThetaRad)
    } else if str_eq(k, "theta_deg") {
        Some(ObliqueShockInputKind::ThetaRad)
    } else {
        None
    }
}

/// The output kind (with whether the result is wanted in degrees) that a normalized key names, if any.
pub open spec fn output_kind_of(k: Seq<char>) -> Option<(ObliqueShockOutputKind, bool)> {
    if k == "theta"@ || k == "theta_rad"@ {
        Some((ObliqueShockOutputKind::ThetaRad, false))
    } else if k == "theta_deg"@ {
        Some((ObliqueShockOutputKind::ThetaRad, true))
    } else if k == "beta"@ || k == "beta_rad"@ {
        Some((ObliqueShockOutputKind::BetaRad, false))
    } else if k == "beta_deg"@ {
        Some((ObliqueShockOutputKind::BetaRad, true))
    } else if k == "mn1"@ {
        Some((ObliqueShockOutputKind::Mn1, false))
    } else if k == "mn2"@ {
        Some((ObliqueShockOutputKind::Mn2, false))
    } else if k == "m2"@ {
        Some((ObliqueShockOutputKind::M2, false))
    } else if k == "pressure_ratio"@ || k == "p2_p1"@ || k == "p2/p1"@ {
        Some((ObliqueShockOutputKind::PressureRatio, false))
    } else if k == "density_ratio"@ || k == "rho2_rho1"@ || k == "rho2/rho1"@ {
        Some((ObliqueShockOutputKind::DensityRatio, false))
    } else if k == "temperature_ratio"@ || k == "t2_t1"@ || k == "t2/t1"@ {
        Some((ObliqueShockOutputKind::TemperatureRatio, false))
    } else if k == "stagnation_pressure_ratio"@ || k == "p02_p01"@ || k == "p02/p01"@ {
        Some((ObliqueShockOutputKind::StagnationPressureRatio, false))
    } else {
        None
    }
}

/// An output key asks for degrees exactly when it ends in `_deg`.
pub proof fn output_degrees_follow_the_suffix(k: Seq<char>)
    ensures
        output_kind_of(k) matches Some((_, deg)) ==> deg == ends_with_deg(k),
{
    reveal_strlit("beta");
    reveal_strlit("beta_deg");
    reveal_strlit("beta_rad");
    reveal_strlit("density_ratio");
    reveal_strlit("m2");
    reveal_strlit("mn1");
    reveal_strlit("mn2");
    reveal_strlit("p02/p01");
    reveal_strlit("p02_p01");
    reveal_strlit("p2/p1");
    reveal_strlit("p2_p1");
    reveal_strlit("pressure_ratio");
    reveal_strlit("rho2/rho1");
    reveal_strlit("rho2_rho1");
    reveal_strlit("stagnation_pressure_ratio");
    reveal_strlit("t2/t1");
    reveal_strlit("t2_t1");
    reveal_strlit("temperature_ratio");
    reveal_strlit("theta");
    reveal_strlit("theta_deg");
    reveal_strlit("theta_rad");
}

/// The `_deg` and `_rad` keys of one angle name the same output kind, the
/// first in degrees and the second in radians.
pub proof fn degree_and_radian_keys_agree(b: Seq<char>)
    ensures
        output_kind_of(b + "_rad"@) matches Some((kd, deg)) ==> !deg && output_kind_of(b + "_deg"@) == Some((kd, true)),
{
    reveal_strlit("_rad");
    reveal_strlit("_deg");
    if output_kind_of(b + "_rad"@) is Some {
        reveal_strlit("beta");
        reveal_strlit("beta_deg");
        reveal_strlit("beta_rad");
        reveal_strlit("density_ratio");
        reveal_strlit("m2");
        reveal_strlit("mn1");
        reveal_strlit("mn2");
        reveal_strlit("p02/p01");
        reveal_strlit("p02_p01");
        reveal_strlit("p2/p1");
        reveal_strlit("p2_p1");
        reveal_strlit("pressure_ratio");
        reveal_strlit("rho2/rho1");
        reveal_strlit("rho2_rho1");
        reveal_strlit("stagnation_pressure_ratio");
        reveal_strlit("t2/t1");
        reveal_strlit("t2_t1");
        reveal_strlit("temperature_ratio");
        reveal_strlit("theta");
        reveal_strlit("theta_deg");
        reveal_strlit("theta_rad");
        let r = b + "_rad"@;
        assert(r.len() >= 4 && r[r.len() - 4] == '_' && r[r.len() - 3] == 'r');
        if r == "theta_rad"@ {
            assert(b =~= "theta"@) by {
                assert(b =~= r.subrange(0, b.len() as int));
            }
            assert(b + "_deg"@ =~= "theta_deg"@);
        } else {
            assert(r == "beta_rad"@);
            assert(b =~= "beta"@) by {
                assert(b =~= r.subrange(0, b.len() as int));
            }
            assert(b + "_deg"@ =~= "beta_deg"@);
        }
    }
}

/// Parses a output kind (with whether the result is wanted in degrees) name; surrounding whitespace and ASCII case are ignored.
pub fn parse_output_kind(raw: &str) -> (res: Option<(ObliqueShockOutputKind, bool)>)
    ensures
        res == output_kind_of(normalize_seq(raw@)),
{
    let key = normalize_key(raw);
    let k = key.as_str();
    if str_eq(k, "theta") || str_eq(k, "theta_rad") {
        Some((ObliqueShockOutputKind::ThetaRad, false))
    } else if str_eq(k, "theta_deg") {
        Some((ObliqueShockOutputKind::ThetaRad, true))
    } else if str_eq(k, "beta") || str_eq(k, "beta_rad") {
        Some((ObliqueShockOutputKind::BetaRad, false))
    } else if str_eq(k, "beta_deg") {
        Some((ObliqueShockOutputKind::BetaRad, true))
    } else if str_eq(k, "mn1") {
        Some((ObliqueShockOutputKind::Mn1, false))
    } else if str_eq(k, "mn2") {
        Some((ObliqueShockOutputKind::Mn2, false))
    } else if str_eq(k, "m2") {
        Some((ObliqueShockOutputKind::M2, false))
    } else if str_eq(k, "pressure_ratio") || str_eq(k, "p2_p1") || str_eq(k, "p2/p1") {
        Some((ObliqueShockOutputKind::PressureRatio, false))
    } else if str_eq(k, "density_ratio") || str_eq(k, "rho2_rho1") || str_eq(k, "rho2/rho1") {
        Some((ObliqueShockOutputKind::DensityRatio, false))
    } else if str_eq(k, "temperature_ratio") || str_eq(k, "t2_t1") || str_eq(k, "t2/t1") {
        Some((ObliqueShockOutputKind::TemperatureRatio, false))
    } else if str_eq(k, "stagnation_pressure_ratio") || str_eq(k, "p02_p01") || str_eq(k, "p02/p01") {
        Some((ObliqueShockOutputKind::StagnationPressureRatio, false))
    } else {
        None
    }
}

/// The branch that a normalized key names, if any.
pub open spec fn branch_of(k: Seq<char>) -> Option<ObliqueShockBranch> {
    if k == "weak"@ {
        Some(ObliqueShockBranch::Weak)
    } else if k == "strong"@ {
        Some(ObliqueShockBranch::Strong)
    } else {
        None
    }
}

/// Parses a branch name; surrounding whitespace and ASCII case are ignored.
pub fn parse_branch(raw: &str) -> (res: Option<ObliqueShockBranch>)
    ensures
        res == branch_of(normalize_seq(raw@)),
{
    let key = normalize_key(raw);
    let k = key.as_str();
    if str_eq(k, "weak") {
        Some(ObliqueShockBranch::Weak)
    } else if str_eq(k, "strong") {
        Some(ObliqueShockBranch::Strong)
    } else {
        None
    }
}

pub open spec fn input_kind_name(kind: ObliqueShockInputKind) -> Seq<char> {
    match kind {
        ObliqueShockInputKind::BetaRad => "beta"@,
        ObliqueShockInputKind::ThetaRad => "theta"@,
    }
}

/// The name under which errors report an input kind.
pub fn input_kind_label(kind: ObliqueShockInputKind) -> (res: &'static str)
    ensures
        res@ == input_kind_name(kind),
{
    match kind {
        ObliqueShockInputKind::BetaRad => "beta",
        ObliqueShockInputKind::ThetaRad => "theta",
    }
}

/// Whether the input value of a kind key is given in degrees (and is to be
/// converted to radians before solving).
pub open spec fn input_in_degrees(k: Seq<char>) -> bool {
    k == "beta_deg"@ || k == "theta_deg"@
}

/// Whether the raw input kind names a degree-valued angle.
pub fn input_value_in_degrees(raw: &str) -> (res: bool)
    ensures
        res == input_in_degrees(normalize_seq(raw@)),
{
    let key = normalize_key(raw);
    let k = key.as_str();
    str_eq(k, "beta_deg") || str_eq(k, "theta_deg")
}

/// The normal-shock relations applied to the normal component of the upstream
/// Mach number: `Mn1`, then `M2` (that is `Mn2`), `p2/p1`, `rho2/rho1`, `T2/T1`, `p02/p01`.
pub open spec fn normal_component_steps() -> Seq<StepView> {
    seq![
        sv(StepKind::Equation, "compressible.oblique_shock_mn1"@, "mn1"@, seq!["m1"@, "beta"@], None),
        sv(StepKind::Equation, "compressible.normal_shock_m2"@, "M2"@, seq!["M1"@, "gamma"@], None),
        sv(StepKind::Equation, "compressible.normal_shock_pressure_ratio"@, "p2_p1"@, seq!["M1"@, "gamma"@], None),
        sv(StepKind::Equation, "compressible.normal_shock_density_ratio"@, "rho2_rho1"@, seq!["M1"@, "gamma"@], None),
        sv(StepKind::Equation, "compressible.normal_shock_temperature_ratio"@, "T2_T1"@, seq!["M1"@, "gamma"@], None),
        sv(StepKind::Equation, "compressible.normal_shock_stagnation_pressure_ratio"@, "p02_p01"@, seq!["M1"@, "gamma"@], None),
    ]
}

/// Appends the normal-component steps.
pub fn push_normal_component_steps(steps: &mut Vec<PlannedStep>)
    ensures
        plan_view(final(steps)@) == plan_view(old(steps)@) + normal_component_steps(),
{
    let ghost start = plan_view(steps@);
    steps.push(planned(StepKind::Equation, "compressible.oblique_shock_mn1", "mn1", names2("m1", "beta"), None));
    steps.push(planned(StepKind::Equation, "compressible.normal_shock_m2", "M2", names2("M1", "gamma"), None));
    steps.push(planned(StepKind::Equation, "compressible.normal_shock_pressure_ratio", "p2_p1", names2("M1", "gamma"), None));
    steps.push(planned(StepKind::Equation, "compressible.normal_shock_density_ratio", "rho2_rho1", names2("M1", "gamma"), None));
    steps.push(planned(StepKind::Equation, "compressible.normal_shock_temperature_ratio", "T2_T1", names2("M1", "gamma"), None));
    steps.push(planned(StepKind::Equation, "compressible.normal_shock_stagnation_pressure_ratio", "p02_p01", names2("M1", "gamma"), None));
    assert(plan_view(steps@) =~= start + normal_component_steps());
}

/// The step that gives the flow deflection for a known wave angle.
pub open spec fn deflection_step() -> StepView {
    sv(StepKind::Equation, "compressible.oblique_shock_theta_beta_m"@, "theta"@, seq!["m1"@, "beta"@, "gamma"@], None)
}

/// The step that recovers the downstream Mach number from its normal component.
pub open spec fn downstream_mach_step() -> StepView {
    sv(StepKind::Equation, "compressible.oblique_shock_m2"@, "m2"@, seq!["mn2"@, "beta"@, "theta"@], None)
}

/// The whole solve route: the geometry step (deflection from wave angle, or the
/// branch-selected wave-angle inversion from a deflection), then the normal
/// component relations, then the downstream Mach number. Every target reads the
/// same resolved state.
pub open spec fn route_spec(input: ObliqueShockInputKind, branch: Option<ObliqueShockBranch>) -> Result<Seq<StepView>, RouteFailure> {
    let tail = normal_component_steps().push(downstream_mach_step());
    match input {
        ObliqueShockInputKind::BetaRad => Ok(seq![deflection_step()] + tail),
        ObliqueShockInputKind::ThetaRad => match branch {
            None => Err(RouteFailure::MissingBranch("theta"@)),
            Some(b) => Ok(seq![sv(StepKind::Inversion, "compressible.oblique_shock_theta_beta_m"@, "beta"@,
                seq!["m1"@, "theta"@, "gamma"@], Some(branch_text(b)))] + tail),
        },
    }
}

/// Plans the equation steps of an oblique-shock calculation.
pub fn route(input: ObliqueShockInputKind, branch: Option<ObliqueShockBranch>) -> (res: Result<Vec<PlannedStep>, RouteError>)
    ensures
        route_view(res) == route_spec(input, branch),
{
    let mut steps: Vec<PlannedStep> = Vec::new();
    match input {
        ObliqueShockInputKind::BetaRad => {
            steps.push(planned(StepKind::Equation, "compressible.oblique_shock_theta_beta_m", "theta", names3("m1", "beta", "gamma"), None));
            assert(plan_view(steps@) =~= seq![deflection_step()]);
        },
        ObliqueShockInputKind::ThetaRad => match branch {
            None => {
                let e = RouteError::MissingBranch { kind: "theta" };
                assert(failure_view(e) == RouteFailure::MissingBranch("theta"@));
                return Err(e);
            },
            Some(b) => {
                steps.push(planned(StepKind::Inversion, "compressible.oblique_shock_theta_beta_m", "beta", names3("m1", "theta", "gamma"), Some(b.as_str())));
                assert(plan_view(steps@) =~= seq![sv(StepKind::Inversion, "compressible.oblique_shock_theta_beta_m"@, "beta"@,
                    seq!["m1"@, "theta"@, "gamma"@], Some(branch_text(b)))]);
            },
        },
    }
    let ghost head = plan_view(steps@);
    push_normal_component_steps(&mut steps);
    let ghost mid = plan_view(steps@);
    steps.push(planned(StepKind::Equation, "compressible.oblique_shock_m2", "m2", names3("mn2", "beta", "theta"), None));
    assert(plan_view(steps@) =~= mid.push(downstream_mach_step()));
    assert(head + normal_component_steps().push(downstream_mach_step()) =~= mid.push(downstream_mach_step()));
    Ok(steps)
}

/// A deflection-angle input without a branch is refused; any branch, or a
/// wave-angle input, routes to eight steps.
pub proof fn route_branch_law(input: ObliqueShockInputKind, branch: Option<ObliqueShockBranch>)
    ensures
        (route_spec(input, branch) is Err) <==> (input == ObliqueShockInputKind::ThetaRad && branch is None),
        route_spec(input, branch) is Ok ==> route_spec(input, branch)->Ok_0.len() == 8,
{
}

/// Reading back a branch's own name gives that branch.
pub proof fn branch_name_round_trip(b: ObliqueShockBranch)
    ensures
        branch_of(normalize_seq(branch_text(b))) == Some(b),
{
    reveal_strlit("weak");
    reveal_strlit("strong");
    lemma_normalize_canonical("weak"@);
    lemma_normalize_canonical("strong"@);
}

} // verus!

// ---- documentation and binding metadata ----

verus! {

/// The bindings section of the device's documentation page.
pub const BINDINGS_MD: &'static str = "## Bindings\n\n### Python\n```python\nengpy.devices.oblique_shock_calc(2.0, \"theta_deg\", 10.0, \"beta_deg\", 1.4, \"weak\")\nengpy.devices.oblique_shock_from_m1_beta_to_theta(2.0, 40.0, 1.4)\nengpy.devices.oblique_shock_from_m1_theta_to_beta(2.0, 10.0, 1.4, \"strong\")\nengpy.devices.oblique_shock_from_m1_theta_to_p2_p1(2.0, 10.0, 1.4, \"weak\")\nengpy.devices.oblique_shock_path_text(2.0, \"theta_deg\", 10.0, \"m2\", 1.4, \"weak\")\n```\n\n### Excel\n```excel\n=ENG_OBLIQUE_SHOCK(2.0,\"theta_deg\",10.0,\"beta_deg\",1.4,\"weak\")\n=ENG_OBLIQUE_SHOCK_FROM_M1_BETA_TO_THETA(2.0,40.0,1.4)\n=ENG_OBLIQUE_SHOCK_FROM_M1_THETA_TO_BETA(2.0,10.0,1.4,\"strong\")\n=ENG_OBLIQUE_SHOCK_FROM_M1_THETA_TO_P2_P1(2.0,10.0,1.4,\"weak\")\n=ENG_OBLIQUE_SHOCK_FROM_M1_BETA_TO_M2(2.0,40.0,1.4)\n=ENG_OBLIQUE_SHOCK_PATH_TEXT(2.0,\"theta_deg\",10.0,\"m2\",1.4,\"weak\")\n```\n\n**Excel arguments**\n- `m1`: upstream Mach number\n- `value_kind_in`: `beta_deg` or `theta_deg`\n- `value_in`: angle input in degrees\n- `target_kind_out`: `theta_deg`, `beta_deg`, `mn1`, `mn2`, `m2`, `p2_p1`, `rho2_rho1`, `t2_t1`, `p02_p01`\n- `gamma`: specific heat ratio\n- `branch`: `weak`/`strong` (required for `theta_deg` input paths)\n";

/// The overview section of the device's documentation page.
pub const OVERVIEW_MD: &'static str = "## Overview\n\nA calculator-style compressible device for oblique shocks. It supports the two practical input pairs:\n- `(M1, beta)`\n- `(M1, theta)`\n\nThe solver resolves the shock geometry and normal component (`Mn1`) then reuses normal-shock equations for downstream ratios and `Mn2`.\n\n### Supported outputs\n- `theta_deg`\n- `beta_deg`\n- `mn1`\n- `mn2`\n- `m2`\n- `p2_p1`\n- `rho2_rho1`\n- `t2_t1`\n- `p02_p01`\n\n### Branch behavior\n- `M1 + theta -> beta` is double-valued and requires explicit `weak` or `strong` branch selection.\n\n### Rust\n```rust\nuse eng::devices::{oblique_shock_calc, ObliqueShockInputKind, ObliqueShockOutputKind, ObliqueShockBranch};\nlet out = oblique_shock_calc()\n    .gamma(1.4)\n    .m1(2.0)\n    .input(ObliqueShockInputKind::ThetaRad, 10f64.to_radians())\n    .target(ObliqueShockOutputKind::PressureRatio)\n    .branch(ObliqueShockBranch::Weak)\n    .solve()?;\nprintln!(\"beta={} deg, p2/p1={}\", out.beta_rad.to_degrees(), out.value_si);\n```\n";




/// The kind keys that a binding may fix.
pub open spec fn binding_input_keys() -> Seq<Seq<char>> {
    seq!["beta_deg"@, "theta_deg"@]
}

pub open spec fn binding_output_keys() -> Seq<Seq<char>> {
    seq!["theta_deg"@, "beta_deg"@, "p2_p1"@, "m2"@]
}

/// The invoke operations that the device's bindings call.
pub open spec fn binding_op(op: Seq<char>) -> bool {
    op == "device.oblique_shock_calc.value"@ || op == "device.oblique_shock_calc.path_text"@
}

/// Every binding calls one of the device's operations, and fixes either
/// nothing or an input kind and a target kind that the device accepts.
pub open spec fn bindings_ok(b: Seq<DeviceBindingFunctionSpec>) -> bool {
    forall|i: int| 0 <= i < b.len() ==> binding_op((#[trigger] b[i]).op@)
        && fixed_kinds_in(b[i].fixed_args@, binding_input_keys(), binding_output_keys())
}

/// The names of the device's bindings, and the kinds each fixes.
pub const BINDING_NAMES: [DeviceNameRow; 6] = [
    ("device.oblique_shock_calc", "oblique_shock_calc", "ENG_OBLIQUE_SHOCK", "device.oblique_shock_calc.value", "", ""),
    ("device.oblique_shock_calc.path_text", "oblique_shock_path_text", "ENG_OBLIQUE_SHOCK_PATH_TEXT", "device.oblique_shock_calc.path_text", "", ""),
    ("device.oblique_shock_calc.from_m1_beta.to_theta", "oblique_shock_from_m1_beta_to_theta", "ENG_OBLIQUE_SHOCK_FROM_M1_BETA_TO_THETA", "device.oblique_shock_calc.value", "beta_deg", "theta_deg"),
    ("device.oblique_shock_calc.from_m1_theta.to_beta", "oblique_shock_from_m1_theta_to_beta", "ENG_OBLIQUE_SHOCK_FROM_M1_THETA_TO_BETA", "device.oblique_shock_calc.value", "theta_deg", "beta_deg"),
    ("device.oblique_shock_calc.from_m1_theta.to_p2_p1", "oblique_shock_from_m1_theta_to_p2_p1", "ENG_OBLIQUE_SHOCK_FROM_M1_THETA_TO_P2_P1", "device.oblique_shock_calc.value", "theta_deg", "p2_p1"),
    ("device.oblique_shock_calc.from_m1_beta.to_m2", "oblique_shock_from_m1_beta_to_m2", "ENG_OBLIQUE_SHOCK_FROM_M1_BETA_TO_M2", "device.oblique_shock_calc.value", "beta_deg", "m2"),
];

/// The texts of the device's bindings, position by position.
pub const BINDING_TEXTS: [TextRow; 6] = [
    ("f64", "Oblique shock calculator: (M1 + beta/theta) -> target with weak/strong branch support", "eng::devices::oblique_shock_calc().solve()?", "engpy.devices.oblique_shock_calc(2.0, \"theta_deg\", 10.0, \"beta_deg\", 1.4, \"weak\")", "=ENG_OBLIQUE_SHOCK(2.0,\"theta_deg\",10.0,\"beta_deg\",1.4,\"weak\")", "=ENG_OBLIQUE_SHOCK(2.0,\"theta_deg\",10.0,\"beta_deg\",1.4,\"weak\")"),
    ("str", "Oblique shock calculator helper: compact step trace text", "eng::invoke::process_invoke_json(\"...\")", "engpy.devices.oblique_shock_path_text(2.0, \"theta_deg\", 10.0, \"p2_p1\", 1.4, \"weak\")", "=ENG_OBLIQUE_SHOCK_PATH_TEXT(2.0,\"theta_deg\",10.0,\"p2_p1\",1.4,\"weak\")", "=ENG_OBLIQUE_SHOCK_PATH_TEXT(2.0,\"theta_deg\",10.0,\"p2_p1\",1.4,\"weak\")"),
    ("f64", "Convenience oblique-shock path: (M1, beta_deg) -> theta_deg", "eng::invoke::process_invoke_json(\"...\")", "engpy.devices.oblique_shock_from_m1_beta_to_theta(2.0, 40.0, 1.4)", "=ENG_OBLIQUE_SHOCK_FROM_M1_BETA_TO_THETA(2.0,40.0,1.4)", "=ENG_OBLIQUE_SHOCK_FROM_M1_BETA_TO_THETA(2.0,40.0,1.4)"),
    ("f64", "Convenience oblique-shock path: (M1, theta_deg, branch) -> beta_deg", "eng::invoke::process_invoke_json(\"...\")", "engpy.devices.oblique_shock_from_m1_theta_to_beta(2.0, 10.0, 1.4, \"weak\")", "=ENG_OBLIQUE_SHOCK_FROM_M1_THETA_TO_BETA(2.0,10.0,1.4,\"weak\")", "=ENG_OBLIQUE_SHOCK_FROM_M1_THETA_TO_BETA(2.0,10.0,1.4,\"weak\")"),
    ("f64", "Convenience oblique-shock path: (M1, theta_deg, branch) -> p2/p1", "eng::invoke::process_invoke_json(\"...\")", "engpy.devices.oblique_shock_from_m1_theta_to_p2_p1(2.0, 10.0, 1.4, \"weak\")", "=ENG_OBLIQUE_SHOCK_FROM_M1_THETA_TO_P2_P1(2.0,10.0,1.4,\"weak\")", "=ENG_OBLIQUE_SHOCK_FROM_M1_THETA_TO_P2_P1(2.0,10.0,1.4,\"weak\")"),
    ("f64", "Convenience oblique-shock path: (M1, beta_deg) -> M2", "eng::invoke::process_invoke_json(\"...\")", "engpy.devices.oblique_shock_from_m1_beta_to_m2(2.0, 40.0, 1.4)", "=ENG_OBLIQUE_SHOCK_FROM_M1_BETA_TO_M2(2.0,40.0,1.4)", "=ENG_OBLIQUE_SHOCK_FROM_M1_BETA_TO_M2(2.0,40.0,1.4)"),
];

/// The arguments of the device's bindings, in order: binding position, name, description.
pub const BINDING_ARGS: [PairRow; 26] = [
    (0, "m1", "Upstream Mach number M1"),
    (0, "input_kind", "Input kind (beta_deg or theta_deg)"),
    (0, "input_value", "Input value in degrees"),
    (0, "target_kind", "Target kind (theta_deg, beta_deg, mn1, mn2, m2, p2_p1, rho2_rho1, t2_t1, p02_p01)"),
    (0, "gamma", "Specific heat ratio"),
    (0, "branch", "Weak/strong branch required for theta->beta inversion paths"),
    (1, "m1", "Upstream Mach number M1"),
    (1, "input_kind", "Input kind (beta_deg or theta_deg)"),
    (1, "input_value", "Input value in degrees"),
    (1, "target_kind", "Target kind (theta_deg, beta_deg, mn1, mn2, m2, p2_p1, rho2_rho1, t2_t1, p02_p01)"),
    (1, "gamma", "Specific heat ratio"),
    (1, "branch", "Weak/strong branch required for theta->beta inversion paths"),
    (2, "m1", "Upstream Mach number M1"),
    (2, "input_value", "Shock angle beta in degrees"),
    (2, "gamma", "Specific heat ratio"),
    (3, "m1", "Upstream Mach number M1"),
    (3, "input_value", "Flow deflection theta in degrees"),
    (3, "gamma", "Specific heat ratio"),
    (3, "branch", "Weak or strong branch"),
    (4, "m1", "Upstream Mach number M1"),
    (4, "input_value", "Flow deflection theta in degrees"),
    (4, "gamma", "Specific heat ratio"),
    (4, "branch", "Weak or strong branch"),
    (5, "m1", "Upstream Mach number M1"),
    (5, "input_value", "Shock angle beta in degrees"),
    (5, "gamma", "Specific heat ratio"),
];

fn binding_functions() -> (res: Vec<DeviceBindingFunctionSpec>)
    ensures
        device_table_bindings(res@, BINDING_NAMES@, BINDING_TEXTS@, BINDING_ARGS@),
        res.len() == 6,
        bindings_ok(res@),
{
    let names = BINDING_NAMES.as_slice();
    let texts = BINDING_TEXTS.as_slice();
    let args = BINDING_ARGS.as_slice();
    assert(names@ == BINDING_NAMES@ && texts@ == BINDING_TEXTS@ && args@ == BINDING_ARGS@);
    let res = device_binding_table(names, texts, args);
    proof {
        reveal_strlit("");
        assert forall|i: int| 0 <= i < res@.len() implies binding_op((#[trigger] res@[i]).op@) && fixed_kinds_in(
            res@[i].fixed_args@,
            binding_input_keys(),
            binding_output_keys(),
        ) by {
            assert(device_row_matches(res@[i], BINDING_NAMES@[i], BINDING_TEXTS@[i], rows_at(BINDING_ARGS@, i)));
            if i == 0 {
            } else if i == 1 {
            } else if i == 2 {
                reveal_strlit("beta_deg");
                assert(binding_input_keys()[0] == "beta_deg"@);
                assert(binding_output_keys()[0] == "theta_deg"@);
            } else if i == 3 {
                reveal_strlit("theta_deg");
                assert(binding_input_keys()[1] == "theta_deg"@);
                assert(binding_output_keys()[1] == "beta_deg"@);
            } else if i == 4 {
                reveal_strlit("theta_deg");
                assert(binding_input_keys()[1] == "theta_deg"@);
                assert(binding_output_keys()[2] == "p2_p1"@);
            } else if i == 5 {
                reveal_strlit("beta_deg");
                assert(binding_input_keys()[0] == "beta_deg"@);
                assert(binding_output_keys()[3] == "m2"@);
            }
        }
    }
    res
}


/// What the device's generation metadata holds: its names, route, modes,
/// outputs, equation dependencies, page sections and bindings.
pub open spec fn generation_spec_fields(spec: DeviceGenerationSpec) -> bool {
    &&& spec.key@ == "oblique_shock_calc"@
    &&& spec.name@ == "Oblique Shock Calculator"@
    &&& spec.summary@ == "Calculator-style compressible device: solve oblique-shock input pairs (M1+beta / M1+theta) to target outputs with explicit weak/strong branch handling."@
    &&& spec.route@ == "devices/oblique_shock_calc.md"@
    &&& texts(spec.supported_modes@) == seq!["Input pairs: (M1, beta), (M1, theta)"@, "Branch-aware inversion for (M1, theta) -> beta"@]
    &&& texts(spec.outputs@) == seq!["value_si"@, "beta_rad"@, "theta_rad"@, "mn1"@, "mn2"@, "m2"@, "path diagnostics"@]
    &&& texts(spec.equation_dependencies@) == seq!["compressible.oblique_shock_theta_beta_m"@, "compressible.oblique_shock_mn1"@, "compressible.oblique_shock_m2"@, "compressible.normal_shock_m2"@, "compressible.normal_shock_pressure_ratio"@, "compressible.normal_shock_density_ratio"@, "compressible.normal_shock_temperature_ratio"@, "compressible.normal_shock_stagnation_pressure_ratio"@]
    &&& spec.binding_markdown == BINDINGS_MD
    &&& spec.overview_markdown == OVERVIEW_MD
    &&& spec.binding_functions.len() == 6
    &&& bindings_ok(spec.binding_functions@)
    &&& device_table_bindings(spec.binding_functions@, BINDING_NAMES@, BINDING_TEXTS@, BINDING_ARGS@)
}

/// The documentation and binding metadata of the device.
pub fn generation_spec() -> (spec: DeviceGenerationSpec)
    ensures
        generation_spec_fields(spec),
{
    let spec = DeviceGenerationSpec {
        key: "oblique_shock_calc",
        name: "Oblique Shock Calculator",
        summary: "Calculator-style compressible device: solve oblique-shock input pairs (M1+beta / M1+theta) to target outputs with explicit weak/strong branch handling.",
        supported_modes: vec!["Input pairs: (M1, beta), (M1, theta)", "Branch-aware inversion for (M1, theta) -> beta"],
        outputs: vec!["value_si", "beta_rad", "theta_rad", "mn1", "mn2", "m2", "path diagnostics"],
        route: "devices/oblique_shock_calc.md",
        binding_markdown: BINDINGS_MD,
        overview_markdown: OVERVIEW_MD,
        equation_dependencies: vec![
            "compressible.oblique_shock_theta_beta_m",
            "compressible.oblique_shock_mn1",
            "compressible.oblique_shock_m2",
            "compressible.normal_shock_m2",
            "compressible.normal_shock_pressure_ratio",
            "compressible.normal_shock_density_ratio",
            "compressible.normal_shock_temperature_ratio",
            "compressible.normal_shock_stagnation_pressure_ratio",
        ],
        binding_functions: binding_functions(),
    };
    assert(texts(spec.supported_modes@) =~= seq!["Input pairs: (M1, beta), (M1, theta)"@, "Branch-aware inversion for (M1, theta) -> beta"@]);
    assert(texts(spec.outputs@) =~= seq!["value_si"@, "beta_rad"@, "theta_rad"@, "mn1"@, "mn2"@, "m2"@, "path diagnostics"@]);
    assert(texts(spec.equation_dependencies@) =~= seq!["compressible.oblique_shock_theta_beta_m"@, "compressible.oblique_shock_mn1"@, "compressible.oblique_shock_m2"@, "compressible.normal_shock_m2"@, "compressible.normal_shock_pressure_ratio"@, "compressible.normal_shock_density_ratio"@, "compressible.normal_shock_temperature_ratio"@, "compressible.normal_shock_stagnation_pressure_ratio"@]);
    spec
}

/// Each key a binding may fix is accepted by the matching parser.
pub proof fn binding_keys_parse()
    ensures
        input_kind_of(normalize_seq(binding_input_keys()[0])) is Some,
        input_kind_of(normalize_seq(binding_input_keys()[1])) is Some,
        output_kind_of(normalize_seq(binding_output_keys()[0])) is Some,
        output_kind_of(normalize_seq(binding_output_keys()[1])) is Some,
        output_kind_of(normalize_seq(binding_output_keys()[2])) is Some,
        output_kind_of(normalize_seq(binding_output_keys()[3])) is Some,
{
    reveal_strlit("beta_deg");
    reveal_strlit("theta_deg");
    reveal_strlit("p2_p1");
    reveal_strlit("m2");
    lemma_normalize_canonical("beta_deg"@);
    lemma_normalize_canonical("theta_deg"@);
    lemma_normalize_canonical("p2_p1"@);
    lemma_normalize_canonical("m2"@);
}

/// The kinds that a binding fixes are accepted by the device's parsers.
pub proof fn binding_fixed_kinds_parse(fixed: Seq<(&'static str, &'static str)>)
    requires
        fixed_kinds_in(fixed, binding_input_keys(), binding_output_keys()),
        fixed.len() == 2,
    ensures
        input_kind_of(normalize_seq(fixed[0].1@)) is Some,
        output_kind_of(normalize_seq(fixed[1].1@)) is Some,
{
    binding_keys_parse();
    let j = choose|j: int| 0 <= j < binding_input_keys().len() && binding_input_keys()[j] == fixed[0].1@;
    let k = choose|k: int| 0 <= k < binding_output_keys().len() && binding_output_keys()[k] == fixed[1].1@;
    assert(input_kind_of(normalize_seq(binding_input_keys()[j])) is Some) by {
        if j == 0 {} else if j == 1 {}
    }
    assert(output_kind_of(normalize_seq(binding_output_keys()[k])) is Some) by {
        if k == 0 {} else if k == 1 {} else if k == 2 {} else if k == 3 {}
    }
}

/// Every operation the device's bindings call is listed in the invoke protocol catalog.
pub proof fn binding_ops_are_listed(op: Seq<char>)
    requires
        binding_op(op),
    ensures
        exists|i: int| 0 <= i < INVOKE_SUPPORTED_OPS@.len() && #[trigger] INVOKE_SUPPORTED_OPS@[i]@ == op,
{
    if op == "device.oblique_shock_calc.value"@ {
        assert(INVOKE_SUPPORTED_OPS@[38]@ == op);
    }
    if op == "device.oblique_shock_calc.path_text"@ {
        assert(INVOKE_SUPPORTED_OPS@[39]@ == op);
    }
}


/// The normal-component relations are the normal-shock device's own target
/// steps: every step after the first takes the upstream normal Mach number as
/// its pivot, solves for a quantity the normal-shock device names as a target
/// kind, and is exactly that device's step for that kind.
pub proof fn normal_component_steps_are_normal_shock_steps(j: int)
    requires
        0 <= j < normal_component_steps().len(),
    ensures
        j > 0 <==> normal_component_steps()[j].inputs[0] == "M1"@,
        j > 0 ==> (normal_shock::output_kind_of(lower_seq(normal_component_steps()[j].solved)) matches Some(o)
            && normal_shock::target_step_spec(o) == Some(normal_component_steps()[j])),
{
    reveal_strlit("M1");
    reveal_strlit("M2");
    reveal_strlit("T2_T1");
    reveal_strlit("beta");
    reveal_strlit("compressible.normal_shock_density_ratio");
    reveal_strlit("compressible.normal_shock_m2");
    reveal_strlit("compressible.normal_shock_pressure_ratio");
    reveal_strlit("compressible.normal_shock_stagnation_pressure_ratio");
    reveal_strlit("compressible.normal_shock_temperature_ratio");
    reveal_strlit("compressible.oblique_shock_mn1");
    reveal_strlit("gamma");
    reveal_strlit("m1");
    reveal_strlit("m2");
    reveal_strlit("mn1");
    reveal_strlit("p02_p01");
    reveal_strlit("p2_p1");
    reveal_strlit("rho2_rho1");
    reveal_strlit("t2_t1");
    let st = normal_component_steps();
    if j == 1 {
        assert(lower_seq("M2"@) =~= "m2"@);
        assert("m2"@[1] != "m1"@[1]);
        assert(normal_shock::output_kind_of("m2"@) == Some(normal_shock::NormalShockOutputKind::M2));
    }
    if j == 2 {
        assert(lower_seq("p2_p1"@) =~= "p2_p1"@);
        assert("p2_p1"@.len() != "m1"@.len());
        assert("p2_p1"@.len() != "m2"@.len());
        assert(normal_shock::output_kind_of("p2_p1"@) == Some(normal_shock::NormalShockOutputKind::PressureRatio));
    }
    if j == 3 {
        assert(lower_seq("rho2_rho1"@) =~= "rho2_rho1"@);
        assert("rho2_rho1"@.len() != "m1"@.len());
        assert("rho2_rho1"@.len() != "m2"@.len());
        assert("rho2_rho1"@.len() != "p2_p1"@.len());
        assert(normal_shock::output_kind_of("rho2_rho1"@) == Some(normal_shock::NormalShockOutputKind::DensityRatio));
    }
    if j == 4 {
        assert(lower_seq("T2_T1"@) =~= "t2_t1"@);
        assert("t2_t1"@.len() != "m1"@.len());
        assert("t2_t1"@.len() != "m2"@.len());
        assert("t2_t1"@[0] != "p2_p1"@[0]);
        assert("t2_t1"@.len() != "rho2_rho1"@.len());
        assert(normal_shock::output_kind_of("t2_t1"@) == Some(normal_shock::NormalShockOutputKind::TemperatureRatio));
    }
    if j == 5 {
        assert(lower_seq("p02_p01"@) =~= "p02_p01"@);
        assert("p02_p01"@.len() != "m1"@.len());
        assert("p02_p01"@.len() != "m2"@.len());
        assert("p02_p01"@.len() != "p2_p1"@.len());
        assert("p02_p01"@.len() != "rho2_rho1"@.len());
        assert("p02_p01"@.len() != "t2_t1"@.len());
        assert(normal_shock::output_kind_of("p02_p01"@) == Some(normal_shock::NormalShockOutputKind::StagnationPressureRatio));
    }
    if j == 0 {
        assert("m1"@ != "M1"@) by { assert("m1"@[0] != "M1"@[0]); }
    }
}


/// The geometry step takes the angle the input kind names and solves for the
/// other angle: from a wave angle the deflection, from a deflection the wave
/// angle, on the shock's theta-beta-M relation.
pub proof fn geometry_step_turns_the_given_angle_into_the_other(input: ObliqueShockInputKind, branch: Option<ObliqueShockBranch>)
    ensures
        route_spec(input, branch) matches Ok(steps) ==> {
            &&& steps[0].id == "compressible.oblique_shock_theta_beta_m"@
            &&& input_kind_of(steps[0].inputs[1]) == Some(input)
            &&& input_kind_of(steps[0].solved) is Some
            &&& input_kind_of(steps[0].solved) != Some(input)
        },
{
    reveal_strlit("beta");
    reveal_strlit("beta_deg");
    reveal_strlit("beta_rad");
    reveal_strlit("compressible.oblique_shock_theta_beta_m");
    reveal_strlit("deflection_angle");
    reveal_strlit("gamma");
    reveal_strlit("m1");
    reveal_strlit("shock_angle");
    reveal_strlit("theta");
    reveal_strlit("theta_deg");
    reveal_strlit("theta_rad");
    assert("theta"@.len() != "beta"@.len());
    assert("theta"@.len() != "beta_rad"@.len());
    assert("theta"@.len() != "shock_angle"@.len());
    assert("theta"@.len() != "beta_deg"@.len());
}

} // verus!
