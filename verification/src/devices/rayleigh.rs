//! Rayleigh-flow calculator: kind vocabulary, key parsing and Mach-pivot routing.
use vstd::prelude::*;
use crate::text::lower_seq;
use crate::devices::framework::{
    assemble, assemble_route, kind, kind_keys, kind_labels, kind_labels_text, names1, names2, names3,
    opt_step_view, planned, route_view, step_result_view, sv, CalculatorDeviceSpec, PlannedStep,
    RouteError, RouteFailure, StepKind, StepView,
};
use crate::bindings::INVOKE_SUPPORTED_OPS;
use crate::devices::{
    device_binding_table, device_row_matches, device_table_bindings, fixed_kinds_in, texts, DeviceBindingFunctionSpec,
    DeviceGenerationSpec, DeviceNameRow,
};
use crate::docs::binding_tables::{rows_at, PairRow, TextRow};
use crate::text::{lemma_normalize_canonical, normalize_key, normalize_seq, str_eq};

verus! {

/// Quantity a Rayleigh-flow calculation starts from.
#[derive(Debug, Clone, Copy, PartialEq, Eq, Structural)]
pub enum RayleighInputKind {
    Mach,
    TemperatureRatio,
    PressureRatio,
    DensityRatio,
    StagnationTemperatureRatio,
    StagnationPressureRatio,
    VelocityRatio,
}

/// Quantity a Rayleigh-flow calculation solves for.
#[derive(Debug, Clone, Copy, PartialEq, Eq, Structural)]
pub enum RayleighOutputKind {
    Mach,
    TemperatureRatio,
    PressureRatio,
    DensityRatio,
    StagnationTemperatureRatio,
    StagnationPressureRatio,
    VelocityRatio,
}

/// Root selection for the double-valued ratio -> Mach inversions.
#[derive(Debug, Clone, Copy, PartialEq, Eq, Structural)]
pub enum RayleighBranch {
    Subsonic,
    Supersonic,
}

pub open spec fn branch_text(b: RayleighBranch) -> Seq<char> {
    match b {
        RayleighBranch::Subsonic => "subsonic"@,
        RayleighBranch::Supersonic => "supersonic"@,
    }
}

impl RayleighBranch {
    /// The lower-case name of the branch.
    pub fn as_str(self) -> (res: &'static str)
        ensures
            res@ == branch_text(self),
    {
        match self {
            RayleighBranch::Subsonic => "subsonic",
            RayleighBranch::Supersonic => "supersonic",
        }
    }
}

/// The input kind that a normalized key names, if any.
pub open spec fn input_kind_of(k: Seq<char>) -> Option<RayleighInputKind> {
    if k == "mach"@ || k == "m"@ {
        Some(RayleighInputKind::Mach)
    } else if k == "t_tstar"@ || k == "t/t*"@ || k == "temperature_ratio"@ {
        Some(RayleighInputKind::TemperatureRatio)
    } else if k == "p_pstar"@ || k == "p/p*"@ || k == "pressure_ratio"@ {
        Some(RayleighInputKind::PressureRatio)
    } else if k == "rho_rhostar"@ || k == "rho/rho*"@ || k == "density_ratio"@ {
        Some(RayleighInputKind::DensityRatio)
    } else if k == "t0_t0star"@ || k == "t0/t0*"@ || k == "stagnation_temperature_ratio"@ {
        Some(RayleighInputKind::StagnationTemperatureRatio)
    } else if k == "p0_p0star"@ || k == "p0/p0*"@ || k == "stagnation_pressure_ratio"@ {
        Some(RayleighInputKind::StagnationPressureRatio)
    } else if k == "v_vstar"@ || k == "v/v*"@ || k == "velocity_ratio"@ {
        Some(RayleighInputKind::VelocityRatio)
    } else {
        None
    }
}

/// Parses a input kind name; surrounding whitespace and ASCII case are ignored.
pub fn parse_input_kind(raw: &str) -> (res: Option<RayleighInputKind>)
    ensures
        res == input_kind_of(normalize_seq(raw@)),
{
    let key = normalize_key(raw);
    let k = key.as_str();
    if str_eq(k, "mach") || str_eq(k, "m") {
        Some(RayleighInputKind::Mach)
    } else if str_eq(k, "t_tstar") || str_eq(k, "t/t*") || str_eq(k, "temperature_ratio") {
        Some(RayleighInputKind::TemperatureRatio)
    } else if str_eq(k, "p_pstar") || str_eq(k, "p/p*") || str_eq(k, "pressure_ratio") {
        Some(RayleighInputKind::PressureRatio)
    } else if str_eq(k, "rho_rhostar") || str_eq(k, "rho/rho*") || str_eq(k, "density_ratio") {
        Some(RayleighInputKind::DensityRatio)
    } else if str_eq(k, "t0_t0star") || str_eq(k, "t0/t0*") || str_eq(k, "stagnation_temperature_ratio") {
        Some(RayleighInputKind::StagnationTemperatureRatio)
    } else if str_eq(k, "p0_p0star") || str_eq(k, "p0/p0*") || str_eq(k, "stagnation_pressure_ratio") {
        Some(RayleighInputKind::StagnationPressureRatio)
    } else if str_eq(k, "v_vstar") || str_eq(k, "v/v*") || str_eq(k, "velocity_ratio") {
        Some(RayleighInputKind::VelocityRatio)
    } else {
        None
    }
}

/// The output kind that a normalized key names, if any.
pub open spec fn output_kind_of(k: Seq<char>) -> Option<RayleighOutputKind> {
    if k == "mach"@ || k == "m"@ {
        Some(RayleighOutputKind::Mach)
    } else if k == "t_tstar"@ || k == "t/t*"@ || k == "temperature_ratio"@ {
        Some(RayleighOutputKind::TemperatureRatio)
    } else if k == "p_pstar"@ || k == "p/p*"@ || k == "pressure_ratio"@ {
        Some(RayleighOutputKind::PressureRatio)
    } else if k == "rho_rhostar"@ || k == "rho/rho*"@ || k == "density_ratio"@ {
        Some(RayleighOutputKind::DensityRatio)
    } else if k == "t0_t0star"@ || k == "t0/t0*"@ || k == "stagnation_temperature_ratio"@ {
        Some(RayleighOutputKind::StagnationTemperatureRatio)
    } else if k == "p0_p0star"@ || k == "p0/p0*"@ || k == "stagnation_pressure_ratio"@ {
        Some(RayleighOutputKind::StagnationPressureRatio)
    } else if k == "v_vstar"@ || k == "v/v*"@ || k == "velocity_ratio"@ {
        Some(RayleighOutputKind::VelocityRatio)
    } else {
        None
    }
}

/// Parses a output kind name; surrounding whitespace and ASCII case are ignored.
pub fn parse_output_kind(raw: &str) -> (res: Option<RayleighOutputKind>)
    ensures
        res == output_kind_of(normalize_seq(raw@)),
{
    let key = normalize_key(raw);
    let k = key.as_str();
    if str_eq(k, "mach") || str_eq(k, "m") {
        Some(RayleighOutputKind::Mach)
    } else if str_eq(k, "t_tstar") || str_eq(k, "t/t*") || str_eq(k, "temperature_ratio") {
        Some(RayleighOutputKind::TemperatureRatio)
    } else if str_eq(k, "p_pstar") || str_eq(k, "p/p*") || str_eq(k, "pressure_ratio") {
        Some(RayleighOutputKind::PressureRatio)
    } else if str_eq(k, "rho_rhostar") || str_eq(k, "rho/rho*") || str_eq(k, "density_ratio") {
        Some(RayleighOutputKind::DensityRatio)
    } else if str_eq(k, "t0_t0star") || str_eq(k, "t0/t0*") || str_eq(k, "stagnation_temperature_ratio") {
        Some(RayleighOutputKind::StagnationTemperatureRatio)
    } else if str_eq(k, "p0_p0star") || str_eq(k, "p0/p0*") || str_eq(k, "stagnation_pressure_ratio") {
        Some(RayleighOutputKind::StagnationPressureRatio)
    } else if str_eq(k, "v_vstar") || str_eq(k, "v/v*") || str_eq(k, "velocity_ratio") {
        Some(RayleighOutputKind::VelocityRatio)
    } else {
        None
    }
}

/// The branch that a normalized key names, if any.
pub open spec fn branch_of(k: Seq<char>) -> Option<RayleighBranch> {
    if k == "subsonic"@ {
        Some(RayleighBranch::Subsonic)
    } else if k == "supersonic"@ {
        Some(RayleighBranch::Supersonic)
    } else {
        None
    }
}

/// Parses a branch name; surrounding whitespace and ASCII case are ignored.
pub fn parse_branch(raw: &str) -> (res: Option<RayleighBranch>)
    ensures
        res == branch_of(normalize_seq(raw@)),
{
    let key = normalize_key(raw);
    let k = key.as_str();
    if str_eq(k, "subsonic") {
        Some(RayleighBranch::Subsonic)
    } else if str_eq(k, "supersonic") {
        Some(RayleighBranch::Supersonic)
    } else {
        None
    }
}

pub open spec fn input_kind_name(kind: RayleighInputKind) -> Seq<char> {
    match kind {
        RayleighInputKind::Mach => "Mach"@,
        RayleighInputKind::TemperatureRatio => "TemperatureRatio"@,
        RayleighInputKind::PressureRatio => "PressureRatio"@,
        RayleighInputKind::DensityRatio => "DensityRatio"@,
        RayleighInputKind::StagnationTemperatureRatio => "StagnationTemperatureRatio"@,
        RayleighInputKind::StagnationPressureRatio => "StagnationPressureRatio"@,
        RayleighInputKind::VelocityRatio => "VelocityRatio"@,
    }
}

/// The name under which errors report an input kind.
pub fn input_kind_label(kind: RayleighInputKind) -> (res: &'static str)
    ensures
        res@ == input_kind_name(kind),
{
    match kind {
        RayleighInputKind::Mach => "Mach",
        RayleighInputKind::TemperatureRatio => "TemperatureRatio",
        RayleighInputKind::PressureRatio => "PressureRatio",
        RayleighInputKind::DensityRatio => "DensityRatio",
        RayleighInputKind::StagnationTemperatureRatio => "StagnationTemperatureRatio",
        RayleighInputKind::StagnationPressureRatio => "StagnationPressureRatio",
        RayleighInputKind::VelocityRatio => "VelocityRatio",
    }
}

/// The step that resolves the pivot Mach number from the input kind.
pub open spec fn pivot_spec(kind: RayleighInputKind, branch: Option<RayleighBranch>) -> Result<Option<StepView>, RouteFailure> {
    match kind {
        RayleighInputKind::Mach => Ok(None),
        RayleighInputKind::TemperatureRatio => match branch {
            None => Err(RouteFailure::MissingBranch(input_kind_name(kind))),
            Some(b) => Ok(Some(sv(StepKind::Equation, "compressible.rayleigh_temperature_ratio"@, "M"@, seq!["t_tstar"@, "gamma"@], Some(branch_text(b))))),
        },
        RayleighInputKind::PressureRatio => Ok(Some(sv(StepKind::Equation, "compressible.rayleigh_pressure_ratio"@, "M"@, seq!["p_pstar"@, "gamma"@], None))),
        RayleighInputKind::DensityRatio => Ok(Some(sv(StepKind::Equation, "compressible.rayleigh_density_ratio"@, "M"@, seq!["rho_rhostar"@, "gamma"@], None))),
        RayleighInputKind::StagnationTemperatureRatio => match branch {
            None => Err(RouteFailure::MissingBranch(input_kind_name(kind))),
            Some(b) => Ok(Some(sv(StepKind::Equation, "compressible.rayleigh_stagnation_temperature_ratio"@, "M"@, seq!["t0_t0star"@, "gamma"@], Some(branch_text(b))))),
        },
        RayleighInputKind::StagnationPressureRatio => match branch {
            None => Err(RouteFailure::MissingBranch(input_kind_name(kind))),
            Some(b) => Ok(Some(sv(StepKind::Equation, "compressible.rayleigh_stagnation_pressure_ratio"@, "M"@, seq!["p0_p0star"@, "gamma"@], Some(branch_text(b))))),
        },
        RayleighInputKind::VelocityRatio => Ok(Some(sv(StepKind::Equation, "compressible.rayleigh_velocity_ratio"@, "M"@, seq!["v_vstar"@, "gamma"@], None))),
    }
}

/// The step that resolves the pivot Mach number from the input kind.
pub fn pivot_step(kind: RayleighInputKind, branch: Option<RayleighBranch>) -> (res: Result<Option<PlannedStep>, RouteError>)
    ensures
        step_result_view(res) == pivot_spec(kind, branch),
{
    match kind {
        RayleighInputKind::Mach => Ok(None),
        RayleighInputKind::TemperatureRatio => match branch {
            None => Err(RouteError::MissingBranch { kind: input_kind_label(kind) }),
            Some(b) => Ok(Some(planned(StepKind::Equation, "compressible.rayleigh_temperature_ratio", "M", names2("t_tstar", "gamma"), Some(b.as_str())))),
        },
        RayleighInputKind::PressureRatio => Ok(Some(planned(StepKind::Equation, "compressible.rayleigh_pressure_ratio", "M", names2("p_pstar", "gamma"), None))),
        RayleighInputKind::DensityRatio => Ok(Some(planned(StepKind::Equation, "compressible.rayleigh_density_ratio", "M", names2("rho_rhostar", "gamma"), None))),
        RayleighInputKind::StagnationTemperatureRatio => match branch {
            None => Err(RouteError::MissingBranch { kind: input_kind_label(kind) }),
            Some(b) => Ok(Some(planned(StepKind::Equation, "compressible.rayleigh_stagnation_temperature_ratio", "M", names2("t0_t0star", "gamma"), Some(b.as_str())))),
        },
        RayleighInputKind::StagnationPressureRatio => match branch {
            None => Err(RouteError::MissingBranch { kind: input_kind_label(kind) }),
            Some(b) => Ok(Some(planned(StepKind::Equation, "compressible.rayleigh_stagnation_pressure_ratio", "M", names2("p0_p0star", "gamma"), Some(b.as_str())))),
        },
        RayleighInputKind::VelocityRatio => Ok(Some(planned(StepKind::Equation, "compressible.rayleigh_velocity_ratio", "M", names2("v_vstar", "gamma"), None))),
    }
}

/// The step that evaluates the target kind at the pivot Mach number.
pub open spec fn target_spec(kind: RayleighOutputKind, branch: Option<RayleighBranch>) -> Option<StepView> {
    match kind {
        RayleighOutputKind::Mach => None,
        RayleighOutputKind::TemperatureRatio => Some(sv(StepKind::Equation, "compressible.rayleigh_temperature_ratio"@, "t_tstar"@, seq!["M"@, "gamma"@], None)),
        RayleighOutputKind::PressureRatio => Some(sv(StepKind::Equation, "compressible.rayleigh_pressure_ratio"@, "p_pstar"@, seq!["M"@, "gamma"@], None)),
        RayleighOutputKind::DensityRatio => Some(sv(StepKind::Equation, "compressible.rayleigh_density_ratio"@, "rho_rhostar"@, seq!["M"@, "gamma"@], None)),
        RayleighOutputKind::StagnationTemperatureRatio => Some(sv(StepKind::Equation, "compressible.rayleigh_stagnation_temperature_ratio"@, "t0_t0star"@, seq!["M"@, "gamma"@], None)),
        RayleighOutputKind::StagnationPressureRatio => Some(sv(StepKind::Equation, "compressible.rayleigh_stagnation_pressure_ratio"@, "p0_p0star"@, seq!["M"@, "gamma"@], None)),
        RayleighOutputKind::VelocityRatio => Some(sv(StepKind::Equation, "compressible.rayleigh_velocity_ratio"@, "v_vstar"@, seq!["M"@, "gamma"@], None)),
    }
}

/// The step that evaluates the target kind at the pivot Mach number.
pub fn target_step(kind: RayleighOutputKind, branch: Option<RayleighBranch>) -> (res: Option<PlannedStep>)
    ensures
        opt_step_view(res) == target_spec(kind, branch),
{
    match kind {
        RayleighOutputKind::Mach => None,
        RayleighOutputKind::TemperatureRatio => Some(planned(StepKind::Equation, "compressible.rayleigh_temperature_ratio", "t_tstar", names2("M", "gamma"), None)),
        RayleighOutputKind::PressureRatio => Some(planned(StepKind::Equation, "compressible.rayleigh_pressure_ratio", "p_pstar", names2("M", "gamma"), None)),
        RayleighOutputKind::DensityRatio => Some(planned(StepKind::Equation, "compressible.rayleigh_density_ratio", "rho_rhostar", names2("M", "gamma"), None)),
        RayleighOutputKind::StagnationTemperatureRatio => Some(planned(StepKind::Equation, "compressible.rayleigh_stagnation_temperature_ratio", "t0_t0star", names2("M", "gamma"), None)),
        RayleighOutputKind::StagnationPressureRatio => Some(planned(StepKind::Equation, "compressible.rayleigh_stagnation_pressure_ratio", "p0_p0star", names2("M", "gamma"), None)),
        RayleighOutputKind::VelocityRatio => Some(planned(StepKind::Equation, "compressible.rayleigh_velocity_ratio", "v_vstar", names2("M", "gamma"), None)),
    }
}

/// The keys under which the device advertises its input kinds.
pub open spec fn advertised_input_keys() -> Seq<Seq<char>> {
    seq!["mach"@, "t_tstar"@, "p_pstar"@, "rho_rhostar"@, "t0_t0star"@, "p0_p0star"@, "v_vstar"@]
}

/// The keys under which the device advertises its output kinds.
pub open spec fn advertised_output_keys() -> Seq<Seq<char>> {
    seq!["mach"@, "t_tstar"@, "p_pstar"@, "rho_rhostar"@, "t0_t0star"@, "p0_p0star"@, "v_vstar"@]
}

/// The static description of the Rayleigh-flow calculator.
pub fn device_spec() -> (res: CalculatorDeviceSpec)
    ensures
        res.key@ == "rayleigh_calc"@,
        res.name@ == "Rayleigh Flow Calculator"@,
        res.summary@ == "Calculator-style compressible device: solve Rayleigh star-reference input kinds to target kinds through Mach pivot orchestration."@,
        res.route@ == "devices/rayleigh_calc.md"@,
        res.pivot_label@ == "Mach"@,
        kind_keys(res.input_kinds@) == advertised_input_keys(),
        kind_labels(res.input_kinds@) == seq!["Mach"@, "T/T*"@, "p/p*"@, "rho/rho*"@, "T0/T0*"@, "p0/p0*"@, "V/V*"@],
        kind_keys(res.output_kinds@) == advertised_output_keys(),
        kind_labels(res.output_kinds@) == seq!["Mach"@, "T/T*"@, "p/p*"@, "rho/rho*"@, "T0/T0*"@, "p0/p0*"@, "V/V*"@],
        crate::strings::str_views(res.branches@) == seq!["subsonic"@, "supersonic"@],
{
    let inputs = vec![
        kind("mach", "Mach"),
        kind("t_tstar", "T/T*"),
        kind("p_pstar", "p/p*"),
        kind("rho_rhostar", "rho/rho*"),
        kind("t0_t0star", "T0/T0*"),
        kind("p0_p0star", "p0/p0*"),
        kind("v_vstar", "V/V*"),
    ];
    let outputs = vec![
        kind("mach", "Mach"),
        kind("t_tstar", "T/T*"),
        kind("p_pstar", "p/p*"),
        kind("rho_rhostar", "rho/rho*"),
        kind("t0_t0star", "T0/T0*"),
        kind("p0_p0star", "p0/p0*"),
        kind("v_vstar", "V/V*"),
    ];
    let res = CalculatorDeviceSpec {
        key: "rayleigh_calc",
        name: "Rayleigh Flow Calculator",
        summary: "Calculator-style compressible device: solve Rayleigh star-reference input kinds to target kinds through Mach pivot orchestration.",
        route: "devices/rayleigh_calc.md",
        pivot_label: "Mach",
        input_kinds: inputs,
        output_kinds: outputs,
        branches: names2("subsonic", "supersonic"),
    };
    assert(kind_keys(res.input_kinds@) =~= advertised_input_keys());
    assert(kind_labels(res.input_kinds@) =~= seq!["Mach"@, "T/T*"@, "p/p*"@, "rho/rho*"@, "T0/T0*"@, "p0/p0*"@, "V/V*"@]);
    assert(kind_keys(res.output_kinds@) =~= advertised_output_keys());
    assert(kind_labels(res.output_kinds@) =~= seq!["Mach"@, "T/T*"@, "p/p*"@, "rho/rho*"@, "T0/T0*"@, "p0/p0*"@, "V/V*"@]);
    res
}

/// The whole solve route: the pivot step (for a non-Mach input) followed by the
/// target step (for a non-Mach target).
pub open spec fn route_spec(input: RayleighInputKind, target: RayleighOutputKind, branch: Option<RayleighBranch>) -> Result<Seq<StepView>, RouteFailure> {
    assemble(pivot_spec(input, branch), target_spec(target, branch))
}

/// Plans the equation steps of a Rayleigh-flow calculation.
pub fn route(input: RayleighInputKind, target: RayleighOutputKind, branch: Option<RayleighBranch>) -> (res: Result<Vec<PlannedStep>, RouteError>)
    ensures
        route_view(res) == route_spec(input, target, branch),
{
    let p = pivot_step(input, branch);
    let t = target_step(target, branch);
    assemble_route(p, t)
}

/// Reading back a branch's own name gives that branch.
pub proof fn branch_name_round_trip(b: RayleighBranch)
    ensures
        branch_of(normalize_seq(branch_text(b))) == Some(b),
{
    reveal_strlit("subsonic");
    reveal_strlit("supersonic");
    lemma_normalize_canonical("subsonic"@);
    lemma_normalize_canonical("supersonic"@);
}

/// Every key the device advertises is accepted by the matching kind parser.
pub proof fn advertised_keys_parse()
    ensures
        input_kind_of(normalize_seq(advertised_input_keys()[0])) == Some(RayleighInputKind::Mach),
        input_kind_of(normalize_seq(advertised_input_keys()[1])) == Some(RayleighInputKind::TemperatureRatio),
        input_kind_of(normalize_seq(advertised_input_keys()[2])) == Some(RayleighInputKind::PressureRatio),
        input_kind_of(normalize_seq(advertised_input_keys()[3])) == Some(RayleighInputKind::DensityRatio),
        input_kind_of(normalize_seq(advertised_input_keys()[4])) == Some(RayleighInputKind::StagnationTemperatureRatio),
        input_kind_of(normalize_seq(advertised_input_keys()[5])) == Some(RayleighInputKind::StagnationPressureRatio),
        input_kind_of(normalize_seq(advertised_input_keys()[6])) == Some(RayleighInputKind::VelocityRatio),
        output_kind_of(normalize_seq(advertised_output_keys()[0])) == Some(RayleighOutputKind::Mach),
        output_kind_of(normalize_seq(advertised_output_keys()[1])) == Some(RayleighOutputKind::TemperatureRatio),
        output_kind_of(normalize_seq(advertised_output_keys()[2])) == Some(RayleighOutputKind::PressureRatio),
        output_kind_of(normalize_seq(advertised_output_keys()[3])) == Some(RayleighOutputKind::DensityRatio),
        output_kind_of(normalize_seq(advertised_output_keys()[4])) == Some(RayleighOutputKind::StagnationTemperatureRatio),
        output_kind_of(normalize_seq(advertised_output_keys()[5])) == Some(RayleighOutputKind::StagnationPressureRatio),
        output_kind_of(normalize_seq(advertised_output_keys()[6])) == Some(RayleighOutputKind::VelocityRatio),
{
    reveal_strlit("mach");
    reveal_strlit("m");
    reveal_strlit("t_tstar");
    reveal_strlit("t/t*");
    reveal_strlit("temperature_ratio");
    reveal_strlit("p_pstar");
    reveal_strlit("p/p*");
    reveal_strlit("pressure_ratio");
    reveal_strlit("rho_rhostar");
    reveal_strlit("rho/rho*");
    reveal_strlit("density_ratio");
    reveal_strlit("t0_t0star");
    reveal_strlit("t0/t0*");
    reveal_strlit("stagnation_temperature_ratio");
    reveal_strlit("p0_p0star");
    reveal_strlit("p0/p0*");
    reveal_strlit("stagnation_pressure_ratio");
    reveal_strlit("v_vstar");
    reveal_strlit("v/v*");
    reveal_strlit("velocity_ratio");
    lemma_normalize_canonical("mach"@);
    lemma_normalize_canonical("t_tstar"@);
    lemma_normalize_canonical("p_pstar"@);
    lemma_normalize_canonical("rho_rhostar"@);
    lemma_normalize_canonical("t0_t0star"@);
    lemma_normalize_canonical("p0_p0star"@);
    lemma_normalize_canonical("v_vstar"@);
}

/// With a branch chosen, every input kind routes to every target kind.
pub proof fn route_is_total_with_branch(input: RayleighInputKind, target: RayleighOutputKind, branch: RayleighBranch)
    ensures
        route_spec(input, target, Some(branch)) is Ok,
{
}

/// The double-valued inversions (T/T*, T0/T0*, p0/p0* -> Mach) need a branch;
/// every other input routes without one, and the refusal names the input kind.
pub proof fn route_needs_branch_only_for_double_valued(input: RayleighInputKind, target: RayleighOutputKind)
    ensures
        (route_spec(input, target, None) is Err) <==> (input == RayleighInputKind::TemperatureRatio
            || input == RayleighInputKind::StagnationTemperatureRatio
            || input == RayleighInputKind::StagnationPressureRatio),
        route_spec(input, target, None) is Err ==> route_spec(input, target, None)
            == Err::<Seq<StepView>, RouteFailure>(RouteFailure::MissingBranch(input_kind_name(input))),
{
}

} // verus!

// ---- documentation and binding metadata ----

verus! {

/// The bindings section of the device's documentation page.
pub const BINDINGS_MD: &'static str = "## Bindings\n\n### Python\n```python\nengpy.devices.rayleigh_calc(\"mach\", 2.0, \"p_pstar\", 1.4)\nengpy.devices.rayleigh_from_m_to_t0_t0star(2.0, 1.4)\nengpy.devices.rayleigh_from_t_tstar_to_m(0.7901234568, 1.4, \"subsonic\")\nengpy.devices.rayleigh_path_text(\"t0_t0star\", 0.7933884298, \"mach\", 1.4, \"supersonic\")\n```\n\n### Excel\n```excel\n=ENG_RAYLEIGH(\"mach\",2.0,\"p_pstar\",1.4,\"\")\n=ENG_RAYLEIGH_FROM_M_TO_T_TSTAR(2.0,1.4)\n=ENG_RAYLEIGH_FROM_M_TO_P_PSTAR(2.0,1.4)\n=ENG_RAYLEIGH_FROM_M_TO_RHO_RHOSTAR(2.0,1.4)\n=ENG_RAYLEIGH_FROM_M_TO_T0_T0STAR(2.0,1.4)\n=ENG_RAYLEIGH_FROM_M_TO_P0_P0STAR(2.0,1.4)\n=ENG_RAYLEIGH_FROM_M_TO_V_VSTAR(2.0,1.4)\n=ENG_RAYLEIGH_FROM_T_TSTAR_TO_M(0.7901234568,1.4,\"subsonic\")\n=ENG_RAYLEIGH_FROM_T0_T0STAR_TO_M(0.7933884298,1.4,\"supersonic\")\n=ENG_RAYLEIGH_FROM_P0_P0STAR_TO_M(1.1140525032,1.4,\"subsonic\")\n=ENG_RAYLEIGH_PATH_TEXT(\"t_tstar\",0.7901234568,\"mach\",1.4,\"subsonic\")\n```\n\n**Excel arguments**\n- `input_kind`: `mach`, `t_tstar`, `p_pstar`, `rho_rhostar`, `t0_t0star`, `p0_p0star`, `v_vstar`\n- `input_value`: input value\n- `target_kind`: `mach`, `t_tstar`, `p_pstar`, `rho_rhostar`, `t0_t0star`, `p0_p0star`, `v_vstar`\n- `gamma`: specific heat ratio\n- `branch`: required for branch-sensitive inverse paths (`subsonic`/`supersonic`)\n";

/// The overview section of the device's documentation page.
pub const OVERVIEW_MD: &'static str = "## Overview\n\nA calculator-style compressible device that resolves a pivot Mach number from one supported Rayleigh input kind and then evaluates the requested target kind.\n\n### Supported input kinds\n- `mach`\n- `t_tstar` (`T/T*`)\n- `p_pstar` (`p/p*`)\n- `rho_rhostar` (`rho/rho*`)\n- `t0_t0star` (`T0/T0*`)\n- `p0_p0star` (`p0/p0*`)\n- `v_vstar` (`V/V*`)\n\n### Supported target kinds\n- `mach`\n- `t_tstar`\n- `p_pstar`\n- `rho_rhostar`\n- `t0_t0star`\n- `p0_p0star`\n- `v_vstar`\n\n### Branch behavior\n- Branch-sensitive inverse paths (`T/T* -> M`, `T0/T0* -> M`, `p0/p0* -> M`) require `subsonic` or `supersonic`.\n\n### Rust\n```rust\nuse eng::devices::{rayleigh_calc, RayleighBranch, RayleighInputKind, RayleighOutputKind};\nlet out = rayleigh_calc()\n    .gamma(1.4)\n    .input(RayleighInputKind::StagnationTemperatureRatio, 0.7933884297520661)\n    .target(RayleighOutputKind::Mach)\n    .branch(RayleighBranch::Supersonic)\n    .solve()?;\nprintln!(\"M={}, value={}\", out.pivot_mach, out.value_si);\n```\n";




/// The kind keys that a binding may fix: the advertised ones.
pub open spec fn binding_input_keys() -> Seq<Seq<char>> {
    advertised_input_keys()
}

pub open spec fn binding_output_keys() -> Seq<Seq<char>> {
    advertised_output_keys()
}

/// The invoke operations that the device's bindings call.
pub open spec fn binding_op(op: Seq<char>) -> bool {
    op == "device.rayleigh_calc.value"@ || op == "device.rayleigh_calc.path_text"@ || op == "device.rayleigh_calc.pivot_mach"@
}

/// Every binding calls one of the device's operations, and fixes either
/// nothing or an input kind and a target kind that the device accepts.
pub open spec fn bindings_ok(b: Seq<DeviceBindingFunctionSpec>) -> bool {
    forall|i: int| 0 <= i < b.len() ==> binding_op((#[trigger] b[i]).op@)
        && fixed_kinds_in(b[i].fixed_args@, binding_input_keys(), binding_output_keys())
}

/// The names of the device's bindings, and the kinds each fixes.
pub const BINDING_NAMES: [DeviceNameRow; 12] = [
    ("device.rayleigh_calc", "rayleigh_calc", "ENG_RAYLEIGH", "device.rayleigh_calc.value", "", ""),
    ("device.rayleigh_calc.path_text", "rayleigh_path_text", "ENG_RAYLEIGH_PATH_TEXT", "device.rayleigh_calc.path_text", "", ""),
    ("device.rayleigh_calc.pivot", "rayleigh_pivot_mach", "ENG_RAYLEIGH_PIVOT_MACH", "device.rayleigh_calc.pivot_mach", "", ""),
    ("device.rayleigh_calc.from_m.to_t_tstar", "rayleigh_from_m_to_t_tstar", "ENG_RAYLEIGH_FROM_M_TO_T_TSTAR", "device.rayleigh_calc.value", "mach", "t_tstar"),
    ("device.rayleigh_calc.from_m.to_p_pstar", "rayleigh_from_m_to_p_pstar", "ENG_RAYLEIGH_FROM_M_TO_P_PSTAR", "device.rayleigh_calc.value", "mach", "p_pstar"),
    ("device.rayleigh_calc.from_m.to_rho_rhostar", "rayleigh_from_m_to_rho_rhostar", "ENG_RAYLEIGH_FROM_M_TO_RHO_RHOSTAR", "device.rayleigh_calc.value", "mach", "rho_rhostar"),
    ("device.rayleigh_calc.from_m.to_t0_t0star", "rayleigh_from_m_to_t0_t0star", "ENG_RAYLEIGH_FROM_M_TO_T0_T0STAR", "device.rayleigh_calc.value", "mach", "t0_t0star"),
    ("device.rayleigh_calc.from_m.to_p0_p0star", "rayleigh_from_m_to_p0_p0star", "ENG_RAYLEIGH_FROM_M_TO_P0_P0STAR", "device.rayleigh_calc.value", "mach", "p0_p0star"),
    ("device.rayleigh_calc.from_m.to_v_vstar", "rayleigh_from_m_to_v_vstar", "ENG_RAYLEIGH_FROM_M_TO_V_VSTAR", "device.rayleigh_calc.value", "mach", "v_vstar"),
    ("device.rayleigh_calc.from_t_tstar.to_m", "rayleigh_from_t_tstar_to_m", "ENG_RAYLEIGH_FROM_T_TSTAR_TO_M", "device.rayleigh_calc.value", "t_tstar", "mach"),
    ("device.rayleigh_calc.from_t0_t0star.to_m", "rayleigh_from_t0_t0star_to_m", "ENG_RAYLEIGH_FROM_T0_T0STAR_TO_M", "device.rayleigh_calc.value", "t0_t0star", "mach"),
    ("device.rayleigh_calc.from_p0_p0star.to_m", "rayleigh_from_p0_p0star_to_m", "ENG_RAYLEIGH_FROM_P0_P0STAR_TO_M", "device.rayleigh_calc.value", "p0_p0star", "mach"),
];

/// The texts of the device's bindings, position by position.
pub const BINDING_TEXTS: [TextRow; 12] = [
    ("f64", "Rayleigh-flow calculator: input kind -> target kind through Mach pivot", "eng::devices::rayleigh_calc().solve()?", "engpy.devices.rayleigh_calc(\"mach\", 2.0, \"p_pstar\", 1.4)", "=ENG_RAYLEIGH(\"mach\",2.0,\"p_pstar\",1.4,\"\")", "=ENG_RAYLEIGH(\"mach\",2.0,\"p_pstar\",1.4,\"\")"),
    ("str", "Rayleigh-flow calculator helper: compact step trace text", "eng::invoke::process_invoke_json(\"...\")", "engpy.devices.rayleigh_path_text(\"t_tstar\", 0.7901234568, \"mach\", 1.4, \"subsonic\")", "=ENG_RAYLEIGH_PATH_TEXT(\"t_tstar\",0.7901234568,\"mach\",1.4,\"subsonic\")", "=ENG_RAYLEIGH_PATH_TEXT(\"t_tstar\",0.7901234568,\"mach\",1.4,\"subsonic\")"),
    ("f64", "Rayleigh-flow calculator helper: return resolved pivot Mach", "eng::invoke::process_invoke_json(\"...\")", "engpy.devices.rayleigh_pivot_mach(\"t0_t0star\", 0.7933884298, \"mach\", 1.4, \"supersonic\")", "=ENG_RAYLEIGH_PIVOT_MACH(\"t0_t0star\",0.7933884298,\"mach\",1.4,\"supersonic\")", "=ENG_RAYLEIGH_PIVOT_MACH(\"t0_t0star\",0.7933884298,\"mach\",1.4,\"supersonic\")"),
    ("f64", "Convenience Rayleigh path: Mach -> T/T*", "eng::invoke::process_invoke_json(\"...\")", "engpy.devices.rayleigh_from_m_to_t_tstar(2.0, 1.4)", "=ENG_RAYLEIGH_FROM_M_TO_T_TSTAR(2.0,1.4)", "=ENG_RAYLEIGH_FROM_M_TO_T_TSTAR(2.0,1.4)"),
    ("f64", "Convenience Rayleigh path: Mach -> p/p*", "eng::invoke::process_invoke_json(\"...\")", "engpy.devices.rayleigh_from_m_to_p_pstar(2.0, 1.4)", "=ENG_RAYLEIGH_FROM_M_TO_P_PSTAR(2.0,1.4)", "=ENG_RAYLEIGH_FROM_M_TO_P_PSTAR(2.0,1.4)"),
    ("f64", "Convenience Rayleigh path: Mach -> rho/rho*", "eng::invoke::process_invoke_json(\"...\")", "engpy.devices.rayleigh_from_m_to_rho_rhostar(2.0, 1.4)", "=ENG_RAYLEIGH_FROM_M_TO_RHO_RHOSTAR(2.0,1.4)", "=ENG_RAYLEIGH_FROM_M_TO_RHO_RHOSTAR(2.0,1.4)"),
    ("f64", "Convenience Rayleigh path: Mach -> T0/T0*", "eng::invoke::process_invoke_json(\"...\")", "engpy.devices.rayleigh_from_m_to_t0_t0star(2.0, 1.4)", "=ENG_RAYLEIGH_FROM_M_TO_T0_T0STAR(2.0,1.4)", "=ENG_RAYLEIGH_FROM_M_TO_T0_T0STAR(2.0,1.4)"),
    ("f64", "Convenience Rayleigh path: Mach -> p0/p0*", "eng::invoke::process_invoke_json(\"...\")", "engpy.devices.rayleigh_from_m_to_p0_p0star(2.0, 1.4)", "=ENG_RAYLEIGH_FROM_M_TO_P0_P0STAR(2.0,1.4)", "=ENG_RAYLEIGH_FROM_M_TO_P0_P0STAR(2.0,1.4)"),
    ("f64", "Convenience Rayleigh path: Mach -> V/V*", "eng::invoke::process_invoke_json(\"...\")", "engpy.devices.rayleigh_from_m_to_v_vstar(2.0, 1.4)", "=ENG_RAYLEIGH_FROM_M_TO_V_VSTAR(2.0,1.4)", "=ENG_RAYLEIGH_FROM_M_TO_V_VSTAR(2.0,1.4)"),
    ("f64", "Convenience Rayleigh path: T/T* -> Mach (branch required)", "eng::invoke::process_invoke_json(\"...\")", "engpy.devices.rayleigh_from_t_tstar_to_m(0.7901234568, 1.4, \"subsonic\")", "=ENG_RAYLEIGH_FROM_T_TSTAR_TO_M(0.7901234568,1.4,\"subsonic\")", "=ENG_RAYLEIGH_FROM_T_TSTAR_TO_M(0.7901234568,1.4,\"subsonic\")"),
    ("f64", "Convenience Rayleigh path: T0/T0* -> Mach (branch required)", "eng::invoke::process_invoke_json(\"...\")", "engpy.devices.rayleigh_from_t0_t0star_to_m(0.7933884298, 1.4, \"supersonic\")", "=ENG_RAYLEIGH_FROM_T0_T0STAR_TO_M(0.7933884298,1.4,\"supersonic\")", "=ENG_RAYLEIGH_FROM_T0_T0STAR_TO_M(0.7933884298,1.4,\"supersonic\")"),
    ("f64", "Convenience Rayleigh path: p0/p0* -> Mach (branch required)", "eng::invoke::process_invoke_json(\"...\")", "engpy.devices.rayleigh_from_p0_p0star_to_m(1.1140525032, 1.4, \"subsonic\")", "=ENG_RAYLEIGH_FROM_P0_P0STAR_TO_M(1.1140525032,1.4,\"subsonic\")", "=ENG_RAYLEIGH_FROM_P0_P0STAR_TO_M(1.1140525032,1.4,\"subsonic\")"),
];

/// The arguments of the device's bindings, in order: binding position, name, description.
pub const BINDING_ARGS: [PairRow; 36] = [
    (0, "input_kind", "Input kind (mach, t_tstar, p_pstar, rho_rhostar, t0_t0star, p0_p0star, v_vstar)"),
    (0, "input_value", "Input value"),
    (0, "target_kind", "Target kind (mach, t_tstar, p_pstar, rho_rhostar, t0_t0star, p0_p0star, v_vstar)"),
    (0, "gamma", "Specific heat ratio"),
    (0, "branch", "Subsonic/supersonic branch for branch-sensitive inverse paths"),
    (1, "input_kind", "Input kind (mach, t_tstar, p_pstar, rho_rhostar, t0_t0star, p0_p0star, v_vstar)"),
    (1, "input_value", "Input value"),
    (1, "target_kind", "Target kind (mach, t_tstar, p_pstar, rho_rhostar, t0_t0star, p0_p0star, v_vstar)"),
    (1, "gamma", "Specific heat ratio"),
    (1, "branch", "Subsonic/supersonic branch for branch-sensitive inverse paths"),
    (2, "input_kind", "Input kind (mach, t_tstar, p_pstar, rho_rhostar, t0_t0star, p0_p0star, v_vstar)"),
    (2, "input_value", "Input value"),
    (2, "target_kind", "Target kind (mach, t_tstar, p_pstar, rho_rhostar, t0_t0star, p0_p0star, v_vstar)"),
    (2, "gamma", "Specific heat ratio"),
    (2, "branch", "Subsonic/supersonic branch for branch-sensitive inverse paths"),
    (3, "input_value", "Mach input value"),
    (3, "gamma", "Specific heat ratio"),
    (4, "input_value", "Mach input value"),
    (4, "gamma", "Specific heat ratio"),
    (5, "input_value", "Mach input value"),
    (5, "gamma", "Specific heat ratio"),
    (6, "input_value", "Mach input value"),
    (6, "gamma", "Specific heat ratio"),
    (7, "input_value", "Mach input value"),
    (7, "gamma", "Specific heat ratio"),
    (8, "input_value", "Mach input value"),
    (8, "gamma", "Specific heat ratio"),
    (9, "input_value", "Input ratio value"),
    (9, "gamma", "Specific heat ratio"),
    (9, "branch", "Subsonic or supersonic branch"),
    (10, "input_value", "Input ratio value"),
    (10, "gamma", "Specific heat ratio"),
    (10, "branch", "Subsonic or supersonic branch"),
    (11, "input_value", "Input ratio value"),
    (11, "gamma", "Specific heat ratio"),
    (11, "branch", "Subsonic or supersonic branch"),
];

fn binding_functions() -> (res: Vec<DeviceBindingFunctionSpec>)
    ensures
        device_table_bindings(res@, BINDING_NAMES@, BINDING_TEXTS@, BINDING_ARGS@),
        res.len() == 12,
        bindings_ok(res@),
{
    let names = BINDING_NAMES.as_slice();
    let texts = BINDING_TEXTS.as_slice();
    let args = BINDING_ARGS.as_slice();
    assert(names@ == BINDING_NAMES@ && texts@ == BINDING_TEXTS@ && args@ == BINDING_ARGS@);
    let res = device_binding_table(names, texts, args);
    proof {
        reveal_strlit("");
        assert forall|i: int| 0 <= i < res@.len() implies binding_op((#[trigger] res@[i]).op@) && fixed_kinds_in(
            res@[i].fixed_args@,
            binding_input_keys(),
            binding_output_keys(),
        ) by {
            assert(device_row_matches(res@[i], BINDING_NAMES@[i], BINDING_TEXTS@[i], rows_at(BINDING_ARGS@, i)));
            if i == 0 {
            } else if i == 1 {
            } else if i == 2 {
            } else if i == 3 {
                reveal_strlit("mach");
                assert(binding_input_keys()[0] == "mach"@);
                assert(binding_output_keys()[1] == "t_tstar"@);
            } else if i == 4 {
                reveal_strlit("mach");
                assert(binding_input_keys()[0] == "mach"@);
                assert(binding_output_keys()[2] == "p_pstar"@);
            } else if i == 5 {
                reveal_strlit("mach");
                assert(binding_input_keys()[0] == "mach"@);
                assert(binding_output_keys()[3] == "rho_rhostar"@);
            } else if i == 6 {
                reveal_strlit("mach");
                assert(binding_input_keys()[0] == "mach"@);
                assert(binding_output_keys()[4] == "t0_t0star"@);
            } else if i == 7 {
                reveal_strlit("mach");
                assert(binding_input_keys()[0] == "mach"@);
                assert(binding_output_keys()[5] == "p0_p0star"@);
            } else if i == 8 {
                reveal_strlit("mach");
                assert(binding_input_keys()[0] == "mach"@);
                assert(binding_output_keys()[6] == "v_vstar"@);
            } else if i == 9 {
                reveal_strlit("t_tstar");
                assert(binding_input_keys()[1] == "t_tstar"@);
                assert(binding_output_keys()[0] == "mach"@);
            } else if i == 10 {
                reveal_strlit("t0_t0star");
                assert(binding_input_keys()[4] == "t0_t0star"@);
                assert(binding_output_keys()[0] == "mach"@);
            } else if i == 11 {
                reveal_strlit("p0_p0star");
                assert(binding_input_keys()[5] == "p0_p0star"@);
                assert(binding_output_keys()[0] == "mach"@);
            }
        }
    }
    res
}


/// What the device's generation metadata holds: its names, route, modes,
/// outputs, equation dependencies, page sections and bindings.
pub open spec fn generation_spec_fields(spec: DeviceGenerationSpec) -> bool {
    &&& spec.key@ == "rayleigh_calc"@
    &&& spec.name@ == "Rayleigh Flow Calculator"@
    &&& spec.summary@ == "Calculator-style compressible device: solve Rayleigh star-reference input kinds to target kinds through Mach pivot orchestration."@
    &&& spec.route@ == "devices/rayleigh_calc.md"@
    &&& texts(spec.supported_modes@) == seq!["Input kinds: Mach, T/T*, p/p*, rho/rho*, T0/T0*, p0/p0*, V/V*"@, "Branch-aware inversion for selected ratio -> Mach paths"@]
    &&& texts(spec.outputs@) == seq!["value_si"@, "pivot_mach"@, "path diagnostics"@]
    &&& texts(spec.equation_dependencies@) == seq!["compressible.rayleigh_temperature_ratio"@, "compressible.rayleigh_pressure_ratio"@, "compressible.rayleigh_density_ratio"@, "compressible.rayleigh_stagnation_temperature_ratio"@, "compressible.rayleigh_stagnation_pressure_ratio"@, "compressible.rayleigh_velocity_ratio"@]
    &&& spec.binding_markdown == BINDINGS_MD
    &&& spec.overview_markdown == OVERVIEW_MD
    &&& spec.binding_functions.len() == 12
    &&& bindings_ok(spec.binding_functions@)
    &&& device_table_bindings(spec.binding_functions@, BINDING_NAMES@, BINDING_TEXTS@, BINDING_ARGS@)
}

/// The documentation and binding metadata of the device.
pub fn generation_spec() -> (spec: DeviceGenerationSpec)
    ensures
        generation_spec_fields(spec),
{
    let spec = DeviceGenerationSpec {
        key: "rayleigh_calc",
        name: "Rayleigh Flow Calculator",
        summary: "Calculator-style compressible device: solve Rayleigh star-reference input kinds to target kinds through Mach pivot orchestration.",
        supported_modes: vec!["Input kinds: Mach, T/T*, p/p*, rho/rho*, T0/T0*, p0/p0*, V/V*", "Branch-aware inversion for selected ratio -> Mach paths"],
        outputs: vec!["value_si", "pivot_mach", "path diagnostics"],
        route: "devices/rayleigh_calc.md",
        binding_markdown: BINDINGS_MD,
        overview_markdown: OVERVIEW_MD,
        equation_dependencies: vec![
            "compressible.rayleigh_temperature_ratio",
            "compressible.rayleigh_pressure_ratio",
            "compressible.rayleigh_density_ratio",
            "compressible.rayleigh_stagnation_temperature_ratio",
            "compressible.rayleigh_stagnation_pressure_ratio",
            "compressible.rayleigh_velocity_ratio",
        ],
        binding_functions: binding_functions(),
    };
    assert(texts(spec.supported_modes@) =~= seq!["Input kinds: Mach, T/T*, p/p*, rho/rho*, T0/T0*, p0/p0*, V/V*"@, "Branch-aware inversion for selected ratio -> Mach paths"@]);
    assert(texts(spec.outputs@) =~= seq!["value_si"@, "pivot_mach"@, "path diagnostics"@]);
    assert(texts(spec.equation_dependencies@) =~= seq!["compressible.rayleigh_temperature_ratio"@, "compressible.rayleigh_pressure_ratio"@, "compressible.rayleigh_density_ratio"@, "compressible.rayleigh_stagnation_temperature_ratio"@, "compressible.rayleigh_stagnation_pressure_ratio"@, "compressible.rayleigh_velocity_ratio"@]);
    spec
}

/// The kinds that a binding fixes are accepted by the device's parsers.
pub proof fn binding_fixed_kinds_parse(fixed: Seq<(&'static str, &'static str)>)
    requires
        fixed_kinds_in(fixed, binding_input_keys(), binding_output_keys()),
        fixed.len() == 2,
    ensures
        input_kind_of(normalize_seq(fixed[0].1@)) is Some,
        output_kind_of(normalize_seq(fixed[1].1@)) is Some,
{
    advertised_keys_parse();
    let j = choose|j: int| 0 <= j < binding_input_keys().len() && binding_input_keys()[j] == fixed[0].1@;
    let k = choose|k: int| 0 <= k < binding_output_keys().len() && binding_output_keys()[k] == fixed[1].1@;
    assert(input_kind_of(normalize_seq(binding_input_keys()[j])) is Some) by {
        if j == 0 {} else if j == 1 {} else if j == 2 {} else if j == 3 {} else if j == 4 {} else if j == 5 {} else if j == 6 {}
    }
    assert(output_kind_of(normalize_seq(binding_output_keys()[k])) is Some) by {
        if k == 0 {} else if k == 1 {} else if k == 2 {} else if k == 3 {} else if k == 4 {} else if k == 5 {} else if k == 6 {}
    }
}

/// Every operation the device's bindings call is listed in the invoke protocol catalog.
pub proof fn binding_ops_are_listed(op: Seq<char>)
    requires
        binding_op(op),
    ensures
        exists|i: int| 0 <= i < INVOKE_SUPPORTED_OPS@.len() && #[trigger] INVOKE_SUPPORTED_OPS@[i]@ == op,
{
    if op == "device.rayleigh_calc.value"@ {
        assert(INVOKE_SUPPORTED_OPS@[45]@ == op);
    }
    if op == "device.rayleigh_calc.path_text"@ {
        assert(INVOKE_SUPPORTED_OPS@[47]@ == op);
    }
    if op == "device.rayleigh_calc.pivot_mach"@ {
        assert(INVOKE_SUPPORTED_OPS@[46]@ == op);
    }
}


/// Each target step evaluates the equation that the device lists for that
/// kind: it solves for the variable that names the target kind, from the Mach
/// number; when a pivot step inverts the same variable, the target step uses
/// that pivot step's equation; different target kinds use different
/// equations; and every target equation is one the device depends on.
pub proof fn target_steps_use_their_kinds_equations(
    o: RayleighOutputKind,
    o2: RayleighOutputKind,
    b: Option<RayleighBranch>,
    b2: Option<RayleighBranch>,
    i: RayleighInputKind,
    bi: RayleighBranch,
    spec: DeviceGenerationSpec,
)
    requires
        generation_spec_fields(spec),
    ensures
        target_spec(o, b) is None <==> o == RayleighOutputKind::Mach,
        target_spec(o, b) matches Some(t) ==> output_kind_of(t.solved) == Some(o) && t.inputs[0] == "M"@,
        target_spec(o, b) matches Some(t) ==> texts(spec.equation_dependencies@).contains(t.id),
        target_spec(o, b) matches Some(t) ==> (pivot_spec(i, Some(bi)) matches Ok(Some(p)) ==> (p.inputs[0] == t.solved
            ==> t.id == p.id && p.solved == t.inputs[0])),
        target_spec(o, b) matches Some(t) ==> (target_spec(o2, b2) matches Some(t2) ==> (o != o2 ==> t.id != t2.id)),
{
    reveal_strlit("M");
    reveal_strlit("compressible.rayleigh_density_ratio");
    reveal_strlit("compressible.rayleigh_pressure_ratio");
    reveal_strlit("compressible.rayleigh_stagnation_pressure_ratio");
    reveal_strlit("compressible.rayleigh_stagnation_temperature_ratio");
    reveal_strlit("compressible.rayleigh_temperature_ratio");
    reveal_strlit("compressible.rayleigh_velocity_ratio");
    reveal_strlit("density_ratio");
    reveal_strlit("gamma");
    reveal_strlit("m");
    reveal_strlit("mach");
    reveal_strlit("p/p*");
    reveal_strlit("p0/p0*");
    reveal_strlit("p0_p0star");
    reveal_strlit("p_pstar");
    reveal_strlit("pressure_ratio");
    reveal_strlit("rho/rho*");
    reveal_strlit("rho_rhostar");
    reveal_strlit("stagnation_pressure_ratio");
    reveal_strlit("stagnation_temperature_ratio");
    reveal_strlit("t/t*");
    reveal_strlit("t0/t0*");
    reveal_strlit("t0_t0star");
    reveal_strlit("t_tstar");
    reveal_strlit("temperature_ratio");
    reveal_strlit("v/v*");
    reveal_strlit("v_vstar");
    reveal_strlit("velocity_ratio");
    assert("M"@[0] != "m"@[0]);
    assert("compressible.rayleigh_pressure_ratio"@[22] != "compressible.rayleigh_velocity_ratio"@[22]);
    assert("mach"@[0] != "p/p*"@[0]);
    assert("mach"@[0] != "t/t*"@[0]);
    assert("mach"@[0] != "v/v*"@[0]);
    assert("p/p*"@[0] != "t/t*"@[0]);
    assert("p/p*"@[0] != "v/v*"@[0]);
    assert("p0/p0*"@[0] != "t0/t0*"@[0]);
    assert("p0_p0star"@[0] != "t0_t0star"@[0]);
    assert("p_pstar"@[0] != "t_tstar"@[0]);
    assert("p_pstar"@[0] != "v_vstar"@[0]);
    assert("pressure_ratio"@[0] != "velocity_ratio"@[0]);
    assert("t/t*"@[0] != "v/v*"@[0]);
    assert("t_tstar"@[0] != "v_vstar"@[0]);
    match o {
        RayleighOutputKind::Mach => {},
        RayleighOutputKind::TemperatureRatio => {
            assert("t_tstar"@.len() != "mach"@.len());
            assert("t_tstar"@.len() != "m"@.len());
            assert(output_kind_of("t_tstar"@) == Some(RayleighOutputKind::TemperatureRatio));
            assert("t_tstar"@[0] != "p_pstar"@[0]);
            assert("t_tstar"@.len() != "rho_rhostar"@.len());
            assert("t_tstar"@.len() != "t0_t0star"@.len());
            assert("t_tstar"@.len() != "p0_p0star"@.len());
            assert("t_tstar"@[0] != "v_vstar"@[0]);
        },
        RayleighOutputKind::PressureRatio => {
            assert("p_pstar"@.len() != "mach"@.len());
            assert("p_pstar"@.len() != "m"@.len());
            assert("p_pstar"@[0] != "t_tstar"@[0]);
            assert("p_pstar"@.len() != "t/t*"@.len());
            assert("p_pstar"@.len() != "temperature_ratio"@.len());
            assert(output_kind_of("p_pstar"@) == Some(RayleighOutputKind::PressureRatio));
            assert("p_pstar"@[0] != "t_tstar"@[0]);
            assert("p_pstar"@.len() != "rho_rhostar"@.len());
            assert("p_pstar"@.len() != "t0_t0star"@.len());
            assert("p_pstar"@.len() != "p0_p0star"@.len());
            assert("p_pstar"@[0] != "v_vstar"@[0]);
        },
        RayleighOutputKind::DensityRatio => {
            assert("rho_rhostar"@.len() != "mach"@.len());
            assert("rho_rhostar"@.len() != "m"@.len());
            assert("rho_rhostar"@.len() != "t_tstar"@.len());
            assert("rho_rhostar"@.len() != "t/t*"@.len());
            assert("rho_rhostar"@.len() != "temperature_ratio"@.len());
            assert("rho_rhostar"@.len() != "p_pstar"@.len());
            assert("rho_rhostar"@.len() != "p/p*"@.len());
            assert("rho_rhostar"@.len() != "pressure_ratio"@.len());
            assert(output_kind_of("rho_rhostar"@) == Some(RayleighOutputKind::DensityRatio));
            assert("rho_rhostar"@.len() != "t_tstar"@.len());
            assert("rho_rhostar"@.len() != "p_pstar"@.len());
            assert("rho_rhostar"@.len() != "t0_t0star"@.len());
            assert("rho_rhostar"@.len() != "p0_p0star"@.len());
            assert("rho_rhostar"@.len() != "v_vstar"@.len());
        },
        RayleighOutputKind::StagnationTemperatureRatio => {
            assert("t0_t0star"@.len() != "mach"@.len());
            assert("t0_t0star"@.len() != "m"@.len());
            assert("t0_t0star"@.len() != "t_tstar"@.len());
            assert("t0_t0star"@.len() != "t/t*"@.len());
            assert("t0_t0star"@.len() != "temperature_ratio"@.len());
            assert("t0_t0star"@.len() != "p_pstar"@.len());
            assert("t0_t0star"@.len() != "p/p*"@.len());
            assert("t0_t0star"@.len() != "pressure_ratio"@.len());
            assert("t0_t0star"@.len() != "rho_rhostar"@.len());
            assert("t0_t0star"@.len() != "rho/rho*"@.len());
            assert("t0_t0star"@.len() != "density_ratio"@.len());
            assert(output_kind_of("t0_t0star"@) == Some(RayleighOutputKind::StagnationTemperatureRatio));
            assert("t0_t0star"@.len() != "t_tstar"@.len());
            assert("t0_t0star"@.len() != "p_pstar"@.len());
            assert("t0_t0star"@.len() != "rho_rhostar"@.len());
            assert("t0_t0star"@[0] != "p0_p0star"@[0]);
            assert("t0_t0star"@.len() != "v_vstar"@.len());
        },
        RayleighOutputKind::StagnationPressureRatio => {
            assert("p0_p0star"@.len() != "mach"@.len());
            assert("p0_p0star"@.len() != "m"@.len());
            assert("p0_p0star"@.len() != "t_tstar"@.len());
            assert("p0_p0star"@.len() != "t/t*"@.len());
            assert("p0_p0star"@.len() != "temperature_ratio"@.len());
            assert("p0_p0star"@.len() != "p_pstar"@.len());
            assert("p0_p0star"@.len() != "p/p*"@.len());
            assert("p0_p0star"@.len() != "pressure_ratio"@.len());
            assert("p0_p0star"@.len() != "rho_rhostar"@.len());
            assert("p0_p0star"@.len() != "rho/rho*"@.len());
            assert("p0_p0star"@.len() != "density_ratio"@.len());
            assert("p0_p0star"@[0] != "t0_t0star"@[0]);
            assert("p0_p0star"@.len() != "t0/t0*"@.len());
            assert("p0_p0star"@.len() != "stagnation_temperature_ratio"@.len());
            assert(output_kind_of("p0_p0star"@) == Some(RayleighOutputKind::StagnationPressureRatio));
            assert("p0_p0star"@.len() != "t_tstar"@.len());
            assert("p0_p0star"@.len() != "p_pstar"@.len());
            assert("p0_p0star"@.len() != "rho_rhostar"@.len());
            assert("p0_p0star"@[0] != "t0_t0star"@[0]);
            assert("p0_p0star"@.len() != "v_vstar"@.len());
        },
        RayleighOutputKind::VelocityRatio => {
            assert("v_vstar"@.len() != "mach"@.len());
            assert("v_vstar"@.len() != "m"@.len());
            assert("v_vstar"@[0] != "t_tstar"@[0]);
            assert("v_vstar"@.len() != "t/t*"@.len());
            assert("v_vstar"@.len() != "temperature_ratio"@.len());
            assert("v_vstar"@[0] != "p_pstar"@[0]);
            assert("v_vstar"@.len() != "p/p*"@.len());
            assert("v_vstar"@.len() != "pressure_ratio"@.len());
            assert("v_vstar"@.len() != "rho_rhostar"@.len());
            assert("v_vstar"@.len() != "rho/rho*"@.len());
            assert("v_vstar"@.len() != "density_ratio"@.len());
            assert("v_vstar"@.len() != "t0_t0star"@.len());
            assert("v_vstar"@.len() != "t0/t0*"@.len());
            assert("v_vstar"@.len() != "stagnation_temperature_ratio"@.len());
            assert("v_vstar"@.len() != "p0_p0star"@.len());
            assert("v_vstar"@.len() != "p0/p0*"@.len());
            assert("v_vstar"@.len() != "stagnation_pressure_ratio"@.len());
            assert(output_kind_of("v_vstar"@) == Some(RayleighOutputKind::VelocityRatio));
            assert("v_vstar"@[0] != "t_tstar"@[0]);
            assert("v_vstar"@[0] != "p_pstar"@[0]);
            assert("v_vstar"@.len() != "rho_rhostar"@.len());
            assert("v_vstar"@.len() != "t0_t0star"@.len());
            assert("v_vstar"@.len() != "p0_p0star"@.len());
        },
    }
    let deps = texts(spec.equation_dependencies@);
    assert("compressible.rayleigh_temperature_ratio"@.len() != "compressible.rayleigh_pressure_ratio"@.len());
    assert("compressible.rayleigh_temperature_ratio"@.len() != "compressible.rayleigh_density_ratio"@.len());
    assert("compressible.rayleigh_temperature_ratio"@.len() != "compressible.rayleigh_stagnation_temperature_ratio"@.len());
    assert("compressible.rayleigh_temperature_ratio"@.len() != "compressible.rayleigh_stagnation_pressure_ratio"@.len());
    assert("compressible.rayleigh_temperature_ratio"@.len() != "compressible.rayleigh_velocity_ratio"@.len());
    assert("compressible.rayleigh_pressure_ratio"@.len() != "compressible.rayleigh_density_ratio"@.len());
    assert("compressible.rayleigh_pressure_ratio"@.len() != "compressible.rayleigh_stagnation_temperature_ratio"@.len());
    assert("compressible.rayleigh_pressure_ratio"@.len() != "compressible.rayleigh_stagnation_pressure_ratio"@.len());
    assert("compressible.rayleigh_pressure_ratio"@[22] != "compressible.rayleigh_velocity_ratio"@[22]);
    assert("compressible.rayleigh_density_ratio"@.len() != "compressible.rayleigh_stagnation_temperature_ratio"@.len());
    assert("compressible.rayleigh_density_ratio"@.len() != "compressible.rayleigh_stagnation_pressure_ratio"@.len());
    assert("compressible.rayleigh_density_ratio"@.len() != "compressible.rayleigh_velocity_ratio"@.len());
    assert("compressible.rayleigh_stagnation_temperature_ratio"@.len() != "compressible.rayleigh_stagnation_pressure_ratio"@.len());
    assert("compressible.rayleigh_stagnation_temperature_ratio"@.len() != "compressible.rayleigh_velocity_ratio"@.len());
    assert("compressible.rayleigh_stagnation_pressure_ratio"@.len() != "compressible.rayleigh_velocity_ratio"@.len());
    assert(deps[0] == "compressible.rayleigh_temperature_ratio"@);
    assert(deps[1] == "compressible.rayleigh_pressure_ratio"@);
    assert(deps[2] == "compressible.rayleigh_density_ratio"@);
    assert(deps[3] == "compressible.rayleigh_stagnation_temperature_ratio"@);
    assert(deps[4] == "compressible.rayleigh_stagnation_pressure_ratio"@);
    assert(deps[5] == "compressible.rayleigh_velocity_ratio"@);
}


/// The pivot step of each input kind inverts the equation for the variable
/// that names that kind, read as an input kind, and solves for the pivot; only
/// the pivot itself as input needs no step.
pub proof fn pivot_steps_invert_their_kinds_variable(i: RayleighInputKind, b: RayleighBranch)
    ensures
        pivot_spec(i, Some(b)) == Ok::<Option<StepView>, RouteFailure>(None) <==> i == RayleighInputKind::Mach,
        pivot_spec(i, Some(b)) matches Ok(Some(p)) ==> input_kind_of(lower_seq(p.inputs[0])) == Some(i) && p.solved == "M"@,
{
    reveal_strlit("M");
    reveal_strlit("compressible.rayleigh_density_ratio");
    reveal_strlit("compressible.rayleigh_pressure_ratio");
    reveal_strlit("compressible.rayleigh_stagnation_pressure_ratio");
    reveal_strlit("compressible.rayleigh_stagnation_temperature_ratio");
    reveal_strlit("compressible.rayleigh_temperature_ratio");
    reveal_strlit("compressible.rayleigh_velocity_ratio");
    reveal_strlit("density_ratio");
    reveal_strlit("gamma");
    reveal_strlit("m");
    reveal_strlit("mach");
    reveal_strlit("p/p*");
    reveal_strlit("p0/p0*");
    reveal_strlit("p0_p0star");
    reveal_strlit("p_pstar");
    reveal_strlit("pressure_ratio");
    reveal_strlit("rho/rho*");
    reveal_strlit("rho_rhostar");
    reveal_strlit("stagnation_pressure_ratio");
    reveal_strlit("stagnation_temperature_ratio");
    reveal_strlit("t/t*");
    reveal_strlit("t0/t0*");
    reveal_strlit("t0_t0star");
    reveal_strlit("t_tstar");
    reveal_strlit("temperature_ratio");
    reveal_strlit("v/v*");
    reveal_strlit("v_vstar");
    reveal_strlit("velocity_ratio");
    match i {
        RayleighInputKind::Mach => {},
        RayleighInputKind::TemperatureRatio => {
            assert(lower_seq("t_tstar"@) =~= "t_tstar"@);
            assert("t_tstar"@.len() != "mach"@.len());
            assert("t_tstar"@.len() != "m"@.len());
            assert(input_kind_of("t_tstar"@) == Some(RayleighInputKind::TemperatureRatio));
        },
        RayleighInputKind::PressureRatio => {
            assert(lower_seq("p_pstar"@) =~= "p_pstar"@);
            assert("p_pstar"@.len() != "mach"@.len());
            assert("p_pstar"@.len() != "m"@.len());
            assert("p_pstar"@[0] != "t_tstar"@[0]);
            assert("p_pstar"@.len() != "t/t*"@.len());
            assert("p_pstar"@.len() != "temperature_ratio"@.len());
            assert(input_kind_of("p_pstar"@) == Some(RayleighInputKind::PressureRatio));
        },
        RayleighInputKind::DensityRatio => {
            assert(lower_seq("rho_rhostar"@) =~= "rho_rhostar"@);
            assert("rho_rhostar"@.len() != "mach"@.len());
            assert("rho_rhostar"@.len() != "m"@.len());
            assert("rho_rhostar"@.len() != "t_tstar"@.len());
            assert("rho_rhostar"@.len() != "t/t*"@.len());
            assert("rho_rhostar"@.len() != "temperature_ratio"@.len());
            assert("rho_rhostar"@.len() != "p_pstar"@.len());
            assert("rho_rhostar"@.len() != "p/p*"@.len());
            assert("rho_rhostar"@.len() != "pressure_ratio"@.len());
            assert(input_kind_of("rho_rhostar"@) == Some(RayleighInputKind::DensityRatio));
        },
        RayleighInputKind::StagnationTemperatureRatio => {
            assert(lower_seq("t0_t0star"@) =~= "t0_t0star"@);
            assert("t0_t0star"@.len() != "mach"@.len());
            assert("t0_t0star"@.len() != "m"@.len());
            assert("t0_t0star"@.len() != "t_tstar"@.len());
            assert("t0_t0star"@.len() != "t/t*"@.len());
            assert("t0_t0star"@.len() != "temperature_ratio"@.len());
            assert("t0_t0star"@.len() != "p_pstar"@.len());
            assert("t0_t0star"@.len() != "p/p*"@.len());
            assert("t0_t0star"@.len() != "pressure_ratio"@.len());
            assert("t0_t0star"@.len() != "rho_rhostar"@.len());
            assert("t0_t0star"@.len() != "rho/rho*"@.len());
            assert("t0_t0star"@.len() != "density_ratio"@.len());
            assert(input_kind_of("t0_t0star"@) == Some(RayleighInputKind::StagnationTemperatureRatio));
        },
        RayleighInputKind::StagnationPressureRatio => {
            assert(lower_seq("p0_p0star"@) =~= "p0_p0star"@);
            assert("p0_p0star"@.len() != "mach"@.len());
            assert("p0_p0star"@.len() != "m"@.len());
            assert("p0_p0star"@.len() != "t_tstar"@.len());
            assert("p0_p0star"@.len() != "t/t*"@.len());
            assert("p0_p0star"@.len() != "temperature_ratio"@.len());
            assert("p0_p0star"@.len() != "p_pstar"@.len());
            assert("p0_p0star"@.len() != "p/p*"@.len());
            assert("p0_p0star"@.len() != "pressure_ratio"@.len());
            assert("p0_p0star"@.len() != "rho_rhostar"@.len());
            assert("p0_p0star"@.len() != "rho/rho*"@.len());
            assert("p0_p0star"@.len() != "density_ratio"@.len());
            assert("p0_p0star"@[0] != "t0_t0star"@[0]);
            assert("p0_p0star"@.len() != "t0/t0*"@.len());
            assert("p0_p0star"@.len() != "stagnation_temperature_ratio"@.len());
            assert(input_kind_of("p0_p0star"@) == Some(RayleighInputKind::StagnationPressureRatio));
        },
        RayleighInputKind::VelocityRatio => {
            assert(lower_seq("v_vstar"@) =~= "v_vstar"@);
            assert("v_vstar"@.len() != "mach"@.len());
            assert("v_vstar"@.len() != "m"@.len());
            assert("v_vstar"@[0] != "t_tstar"@[0]);
            assert("v_vstar"@.len() != "t/t*"@.len());
            assert("v_vstar"@.len() != "temperature_ratio"@.len());
            assert("v_vstar"@[0] != "p_pstar"@[0]);
            assert("v_vstar"@.len() != "p/p*"@.len());
            assert("v_vstar"@.len() != "pressure_ratio"@.len());
            assert("v_vstar"@.len() != "rho_rhostar"@.len());
            assert("v_vstar"@.len() != "rho/rho*"@.len());
            assert("v_vstar"@.len() != "density_ratio"@.len());
            assert("v_vstar"@.len() != "t0_t0star"@.len());
            assert("v_vstar"@.len() != "t0/t0*"@.len());
            assert("v_vstar"@.len() != "stagnation_temperature_ratio"@.len());
            assert("v_vstar"@.len() != "p0_p0star"@.len());
            assert("v_vstar"@.len() != "p0/p0*"@.len());
            assert("v_vstar"@.len() != "stagnation_pressure_ratio"@.len());
            assert(input_kind_of("v_vstar"@) == Some(RayleighInputKind::VelocityRatio));
        },
    }
}

} // verus!
