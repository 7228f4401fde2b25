//! Fanno-flow calculator: kind vocabulary, key parsing and Mach-pivot routing.
use vstd::prelude::*;
use crate::text::lower_seq;
use crate::devices::framework::{
    assemble, assemble_route, kind, kind_keys, kind_labels, kind_labels_text, names1, names2, names3,
    opt_step_view, planned, route_view, step_result_view, sv, CalculatorDeviceSpec, PlannedStep,
    RouteError, RouteFailure, StepKind, StepView,
};
use crate::bindings::INVOKE_SUPPORTED_OPS;
use crate::devices::{
    device_binding_table, device_row_matches, device_table_bindings, fixed_kinds_in, texts, DeviceBindingFunctionSpec,
    DeviceGenerationSpec, DeviceNameRow,
};
use crate::docs::binding_tables::{rows_at, PairRow, TextRow};
use crate::text::{lemma_normalize_canonical, normalize_key, normalize_seq, str_eq};

verus! {

/// Quantity a Fanno-flow calculation starts from.
#[derive(Debug, Clone, Copy, PartialEq, Eq, Structural)]
pub enum FannoFlowInputKind {
    Mach,
    TemperatureRatio,
    PressureRatio,
    DensityRatio,
    StagnationPressureRatio,
    FrictionParameter,
}

/// Quantity a Fanno-flow calculation solves for.
#[derive(Debug, Clone, Copy, PartialEq, Eq, Structural)]
pub enum FannoFlowOutputKind {
    Mach,
    TemperatureRatio,
    PressureRatio,
    DensityRatio,
    StagnationPressureRatio,
    VelocityRatio,
    FrictionParameter,
}

/// Root selection for the double-valued ratio -> Mach inversions.
#[derive(Debug, Clone, Copy, PartialEq, Eq, Structural)]
pub enum FannoFlowBranch {
    Subsonic,
    Supersonic,
}

pub open spec fn branch_text(b: FannoFlowBranch) -> Seq<char> {
    match b {
        FannoFlowBranch::Subsonic => "subsonic"@,
        FannoFlowBranch::Supersonic => "supersonic"@,
    }
}

impl FannoFlowBranch {
    /// The lower-case name of the branch.
    pub fn as_str(self) -> (res: &'static str)
        ensures
            res@ == branch_text(self),
    {
        match self {
            FannoFlowBranch::Subsonic => "subsonic",
            FannoFlowBranch::Supersonic => "supersonic",
        }
    }
}

/// The input kind that a normalized key names, if any.
pub open spec fn input_kind_of(k: Seq<char>) -> Option<FannoFlowInputKind> {
    if k == "mach"@ || k == "m"@ {
        Some(FannoFlowInputKind::Mach)
    } else if k == "t_tstar"@ || k == "t/t*"@ || k == "temperature_ratio"@ {
        Some(FannoFlowInputKind::TemperatureRatio)
    } else if k == "p_pstar"@ || k == "p/p*"@ || k == "pressure_ratio"@ {
        Some(FannoFlowInputKind::PressureRatio)
    } else if k == "rho_rhostar"@ || k == "rho/rho*"@ || k == "density_ratio"@ {
        Some(FannoFlowInputKind::DensityRatio)
    } else if k == "p0_p0star"@ || k == "p0/p0*"@ || k == "stagnation_pressure_ratio"@ {
        Some(FannoFlowInputKind::StagnationPressureRatio)
    } else if k == "four_flstar_d"@ || k == "4flstar_d"@ || k == "4fl*/d"@ || k == "4fl_star_d"@ || k == "friction_parameter"@ {
        Some(FannoFlowInputKind::FrictionParameter)
    } else {
        None
    }
}

/// Parses a input kind name; surrounding whitespace and ASCII case are ignored.
pub fn parse_input_kind(raw: &str) -> (res: Option<FannoFlowInputKind>)
    ensures
        res == input_kind_of(normalize_seq(raw@)),
{
    let key = normalize_key(raw);
    let k = key.as_str();
    if str_eq(k, "mach") || str_eq(k, "m") {
        Some(FannoFlowInputKind::Mach)
    } else if str_eq(k, "t_tstar") || str_eq(k, "t/t*") || str_eq(k, "temperature_ratio") {
        Some(FannoFlowInputKind::TemperatureRatio)
    } else if str_eq(k, "p_pstar") || str_eq(k, "p/p*") || str_eq(k, "pressure_ratio") {
        Some(FannoFlowInputKind::PressureRatio)
    } else if str_eq(k, "rho_rhostar") || str_eq(k, "rho/rho*") || str_eq(k, "density_ratio") {
        Some(FannoFlowInputKind::DensityRatio)
    } else if str_eq(k, "p0_p0star") || str_eq(k, "p0/p0*") || str_eq(k, "stagnation_pressure_ratio") {
        Some(FannoFlowInputKind::StagnationPressureRatio)
    } else if str_eq(k, "four_flstar_d") || str_eq(k, "4flstar_d") || str_eq(k, "4fl*/d") || str_eq(k, "4fl_star_d") || str_eq(k, "friction_parameter") {
        Some(FannoFlowInputKind::FrictionParameter)
    } else {
        None
    }
}

/// The output kind that a normalized key names, if any.
pub open spec fn output_kind_of(k: Seq<char>) -> Option<FannoFlowOutputKind> {
    if k == "mach"@ || k == "m"@ {
        Some(FannoFlowOutputKind::Mach)
    } else if k == "t_tstar"@ || k == "t/t*"@ || k == "temperature_ratio"@ {
        Some(FannoFlowOutputKind::TemperatureRatio)
    } else if k == "p_pstar"@ || k == "p/p*"@ || k == "pressure_ratio"@ {
        Some(FannoFlowOutputKind::PressureRatio)
    } else if k == "rho_rhostar"@ || k == "rho/rho*"@ || k == "density_ratio"@ {
        Some(FannoFlowOutputKind::DensityRatio)
    } else if k == "p0_p0star"@ || k == "p0/p0*"@ || k == "stagnation_pressure_ratio"@ {
        Some(FannoFlowOutputKind::StagnationPressureRatio)
    } else if k == "v_vstar"@ || k == "v/v*"@ || k == "velocity_ratio"@ {
        Some(FannoFlowOutputKind::VelocityRatio)
    } else if k == "four_flstar_d"@ || k == "4flstar_d"@ || k == "4fl*/d"@ || k == "4fl_star_d"@ || k == "friction_parameter"@ {
        Some(FannoFlowOutputKind::FrictionParameter)
    } else {
        None
    }
}

/// Parses a output kind name; surrounding whitespace and ASCII case are ignored.
pub fn parse_output_kind(raw: &str) -> (res: Option<FannoFlowOutputKind>)
    ensures
        res == output_kind_of(normalize_seq(raw@)),
{
    let key = normalize_key(raw);
    let k = key.as_str();
    if str_eq(k, "mach") || str_eq(k, "m") {
        Some(FannoFlowOutputKind::Mach)
    } else if str_eq(k, "t_tstar") || str_eq(k, "t/t*") || str_eq(k, "temperature_ratio") {
        Some(FannoFlowOutputKind::TemperatureRatio)
    } else if str_eq(k, "p_pstar") || str_eq(k, "p/p*") || str_eq(k, "pressure_ratio") {
        Some(FannoFlowOutputKind::PressureRatio)
    } else if str_eq(k, "rho_rhostar") || str_eq(k, "rho/rho*") || str_eq(k, "density_ratio") {
        Some(FannoFlowOutputKind::DensityRatio)
    } else if str_eq(k, "p0_p0star") || str_eq(k, "p0/p0*") || str_eq(k, "stagnation_pressure_ratio") {
        Some(FannoFlowOutputKind::StagnationPressureRatio)
    } else if str_eq(k, "v_vstar") || str_eq(k, "v/v*") || str_eq(k, "velocity_ratio") {
        Some(FannoFlowOutputKind::VelocityRatio)
    } else if str_eq(k, "four_flstar_d") || str_eq(k, "4flstar_d") || str_eq(k, "4fl*/d") || str_eq(k, "4fl_star_d") || str_eq(k, "friction_parameter") {
        Some(FannoFlowOutputKind::FrictionParameter)
    } else {
        None
    }
}

/// The branch that a normalized key names, if any.
pub open spec fn branch_of(k: Seq<char>) -> Option<FannoFlowBranch> {
    if k == "subsonic"@ {
        Some(FannoFlowBranch::Subsonic)
    } else if k == "supersonic"@ {
        Some(FannoFlowBranch::Supersonic)
    } else {
        None
    }
}

/// Parses a branch name; surrounding whitespace and ASCII case are ignored.
pub fn parse_branch(raw: &str) -> (res: Option<FannoFlowBranch>)
    ensures
        res == branch_of(normalize_seq(raw@)),
{
    let key = normalize_key(raw);
    let k = key.as_str();
    if str_eq(k, "subsonic") {
        Some(FannoFlowBranch::Subsonic)
    } else if str_eq(k, "supersonic") {
        Some(FannoFlowBranch::Supersonic)
    } else {
        None
    }
}

pub open spec fn input_kind_name(kind: FannoFlowInputKind) -> Seq<char> {
    match kind {
        FannoFlowInputKind::Mach => "Mach"@,
        FannoFlowInputKind::TemperatureRatio => "TemperatureRatio"@,
        FannoFlowInputKind::PressureRatio => "PressureRatio"@,
        FannoFlowInputKind::DensityRatio => "DensityRatio"@,
        FannoFlowInputKind::StagnationPressureRatio => "StagnationPressureRatio"@,
        FannoFlowInputKind::FrictionParameter => "FrictionParameter"@,
    }
}

/// The name under which errors report an input kind.
pub fn input_kind_label(kind: FannoFlowInputKind) -> (res: &'static str)
    ensures
        res@ == input_kind_name(kind),
{
    match kind {
        FannoFlowInputKind::Mach => "Mach",
        FannoFlowInputKind::TemperatureRatio => "TemperatureRatio",
        FannoFlowInputKind::PressureRatio => "PressureRatio",
        FannoFlowInputKind::DensityRatio => "DensityRatio",
        FannoFlowInputKind::StagnationPressureRatio => "StagnationPressureRatio",
        FannoFlowInputKind::FrictionParameter => "FrictionParameter",
    }
}

/// The step that resolves the pivot Mach number from the input kind.
pub open spec fn pivot_spec(kind: FannoFlowInputKind, branch: Option<FannoFlowBranch>) -> Result<Option<StepView>, RouteFailure> {
    match kind {
        FannoFlowInputKind::Mach => Ok(None),
        FannoFlowInputKind::TemperatureRatio => match branch {
            None => Err(RouteFailure::MissingBranch(input_kind_name(kind))),
            Some(b) => Ok(Some(sv(StepKind::Equation, "compressible.fanno_temperature_ratio"@, "M"@, seq!["t_tstar"@, "gamma"@], Some(branch_text(b))))),
        },
        FannoFlowInputKind::PressureRatio => match branch {
            None => Err(RouteFailure::MissingBranch(input_kind_name(kind))),
            Some(b) => Ok(Some(sv(StepKind::Equation, "compressible.fanno_pressure_ratio"@, "M"@, seq!["p_pstar"@, "gamma"@], Some(branch_text(b))))),
        },
        FannoFlowInputKind::DensityRatio => match branch {
            None => Err(RouteFailure::MissingBranch(input_kind_name(kind))),
            Some(b) => Ok(Some(sv(StepKind::Equation, "compressible.fanno_density_ratio"@, "M"@, seq!["rho_rhostar"@, "gamma"@], Some(branch_text(b))))),
        },
        FannoFlowInputKind::StagnationPressureRatio => match branch {
            None => Err(RouteFailure::MissingBranch(input_kind_name(kind))),
            Some(b) => Ok(Some(sv(StepKind::Equation, "compressible.fanno_stagnation_pressure_ratio"@, "M"@, seq!["p0_p0star"@, "gamma"@], Some(branch_text(b))))),
        },
        FannoFlowInputKind::FrictionParameter => match branch {
            None => Err(RouteFailure::MissingBranch(input_kind_name(kind))),
            Some(b) => Ok(Some(sv(StepKind::Equation, "compressible.fanno_friction_parameter"@, "M"@, seq!["four_flstar_d"@, "gamma"@], Some(branch_text(b))))),
        },
    }
}

/// The step that resolves the pivot Mach number from the input kind.
pub fn pivot_step(kind: FannoFlowInputKind, branch: Option<FannoFlowBranch>) -> (res: Result<Option<PlannedStep>, RouteError>)
    ensures
        step_result_view(res) == pivot_spec(kind, branch),
{
    match kind {
        FannoFlowInputKind::Mach => Ok(None),
        FannoFlowInputKind::TemperatureRatio => match branch {
            None => Err(RouteError::MissingBranch { kind: input_kind_label(kind) }),
            Some(b) => Ok(Some(planned(StepKind::Equation, "compressible.fanno_temperature_ratio", "M", names2("t_tstar", "gamma"), Some(b.as_str())))),
        },
        FannoFlowInputKind::PressureRatio => match branch {
            None => Err(RouteError::MissingBranch { kind: input_kind_label(kind) }),
            Some(b) => Ok(Some(planned(StepKind::Equation, "compressible.fanno_pressure_ratio", "M", names2("p_pstar", "gamma"), Some(b.as_str())))),
        },
        FannoFlowInputKind::DensityRatio => match branch {
            None => Err(RouteError::MissingBranch { kind: input_kind_label(kind) }),
            Some(b) => Ok(Some(planned(StepKind::Equation, "compressible.fanno_density_ratio", "M", names2("rho_rhostar", "gamma"), Some(b.as_str())))),
        },
        FannoFlowInputKind::StagnationPressureRatio => match branch {
            None => Err(RouteError::MissingBranch { kind: input_kind_label(kind) }),
            Some(b) => Ok(Some(planned(StepKind::Equation, "compressible.fanno_stagnation_pressure_ratio", "M", names2("p0_p0star", "gamma"), Some(b.as_str())))),
        },
        FannoFlowInputKind::FrictionParameter => match branch {
            None => Err(RouteError::MissingBranch { kind: input_kind_label(kind) }),
            Some(b) => Ok(Some(planned(StepKind::Equation, "compressible.fanno_friction_parameter", "M", names2("four_flstar_d", "gamma"), Some(b.as_str())))),
        },
    }
}

/// The step that evaluates the target kind at the pivot Mach number.
pub open spec fn target_spec(kind: FannoFlowOutputKind, branch: Option<FannoFlowBranch>) -> Option<StepView> {
    match kind {
        FannoFlowOutputKind::Mach => None,
        FannoFlowOutputKind::TemperatureRatio => Some(sv(StepKind::Equation, "compressible.fanno_temperature_ratio"@, "t_tstar"@, seq!["M"@, "gamma"@], None)),
        FannoFlowOutputKind::PressureRatio => Some(sv(StepKind::Equation, "compressible.fanno_pressure_ratio"@, "p_pstar"@, seq!["M"@, "gamma"@], None)),
        FannoFlowOutputKind::DensityRatio => Some(sv(StepKind::Equation, "compressible.fanno_density_ratio"@, "rho_rhostar"@, seq!["M"@, "gamma"@], None)),
        FannoFlowOutputKind::StagnationPressureRatio => Some(sv(StepKind::Equation, "compressible.fanno_stagnation_pressure_ratio"@, "p0_p0star"@, seq!["M"@, "gamma"@], None)),
        FannoFlowOutputKind::VelocityRatio => Some(sv(StepKind::Equation, "compressible.fanno_velocity_ratio"@, "v_vstar"@, seq!["M"@, "gamma"@], None)),
        FannoFlowOutputKind::FrictionParameter => Some(sv(StepKind::Equation, "compressible.fanno_friction_parameter"@, "four_flstar_d"@, seq!["M"@, "gamma"@], None)),
    }
}

/// The step that evaluates the target kind at the pivot Mach number.
pub fn target_step(kind: FannoFlowOutputKind, branch: Option<FannoFlowBranch>) -> (res: Option<PlannedStep>)
    ensures
        opt_step_view(res) == target_spec(kind, branch),
{
    match kind {
        FannoFlowOutputKind::Mach => None,
        FannoFlowOutputKind::TemperatureRatio => Some(planned(StepKind::Equation, "compressible.fanno_temperature_ratio", "t_tstar", names2("M", "gamma"), None)),
        FannoFlowOutputKind::PressureRatio => Some(planned(StepKind::Equation, "compressible.fanno_pressure_ratio", "p_pstar", names2("M", "gamma"), None)),
        FannoFlowOutputKind::DensityRatio => Some(planned(StepKind::Equation, "compressible.fanno_density_ratio", "rho_rhostar", names2("M", "gamma"), None)),
        FannoFlowOutputKind::StagnationPressureRatio => Some(planned(StepKind::Equation, "compressible.fanno_stagnation_pressure_ratio", "p0_p0star", names2("M", "gamma"), None)),
        FannoFlowOutputKind::VelocityRatio => Some(planned(StepKind::Equation, "compressible.fanno_velocity_ratio", "v_vstar", names2("M", "gamma"), None)),
        FannoFlowOutputKind::FrictionParameter => Some(planned(StepKind::Equation, "compressible.fanno_friction_parameter", "four_flstar_d", names2("M", "gamma"), None)),
    }
}

/// The keys under which the device advertises its input kinds.
pub open spec fn advertised_input_keys() -> Seq<Seq<char>> {
    seq!["mach"@, "t_tstar"@, "p_pstar"@, "rho_rhostar"@, "p0_p0star"@, "four_flstar_d"@]
}

/// The keys under which the device advertises its output kinds.
pub open spec fn advertised_output_keys() -> Seq<Seq<char>> {
    seq!["mach"@, "t_tstar"@, "p_pstar"@, "rho_rhostar"@, "p0_p0star"@, "v_vstar"@, "four_flstar_d"@]
}

/// The static description of the Fanno-flow calculator.
pub fn device_spec() -> (res: CalculatorDeviceSpec)
    ensures
        res.key@ == "fanno_flow_calc"@,
        res.name@ == "Fanno Flow Calculator"@,
        res.summary@ == "Calculator-style compressible device: solve Fanno star-reference input kinds to target kinds through Mach pivot orchestration."@,
        res.route@ == "devices/fanno_flow_calc.md"@,
        res.pivot_label@ == "Mach"@,
        kind_keys(res.input_kinds@) == advertised_input_keys(),
        kind_labels(res.input_kinds@) == seq!["Mach"@, "T/T*"@, "p/p*"@, "rho/rho*"@, "p0/p0*"@, "4fL*/D"@],
        kind_keys(res.output_kinds@) == advertised_output_keys(),
        kind_labels(res.output_kinds@) == seq!["Mach"@, "T/T*"@, "p/p*"@, "rho/rho*"@, "p0/p0*"@, "V/V*"@, "4fL*/D"@],
        crate::strings::str_views(res.branches@) == seq!["subsonic"@, "supersonic"@],
{
    let inputs = vec![
        kind("mach", "Mach"),
        kind("t_tstar", "T/T*"),
        kind("p_pstar", "p/p*"),
        kind("rho_rhostar", "rho/rho*"),
        kind("p0_p0star", "p0/p0*"),
        kind("four_flstar_d", "4fL*/D"),
    ];
    let outputs = vec![
        kind("mach", "Mach"),
        kind("t_tstar", "T/T*"),
        kind("p_pstar", "p/p*"),
        kind("rho_rhostar", "rho/rho*"),
        kind("p0_p0star", "p0/p0*"),
        kind("v_vstar", "V/V*"),
        kind("four_flstar_d", "4fL*/D"),
    ];
    let res = CalculatorDeviceSpec {
        key: "fanno_flow_calc",
        name: "Fanno Flow Calculator",
        summary: "Calculator-style compressible device: solve Fanno star-reference input kinds to target kinds through Mach pivot orchestration.",
        route: "devices/fanno_flow_calc.md",
        pivot_label: "Mach",
        input_kinds: inputs,
        output_kinds: outputs,
        branches: names2("subsonic", "supersonic"),
    };
    assert(kind_keys(res.input_kinds@) =~= advertised_input_keys());
    assert(kind_labels(res.input_kinds@) =~= seq!["Mach"@, "T/T*"@, "p/p*"@, "rho/rho*"@, "p0/p0*"@, "4fL*/D"@]);
    assert(kind_keys(res.output_kinds@) =~= advertised_output_keys());
    assert(kind_labels(res.output_kinds@) =~= seq!["Mach"@, "T/T*"@, "p/p*"@, "rho/rho*"@, "p0/p0*"@, "V/V*"@, "4fL*/D"@]);
    res
}

/// The whole solve route: the pivot step (for a non-Mach input) followed by the
/// target step (for a non-Mach target).
pub open spec fn route_spec(input: FannoFlowInputKind, target: FannoFlowOutputKind, branch: Option<FannoFlowBranch>) -> Result<Seq<StepView>, RouteFailure> {
    assemble(pivot_spec(input, branch), target_spec(target, branch))
}

/// Plans the equation steps of a Fanno-flow calculation.
pub fn route(input: FannoFlowInputKind, target: FannoFlowOutputKind, branch: Option<FannoFlowBranch>) -> (res: Result<Vec<PlannedStep>, RouteError>)
    ensures
        route_view(res) == route_spec(input, target, branch),
{
    let p = pivot_step(input, branch);
    let t = target_step(target, branch);
    assemble_route(p, t)
}

/// Reading back a branch's own name gives that branch.
pub proof fn branch_name_round_trip(b: FannoFlowBranch)
    ensures
        branch_of(normalize_seq(branch_text(b))) == Some(b),
{
    reveal_strlit("subsonic");
    reveal_strlit("supersonic");
    lemma_normalize_canonical("subsonic"@);
    lemma_normalize_canonical("supersonic"@);
}

/// Every key the device advertises is accepted by the matching kind parser.
pub proof fn advertised_keys_parse()
    ensures
        input_kind_of(normalize_seq(advertised_input_keys()[0])) == Some(FannoFlowInputKind::Mach),
        input_kind_of(normalize_seq(advertised_input_keys()[1])) == Some(FannoFlowInputKind::TemperatureRatio),
        input_kind_of(normalize_seq(advertised_input_keys()[2])) == Some(FannoFlowInputKind::PressureRatio),
        input_kind_of(normalize_seq(advertised_input_keys()[3])) == Some(FannoFlowInputKind::DensityRatio),
        input_kind_of(normalize_seq(advertised_input_keys()[4])) == Some(FannoFlowInputKind::StagnationPressureRatio),
        input_kind_of(normalize_seq(advertised_input_keys()[5])) == Some(FannoFlowInputKind::FrictionParameter),
        output_kind_of(normalize_seq(advertised_output_keys()[0])) == Some(FannoFlowOutputKind::Mach),
        output_kind_of(normalize_seq(advertised_output_keys()[1])) == Some(FannoFlowOutputKind::TemperatureRatio),
        output_kind_of(normalize_seq(advertised_output_keys()[2])) == Some(FannoFlowOutputKind::PressureRatio),
        output_kind_of(normalize_seq(advertised_output_keys()[3])) == Some(FannoFlowOutputKind::DensityRatio),
        output_kind_of(normalize_seq(advertised_output_keys()[4])) == Some(FannoFlowOutputKind::StagnationPressureRatio),
        output_kind_of(normalize_seq(advertised_output_keys()[5])) == Some(FannoFlowOutputKind::VelocityRatio),
        output_kind_of(normalize_seq(advertised_output_keys()[6])) == Some(FannoFlowOutputKind::FrictionParameter),
{
    reveal_strlit("mach");
    reveal_strlit("m");
    reveal_strlit("t_tstar");
    reveal_strlit("t/t*");
    reveal_strlit("temperature_ratio");
    reveal_strlit("p_pstar");
    reveal_strlit("p/p*");
    reveal_strlit("pressure_ratio");
    reveal_strlit("rho_rhostar");
    reveal_strlit("rho/rho*");
    reveal_strlit("density_ratio");
    reveal_strlit("p0_p0star");
    reveal_strlit("p0/p0*");
    reveal_strlit("stagnation_pressure_ratio");
    reveal_strlit("v_vstar");
    reveal_strlit("v/v*");
    reveal_strlit("velocity_ratio");
    reveal_strlit("four_flstar_d");
    reveal_strlit("4flstar_d");
    reveal_strlit("4fl*/d");
    reveal_strlit("4fl_star_d");
    reveal_strlit("friction_parameter");
    lemma_normalize_canonical("mach"@);
    lemma_normalize_canonical("t_tstar"@);
    lemma_normalize_canonical("p_pstar"@);
    lemma_normalize_canonical("rho_rhostar"@);
    lemma_normalize_canonical("p0_p0star"@);
    lemma_normalize_canonical("four_flstar_d"@);
    lemma_normalize_canonical("v_vstar"@);
}

/// With a branch chosen, every input kind routes to every target kind.
pub proof fn route_is_total_with_branch(input: FannoFlowInputKind, target: FannoFlowOutputKind, branch: FannoFlowBranch)
    ensures
        route_spec(input, target, Some(branch)) is Ok,
{
}

/// Every ratio -> Mach inversion is branch-sensitive: without a branch only a
/// Mach input routes, and the refusal names the input kind.
pub proof fn route_needs_branch_for_inversions(input: FannoFlowInputKind, target: FannoFlowOutputKind)
    ensures
        (route_spec(input, target, None) is Ok) <==> input == FannoFlowInputKind::Mach,
        input != FannoFlowInputKind::Mach ==> route_spec(input, target, None)
            == Err::<Seq<StepView>, RouteFailure>(RouteFailure::MissingBranch(input_kind_name(input))),
{
}

} // verus!

// ---- documentation and binding metadata ----

verus! {

/// The bindings section of the device's documentation page.
pub const BINDINGS_MD: &'static str = "## Bindings\n\n### Python\n```python\nengpy.devices.fanno_flow_calc(\"mach\", 2.0, \"p_pstar\", 1.4)\nengpy.devices.fanno_flow_from_m_to_p0_p0star(2.0, 1.4)\nengpy.devices.fanno_flow_from_4flstar_d_to_m(0.3049965026, 1.4, \"supersonic\")\nengpy.devices.fanno_flow_path_text(\"p0_p0star\", 1.33984375, \"mach\", 1.4, \"subsonic\")\n```\n\n### Excel\n```excel\n=ENG_FANNO_FLOW(\"mach\",2.0,\"p_pstar\",1.4,\"\")\n=ENG_FANNO_FLOW_FROM_M_TO_T_TSTAR(2.0,1.4)\n=ENG_FANNO_FLOW_FROM_M_TO_P_PSTAR(2.0,1.4)\n=ENG_FANNO_FLOW_FROM_M_TO_RHO_RHOSTAR(2.0,1.4)\n=ENG_FANNO_FLOW_FROM_M_TO_P0_P0STAR(2.0,1.4)\n=ENG_FANNO_FLOW_FROM_M_TO_V_VSTAR(2.0,1.4)\n=ENG_FANNO_FLOW_FROM_M_TO_4FLSTAR_D(2.0,1.4)\n=ENG_FANNO_FLOW_FROM_4FLSTAR_D_TO_M(0.3049965026,1.4,\"supersonic\")\n=ENG_FANNO_FLOW_FROM_P0_P0STAR_TO_M(1.33984375,1.4,\"subsonic\")\n=ENG_FANNO_FLOW_PATH_TEXT(\"four_flstar_d\",0.3049965026,\"mach\",1.4,\"supersonic\")\n```\n\n**Excel arguments**\n- `value_kind_in`: `mach`, `t_tstar`, `p_pstar`, `rho_rhostar`, `p0_p0star`, `four_flstar_d`\n- `value_in`: input value\n- `target_kind_out`: `mach`, `t_tstar`, `p_pstar`, `rho_rhostar`, `p0_p0star`, `v_vstar`, `four_flstar_d`\n- `gamma`: specific heat ratio\n- `branch`: required for inverse paths (`subsonic`/`supersonic`)\n";

/// The overview section of the device's documentation page.
pub const OVERVIEW_MD: &'static str = "## Overview\n\nA calculator-style compressible device that resolves a pivot Mach number from one supported Fanno input kind and then evaluates the requested target kind.\n\n### Supported input kinds\n- `mach`\n- `t_tstar` (`T/T*`)\n- `p_pstar` (`p/p*`)\n- `rho_rhostar` (`rho/rho*`)\n- `p0_p0star` (`p0/p0*`)\n- `four_flstar_d` (`4fL*/D`)\n\n### Supported target kinds\n- `mach`\n- `t_tstar`\n- `p_pstar`\n- `rho_rhostar`\n- `p0_p0star`\n- `v_vstar`\n- `four_flstar_d`\n\n### Branch behavior\n- Inverse paths (`ratio -> mach`) are branch-sensitive and require `subsonic` or `supersonic`.\n\n### Rust\n```rust\nuse eng::devices::{fanno_flow_calc, FannoFlowBranch, FannoFlowInputKind, FannoFlowOutputKind};\nlet out = fanno_flow_calc()\n    .gamma(1.4)\n    .input(FannoFlowInputKind::FrictionParameter, 0.3049965025814798)\n    .target(FannoFlowOutputKind::Mach)\n    .branch(FannoFlowBranch::Supersonic)\n    .solve()?;\nprintln!(\"M={}, value={}\", out.pivot_mach, out.value_si);\n```\n";




/// The kind keys that a binding may fix: the advertised ones.
pub open spec fn binding_input_keys() -> Seq<Seq<char>> {
    advertised_input_keys()
}

pub open spec fn binding_output_keys() -> Seq<Seq<char>> {
    advertised_output_keys()
}

/// The invoke operations that the device's bindings call.
pub open spec fn binding_op(op: Seq<char>) -> bool {
    op == "device.fanno_flow_calc.value"@ || op == "device.fanno_flow_calc.path_text"@ || op == "device.fanno_flow_calc.pivot_mach"@
}

/// Every binding calls one of the device's operations, and fixes either
/// nothing or an input kind and a target kind that the device accepts.
pub open spec fn bindings_ok(b: Seq<DeviceBindingFunctionSpec>) -> bool {
    forall|i: int| 0 <= i < b.len() ==> binding_op((#[trigger] b[i]).op@)
        && fixed_kinds_in(b[i].fixed_args@, binding_input_keys(), binding_output_keys())
}

/// The names of the device's bindings, and the kinds each fixes.
pub const BINDING_NAMES: [DeviceNameRow; 11] = [
    ("device.fanno_flow_calc", "fanno_flow_calc", "ENG_FANNO_FLOW", "device.fanno_flow_calc.value", "", ""),
    ("device.fanno_flow_calc.path_text", "fanno_flow_path_text", "ENG_FANNO_FLOW_PATH_TEXT", "device.fanno_flow_calc.path_text", "", ""),
    ("device.fanno_flow_calc.pivot", "fanno_flow_pivot_mach", "ENG_FANNO_FLOW_PIVOT_MACH", "device.fanno_flow_calc.pivot_mach", "", ""),
    ("device.fanno_flow_calc.from_m.to_t_tstar", "fanno_flow_from_m_to_t_tstar", "ENG_FANNO_FLOW_FROM_M_TO_T_TSTAR", "device.fanno_flow_calc.value", "mach", "t_tstar"),
    ("device.fanno_flow_calc.from_m.to_p_pstar", "fanno_flow_from_m_to_p_pstar", "ENG_FANNO_FLOW_FROM_M_TO_P_PSTAR", "device.fanno_flow_calc.value", "mach", "p_pstar"),
    ("device.fanno_flow_calc.from_m.to_rho_rhostar", "fanno_flow_from_m_to_rho_rhostar", "ENG_FANNO_FLOW_FROM_M_TO_RHO_RHOSTAR", "device.fanno_flow_calc.value", "mach", "rho_rhostar"),
    ("device.fanno_flow_calc.from_m.to_p0_p0star", "fanno_flow_from_m_to_p0_p0star", "ENG_FANNO_FLOW_FROM_M_TO_P0_P0STAR", "device.fanno_flow_calc.value", "mach", "p0_p0star"),
    ("device.fanno_flow_calc.from_m.to_v_vstar", "fanno_flow_from_m_to_v_vstar", "ENG_FANNO_FLOW_FROM_M_TO_V_VSTAR", "device.fanno_flow_calc.value", "mach", "v_vstar"),
    ("device.fanno_flow_calc.from_m.to_4flstar_d", "fanno_flow_from_m_to_4flstar_d", "ENG_FANNO_FLOW_FROM_M_TO_4FLSTAR_D", "device.fanno_flow_calc.value", "mach", "four_flstar_d"),
    ("device.fanno_flow_calc.from_4flstar_d.to_m", "fanno_flow_from_4flstar_d_to_m", "ENG_FANNO_FLOW_FROM_4FLSTAR_D_TO_M", "device.fanno_flow_calc.value", "four_flstar_d", "mach"),
    ("device.fanno_flow_calc.from_p0_p0star.to_m", "fanno_flow_from_p0_p0star_to_m", "ENG_FANNO_FLOW_FROM_P0_P0STAR_TO_M", "device.fanno_flow_calc.value", "p0_p0star", "mach"),
];

/// The texts of the device's bindings, position by position.
pub const BINDING_TEXTS: [TextRow; 11] = [
    ("f64", "Fanno-flow calculator: input kind -> target kind through Mach pivot", "eng::devices::fanno_flow_calc().solve()?", "engpy.devices.fanno_flow_calc(\"mach\", 2.0, \"p_pstar\", 1.4)", "=ENG_FANNO_FLOW(\"mach\",2.0,\"p_pstar\",1.4,\"\")", "=ENG_FANNO_FLOW(\"mach\",2.0,\"p_pstar\",1.4,\"\")"),
    ("str", "Fanno-flow calculator helper: compact step trace text", "eng::invoke::process_invoke_json(\"...\")", "engpy.devices.fanno_flow_path_text(\"p0_p0star\", 1.33984375, \"mach\", 1.4, \"subsonic\")", "=ENG_FANNO_FLOW_PATH_TEXT(\"p0_p0star\",1.33984375,\"mach\",1.4,\"subsonic\")", "=ENG_FANNO_FLOW_PATH_TEXT(\"p0_p0star\",1.33984375,\"mach\",1.4,\"subsonic\")"),
    ("f64", "Fanno-flow calculator helper: return resolved pivot Mach", "eng::invoke::process_invoke_json(\"...\")", "engpy.devices.fanno_flow_pivot_mach(\"four_flstar_d\", 0.3049965026, \"mach\", 1.4, \"supersonic\")", "=ENG_FANNO_FLOW_PIVOT_MACH(\"four_flstar_d\",0.3049965026,\"mach\",1.4,\"supersonic\")", "=ENG_FANNO_FLOW_PIVOT_MACH(\"four_flstar_d\",0.3049965026,\"mach\",1.4,\"supersonic\")"),
    ("f64", "Convenience Fanno path: Mach -> T/T*", "eng::invoke::process_invoke_json(\"...\")", "engpy.devices.fanno_flow_from_m_to_t_tstar(2.0, 1.4)", "=ENG_FANNO_FLOW_FROM_M_TO_T_TSTAR(2.0,1.4)", "=ENG_FANNO_FLOW_FROM_M_TO_T_TSTAR(2.0,1.4)"),
    ("f64", "Convenience Fanno path: Mach -> p/p*", "eng::invoke::process_invoke_json(\"...\")", "engpy.devices.fanno_flow_from_m_to_p_pstar(2.0, 1.4)", "=ENG_FANNO_FLOW_FROM_M_TO_P_PSTAR(2.0,1.4)", "=ENG_FANNO_FLOW_FROM_M_TO_P_PSTAR(2.0,1.4)"),
    ("f64", "Convenience Fanno path: Mach -> rho/rho*", "eng::invoke::process_invoke_json(\"...\")", "engpy.devices.fanno_flow_from_m_to_rho_rhostar(2.0, 1.4)", "=ENG_FANNO_FLOW_FROM_M_TO_RHO_RHOSTAR(2.0,1.4)", "=ENG_FANNO_FLOW_FROM_M_TO_RHO_RHOSTAR(2.0,1.4)"),
    ("f64", "Convenience Fanno path: Mach -> p0/p0*", "eng::invoke::process_invoke_json(\"...\")", "engpy.devices.fanno_flow_from_m_to_p0_p0star(2.0, 1.4)", "=ENG_FANNO_FLOW_FROM_M_TO_P0_P0STAR(2.0,1.4)", "=ENG_FANNO_FLOW_FROM_M_TO_P0_P0STAR(2.0,1.4)"),
    ("f64", "Convenience Fanno path: Mach -> V/V*", "eng::invoke::process_invoke_json(\"...\")", "engpy.devices.fanno_flow_from_m_to_v_vstar(2.0, 1.4)", "=ENG_FANNO_FLOW_FROM_M_TO_V_VSTAR(2.0,1.4)", "=ENG_FANNO_FLOW_FROM_M_TO_V_VSTAR(2.0,1.4)"),
    ("f64", "Convenience Fanno path: Mach -> 4fL*/D", "eng::invoke::process_invoke_json(\"...\")", "engpy.devices.fanno_flow_from_m_to_4flstar_d(2.0, 1.4)", "=ENG_FANNO_FLOW_FROM_M_TO_4FLSTAR_D(2.0,1.4)", "=ENG_FANNO_FLOW_FROM_M_TO_4FLSTAR_D(2.0,1.4)"),
    ("f64", "Convenience Fanno path: 4fL*/D -> Mach (branch required)", "eng::invoke::process_invoke_json(\"...\")", "engpy.devices.fanno_flow_from_4flstar_d_to_m(0.3049965026, 1.4, \"supersonic\")", "=ENG_FANNO_FLOW_FROM_4FLSTAR_D_TO_M(0.3049965026,1.4,\"supersonic\")", "=ENG_FANNO_FLOW_FROM_4FLSTAR_D_TO_M(0.3049965026,1.4,\"supersonic\")"),
    ("f64", "Convenience Fanno path: p0/p0* -> Mach (branch required)", "eng::invoke::process_invoke_json(\"...\")", "engpy.devices.fanno_flow_from_p0_p0star_to_m(1.33984375, 1.4, \"subsonic\")", "=ENG_FANNO_FLOW_FROM_P0_P0STAR_TO_M(1.33984375,1.4,\"subsonic\")", "=ENG_FANNO_FLOW_FROM_P0_P0STAR_TO_M(1.33984375,1.4,\"subsonic\")"),
];

/// The arguments of the device's bindings, in order: binding position, name, description.
pub const BINDING_ARGS: [PairRow; 33] = [
    (0, "input_kind", "Input kind (mach, t_tstar, p_pstar, rho_rhostar, p0_p0star, four_flstar_d)"),
    (0, "input_value", "Input value"),
    (0, "target_kind", "Target kind (mach, t_tstar, p_pstar, rho_rhostar, p0_p0star, v_vstar, four_flstar_d)"),
    (0, "gamma", "Specific heat ratio"),
    (0, "branch", "Subsonic/supersonic branch for inverse paths"),
    (1, "input_kind", "Input kind (mach, t_tstar, p_pstar, rho_rhostar, p0_p0star, four_flstar_d)"),
    (1, "input_value", "Input value"),
    (1, "target_kind", "Target kind (mach, t_tstar, p_pstar, rho_rhostar, p0_p0star, v_vstar, four_flstar_d)"),
    (1, "gamma", "Specific heat ratio"),
    (1, "branch", "Subsonic/supersonic branch for inverse paths"),
    (2, "input_kind", "Input kind (mach, t_tstar, p_pstar, rho_rhostar, p0_p0star, four_flstar_d)"),
    (2, "input_value", "Input value"),
    (2, "target_kind", "Target kind (mach, t_tstar, p_pstar, rho_rhostar, p0_p0star, v_vstar, four_flstar_d)"),
    (2, "gamma", "Specific heat ratio"),
    (2, "branch", "Subsonic/supersonic branch for inverse paths"),
    (3, "input_value", "Mach input value"),
    (3, "gamma", "Specific heat ratio"),
    (4, "input_value", "Mach input value"),
    (4, "gamma", "Specific heat ratio"),
    (5, "input_value", "Mach input value"),
    (5, "gamma", "Specific heat ratio"),
    (6, "input_value", "Mach input value"),
    (6, "gamma", "Specific heat ratio"),
    (7, "input_value", "Mach input value"),
    (7, "gamma", "Specific heat ratio"),
    (8, "input_value", "Mach input value"),
    (8, "gamma", "Specific heat ratio"),
    (9, "input_value", "Input ratio value"),
    (9, "gamma", "Specific heat ratio"),
    (9, "branch", "Subsonic or supersonic branch"),
    (10, "input_value", "Input ratio value"),
    (10, "gamma", "Specific heat ratio"),
    (10, "branch", "Subsonic or supersonic branch"),
];

fn binding_functions() -> (res: Vec<DeviceBindingFunctionSpec>)
    ensures
        device_table_bindings(res@, BINDING_NAMES@, BINDING_TEXTS@, BINDING_ARGS@),
        res.len() == 11,
        bindings_ok(res@),
{
    let names = BINDING_NAMES.as_slice();
    let texts = BINDING_TEXTS.as_slice();
    let args = BINDING_ARGS.as_slice();
    assert(names@ == BINDING_NAMES@ && texts@ == BINDING_TEXTS@ && args@ == BINDING_ARGS@);
    let res = device_binding_table(names, texts, args);
    proof {
        reveal_strlit("");
        assert forall|i: int| 0 <= i < res@.len() implies binding_op((#[trigger] res@[i]).op@) && fixed_kinds_in(
            res@[i].fixed_args@,
            binding_input_keys(),
            binding_output_keys(),
        ) by {
            assert(device_row_matches(res@[i], BINDING_NAMES@[i], BINDING_TEXTS@[i], rows_at(BINDING_ARGS@, i)));
            if i == 0 {
            } else if i == 1 {
            } else if i == 2 {
            } else if i == 3 {
                reveal_strlit("mach");
                assert(binding_input_keys()[0] == "mach"@);
                assert(binding_output_keys()[1] == "t_tstar"@);
            } else if i == 4 {
                reveal_strlit("mach");
                assert(binding_input_keys()[0] == "mach"@);
                assert(binding_output_keys()[2] == "p_pstar"@);
            } else if i == 5 {
                reveal_strlit("mach");
                assert(binding_input_keys()[0] == "mach"@);
                assert(binding_output_keys()[3] == "rho_rhostar"@);
            } else if i == 6 {
                reveal_strlit("mach");
                assert(binding_input_keys()[0] == "mach"@);
                assert(binding_output_keys()[4] == "p0_p0star"@);
            } else if i == 7 {
                reveal_strlit("mach");
                assert(binding_input_keys()[0] == "mach"@);
                assert(binding_output_keys()[5] == "v_vstar"@);
            } else if i == 8 {
                reveal_strlit("mach");
                assert(binding_input_keys()[0] == "mach"@);
                assert(binding_output_keys()[6] == "four_flstar_d"@);
            } else if i == 9 {
                reveal_strlit("four_flstar_d");
                assert(binding_input_keys()[5] == "four_flstar_d"@);
                assert(binding_output_keys()[0] == "mach"@);
            } else if i == 10 {
                reveal_strlit("p0_p0star");
                assert(binding_input_keys()[4] == "p0_p0star"@);
                assert(binding_output_keys()[0] == "mach"@);
            }
        }
    }
    res
}


/// What the device's generation metadata holds: its names, route, modes,
/// outputs, equation dependencies, page sections and bindings.
pub open spec fn generation_spec_fields(spec: DeviceGenerationSpec) -> bool {
    &&& spec.key@ == "fanno_flow_calc"@
    &&& spec.name@ == "Fanno Flow Calculator"@
    &&& spec.summary@ == "Calculator-style compressible device: solve Fanno star-reference input kinds to target kinds through Mach pivot orchestration."@
    &&& spec.route@ == "devices/fanno_flow_calc.md"@
    &&& texts(spec.supported_modes@) == seq!["Input kinds: Mach, T/T*, p/p*, rho/rho*, p0/p0*, 4fL*/D"@, "Branch-aware inversion for ratio -> Mach"@]
    &&& texts(spec.outputs@) == seq!["value_si"@, "pivot_mach"@, "path diagnostics"@]
    &&& texts(spec.equation_dependencies@) == seq!["compressible.fanno_temperature_ratio"@, "compressible.fanno_pressure_ratio"@, "compressible.fanno_density_ratio"@, "compressible.fanno_stagnation_pressure_ratio"@, "compressible.fanno_velocity_ratio"@, "compressible.fanno_friction_parameter"@]
    &&& spec.binding_markdown == BINDINGS_MD
    &&& spec.overview_markdown == OVERVIEW_MD
    &&& spec.binding_functions.len() == 11
    &&& bindings_ok(spec.binding_functions@)
    &&& device_table_bindings(spec.binding_functions@, BINDING_NAMES@, BINDING_TEXTS@, BINDING_ARGS@)
}

/// The documentation and binding metadata of the device.
pub fn generation_spec() -> (spec: DeviceGenerationSpec)
    ensures
        generation_spec_fields(spec),
{
    let spec = DeviceGenerationSpec {
        key: "fanno_flow_calc",
        name: "Fanno Flow Calculator",
        summary: "Calculator-style compressible device: solve Fanno star-reference input kinds to target kinds through Mach pivot orchestration.",
        supported_modes: vec!["Input kinds: Mach, T/T*, p/p*, rho/rho*, p0/p0*, 4fL*/D", "Branch-aware inversion for ratio -> Mach"],
        outputs: vec!["value_si", "pivot_mach", "path diagnostics"],
        route: "devices/fanno_flow_calc.md",
        binding_markdown: BINDINGS_MD,
        overview_markdown: OVERVIEW_MD,
        equation_dependencies: vec![
            "compressible.fanno_temperature_ratio",
            "compressible.fanno_pressure_ratio",
            "compressible.fanno_density_ratio",
            "compressible.fanno_stagnation_pressure_ratio",
            "compressible.fanno_velocity_ratio",
            "compressible.fanno_friction_parameter",
        ],
        binding_functions: binding_functions(),
    };
    assert(texts(spec.supported_modes@) =~= seq!["Input kinds: Mach, T/T*, p/p*, rho/rho*, p0/p0*, 4fL*/D"@, "Branch-aware inversion for ratio -> Mach"@]);
    assert(texts(spec.outputs@) =~= seq!["value_si"@, "pivot_mach"@, "path diagnostics"@]);
    assert(texts(spec.equation_dependencies@) =~= seq!["compressible.fanno_temperature_ratio"@, "compressible.fanno_pressure_ratio"@, "compressible.fanno_density_ratio"@, "compressible.fanno_stagnation_pressure_ratio"@, "compressible.fanno_velocity_ratio"@, "compressible.fanno_friction_parameter"@]);
    spec
}

/// The kinds that a binding fixes are accepted by the device's parsers.
pub proof fn binding_fixed_kinds_parse(fixed: Seq<(&'static str, &'static str)>)
    requires
        fixed_kinds_in(fixed, binding_input_keys(), binding_output_keys()),
        fixed.len() == 2,
    ensures
        input_kind_of(normalize_seq(fixed[0].1@)) is Some,
        output_kind_of(normalize_seq(fixed[1].1@)) is Some,
{
    advertised_keys_parse();
    let j = choose|j: int| 0 <= j < binding_input_keys().len() && binding_input_keys()[j] == fixed[0].1@;
    let k = choose|k: int| 0 <= k < binding_output_keys().len() && binding_output_keys()[k] == fixed[1].1@;
    assert(input_kind_of(normalize_seq(binding_input_keys()[j])) is Some) by {
        if j == 0 {} else if j == 1 {} else if j == 2 {} else if j == 3 {} else if j == 4 {} else if j == 5 {}
    }
    assert(output_kind_of(normalize_seq(binding_output_keys()[k])) is Some) by {
        if k == 0 {} else if k == 1 {} else if k == 2 {} else if k == 3 {} else if k == 4 {} else if k == 5 {} else if k == 6 {}
    }
}

/// Every operation the device's bindings call is listed in the invoke protocol catalog.
pub proof fn binding_ops_are_listed(op: Seq<char>)
    requires
        binding_op(op),
    ensures
        exists|i: int| 0 <= i < INVOKE_SUPPORTED_OPS@.len() && #[trigger] INVOKE_SUPPORTED_OPS@[i]@ == op,
{
    if op == "device.fanno_flow_calc.value"@ {
        assert(INVOKE_SUPPORTED_OPS@[41]@ == op);
    }
    if op == "device.fanno_flow_calc.path_text"@ {
        assert(INVOKE_SUPPORTED_OPS@[43]@ == op);
    }
    if op == "device.fanno_flow_calc.pivot_mach"@ {
        assert(INVOKE_SUPPORTED_OPS@[42]@ == op);
    }
}




/// Each target step evaluates the equation that the device uses for that
/// kind: it solves for the variable whose name, read as a target kind, is
/// that kind, from the pivot the device resolves; when a pivot step inverts
/// the same variable, the target step uses that pivot step's equation;
/// different target kinds use different equations; and every target equation is one
/// the device depends on.
pub proof fn target_steps_use_their_kinds_equations(
    o: FannoFlowOutputKind,
    o2: FannoFlowOutputKind,
    b: Option<FannoFlowBranch>,
    b2: Option<FannoFlowBranch>,
    i: FannoFlowInputKind,
    bi: FannoFlowBranch,
    spec: DeviceGenerationSpec,
)
    requires
        generation_spec_fields(spec),
    ensures
        target_spec(o, b) is None <==> o == FannoFlowOutputKind::Mach,
        target_spec(o, b) matches Some(t) ==> output_kind_of(lower_seq(t.solved)) == Some(o) && t.inputs[0] == "M"@,
        target_spec(o, b) matches Some(t) ==> texts(spec.equation_dependencies@).contains(t.id),
        target_spec(o, b) matches Some(t) ==> (pivot_spec(i, Some(bi)) matches Ok(Some(p)) ==> (p.inputs[0] == t.solved
            ==> t.id == p.id && p.solved == t.inputs[0])),
        target_spec(o, b) matches Some(t) ==> (target_spec(o2, b2) matches Some(t2) ==> (o != o2 ==> t.id != t2.id)),
{
    reveal_strlit("4fl*/d");
    reveal_strlit("4fl_star_d");
    reveal_strlit("4flstar_d");
    reveal_strlit("M");
    reveal_strlit("compressible.fanno_density_ratio");
    reveal_strlit("compressible.fanno_friction_parameter");
    reveal_strlit("compressible.fanno_pressure_ratio");
    reveal_strlit("compressible.fanno_stagnation_pressure_ratio");
    reveal_strlit("compressible.fanno_temperature_ratio");
    reveal_strlit("compressible.fanno_velocity_ratio");
    reveal_strlit("density_ratio");
    reveal_strlit("four_flstar_d");
    reveal_strlit("friction_parameter");
    reveal_strlit("gamma");
    reveal_strlit("m");
    reveal_strlit("mach");
    reveal_strlit("p/p*");
    reveal_strlit("p0/p0*");
    reveal_strlit("p0_p0star");
    reveal_strlit("p_pstar");
    reveal_strlit("pressure_ratio");
    reveal_strlit("rho/rho*");
    reveal_strlit("rho_rhostar");
    reveal_strlit("stagnation_pressure_ratio");
    reveal_strlit("t/t*");
    reveal_strlit("t_tstar");
    reveal_strlit("temperature_ratio");
    reveal_strlit("v/v*");
    reveal_strlit("v_vstar");
    reveal_strlit("velocity_ratio");
    match o {
        FannoFlowOutputKind::Mach => {},
        FannoFlowOutputKind::TemperatureRatio => {
            assert(lower_seq("t_tstar"@) =~= "t_tstar"@);
            assert("t_tstar"@.len() != "mach"@.len());
            assert("t_tstar"@.len() != "m"@.len());
            assert(output_kind_of("t_tstar"@) == Some(FannoFlowOutputKind::TemperatureRatio));
            assert("t_tstar"@[0] != "p_pstar"@[0]);
            assert("t_tstar"@.len() != "rho_rhostar"@.len());
            assert("t_tstar"@.len() != "p0_p0star"@.len());
            assert("t_tstar"@.len() != "four_flstar_d"@.len());
        },
        FannoFlowOutputKind::PressureRatio => {
            assert(lower_seq("p_pstar"@) =~= "p_pstar"@);
            assert("p_pstar"@.len() != "mach"@.len());
            assert("p_pstar"@.len() != "m"@.len());
            assert("p_pstar"@[0] != "t_tstar"@[0]);
            assert("p_pstar"@.len() != "t/t*"@.len());
            assert("p_pstar"@.len() != "temperature_ratio"@.len());
            assert(output_kind_of("p_pstar"@) == Some(FannoFlowOutputKind::PressureRatio));
            assert("p_pstar"@[0] != "t_tstar"@[0]);
            assert("p_pstar"@.len() != "rho_rhostar"@.len());
            assert("p_pstar"@.len() != "p0_p0star"@.len());
            assert("p_pstar"@.len() != "four_flstar_d"@.len());
        },
        FannoFlowOutputKind::DensityRatio => {
            assert(lower_seq("rho_rhostar"@) =~= "rho_rhostar"@);
            assert("rho_rhostar"@.len() != "mach"@.len());
            assert("rho_rhostar"@.len() != "m"@.len());
            assert("rho_rhostar"@.len() != "t_tstar"@.len());
            assert("rho_rhostar"@.len() != "t/t*"@.len());
            assert("rho_rhostar"@.len() != "temperature_ratio"@.len());
            assert("rho_rhostar"@.len() != "p_pstar"@.len());
            assert("rho_rhostar"@.len() != "p/p*"@.len());
            assert("rho_rhostar"@.len() != "pressure_ratio"@.len());
            assert(output_kind_of("rho_rhostar"@) == Some(FannoFlowOutputKind::DensityRatio));
            assert("rho_rhostar"@.len() != "t_tstar"@.len());
            assert("rho_rhostar"@.len() != "p_pstar"@.len());
            assert("rho_rhostar"@.len() != "p0_p0star"@.len());
            assert("rho_rhostar"@.len() != "four_flstar_d"@.len());
        },
        FannoFlowOutputKind::StagnationPressureRatio => {
            assert(lower_seq("p0_p0star"@) =~= "p0_p0star"@);
            assert("p0_p0star"@.len() != "mach"@.len());
            assert("p0_p0star"@.len() != "m"@.len());
            assert("p0_p0star"@.len() != "t_tstar"@.len());
            assert("p0_p0star"@.len() != "t/t*"@.len());
            assert("p0_p0star"@.len() != "temperature_ratio"@.len());
            assert("p0_p0star"@.len() != "p_pstar"@.len());
            assert("p0_p0star"@.len() != "p/p*"@.len());
            assert("p0_p0star"@.len() != "pressure_ratio"@.len());
            assert("p0_p0star"@.len() != "rho_rhostar"@.len());
            assert("p0_p0star"@.len() != "rho/rho*"@.len());
            assert("p0_p0star"@.len() != "density_ratio"@.len());
            assert(output_kind_of("p0_p0star"@) == Some(FannoFlowOutputKind::StagnationPressureRatio));
            assert("p0_p0star"@.len() != "t_tstar"@.len());
            assert("p0_p0star"@.len() != "p_pstar"@.len());
            assert("p0_p0star"@.len() != "rho_rhostar"@.len());
            assert("p0_p0star"@.len() != "four_flstar_d"@.len());
        },
        FannoFlowOutputKind::VelocityRatio => {
            assert(lower_seq("v_vstar"@) =~= "v_vstar"@);
            assert("v_vstar"@.len() != "mach"@.len());
            assert("v_vstar"@.len() != "m"@.len());
            assert("v_vstar"@[0] != "t_tstar"@[0]);
            assert("v_vstar"@.len() != "t/t*"@.len());
            assert("v_vstar"@.len() != "temperature_ratio"@.len());
            assert("v_vstar"@[0] != "p_pstar"@[0]);
            assert("v_vstar"@.len() != "p/p*"@.len());
            assert("v_vstar"@.len() != "pressure_ratio"@.len());
            assert("v_vstar"@.len() != "rho_rhostar"@.len());
            assert("v_vstar"@.len() != "rho/rho*"@.len());
            assert("v_vstar"@.len() != "density_ratio"@.len());
            assert("v_vstar"@.len() != "p0_p0star"@.len());
            assert("v_vstar"@.len() != "p0/p0*"@.len());
            assert("v_vstar"@.len() != "stagnation_pressure_ratio"@.len());
            assert(output_kind_of("v_vstar"@) == Some(FannoFlowOutputKind::VelocityRatio));
            assert("v_vstar"@[0] != "t_tstar"@[0]);
            assert("v_vstar"@[0] != "p_pstar"@[0]);
            assert("v_vstar"@.len() != "rho_rhostar"@.len());
            assert("v_vstar"@.len() != "p0_p0star"@.len());
            assert("v_vstar"@.len() != "four_flstar_d"@.len());
        },
        FannoFlowOutputKind::FrictionParameter => {
            assert(lower_seq("four_flstar_d"@) =~= "four_flstar_d"@);
            assert("four_flstar_d"@.len() != "mach"@.len());
            assert("four_flstar_d"@.len() != "m"@.len());
            assert("four_flstar_d"@.len() != "t_tstar"@.len());
            assert("four_flstar_d"@.len() != "t/t*"@.len());
            assert("four_flstar_d"@.len() != "temperature_ratio"@.len());
            assert("four_flstar_d"@.len() != "p_pstar"@.len());
            assert("four_flstar_d"@.len() != "p/p*"@.len());
            assert("four_flstar_d"@.len() != "pressure_ratio"@.len());
            assert("four_flstar_d"@.len() != "rho_rhostar"@.len());
            assert("four_flstar_d"@.len() != "rho/rho*"@.len());
            assert("four_flstar_d"@[0] != "density_ratio"@[0]);
            assert("four_flstar_d"@.len() != "p0_p0star"@.len());
            assert("four_flstar_d"@.len() != "p0/p0*"@.len());
            assert("four_flstar_d"@.len() != "stagnation_pressure_ratio"@.len());
            assert("four_flstar_d"@.len() != "v_vstar"@.len());
            assert("four_flstar_d"@.len() != "v/v*"@.len());
            assert("four_flstar_d"@.len() != "velocity_ratio"@.len());
            assert(output_kind_of("four_flstar_d"@) == Some(FannoFlowOutputKind::FrictionParameter));
            assert("four_flstar_d"@.len() != "t_tstar"@.len());
            assert("four_flstar_d"@.len() != "p_pstar"@.len());
            assert("four_flstar_d"@.len() != "rho_rhostar"@.len());
            assert("four_flstar_d"@.len() != "p0_p0star"@.len());
        },
    }
    assert("compressible.fanno_density_ratio"@.len() != "compressible.fanno_friction_parameter"@.len());
    assert("compressible.fanno_density_ratio"@.len() != "compressible.fanno_pressure_ratio"@.len());
    assert("compressible.fanno_density_ratio"@.len() != "compressible.fanno_stagnation_pressure_ratio"@.len());
    assert("compressible.fanno_density_ratio"@.len() != "compressible.fanno_temperature_ratio"@.len());
    assert("compressible.fanno_density_ratio"@.len() != "compressible.fanno_velocity_ratio"@.len());
    assert("compressible.fanno_friction_parameter"@.len() != "compressible.fanno_pressure_ratio"@.len());
    assert("compressible.fanno_friction_parameter"@.len() != "compressible.fanno_stagnation_pressure_ratio"@.len());
    assert("compressible.fanno_friction_parameter"@.len() != "compressible.fanno_temperature_ratio"@.len());
    assert("compressible.fanno_friction_parameter"@.len() != "compressible.fanno_velocity_ratio"@.len());
    assert("compressible.fanno_pressure_ratio"@.len() != "compressible.fanno_stagnation_pressure_ratio"@.len());
    assert("compressible.fanno_pressure_ratio"@.len() != "compressible.fanno_temperature_ratio"@.len());
    assert("compressible.fanno_pressure_ratio"@[19] != "compressible.fanno_velocity_ratio"@[19]);
    assert("compressible.fanno_stagnation_pressure_ratio"@.len() != "compressible.fanno_temperature_ratio"@.len());
    assert("compressible.fanno_stagnation_pressure_ratio"@.len() != "compressible.fanno_velocity_ratio"@.len());
    assert("compressible.fanno_temperature_ratio"@.len() != "compressible.fanno_velocity_ratio"@.len());
    let deps = texts(spec.equation_dependencies@);
    assert(deps[0] == "compressible.fanno_temperature_ratio"@);
    assert(deps[1] == "compressible.fanno_pressure_ratio"@);
    assert(deps[2] == "compressible.fanno_density_ratio"@);
    assert(deps[3] == "compressible.fanno_stagnation_pressure_ratio"@);
    assert(deps[4] == "compressible.fanno_velocity_ratio"@);
    assert(deps[5] == "compressible.fanno_friction_parameter"@);
}


/// The pivot step of each input kind inverts the equation for the variable
/// that names that kind, read as an input kind, and solves for the pivot; only
/// the pivot itself as input needs no step.
pub proof fn pivot_steps_invert_their_kinds_variable(i: FannoFlowInputKind, b: FannoFlowBranch)
    ensures
        pivot_spec(i, Some(b)) == Ok::<Option<StepView>, RouteFailure>(None) <==> i == FannoFlowInputKind::Mach,
        pivot_spec(i, Some(b)) matches Ok(Some(p)) ==> input_kind_of(lower_seq(p.inputs[0])) == Some(i) && p.solved == "M"@,
{
    reveal_strlit("4fl*/d");
    reveal_strlit("4fl_star_d");
    reveal_strlit("4flstar_d");
    reveal_strlit("M");
    reveal_strlit("compressible.fanno_density_ratio");
    reveal_strlit("compressible.fanno_friction_parameter");
    reveal_strlit("compressible.fanno_pressure_ratio");
    reveal_strlit("compressible.fanno_stagnation_pressure_ratio");
    reveal_strlit("compressible.fanno_temperature_ratio");
    reveal_strlit("density_ratio");
    reveal_strlit("four_flstar_d");
    reveal_strlit("friction_parameter");
    reveal_strlit("gamma");
    reveal_strlit("m");
    reveal_strlit("mach");
    reveal_strlit("p/p*");
    reveal_strlit("p0/p0*");
    reveal_strlit("p0_p0star");
    reveal_strlit("p_pstar");
    reveal_strlit("pressure_ratio");
    reveal_strlit("rho/rho*");
    reveal_strlit("rho_rhostar");
    reveal_strlit("stagnation_pressure_ratio");
    reveal_strlit("t/t*");
    reveal_strlit("t_tstar");
    reveal_strlit("temperature_ratio");
    match i {
        FannoFlowInputKind::Mach => {},
        FannoFlowInputKind::TemperatureRatio => {
            assert(lower_seq("t_tstar"@) =~= "t_tstar"@);
            assert("t_tstar"@.len() != "mach"@.len());
            assert("t_tstar"@.len() != "m"@.len());
            assert(input_kind_of("t_tstar"@) == Some(FannoFlowInputKind::TemperatureRatio));
        },
        FannoFlowInputKind::PressureRatio => {
            assert(lower_seq("p_pstar"@) =~= "p_pstar"@);
            assert("p_pstar"@.len() != "mach"@.len());
            assert("p_pstar"@.len() != "m"@.len());
            assert("p_pstar"@[0] != "t_tstar"@[0]);
            assert("p_pstar"@.len() != "t/t*"@.len());
            assert("p_pstar"@.len() != "temperature_ratio"@.len());
            assert(input_kind_of("p_pstar"@) == Some(FannoFlowInputKind::PressureRatio));
        },
        FannoFlowInputKind::DensityRatio => {
            assert(lower_seq("rho_rhostar"@) =~= "rho_rhostar"@);
            assert("rho_rhostar"@.len() != "mach"@.len());
            assert("rho_rhostar"@.len() != "m"@.len());
            assert("rho_rhostar"@.len() != "t_tstar"@.len());
            assert("rho_rhostar"@.len() != "t/t*"@.len());
            assert("rho_rhostar"@.len() != "temperature_ratio"@.len());
            assert("rho_rhostar"@.len() != "p_pstar"@.len());
            assert("rho_rhostar"@.len() != "p/p*"@.len());
            assert("rho_rhostar"@.len() != "pressure_ratio"@.len());
            assert(input_kind_of("rho_rhostar"@) == Some(FannoFlowInputKind::DensityRatio));
        },
        FannoFlowInputKind::StagnationPressureRatio => {
            assert(lower_seq("p0_p0star"@) =~= "p0_p0star"@);
            assert("p0_p0star"@.len() != "mach"@.len());
            assert("p0_p0star"@.len() != "m"@.len());
            assert("p0_p0star"@.len() != "t_tstar"@.len());
            assert("p0_p0star"@.len() != "t/t*"@.len());
            assert("p0_p0star"@.len() != "temperature_ratio"@.len());
            assert("p0_p0star"@.len() != "p_pstar"@.len());
            assert("p0_p0star"@.len() != "p/p*"@.len());
            assert("p0_p0star"@.len() != "pressure_ratio"@.len());
            assert("p0_p0star"@.len() != "rho_rhostar"@.len());
            assert("p0_p0star"@.len() != "rho/rho*"@.len());
            assert("p0_p0star"@.len() != "density_ratio"@.len());
            assert(input_kind_of("p0_p0star"@) == Some(FannoFlowInputKind::StagnationPressureRatio));
        },
        FannoFlowInputKind::FrictionParameter => {
            assert(lower_seq("four_flstar_d"@) =~= "four_flstar_d"@);
            assert("four_flstar_d"@.len() != "mach"@.len());
            assert("four_flstar_d"@.len() != "m"@.len());
            assert("four_flstar_d"@.len() != "t_tstar"@.len());
            assert("four_flstar_d"@.len() != "t/t*"@.len());
            assert("four_flstar_d"@.len() != "temperature_ratio"@.len());
            assert("four_flstar_d"@.len() != "p_pstar"@.len());
            assert("four_flstar_d"@.len() != "p/p*"@.len());
            assert("four_flstar_d"@.len() != "pressure_ratio"@.len());
            assert("four_flstar_d"@.len() != "rho_rhostar"@.len());
            assert("four_flstar_d"@.len() != "rho/rho*"@.len());
            assert("four_flstar_d"@[0] != "density_ratio"@[0]);
            assert("four_flstar_d"@.len() != "p0_p0star"@.len());
            assert("four_flstar_d"@.len() != "p0/p0*"@.len());
            assert("four_flstar_d"@.len() != "stagnation_pressure_ratio"@.len());
            assert(input_kind_of("four_flstar_d"@) == Some(FannoFlowInputKind::FrictionParameter));
        },
    }
}

} // verus!
