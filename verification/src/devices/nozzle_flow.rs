//! Quasi-1D nozzle-flow calculator: kind vocabulary, key parsing and Mach-pivot
//! routing, including the stagnation-reference scaling of static outputs.
use vstd::prelude::*;
use crate::text::lower_seq;
use crate::devices::framework::{
    assemble, assemble_route, kind, kind_keys, kind_labels, kind_labels_text, names1, names2, names3,
    opt_seq, opt_step_view, planned, route_view, step_result_view, sv, CalculatorDeviceSpec, PlannedStep,
    RouteError, RouteFailure, StepKind, StepView,
};
use crate::devices::{
    device_binding_table, device_row_matches, device_table_bindings, fixed_kinds_in, texts, DeviceBindingFunctionSpec,
    DeviceGenerationSpec, DeviceNameRow,
};
use crate::docs::binding_tables::{rows_at, PairRow, TextRow};
use crate::text::{lemma_normalize_canonical, normalize_key, normalize_seq, str_eq};

verus! {

/// Quantity a nozzle-flow calculation starts from.
#[derive(Debug, Clone, Copy, PartialEq, Eq, Structural)]
pub enum NozzleFlowInputKind {
    Mach,
    AreaRatio,
    PressureRatio,
    TemperatureRatio,
    DensityRatio,
}

/// Quantity a nozzle-flow calculation solves for; the static outputs scale a ratio by a stagnation reference.
#[derive(Debug, Clone, Copy, PartialEq, Eq, Structural)]
pub enum NozzleFlowOutputKind {
    Mach,
    AreaRatio,
    PressureRatio,
    TemperatureRatio,
    DensityRatio,
    StaticPressure,
    StaticTemperature,
    StaticDensity,
}

/// Root selection for the double-valued area-ratio inversion.
#[derive(Debug, Clone, Copy, PartialEq, Eq, Structural)]
pub enum NozzleFlowBranch {
    Subsonic,
    Supersonic,
}

pub open spec fn branch_text(b: NozzleFlowBranch) -> Seq<char> {
    match b {
        NozzleFlowBranch::Subsonic => "subsonic"@,
        NozzleFlowBranch::Supersonic => "supersonic"@,
    }
}

impl NozzleFlowBranch {
    /// The lower-case name of the branch.
    pub fn as_str(self) -> (res: &'static str)
        ensures
            res@ == branch_text(self),
    {
        match self {
            NozzleFlowBranch::Subsonic => "subsonic",
            NozzleFlowBranch::Supersonic => "supersonic",
        }
    }
}

/// The input kind that a normalized key names, if any.
pub open spec fn input_kind_of(k: Seq<char>) -> Option<NozzleFlowInputKind> {
    if k == "mach"@ || k == "m"@ {
        Some(NozzleFlowInputKind::Mach)
    } else if k == "area_ratio"@ || k == "a_astar"@ || k == "a/a*"@ {
        Some(NozzleFlowInputKind::AreaRatio)
    } else if k == "pressure_ratio"@ || k == "p_p0"@ || k == "p/p0"@ {
        Some(NozzleFlowInputKind::PressureRatio)
    } else if k == "temperature_ratio"@ || k == "t_t0"@ || k == "t/t0"@ {
        Some(NozzleFlowInputKind::TemperatureRatio)
    } else if k == "density_ratio"@ || k == "rho_rho0"@ || k == "rho/rho0"@ {
        Some(NozzleFlowInputKind::DensityRatio)
    } else {
        None
    }
}

/// Parses a input kind name; surrounding whitespace and ASCII case are ignored.
pub fn parse_input_kind(raw: &str) -> (res: Option<NozzleFlowInputKind>)
    ensures
        res == input_kind_of(normalize_seq(raw@)),
{
    let key = normalize_key(raw);
    let k = key.as_str();
    if str_eq(k, "mach") || str_eq(k, "m") {
        Some(NozzleFlowInputKind::Mach)
    } else if str_eq(k, "area_ratio") || str_eq(k, "a_astar") || str_eq(k, "a/a*") {
        Some(NozzleFlowInputKind::AreaRatio)
    } else if str_eq(k, "pressure_ratio") || str_eq(k, "p_p0") || str_eq(k, "p/p0") {
        Some(NozzleFlowInputKind::PressureRatio)
    } else if str_eq(k, "temperature_ratio") || str_eq(k, "t_t0") || str_eq(k, "t/t0") {
        Some(NozzleFlowInputKind::TemperatureRatio)
    } else if str_eq(k, "density_ratio") || str_eq(k, "rho_rho0") || str_eq(k, "rho/rho0") {
        Some(NozzleFlowInputKind::DensityRatio)
    } else {
        None
    }
}

/// The output kind that a normalized key names, if any.
pub open spec fn output_kind_of(k: Seq<char>) -> Option<NozzleFlowOutputKind> {
    if k == "mach"@ || k == "m"@ {
        Some(NozzleFlowOutputKind::Mach)
    } else if k == "area_ratio"@ || k == "a_astar"@ || k == "a/a*"@ {
        Some(NozzleFlowOutputKind::AreaRatio)
    } else if k == "pressure_ratio"@ || k == "p_p0"@ || k == "p/p0"@ {
        Some(NozzleFlowOutputKind::PressureRatio)
    } else if k == "temperature_ratio"@ || k == "t_t0"@ || k == "t/t0"@ {
        Some(NozzleFlowOutputKind::TemperatureRatio)
    } else if k == "density_ratio"@ || k == "rho_rho0"@ || k == "rho/rho0"@ {
        Some(NozzleFlowOutputKind::DensityRatio)
    } else if k == "p"@ || k == "static_pressure"@ {
        Some(NozzleFlowOutputKind::StaticPressure)
    } else if k == "t"@ || k == "static_temperature"@ {
        Some(NozzleFlowOutputKind::StaticTemperature)
    } else if k == "rho"@ || k == "static_density"@ {
        Some(NozzleFlowOutputKind::StaticDensity)
    } else {
        None
    }
}

/// Parses a output kind name; surrounding whitespace and ASCII case are ignored.
pub fn parse_output_kind(raw: &str) -> (res: Option<NozzleFlowOutputKind>)
    ensures
        res == output_kind_of(normalize_seq(raw@)),
{
    let key = normalize_key(raw);
    let k = key.as_str();
    if str_eq(k, "mach") || str_eq(k, "m") {
        Some(NozzleFlowOutputKind::Mach)
    } else if str_eq(k, "area_ratio") || str_eq(k, "a_astar") || str_eq(k, "a/a*") {
        Some(NozzleFlowOutputKind::AreaRatio)
    } else if str_eq(k, "pressure_ratio") || str_eq(k, "p_p0") || str_eq(k, "p/p0") {
        Some(NozzleFlowOutputKind::PressureRatio)
    } else if str_eq(k, "temperature_ratio") || str_eq(k, "t_t0") || str_eq(k, "t/t0") {
        Some(NozzleFlowOutputKind::TemperatureRatio)
    } else if str_eq(k, "density_ratio") || str_eq(k, "rho_rho0") || str_eq(k, "rho/rho0") {
        Some(NozzleFlowOutputKind::DensityRatio)
    } else if str_eq(k, "p") || str_eq(k, "static_pressure") {
        Some(NozzleFlowOutputKind::StaticPressure)
    } else if str_eq(k, "t") || str_eq(k, "static_temperature") {
        Some(NozzleFlowOutputKind::StaticTemperature)
    } else if str_eq(k, "rho") || str_eq(k, "static_density") {
        Some(NozzleFlowOutputKind::StaticDensity)
    } else {
        None
    }
}

/// The branch that a normalized key names, if any.
pub open spec fn branch_of(k: Seq<char>) -> Option<NozzleFlowBranch> {
    if k == "subsonic"@ {
        Some(NozzleFlowBranch::Subsonic)
    } else if k == "supersonic"@ {
        Some(NozzleFlowBranch::Supersonic)
    } else {
        None
    }
}

/// Parses a branch name; surrounding whitespace and ASCII case are ignored.
pub fn parse_branch(raw: &str) -> (res: Option<NozzleFlowBranch>)
    ensures
        res == branch_of(normalize_seq(raw@)),
{
    let key = normalize_key(raw);
    let k = key.as_str();
    if str_eq(k, "subsonic") {
        Some(NozzleFlowBranch::Subsonic)
    } else if str_eq(k, "supersonic") {
        Some(NozzleFlowBranch::Supersonic)
    } else {
        None
    }
}

pub open spec fn input_kind_name(kind: NozzleFlowInputKind) -> Seq<char> {
    match kind {
        NozzleFlowInputKind::Mach => "mach"@,
        NozzleFlowInputKind::AreaRatio => "area_ratio"@,
        NozzleFlowInputKind::PressureRatio => "pressure_ratio"@,
        NozzleFlowInputKind::TemperatureRatio => "temperature_ratio"@,
        NozzleFlowInputKind::DensityRatio => "density_ratio"@,
    }
}

/// The name under which errors report an input kind.
pub fn input_kind_label(kind: NozzleFlowInputKind) -> (res: &'static str)
    ensures
        res@ == input_kind_name(kind),
{
    match kind {
        NozzleFlowInputKind::Mach => "mach",
        NozzleFlowInputKind::AreaRatio => "area_ratio",
        NozzleFlowInputKind::PressureRatio => "pressure_ratio",
        NozzleFlowInputKind::TemperatureRatio => "temperature_ratio",
        NozzleFlowInputKind::DensityRatio => "density_ratio",
    }
}

/// The step that resolves the pivot Mach number from the input kind.
pub open spec fn pivot_spec(kind: NozzleFlowInputKind, branch: Option<NozzleFlowBranch>) -> Result<Option<StepView>, RouteFailure> {
    match kind {
        NozzleFlowInputKind::Mach => Ok(None),
        NozzleFlowInputKind::AreaRatio => match branch {
            None => Err(RouteFailure::MissingBranch(input_kind_name(kind))),
            Some(b) => Ok(Some(sv(StepKind::Equation, "compressible.area_mach"@, "M"@, seq!["area_ratio"@, "gamma"@], Some(branch_text(b))))),
        },
        NozzleFlowInputKind::PressureRatio => Ok(Some(sv(StepKind::Equation, "compressible.isentropic_pressure_ratio"@, "M"@, seq!["p_p0"@, "gamma"@], None))),
        NozzleFlowInputKind::TemperatureRatio => Ok(Some(sv(StepKind::Equation, "compressible.isentropic_temperature_ratio"@, "M"@, seq!["T_T0"@, "gamma"@], None))),
        NozzleFlowInputKind::DensityRatio => Ok(Some(sv(StepKind::Equation, "compressible.isentropic_density_ratio"@, "M"@, seq!["rho_rho0"@, "gamma"@], None))),
    }
}

/// The step that resolves the pivot Mach number from the input kind.
pub fn pivot_step(kind: NozzleFlowInputKind, branch: Option<NozzleFlowBranch>) -> (res: Result<Option<PlannedStep>, RouteError>)
    ensures
        step_result_view(res) == pivot_spec(kind, branch),
{
    match kind {
        NozzleFlowInputKind::Mach => Ok(None),
        NozzleFlowInputKind::AreaRatio => match branch {
            None => Err(RouteError::MissingBranch { kind: input_kind_label(kind) }),
            Some(b) => Ok(Some(planned(StepKind::Equation, "compressible.area_mach", "M", names2("area_ratio", "gamma"), Some(b.as_str())))),
        },
        NozzleFlowInputKind::PressureRatio => Ok(Some(planned(StepKind::Equation, "compressible.isentropic_pressure_ratio", "M", names2("p_p0", "gamma"), None))),
        NozzleFlowInputKind::TemperatureRatio => Ok(Some(planned(StepKind::Equation, "compressible.isentropic_temperature_ratio", "M", names2("T_T0", "gamma"), None))),
        NozzleFlowInputKind::DensityRatio => Ok(Some(planned(StepKind::Equation, "compressible.isentropic_density_ratio", "M", names2("rho_rho0", "gamma"), None))),
    }
}

/// The keys under which the device advertises its input kinds.
pub open spec fn advertised_input_keys() -> Seq<Seq<char>> {
    seq!["mach"@, "area_ratio"@, "pressure_ratio"@, "temperature_ratio"@, "density_ratio"@]
}

/// The keys under which the device advertises its output kinds.
pub open spec fn advertised_output_keys() -> Seq<Seq<char>> {
    seq!["mach"@, "area_ratio"@, "pressure_ratio"@, "temperature_ratio"@, "density_ratio"@, "p"@, "t"@, "rho"@]
}

/// The static description of the nozzle-flow calculator.
pub fn device_spec() -> (res: CalculatorDeviceSpec)
    ensures
        res.key@ == "nozzle_flow_calc"@,
        res.name@ == "Nozzle Flow Calculator"@,
        res.summary@ == "Calculator-style quasi-1D nozzle device: solve isentropic nozzle input kinds to target kinds through Mach pivot orchestration."@,
        res.route@ == "devices/nozzle_flow_calc.md"@,
        res.pivot_label@ == "Mach"@,
        kind_keys(res.input_kinds@) == advertised_input_keys(),
        kind_labels(res.input_kinds@) == seq!["Mach"@, "A/A*"@, "p/p0"@, "T/T0"@, "rho/rho0"@],
        kind_keys(res.output_kinds@) == advertised_output_keys(),
        kind_labels(res.output_kinds@) == seq!["Mach"@, "A/A*"@, "p/p0"@, "T/T0"@, "rho/rho0"@, "Static pressure p (requires p0)"@, "Static temperature T (requires t0)"@, "Static density rho (requires rho0)"@],
        crate::strings::str_views(res.branches@) == seq!["subsonic"@, "supersonic"@],
{
    let inputs = vec![
        kind("mach", "Mach"),
        kind("area_ratio", "A/A*"),
        kind("pressure_ratio", "p/p0"),
        kind("temperature_ratio", "T/T0"),
        kind("density_ratio", "rho/rho0"),
    ];
    let outputs = vec![
        kind("mach", "Mach"),
        kind("area_ratio", "A/A*"),
        kind("pressure_ratio", "p/p0"),
        kind("temperature_ratio", "T/T0"),
        kind("density_ratio", "rho/rho0"),
        kind("p", "Static pressure p (requires p0)"),
        kind("t", "Static temperature T (requires t0)"),
        kind("rho", "Static density rho (requires rho0)"),
    ];
    let res = CalculatorDeviceSpec {
        key: "nozzle_flow_calc",
        name: "Nozzle Flow Calculator",
        summary: "Calculator-style quasi-1D nozzle device: solve isentropic nozzle input kinds to target kinds through Mach pivot orchestration.",
        route: "devices/nozzle_flow_calc.md",
        pivot_label: "Mach",
        input_kinds: inputs,
        output_kinds: outputs,
        branches: names2("subsonic", "supersonic"),
    };
    assert(kind_keys(res.input_kinds@) =~= advertised_input_keys());
    assert(kind_labels(res.input_kinds@) =~= seq!["Mach"@, "A/A*"@, "p/p0"@, "T/T0"@, "rho/rho0"@]);
    assert(kind_keys(res.output_kinds@) =~= advertised_output_keys());
    assert(kind_labels(res.output_kinds@) =~= seq!["Mach"@, "A/A*"@, "p/p0"@, "T/T0"@, "rho/rho0"@, "Static pressure p (requires p0)"@, "Static temperature T (requires t0)"@, "Static density rho (requires rho0)"@]);
    res
}

pub open spec fn ratio_step_spec(kind: NozzleFlowOutputKind, branch: Option<NozzleFlowBranch>) -> Option<StepView> {
    match kind {
        NozzleFlowOutputKind::Mach => None,
        NozzleFlowOutputKind::AreaRatio => Some(sv(StepKind::Equation, "compressible.area_mach"@, "area_ratio"@, seq!["M"@, "gamma"@],
            match branch { Some(b) => Some(branch_text(b)), None => None })),
        NozzleFlowOutputKind::PressureRatio | NozzleFlowOutputKind::StaticPressure =>
            Some(sv(StepKind::Equation, "compressible.isentropic_pressure_ratio"@, "p_p0"@, seq!["M"@, "gamma"@], None)),
        NozzleFlowOutputKind::TemperatureRatio | NozzleFlowOutputKind::StaticTemperature =>
            Some(sv(StepKind::Equation, "compressible.isentropic_temperature_ratio"@, "T_T0"@, seq!["M"@, "gamma"@], None)),
        NozzleFlowOutputKind::DensityRatio | NozzleFlowOutputKind::StaticDensity =>
            Some(sv(StepKind::Equation, "compressible.isentropic_density_ratio"@, "rho_rho0"@, seq!["M"@, "gamma"@], None)),
    }
}

pub open spec fn scale_step_spec(kind: NozzleFlowOutputKind) -> Option<StepView> {
    match kind {
        NozzleFlowOutputKind::StaticPressure =>
            Some(sv(StepKind::Scale, "devices.nozzle_flow_calc.reference_scale"@, "p"@, seq!["p_p0"@, "p0"@], None)),
        NozzleFlowOutputKind::StaticTemperature =>
            Some(sv(StepKind::Scale, "devices.nozzle_flow_calc.reference_scale"@, "t"@, seq!["T_T0"@, "t0"@], None)),
        NozzleFlowOutputKind::StaticDensity =>
            Some(sv(StepKind::Scale, "devices.nozzle_flow_calc.reference_scale"@, "rho"@, seq!["rho_rho0"@, "rho0"@], None)),
        _ => None,
    }
}

/// The steps that evaluate the target at the pivot Mach number: the ratio
/// equation, then (for a static output) its scaling by the stagnation reference.
pub open spec fn target_spec(kind: NozzleFlowOutputKind, branch: Option<NozzleFlowBranch>) -> Seq<StepView> {
    opt_seq(ratio_step_spec(kind, branch)) + opt_seq(scale_step_spec(kind))
}

/// The ratio equation a target kind is evaluated through.
pub fn ratio_step(kind: NozzleFlowOutputKind, branch: Option<NozzleFlowBranch>) -> (res: Option<PlannedStep>)
    ensures
        opt_step_view(res) == ratio_step_spec(kind, branch),
{
    match kind {
        NozzleFlowOutputKind::Mach => None,
        NozzleFlowOutputKind::AreaRatio => Some(planned(StepKind::Equation, "compressible.area_mach", "area_ratio", names2("M", "gamma"),
            match branch { Some(b) => Some(b.as_str()), None => None })),
        NozzleFlowOutputKind::PressureRatio | NozzleFlowOutputKind::StaticPressure =>
            Some(planned(StepKind::Equation, "compressible.isentropic_pressure_ratio", "p_p0", names2("M", "gamma"), None)),
        NozzleFlowOutputKind::TemperatureRatio | NozzleFlowOutputKind::StaticTemperature =>
            Some(planned(StepKind::Equation, "compressible.isentropic_temperature_ratio", "T_T0", names2("M", "gamma"), None)),
        NozzleFlowOutputKind::DensityRatio | NozzleFlowOutputKind::StaticDensity =>
            Some(planned(StepKind::Equation, "compressible.isentropic_density_ratio", "rho_rho0", names2("M", "gamma"), None)),
    }
}

/// The explicit reference scaling a static target ends with.
pub fn scale_step(kind: NozzleFlowOutputKind) -> (res: Option<PlannedStep>)
    ensures
        opt_step_view(res) == scale_step_spec(kind),
{
    match kind {
        NozzleFlowOutputKind::StaticPressure =>
            Some(planned(StepKind::Scale, "devices.nozzle_flow_calc.reference_scale", "p", names2("p_p0", "p0"), None)),
        NozzleFlowOutputKind::StaticTemperature =>
            Some(planned(StepKind::Scale, "devices.nozzle_flow_calc.reference_scale", "t", names2("T_T0", "t0"), None)),
        NozzleFlowOutputKind::StaticDensity =>
            Some(planned(StepKind::Scale, "devices.nozzle_flow_calc.reference_scale", "rho", names2("rho_rho0", "rho0"), None)),
        _ => None,
    }
}

/// Which stagnation references a request supplies.
#[derive(Debug, Clone, Copy)]
pub struct SuppliedReferences {
    pub p0: bool,
    pub t0: bool,
    pub rho0: bool,
}

/// The reference a static target needs but does not have: `(target, reference)`.
pub open spec fn missing_reference_spec(target: NozzleFlowOutputKind, refs: SuppliedReferences) -> Option<RouteFailure> {
    match target {
        NozzleFlowOutputKind::StaticPressure => if refs.p0 { None } else { Some(RouteFailure::MissingReference("p"@, "p0"@)) },
        NozzleFlowOutputKind::StaticTemperature => if refs.t0 { None } else { Some(RouteFailure::MissingReference("t"@, "t0"@)) },
        NozzleFlowOutputKind::StaticDensity => if refs.rho0 { None } else { Some(RouteFailure::MissingReference("rho"@, "rho0"@)) },
        _ => None,
    }
}

/// Checks that a static target has its stagnation reference.
pub fn check_reference(target: NozzleFlowOutputKind, refs: SuppliedReferences) -> (res: Result<(), RouteError>)
    ensures
        match res {
            Ok(()) => missing_reference_spec(target, refs) is None,
            Err(e) => missing_reference_spec(target, refs) == Some(crate::devices::framework::failure_view(e)),
        },
{
    match target {
        NozzleFlowOutputKind::StaticPressure => if refs.p0 { Ok(()) } else { Err(RouteError::MissingReference { target: "p", reference: "p0" }) },
        NozzleFlowOutputKind::StaticTemperature => if refs.t0 { Ok(()) } else { Err(RouteError::MissingReference { target: "t", reference: "t0" }) },
        NozzleFlowOutputKind::StaticDensity => if refs.rho0 { Ok(()) } else { Err(RouteError::MissingReference { target: "rho", reference: "rho0" }) },
        _ => Ok(()),
    }
}

/// The whole solve route: a missing reference is reported first; then the pivot
/// step (for a non-Mach input), then the target steps.
pub open spec fn route_spec(input: NozzleFlowInputKind, target: NozzleFlowOutputKind, branch: Option<NozzleFlowBranch>, refs: SuppliedReferences) -> Result<Seq<StepView>, RouteFailure> {
    match missing_reference_spec(target, refs) {
        Some(f) => Err(f),
        None => match pivot_spec(input, branch) {
            Err(e) => Err(e),
            Ok(p) => Ok(opt_seq(p) + target_spec(target, branch)),
        },
    }
}

/// Plans the equation steps of a nozzle-flow calculation.
pub fn route(input: NozzleFlowInputKind, target: NozzleFlowOutputKind, branch: Option<NozzleFlowBranch>, refs: SuppliedReferences) -> (res: Result<Vec<PlannedStep>, RouteError>)
    ensures
        route_view(res) == route_spec(input, target, branch, refs),
{
    match check_reference(target, refs) {
        Err(e) => return Err(e),
        Ok(()) => {},
    }
    let p = match pivot_step(input, branch) {
        Err(e) => return Err(e),
        Ok(p) => p,
    };
    let ghost pv = opt_seq(opt_step_view(p));
    let r = ratio_step(target, branch);
    let s = scale_step(target);
    let ghost rv = opt_step_view(r);
    let ghost scv = opt_step_view(s);
    let mut steps = crate::devices::framework::chain(p, r);
    let ghost before = crate::devices::framework::plan_view(steps@);
    assert(before == pv + opt_seq(rv));
    match s {
        Some(x) => {
            steps.push(x);
            assert(crate::devices::framework::plan_view(steps@) =~= before + opt_seq(scv));
        },
        None => {
            assert(crate::devices::framework::plan_view(steps@) =~= before + opt_seq(scv));
        },
    }
    assert(crate::devices::framework::plan_view(steps@) =~= pv + target_spec(target, branch));
    Ok(steps)
}

/// Reading back a branch's own name gives that branch.
pub proof fn branch_name_round_trip(b: NozzleFlowBranch)
    ensures
        branch_of(normalize_seq(branch_text(b))) == Some(b),
{
    reveal_strlit("subsonic");
    reveal_strlit("supersonic");
    lemma_normalize_canonical("subsonic"@);
    lemma_normalize_canonical("supersonic"@);
}

/// Every key the device advertises is accepted by the matching kind parser.
pub proof fn advertised_keys_parse()
    ensures
        input_kind_of(normalize_seq(advertised_input_keys()[0])) == Some(NozzleFlowInputKind::Mach),
        input_kind_of(normalize_seq(advertised_input_keys()[1])) == Some(NozzleFlowInputKind::AreaRatio),
        input_kind_of(normalize_seq(advertised_input_keys()[2])) == Some(NozzleFlowInputKind::PressureRatio),
        input_kind_of(normalize_seq(advertised_input_keys()[3])) == Some(NozzleFlowInputKind::TemperatureRatio),
        input_kind_of(normalize_seq(advertised_input_keys()[4])) == Some(NozzleFlowInputKind::DensityRatio),
        output_kind_of(normalize_seq(advertised_output_keys()[0])) == Some(NozzleFlowOutputKind::Mach),
        output_kind_of(normalize_seq(advertised_output_keys()[1])) == Some(NozzleFlowOutputKind::AreaRatio),
        output_kind_of(normalize_seq(advertised_output_keys()[2])) == Some(NozzleFlowOutputKind::PressureRatio),
        output_kind_of(normalize_seq(advertised_output_keys()[3])) == Some(NozzleFlowOutputKind::TemperatureRatio),
        output_kind_of(normalize_seq(advertised_output_keys()[4])) == Some(NozzleFlowOutputKind::DensityRatio),
        output_kind_of(normalize_seq(advertised_output_keys()[5])) == Some(NozzleFlowOutputKind::StaticPressure),
        output_kind_of(normalize_seq(advertised_output_keys()[6])) == Some(NozzleFlowOutputKind::StaticTemperature),
        output_kind_of(normalize_seq(advertised_output_keys()[7])) == Some(NozzleFlowOutputKind::StaticDensity),
{
    reveal_strlit("mach");
    reveal_strlit("m");
    reveal_strlit("area_ratio");
    reveal_strlit("a_astar");
    reveal_strlit("a/a*");
    reveal_strlit("pressure_ratio");
    reveal_strlit("p_p0");
    reveal_strlit("p/p0");
    reveal_strlit("temperature_ratio");
    reveal_strlit("t_t0");
    reveal_strlit("t/t0");
    reveal_strlit("density_ratio");
    reveal_strlit("rho_rho0");
    reveal_strlit("rho/rho0");
    reveal_strlit("p");
    reveal_strlit("static_pressure");
    reveal_strlit("t");
    reveal_strlit("static_temperature");
    reveal_strlit("rho");
    reveal_strlit("static_density");
    lemma_normalize_canonical("mach"@);
    lemma_normalize_canonical("area_ratio"@);
    lemma_normalize_canonical("pressure_ratio"@);
    lemma_normalize_canonical("temperature_ratio"@);
    lemma_normalize_canonical("density_ratio"@);
    lemma_normalize_canonical("p"@);
    lemma_normalize_canonical("t"@);
    lemma_normalize_canonical("rho"@);
}

/// A static output without its stagnation reference is refused before any
/// solve, naming the output and the reference it needs.
pub proof fn static_output_requires_reference(input: NozzleFlowInputKind, branch: Option<NozzleFlowBranch>, refs: SuppliedReferences)
    ensures
        !refs.p0 ==> route_spec(input, NozzleFlowOutputKind::StaticPressure, branch, refs)
            == Err::<Seq<StepView>, RouteFailure>(RouteFailure::MissingReference("p"@, "p0"@)),
        !refs.t0 ==> route_spec(input, NozzleFlowOutputKind::StaticTemperature, branch, refs)
            == Err::<Seq<StepView>, RouteFailure>(RouteFailure::MissingReference("t"@, "t0"@)),
        !refs.rho0 ==> route_spec(input, NozzleFlowOutputKind::StaticDensity, branch, refs)
            == Err::<Seq<StepView>, RouteFailure>(RouteFailure::MissingReference("rho"@, "rho0"@)),
{
}

/// A static output ends with the reference scaling of the matching ratio.
pub proof fn static_output_scales_its_ratio(input: NozzleFlowInputKind, branch: NozzleFlowBranch)
    ensures
        ({
            let refs = SuppliedReferences { p0: true, t0: true, rho0: true };
            let r = route_spec(input, NozzleFlowOutputKind::StaticPressure, Some(branch), refs);
            &&& r is Ok
            &&& r->Ok_0.last().kind == StepKind::Scale
            &&& r->Ok_0.last().inputs == seq!["p_p0"@, "p0"@]
            &&& r->Ok_0[r->Ok_0.len() - 2].solved == "p_p0"@
        }),
{
}

/// With a branch and every reference supplied, every input routes to every target.
pub proof fn route_is_total(input: NozzleFlowInputKind, target: NozzleFlowOutputKind, branch: NozzleFlowBranch)
    ensures
        route_spec(input, target, Some(branch), SuppliedReferences { p0: true, t0: true, rho0: true }) is Ok,
{
}

/// Without a branch only the area-ratio inversion is refused (once references are met).
pub proof fn route_needs_branch_only_for_area_ratio(input: NozzleFlowInputKind, target: NozzleFlowOutputKind)
    ensures
        ({
            let refs = SuppliedReferences { p0: true, t0: true, rho0: true };
            &&& (route_spec(input, target, None, refs) is Err) <==> input == NozzleFlowInputKind::AreaRatio
            &&& input == NozzleFlowInputKind::AreaRatio ==> route_spec(input, target, None, refs)
                == Err::<Seq<StepView>, RouteFailure>(RouteFailure::MissingBranch("area_ratio"@))
        }),
{
}

} // verus!

// ---- documentation and binding metadata ----

verus! {

/// The bindings section of the device's documentation page.
pub const BINDINGS_MD: &'static str = "## Bindings\n\n### Python\n```python\nengpy.devices.nozzle_flow_calc(\"area_ratio\", 2.0, \"mach\", 1.4, None, None, None, \"supersonic\")\nengpy.devices.nozzle_flow_from_m_to_a_astar(2.0, 1.4)\nengpy.devices.nozzle_flow_from_m_to_p_p0(2.0, 1.4)\nengpy.devices.nozzle_flow_path_text(\"mach\", 2.0, \"p\", 1.4, 2.0e6, None, None, \"\")\n```\n\n### Excel\n```excel\n=ENG_NOZZLE_FLOW(\"area_ratio\",2.0,\"mach\",1.4,NA(),NA(),NA(),\"supersonic\")\n=ENG_NOZZLE_FLOW_FROM_M_TO_A_ASTAR(2.0,1.4)\n=ENG_NOZZLE_FLOW_FROM_A_ASTAR_TO_M(2.0,1.4,\"subsonic\")\n=ENG_NOZZLE_FLOW_FROM_M_TO_P_P0(2.0,1.4)\n=ENG_NOZZLE_FLOW_FROM_M_TO_T_T0(2.0,1.4)\n=ENG_NOZZLE_FLOW_FROM_M_TO_RHO_RHO0(2.0,1.4)\n=ENG_NOZZLE_FLOW(\"mach\",2.0,\"p\",1.4,2000000,NA(),NA(),\"\")\n=ENG_NOZZLE_FLOW_PATH_TEXT(\"area_ratio\",2.0,\"mach\",1.4,NA(),NA(),NA(),\"supersonic\")\n```\n\n**Excel arguments**\n- `input_kind`: `mach`, `area_ratio`, `pressure_ratio`, `temperature_ratio`, `density_ratio`\n- `input_value`: input value\n- `target_kind`: `mach`, `area_ratio`, `pressure_ratio`, `temperature_ratio`, `density_ratio`, `p`, `t`, `rho`\n- `gamma`: specific heat ratio\n- `p0`, `t0`, `rho0`: optional stagnation references required for static outputs `p`, `t`, `rho`\n- `branch`: required for `area_ratio -> mach`\n";

/// The overview section of the device's documentation page.
pub const OVERVIEW_MD: &'static str = "## Overview\n\nA calculator-style quasi-1D nozzle-flow device that resolves a pivot Mach number from one supported input kind and then evaluates the requested target kind.\n\n### Supported input kinds\n- `mach`\n- `area_ratio` (`A/A*`, branch-sensitive inverse)\n- `pressure_ratio` (`p/p0`)\n- `temperature_ratio` (`T/T0`)\n- `density_ratio` (`rho/rho0`)\n\n### Supported target kinds\n- `mach`\n- `area_ratio`\n- `pressure_ratio`\n- `temperature_ratio`\n- `density_ratio`\n- `p` (requires `p0`)\n- `t` (requires `t0`)\n- `rho` (requires `rho0`)\n\n### Branch behavior\n- `area_ratio -> mach` is double-valued and requires `subsonic` or `supersonic`.\n\n### Rust\n```rust\nuse eng::devices::{nozzle_flow_calc, NozzleFlowBranch, NozzleFlowInputKind, NozzleFlowOutputKind};\nlet out = nozzle_flow_calc()\n    .gamma(1.4)\n    .input(NozzleFlowInputKind::AreaRatio, 2.0)\n    .target(NozzleFlowOutputKind::Mach)\n    .branch(NozzleFlowBranch::Supersonic)\n    .solve()?;\nprintln!(\"M={}, value={}\", out.pivot_mach, out.value_si);\n```\n";




/// The kind keys that a binding may fix: the advertised ones.
pub open spec fn binding_input_keys() -> Seq<Seq<char>> {
    advertised_input_keys()
}

pub open spec fn binding_output_keys() -> Seq<Seq<char>> {
    advertised_output_keys()
}

/// The invoke operations that the device's bindings call.
pub open spec fn binding_op(op: Seq<char>) -> bool {
    op == "device.nozzle_flow_calc.value"@ || op == "device.nozzle_flow_calc.path_text"@ || op == "device.nozzle_flow_calc.pivot_mach"@
}

/// Every binding calls one of the device's operations, and fixes either
/// nothing or an input kind and a target kind that the device accepts.
pub open spec fn bindings_ok(b: Seq<DeviceBindingFunctionSpec>) -> bool {
    forall|i: int| 0 <= i < b.len() ==> binding_op((#[trigger] b[i]).op@)
        && fixed_kinds_in(b[i].fixed_args@, binding_input_keys(), binding_output_keys())
}

/// The names of the device's bindings, and the kinds each fixes.
pub const BINDING_NAMES: [DeviceNameRow; 8] = [
    ("device.nozzle_flow_calc", "nozzle_flow_calc", "ENG_NOZZLE_FLOW", "device.nozzle_flow_calc.value", "", ""),
    ("device.nozzle_flow_calc.path_text", "nozzle_flow_path_text", "ENG_NOZZLE_FLOW_PATH_TEXT", "device.nozzle_flow_calc.path_text", "", ""),
    ("device.nozzle_flow_calc.pivot", "nozzle_flow_pivot_mach", "ENG_NOZZLE_FLOW_PIVOT_MACH", "device.nozzle_flow_calc.pivot_mach", "", ""),
    ("device.nozzle_flow_calc.from_m.to_a_astar", "nozzle_flow_from_m_to_a_astar", "ENG_NOZZLE_FLOW_FROM_M_TO_A_ASTAR", "device.nozzle_flow_calc.value", "mach", "area_ratio"),
    ("device.nozzle_flow_calc.from_a_astar.to_m", "nozzle_flow_from_a_astar_to_m", "ENG_NOZZLE_FLOW_FROM_A_ASTAR_TO_M", "device.nozzle_flow_calc.value", "area_ratio", "mach"),
    ("device.nozzle_flow_calc.from_m.to_p_p0", "nozzle_flow_from_m_to_p_p0", "ENG_NOZZLE_FLOW_FROM_M_TO_P_P0", "device.nozzle_flow_calc.value", "mach", "pressure_ratio"),
    ("device.nozzle_flow_calc.from_m.to_t_t0", "nozzle_flow_from_m_to_t_t0", "ENG_NOZZLE_FLOW_FROM_M_TO_T_T0", "device.nozzle_flow_calc.value", "mach", "temperature_ratio"),
    ("device.nozzle_flow_calc.from_m.to_rho_rho0", "nozzle_flow_from_m_to_rho_rho0", "ENG_NOZZLE_FLOW_FROM_M_TO_RHO_RHO0", "device.nozzle_flow_calc.value", "mach", "density_ratio"),
];

/// The texts of the device's bindings, position by position.
pub const BINDING_TEXTS: [TextRow; 8] = [
    ("f64", "Nozzle-flow calculator: input kind -> target kind through Mach pivot", "eng::devices::nozzle_flow_calc().solve()?", "engpy.devices.nozzle_flow_calc(\"mach\", 2.0, \"pressure_ratio\", 1.4, None, None, None, \"\")", "=ENG_NOZZLE_FLOW(\"mach\",2.0,\"pressure_ratio\",1.4,NA(),NA(),NA(),\"\")", "=ENG_NOZZLE_FLOW(\"mach\",2.0,\"pressure_ratio\",1.4,NA(),NA(),NA(),\"\")"),
    ("str", "Nozzle-flow calculator helper: compact step trace text", "eng::invoke::process_invoke_json(\"...\")", "engpy.devices.nozzle_flow_path_text(\"area_ratio\", 2.0, \"mach\", 1.4, None, None, None, \"supersonic\")", "=ENG_NOZZLE_FLOW_PATH_TEXT(\"area_ratio\",2.0,\"mach\",1.4,NA(),NA(),NA(),\"supersonic\")", "=ENG_NOZZLE_FLOW_PATH_TEXT(\"area_ratio\",2.0,\"mach\",1.4,NA(),NA(),NA(),\"supersonic\")"),
    ("f64", "Nozzle-flow calculator helper: return resolved pivot Mach", "eng::invoke::process_invoke_json(\"...\")", "engpy.devices.nozzle_flow_pivot_mach(\"area_ratio\", 2.0, \"mach\", 1.4, None, None, None, \"subsonic\")", "=ENG_NOZZLE_FLOW_PIVOT_MACH(\"area_ratio\",2.0,\"mach\",1.4,NA(),NA(),NA(),\"subsonic\")", "=ENG_NOZZLE_FLOW_PIVOT_MACH(\"area_ratio\",2.0,\"mach\",1.4,NA(),NA(),NA(),\"subsonic\")"),
    ("f64", "Convenience nozzle-flow path: Mach -> A/A*", "eng::invoke::process_invoke_json(\"...\")", "engpy.devices.nozzle_flow_from_m_to_a_astar(2.0, 1.4)", "=ENG_NOZZLE_FLOW_FROM_M_TO_A_ASTAR(2.0,1.4)", "=ENG_NOZZLE_FLOW_FROM_M_TO_A_ASTAR(2.0,1.4)"),
    ("f64", "Convenience nozzle-flow path: A/A* -> Mach (branch required)", "eng::invoke::process_invoke_json(\"...\")", "engpy.devices.nozzle_flow_from_a_astar_to_m(2.0, 1.4, \"supersonic\")", "=ENG_NOZZLE_FLOW_FROM_A_ASTAR_TO_M(2.0,1.4,\"supersonic\")", "=ENG_NOZZLE_FLOW_FROM_A_ASTAR_TO_M(2.0,1.4,\"supersonic\")"),
    ("f64", "Convenience nozzle-flow path: Mach -> p/p0", "eng::invoke::process_invoke_json(\"...\")", "engpy.devices.nozzle_flow_from_m_to_p_p0(2.0, 1.4)", "=ENG_NOZZLE_FLOW_FROM_M_TO_P_P0(2.0,1.4)", "=ENG_NOZZLE_FLOW_FROM_M_TO_P_P0(2.0,1.4)"),
    ("f64", "Convenience nozzle-flow path: Mach -> T/T0", "eng::invoke::process_invoke_json(\"...\")", "engpy.devices.nozzle_flow_from_m_to_t_t0(2.0, 1.4)", "=ENG_NOZZLE_FLOW_FROM_M_TO_T_T0(2.0,1.4)", "=ENG_NOZZLE_FLOW_FROM_M_TO_T_T0(2.0,1.4)"),
    ("f64", "Convenience nozzle-flow path: Mach -> rho/rho0", "eng::invoke::process_invoke_json(\"...\")", "engpy.devices.nozzle_flow_from_m_to_rho_rho0(2.0, 1.4)", "=ENG_NOZZLE_FLOW_FROM_M_TO_RHO_RHO0(2.0,1.4)", "=ENG_NOZZLE_FLOW_FROM_M_TO_RHO_RHO0(2.0,1.4)"),
];

/// The arguments of the device's bindings, in order: binding position, name, description.
pub const BINDING_ARGS: [PairRow; 35] = [
    (0, "input_kind", "Input kind (mach, area_ratio, pressure_ratio, temperature_ratio, density_ratio)"),
    (0, "input_value", "Input value"),
    (0, "target_kind", "Target kind (mach, area_ratio, pressure_ratio, temperature_ratio, density_ratio, p, t, rho)"),
    (0, "gamma", "Specific heat ratio"),
    (0, "p0", "Optional stagnation pressure reference for static p output"),
    (0, "t0", "Optional stagnation temperature reference for static T output"),
    (0, "rho0", "Optional stagnation density reference for static rho output"),
    (0, "branch", "Subsonic/supersonic branch for area_ratio -> mach inversion"),
    (1, "input_kind", "Input kind (mach, area_ratio, pressure_ratio, temperature_ratio, density_ratio)"),
    (1, "input_value", "Input value"),
    (1, "target_kind", "Target kind (mach, area_ratio, pressure_ratio, temperature_ratio, density_ratio, p, t, rho)"),
    (1, "gamma", "Specific heat ratio"),
    (1, "p0", "Optional stagnation pressure reference for static p output"),
    (1, "t0", "Optional stagnation temperature reference for static T output"),
    (1, "rho0", "Optional stagnation density reference for static rho output"),
    (1, "branch", "Subsonic/supersonic branch for area_ratio -> mach inversion"),
    (2, "input_kind", "Input kind (mach, area_ratio, pressure_ratio, temperature_ratio, density_ratio)"),
    (2, "input_value", "Input value"),
    (2, "target_kind", "Target kind (mach, area_ratio, pressure_ratio, temperature_ratio, density_ratio, p, t, rho)"),
    (2, "gamma", "Specific heat ratio"),
    (2, "p0", "Optional stagnation pressure reference for static p output"),
    (2, "t0", "Optional stagnation temperature reference for static T output"),
    (2, "rho0", "Optional stagnation density reference for static rho output"),
    (2, "branch", "Subsonic/supersonic branch for area_ratio -> mach inversion"),
    (3, "input_value", "Mach input value"),
    (3, "gamma", "Specific heat ratio"),
    (4, "input_value", "Area ratio input value (A/A*)"),
    (4, "gamma", "Specific heat ratio"),
    (4, "branch", "Subsonic or supersonic branch"),
    (5, "input_value", "Mach input value"),
    (5, "gamma", "Specific heat ratio"),
    (6, "input_value", "Mach input value"),
    (6, "gamma", "Specific heat ratio"),
    (7, "input_value", "Mach input value"),
    (7, "gamma", "Specific heat ratio"),
];

fn binding_functions() -> (res: Vec<DeviceBindingFunctionSpec>)
    ensures
        device_table_bindings(res@, BINDING_NAMES@, BINDING_TEXTS@, BINDING_ARGS@),
        res.len() == 8,
        bindings_ok(res@),
{
    let names = BINDING_NAMES.as_slice();
    let texts = BINDING_TEXTS.as_slice();
    let args = BINDING_ARGS.as_slice();
    assert(names@ == BINDING_NAMES@ && texts@ == BINDING_TEXTS@ && args@ == BINDING_ARGS@);
    let res = device_binding_table(names, texts, args);
    proof {
        reveal_strlit("");
        assert forall|i: int| 0 <= i < res@.len() implies binding_op((#[trigger] res@[i]).op@) && fixed_kinds_in(
            res@[i].fixed_args@,
            binding_input_keys(),
            binding_output_keys(),
        ) by {
            assert(device_row_matches(res@[i], BINDING_NAMES@[i], BINDING_TEXTS@[i], rows_at(BINDING_ARGS@, i)));
            if i == 0 {
            } else if i == 1 {
            } else if i == 2 {
            } else if i == 3 {
                reveal_strlit("mach");
                assert(binding_input_keys()[0] == "mach"@);
                assert(binding_output_keys()[1] == "area_ratio"@);
            } else if i == 4 {
                reveal_strlit("area_ratio");
                assert(binding_input_keys()[1] == "area_ratio"@);
                assert(binding_output_keys()[0] == "mach"@);
            } else if i == 5 {
                reveal_strlit("mach");
                assert(binding_input_keys()[0] == "mach"@);
                assert(binding_output_keys()[2] == "pressure_ratio"@);
            } else if i == 6 {
                reveal_strlit("mach");
                assert(binding_input_keys()[0] == "mach"@);
                assert(binding_output_keys()[3] == "temperature_ratio"@);
            } else if i == 7 {
                reveal_strlit("mach");
                assert(binding_input_keys()[0] == "mach"@);
                assert(binding_output_keys()[4] == "density_ratio"@);
            }
        }
    }
    res
}


/// What the device's generation metadata holds: its names, route, modes,
/// outputs, equation dependencies, page sections and bindings.
pub open spec fn generation_spec_fields(spec: DeviceGenerationSpec) -> bool {
    &&& spec.key@ == "nozzle_flow_calc"@
    &&& spec.name@ == "Nozzle Flow Calculator"@
    &&& spec.summary@ == "Calculator-style quasi-1D nozzle device: solve isentropic nozzle input kinds to target kinds through Mach pivot orchestration."@
    &&& spec.route@ == "devices/nozzle_flow_calc.md"@
    &&& texts(spec.supported_modes@) == seq!["Input kinds: Mach, A/A*, p/p0, T/T0, rho/rho0"@, "Branch-aware inversion for A/A* -> Mach"@, "Optional stagnation-reference scaling for static p/T/rho outputs"@]
    &&& texts(spec.outputs@) == seq!["value_si"@, "pivot_mach"@, "path diagnostics"@]
    &&& texts(spec.equation_dependencies@) == seq!["compressible.area_mach"@, "compressible.isentropic_pressure_ratio"@, "compressible.isentropic_temperature_ratio"@, "compressible.isentropic_density_ratio"@]
    &&& spec.binding_markdown == BINDINGS_MD
    &&& spec.overview_markdown == OVERVIEW_MD
    &&& spec.binding_functions.len() == 8
    &&& bindings_ok(spec.binding_functions@)
    &&& device_table_bindings(spec.binding_functions@, BINDING_NAMES@, BINDING_TEXTS@, BINDING_ARGS@)
}

/// The documentation and binding metadata of the device.
pub fn generation_spec() -> (spec: DeviceGenerationSpec)
    ensures
        generation_spec_fields(spec),
{
    let spec = DeviceGenerationSpec {
        key: "nozzle_flow_calc",
        name: "Nozzle Flow Calculator",
        summary: "Calculator-style quasi-1D nozzle device: solve isentropic nozzle input kinds to target kinds through Mach pivot orchestration.",
        supported_modes: vec!["Input kinds: Mach, A/A*, p/p0, T/T0, rho/rho0", "Branch-aware inversion for A/A* -> Mach", "Optional stagnation-reference scaling for static p/T/rho outputs"],
        outputs: vec!["value_si", "pivot_mach", "path diagnostics"],
        route: "devices/nozzle_flow_calc.md",
        binding_markdown: BINDINGS_MD,
        overview_markdown: OVERVIEW_MD,
        equation_dependencies: vec![
            "compressible.area_mach",
            "compressible.isentropic_pressure_ratio",
            "compressible.isentropic_temperature_ratio",
            "compressible.isentropic_density_ratio",
        ],
        binding_functions: binding_functions(),
    };
    assert(texts(spec.supported_modes@) =~= seq!["Input kinds: Mach, A/A*, p/p0, T/T0, rho/rho0"@, "Branch-aware inversion for A/A* -> Mach"@, "Optional stagnation-reference scaling for static p/T/rho outputs"@]);
    assert(texts(spec.outputs@) =~= seq!["value_si"@, "pivot_mach"@, "path diagnostics"@]);
    assert(texts(spec.equation_dependencies@) =~= seq!["compressible.area_mach"@, "compressible.isentropic_pressure_ratio"@, "compressible.isentropic_temperature_ratio"@, "compressible.isentropic_density_ratio"@]);
    spec
}

/// The kinds that a binding fixes are accepted by the device's parsers.
pub proof fn binding_fixed_kinds_parse(fixed: Seq<(&'static str, &'static str)>)
    requires
        fixed_kinds_in(fixed, binding_input_keys(), binding_output_keys()),
        fixed.len() == 2,
    ensures
        input_kind_of(normalize_seq(fixed[0].1@)) is Some,
        output_kind_of(normalize_seq(fixed[1].1@)) is Some,
{
    advertised_keys_parse();
    let j = choose|j: int| 0 <= j < binding_input_keys().len() && binding_input_keys()[j] == fixed[0].1@;
    let k = choose|k: int| 0 <= k < binding_output_keys().len() && binding_output_keys()[k] == fixed[1].1@;
    assert(input_kind_of(normalize_seq(binding_input_keys()[j])) is Some) by {
        if j == 0 {} else if j == 1 {} else if j == 2 {} else if j == 3 {} else if j == 4 {}
    }
    assert(output_kind_of(normalize_seq(binding_output_keys()[k])) is Some) by {
        if k == 0 {} else if k == 1 {} else if k == 2 {} else if k == 3 {} else if k == 4 {} else if k == 5 {} else if k == 6 {} else if k == 7 {}
    }
}


/// Each target's last step solves for the variable whose name, read as a
/// target kind, is that kind; the ratio step of a target uses the equation
/// that the pivot step inverting the same ratio uses, from the Mach number it
/// resolves; a static target scales exactly the ratio its ratio step solved;
/// and two ratio steps use the same equation only when they solve for the
/// same ratio.
pub proof fn target_steps_use_their_kinds_equations(
    o: NozzleFlowOutputKind,
    o2: NozzleFlowOutputKind,
    b: Option<NozzleFlowBranch>,
    b2: Option<NozzleFlowBranch>,
    i: NozzleFlowInputKind,
    bi: NozzleFlowBranch,
)
    ensures
        target_spec(o, b).len() == 0 <==> o == NozzleFlowOutputKind::Mach,
        target_spec(o, b).len() > 0 ==> output_kind_of(lower_seq(target_spec(o, b).last().solved)) == Some(o),
        ratio_step_spec(o, b) matches Some(t) ==> t.inputs[0] == "M"@ && (pivot_spec(i, Some(bi)) matches Ok(Some(p)) ==> (
        p.inputs[0] == t.solved ==> t.id == p.id && p.solved == t.inputs[0])),
        scale_step_spec(o) matches Some(c) ==> (ratio_step_spec(o, b) matches Some(t) && c.inputs[0] == t.solved),
        ratio_step_spec(o, b) matches Some(t) ==> (ratio_step_spec(o2, b2) matches Some(t2) ==> (t.id == t2.id <==> t.solved
            == t2.solved)),
{
    reveal_strlit("M");
    reveal_strlit("T_T0");
    reveal_strlit("a/a*");
    reveal_strlit("a_astar");
    reveal_strlit("area_ratio");
    reveal_strlit("compressible.area_mach");
    reveal_strlit("compressible.isentropic_density_ratio");
    reveal_strlit("compressible.isentropic_pressure_ratio");
    reveal_strlit("compressible.isentropic_temperature_ratio");
    reveal_strlit("density_ratio");
    reveal_strlit("devices.nozzle_flow_calc.reference_scale");
    reveal_strlit("gamma");
    reveal_strlit("m");
    reveal_strlit("mach");
    reveal_strlit("p");
    reveal_strlit("p/p0");
    reveal_strlit("p0");
    reveal_strlit("p_p0");
    reveal_strlit("pressure_ratio");
    reveal_strlit("rho");
    reveal_strlit("rho/rho0");
    reveal_strlit("rho0");
    reveal_strlit("rho_rho0");
    reveal_strlit("static_density");
    reveal_strlit("static_pressure");
    reveal_strlit("static_temperature");
    reveal_strlit("t");
    reveal_strlit("t/t0");
    reveal_strlit("t0");
    reveal_strlit("t_t0");
    reveal_strlit("temperature_ratio");
    match o {
        NozzleFlowOutputKind::Mach => {},
        NozzleFlowOutputKind::AreaRatio => {
            assert(lower_seq("area_ratio"@) =~= "area_ratio"@);
            assert("area_ratio"@.len() != "mach"@.len());
            assert("area_ratio"@.len() != "m"@.len());
            assert(output_kind_of("area_ratio"@) == Some(NozzleFlowOutputKind::AreaRatio));
            assert("area_ratio"@.len() != "p_p0"@.len());
            assert("area_ratio"@.len() != "T_T0"@.len());
            assert("area_ratio"@.len() != "rho_rho0"@.len());
        },
        NozzleFlowOutputKind::PressureRatio => {
            assert(lower_seq("p_p0"@) =~= "p_p0"@);
            assert("p_p0"@[0] != "mach"@[0]);
            assert("p_p0"@.len() != "m"@.len());
            assert("p_p0"@.len() != "area_ratio"@.len());
            assert("p_p0"@.len() != "a_astar"@.len());
            assert("p_p0"@[0] != "a/a*"@[0]);
            assert("p_p0"@.len() != "pressure_ratio"@.len());
            assert(output_kind_of("p_p0"@) == Some(NozzleFlowOutputKind::PressureRatio));
            assert("p_p0"@.len() != "area_ratio"@.len());
            assert("p_p0"@[0] != "T_T0"@[0]);
            assert("p_p0"@.len() != "rho_rho0"@.len());
        },
        NozzleFlowOutputKind::TemperatureRatio => {
            assert(lower_seq("T_T0"@) =~= "t_t0"@);
            assert("t_t0"@[0] != "mach"@[0]);
            assert("t_t0"@.len() != "m"@.len());
            assert("t_t0"@.len() != "area_ratio"@.len());
            assert("t_t0"@.len() != "a_astar"@.len());
            assert("t_t0"@[0] != "a/a*"@[0]);
            assert("t_t0"@.len() != "pressure_ratio"@.len());
            assert("t_t0"@[0] != "p_p0"@[0]);
            assert("t_t0"@[0] != "p/p0"@[0]);
            assert("t_t0"@.len() != "temperature_ratio"@.len());
            assert(output_kind_of("t_t0"@) == Some(NozzleFlowOutputKind::TemperatureRatio));
            assert("T_T0"@.len() != "area_ratio"@.len());
            assert("T_T0"@[0] != "p_p0"@[0]);
            assert("T_T0"@.len() != "rho_rho0"@.len());
        },
        NozzleFlowOutputKind::DensityRatio => {
            assert(lower_seq("rho_rho0"@) =~= "rho_rho0"@);
            assert("rho_rho0"@.len() != "mach"@.len());
            assert("rho_rho0"@.len() != "m"@.len());
            assert("rho_rho0"@.len() != "area_ratio"@.len());
            assert("rho_rho0"@.len() != "a_astar"@.len());
            assert("rho_rho0"@.len() != "a/a*"@.len());
            assert("rho_rho0"@.len() != "pressure_ratio"@.len());
            assert("rho_rho0"@.len() != "p_p0"@.len());
            assert("rho_rho0"@.len() != "p/p0"@.len());
            assert("rho_rho0"@.len() != "temperature_ratio"@.len());
            assert("rho_rho0"@.len() != "t_t0"@.len());
            assert("rho_rho0"@.len() != "t/t0"@.len());
            assert("rho_rho0"@.len() != "density_ratio"@.len());
            assert(output_kind_of("rho_rho0"@) == Some(NozzleFlowOutputKind::DensityRatio));
            assert("rho_rho0"@.len() != "area_ratio"@.len());
            assert("rho_rho0"@.len() != "p_p0"@.len());
            assert("rho_rho0"@.len() != "T_T0"@.len());
        },
        NozzleFlowOutputKind::StaticPressure => {
            assert(lower_seq("p"@) =~= "p"@);
            assert("p"@.len() != "mach"@.len());
            assert("p"@[0] != "m"@[0]);
            assert("p"@.len() != "area_ratio"@.len());
            assert("p"@.len() != "a_astar"@.len());
            assert("p"@.len() != "a/a*"@.len());
            assert("p"@.len() != "pressure_ratio"@.len());
            assert("p"@.len() != "p_p0"@.len());
            assert("p"@.len() != "p/p0"@.len());
            assert("p"@.len() != "temperature_ratio"@.len());
            assert("p"@.len() != "t_t0"@.len());
            assert("p"@.len() != "t/t0"@.len());
            assert("p"@.len() != "density_ratio"@.len());
            assert("p"@.len() != "rho_rho0"@.len());
            assert("p"@.len() != "rho/rho0"@.len());
            assert(output_kind_of("p"@) == Some(NozzleFlowOutputKind::StaticPressure));
            assert("p"@.len() != "area_ratio"@.len());
            assert("p"@.len() != "p_p0"@.len());
            assert("p"@.len() != "T_T0"@.len());
            assert("p"@.len() != "rho_rho0"@.len());
        },
        NozzleFlowOutputKind::StaticTemperature => {
            assert(lower_seq("t"@) =~= "t"@);
            assert("t"@.len() != "mach"@.len());
            assert("t"@[0] != "m"@[0]);
            assert("t"@.len() != "area_ratio"@.len());
            assert("t"@.len() != "a_astar"@.len());
            assert("t"@.len() != "a/a*"@.len());
            assert("t"@.len() != "pressure_ratio"@.len());
            assert("t"@.len() != "p_p0"@.len());
            assert("t"@.len() != "p/p0"@.len());
            assert("t"@.len() != "temperature_ratio"@.len());
            assert("t"@.len() != "t_t0"@.len());
            assert("t"@.len() != "t/t0"@.len());
            assert("t"@.len() != "density_ratio"@.len());
            assert("t"@.len() != "rho_rho0"@.len());
            assert("t"@.len() != "rho/rho0"@.len());
            assert("t"@[0] != "p"@[0]);
            assert("t"@.len() != "static_pressure"@.len());
            assert(output_kind_of("t"@) == Some(NozzleFlowOutputKind::StaticTemperature));
            assert("t"@.len() != "area_ratio"@.len());
            assert("t"@.len() != "p_p0"@.len());
            assert("t"@.len() != "T_T0"@.len());
            assert("t"@.len() != "rho_rho0"@.len());
        },
        NozzleFlowOutputKind::StaticDensity => {
            assert(lower_seq("rho"@) =~= "rho"@);
            assert("rho"@.len() != "mach"@.len());
            assert("rho"@.len() != "m"@.len());
            assert("rho"@.len() != "area_ratio"@.len());
            assert("rho"@.len() != "a_astar"@.len());
            assert("rho"@.len() != "a/a*"@.len());
            assert("rho"@.len() != "pressure_ratio"@.len());
            assert("rho"@.len() != "p_p0"@.len());
            assert("rho"@.len() != "p/p0"@.len());
            assert("rho"@.len() != "temperature_ratio"@.len());
            assert("rho"@.len() != "t_t0"@.len());
            assert("rho"@.len() != "t/t0"@.len());
            assert("rho"@.len() != "density_ratio"@.len());
            assert("rho"@.len() != "rho_rho0"@.len());
            assert("rho"@.len() != "rho/rho0"@.len());
            assert("rho"@.len() != "p"@.len());
            assert("rho"@.len() != "static_pressure"@.len());
            assert("rho"@.len() != "t"@.len());
            assert("rho"@.len() != "static_temperature"@.len());
            assert(output_kind_of("rho"@) == Some(NozzleFlowOutputKind::StaticDensity));
            assert("rho"@.len() != "area_ratio"@.len());
            assert("rho"@.len() != "p_p0"@.len());
            assert("rho"@.len() != "T_T0"@.len());
            assert("rho"@.len() != "rho_rho0"@.len());
        },
    }
    assert("compressible.area_mach"@.len() != "compressible.isentropic_pressure_ratio"@.len());
    assert("compressible.area_mach"@.len() != "compressible.isentropic_temperature_ratio"@.len());
    assert("compressible.area_mach"@.len() != "compressible.isentropic_density_ratio"@.len());
    assert("compressible.isentropic_pressure_ratio"@.len() != "compressible.isentropic_temperature_ratio"@.len());
    assert("compressible.isentropic_pressure_ratio"@.len() != "compressible.isentropic_density_ratio"@.len());
    assert("compressible.isentropic_temperature_ratio"@.len() != "compressible.isentropic_density_ratio"@.len());
    assert("area_ratio"@.len() != "p_p0"@.len());
    assert("area_ratio"@.len() != "T_T0"@.len());
    assert("area_ratio"@.len() != "rho_rho0"@.len());
    assert("p_p0"@[0] != "T_T0"@[0]);
    assert("p_p0"@.len() != "rho_rho0"@.len());
    assert("T_T0"@.len() != "rho_rho0"@.len());
}


/// The pivot step of each input kind inverts the equation for the variable
/// that names that kind, read as an input kind, and solves for the pivot; only
/// the pivot itself as input needs no step.
pub proof fn pivot_steps_invert_their_kinds_variable(i: NozzleFlowInputKind, b: NozzleFlowBranch)
    ensures
        pivot_spec(i, Some(b)) == Ok::<Option<StepView>, RouteFailure>(None) <==> i == NozzleFlowInputKind::Mach,
        pivot_spec(i, Some(b)) matches Ok(Some(p)) ==> input_kind_of(lower_seq(p.inputs[0])) == Some(i) && p.solved == "M"@,
{
    reveal_strlit("M");
    reveal_strlit("T_T0");
    reveal_strlit("a/a*");
    reveal_strlit("a_astar");
    reveal_strlit("area_ratio");
    reveal_strlit("compressible.area_mach");
    reveal_strlit("compressible.isentropic_density_ratio");
    reveal_strlit("compressible.isentropic_pressure_ratio");
    reveal_strlit("compressible.isentropic_temperature_ratio");
    reveal_strlit("density_ratio");
    reveal_strlit("gamma");
    reveal_strlit("m");
    reveal_strlit("mach");
    reveal_strlit("p/p0");
    reveal_strlit("p_p0");
    reveal_strlit("pressure_ratio");
    reveal_strlit("rho/rho0");
    reveal_strlit("rho_rho0");
    reveal_strlit("t/t0");
    reveal_strlit("t_t0");
    reveal_strlit("temperature_ratio");
    match i {
        NozzleFlowInputKind::Mach => {},
        NozzleFlowInputKind::AreaRatio => {
            assert(lower_seq("area_ratio"@) =~= "area_ratio"@);
            assert("area_ratio"@.len() != "mach"@.len());
            assert("area_ratio"@.len() != "m"@.len());
            assert(input_kind_of("area_ratio"@) == Some(NozzleFlowInputKind::AreaRatio));
        },
        NozzleFlowInputKind::PressureRatio => {
            assert(lower_seq("p_p0"@) =~= "p_p0"@);
            assert("p_p0"@[0] != "mach"@[0]);
            assert("p_p0"@.len() != "m"@.len());
            assert("p_p0"@.len() != "area_ratio"@.len());
            assert("p_p0"@.len() != "a_astar"@.len());
            assert("p_p0"@[0] != "a/a*"@[0]);
            assert("p_p0"@.len() != "pressure_ratio"@.len());
            assert(input_kind_of("p_p0"@) == Some(NozzleFlowInputKind::PressureRatio));
        },
        NozzleFlowInputKind::TemperatureRatio => {
            assert(lower_seq("T_T0"@) =~= "t_t0"@);
            assert("t_t0"@[0] != "mach"@[0]);
            assert("t_t0"@.len() != "m"@.len());
            assert("t_t0"@.len() != "area_ratio"@.len());
            assert("t_t0"@.len() != "a_astar"@.len());
            assert("t_t0"@[0] != "a/a*"@[0]);
            assert("t_t0"@.len() != "pressure_ratio"@.len());
            assert("t_t0"@[0] != "p_p0"@[0]);
            assert("t_t0"@[0] != "p/p0"@[0]);
            assert("t_t0"@.len() != "temperature_ratio"@.len());
            assert(input_kind_of("t_t0"@) == Some(NozzleFlowInputKind::TemperatureRatio));
        },
        NozzleFlowInputKind::DensityRatio => {
            assert(lower_seq("rho_rho0"@) =~= "rho_rho0"@);
            assert("rho_rho0"@.len() != "mach"@.len());
            assert("rho_rho0"@.len() != "m"@.len());
            assert("rho_rho0"@.len() != "area_ratio"@.len());
            assert("rho_rho0"@.len() != "a_astar"@.len());
            assert("rho_rho0"@.len() != "a/a*"@.len());
            assert("rho_rho0"@.len() != "pressure_ratio"@.len());
            assert("rho_rho0"@.len() != "p_p0"@.len());
            assert("rho_rho0"@.len() != "p/p0"@.len());
            assert("rho_rho0"@.len() != "temperature_ratio"@.len());
            assert("rho_rho0"@.len() != "t_t0"@.len());
            assert("rho_rho0"@.len() != "t/t0"@.len());
            assert("rho_rho0"@.len() != "density_ratio"@.len());
            assert(input_kind_of("rho_rho0"@) == Some(NozzleFlowInputKind::DensityRatio));
        },
    }
}

} // verus!
