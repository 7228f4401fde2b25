//! Isentropic calculator: kind vocabulary, key parsing and Mach-pivot routing.
use vstd::prelude::*;
use crate::text::lower_seq;
use crate::text::ends_with_deg;
use crate::devices::framework::{
    assemble, assemble_route, kind, kind_keys, kind_labels, kind_labels_text, names1, names2, opt_step_view,
    planned, route_view, step_result_view, sv, CalculatorDeviceSpec, PlannedStep, RouteError,
    RouteFailure, StepKind, StepView,
};
use crate::strings::join_seq;
use crate::text::{lemma_normalize_canonical, normalize_key, normalize_seq, str_eq};

verus! {

/// Quantity an isentropic calculation starts from (angles in radians).
#[derive(Debug, Clone, Copy, PartialEq, Eq, Structural)]
pub enum IsentropicInputKind {
    Mach,
    MachAngleRad,
    PrandtlMeyerAngleRad,
    PressureRatio,
    TemperatureRatio,
    DensityRatio,
    AreaRatio,
}

/// Quantity an isentropic calculation solves for (angles in radians).
#[derive(Debug, Clone, Copy, PartialEq, Eq, Structural)]
pub enum IsentropicOutputKind {
    Mach,
    MachAngleRad,
    PrandtlMeyerAngleRad,
    PressureRatio,
    TemperatureRatio,
    DensityRatio,
    AreaRatio,
}

/// Root selection for the double-valued area-ratio inversion.
#[derive(Debug, Clone, Copy, PartialEq, Eq, Structural)]
pub enum IsentropicBranch {
    Subsonic,
    Supersonic,
}

pub open spec fn branch_text(b: IsentropicBranch) -> Seq<char> {
    match b {
        IsentropicBranch::Subsonic => "subsonic"@,
        IsentropicBranch::Supersonic => "supersonic"@,
    }
}

impl IsentropicBranch {
    /// The lower-case name of the branch.
    pub fn as_str(self) -> (res: &'static str)
        ensures
            res@ == branch_text(self),
    {
        match self {
            IsentropicBranch::Subsonic => "subsonic",
            IsentropicBranch::Supersonic => "supersonic",
        }
    }
}

/// The input kind (with whether its value is given in degrees) that a normalized key names, if any.
pub open spec fn input_kind_of(k: Seq<char>) -> Option<(IsentropicInputKind, bool)> {
    if k == "mach"@ || k == "m"@ {
        Some((IsentropicInputKind::Mach, false))
    } else if k == "mach_angle"@ || k == "mach_angle_rad"@ || k == "mu"@ || k == "mu_rad"@ {
        Some((IsentropicInputKind::MachAngleRad, false))
    } else if k == "mach_angle_deg"@ || k == "mu_deg"@ {
        Some((IsentropicInputKind::MachAngleRad, true))
    } else if k == "prandtl_meyer_angle"@ || k == "prandtl_meyer_angle_rad"@ || k == "prandtl_meyer"@ || k == "nu"@ || k == "nu_rad"@ {
        Some((IsentropicInputKind::PrandtlMeyerAngleRad, false))
    } else if k == "prandtl_meyer_angle_deg"@ || k == "prandtl_meyer_deg"@ || k == "nu_deg"@ {
        Some((IsentropicInputKind::PrandtlMeyerAngleRad, true))
    } else if k == "pressure_ratio"@ || k == "p_p0"@ || k == "p/p0"@ {
        Some((IsentropicInputKind::PressureRatio, false))
    } else if k == "temperature_ratio"@ || k == "t_t0"@ || k == "t/t0"@ {
        Some((IsentropicInputKind::TemperatureRatio, false))
    } else if k == "density_ratio"@ || k == "rho_rho0"@ || k == "rho/rho0"@ {
        Some((IsentropicInputKind::DensityRatio, false))
    } else if k == "area_ratio"@ || k == "a_astar"@ || k == "a/a*"@ {
        Some((IsentropicInputKind::AreaRatio, false))
    } else {
        None
    }
}

/// An input key gives its value in degrees exactly when it ends in `_deg`.
pub proof fn input_degrees_follow_the_suffix(k: Seq<char>)
    ensures
        input_kind_of(k) matches Some((_, deg)) ==> deg == ends_with_deg(k),
{
    reveal_strlit("a/a*");
    reveal_strlit("a_astar");
    reveal_strlit("area_ratio");
    reveal_strlit("density_ratio");
    reveal_strlit("m");
    reveal_strlit("mach");
    reveal_strlit("mach_angle");
    reveal_strlit("mach_angle_deg");
    reveal_strlit("mach_angle_rad");
    reveal_strlit("mu");
    reveal_strlit("mu_deg");
    reveal_strlit("mu_rad");
    reveal_strlit("nu");
    reveal_strlit("nu_deg");
    reveal_strlit("nu_rad");
    reveal_strlit("p/p0");
    reveal_strlit("p_p0");
    reveal_strlit("prandtl_meyer");
    reveal_strlit("prandtl_meyer_angle");
    reveal_strlit("prandtl_meyer_angle_deg");
    reveal_strlit("prandtl_meyer_angle_rad");
    reveal_strlit("prandtl_meyer_deg");
    reveal_strlit("pressure_ratio");
    reveal_strlit("rho/rho0");
    reveal_strlit("rho_rho0");
    reveal_strlit("t/t0");
    reveal_strlit("t_t0");
    reveal_strlit("temperature_ratio");
}

/// Parses a input kind (with whether its value is given in degrees) name; surrounding whitespace and ASCII case are ignored.
pub fn parse_input_kind(raw: &str) -> (res: Option<(IsentropicInputKind, bool)>)
    ensures
        res == input_kind_of(normalize_seq(raw@)),
{
    let key = normalize_key(raw);
    let k = key.as_str();
    if str_eq(k, "mach") || str_eq(k, "m") {
        Some((IsentropicInputKind::Mach, false))
    } else if str_eq(k, "mach_angle") || str_eq(k, "mach_angle_rad") || str_eq(k, "mu") || str_eq(k, "mu_rad") {
        Some((IsentropicInputKind::MachAngleRad, false))
    } else if str_eq(k, "mach_angle_deg") || str_eq(k, "mu_deg") {
        Some((IsentropicInputKind::MachAngleRad, true))
    } else if str_eq(k, "prandtl_meyer_angle") || str_eq(k, "prandtl_meyer_angle_rad") || str_eq(k, "prandtl_meyer") || str_eq(k, "nu") || str_eq(k, "nu_rad") {
        Some((IsentropicInputKind::PrandtlMeyerAngleRad, false))
    } else if str_eq(k, "prandtl_meyer_angle_deg") || str_eq(k, "prandtl_meyer_deg") || str_eq(k, "nu_deg") {
        Some((IsentropicInputKind::PrandtlMeyerAngleRad, true))
    } else if str_eq(k, "pressure_ratio") || str_eq(k, "p_p0") || str_eq(k, "p/p0") {
        Some((IsentropicInputKind::PressureRatio, false))
    } else if str_eq(k, "temperature_ratio") || str_eq(k, "t_t0") || str_eq(k, "t/t0") {
        Some((IsentropicInputKind::TemperatureRatio, false))
    } else if str_eq(k, "density_ratio") || str_eq(k, "rho_rho0") || str_eq(k, "rho/rho0") {
        Some((IsentropicInputKind::DensityRatio, false))
    } else if str_eq(k, "area_ratio") || str_eq(k, "a_astar") || str_eq(k, "a/a*") {
        Some((IsentropicInputKind::AreaRatio, false))
    } else {
        None
    }
}

/// The output kind (with whether the result is wanted in degrees) that a normalized key names, if any.
pub open spec fn output_kind_of(k: Seq<char>) -> Option<(IsentropicOutputKind, bool)> {
    if k == "mach"@ || k == "m"@ {
        Some((IsentropicOutputKind::Mach, false))
    } else if k == "mach_angle"@ || k == "mach_angle_rad"@ || k == "mu"@ || k == "mu_rad"@ {
        Some((IsentropicOutputKind::MachAngleRad, false))
    } else if k == "mach_angle_deg"@ || k == "mu_deg"@ {
        Some((IsentropicOutputKind::MachAngleRad, true))
    } else if k == "prandtl_meyer_angle"@ || k == "prandtl_meyer_angle_rad"@ || k == "prandtl_meyer"@ || k == "nu"@ || k == "nu_rad"@ {
        Some((IsentropicOutputKind::PrandtlMeyerAngleRad, false))
    } else if k == "prandtl_meyer_angle_deg"@ || k == "prandtl_meyer_deg"@ || k == "nu_deg"@ {
        Some((IsentropicOutputKind::PrandtlMeyerAngleRad, true))
    } else if k == "pressure_ratio"@ || k == "p_p0"@ || k == "p/p0"@ {
        Some((IsentropicOutputKind::PressureRatio, false))
    } else if k == "temperature_ratio"@ || k == "t_t0"@ || k == "t/t0"@ {
        Some((IsentropicOutputKind::TemperatureRatio, false))
    } else if k == "density_ratio"@ || k == "rho_rho0"@ || k == "rho/rho0"@ {
        Some((IsentropicOutputKind::DensityRatio, false))
    } else if k == "area_ratio"@ || k == "a_astar"@ || k == "a/a*"@ {
        Some((IsentropicOutputKind::AreaRatio, false))
    } else {
        None
    }
}

/// An output key asks for degrees exactly when it ends in `_deg`.
pub proof fn output_degrees_follow_the_suffix(k: Seq<char>)
    ensures
        output_kind_of(k) matches Some((_, deg)) ==> deg == ends_with_deg(k),
{
    reveal_strlit("a/a*");
    reveal_strlit("a_astar");
    reveal_strlit("area_ratio");
    reveal_strlit("density_ratio");
    reveal_strlit("m");
    reveal_strlit("mach");
    reveal_strlit("mach_angle");
    reveal_strlit("mach_angle_deg");
    reveal_strlit("mach_angle_rad");
    reveal_strlit("mu");
    reveal_strlit("mu_deg");
    reveal_strlit("mu_rad");
    reveal_strlit("nu");
    reveal_strlit("nu_deg");
    reveal_strlit("nu_rad");
    reveal_strlit("p/p0");
    reveal_strlit("p_p0");
    reveal_strlit("prandtl_meyer");
    reveal_strlit("prandtl_meyer_angle");
    reveal_strlit("prandtl_meyer_angle_deg");
    reveal_strlit("prandtl_meyer_angle_rad");
    reveal_strlit("prandtl_meyer_deg");
    reveal_strlit("pressure_ratio");
    reveal_strlit("rho/rho0");
    reveal_strlit("rho_rho0");
    reveal_strlit("t/t0");
    reveal_strlit("t_t0");
    reveal_strlit("temperature_ratio");
}

/// Parses a output kind (with whether the result is wanted in degrees) name; surrounding whitespace and ASCII case are ignored.
pub fn parse_output_kind(raw: &str) -> (res: Option<(IsentropicOutputKind, bool)>)
    ensures
        res == output_kind_of(normalize_seq(raw@)),
{
    let key = normalize_key(raw);
    let k = key.as_str();
    if str_eq(k, "mach") || str_eq(k, "m") {
        Some((IsentropicOutputKind::Mach, false))
    } else if str_eq(k, "mach_angle") || str_eq(k, "mach_angle_rad") || str_eq(k, "mu") || str_eq(k, "mu_rad") {
        Some((IsentropicOutputKind::MachAngleRad, false))
    } else if str_eq(k, "mach_angle_deg") || str_eq(k, "mu_deg") {
        Some((IsentropicOutputKind::MachAngleRad, true))
    } else if str_eq(k, "prandtl_meyer_angle") || str_eq(k, "prandtl_meyer_angle_rad") || str_eq(k, "prandtl_meyer") || str_eq(k, "nu") || str_eq(k, "nu_rad") {
        Some((IsentropicOutputKind::PrandtlMeyerAngleRad, false))
    } else if str_eq(k, "prandtl_meyer_angle_deg") || str_eq(k, "prandtl_meyer_deg") || str_eq(k, "nu_deg") {
        Some((IsentropicOutputKind::PrandtlMeyerAngleRad, true))
    } else if str_eq(k, "pressure_ratio") || str_eq(k, "p_p0") || str_eq(k, "p/p0") {
        Some((IsentropicOutputKind::PressureRatio, false))
    } else if str_eq(k, "temperature_ratio") || str_eq(k, "t_t0") || str_eq(k, "t/t0") {
        Some((IsentropicOutputKind::TemperatureRatio, false))
    } else if str_eq(k, "density_ratio") || str_eq(k, "rho_rho0") || str_eq(k, "rho/rho0") {
        Some((IsentropicOutputKind::DensityRatio, false))
    } else if str_eq(k, "area_ratio") || str_eq(k, "a_astar") || str_eq(k, "a/a*") {
        Some((IsentropicOutputKind::AreaRatio, false))
    } else {
        None
    }
}

/// The branch that a normalized key names, if any.
pub open spec fn branch_of(k: Seq<char>) -> Option<IsentropicBranch> {
    if k == "subsonic"@ {
        Some(IsentropicBranch::Subsonic)
    } else if k == "supersonic"@ {
        Some(IsentropicBranch::Supersonic)
    } else {
        None
    }
}

/// Parses a branch name; surrounding whitespace and ASCII case are ignored.
pub fn parse_branch(raw: &str) -> (res: Option<IsentropicBranch>)
    ensures
        res == branch_of(normalize_seq(raw@)),
{
    let key = normalize_key(raw);
    let k = key.as_str();
    if str_eq(k, "subsonic") {
        Some(IsentropicBranch::Subsonic)
    } else if str_eq(k, "supersonic") {
        Some(IsentropicBranch::Supersonic)
    } else {
        None
    }
}

pub open spec fn input_kind_name(kind: IsentropicInputKind) -> Seq<char> {
    match kind {
        IsentropicInputKind::Mach => "Mach"@,
        IsentropicInputKind::MachAngleRad => "MachAngleRad"@,
        IsentropicInputKind::PrandtlMeyerAngleRad => "PrandtlMeyerAngleRad"@,
        IsentropicInputKind::PressureRatio => "PressureRatio"@,
        IsentropicInputKind::TemperatureRatio => "TemperatureRatio"@,
        IsentropicInputKind::DensityRatio => "DensityRatio"@,
        IsentropicInputKind::AreaRatio => "AreaRatio"@,
    }
}

/// The name under which errors report an input kind.
pub fn input_kind_label(kind: IsentropicInputKind) -> (res: &'static str)
    ensures
        res@ == input_kind_name(kind),
{
    match kind {
        IsentropicInputKind::Mach => "Mach",
        IsentropicInputKind::MachAngleRad => "MachAngleRad",
        IsentropicInputKind::PrandtlMeyerAngleRad => "PrandtlMeyerAngleRad",
        IsentropicInputKind::PressureRatio => "PressureRatio",
        IsentropicInputKind::TemperatureRatio => "TemperatureRatio",
        IsentropicInputKind::DensityRatio => "DensityRatio",
        IsentropicInputKind::AreaRatio => "AreaRatio",
    }
}

/// The step that resolves the pivot Mach number from the input kind.
pub open spec fn pivot_spec(kind: IsentropicInputKind, branch: Option<IsentropicBranch>) -> Result<Option<StepView>, RouteFailure> {
    match kind {
        IsentropicInputKind::Mach => Ok(None),
        IsentropicInputKind::MachAngleRad => Ok(Some(sv(StepKind::Equation, "compressible.mach_angle"@, "M"@, seq!["mu"@], None))),
        IsentropicInputKind::PrandtlMeyerAngleRad => Ok(Some(sv(StepKind::Equation, "compressible.prandtl_meyer"@, "M"@, seq!["nu"@, "gamma"@], None))),
        IsentropicInputKind::PressureRatio => Ok(Some(sv(StepKind::Equation, "compressible.isentropic_pressure_ratio"@, "M"@, seq!["p_p0"@, "gamma"@], None))),
        IsentropicInputKind::TemperatureRatio => Ok(Some(sv(StepKind::Equation, "compressible.isentropic_temperature_ratio"@, "M"@, seq!["T_T0"@, "gamma"@], None))),
        IsentropicInputKind::DensityRatio => Ok(Some(sv(StepKind::Equation, "compressible.isentropic_density_ratio"@, "M"@, seq!["rho_rho0"@, "gamma"@], None))),
        IsentropicInputKind::AreaRatio => match branch {
            None => Err(RouteFailure::MissingBranch(input_kind_name(kind))),
            Some(b) => Ok(Some(sv(StepKind::Equation, "compressible.area_mach"@, "M"@, seq!["area_ratio"@, "gamma"@], Some(branch_text(b))))),
        },
    }
}

/// The step that resolves the pivot Mach number from the input kind.
pub fn pivot_step(kind: IsentropicInputKind, branch: Option<IsentropicBranch>) -> (res: Result<Option<PlannedStep>, RouteError>)
    ensures
        step_result_view(res) == pivot_spec(kind, branch),
{
    match kind {
        IsentropicInputKind::Mach => Ok(None),
        IsentropicInputKind::MachAngleRad => Ok(Some(planned(StepKind::Equation, "compressible.mach_angle", "M", names1("mu"), None))),
        IsentropicInputKind::PrandtlMeyerAngleRad => Ok(Some(planned(StepKind::Equation, "compressible.prandtl_meyer", "M", names2("nu", "gamma"), None))),
        IsentropicInputKind::PressureRatio => Ok(Some(planned(StepKind::Equation, "compressible.isentropic_pressure_ratio", "M", names2("p_p0", "gamma"), None))),
        IsentropicInputKind::TemperatureRatio => Ok(Some(planned(StepKind::Equation, "compressible.isentropic_temperature_ratio", "M", names2("T_T0", "gamma"), None))),
        IsentropicInputKind::DensityRatio => Ok(Some(planned(StepKind::Equation, "compressible.isentropic_density_ratio", "M", names2("rho_rho0", "gamma"), None))),
        IsentropicInputKind::AreaRatio => match branch {
            None => Err(RouteError::MissingBranch { kind: input_kind_label(kind) }),
            Some(b) => Ok(Some(planned(StepKind::Equation, "compressible.area_mach", "M", names2("area_ratio", "gamma"), Some(b.as_str())))),
        },
    }
}

/// The step that evaluates the target kind at the pivot Mach number.
pub open spec fn target_spec(kind: IsentropicOutputKind, branch: Option<IsentropicBranch>) -> Option<StepView> {
    match kind {
        IsentropicOutputKind::Mach => None,
        IsentropicOutputKind::MachAngleRad => Some(sv(StepKind::Equation, "compressible.mach_angle"@, "mu"@, seq!["M"@], None)),
        IsentropicOutputKind::PrandtlMeyerAngleRad => Some(sv(StepKind::Equation, "compressible.prandtl_meyer"@, "nu"@, seq!["M"@, "gamma"@], None)),
        IsentropicOutputKind::PressureRatio => Some(sv(StepKind::Equation, "compressible.isentropic_pressure_ratio"@, "p_p0"@, seq!["M"@, "gamma"@], None)),
        IsentropicOutputKind::TemperatureRatio => Some(sv(StepKind::Equation, "compressible.isentropic_temperature_ratio"@, "T_T0"@, seq!["M"@, "gamma"@], None)),
        IsentropicOutputKind::DensityRatio => Some(sv(StepKind::Equation, "compressible.isentropic_density_ratio"@, "rho_rho0"@, seq!["M"@, "gamma"@], None)),
        IsentropicOutputKind::AreaRatio => Some(sv(StepKind::Equation, "compressible.area_mach"@, "area_ratio"@, seq!["M"@, "gamma"@], match branch { Some(b) => Some(branch_text(b)), None => None })),
    }
}

/// The step that evaluates the target kind at the pivot Mach number.
pub fn target_step(kind: IsentropicOutputKind, branch: Option<IsentropicBranch>) -> (res: Option<PlannedStep>)
    ensures
        opt_step_view(res) == target_spec(kind, branch),
{
    match kind {
        IsentropicOutputKind::Mach => None,
        IsentropicOutputKind::MachAngleRad => Some(planned(StepKind::Equation, "compressible.mach_angle", "mu", names1("M"), None)),
        IsentropicOutputKind::PrandtlMeyerAngleRad => Some(planned(StepKind::Equation, "compressible.prandtl_meyer", "nu", names2("M", "gamma"), None)),
        IsentropicOutputKind::PressureRatio => Some(planned(StepKind::Equation, "compressible.isentropic_pressure_ratio", "p_p0", names2("M", "gamma"), None)),
        IsentropicOutputKind::TemperatureRatio => Some(planned(StepKind::Equation, "compressible.isentropic_temperature_ratio", "T_T0", names2("M", "gamma"), None)),
        IsentropicOutputKind::DensityRatio => Some(planned(StepKind::Equation, "compressible.isentropic_density_ratio", "rho_rho0", names2("M", "gamma"), None)),
        IsentropicOutputKind::AreaRatio => Some(planned(StepKind::Equation, "compressible.area_mach", "area_ratio", names2("M", "gamma"), match branch { Some(b) => Some(b.as_str()), None => None })),
    }
}

/// The keys under which the device advertises its kinds.
pub open spec fn advertised_keys() -> Seq<Seq<char>> {
    seq!["mach"@, "mach_angle_deg"@, "prandtl_meyer_angle_deg"@, "pressure_ratio"@, "temperature_ratio"@, "density_ratio"@, "area_ratio"@]
}

/// The static description of the isentropic calculator.
pub fn device_spec() -> (res: CalculatorDeviceSpec)
    ensures
        res.key@ == "isentropic_calc"@,
        res.name@ == "Isentropic Calculator"@,
        res.summary@ == "Calculator-style compressible device: solve any supported isentropic input to any supported output through Mach pivot orchestration."@,
        res.route@ == "devices/isentropic_calc.md"@,
        res.pivot_label@ == "Mach"@,
        kind_keys(res.input_kinds@) == kind_keys(res.output_kinds@),
        kind_labels(res.input_kinds@) == kind_labels(res.output_kinds@),
        kind_keys(res.input_kinds@) == advertised_keys(),
        kind_labels(res.input_kinds@) == seq!["Mach"@, "Mach angle (deg)"@, "Prandtl-Meyer angle (deg)"@, "p/p0"@, "T/T0"@, "rho/rho0"@, "A/A*"@],
        crate::strings::str_views(res.branches@) == seq!["subsonic"@, "supersonic"@],
{
    let kinds = vec![
        kind("mach", "Mach"),
        kind("mach_angle_deg", "Mach angle (deg)"),
        kind("prandtl_meyer_angle_deg", "Prandtl-Meyer angle (deg)"),
        kind("pressure_ratio", "p/p0"),
        kind("temperature_ratio", "T/T0"),
        kind("density_ratio", "rho/rho0"),
        kind("area_ratio", "A/A*"),
    ];
    let res = CalculatorDeviceSpec {
        key: "isentropic_calc",
        name: "Isentropic Calculator",
        summary: "Calculator-style compressible device: solve any supported isentropic input to any supported output through Mach pivot orchestration.",
        route: "devices/isentropic_calc.md",
        pivot_label: "Mach",
        input_kinds: kinds.clone(),
        output_kinds: kinds,
        branches: names2("subsonic", "supersonic"),
    };
    assert(kind_keys(res.input_kinds@) =~= seq!["mach"@, "mach_angle_deg"@, "prandtl_meyer_angle_deg"@, "pressure_ratio"@, "temperature_ratio"@, "density_ratio"@, "area_ratio"@]);
    assert(kind_labels(res.input_kinds@) =~= seq!["Mach"@, "Mach angle (deg)"@, "Prandtl-Meyer angle (deg)"@, "p/p0"@, "T/T0"@, "rho/rho0"@, "A/A*"@]);
    res
}

/// The labels of the supported input kinds, joined by `, `.
pub fn supported_input_kinds_text() -> (res: String)
    ensures
        res@ == join_seq(seq!["Mach"@, "Mach angle (deg)"@, "Prandtl-Meyer angle (deg)"@, "p/p0"@, "T/T0"@, "rho/rho0"@, "A/A*"@], ", "@),
{
    let spec = device_spec();
    kind_labels_text(&spec.input_kinds)
}

/// The whole solve route: the pivot step (if the input is not a Mach number)
/// followed by the target step (if the target is not the Mach number).
pub open spec fn route_spec(input: IsentropicInputKind, target: IsentropicOutputKind, branch: Option<IsentropicBranch>) -> Result<Seq<StepView>, RouteFailure> {
    assemble(pivot_spec(input, branch), target_spec(target, branch))
}

/// Plans the equation steps of an isentropic calculation.
pub fn route(input: IsentropicInputKind, target: IsentropicOutputKind, branch: Option<IsentropicBranch>) -> (res: Result<Vec<PlannedStep>, RouteError>)
    ensures
        route_view(res) == route_spec(input, target, branch),
{
    let p = pivot_step(input, branch);
    let t = target_step(target, branch);
    assemble_route(p, t)
}

/// Reading back a branch's own name gives that branch.
pub proof fn branch_name_round_trip(b: IsentropicBranch)
    ensures
        branch_of(normalize_seq(branch_text(b))) == Some(b),
{
    reveal_strlit("subsonic");
    reveal_strlit("supersonic");
    lemma_normalize_canonical("subsonic"@);
    lemma_normalize_canonical("supersonic"@);
}

/// Every advertised key is accepted by both kind parsers; the two angle keys
/// are read in degrees.
pub proof fn advertised_keys_parse()
    ensures
        input_kind_of(normalize_seq(advertised_keys()[0])) == Some((IsentropicInputKind::Mach, false)),
        input_kind_of(normalize_seq(advertised_keys()[1])) == Some((IsentropicInputKind::MachAngleRad, true)),
        input_kind_of(normalize_seq(advertised_keys()[2])) == Some((IsentropicInputKind::PrandtlMeyerAngleRad, true)),
        input_kind_of(normalize_seq(advertised_keys()[3])) == Some((IsentropicInputKind::PressureRatio, false)),
        input_kind_of(normalize_seq(advertised_keys()[4])) == Some((IsentropicInputKind::TemperatureRatio, false)),
        input_kind_of(normalize_seq(advertised_keys()[5])) == Some((IsentropicInputKind::DensityRatio, false)),
        input_kind_of(normalize_seq(advertised_keys()[6])) == Some((IsentropicInputKind::AreaRatio, false)),
        output_kind_of(normalize_seq(advertised_keys()[0])) == Some((IsentropicOutputKind::Mach, false)),
        output_kind_of(normalize_seq(advertised_keys()[1])) == Some((IsentropicOutputKind::MachAngleRad, true)),
        output_kind_of(normalize_seq(advertised_keys()[2])) == Some((IsentropicOutputKind::PrandtlMeyerAngleRad, true)),
        output_kind_of(normalize_seq(advertised_keys()[3])) == Some((IsentropicOutputKind::PressureRatio, false)),
        output_kind_of(normalize_seq(advertised_keys()[4])) == Some((IsentropicOutputKind::TemperatureRatio, false)),
        output_kind_of(normalize_seq(advertised_keys()[5])) == Some((IsentropicOutputKind::DensityRatio, false)),
        output_kind_of(normalize_seq(advertised_keys()[6])) == Some((IsentropicOutputKind::AreaRatio, false)),
{
    reveal_strlit("mach");
    reveal_strlit("m");
    reveal_strlit("mach_angle");
    reveal_strlit("mach_angle_rad");
    reveal_strlit("mu");
    reveal_strlit("mu_rad");
    reveal_strlit("mach_angle_deg");
    reveal_strlit("mu_deg");
    reveal_strlit("prandtl_meyer_angle");
    reveal_strlit("prandtl_meyer_angle_rad");
    reveal_strlit("prandtl_meyer");
    reveal_strlit("nu");
    reveal_strlit("nu_rad");
    reveal_strlit("prandtl_meyer_angle_deg");
    reveal_strlit("prandtl_meyer_deg");
    reveal_strlit("nu_deg");
    reveal_strlit("pressure_ratio");
    reveal_strlit("p_p0");
    reveal_strlit("p/p0");
    reveal_strlit("temperature_ratio");
    reveal_strlit("t_t0");
    reveal_strlit("t/t0");
    reveal_strlit("density_ratio");
    reveal_strlit("rho_rho0");
    reveal_strlit("rho/rho0");
    reveal_strlit("area_ratio");
    reveal_strlit("a_astar");
    reveal_strlit("a/a*");
    lemma_normalize_canonical("mach"@);
    lemma_normalize_canonical("mach_angle_deg"@);
    lemma_normalize_canonical("prandtl_meyer_angle_deg"@);
    lemma_normalize_canonical("pressure_ratio"@);
    lemma_normalize_canonical("temperature_ratio"@);
    lemma_normalize_canonical("density_ratio"@);
    lemma_normalize_canonical("area_ratio"@);
}

/// With a branch chosen, every input kind routes to every target kind.
pub proof fn route_is_total_with_branch(input: IsentropicInputKind, target: IsentropicOutputKind, branch: IsentropicBranch)
    ensures
        route_spec(input, target, Some(branch)) is Ok,
{
}

/// Without a branch only the double-valued area-ratio inversion is refused,
/// and it is refused for want of a branch.
pub proof fn route_needs_branch_only_for_area_ratio(input: IsentropicInputKind, target: IsentropicOutputKind)
    ensures
        (route_spec(input, target, None) is Err) <==> input == IsentropicInputKind::AreaRatio,
        input == IsentropicInputKind::AreaRatio ==> route_spec(input, target, None)
            == Err::<Seq<StepView>, RouteFailure>(RouteFailure::MissingBranch("AreaRatio"@)),
{
}

/// The route has one step for a non-Mach input and one for a non-Mach target,
/// in that order, and nothing else.
pub proof fn route_shape(input: IsentropicInputKind, target: IsentropicOutputKind, branch: Option<IsentropicBranch>)
    requires
        route_spec(input, target, branch) is Ok,
    ensures
        route_spec(input, target, branch)->Ok_0.len()
            == (if input == IsentropicInputKind::Mach { 0int } else { 1int })
            + (if target == IsentropicOutputKind::Mach { 0int } else { 1int }),
        input != IsentropicInputKind::Mach ==> route_spec(input, target, branch)->Ok_0[0].solved == "M"@,
{
}




/// The `_deg` and `_rad` keys of one angle name the same input kind, the
/// first in degrees and the second in radians.
pub proof fn degree_and_radian_input_keys_agree(b: Seq<char>)
    ensures
        input_kind_of(b + "_rad"@) matches Some((kd, deg)) ==> !deg && input_kind_of(b + "_deg"@) == Some((kd, true)),
{
    reveal_strlit("_rad");
    reveal_strlit("_deg");
    if input_kind_of(b + "_rad"@) is Some {
        reveal_strlit("a/a*");
        reveal_strlit("a_astar");
        reveal_strlit("area_ratio");
        reveal_strlit("density_ratio");
        reveal_strlit("m");
        reveal_strlit("mach");
        reveal_strlit("mach_angle");
        reveal_strlit("mach_angle_deg");
        reveal_strlit("mach_angle_rad");
        reveal_strlit("mu");
        reveal_strlit("mu_deg");
        reveal_strlit("mu_rad");
        reveal_strlit("nu");
        reveal_strlit("nu_deg");
        reveal_strlit("nu_rad");
        reveal_strlit("p/p0");
        reveal_strlit("p_p0");
        reveal_strlit("prandtl_meyer");
        reveal_strlit("prandtl_meyer_angle");
        reveal_strlit("prandtl_meyer_angle_deg");
        reveal_strlit("prandtl_meyer_angle_rad");
        reveal_strlit("prandtl_meyer_deg");
        reveal_strlit("pressure_ratio");
        reveal_strlit("rho/rho0");
        reveal_strlit("rho_rho0");
        reveal_strlit("t/t0");
        reveal_strlit("t_t0");
        reveal_strlit("temperature_ratio");
        let r = b + "_rad"@;
        assert(r.len() >= 4 && r[r.len() - 4] == '_' && r[r.len() - 3] == 'r');
        if r == "mach_angle_rad"@ {
            assert(b =~= "mach_angle"@) by {
                assert(b =~= r.subrange(0, b.len() as int));
            }
            assert(b + "_deg"@ =~= "mach_angle_deg"@);
            assert("mach_angle_deg"@[11] != "mach_angle_rad"@[11]);
            assert("mach_angle_deg"@[0] != "pressure_ratio"@[0]);
        } else if r == "mu_rad"@ {
            assert(b =~= "mu"@) by {
                assert(b =~= r.subrange(0, b.len() as int));
            }
            assert(b + "_deg"@ =~= "mu_deg"@);
            assert("mu_deg"@[3] != "mu_rad"@[3]);
            assert("mu_deg"@[0] != "nu_deg"@[0]);
            assert("mu_deg"@[0] != "nu_rad"@[0]);
        } else if r == "nu_rad"@ {
            assert(b =~= "nu"@) by {
                assert(b =~= r.subrange(0, b.len() as int));
            }
            assert(b + "_deg"@ =~= "nu_deg"@);
            assert("nu_deg"@[0] != "mu_deg"@[0]);
            assert("nu_deg"@[0] != "mu_rad"@[0]);
            assert("nu_deg"@[3] != "nu_rad"@[3]);
        } else {
            assert(r == "prandtl_meyer_angle_rad"@);
            assert(b =~= "prandtl_meyer_angle"@) by {
                assert(b =~= r.subrange(0, b.len() as int));
            }
            assert(b + "_deg"@ =~= "prandtl_meyer_angle_deg"@);
            assert("prandtl_meyer_angle_deg"@[20] != "prandtl_meyer_angle_rad"@[20]);
        }
    }
}


/// The `_deg` and `_rad` keys of one angle name the same output kind, the
/// first in degrees and the second in radians.
pub proof fn degree_and_radian_keys_agree(b: Seq<char>)
    ensures
        output_kind_of(b + "_rad"@) matches Some((kd, deg)) ==> !deg && output_kind_of(b + "_deg"@) == Some((kd, true)),
{
    reveal_strlit("_rad");
    reveal_strlit("_deg");
    if output_kind_of(b + "_rad"@) is Some {
        reveal_strlit("a/a*");
        reveal_strlit("a_astar");
        reveal_strlit("area_ratio");
        reveal_strlit("density_ratio");
        reveal_strlit("m");
        reveal_strlit("mach");
        reveal_strlit("mach_angle");
        reveal_strlit("mach_angle_deg");
        reveal_strlit("mach_angle_rad");
        reveal_strlit("mu");
        reveal_strlit("mu_deg");
        reveal_strlit("mu_rad");
        reveal_strlit("nu");
        reveal_strlit("nu_deg");
        reveal_strlit("nu_rad");
        reveal_strlit("p/p0");
        reveal_strlit("p_p0");
        reveal_strlit("prandtl_meyer");
        reveal_strlit("prandtl_meyer_angle");
        reveal_strlit("prandtl_meyer_angle_deg");
        reveal_strlit("prandtl_meyer_angle_rad");
        reveal_strlit("prandtl_meyer_deg");
        reveal_strlit("pressure_ratio");
        reveal_strlit("rho/rho0");
        reveal_strlit("rho_rho0");
        reveal_strlit("t/t0");
        reveal_strlit("t_t0");
        reveal_strlit("temperature_ratio");
        let r = b + "_rad"@;
        assert(r.len() >= 4 && r[r.len() - 4] == '_' && r[r.len() - 3] == 'r');
        if r == "mach_angle_rad"@ {
            assert(b =~= "mach_angle"@) by {
                assert(b =~= r.subrange(0, b.len() as int));
            }
            assert(b + "_deg"@ =~= "mach_angle_deg"@);
            assert("mach_angle_deg"@[11] != "mach_angle_rad"@[11]);
            assert("mach_angle_deg"@[0] != "pressure_ratio"@[0]);
        } else if r == "mu_rad"@ {
            assert(b =~= "mu"@) by {
                assert(b =~= r.subrange(0, b.len() as int));
            }
            assert(b + "_deg"@ =~= "mu_deg"@);
            assert("mu_deg"@[3] != "mu_rad"@[3]);
            assert("mu_deg"@[0] != "nu_deg"@[0]);
            assert("mu_deg"@[0] != "nu_rad"@[0]);
        } else if r == "nu_rad"@ {
            assert(b =~= "nu"@) by {
                assert(b =~= r.subrange(0, b.len() as int));
            }
            assert(b + "_deg"@ =~= "nu_deg"@);
            assert("nu_deg"@[0] != "mu_deg"@[0]);
            assert("nu_deg"@[0] != "mu_rad"@[0]);
            assert("nu_deg"@[3] != "nu_rad"@[3]);
        } else {
            assert(r == "prandtl_meyer_angle_rad"@);
            assert(b =~= "prandtl_meyer_angle"@) by {
                assert(b =~= r.subrange(0, b.len() as int));
            }
            assert(b + "_deg"@ =~= "prandtl_meyer_angle_deg"@);
            assert("prandtl_meyer_angle_deg"@[20] != "prandtl_meyer_angle_rad"@[20]);
        }
    }
}


/// Each target step evaluates the equation that the device uses for that
/// kind: it solves for the variable whose name, read as a target kind, is
/// that kind, from the pivot the device resolves; when a pivot step inverts
/// the same variable, the target step uses that pivot step's equation;
/// different target kinds use different equations.
pub proof fn target_steps_use_their_kinds_equations(
    o: IsentropicOutputKind,
    o2: IsentropicOutputKind,
    b: Option<IsentropicBranch>,
    b2: Option<IsentropicBranch>,
    i: IsentropicInputKind,
    bi: IsentropicBranch,
)
    ensures
        target_spec(o, b) is None <==> o == IsentropicOutputKind::Mach,
        target_spec(o, b) matches Some(t) ==> output_kind_of(lower_seq(t.solved)) == Some((o, false)) && t.inputs[0] == "M"@,
        target_spec(o, b) matches Some(t) ==> (pivot_spec(i, Some(bi)) matches Ok(Some(p)) ==> (p.inputs[0] == t.solved
            ==> t.id == p.id && p.solved == t.inputs[0])),
        target_spec(o, b) matches Some(t) ==> (target_spec(o2, b2) matches Some(t2) ==> (o != o2 ==> t.id != t2.id)),
{
    reveal_strlit("M");
    reveal_strlit("T_T0");
    reveal_strlit("a/a*");
    reveal_strlit("a_astar");
    reveal_strlit("area_ratio");
    reveal_strlit("compressible.area_mach");
    reveal_strlit("compressible.isentropic_density_ratio");
    reveal_strlit("compressible.isentropic_pressure_ratio");
    reveal_strlit("compressible.isentropic_temperature_ratio");
    reveal_strlit("compressible.mach_angle");
    reveal_strlit("compressible.prandtl_meyer");
    reveal_strlit("density_ratio");
    reveal_strlit("gamma");
    reveal_strlit("m");
    reveal_strlit("mach");
    reveal_strlit("mach_angle");
    reveal_strlit("mach_angle_deg");
    reveal_strlit("mach_angle_rad");
    reveal_strlit("mu");
    reveal_strlit("mu_deg");
    reveal_strlit("mu_rad");
    reveal_strlit("nu");
    reveal_strlit("nu_deg");
    reveal_strlit("nu_rad");
    reveal_strlit("p/p0");
    reveal_strlit("p_p0");
    reveal_strlit("prandtl_meyer");
    reveal_strlit("prandtl_meyer_angle");
    reveal_strlit("prandtl_meyer_angle_deg");
    reveal_strlit("prandtl_meyer_angle_rad");
    reveal_strlit("prandtl_meyer_deg");
    reveal_strlit("pressure_ratio");
    reveal_strlit("rho/rho0");
    reveal_strlit("rho_rho0");
    reveal_strlit("t/t0");
    reveal_strlit("t_t0");
    reveal_strlit("temperature_ratio");
    match o {
        IsentropicOutputKind::Mach => {},
        IsentropicOutputKind::MachAngleRad => {
            assert(lower_seq("mu"@) =~= "mu"@);
            assert("mu"@.len() != "mach"@.len());
            assert("mu"@.len() != "m"@.len());
            assert("mu"@.len() != "mach_angle"@.len());
            assert("mu"@.len() != "mach_angle_rad"@.len());
            assert(output_kind_of("mu"@) == Some((IsentropicOutputKind::MachAngleRad, false)));
            assert("mu"@[0] != "nu"@[0]);
            assert("mu"@.len() != "p_p0"@.len());
            assert("mu"@.len() != "T_T0"@.len());
            assert("mu"@.len() != "rho_rho0"@.len());
            assert("mu"@.len() != "area_ratio"@.len());
        },
        IsentropicOutputKind::PrandtlMeyerAngleRad => {
            assert(lower_seq("nu"@) =~= "nu"@);
            assert("nu"@.len() != "mach"@.len());
            assert("nu"@.len() != "m"@.len());
            assert("nu"@.len() != "mach_angle"@.len());
            assert("nu"@.len() != "mach_angle_rad"@.len());
            assert("nu"@[0] != "mu"@[0]);
            assert("nu"@.len() != "mu_rad"@.len());
            assert("nu"@.len() != "mach_angle_deg"@.len());
            assert("nu"@.len() != "mu_deg"@.len());
            assert("nu"@.len() != "prandtl_meyer_angle"@.len());
            assert("nu"@.len() != "prandtl_meyer_angle_rad"@.len());
            assert("nu"@.len() != "prandtl_meyer"@.len());
            assert(output_kind_of("nu"@) == Some((IsentropicOutputKind::PrandtlMeyerAngleRad, false)));
            assert("nu"@[0] != "mu"@[0]);
            assert("nu"@.len() != "p_p0"@.len());
            assert("nu"@.len() != "T_T0"@.len());
            assert("nu"@.len() != "rho_rho0"@.len());
            assert("nu"@.len() != "area_ratio"@.len());
        },
        IsentropicOutputKind::PressureRatio => {
            assert(lower_seq("p_p0"@) =~= "p_p0"@);
            assert("p_p0"@[0] != "mach"@[0]);
            assert("p_p0"@.len() != "m"@.len());
            assert("p_p0"@.len() != "mach_angle"@.len());
            assert("p_p0"@.len() != "mach_angle_rad"@.len());
            assert("p_p0"@.len() != "mu"@.len());
            assert("p_p0"@.len() != "mu_rad"@.len());
            assert("p_p0"@.len() != "mach_angle_deg"@.len());
            assert("p_p0"@.len() != "mu_deg"@.len());
            assert("p_p0"@.len() != "prandtl_meyer_angle"@.len());
            assert("p_p0"@.len() != "prandtl_meyer_angle_rad"@.len());
            assert("p_p0"@.len() != "prandtl_meyer"@.len());
            assert("p_p0"@.len() != "nu"@.len());
            assert("p_p0"@.len() != "nu_rad"@.len());
            assert("p_p0"@.len() != "prandtl_meyer_angle_deg"@.len());
            assert("p_p0"@.len() != "prandtl_meyer_deg"@.len());
            assert("p_p0"@.len() != "nu_deg"@.len());
            assert("p_p0"@.len() != "pressure_ratio"@.len());
            assert(output_kind_of("p_p0"@) == Some((IsentropicOutputKind::PressureRatio, false)));
            assert("p_p0"@.len() != "mu"@.len());
            assert("p_p0"@.len() != "nu"@.len());
            assert("p_p0"@[0] != "T_T0"@[0]);
            assert("p_p0"@.len() != "rho_rho0"@.len());
            assert("p_p0"@.len() != "area_ratio"@.len());
        },
        IsentropicOutputKind::TemperatureRatio => {
            assert(lower_seq("T_T0"@) =~= "t_t0"@);
            assert("t_t0"@[0] != "mach"@[0]);
            assert("t_t0"@.len() != "m"@.len());
            assert("t_t0"@.len() != "mach_angle"@.len());
            assert("t_t0"@.len() != "mach_angle_rad"@.len());
            assert("t_t0"@.len() != "mu"@.len());
            assert("t_t0"@.len() != "mu_rad"@.len());
            assert("t_t0"@.len() != "mach_angle_deg"@.len());
            assert("t_t0"@.len() != "mu_deg"@.len());
            assert("t_t0"@.len() != "prandtl_meyer_angle"@.len());
            assert("t_t0"@.len() != "prandtl_meyer_angle_rad"@.len());
            assert("t_t0"@.len() != "prandtl_meyer"@.len());
            assert("t_t0"@.len() != "nu"@.len());
            assert("t_t0"@.len() != "nu_rad"@.len());
            assert("t_t0"@.len() != "prandtl_meyer_angle_deg"@.len());
            assert("t_t0"@.len() != "prandtl_meyer_deg"@.len());
            assert("t_t0"@.len() != "nu_deg"@.len());
            assert("t_t0"@.len() != "pressure_ratio"@.len());
            assert("t_t0"@[0] != "p_p0"@[0]);
            assert("t_t0"@[0] != "p/p0"@[0]);
            assert("t_t0"@.len() != "temperature_ratio"@.len());
            assert(output_kind_of("t_t0"@) == Some((IsentropicOutputKind::TemperatureRatio, false)));
            assert("T_T0"@.len() != "mu"@.len());
            assert("T_T0"@.len() != "nu"@.len());
            assert("T_T0"@[0] != "p_p0"@[0]);
            assert("T_T0"@.len() != "rho_rho0"@.len());
            assert("T_T0"@.len() != "area_ratio"@.len());
        },
        IsentropicOutputKind::DensityRatio => {
            assert(lower_seq("rho_rho0"@) =~= "rho_rho0"@);
            assert("rho_rho0"@.len() != "mach"@.len());
            assert("rho_rho0"@.len() != "m"@.len());
            assert("rho_rho0"@.len() != "mach_angle"@.len());
            assert("rho_rho0"@.len() != "mach_angle_rad"@.len());
            assert("rho_rho0"@.len() != "mu"@.len());
            assert("rho_rho0"@.len() != "mu_rad"@.len());
            assert("rho_rho0"@.len() != "mach_angle_deg"@.len());
            assert("rho_rho0"@.len() != "mu_deg"@.len());
            assert("rho_rho0"@.len() != "prandtl_meyer_angle"@.len());
            assert("rho_rho0"@.len() != "prandtl_meyer_angle_rad"@.len());
            assert("rho_rho0"@.len() != "prandtl_meyer"@.len());
            assert("rho_rho0"@.len() != "nu"@.len());
            assert("rho_rho0"@.len() != "nu_rad"@.len());
            assert("rho_rho0"@.len() != "prandtl_meyer_angle_deg"@.len());
            assert("rho_rho0"@.len() != "prandtl_meyer_deg"@.len());
            assert("rho_rho0"@.len() != "nu_deg"@.len());
            assert("rho_rho0"@.len() != "pressure_ratio"@.len());
            assert("rho_rho0"@.len() != "p_p0"@.len());
            assert("rho_rho0"@.len() != "p/p0"@.len());
            assert("rho_rho0"@.len() != "temperature_ratio"@.len());
            assert("rho_rho0"@.len() != "t_t0"@.len());
            assert("rho_rho0"@.len() != "t/t0"@.len());
            assert("rho_rho0"@.len() != "density_ratio"@.len());
            assert(output_kind_of("rho_rho0"@) == Some((IsentropicOutputKind::DensityRatio, false)));
            assert("rho_rho0"@.len() != "mu"@.len());
            assert("rho_rho0"@.len() != "nu"@.len());
            assert("rho_rho0"@.len() != "p_p0"@.len());
            assert("rho_rho0"@.len() != "T_T0"@.len());
            assert("rho_rho0"@.len() != "area_ratio"@.len());
        },
        IsentropicOutputKind::AreaRatio => {
            assert(lower_seq("area_ratio"@) =~= "area_ratio"@);
            assert("area_ratio"@.len() != "mach"@.len());
            assert("area_ratio"@.len() != "m"@.len());
            assert("area_ratio"@[0] != "mach_angle"@[0]);
            assert("area_ratio"@.len() != "mach_angle_rad"@.len());
            assert("area_ratio"@.len() != "mu"@.len());
            assert("area_ratio"@.len() != "mu_rad"@.len());
            assert("area_ratio"@.len() != "mach_angle_deg"@.len());
            assert("area_ratio"@.len() != "mu_deg"@.len());
            assert("area_ratio"@.len() != "prandtl_meyer_angle"@.len());
            assert("area_ratio"@.len() != "prandtl_meyer_angle_rad"@.len());
            assert("area_ratio"@.len() != "prandtl_meyer"@.len());
            assert("area_ratio"@.len() != "nu"@.len());
            assert("area_ratio"@.len() != "nu_rad"@.len());
            assert("area_ratio"@.len() != "prandtl_meyer_angle_deg"@.len());
            assert("area_ratio"@.len() != "prandtl_meyer_deg"@.len());
            assert("area_ratio"@.len() != "nu_deg"@.len());
            assert("area_ratio"@.len() != "pressure_ratio"@.len());
            assert("area_ratio"@.len() != "p_p0"@.len());
            assert("area_ratio"@.len() != "p/p0"@.len());
            assert("area_ratio"@.len() != "temperature_ratio"@.len());
            assert("area_ratio"@.len() != "t_t0"@.len());
            assert("area_ratio"@.len() != "t/t0"@.len());
            assert("area_ratio"@.len() != "density_ratio"@.len());
            assert("area_ratio"@.len() != "rho_rho0"@.len());
            assert("area_ratio"@.len() != "rho/rho0"@.len());
            assert(output_kind_of("area_ratio"@) == Some((IsentropicOutputKind::AreaRatio, false)));
            assert("area_ratio"@.len() != "mu"@.len());
            assert("area_ratio"@.len() != "nu"@.len());
            assert("area_ratio"@.len() != "p_p0"@.len());
            assert("area_ratio"@.len() != "T_T0"@.len());
            assert("area_ratio"@.len() != "rho_rho0"@.len());
        },
    }
    assert("compressible.area_mach"@.len() != "compressible.isentropic_density_ratio"@.len());
    assert("compressible.area_mach"@.len() != "compressible.isentropic_pressure_ratio"@.len());
    assert("compressible.area_mach"@.len() != "compressible.isentropic_temperature_ratio"@.len());
    assert("compressible.area_mach"@.len() != "compressible.mach_angle"@.len());
    assert("compressible.area_mach"@.len() != "compressible.prandtl_meyer"@.len());
    assert("compressible.isentropic_density_ratio"@.len() != "compressible.isentropic_pressure_ratio"@.len());
    assert("compressible.isentropic_density_ratio"@.len() != "compressible.isentropic_temperature_ratio"@.len());
    assert("compressible.isentropic_density_ratio"@.len() != "compressible.mach_angle"@.len());
    assert("compressible.isentropic_density_ratio"@.len() != "compressible.prandtl_meyer"@.len());
    assert("compressible.isentropic_pressure_ratio"@.len() != "compressible.isentropic_temperature_ratio"@.len());
    assert("compressible.isentropic_pressure_ratio"@.len() != "compressible.mach_angle"@.len());
    assert("compressible.isentropic_pressure_ratio"@.len() != "compressible.prandtl_meyer"@.len());
    assert("compressible.isentropic_temperature_ratio"@.len() != "compressible.mach_angle"@.len());
    assert("compressible.isentropic_temperature_ratio"@.len() != "compressible.prandtl_meyer"@.len());
    assert("compressible.mach_angle"@.len() != "compressible.prandtl_meyer"@.len());
}


/// The pivot step of each input kind inverts the equation for the variable
/// that names that kind, read as an input kind, and solves for the pivot; only
/// the pivot itself as input needs no step.
pub proof fn pivot_steps_invert_their_kinds_variable(i: IsentropicInputKind, b: IsentropicBranch)
    ensures
        pivot_spec(i, Some(b)) == Ok::<Option<StepView>, RouteFailure>(None) <==> i == IsentropicInputKind::Mach,
        pivot_spec(i, Some(b)) matches Ok(Some(p)) ==> input_kind_of(lower_seq(p.inputs[0])) == Some((i, false)) && p.solved == "M"@,
{
    reveal_strlit("M");
    reveal_strlit("T_T0");
    reveal_strlit("a/a*");
    reveal_strlit("a_astar");
    reveal_strlit("area_ratio");
    reveal_strlit("compressible.area_mach");
    reveal_strlit("compressible.isentropic_density_ratio");
    reveal_strlit("compressible.isentropic_pressure_ratio");
    reveal_strlit("compressible.isentropic_temperature_ratio");
    reveal_strlit("compressible.mach_angle");
    reveal_strlit("compressible.prandtl_meyer");
    reveal_strlit("density_ratio");
    reveal_strlit("gamma");
    reveal_strlit("m");
    reveal_strlit("mach");
    reveal_strlit("mach_angle");
    reveal_strlit("mach_angle_deg");
    reveal_strlit("mach_angle_rad");
    reveal_strlit("mu");
    reveal_strlit("mu_deg");
    reveal_strlit("mu_rad");
    reveal_strlit("nu");
    reveal_strlit("nu_deg");
    reveal_strlit("nu_rad");
    reveal_strlit("p/p0");
    reveal_strlit("p_p0");
    reveal_strlit("prandtl_meyer");
    reveal_strlit("prandtl_meyer_angle");
    reveal_strlit("prandtl_meyer_angle_deg");
    reveal_strlit("prandtl_meyer_angle_rad");
    reveal_strlit("prandtl_meyer_deg");
    reveal_strlit("pressure_ratio");
    reveal_strlit("rho/rho0");
    reveal_strlit("rho_rho0");
    reveal_strlit("t/t0");
    reveal_strlit("t_t0");
    reveal_strlit("temperature_ratio");
    match i {
        IsentropicInputKind::Mach => {},
        IsentropicInputKind::MachAngleRad => {
            assert(lower_seq("mu"@) =~= "mu"@);
            assert("mu"@.len() != "mach"@.len());
            assert("mu"@.len() != "m"@.len());
            assert("mu"@.len() != "mach_angle"@.len());
            assert("mu"@.len() != "mach_angle_rad"@.len());
            assert(input_kind_of("mu"@) == Some((IsentropicInputKind::MachAngleRad, false)));
        },
        IsentropicInputKind::PrandtlMeyerAngleRad => {
            assert(lower_seq("nu"@) =~= "nu"@);
            assert("nu"@.len() != "mach"@.len());
            assert("nu"@.len() != "m"@.len());
            assert("nu"@.len() != "mach_angle"@.len());
            assert("nu"@.len() != "mach_angle_rad"@.len());
            assert("nu"@[0] != "mu"@[0]);
            assert("nu"@.len() != "mu_rad"@.len());
            assert("nu"@.len() != "mach_angle_deg"@.len());
            assert("nu"@.len() != "mu_deg"@.len());
            assert("nu"@.len() != "prandtl_meyer_angle"@.len());
            assert("nu"@.len() != "prandtl_meyer_angle_rad"@.len());
            assert("nu"@.len() != "prandtl_meyer"@.len());
            assert(input_kind_of("nu"@) == Some((IsentropicInputKind::PrandtlMeyerAngleRad, false)));
        },
        IsentropicInputKind::PressureRatio => {
            assert(lower_seq("p_p0"@) =~= "p_p0"@);
            assert("p_p0"@[0] != "mach"@[0]);
            assert("p_p0"@.len() != "m"@.len());
            assert("p_p0"@.len() != "mach_angle"@.len());
            assert("p_p0"@.len() != "mach_angle_rad"@.len());
            assert("p_p0"@.len() != "mu"@.len());
            assert("p_p0"@.len() != "mu_rad"@.len());
            assert("p_p0"@.len() != "mach_angle_deg"@.len());
            assert("p_p0"@.len() != "mu_deg"@.len());
            assert("p_p0"@.len() != "prandtl_meyer_angle"@.len());
            assert("p_p0"@.len() != "prandtl_meyer_angle_rad"@.len());
            assert("p_p0"@.len() != "prandtl_meyer"@.len());
            assert("p_p0"@.len() != "nu"@.len());
            assert("p_p0"@.len() != "nu_rad"@.len());
            assert("p_p0"@.len() != "prandtl_meyer_angle_deg"@.len());
            assert("p_p0"@.len() != "prandtl_meyer_deg"@.len());
            assert("p_p0"@.len() != "nu_deg"@.len());
            assert("p_p0"@.len() != "pressure_ratio"@.len());
            assert(input_kind_of("p_p0"@) == Some((IsentropicInputKind::PressureRatio, false)));
        },
        IsentropicInputKind::TemperatureRatio => {
            assert(lower_seq("T_T0"@) =~= "t_t0"@);
            assert("t_t0"@[0] != "mach"@[0]);
            assert("t_t0"@.len() != "m"@.len());
            assert("t_t0"@.len() != "mach_angle"@.len());
            assert("t_t0"@.len() != "mach_angle_rad"@.len());
            assert("t_t0"@.len() != "mu"@.len());
            assert("t_t0"@.len() != "mu_rad"@.len());
            assert("t_t0"@.len() != "mach_angle_deg"@.len());
            assert("t_t0"@.len() != "mu_deg"@.len());
            assert("t_t0"@.len() != "prandtl_meyer_angle"@.len());
            assert("t_t0"@.len() != "prandtl_meyer_angle_rad"@.len());
            assert("t_t0"@.len() != "prandtl_meyer"@.len());
            assert("t_t0"@.len() != "nu"@.len());
            assert("t_t0"@.len() != "nu_rad"@.len());
            assert("t_t0"@.len() != "prandtl_meyer_angle_deg"@.len());
            assert("t_t0"@.len() != "prandtl_meyer_deg"@.len());
            assert("t_t0"@.len() != "nu_deg"@.len());
            assert("t_t0"@.len() != "pressure_ratio"@.len());
            assert("t_t0"@[0] != "p_p0"@[0]);
            assert("t_t0"@[0] != "p/p0"@[0]);
            assert("t_t0"@.len() != "temperature_ratio"@.len());
            assert(input_kind_of("t_t0"@) == Some((IsentropicInputKind::TemperatureRatio, false)));
        },
        IsentropicInputKind::DensityRatio => {
            assert(lower_seq("rho_rho0"@) =~= "rho_rho0"@);
            assert("rho_rho0"@.len() != "mach"@.len());
            assert("rho_rho0"@.len() != "m"@.len());
            assert("rho_rho0"@.len() != "mach_angle"@.len());
            assert("rho_rho0"@.len() != "mach_angle_rad"@.len());
            assert("rho_rho0"@.len() != "mu"@.len());
            assert("rho_rho0"@.len() != "mu_rad"@.len());
            assert("rho_rho0"@.len() != "mach_angle_deg"@.len());
            assert("rho_rho0"@.len() != "mu_deg"@.len());
            assert("rho_rho0"@.len() != "prandtl_meyer_angle"@.len());
            assert("rho_rho0"@.len() != "prandtl_meyer_angle_rad"@.len());
            assert("rho_rho0"@.len() != "prandtl_meyer"@.len());
            assert("rho_rho0"@.len() != "nu"@.len());
            assert("rho_rho0"@.len() != "nu_rad"@.len());
            assert("rho_rho0"@.len() != "prandtl_meyer_angle_deg"@.len());
            assert("rho_rho0"@.len() != "prandtl_meyer_deg"@.len());
            assert("rho_rho0"@.len() != "nu_deg"@.len());
            assert("rho_rho0"@.len() != "pressure_ratio"@.len());
            assert("rho_rho0"@.len() != "p_p0"@.len());
            assert("rho_rho0"@.len() != "p/p0"@.len());
            assert("rho_rho0"@.len() != "temperature_ratio"@.len());
            assert("rho_rho0"@.len() != "t_t0"@.len());
            assert("rho_rho0"@.len() != "t/t0"@.len());
            assert("rho_rho0"@.len() != "density_ratio"@.len());
            assert(input_kind_of("rho_rho0"@) == Some((IsentropicInputKind::DensityRatio, false)));
        },
        IsentropicInputKind::AreaRatio => {
            assert(lower_seq("area_ratio"@) =~= "area_ratio"@);
            assert("area_ratio"@.len() != "mach"@.len());
            assert("area_ratio"@.len() != "m"@.len());
            assert("area_ratio"@[0] != "mach_angle"@[0]);
            assert("area_ratio"@.len() != "mach_angle_rad"@.len());
            assert("area_ratio"@.len() != "mu"@.len());
            assert("area_ratio"@.len() != "mu_rad"@.len());
            assert("area_ratio"@.len() != "mach_angle_deg"@.len());
            assert("area_ratio"@.len() != "mu_deg"@.len());
            assert("area_ratio"@.len() != "prandtl_meyer_angle"@.len());
            assert("area_ratio"@.len() != "prandtl_meyer_angle_rad"@.len());
            assert("area_ratio"@.len() != "prandtl_meyer"@.len());
            assert("area_ratio"@.len() != "nu"@.len());
            assert("area_ratio"@.len() != "nu_rad"@.len());
            assert("area_ratio"@.len() != "prandtl_meyer_angle_deg"@.len());
            assert("area_ratio"@.len() != "prandtl_meyer_deg"@.len());
            assert("area_ratio"@.len() != "nu_deg"@.len());
            assert("area_ratio"@.len() != "pressure_ratio"@.len());
            assert("area_ratio"@.len() != "p_p0"@.len());
            assert("area_ratio"@.len() != "p/p0"@.len());
            assert("area_ratio"@.len() != "temperature_ratio"@.len());
            assert("area_ratio"@.len() != "t_t0"@.len());
            assert("area_ratio"@.len() != "t/t0"@.len());
            assert("area_ratio"@.len() != "density_ratio"@.len());
            assert("area_ratio"@.len() != "rho_rho0"@.len());
            assert("area_ratio"@.len() != "rho/rho0"@.len());
            assert(input_kind_of("area_ratio"@) == Some((IsentropicInputKind::AreaRatio, false)));
        },
    }
}

} // verus!
