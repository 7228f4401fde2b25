//! Normal-shock calculator: kind vocabulary and upstream-Mach pivot routing.
use vstd::prelude::*;
use crate::text::lower_seq;
use crate::devices::framework::{
    chain, names2, opt_seq, opt_step_view, plan_view, planned, sv, PlannedStep, StepKind, StepView,
};
use crate::text::{normalize_key, normalize_seq, str_eq};

verus! {

/// Quantity a normal-shock calculation starts from (ratios are downstream over upstream).
#[derive(Debug, Clone, Copy, PartialEq, Eq, Structural)]
pub enum NormalShockInputKind {
    M1,
    M2,
    PressureRatio,
    DensityRatio,
    TemperatureRatio,
    StagnationPressureRatio,
}

/// Quantity a normal-shock calculation solves for.
#[derive(Debug, Clone, Copy, PartialEq, Eq, Structural)]
pub enum NormalShockOutputKind {
    M1,
    M2,
    PressureRatio,
    DensityRatio,
    TemperatureRatio,
    StagnationPressureRatio,
}

pub open spec fn input_kind_name(kind: NormalShockInputKind) -> Seq<char> {
    match kind {
        NormalShockInputKind::M1 => "M1"@,
        NormalShockInputKind::M2 => "M2"@,
        NormalShockInputKind::PressureRatio => "p2_p1"@,
        NormalShockInputKind::DensityRatio => "rho2_rho1"@,
        NormalShockInputKind::TemperatureRatio => "T2_T1"@,
        NormalShockInputKind::StagnationPressureRatio => "p02_p01"@,
    }
}

/// The name under which errors report an input kind.
pub fn input_kind_label(kind: NormalShockInputKind) -> (res: &'static str)
    ensures
        res@ == input_kind_name(kind),
{
    match kind {
        NormalShockInputKind::M1 => "M1",
        NormalShockInputKind::M2 => "M2",
        NormalShockInputKind::PressureRatio => "p2_p1",
        NormalShockInputKind::DensityRatio => "rho2_rho1",
        NormalShockInputKind::TemperatureRatio => "T2_T1",
        NormalShockInputKind::StagnationPressureRatio => "p02_p01",
    }
}

/// The step that resolves the pivot upstream Mach number M1 from the input kind.
pub open spec fn pivot_step_spec(kind: NormalShockInputKind) -> Option<StepView> {
    match kind {
        NormalShockInputKind::M1 => None,
        NormalShockInputKind::M2 => Some(sv(StepKind::Equation, "compressible.normal_shock_m2"@, "M1"@, seq!["M2"@, "gamma"@], None)),
        NormalShockInputKind::PressureRatio => Some(sv(StepKind::Equation, "compressible.normal_shock_pressure_ratio"@, "M1"@, seq!["p2_p1"@, "gamma"@], None)),
        NormalShockInputKind::DensityRatio => Some(sv(StepKind::Equation, "compressible.normal_shock_density_ratio"@, "M1"@, seq!["rho2_rho1"@, "gamma"@], None)),
        NormalShockInputKind::TemperatureRatio => Some(sv(StepKind::Equation, "compressible.normal_shock_temperature_ratio"@, "M1"@, seq!["T2_T1"@, "gamma"@], None)),
        NormalShockInputKind::StagnationPressureRatio => Some(sv(StepKind::Equation, "compressible.normal_shock_stagnation_pressure_ratio"@, "M1"@, seq!["p02_p01"@, "gamma"@], None)),
    }
}

/// The step that resolves the pivot upstream Mach number M1 from the input kind.
pub fn pivot_step(kind: NormalShockInputKind) -> (res: Option<PlannedStep>)
    ensures
        opt_step_view(res) == pivot_step_spec(kind),
{
    match kind {
        NormalShockInputKind::M1 => None,
        NormalShockInputKind::M2 => Some(planned(StepKind::Equation, "compressible.normal_shock_m2", "M1", names2("M2", "gamma"), None)),
        NormalShockInputKind::PressureRatio => Some(planned(StepKind::Equation, "compressible.normal_shock_pressure_ratio", "M1", names2("p2_p1", "gamma"), None)),
        NormalShockInputKind::DensityRatio => Some(planned(StepKind::Equation, "compressible.normal_shock_density_ratio", "M1", names2("rho2_rho1", "gamma"), None)),
        NormalShockInputKind::TemperatureRatio => Some(planned(StepKind::Equation, "compressible.normal_shock_temperature_ratio", "M1", names2("T2_T1", "gamma"), None)),
        NormalShockInputKind::StagnationPressureRatio => Some(planned(StepKind::Equation, "compressible.normal_shock_stagnation_pressure_ratio", "M1", names2("p02_p01", "gamma"), None)),
    }
}

/// The step that evaluates the target kind at the pivot M1.
pub open spec fn target_step_spec(kind: NormalShockOutputKind) -> Option<StepView> {
    match kind {
        NormalShockOutputKind::M1 => None,
        NormalShockOutputKind::M2 => Some(sv(StepKind::Equation, "compressible.normal_shock_m2"@, "M2"@, seq!["M1"@, "gamma"@], None)),
        NormalShockOutputKind::PressureRatio => Some(sv(StepKind::Equation, "compressible.normal_shock_pressure_ratio"@, "p2_p1"@, seq!["M1"@, "gamma"@], None)),
        NormalShockOutputKind::DensityRatio => Some(sv(StepKind::Equation, "compressible.normal_shock_density_ratio"@, "rho2_rho1"@, seq!["M1"@, "gamma"@], None)),
        NormalShockOutputKind::TemperatureRatio => Some(sv(StepKind::Equation, "compressible.normal_shock_temperature_ratio"@, "T2_T1"@, seq!["M1"@, "gamma"@], None)),
        NormalShockOutputKind::StagnationPressureRatio => Some(sv(StepKind::Equation, "compressible.normal_shock_stagnation_pressure_ratio"@, "p02_p01"@, seq!["M1"@, "gamma"@], None)),
    }
}

/// The step that evaluates the target kind at the pivot M1.
pub fn target_step(kind: NormalShockOutputKind) -> (res: Option<PlannedStep>)
    ensures
        opt_step_view(res) == target_step_spec(kind),
{
    match kind {
        NormalShockOutputKind::M1 => None,
        NormalShockOutputKind::M2 => Some(planned(StepKind::Equation, "compressible.normal_shock_m2", "M2", names2("M1", "gamma"), None)),
        NormalShockOutputKind::PressureRatio => Some(planned(StepKind::Equation, "compressible.normal_shock_pressure_ratio", "p2_p1", names2("M1", "gamma"), None)),
        NormalShockOutputKind::DensityRatio => Some(planned(StepKind::Equation, "compressible.normal_shock_density_ratio", "rho2_rho1", names2("M1", "gamma"), None)),
        NormalShockOutputKind::TemperatureRatio => Some(planned(StepKind::Equation, "compressible.normal_shock_temperature_ratio", "T2_T1", names2("M1", "gamma"), None)),
        NormalShockOutputKind::StagnationPressureRatio => Some(planned(StepKind::Equation, "compressible.normal_shock_stagnation_pressure_ratio", "p02_p01", names2("M1", "gamma"), None)),
    }
}

/// The whole solve route: the pivot step (for an input other than M1) followed
/// by the target step (for a target other than M1).
pub open spec fn route_spec(input: NormalShockInputKind, target: NormalShockOutputKind) -> Seq<StepView> {
    opt_seq(pivot_step_spec(input)) + opt_seq(target_step_spec(target))
}

/// Plans the equation steps of a normal-shock calculation; every pair of kinds routes.
pub fn route(input: NormalShockInputKind, target: NormalShockOutputKind) -> (res: Vec<PlannedStep>)
    ensures
        plan_view(res@) == route_spec(input, target),
{
    chain(pivot_step(input), target_step(target))
}

/// Every step of a route either solves for M1 or starts from M1.
pub proof fn route_pivots_on_m1(input: NormalShockInputKind, target: NormalShockOutputKind)
    ensures
        forall|i: int| 0 <= i < route_spec(input, target).len() ==>
            (#[trigger] route_spec(input, target)[i]).solved == "M1"@ || route_spec(input, target)[i].inputs[0] == "M1"@,
        route_spec(input, target).len()
            == (if input == NormalShockInputKind::M1 { 0int } else { 1int })
            + (if target == NormalShockOutputKind::M1 { 0int } else { 1int }),
{
}

/// The input kind a (normalized) name stands for: the kind's own name, in
/// lower case.
pub open spec fn input_kind_of(k: Seq<char>) -> Option<NormalShockInputKind> {
    if k == "m1"@ {
        Some(NormalShockInputKind::M1)
    } else if k == "m2"@ {
        Some(NormalShockInputKind::M2)
    } else if k == "p2_p1"@ {
        Some(NormalShockInputKind::PressureRatio)
    } else if k == "rho2_rho1"@ {
        Some(NormalShockInputKind::DensityRatio)
    } else if k == "t2_t1"@ {
        Some(NormalShockInputKind::TemperatureRatio)
    } else if k == "p02_p01"@ {
        Some(NormalShockInputKind::StagnationPressureRatio)
    } else {
        None
    }
}

/// The output kind a (normalized) name stands for, named as the input kinds are.
pub open spec fn output_kind_of(k: Seq<char>) -> Option<NormalShockOutputKind> {
    if k == "m1"@ {
        Some(NormalShockOutputKind::M1)
    } else if k == "m2"@ {
        Some(NormalShockOutputKind::M2)
    } else if k == "p2_p1"@ {
        Some(NormalShockOutputKind::PressureRatio)
    } else if k == "rho2_rho1"@ {
        Some(NormalShockOutputKind::DensityRatio)
    } else if k == "t2_t1"@ {
        Some(NormalShockOutputKind::TemperatureRatio)
    } else if k == "p02_p01"@ {
        Some(NormalShockOutputKind::StagnationPressureRatio)
    } else {
        None
    }
}

/// Parses an input kind name; surrounding whitespace and ASCII case are ignored.
pub fn parse_input_kind(raw: &str) -> (res: Option<NormalShockInputKind>)
    ensures
        res == input_kind_of(normalize_seq(raw@)),
{
    let key = normalize_key(raw);
    let k = key.as_str();
    if str_eq(k, "m1") {
        Some(NormalShockInputKind::M1)
    } else if str_eq(k, "m2") {
        Some(NormalShockInputKind::M2)
    } else if str_eq(k, "p2_p1") {
        Some(NormalShockInputKind::PressureRatio)
    } else if str_eq(k, "rho2_rho1") {
        Some(NormalShockInputKind::DensityRatio)
    } else if str_eq(k, "t2_t1") {
        Some(NormalShockInputKind::TemperatureRatio)
    } else if str_eq(k, "p02_p01") {
        Some(NormalShockInputKind::StagnationPressureRatio)
    } else {
        None
    }
}

/// Parses an output kind name; surrounding whitespace and ASCII case are ignored.
pub fn parse_output_kind(raw: &str) -> (res: Option<NormalShockOutputKind>)
    ensures
        res == output_kind_of(normalize_seq(raw@)),
{
    let key = normalize_key(raw);
    let k = key.as_str();
    if str_eq(k, "m1") {
        Some(NormalShockOutputKind::M1)
    } else if str_eq(k, "m2") {
        Some(NormalShockOutputKind::M2)
    } else if str_eq(k, "p2_p1") {
        Some(NormalShockOutputKind::PressureRatio)
    } else if str_eq(k, "rho2_rho1") {
        Some(NormalShockOutputKind::DensityRatio)
    } else if str_eq(k, "t2_t1") {
        Some(NormalShockOutputKind::TemperatureRatio)
    } else if str_eq(k, "p02_p01") {
        Some(NormalShockOutputKind::StagnationPressureRatio)
    } else {
        None
    }
}


/// Each target step evaluates the equation that the device uses for that
/// kind: it solves for the variable whose name, read as a target kind, is
/// that kind, from the pivot the device resolves; when a pivot step inverts
/// the same variable, the target step uses that pivot step's equation;
/// different target kinds use different equations.
pub proof fn target_steps_use_their_kinds_equations(
    o: NormalShockOutputKind,
    o2: NormalShockOutputKind,
    i: NormalShockInputKind,
)
    ensures
        target_step_spec(o) is None <==> o == NormalShockOutputKind::M1,
        target_step_spec(o) matches Some(t) ==> output_kind_of(lower_seq(t.solved)) == Some(o) && t.inputs[0] == "M1"@,
        target_step_spec(o) matches Some(t) ==> (pivot_step_spec(i) matches Some(p) ==> (p.inputs[0] == t.solved
            ==> t.id == p.id && p.solved == t.inputs[0])),
        target_step_spec(o) matches Some(t) ==> (target_step_spec(o2) matches Some(t2) ==> (o != o2 ==> t.id != t2.id)),
{
    reveal_strlit("M1");
    reveal_strlit("M2");
    reveal_strlit("T2_T1");
    reveal_strlit("compressible.normal_shock_density_ratio");
    reveal_strlit("compressible.normal_shock_m2");
    reveal_strlit("compressible.normal_shock_pressure_ratio");
    reveal_strlit("compressible.normal_shock_stagnation_pressure_ratio");
    reveal_strlit("compressible.normal_shock_temperature_ratio");
    reveal_strlit("gamma");
    reveal_strlit("m1");
    reveal_strlit("m2");
    reveal_strlit("p02_p01");
    reveal_strlit("p2_p1");
    reveal_strlit("rho2_rho1");
    reveal_strlit("t2_t1");
    match o {
        NormalShockOutputKind::M1 => {},
        NormalShockOutputKind::M2 => {
            assert(lower_seq("M2"@) =~= "m2"@);
            assert("m2"@[1] != "m1"@[1]);
            assert(output_kind_of("m2"@) == Some(NormalShockOutputKind::M2));
            assert("M2"@.len() != "p2_p1"@.len());
            assert("M2"@.len() != "rho2_rho1"@.len());
            assert("M2"@.len() != "T2_T1"@.len());
            assert("M2"@.len() != "p02_p01"@.len());
        },
        NormalShockOutputKind::PressureRatio => {
            assert(lower_seq("p2_p1"@) =~= "p2_p1"@);
            assert("p2_p1"@.len() != "m1"@.len());
            assert("p2_p1"@.len() != "m2"@.len());
            assert(output_kind_of("p2_p1"@) == Some(NormalShockOutputKind::PressureRatio));
            assert("p2_p1"@.len() != "M2"@.len());
            assert("p2_p1"@.len() != "rho2_rho1"@.len());
            assert("p2_p1"@[0] != "T2_T1"@[0]);
            assert("p2_p1"@.len() != "p02_p01"@.len());
        },
        NormalShockOutputKind::DensityRatio => {
            assert(lower_seq("rho2_rho1"@) =~= "rho2_rho1"@);
            assert("rho2_rho1"@.len() != "m1"@.len());
            assert("rho2_rho1"@.len() != "m2"@.len());
            assert("rho2_rho1"@.len() != "p2_p1"@.len());
            assert(output_kind_of("rho2_rho1"@) == Some(NormalShockOutputKind::DensityRatio));
            assert("rho2_rho1"@.len() != "M2"@.len());
            assert("rho2_rho1"@.len() != "p2_p1"@.len());
            assert("rho2_rho1"@.len() != "T2_T1"@.len());
            assert("rho2_rho1"@.len() != "p02_p01"@.len());
        },
        NormalShockOutputKind::TemperatureRatio => {
            assert(lower_seq("T2_T1"@) =~= "t2_t1"@);
            assert("t2_t1"@.len() != "m1"@.len());
            assert("t2_t1"@.len() != "m2"@.len());
            assert("t2_t1"@[0] != "p2_p1"@[0]);
            assert("t2_t1"@.len() != "rho2_rho1"@.len());
            assert(output_kind_of("t2_t1"@) == Some(NormalShockOutputKind::TemperatureRatio));
            assert("T2_T1"@.len() != "M2"@.len());
            assert("T2_T1"@[0] != "p2_p1"@[0]);
            assert("T2_T1"@.len() != "rho2_rho1"@.len());
            assert("T2_T1"@.len() != "p02_p01"@.len());
        },
        NormalShockOutputKind::StagnationPressureRatio => {
            assert(lower_seq("p02_p01"@) =~= "p02_p01"@);
            assert("p02_p01"@.len() != "m1"@.len());
            assert("p02_p01"@.len() != "m2"@.len());
            assert("p02_p01"@.len() != "p2_p1"@.len());
            assert("p02_p01"@.len() != "rho2_rho1"@.len());
            assert("p02_p01"@.len() != "t2_t1"@.len());
            assert(output_kind_of("p02_p01"@) == Some(NormalShockOutputKind::StagnationPressureRatio));
            assert("p02_p01"@.len() != "M2"@.len());
            assert("p02_p01"@.len() != "p2_p1"@.len());
            assert("p02_p01"@.len() != "rho2_rho1"@.len());
            assert("p02_p01"@.len() != "T2_T1"@.len());
        },
    }
    assert("compressible.normal_shock_density_ratio"@.len() != "compressible.normal_shock_m2"@.len());
    assert("compressible.normal_shock_density_ratio"@.len() != "compressible.normal_shock_pressure_ratio"@.len());
    assert("compressible.normal_shock_density_ratio"@.len() != "compressible.normal_shock_stagnation_pressure_ratio"@.len());
    assert("compressible.normal_shock_density_ratio"@.len() != "compressible.normal_shock_temperature_ratio"@.len());
    assert("compressible.normal_shock_m2"@.len() != "compressible.normal_shock_pressure_ratio"@.len());
    assert("compressible.normal_shock_m2"@.len() != "compressible.normal_shock_stagnation_pressure_ratio"@.len());
    assert("compressible.normal_shock_m2"@.len() != "compressible.normal_shock_temperature_ratio"@.len());
    assert("compressible.normal_shock_pressure_ratio"@.len() != "compressible.normal_shock_stagnation_pressure_ratio"@.len());
    assert("compressible.normal_shock_pressure_ratio"@.len() != "compressible.normal_shock_temperature_ratio"@.len());
    assert("compressible.normal_shock_stagnation_pressure_ratio"@.len() != "compressible.normal_shock_temperature_ratio"@.len());
}


/// The pivot step of each input kind inverts the equation for the variable
/// that names that kind, read as an input kind, and solves for the pivot; only
/// the pivot itself as input needs no step.
pub proof fn pivot_steps_invert_their_kinds_variable(i: NormalShockInputKind)
    ensures
        pivot_step_spec(i) is None <==> i == NormalShockInputKind::M1,
        pivot_step_spec(i) matches Some(p) ==> input_kind_of(lower_seq(p.inputs[0])) == Some(i) && p.solved == "M1"@,
{
    reveal_strlit("M1");
    reveal_strlit("M2");
    reveal_strlit("T2_T1");
    reveal_strlit("compressible.normal_shock_density_ratio");
    reveal_strlit("compressible.normal_shock_m2");
    reveal_strlit("compressible.normal_shock_pressure_ratio");
    reveal_strlit("compressible.normal_shock_stagnation_pressure_ratio");
    reveal_strlit("compressible.normal_shock_temperature_ratio");
    reveal_strlit("gamma");
    reveal_strlit("m1");
    reveal_strlit("m2");
    reveal_strlit("p02_p01");
    reveal_strlit("p2_p1");
    reveal_strlit("rho2_rho1");
    reveal_strlit("t2_t1");
    match i {
        NormalShockInputKind::M1 => {},
        NormalShockInputKind::M2 => {
            assert(lower_seq("M2"@) =~= "m2"@);
            assert("m2"@[1] != "m1"@[1]);
            assert(input_kind_of("m2"@) == Some(NormalShockInputKind::M2));
        },
        NormalShockInputKind::PressureRatio => {
            assert(lower_seq("p2_p1"@) =~= "p2_p1"@);
            assert("p2_p1"@.len() != "m1"@.len());
            assert("p2_p1"@.len() != "m2"@.len());
            assert(input_kind_of("p2_p1"@) == Some(NormalShockInputKind::PressureRatio));
        },
        NormalShockInputKind::DensityRatio => {
            assert(lower_seq("rho2_rho1"@) =~= "rho2_rho1"@);
            assert("rho2_rho1"@.len() != "m1"@.len());
            assert("rho2_rho1"@.len() != "m2"@.len());
            assert("rho2_rho1"@.len() != "p2_p1"@.len());
            assert(input_kind_of("rho2_rho1"@) == Some(NormalShockInputKind::DensityRatio));
        },
        NormalShockInputKind::TemperatureRatio => {
            assert(lower_seq("T2_T1"@) =~= "t2_t1"@);
            assert("t2_t1"@.len() != "m1"@.len());
            assert("t2_t1"@.len() != "m2"@.len());
            assert("t2_t1"@[0] != "p2_p1"@[0]);
            assert("t2_t1"@.len() != "rho2_rho1"@.len());
            assert(input_kind_of("t2_t1"@) == Some(NormalShockInputKind::TemperatureRatio));
        },
        NormalShockInputKind::StagnationPressureRatio => {
            assert(lower_seq("p02_p01"@) =~= "p02_p01"@);
            assert("p02_p01"@.len() != "m1"@.len());
            assert("p02_p01"@.len() != "m2"@.len());
            assert("p02_p01"@.len() != "p2_p1"@.len());
            assert("p02_p01"@.len() != "rho2_rho1"@.len());
            assert("p02_p01"@.len() != "t2_t1"@.len());
            assert(input_kind_of("p02_p01"@) == Some(NormalShockInputKind::StagnationPressureRatio));
        },
    }
}

} // verus!
