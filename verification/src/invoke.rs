//! The decisions of the invoke endpoint: which requests are refused, which
//! handler a request goes to, and how dimension names are canonicalised.
use vstd::prelude::*;
use crate::bindings::{INVOKE_PROTOCOL_VERSION, INVOKE_SUPPORTED_OPS};
use crate::strings::{decimal_text, join_seq, join_strings, push_str, usize_text, views};
use crate::text::{chars_of, normalize_key, normalize_seq, push_char, str_eq};

verus! {

/// The operations the endpoint handles: every operation the protocol lists.
#[derive(Debug, Clone, Copy, PartialEq, Eq, Structural)]
pub enum InvokeOp {
    EquationSolve,
    EquationMeta,
    EquationAscii,
    EquationDefaultUnit,
    EquationUnicode,
    EquationLatex,
    EquationTargets,
    EquationVariables,
    EquationName,
    EquationDescription,
    EquationFamily,
    EquationTargetsText,
    EquationTargetsTable,
    EquationTargetCount,
    EquationBranchesText,
    EquationBranchesTable,
    EquationVariablesText,
    EquationVariablesTable,
    EquationVariableCount,
    FormatValue,
    MetaGet,
    FluidPropertiesText,
    FluidPropertiesTable,
    FluidPropertyCount,
    MaterialPropertiesText,
    MaterialPropertiesTable,
    MaterialPropertyCount,
    DeviceModesText,
    DeviceModeCount,
    DeviceIsentropicCalc,
    DeviceIsentropicCalcValue,
    DeviceIsentropicCalcPivotMach,
    DeviceIsentropicCalcPathText,
    DeviceNormalShockCalc,
    DeviceNormalShockCalcValue,
    DeviceNormalShockCalcPivotM1,
    DeviceNormalShockCalcPathText,
    DeviceObliqueShockCalc,
    DeviceObliqueShockCalcValue,
    DeviceObliqueShockCalcPathText,
    DeviceFannoFlowCalc,
    DeviceFannoFlowCalcValue,
    DeviceFannoFlowCalcPivotMach,
    DeviceFannoFlowCalcPathText,
    DeviceRayleighCalc,
    DeviceRayleighCalcValue,
    DeviceRayleighCalcPivotMach,
    DeviceRayleighCalcPathText,
    PipeLossSolveDeltaP,
    FluidProp,
    MaterialProp,
    ConstantGet,
}

/// The wire name of an operation.
pub open spec fn op_name(op: InvokeOp) -> Seq<char> {
    match op {
        InvokeOp::EquationSolve => "equation.solve"@,
        InvokeOp::EquationMeta => "equation.meta"@,
        InvokeOp::EquationAscii => "equation.ascii"@,
        InvokeOp::EquationDefaultUnit => "equation.default_unit"@,
        InvokeOp::EquationUnicode => "equation.unicode"@,
        InvokeOp::EquationLatex => "equation.latex"@,
        InvokeOp::EquationTargets => "equation.targets"@,
        InvokeOp::EquationVariables => "equation.variables"@,
        InvokeOp::EquationName => "equation.name"@,
        InvokeOp::EquationDescription => "equation.description"@,
        InvokeOp::EquationFamily => "equation.family"@,
        InvokeOp::EquationTargetsText => "equation.targets.text"@,
        InvokeOp::EquationTargetsTable => "equation.targets.table"@,
        InvokeOp::EquationTargetCount => "equation.target.count"@,
        InvokeOp::EquationBranchesText => "equation.branches.text"@,
        InvokeOp::EquationBranchesTable => "equation.branches.table"@,
        InvokeOp::EquationVariablesText => "equation.variables.text"@,
        InvokeOp::EquationVariablesTable => "equation.variables.table"@,
        InvokeOp::EquationVariableCount => "equation.variable.count"@,
        InvokeOp::FormatValue => "format.value"@,
        InvokeOp::MetaGet => "meta.get"@,
        InvokeOp::FluidPropertiesText => "fluid.properties.text"@,
        InvokeOp::FluidPropertiesTable => "fluid.properties.table"@,
        InvokeOp::FluidPropertyCount => "fluid.property.count"@,
        InvokeOp::MaterialPropertiesText => "material.properties.text"@,
        InvokeOp::MaterialPropertiesTable => "material.properties.table"@,
        InvokeOp::MaterialPropertyCount => "material.property.count"@,
        InvokeOp::DeviceModesText => "device.modes.text"@,
        InvokeOp::DeviceModeCount => "device.mode.count"@,
        InvokeOp::DeviceIsentropicCalc => "device.isentropic_calc"@,
        InvokeOp::DeviceIsentropicCalcValue => "device.isentropic_calc.value"@,
        InvokeOp::DeviceIsentropicCalcPivotMach => "device.isentropic_calc.pivot_mach"@,
        InvokeOp::DeviceIsentropicCalcPathText => "device.isentropic_calc.path_text"@,
        InvokeOp::DeviceNormalShockCalc => "device.normal_shock_calc"@,
        InvokeOp::DeviceNormalShockCalcValue => "device.normal_shock_calc.value"@,
        InvokeOp::DeviceNormalShockCalcPivotM1 => "device.normal_shock_calc.pivot_m1"@,
        InvokeOp::DeviceNormalShockCalcPathText => "device.normal_shock_calc.path_text"@,
        InvokeOp::DeviceObliqueShockCalc => "device.oblique_shock_calc"@,
        InvokeOp::DeviceObliqueShockCalcValue => "device.oblique_shock_calc.value"@,
        InvokeOp::DeviceObliqueShockCalcPathText => "device.oblique_shock_calc.path_text"@,
        InvokeOp::DeviceFannoFlowCalc => "device.fanno_flow_calc"@,
        InvokeOp::DeviceFannoFlowCalcValue => "device.fanno_flow_calc.value"@,
        InvokeOp::DeviceFannoFlowCalcPivotMach => "device.fanno_flow_calc.pivot_mach"@,
        InvokeOp::DeviceFannoFlowCalcPathText => "device.fanno_flow_calc.path_text"@,
        InvokeOp::DeviceRayleighCalc => "device.rayleigh_calc"@,
        InvokeOp::DeviceRayleighCalcValue => "device.rayleigh_calc.value"@,
        InvokeOp::DeviceRayleighCalcPivotMach => "device.rayleigh_calc.pivot_mach"@,
        InvokeOp::DeviceRayleighCalcPathText => "device.rayleigh_calc.path_text"@,
        InvokeOp::PipeLossSolveDeltaP => "device.pipe_loss.solve_delta_p"@,
        InvokeOp::FluidProp => "fluid.prop"@,
        InvokeOp::MaterialProp => "material.prop"@,
        InvokeOp::ConstantGet => "constant.get"@,
    }
}

/// The operations, position by position with the protocol catalog.
pub const INVOKE_OPS: [InvokeOp; 52] = [
    InvokeOp::EquationSolve,
    InvokeOp::EquationMeta,
    InvokeOp::EquationAscii,
    InvokeOp::EquationDefaultUnit,
    InvokeOp::EquationUnicode,
    InvokeOp::EquationLatex,
    InvokeOp::EquationTargets,
    InvokeOp::EquationVariables,
    InvokeOp::EquationName,
    InvokeOp::EquationDescription,
    InvokeOp::EquationFamily,
    InvokeOp::EquationTargetsText,
    InvokeOp::EquationTargetsTable,
    InvokeOp::EquationTargetCount,
    InvokeOp::EquationBranchesText,
    InvokeOp::EquationBranchesTable,
    InvokeOp::EquationVariablesText,
    InvokeOp::EquationVariablesTable,
    InvokeOp::EquationVariableCount,
    InvokeOp::FormatValue,
    InvokeOp::MetaGet,
    InvokeOp::FluidPropertiesText,
    InvokeOp::FluidPropertiesTable,
    InvokeOp::FluidPropertyCount,
    InvokeOp::MaterialPropertiesText,
    InvokeOp::MaterialPropertiesTable,
    InvokeOp::MaterialPropertyCount,
    InvokeOp::DeviceModesText,
    InvokeOp::DeviceModeCount,
    InvokeOp::DeviceIsentropicCalc,
    InvokeOp::DeviceIsentropicCalcValue,
    InvokeOp::DeviceIsentropicCalcPivotMach,
    InvokeOp::DeviceIsentropicCalcPathText,
    InvokeOp::DeviceNormalShockCalc,
    InvokeOp::DeviceNormalShockCalcValue,
    InvokeOp::DeviceNormalShockCalcPivotM1,
    InvokeOp::DeviceNormalShockCalcPathText,
    InvokeOp::DeviceObliqueShockCalc,
    InvokeOp::DeviceObliqueShockCalcValue,
    InvokeOp::DeviceObliqueShockCalcPathText,
    InvokeOp::DeviceFannoFlowCalc,
    InvokeOp::DeviceFannoFlowCalcValue,
    InvokeOp::DeviceFannoFlowCalcPivotMach,
    InvokeOp::DeviceFannoFlowCalcPathText,
    InvokeOp::DeviceRayleighCalc,
    InvokeOp::DeviceRayleighCalcValue,
    InvokeOp::DeviceRayleighCalcPivotMach,
    InvokeOp::DeviceRayleighCalcPathText,
    InvokeOp::PipeLossSolveDeltaP,
    InvokeOp::FluidProp,
    InvokeOp::MaterialProp,
    InvokeOp::ConstantGet,
];

/// The catalog position of an operation.
pub open spec fn catalog_index(op: InvokeOp) -> int {
    match op {
        InvokeOp::EquationSolve => 0,
        InvokeOp::EquationMeta => 1,
        InvokeOp::EquationAscii => 2,
        InvokeOp::EquationDefaultUnit => 3,
        InvokeOp::EquationUnicode => 4,
        InvokeOp::EquationLatex => 5,
        InvokeOp::EquationTargets => 6,
        InvokeOp::EquationVariables => 7,
        InvokeOp::EquationName => 8,
        InvokeOp::EquationDescription => 9,
        InvokeOp::EquationFamily => 10,
        InvokeOp::EquationTargetsText => 11,
        InvokeOp::EquationTargetsTable => 12,
        InvokeOp::EquationTargetCount => 13,
        InvokeOp::EquationBranchesText => 14,
        InvokeOp::EquationBranchesTable => 15,
        InvokeOp::EquationVariablesText => 16,
        InvokeOp::EquationVariablesTable => 17,
        InvokeOp::EquationVariableCount => 18,
        InvokeOp::FormatValue => 19,
        InvokeOp::MetaGet => 20,
        InvokeOp::FluidPropertiesText => 21,
        InvokeOp::FluidPropertiesTable => 22,
        InvokeOp::FluidPropertyCount => 23,
        InvokeOp::MaterialPropertiesText => 24,
        InvokeOp::MaterialPropertiesTable => 25,
        InvokeOp::MaterialPropertyCount => 26,
        InvokeOp::DeviceModesText => 27,
        InvokeOp::DeviceModeCount => 28,
        InvokeOp::DeviceIsentropicCalc => 29,
        InvokeOp::DeviceIsentropicCalcValue => 30,
        InvokeOp::DeviceIsentropicCalcPivotMach => 31,
        InvokeOp::DeviceIsentropicCalcPathText => 32,
        InvokeOp::DeviceNormalShockCalc => 33,
        InvokeOp::DeviceNormalShockCalcValue => 34,
        InvokeOp::DeviceNormalShockCalcPivotM1 => 35,
        InvokeOp::DeviceNormalShockCalcPathText => 36,
        InvokeOp::DeviceObliqueShockCalc => 37,
        InvokeOp::DeviceObliqueShockCalcValue => 38,
        InvokeOp::DeviceObliqueShockCalcPathText => 39,
        InvokeOp::DeviceFannoFlowCalc => 40,
        InvokeOp::DeviceFannoFlowCalcValue => 41,
        InvokeOp::DeviceFannoFlowCalcPivotMach => 42,
        InvokeOp::DeviceFannoFlowCalcPathText => 43,
        InvokeOp::DeviceRayleighCalc => 44,
        InvokeOp::DeviceRayleighCalcValue => 45,
        InvokeOp::DeviceRayleighCalcPivotMach => 46,
        InvokeOp::DeviceRayleighCalcPathText => 47,
        InvokeOp::PipeLossSolveDeltaP => 48,
        InvokeOp::FluidProp => 49,
        InvokeOp::MaterialProp => 50,
        InvokeOp::ConstantGet => 51,
    }
}

/// The first catalog position from `i` on that lists `name`, or -1.
pub open spec fn listed_from(name: Seq<char>, i: int) -> int
    decreases INVOKE_SUPPORTED_OPS@.len() - i,
{
    if i < 0 || i >= INVOKE_SUPPORTED_OPS@.len() {
        -1
    } else if INVOKE_SUPPORTED_OPS@[i]@ == name {
        i
    } else {
        listed_from(name, i + 1)
    }
}

/// The operation with a given wire name: the one at the first catalog
/// position that lists the name; none for a name the catalog does not list.
pub open spec fn handled_op(name: Seq<char>) -> Option<InvokeOp> {
    let i = listed_from(name, 0);
    if i >= 0 {
        Some(INVOKE_OPS@[i])
    } else {
        None
    }
}

/// The search finds a position that lists the name, and none before it; or
/// -1 exactly when no position from `i` on lists it.
pub proof fn lemma_listed_from(name: Seq<char>, i: int)
    requires
        0 <= i <= INVOKE_SUPPORTED_OPS@.len(),
    ensures
        listed_from(name, i) == -1 <==> forall|j: int| i <= j < INVOKE_SUPPORTED_OPS@.len() ==> INVOKE_SUPPORTED_OPS@[j]@ != name,
        listed_from(name, i) != -1 ==> i <= listed_from(name, i) < INVOKE_SUPPORTED_OPS@.len()
            && INVOKE_SUPPORTED_OPS@[listed_from(name, i)]@ == name,
    decreases INVOKE_SUPPORTED_OPS@.len() - i,
{
    if i < INVOKE_SUPPORTED_OPS@.len() {
        lemma_listed_from(name, i + 1);
    }
}

/// The operation at each catalog position carries the name listed there, and
/// each operation sits at its own catalog position.
pub proof fn catalog_positions_match()
    ensures
        forall|i: int| 0 <= i < 52 ==> #[trigger] op_name(INVOKE_OPS@[i]) == INVOKE_SUPPORTED_OPS@[i]@,
        forall|op: InvokeOp| #[trigger] INVOKE_OPS@[catalog_index(op)] == op,
        forall|op: InvokeOp| 0 <= #[trigger] catalog_index(op) < 52,
{
    assert forall|i: int| 0 <= i < 52 implies #[trigger] op_name(INVOKE_OPS@[i]) == INVOKE_SUPPORTED_OPS@[i]@ by {
        if i == 0 {
        } else if i == 1 {
        } else if i == 2 {
        } else if i == 3 {
        } else if i == 4 {
        } else if i == 5 {
        } else if i == 6 {
        } else if i == 7 {
        } else if i == 8 {
        } else if i == 9 {
        } else if i == 10 {
        } else if i == 11 {
        } else if i == 12 {
        } else if i == 13 {
        } else if i == 14 {
        } else if i == 15 {
        } else if i == 16 {
        } else if i == 17 {
        } else if i == 18 {
        } else if i == 19 {
        } else if i == 20 {
        } else if i == 21 {
        } else if i == 22 {
        } else if i == 23 {
        } else if i == 24 {
        } else if i == 25 {
        } else if i == 26 {
        } else if i == 27 {
        } else if i == 28 {
        } else if i == 29 {
        } else if i == 30 {
        } else if i == 31 {
        } else if i == 32 {
        } else if i == 33 {
        } else if i == 34 {
        } else if i == 35 {
        } else if i == 36 {
        } else if i == 37 {
        } else if i == 38 {
        } else if i == 39 {
        } else if i == 40 {
        } else if i == 41 {
        } else if i == 42 {
        } else if i == 43 {
        } else if i == 44 {
        } else if i == 45 {
        } else if i == 46 {
        } else if i == 47 {
        } else if i == 48 {
        } else if i == 49 {
        } else if i == 50 {
        } else if i == 51 {
        }
    }
}

impl InvokeOp {
    /// The wire name of the operation.
    pub fn as_str(&self) -> (res: &'static str)
        ensures
            res@ == op_name(*self),
    {
        match self {
            InvokeOp::EquationSolve => "equation.solve",
            InvokeOp::EquationMeta => "equation.meta",
            InvokeOp::EquationAscii => "equation.ascii",
            InvokeOp::EquationDefaultUnit => "equation.default_unit",
            InvokeOp::EquationUnicode => "equation.unicode",
            InvokeOp::EquationLatex => "equation.latex",
            InvokeOp::EquationTargets => "equation.targets",
            InvokeOp::EquationVariables => "equation.variables",
            InvokeOp::EquationName => "equation.name",
            InvokeOp::EquationDescription => "equation.description",
            InvokeOp::EquationFamily => "equation.family",
            InvokeOp::EquationTargetsText => "equation.targets.text",
            InvokeOp::EquationTargetsTable => "equation.targets.table",
            InvokeOp::EquationTargetCount => "equation.target.count",
            InvokeOp::EquationBranchesText => "equation.branches.text",
            InvokeOp::EquationBranchesTable => "equation.branches.table",
            InvokeOp::EquationVariablesText => "equation.variables.text",
            InvokeOp::EquationVariablesTable => "equation.variables.table",
            InvokeOp::EquationVariableCount => "equation.variable.count",
            InvokeOp::FormatValue => "format.value",
            InvokeOp::MetaGet => "meta.get",
            InvokeOp::FluidPropertiesText => "fluid.properties.text",
            InvokeOp::FluidPropertiesTable => "fluid.properties.table",
            InvokeOp::FluidPropertyCount => "fluid.property.count",
            InvokeOp::MaterialPropertiesText => "material.properties.text",
            InvokeOp::MaterialPropertiesTable => "material.properties.table",
            InvokeOp::MaterialPropertyCount => "material.property.count",
            InvokeOp::DeviceModesText => "device.modes.text",
            InvokeOp::DeviceModeCount => "device.mode.count",
            InvokeOp::DeviceIsentropicCalc => "device.isentropic_calc",
            InvokeOp::DeviceIsentropicCalcValue => "device.isentropic_calc.value",
            InvokeOp::DeviceIsentropicCalcPivotMach => "device.isentropic_calc.pivot_mach",
            InvokeOp::DeviceIsentropicCalcPathText => "device.isentropic_calc.path_text",
            InvokeOp::DeviceNormalShockCalc => "device.normal_shock_calc",
            InvokeOp::DeviceNormalShockCalcValue => "device.normal_shock_calc.value",
            InvokeOp::DeviceNormalShockCalcPivotM1 => "device.normal_shock_calc.pivot_m1",
            InvokeOp::DeviceNormalShockCalcPathText => "device.normal_shock_calc.path_text",
            InvokeOp::DeviceObliqueShockCalc => "device.oblique_shock_calc",
            InvokeOp::DeviceObliqueShockCalcValue => "device.oblique_shock_calc.value",
            InvokeOp::DeviceObliqueShockCalcPathText => "device.oblique_shock_calc.path_text",
            InvokeOp::DeviceFannoFlowCalc => "device.fanno_flow_calc",
            InvokeOp::DeviceFannoFlowCalcValue => "device.fanno_flow_calc.value",
            InvokeOp::DeviceFannoFlowCalcPivotMach => "device.fanno_flow_calc.pivot_mach",
            InvokeOp::DeviceFannoFlowCalcPathText => "device.fanno_flow_calc.path_text",
            InvokeOp::DeviceRayleighCalc => "device.rayleigh_calc",
            InvokeOp::DeviceRayleighCalcValue => "device.rayleigh_calc.value",
            InvokeOp::DeviceRayleighCalcPivotMach => "device.rayleigh_calc.pivot_mach",
            InvokeOp::DeviceRayleighCalcPathText => "device.rayleigh_calc.path_text",
            InvokeOp::PipeLossSolveDeltaP => "device.pipe_loss.solve_delta_p",
            InvokeOp::FluidProp => "fluid.prop",
            InvokeOp::MaterialProp => "material.prop",
            InvokeOp::ConstantGet => "constant.get",
        }
    }
}

/// Finds the operation named `name`.
pub fn parse_invoke_op(name: &str) -> (res: Option<InvokeOp>)
    ensures
        res == handled_op(name@),
{
    let mut i: usize = 0;
    while i < INVOKE_SUPPORTED_OPS.len()
        invariant
            i <= INVOKE_SUPPORTED_OPS@.len(),
            listed_from(name@, 0) == listed_from(name@, i as int),
        decreases INVOKE_SUPPORTED_OPS@.len() - i,
    {
        if str_eq(INVOKE_SUPPORTED_OPS[i], name) {
            return Some(INVOKE_OPS[i]);
        }
        i = i + 1;
    }
    None
}

// ---------------------------------------------------------------------------
// What an operation asks for
// ---------------------------------------------------------------------------

/// The calculator devices the protocol runs.
#[derive(Debug, Clone, Copy, PartialEq, Eq, Structural)]
pub enum CalcDevice {
    Isentropic,
    NormalShock,
    ObliqueShock,
    FannoFlow,
    Rayleigh,
}

/// What a calculator operation answers with: value, pivot and path together,
/// the value alone, the pivot alone, or the path trace text.
#[derive(Debug, Clone, Copy, PartialEq, Eq, Structural)]
pub enum CalcOutput {
    Full,
    Value,
    Pivot,
    PathText,
}

/// The device and answer of a calculator operation; none for the others.
pub open spec fn device_call_of(op: InvokeOp) -> Option<(CalcDevice, CalcOutput)> {
    match op {
        InvokeOp::DeviceIsentropicCalc => Some((CalcDevice::Isentropic, CalcOutput::Full)),
        InvokeOp::DeviceIsentropicCalcValue => Some((CalcDevice::Isentropic, CalcOutput::Value)),
        InvokeOp::DeviceIsentropicCalcPivotMach => Some((CalcDevice::Isentropic, CalcOutput::Pivot)),
        InvokeOp::DeviceIsentropicCalcPathText => Some((CalcDevice::Isentropic, CalcOutput::PathText)),
        InvokeOp::DeviceNormalShockCalc => Some((CalcDevice::NormalShock, CalcOutput::Full)),
        InvokeOp::DeviceNormalShockCalcValue => Some((CalcDevice::NormalShock, CalcOutput::Value)),
        InvokeOp::DeviceNormalShockCalcPivotM1 => Some((CalcDevice::NormalShock, CalcOutput::Pivot)),
        InvokeOp::DeviceNormalShockCalcPathText => Some((CalcDevice::NormalShock, CalcOutput::PathText)),
        InvokeOp::DeviceObliqueShockCalc => Some((CalcDevice::ObliqueShock, CalcOutput::Full)),
        InvokeOp::DeviceObliqueShockCalcValue => Some((CalcDevice::ObliqueShock, CalcOutput::Value)),
        InvokeOp::DeviceObliqueShockCalcPathText => Some((CalcDevice::ObliqueShock, CalcOutput::PathText)),
        InvokeOp::DeviceFannoFlowCalc => Some((CalcDevice::FannoFlow, CalcOutput::Full)),
        InvokeOp::DeviceFannoFlowCalcValue => Some((CalcDevice::FannoFlow, CalcOutput::Value)),
        InvokeOp::DeviceFannoFlowCalcPivotMach => Some((CalcDevice::FannoFlow, CalcOutput::Pivot)),
        InvokeOp::DeviceFannoFlowCalcPathText => Some((CalcDevice::FannoFlow, CalcOutput::PathText)),
        InvokeOp::DeviceRayleighCalc => Some((CalcDevice::Rayleigh, CalcOutput::Full)),
        InvokeOp::DeviceRayleighCalcValue => Some((CalcDevice::Rayleigh, CalcOutput::Value)),
        InvokeOp::DeviceRayleighCalcPivotMach => Some((CalcDevice::Rayleigh, CalcOutput::Pivot)),
        InvokeOp::DeviceRayleighCalcPathText => Some((CalcDevice::Rayleigh, CalcOutput::PathText)),
        _ => None,
    }
}

/// The device and answer of a calculator operation.
pub fn device_call(op: InvokeOp) -> (res: Option<(CalcDevice, CalcOutput)>)
    ensures
        res == device_call_of(op),
{
    match op {
        InvokeOp::DeviceIsentropicCalc => Some((CalcDevice::Isentropic, CalcOutput::Full)),
        InvokeOp::DeviceIsentropicCalcValue => Some((CalcDevice::Isentropic, CalcOutput::Value)),
        InvokeOp::DeviceIsentropicCalcPivotMach => Some((CalcDevice::Isentropic, CalcOutput::Pivot)),
        InvokeOp::DeviceIsentropicCalcPathText => Some((CalcDevice::Isentropic, CalcOutput::PathText)),
        InvokeOp::DeviceNormalShockCalc => Some((CalcDevice::NormalShock, CalcOutput::Full)),
        InvokeOp::DeviceNormalShockCalcValue => Some((CalcDevice::NormalShock, CalcOutput::Value)),
        InvokeOp::DeviceNormalShockCalcPivotM1 => Some((CalcDevice::NormalShock, CalcOutput::Pivot)),
        InvokeOp::DeviceNormalShockCalcPathText => Some((CalcDevice::NormalShock, CalcOutput::PathText)),
        InvokeOp::DeviceObliqueShockCalc => Some((CalcDevice::ObliqueShock, CalcOutput::Full)),
        InvokeOp::DeviceObliqueShockCalcValue => Some((CalcDevice::ObliqueShock, CalcOutput::Value)),
        InvokeOp::DeviceObliqueShockCalcPathText => Some((CalcDevice::ObliqueShock, CalcOutput::PathText)),
        InvokeOp::DeviceFannoFlowCalc => Some((CalcDevice::FannoFlow, CalcOutput::Full)),
        InvokeOp::DeviceFannoFlowCalcValue => Some((CalcDevice::FannoFlow, CalcOutput::Value)),
        InvokeOp::DeviceFannoFlowCalcPivotMach => Some((CalcDevice::FannoFlow, CalcOutput::Pivot)),
        InvokeOp::DeviceFannoFlowCalcPathText => Some((CalcDevice::FannoFlow, CalcOutput::PathText)),
        InvokeOp::DeviceRayleighCalc => Some((CalcDevice::Rayleigh, CalcOutput::Full)),
        InvokeOp::DeviceRayleighCalcValue => Some((CalcDevice::Rayleigh, CalcOutput::Value)),
        InvokeOp::DeviceRayleighCalcPivotMach => Some((CalcDevice::Rayleigh, CalcOutput::Pivot)),
        InvokeOp::DeviceRayleighCalcPathText => Some((CalcDevice::Rayleigh, CalcOutput::PathText)),
        _ => None,
    }
}

/// The lists the protocol reads as text, as a table or as a count.
#[derive(Debug, Clone, Copy, PartialEq, Eq, Structural)]
pub enum ListSubject {
    EquationTargets,
    EquationBranches,
    EquationVariables,
    FluidProperties,
    MaterialProperties,
    DeviceModes,
}

/// How a list is answered.
#[derive(Debug, Clone, Copy, PartialEq, Eq, Structural)]
pub enum ListShape {
    Text,
    Table,
    Count,
}

/// The list and shape of a list operation; none for the others.
pub open spec fn list_query_of(op: InvokeOp) -> Option<(ListSubject, ListShape)> {
    match op {
        InvokeOp::EquationTargetsText => Some((ListSubject::EquationTargets, ListShape::Text)),
        InvokeOp::EquationTargetsTable => Some((ListSubject::EquationTargets, ListShape::Table)),
        InvokeOp::EquationTargetCount => Some((ListSubject::EquationTargets, ListShape::Count)),
        InvokeOp::EquationBranchesText => Some((ListSubject::EquationBranches, ListShape::Text)),
        InvokeOp::EquationBranchesTable => Some((ListSubject::EquationBranches, ListShape::Table)),
        InvokeOp::EquationVariablesText => Some((ListSubject::EquationVariables, ListShape::Text)),
        InvokeOp::EquationVariablesTable => Some((ListSubject::EquationVariables, ListShape::Table)),
        InvokeOp::EquationVariableCount => Some((ListSubject::EquationVariables, ListShape::Count)),
        InvokeOp::FluidPropertiesText => Some((ListSubject::FluidProperties, ListShape::Text)),
        InvokeOp::FluidPropertiesTable => Some((ListSubject::FluidProperties, ListShape::Table)),
        InvokeOp::FluidPropertyCount => Some((ListSubject::FluidProperties, ListShape::Count)),
        InvokeOp::MaterialPropertiesText => Some((ListSubject::MaterialProperties, ListShape::Text)),
        InvokeOp::MaterialPropertiesTable => Some((ListSubject::MaterialProperties, ListShape::Table)),
        InvokeOp::MaterialPropertyCount => Some((ListSubject::MaterialProperties, ListShape::Count)),
        InvokeOp::DeviceModesText => Some((ListSubject::DeviceModes, ListShape::Text)),
        InvokeOp::DeviceModeCount => Some((ListSubject::DeviceModes, ListShape::Count)),
        _ => None,
    }
}

/// The list and shape of a list operation.
pub fn list_query(op: InvokeOp) -> (res: Option<(ListSubject, ListShape)>)
    ensures
        res == list_query_of(op),
{
    match op {
        InvokeOp::EquationTargetsText => Some((ListSubject::EquationTargets, ListShape::Text)),
        InvokeOp::EquationTargetsTable => Some((ListSubject::EquationTargets, ListShape::Table)),
        InvokeOp::EquationTargetCount => Some((ListSubject::EquationTargets, ListShape::Count)),
        InvokeOp::EquationBranchesText => Some((ListSubject::EquationBranches, ListShape::Text)),
        InvokeOp::EquationBranchesTable => Some((ListSubject::EquationBranches, ListShape::Table)),
        InvokeOp::EquationVariablesText => Some((ListSubject::EquationVariables, ListShape::Text)),
        InvokeOp::EquationVariablesTable => Some((ListSubject::EquationVariables, ListShape::Table)),
        InvokeOp::EquationVariableCount => Some((ListSubject::EquationVariables, ListShape::Count)),
        InvokeOp::FluidPropertiesText => Some((ListSubject::FluidProperties, ListShape::Text)),
        InvokeOp::FluidPropertiesTable => Some((ListSubject::FluidProperties, ListShape::Table)),
        InvokeOp::FluidPropertyCount => Some((ListSubject::FluidProperties, ListShape::Count)),
        InvokeOp::MaterialPropertiesText => Some((ListSubject::MaterialProperties, ListShape::Text)),
        InvokeOp::MaterialPropertiesTable => Some((ListSubject::MaterialProperties, ListShape::Table)),
        InvokeOp::MaterialPropertyCount => Some((ListSubject::MaterialProperties, ListShape::Count)),
        InvokeOp::DeviceModesText => Some((ListSubject::DeviceModes, ListShape::Text)),
        InvokeOp::DeviceModeCount => Some((ListSubject::DeviceModes, ListShape::Count)),
        _ => None,
    }
}

/// Where a request goes.
#[derive(Debug, Clone, Copy, PartialEq, Eq, Structural)]
pub enum InvokeRoute {
    /// The request names another protocol version.
    ProtocolMismatch,
    /// The request goes to the handler of this operation.
    Dispatch(InvokeOp),
    /// The version is right but the catalog does not list this operation.
    UnknownOperation,
}

/// The route of a request with this version and operation name.
pub open spec fn route_of(version: Seq<char>, op: Seq<char>) -> InvokeRoute {
    if version != INVOKE_PROTOCOL_VERSION@ {
        InvokeRoute::ProtocolMismatch
    } else {
        match handled_op(op) {
            Some(k) => InvokeRoute::Dispatch(k),
            None => InvokeRoute::UnknownOperation,
        }
    }
}

/// Routes a request: a foreign version is refused whatever the operation; with
/// the right version the operation picks its handler, or is unknown.
pub fn route_invoke(protocol_version: &str, op: &str) -> (r: InvokeRoute)
    ensures
        r == route_of(protocol_version@, op@),
{
    if !str_eq(protocol_version, INVOKE_PROTOCOL_VERSION) {
        return InvokeRoute::ProtocolMismatch;
    }
    match parse_invoke_op(op) {
        Some(k) => InvokeRoute::Dispatch(k),
        None => InvokeRoute::UnknownOperation,
    }
}

/// The error that a refused request is answered with.
#[derive(Debug, Clone)]
pub struct InvokeRefusal {
    pub code: &'static str,
    pub field: &'static str,
    pub message: String,
}

/// `unsupported protocol version '<got>'; expected '<version>'`.
pub open spec fn mismatch_text(got: Seq<char>) -> Seq<char> {
    "unsupported protocol version '"@ + got + "'; expected '"@ + INVOKE_PROTOCOL_VERSION@ + "'"@
}

/// The message of a version mismatch.
pub fn protocol_mismatch_message(got: &str) -> (res: String)
    ensures
        res@ == mismatch_text(got@),
{
    let mut s = String::from_str("unsupported protocol version '");
    push_str(&mut s, got);
    push_str(&mut s, "'; expected '");
    push_str(&mut s, INVOKE_PROTOCOL_VERSION);
    push_str(&mut s, "'");
    s
}

/// The refusal for a route: a version mismatch names the field
/// `protocol_version`, an unknown operation the field `op`; a dispatched request
/// is not refused.
pub fn refusal_for(route: InvokeRoute, protocol_version: &str) -> (res: Option<InvokeRefusal>)
    ensures
        route is Dispatch <==> res is None,
        route is ProtocolMismatch ==> (res matches Some(f) && f.code@ == "protocol_version_mismatch"@
            && f.field@ == "protocol_version"@ && f.message@ == mismatch_text(protocol_version@)),
        route is UnknownOperation ==> (res matches Some(f) && f.code@ == "unknown_operation"@
            && f.field@ == "op"@ && f.message@ == "unsupported invoke operation"@),
{
    match route {
        InvokeRoute::ProtocolMismatch => Some(InvokeRefusal {
            code: "protocol_version_mismatch",
            field: "protocol_version",
            message: protocol_mismatch_message(protocol_version),
        }),
        InvokeRoute::UnknownOperation => Some(InvokeRefusal {
            code: "unknown_operation",
            field: "op",
            message: String::from_str("unsupported invoke operation"),
        }),
        InvokeRoute::Dispatch(_) => None,
    }
}

/// Every operation the catalog lists is dispatched, with the right version, to
/// an operation with that very name.
pub proof fn listed_ops_are_dispatched(i: int)
    requires
        0 <= i < INVOKE_SUPPORTED_OPS@.len(),
    ensures
        route_of(INVOKE_PROTOCOL_VERSION@, INVOKE_SUPPORTED_OPS@[i]@) matches InvokeRoute::Dispatch(op)
            && op_name(op) == INVOKE_SUPPORTED_OPS@[i]@,
{
    let name = INVOKE_SUPPORTED_OPS@[i]@;
    lemma_listed_from(name, 0);
    catalog_positions_match();
}

/// A dispatched request reaches the operation it names; a request naming no
/// listed operation is refused as unknown.
pub proof fn dispatch_follows_the_name(version: Seq<char>, name: Seq<char>)
    ensures
        route_of(version, name) matches InvokeRoute::Dispatch(op) ==> op_name(op) == name,
        version == INVOKE_PROTOCOL_VERSION@ && (forall|j: int| 0 <= j < INVOKE_SUPPORTED_OPS@.len() ==> INVOKE_SUPPORTED_OPS@[j]@ != name)
            ==> route_of(version, name) == InvokeRoute::UnknownOperation,
{
    lemma_listed_from(name, 0);
    catalog_positions_match();
}

/// Every operation is listed in the protocol catalog, at its own position.
pub proof fn handled_ops_are_listed(op: InvokeOp)
    ensures
        0 <= catalog_index(op) < INVOKE_SUPPORTED_OPS@.len(),
        INVOKE_SUPPORTED_OPS@[catalog_index(op)]@ == op_name(op),
{
    catalog_positions_match();
}

/// A request that carries another version is refused, whatever its operation.
pub proof fn foreign_version_is_refused(version: Seq<char>, op: Seq<char>)
    requires
        version != INVOKE_PROTOCOL_VERSION@,
    ensures
        route_of(version, op) == InvokeRoute::ProtocolMismatch,
{
}

// ---------------------------------------------------------------------------
// Dimension names
// ---------------------------------------------------------------------------

/// Accepted dimension spellings and the canonical dimension that each means.
pub const DIMENSION_ALIASES: [(&'static str, &'static str); 32] = [
    ("pressure", "pressure"),
    ("stress", "pressure"),
    ("temp", "temperature"),
    ("temperature", "temperature"),
    ("density", "density"),
    ("rho", "density"),
    ("mu", "viscosity"),
    ("viscosity", "viscosity"),
    ("dynamic_viscosity", "viscosity"),
    ("k", "thermal_conductivity"),
    ("thermal_conductivity", "thermal_conductivity"),
    ("h", "heat_transfer_coefficient"),
    ("heat_transfer_coefficient", "heat_transfer_coefficient"),
    ("cp", "specific_heat_capacity"),
    ("specific_heat_capacity", "specific_heat_capacity"),
    ("cv", "specific_heat_capacity_cv"),
    ("specific_heat_capacity_cv", "specific_heat_capacity_cv"),
    ("mass_flow", "mass_flow_rate"),
    ("mass_flow_rate", "mass_flow_rate"),
    ("vol_flow", "volumetric_flow_rate"),
    ("volumetric_flow_rate", "volumetric_flow_rate"),
    ("length", "length"),
    ("diameter", "length"),
    ("distance", "length"),
    ("roughness", "length"),
    ("area", "area"),
    ("volume", "volume"),
    ("force", "force"),
    ("moment", "moment"),
    ("dimensionless", "dimensionless"),
    ("ratio", "dimensionless"),
    ("friction_factor", "dimensionless"),
];

/// Spaces become underscores; every other character is kept.
pub open spec fn underscore_spaces(s: Seq<char>) -> Seq<char> {
    Seq::new(s.len(), |i: int| if s[i] == ' ' { '_' } else { s[i] })
}

/// The key a dimension name is looked up by: trimmed, ASCII lower-cased, with
/// spaces turned into underscores.
pub open spec fn dimension_key(raw: Seq<char>) -> Seq<char> {
    underscore_spaces(normalize_seq(raw))
}

/// The canonical dimension for a key, searching the alias table from position `i`.
pub open spec fn dimension_from(key: Seq<char>, i: int) -> Seq<char>
    decreases DIMENSION_ALIASES@.len() - i,
{
    if i < 0 || i >= DIMENSION_ALIASES@.len() {
        key
    } else if DIMENSION_ALIASES@[i].0@ == key {
        DIMENSION_ALIASES@[i].1@
    } else {
        dimension_from(key, i + 1)
    }
}

/// The canonical dimension of a user-supplied name: the alias table's meaning
/// of its key, or the key itself when no alias matches.
pub open spec fn canonical_dimension_of(raw: Seq<char>) -> Seq<char> {
    dimension_from(dimension_key(raw), 0)
}

fn underscore_spaces_exec(s: &str) -> (res: String)
    ensures
        res@ == underscore_spaces(s@),
{
    let cs = chars_of(s);
    let mut out = String::new();
    let mut i: usize = 0;
    while i < cs.len()
        invariant
            cs@ == s@,
            i <= cs@.len(),
            out@ == underscore_spaces(s@).subrange(0, i as int),
        decreases cs.len() - i,
    {
        let c = cs[i];
        if c == ' ' {
            push_char(&mut out, '_');
        } else {
            push_char(&mut out, c);
        }
        assert(underscore_spaces(s@).subrange(0, i + 1) =~= underscore_spaces(s@).subrange(0, i as int).push(
            underscore_spaces(s@)[i as int],
        ));
        i = i + 1;
    }
    assert(underscore_spaces(s@).subrange(0, cs@.len() as int) =~= underscore_spaces(s@));
    out
}

/// Canonicalises a dimension name, as the property and pipe-loss handlers read
/// their `dimension` arguments.
pub fn canonical_dimension(input: &str) -> (res: String)
    ensures
        res@ == canonical_dimension_of(input@),
{
    let normalized = normalize_key(input);
    let key = underscore_spaces_exec(normalized.as_str());
    let mut i: usize = 0;
    while i < DIMENSION_ALIASES.len()
        invariant
            i <= DIMENSION_ALIASES@.len(),
            key@ == dimension_key(input@),
            dimension_from(key@, i as int) == canonical_dimension_of(input@),
        decreases DIMENSION_ALIASES@.len() - i,
    {
        let (alias, canonical) = DIMENSION_ALIASES[i];
        if str_eq(alias, key.as_str()) {
            return String::from_str(canonical);
        }
        i = i + 1;
    }
    key
}

// ---------------------------------------------------------------------------
// The friction model of `device.pipe_loss.solve`
// ---------------------------------------------------------------------------

/// The friction models a pipe loss request can name.
#[derive(Debug, Clone, Copy, PartialEq, Eq, Structural)]
pub enum FrictionModelChoice {
    Colebrook,
    Fixed,
}

pub open spec fn optional_text(raw: Option<&str>) -> Option<Seq<char>> {
    match raw {
        Some(s) => Some(s@),
        None => None,
    }
}

/// Colebrook when none is named; `Colebrook`/`colebrook` and `Fixed`/`fixed`
/// by name; any other name is refused.
pub open spec fn friction_model_of(raw: Option<Seq<char>>) -> Option<FrictionModelChoice> {
    match raw {
        None => Some(FrictionModelChoice::Colebrook),
        Some(s) => if s == "Colebrook"@ || s == "colebrook"@ {
            Some(FrictionModelChoice::Colebrook)
        } else if s == "Fixed"@ || s == "fixed"@ {
            Some(FrictionModelChoice::Fixed)
        } else {
            None
        },
    }
}

/// Reads the friction model a pipe loss request names.
pub fn parse_friction_model(raw: Option<&str>) -> (res: Result<FrictionModelChoice, InvokeRefusal>)
    ensures
        match res {
            Ok(c) => friction_model_of(optional_text(raw)) == Some(c),
            Err(r) => friction_model_of(optional_text(raw)) is None && r.code@ == "invalid_arg_value"@ && r.field@
                == "friction_model"@ && r.message@ == "invalid friction_model '"@ + raw.unwrap()@
                + "' (use Colebrook or Fixed)"@,
        },
{
    match raw {
        None => Ok(FrictionModelChoice::Colebrook),
        Some(s) => {
            if str_eq(s, "Colebrook") || str_eq(s, "colebrook") {
                Ok(FrictionModelChoice::Colebrook)
            } else if str_eq(s, "Fixed") || str_eq(s, "fixed") {
                Ok(FrictionModelChoice::Fixed)
            } else {
                let mut m = String::from_str("invalid friction_model '");
                push_str(&mut m, s);
                push_str(&mut m, "' (use Colebrook or Fixed)");
                Err(InvokeRefusal { code: "invalid_arg_value", field: "friction_model", message: m })
            }
        },
    }
}

// ---------------------------------------------------------------------------
// List answers
// ---------------------------------------------------------------------------

/// The text answer of a list: its items joined with `, `.
pub fn list_text(items: &Vec<String>) -> (res: String)
    ensures
        res@ == join_seq(views(items@), ", "@),
{
    join_strings(items, ", ")
}

/// The table answer of a list: one row per item, its position counted from
/// one, then the item.
pub fn list_table(items: &Vec<String>) -> (rows: Vec<(String, String)>)
    ensures
        rows@.len() == items@.len(),
        forall|k: int| 0 <= k < items@.len() ==> (#[trigger] rows@[k]).0@ == decimal_text((k + 1) as nat)
            && rows@[k].1@ == items@[k]@,
{
    let mut rows: Vec<(String, String)> = Vec::new();
    let mut k: usize = 0;
    while k < items.len()
        invariant
            k <= items@.len(),
            rows@.len() == k,
            forall|j: int| 0 <= j < k ==> (#[trigger] rows@[j]).0@ == decimal_text((j + 1) as nat) && rows@[j].1@
                == items@[j]@,
        decreases items.len() - k,
    {
        rows.push((usize_text(k + 1), items[k].clone()));
        k = k + 1;
    }
    rows
}

/// The table answer of an equation's branches: one row per branch, its name,
/// then `true` or `false` for whether it is the preferred one.
pub fn branch_table(names: &Vec<String>, preferred: &Vec<bool>) -> (rows: Vec<(String, String)>)
    requires
        names@.len() == preferred@.len(),
    ensures
        rows@.len() == names@.len(),
        forall|k: int| 0 <= k < names@.len() ==> (#[trigger] rows@[k]).0@ == names@[k]@ && rows@[k].1@ == (if preferred@[k] {
            "true"@
        } else {
            "false"@
        }),
{
    let mut rows: Vec<(String, String)> = Vec::new();
    let mut k: usize = 0;
    while k < names.len()
        invariant
            names@.len() == preferred@.len(),
            k <= names@.len(),
            rows@.len() == k,
            forall|j: int| 0 <= j < k ==> (#[trigger] rows@[j]).0@ == names@[j]@ && rows@[j].1@ == (if preferred@[j] {
                "true"@
            } else {
                "false"@
            }),
        decreases names.len() - k,
    {
        let flag = if preferred[k] {
            String::from_str("true")
        } else {
            String::from_str("false")
        };
        rows.push((names[k].clone(), flag));
        k = k + 1;
    }
    rows
}

} // verus!
