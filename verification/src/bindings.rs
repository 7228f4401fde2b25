//! The JSON invoke protocol: its version, the operations it lists with their
//! descriptions, the shapes of requests and responses, and how a request is routed.
use vstd::prelude::*;
use crate::strings::{push_str, str_views, views};
use crate::text::str_eq;

verus! {

/// The protocol version that requests must carry.
pub const INVOKE_PROTOCOL_VERSION: &'static str = "eng-invoke.v1";

/// The operations that the protocol lists, in catalog order.
pub const INVOKE_SUPPORTED_OPS: [&'static str; 52] = [
    "equation.solve",
    "equation.meta",
    "equation.ascii",
    "equation.default_unit",
    "equation.unicode",
    "equation.latex",
    "equation.targets",
    "equation.variables",
    "equation.name",
    "equation.description",
    "equation.family",
    "equation.targets.text",
    "equation.targets.table",
    "equation.target.count",
    "equation.branches.text",
    "equation.branches.table",
    "equation.variables.text",
    "equation.variables.table",
    "equation.variable.count",
    "format.value",
    "meta.get",
    "fluid.properties.text",
    "fluid.properties.table",
    "fluid.property.count",
    "material.properties.text",
    "material.properties.table",
    "material.property.count",
    "device.modes.text",
    "device.mode.count",
    "device.isentropic_calc",
    "device.isentropic_calc.value",
    "device.isentropic_calc.pivot_mach",
    "device.isentropic_calc.path_text",
    "device.normal_shock_calc",
    "device.normal_shock_calc.value",
    "device.normal_shock_calc.pivot_m1",
    "device.normal_shock_calc.path_text",
    "device.oblique_shock_calc",
    "device.oblique_shock_calc.value",
    "device.oblique_shock_calc.path_text",
    "device.fanno_flow_calc",
    "device.fanno_flow_calc.value",
    "device.fanno_flow_calc.pivot_mach",
    "device.fanno_flow_calc.path_text",
    "device.rayleigh_calc",
    "device.rayleigh_calc.value",
    "device.rayleigh_calc.pivot_mach",
    "device.rayleigh_calc.path_text",
    "device.pipe_loss.solve_delta_p",
    "fluid.prop",
    "material.prop",
    "constant.get",
];

/// The description of each supported operation, position by position.
pub const INVOKE_OPERATION_DESCRIPTIONS: [&'static str; 52] = [
    "Solve an equation target with named inputs",
    "Read structured equation metadata (display, variables, units, targets)",
    "Read ASCII equation display form for one equation",
    "Read one variable's canonical default unit for an equation",
    "Read Unicode equation display form for one equation",
    "Read LaTeX equation display form for one equation",
    "Read solve targets supported by one equation",
    "Read equation variable keys",
    "Read equation display name",
    "Read equation description",
    "Read parent equation family metadata when available",
    "Read equation targets as one deterministic delimited string",
    "Read equation targets as 2-column table rows",
    "Read equation target count",
    "Read equation branches as one deterministic delimited string",
    "Read equation branches as 2-column table rows [branch, is_preferred]",
    "Read equation variables as one deterministic delimited string",
    "Read equation variables as 2-column table rows",
    "Read equation variable count",
    "Convert values between explicit input/output units",
    "Read scalar/list metadata from equation/device/fluid/material/constant",
    "Read fluid properties as one deterministic delimited string",
    "Read fluid properties as 2-column table rows",
    "Read fluid property count",
    "Read material properties as one deterministic delimited string",
    "Read material properties as 2-column table rows",
    "Read material property count",
    "Read device supported modes as one deterministic delimited string",
    "Read device supported mode count",
    "Run isentropic calculator device and return value+pivot+path diagnostics",
    "Run isentropic calculator device and return scalar output value",
    "Run isentropic calculator device and return resolved pivot Mach",
    "Run isentropic calculator device and return compact path trace text",
    "Run normal-shock calculator device and return value+pivot+path diagnostics",
    "Run normal-shock calculator device and return scalar output value",
    "Run normal-shock calculator device and return resolved pivot M1",
    "Run normal-shock calculator device and return compact path trace text",
    "Run oblique-shock calculator device and return value+resolved geometry+path diagnostics",
    "Run oblique-shock calculator device and return scalar output value",
    "Run oblique-shock calculator device and return compact path trace text",
    "Run Fanno-flow calculator device and return value+pivot+path diagnostics",
    "Run Fanno-flow calculator device and return scalar output value",
    "Run Fanno-flow calculator device and return resolved pivot Mach",
    "Run Fanno-flow calculator device and return compact path trace text",
    "Run Rayleigh-flow calculator device and return value+pivot+path diagnostics",
    "Run Rayleigh-flow calculator device and return scalar output value",
    "Run Rayleigh-flow calculator device and return resolved pivot Mach",
    "Run Rayleigh-flow calculator device and return compact path trace text",
    "Solve pipe-loss device pressure drop",
    "Resolve one fluid property from a fluid state pair",
    "Resolve one material property at a given temperature",
    "Read one engineering constant value",
];

/// The protocol version as an owned string, the default of a request that names none.
pub fn default_protocol_version() -> (res: String)
    ensures
        res@ == INVOKE_PROTOCOL_VERSION@,
{
    String::from_str(INVOKE_PROTOCOL_VERSION)
}

/// The description of `op`, looked up from position `i` of the catalog onward:
/// the description beside the first listed name equal to `op`, else `Operation`.
pub open spec fn description_from(op: Seq<char>, i: int) -> Seq<char>
    decreases INVOKE_SUPPORTED_OPS@.len() - i,
{
    if i < 0 || i >= INVOKE_SUPPORTED_OPS@.len() {
        "Operation"@
    } else if INVOKE_SUPPORTED_OPS@[i]@ == op {
        INVOKE_OPERATION_DESCRIPTIONS@[i]@
    } else {
        description_from(op, i + 1)
    }
}

/// The description of an operation name: that of its first catalog entry, or
/// `Operation` for a name that the catalog does not list.
pub open spec fn description_of(op: Seq<char>) -> Seq<char> {
    description_from(op, 0)
}

/// Looks up the description of an operation name.
pub fn operation_description(op: &str) -> (res: &'static str)
    ensures
        res@ == description_of(op@),
{
    let mut i: usize = 0;
    while i < INVOKE_SUPPORTED_OPS.len()
        invariant
            i <= INVOKE_SUPPORTED_OPS@.len(),
            description_from(op@, i as int) == description_of(op@),
        decreases INVOKE_SUPPORTED_OPS@.len() - i,
    {
        if str_eq(INVOKE_SUPPORTED_OPS[i], op) {
            return INVOKE_OPERATION_DESCRIPTIONS[i];
        }
        i = i + 1;
    }
    "Operation"
}

/// The required and optional fields of a request or response.
#[derive(Debug, Clone)]
pub struct InvokeShapeDoc {
    pub required_fields: Vec<String>,
    pub optional_fields: Vec<String>,
}

/// One catalog operation and its description.
#[derive(Debug, Clone)]
pub struct InvokeOperationDoc {
    pub op: String,
    pub description: String,
}

/// The machine-readable description of the protocol.
#[derive(Debug, Clone)]
pub struct InvokeProtocolSpec {
    pub protocol_version: String,
    pub request_shape: InvokeShapeDoc,
    pub success_response_shape: InvokeShapeDoc,
    pub error_response_shape: InvokeShapeDoc,
    pub operations: Vec<InvokeOperationDoc>,
}

pub open spec fn request_required() -> Seq<Seq<char>> {
    seq!["protocol_version"@, "op"@, "args"@]
}

pub open spec fn request_optional() -> Seq<Seq<char>> {
    seq!["request_id"@]
}

pub open spec fn success_required() -> Seq<Seq<char>> {
    seq!["protocol_version"@, "op"@, "ok"@, "value"@]
}

pub open spec fn success_optional() -> Seq<Seq<char>> {
    seq!["request_id"@, "error"@]
}

pub open spec fn error_required() -> Seq<Seq<char>> {
    seq!["protocol_version"@, "op"@, "ok"@, "error.code"@, "error.message"@]
}

pub open spec fn error_optional() -> Seq<Seq<char>> {
    seq!["request_id"@, "value"@, "error.field"@, "error.detail"@]
}

fn owned_all(parts: &[&str]) -> (res: Vec<String>)
    ensures
        views(res@) == str_views(parts@),
{
    let mut res: Vec<String> = Vec::new();
    let mut i: usize = 0;
    while i < parts.len()
        invariant
            i <= parts@.len(),
            views(res@) == str_views(parts@.subrange(0, i as int)),
        decreases parts@.len() - i,
    {
        res.push(String::from_str(parts[i]));
        proof {
            assert(str_views(parts@.subrange(0, i + 1)) =~= str_views(parts@.subrange(0, i as int)).push(parts@[i as int]@));
            assert(views(res@) =~= views(res@.drop_last()).push(res@.last()@));
        }
        i = i + 1;
    }
    assert(parts@.subrange(0, parts@.len() as int) =~= parts@);
    res
}

fn shape(required: &[&str], optional: &[&str]) -> (s: InvokeShapeDoc)
    ensures
        views(s.required_fields@) == str_views(required@),
        views(s.optional_fields@) == str_views(optional@),
{
    InvokeShapeDoc { required_fields: owned_all(required), optional_fields: owned_all(optional) }
}

/// The protocol description: the version, the field shapes of a request, of a
/// success and of an error response, and every catalog operation in order with
/// its description.
pub fn invoke_protocol_spec() -> (spec: InvokeProtocolSpec)
    ensures
        spec.protocol_version@ == INVOKE_PROTOCOL_VERSION@,
        views(spec.request_shape.required_fields@) == request_required(),
        views(spec.request_shape.optional_fields@) == request_optional(),
        views(spec.success_response_shape.required_fields@) == success_required(),
        views(spec.success_response_shape.optional_fields@) == success_optional(),
        views(spec.error_response_shape.required_fields@) == error_required(),
        views(spec.error_response_shape.optional_fields@) == error_optional(),
        spec.operations.len() == INVOKE_SUPPORTED_OPS@.len(),
        forall|i: int| 0 <= i < spec.operations.len() ==> {
            &&& (#[trigger] spec.operations[i]).op@ == INVOKE_SUPPORTED_OPS@[i]@
            &&& spec.operations[i].description@ == description_of(INVOKE_SUPPORTED_OPS@[i]@)
        },
{
    let request_shape = shape(&["protocol_version", "op", "args"], &["request_id"]);
    let success_response_shape = shape(&["protocol_version", "op", "ok", "value"], &["request_id", "error"]);
    let error_response_shape = shape(
        &["protocol_version", "op", "ok", "error.code", "error.message"],
        &["request_id", "value", "error.field", "error.detail"],
    );
    proof {
        assert(str_views(seq!["protocol_version", "op", "args"]) =~= request_required());
        assert(str_views(seq!["request_id"]) =~= request_optional());
        assert(str_views(seq!["protocol_version", "op", "ok", "value"]) =~= success_required());
        assert(str_views(seq!["request_id", "error"]) =~= success_optional());
        assert(str_views(seq!["protocol_version", "op", "ok", "error.code", "error.message"]) =~= error_required());
        assert(str_views(seq!["request_id", "value", "error.field", "error.detail"]) =~= error_optional());
    }
    let mut operations: Vec<InvokeOperationDoc> = Vec::new();
    let mut i: usize = 0;
    while i < INVOKE_SUPPORTED_OPS.len()
        invariant
            i <= INVOKE_SUPPORTED_OPS@.len(),
            operations.len() == i,
            forall|k: int| 0 <= k < i ==> {
                &&& (#[trigger] operations@[k]).op@ == INVOKE_SUPPORTED_OPS@[k]@
                &&& operations@[k].description@ == description_of(INVOKE_SUPPORTED_OPS@[k]@)
            },
        decreases INVOKE_SUPPORTED_OPS@.len() - i,
    {
        let op = INVOKE_SUPPORTED_OPS[i];
        let description = operation_description(op);
        operations.push(InvokeOperationDoc { op: String::from_str(op), description: String::from_str(description) });
        i = i + 1;
    }
    InvokeProtocolSpec {
        protocol_version: default_protocol_version(),
        request_shape,
        success_response_shape,
        error_response_shape,
        operations,
    }
}

} // verus!
