use eng::bindings::{
    default_protocol_version, invoke_protocol_spec, operation_description, INVOKE_PROTOCOL_VERSION,
    INVOKE_SUPPORTED_OPS,
};
use eng::invoke::{
    canonical_dimension, parse_friction_model, parse_invoke_op, protocol_mismatch_message, refusal_for, route_invoke,
    FrictionModelChoice, InvokeOp, InvokeRoute, device_call, list_query, list_text, list_table, branch_table, CalcDevice,
    CalcOutput, ListShape, ListSubject,
};

#[test]
fn protocol_version_is_the_default() {
    assert_eq!(default_protocol_version(), "eng-invoke.v1");
    assert_eq!(INVOKE_PROTOCOL_VERSION, "eng-invoke.v1");
}

#[test]
fn protocol_spec_lists_every_operation_in_order() {
    let spec = invoke_protocol_spec();
    assert_eq!(spec.protocol_version, INVOKE_PROTOCOL_VERSION);
    assert_eq!(spec.operations.len(), INVOKE_SUPPORTED_OPS.len());
    for (doc, op) in spec.operations.iter().zip(INVOKE_SUPPORTED_OPS.iter()) {
        assert_eq!(doc.op, *op);
        assert_ne!(doc.description, "Operation");
    }
    assert_eq!(spec.operations[0].description, "Solve an equation target with named inputs");
    assert_eq!(spec.request_shape.required_fields, vec!["protocol_version", "op", "args"]);
    assert_eq!(spec.request_shape.optional_fields, vec!["request_id"]);
    assert_eq!(spec.success_response_shape.required_fields, vec!["protocol_version", "op", "ok", "value"]);
    assert_eq!(spec.error_response_shape.required_fields, vec!["protocol_version", "op", "ok", "error.code", "error.message"]);
    assert_eq!(spec.error_response_shape.optional_fields, vec!["request_id", "value", "error.field", "error.detail"]);
}

#[test]
fn unknown_operation_has_the_generic_description() {
    assert_eq!(operation_description("no.such.op"), "Operation");
    assert_eq!(operation_description("constant.get"), "Read one engineering constant value");
}

#[test]
fn foreign_version_is_refused_before_routing() {
    assert_eq!(route_invoke("eng-invoke.v0", "equation.solve"), InvokeRoute::ProtocolMismatch);
    let refusal = refusal_for(InvokeRoute::ProtocolMismatch, "eng-invoke.v0").unwrap();
    assert_eq!(refusal.code, "protocol_version_mismatch");
    assert_eq!(refusal.field, "protocol_version");
    assert_eq!(refusal.message, "unsupported protocol version 'eng-invoke.v0'; expected 'eng-invoke.v1'");
    assert_eq!(protocol_mismatch_message(""), "unsupported protocol version ''; expected 'eng-invoke.v1'");
}

#[test]
fn handled_operations_are_dispatched() {
    assert_eq!(route_invoke("eng-invoke.v1", "equation.solve"), InvokeRoute::Dispatch(InvokeOp::EquationSolve));
    assert_eq!(route_invoke("eng-invoke.v1", "constant.get"), InvokeRoute::Dispatch(InvokeOp::ConstantGet));
    assert_eq!(
        route_invoke("eng-invoke.v1", "device.pipe_loss.solve_delta_p"),
        InvokeRoute::Dispatch(InvokeOp::PipeLossSolveDeltaP)
    );
    assert!(refusal_for(InvokeRoute::Dispatch(InvokeOp::MetaGet), "eng-invoke.v1").is_none());
    for op in [InvokeOp::EquationMeta, InvokeOp::FormatValue, InvokeOp::FluidProp, InvokeOp::MaterialProp] {
        assert_eq!(parse_invoke_op(op.as_str()), Some(op));
        assert!(INVOKE_SUPPORTED_OPS.contains(&op.as_str()));
    }
}

#[test]
fn every_listed_operation_is_dispatched_by_name() {
    for name in INVOKE_SUPPORTED_OPS {
        match route_invoke("eng-invoke.v1", name) {
            InvokeRoute::Dispatch(op) => assert_eq!(op.as_str(), name),
            other => panic!("{name} routed to {other:?}"),
        }
    }
    assert_eq!(
        route_invoke("eng-invoke.v1", "device.fanno_flow_calc.value"),
        InvokeRoute::Dispatch(InvokeOp::DeviceFannoFlowCalcValue)
    );
    assert_eq!(
        device_call(InvokeOp::DeviceFannoFlowCalcValue),
        Some((CalcDevice::FannoFlow, CalcOutput::Value))
    );
    assert_eq!(device_call(InvokeOp::DeviceNormalShockCalcPivotM1), Some((CalcDevice::NormalShock, CalcOutput::Pivot)));
    assert_eq!(device_call(InvokeOp::DeviceIsentropicCalc), Some((CalcDevice::Isentropic, CalcOutput::Full)));
    assert_eq!(device_call(InvokeOp::MetaGet), None);
    assert_eq!(
        list_query(InvokeOp::EquationTargetCount),
        Some((ListSubject::EquationTargets, ListShape::Count))
    );
    assert_eq!(list_query(InvokeOp::DeviceModesText), Some((ListSubject::DeviceModes, ListShape::Text)));
    assert_eq!(list_query(InvokeOp::DeviceFannoFlowCalc), None);
}

#[test]
fn list_answers() {
    let items = vec!["Re".to_string(), "mu".to_string()];
    assert_eq!(list_text(&items), "Re, mu");
    assert_eq!(list_text(&vec![]), "");
    assert_eq!(
        list_table(&items),
        vec![("1".to_string(), "Re".to_string()), ("2".to_string(), "mu".to_string())]
    );
    assert_eq!(
        branch_table(&items, &vec![false, true]),
        vec![("Re".to_string(), "false".to_string()), ("mu".to_string(), "true".to_string())]
    );
}

#[test]
fn unhandled_operations_are_unknown() {
    assert_eq!(route_invoke("eng-invoke.v1", "equation.targets.csv"), InvokeRoute::UnknownOperation);
    assert_eq!(route_invoke("eng-invoke.v1", "Equation.Solve"), InvokeRoute::UnknownOperation);
    let refusal = refusal_for(InvokeRoute::UnknownOperation, "eng-invoke.v1").unwrap();
    assert_eq!(refusal.code, "unknown_operation");
    assert_eq!(refusal.field, "op");
    assert_eq!(refusal.message, "unsupported invoke operation");
}

#[test]
fn dimension_aliases_are_canonicalised() {
    assert_eq!(canonical_dimension("Stress"), "pressure");
    assert_eq!(canonical_dimension("  temp "), "temperature");
    assert_eq!(canonical_dimension("Dynamic Viscosity"), "viscosity");
    assert_eq!(canonical_dimension("mass flow"), "mass_flow_rate");
    assert_eq!(canonical_dimension("Roughness"), "length");
    assert_eq!(canonical_dimension("friction_factor"), "dimensionless");
    assert_eq!(canonical_dimension("Heat Flux"), "heat_flux");
}

#[test]
fn friction_model_defaults_to_colebrook() {
    assert_eq!(parse_friction_model(None).ok(), Some(FrictionModelChoice::Colebrook));
    assert_eq!(parse_friction_model(Some("colebrook")).ok(), Some(FrictionModelChoice::Colebrook));
    assert_eq!(parse_friction_model(Some("Fixed")).ok(), Some(FrictionModelChoice::Fixed));
    let r = parse_friction_model(Some("FIXED")).err().unwrap();
    assert_eq!(r.code, "invalid_arg_value");
    assert_eq!(r.field, "friction_model");
    assert_eq!(r.message, "invalid friction_model 'FIXED' (use Colebrook or Fixed)");
}
