//! The fixed binding tables: the metadata, formatting, lookup and study
//! bindings, written once as rows, and the builder that turns rows into
//! binding functions.
use vstd::prelude::*;
use crate::docs::binding_manifest::{args_view, binding_arg, binding_function, fixed_view};
use crate::docs::binding_text::{BindingArg, BindingFunction};

verus! {

/// The names of a binding: id, entity, source, Python module, Python name,
/// Excel name, operation.
pub type NameRow = (&'static str, &'static str, &'static str, &'static str, &'static str, &'static str, &'static str);

/// The texts of a binding: what it returns, its help, and its Rust, Python,
/// xlOil and PyXLL examples.
pub type TextRow = (&'static str, &'static str, &'static str, &'static str, &'static str, &'static str);

/// A pair that belongs to the binding at a position: the position, then the pair.
pub type PairRow = (usize, &'static str, &'static str);


/// The pairs of a table that belong to the binding at position `k`, in order.
pub open spec fn rows_at(table: Seq<PairRow>, k: int) -> Seq<(Seq<char>, Seq<char>)>
    decreases table.len(),
{
    if table.len() == 0 {
        Seq::empty()
    } else if table.last().0 == k {
        rows_at(table.drop_last(), k).push((table.last().1@, table.last().2@))
    } else {
        rows_at(table.drop_last(), k)
    }
}

/// The function is the binding of these rows: its names, texts, arguments and
/// fixed arguments.
pub open spec fn row_matches(
    f: BindingFunction,
    names: NameRow,
    texts: TextRow,
    args: Seq<(Seq<char>, Seq<char>)>,
    fixed: Seq<(Seq<char>, Seq<char>)>,
) -> bool {
    &&& f.id@ == names.0@
    &&& f.entity@ == names.1@
    &&& f.source@ == names.2@
    &&& f.python_module@ == names.3@
    &&& f.python_name@ == names.4@
    &&& f.excel_name@ == names.5@
    &&& f.op@ == names.6@
    &&& fixed_view(f.fixed_args@) == fixed
    &&& args_view(f.args@) == args
    &&& f.returns@ == texts.0@
    &&& f.help@ == texts.1@
    &&& f.rust_example@ == texts.2@
    &&& f.python_example@ == texts.3@
    &&& f.xloil_example@ == texts.4@
    &&& f.pyxll_example@ == texts.5@
}

/// The functions are the bindings of the tables' rows, one per name row, in order.
pub open spec fn table_bindings(
    fs: Seq<BindingFunction>,
    names: Seq<NameRow>,
    texts: Seq<TextRow>,
    args: Seq<PairRow>,
    fixed: Seq<PairRow>,
) -> bool {
    &&& fs.len() == names.len()
    &&& forall|k: int| 0 <= k < fs.len() ==> row_matches(#[trigger] fs[k], names[k], texts[k], rows_at(args, k), rows_at(fixed, k))
}

fn args_at(table: &[PairRow], k: usize) -> (res: Vec<BindingArg>)
    ensures
        args_view(res@) == rows_at(table@, k as int),
{
    let mut res: Vec<BindingArg> = Vec::new();
    let mut j: usize = 0;
    while j < table.len()
        invariant
            j <= table@.len(),
            args_view(res@) == rows_at(table@.subrange(0, j as int), k as int),
        decreases table.len() - j,
    {
        let row = table[j];
        let ghost before = args_view(res@);
        if row.0 == k {
            res.push(binding_arg(row.1, row.2));
            assert(args_view(res@) =~= before.push((row.1@, row.2@)));
        }
        assert(table@.subrange(0, j + 1).drop_last() =~= table@.subrange(0, j as int));
        j = j + 1;
    }
    assert(table@.subrange(0, table@.len() as int) =~= table@);
    res
}

fn fixed_at(table: &[PairRow], k: usize) -> (res: Vec<(String, String)>)
    ensures
        fixed_view(res@) == rows_at(table@, k as int),
{
    let mut res: Vec<(String, String)> = Vec::new();
    let mut j: usize = 0;
    while j < table.len()
        invariant
            j <= table@.len(),
            fixed_view(res@) == rows_at(table@.subrange(0, j as int), k as int),
        decreases table.len() - j,
    {
        let row = table[j];
        let ghost before = fixed_view(res@);
        if row.0 == k {
            res.push((String::from_str(row.1), String::from_str(row.2)));
            assert(fixed_view(res@) =~= before.push((row.1@, row.2@)));
        }
        assert(table@.subrange(0, j + 1).drop_last() =~= table@.subrange(0, j as int));
        j = j + 1;
    }
    assert(table@.subrange(0, table@.len() as int) =~= table@);
    res
}

/// The bindings of the tables' rows, one per name row, in order.
pub fn table_functions(names: &[NameRow], texts: &[TextRow], args: &[PairRow], fixed: &[PairRow]) -> (res: Vec<BindingFunction>)
    requires
        names@.len() == texts@.len(),
    ensures
        table_bindings(res@, names@, texts@, args@, fixed@),
{
    let mut res: Vec<BindingFunction> = Vec::new();
    let mut k: usize = 0;
    while k < names.len()
        invariant
            names@.len() == texts@.len(),
            k <= names@.len(),
            res@.len() == k,
            forall|i: int| 0 <= i < k ==> row_matches(
                #[trigger] res@[i],
                names@[i],
                texts@[i],
                rows_at(args@, i),
                rows_at(fixed@, i),
            ),
        decreases names.len() - k,
    {
        let n = names[k];
        let t = texts[k];
        let f = binding_function(
            n.0,
            n.1,
            n.2,
            n.3,
            n.4,
            n.5,
            n.6,
            fixed_at(fixed, k),
            args_at(args, k),
            t.0,
            t.1,
            t.2,
            t.3,
            t.4,
            t.5,
        );
        res.push(f);
        k = k + 1;
    }
    res
}

/// The names of the metadata, formatting and lookup bindings: id, entity, source, Python module, Python name,
/// Excel name, operation.
pub const METADATA_NAMES: [NameRow; 31] = [
    ("equation.meta", "equation_meta", "equations", "equations.meta", "equation_meta", "ENG_EQUATION_META", "equation.meta"),
    ("equation.ascii", "equation_meta", "equations", "equations.meta", "equation_ascii", "ENG_EQUATION_ASCII", "equation.ascii"),
    ("equation.default_unit", "equation_meta", "equations", "equations.meta", "equation_default_unit", "ENG_EQUATION_DEFAULT_UNIT", "equation.default_unit"),
    ("equation.unicode", "equation_meta", "equations", "equations.meta", "equation_unicode", "ENG_EQUATION_UNICODE", "equation.unicode"),
    ("equation.latex", "equation_meta", "equations", "equations.meta", "equation_latex", "ENG_EQUATION_LATEX", "equation.latex"),
    ("equation.targets", "equation_meta", "equations", "equations.meta", "equation_targets", "ENG_EQUATION_TARGETS", "equation.targets"),
    ("equation.variables", "equation_meta", "equations", "equations.meta", "equation_variables", "ENG_EQUATION_VARIABLES", "equation.variables"),
    ("equation.name", "equation_meta", "equations", "equations.meta", "equation_name", "ENG_EQUATION_NAME", "equation.name"),
    ("equation.description", "equation_meta", "equations", "equations.meta", "equation_description", "ENG_EQUATION_DESCRIPTION", "equation.description"),
    ("equation.family", "equation_meta", "equations", "equations.meta", "equation_family", "ENG_EQUATION_FAMILY", "equation.family"),
    ("format.value", "helper", "helpers", "helpers", "format_value", "ENG_FORMAT", "format.value"),
    ("meta.get", "helper", "helpers", "helpers", "meta_get", "ENG_META", "meta.get"),
    ("fluid.meta.properties", "helper", "fluids", "helpers", "fluid_properties", "ENG_FLUID_PROPERTIES", "meta.get"),
    ("material.meta.properties", "helper", "materials", "helpers", "material_properties", "ENG_MATERIAL_PROPERTIES", "meta.get"),
    ("device.meta.modes", "helper", "devices", "helpers", "device_modes", "ENG_DEVICE_MODES", "meta.get"),
    ("equation.targets.text", "helper", "equations", "helpers", "equation_targets_text", "ENG_EQUATION_TARGETS_TEXT", "equation.targets.text"),
    ("equation.variables.text", "helper", "equations", "helpers", "equation_variables_text", "ENG_EQUATION_VARIABLES_TEXT", "equation.variables.text"),
    ("equation.branches.text", "helper", "equations", "helpers", "equation_branches_text", "ENG_EQUATION_BRANCHES_TEXT", "equation.branches.text"),
    ("equation.targets.table", "helper", "equations", "helpers", "equation_targets_table", "ENG_EQUATION_TARGETS_TABLE", "equation.targets.table"),
    ("equation.variables.table", "helper", "equations", "helpers", "equation_variables_table", "ENG_EQUATION_VARIABLES_TABLE", "equation.variables.table"),
    ("equation.branches.table", "helper", "equations", "helpers", "equation_branches_table", "ENG_EQUATION_BRANCHES_TABLE", "equation.branches.table"),
    ("equation.target.count", "helper", "equations", "helpers", "equation_target_count", "ENG_EQUATION_TARGET_COUNT", "equation.target.count"),
    ("equation.variable.count", "helper", "equations", "helpers", "equation_variable_count", "ENG_EQUATION_VARIABLE_COUNT", "equation.variable.count"),
    ("fluid.properties.text", "helper", "fluids", "helpers", "fluid_properties_text", "ENG_FLUID_PROPERTIES_TEXT", "fluid.properties.text"),
    ("fluid.properties.table", "helper", "fluids", "helpers", "fluid_properties_table", "ENG_FLUID_PROPERTIES_TABLE", "fluid.properties.table"),
    ("fluid.property.count", "helper", "fluids", "helpers", "fluid_property_count", "ENG_FLUID_PROPERTY_COUNT", "fluid.property.count"),
    ("material.properties.text", "helper", "materials", "helpers", "material_properties_text", "ENG_MATERIAL_PROPERTIES_TEXT", "material.properties.text"),
    ("material.properties.table", "helper", "materials", "helpers", "material_properties_table", "ENG_MATERIAL_PROPERTIES_TABLE", "material.properties.table"),
    ("material.property.count", "helper", "materials", "helpers", "material_property_count", "ENG_MATERIAL_PROPERTY_COUNT", "material.property.count"),
    ("device.modes.text", "helper", "devices", "helpers", "device_modes_text", "ENG_DEVICE_MODES_TEXT", "device.modes.text"),
    ("device.mode.count", "helper", "devices", "helpers", "device_mode_count", "ENG_DEVICE_MODE_COUNT", "device.mode.count"),
];

/// The texts of the same bindings, position by position: what they return,
/// their help, and their Rust, Python, xlOil and PyXLL examples.
pub const METADATA_TEXTS: [TextRow; 31] = [
    ("dict", "Read equation metadata (display forms, variables, dimensions, units, targets)", "eng::invoke::process_invoke_json(\"...\")", "engpy.equations.meta.equation_meta(\"fluids.reynolds_number\")", "=ENG_EQUATION_META(\"fluids.reynolds_number\")", "=ENG_EQUATION_META(\"fluids.reynolds_number\")"),
    ("str", "Read ASCII display form for an equation", "eng::invoke::process_invoke_json(\"...\")", "engpy.equations.meta.equation_ascii(\"fluids.reynolds_number\")", "=ENG_EQUATION_ASCII(\"fluids.reynolds_number\")", "=ENG_EQUATION_ASCII(\"fluids.reynolds_number\")"),
    ("str", "Read canonical default unit for one equation variable", "eng::invoke::process_invoke_json(\"...\")", "engpy.equations.meta.equation_default_unit(\"fluids.reynolds_number\", \"mu\")", "=ENG_EQUATION_DEFAULT_UNIT(\"fluids.reynolds_number\",\"mu\")", "=ENG_EQUATION_DEFAULT_UNIT(\"fluids.reynolds_number\",\"mu\")"),
    ("str", "Read Unicode display form for an equation", "eng::invoke::process_invoke_json(\"...\")", "engpy.equations.meta.equation_unicode(\"fluids.reynolds_number\")", "=ENG_EQUATION_UNICODE(\"fluids.reynolds_number\")", "=ENG_EQUATION_UNICODE(\"fluids.reynolds_number\")"),
    ("str", "Read LaTeX display form for an equation", "eng::invoke::process_invoke_json(\"...\")", "engpy.equations.meta.equation_latex(\"fluids.reynolds_number\")", "=ENG_EQUATION_LATEX(\"fluids.reynolds_number\")", "=ENG_EQUATION_LATEX(\"fluids.reynolds_number\")"),
    ("list", "Read solve targets for an equation", "eng::invoke::process_invoke_json(\"...\")", "engpy.equations.meta.equation_targets(\"fluids.reynolds_number\")", "=ENG_EQUATION_TARGETS(\"fluids.reynolds_number\")", "=ENG_EQUATION_TARGETS(\"fluids.reynolds_number\")"),
    ("list", "Read variable metadata for an equation", "eng::invoke::process_invoke_json(\"...\")", "engpy.equations.meta.equation_variables(\"fluids.reynolds_number\")", "=ENG_EQUATION_VARIABLES(\"fluids.reynolds_number\")", "=ENG_EQUATION_VARIABLES(\"fluids.reynolds_number\")"),
    ("str", "Read equation name", "eng::invoke::process_invoke_json(\"...\")", "engpy.equations.meta.equation_name(\"fluids.reynolds_number\")", "=ENG_EQUATION_NAME(\"fluids.reynolds_number\")", "=ENG_EQUATION_NAME(\"fluids.reynolds_number\")"),
    ("str", "Read equation description", "eng::invoke::process_invoke_json(\"...\")", "engpy.equations.meta.equation_description(\"fluids.reynolds_number\")", "=ENG_EQUATION_DESCRIPTION(\"fluids.reynolds_number\")", "=ENG_EQUATION_DESCRIPTION(\"fluids.reynolds_number\")"),
    ("dict|null", "Read parent family/variant metadata for an equation", "eng::invoke::process_invoke_json(\"...\")", "engpy.equations.meta.equation_family(\"thermo.ideal_gas.density\")", "=ENG_EQUATION_FAMILY(\"thermo.ideal_gas.density\")", "=ENG_EQUATION_FAMILY(\"thermo.ideal_gas.density\")"),
    ("f64", "Convert a numeric value from input units to output units (with dimensional checks)", "eng::invoke::process_invoke_json(\"...\")", "engpy.helpers.format_value(2500000, \"Pa\", \"psia\")", "=ENG_FORMAT(2500000,\"Pa\",\"psia\")", "=ENG_FORMAT(2500000,\"Pa\",\"psia\")"),
    ("scalar|list|dict", "General metadata helper for bindings", "eng::invoke::process_invoke_json(\"...\")", "engpy.helpers.meta_get(\"equation\", \"structures.hoop_stress\", \"ascii\")", "=ENG_META(\"equation\",\"structures.hoop_stress\",\"ascii\")", "=ENG_META(\"equation\",\"structures.hoop_stress\",\"ascii\")"),
    ("list", "Read supported properties for a fluid", "eng::invoke::process_invoke_json(\"...\")", "engpy.helpers.fluid_properties(\"H2O\")", "=ENG_FLUID_PROPERTIES(\"H2O\")", "=ENG_FLUID_PROPERTIES(\"H2O\")"),
    ("list", "Read available properties for a material", "eng::invoke::process_invoke_json(\"...\")", "engpy.helpers.material_properties(\"stainless_304\")", "=ENG_MATERIAL_PROPERTIES(\"stainless_304\")", "=ENG_MATERIAL_PROPERTIES(\"stainless_304\")"),
    ("list", "Read supported modes for a device", "eng::invoke::process_invoke_json(\"...\")", "engpy.helpers.device_modes(\"pipe_loss\")", "=ENG_DEVICE_MODES(\"pipe_loss\")", "=ENG_DEVICE_MODES(\"pipe_loss\")"),
    ("str", "Read equation targets as delimited text", "eng::invoke::process_invoke_json(\"...\")", "engpy.helpers.equation_targets_text(\"structures.hoop_stress\")", "=ENG_EQUATION_TARGETS_TEXT(\"structures.hoop_stress\")", "=ENG_EQUATION_TARGETS_TEXT(\"structures.hoop_stress\")"),
    ("str", "Read equation variables as delimited text", "eng::invoke::process_invoke_json(\"...\")", "engpy.helpers.equation_variables_text(\"structures.hoop_stress\")", "=ENG_EQUATION_VARIABLES_TEXT(\"structures.hoop_stress\")", "=ENG_EQUATION_VARIABLES_TEXT(\"structures.hoop_stress\")"),
    ("str", "Read equation branch names as delimited text", "eng::invoke::process_invoke_json(\"...\")", "engpy.helpers.equation_branches_text(\"compressible.area_mach\")", "=ENG_EQUATION_BRANCHES_TEXT(\"compressible.area_mach\")", "=ENG_EQUATION_BRANCHES_TEXT(\"compressible.area_mach\")"),
    ("list[list]", "Read equation targets table rows [target, is_default]", "eng::invoke::process_invoke_json(\"...\")", "engpy.helpers.equation_targets_table(\"structures.hoop_stress\")", "=ENG_EQUATION_TARGETS_TABLE(\"structures.hoop_stress\")", "=ENG_EQUATION_TARGETS_TABLE(\"structures.hoop_stress\")"),
    ("list[list]", "Read equation variable table rows [variable, default_unit]", "eng::invoke::process_invoke_json(\"...\")", "engpy.helpers.equation_variables_table(\"structures.hoop_stress\")", "=ENG_EQUATION_VARIABLES_TABLE(\"structures.hoop_stress\")", "=ENG_EQUATION_VARIABLES_TABLE(\"structures.hoop_stress\")"),
    ("list[list]", "Read equation branch table rows [branch, is_preferred]", "eng::invoke::process_invoke_json(\"...\")", "engpy.helpers.equation_branches_table(\"compressible.area_mach\")", "=ENG_EQUATION_BRANCHES_TABLE(\"compressible.area_mach\")", "=ENG_EQUATION_BRANCHES_TABLE(\"compressible.area_mach\")"),
    ("u64", "Read equation target count", "eng::invoke::process_invoke_json(\"...\")", "engpy.helpers.equation_target_count(\"structures.hoop_stress\")", "=ENG_EQUATION_TARGET_COUNT(\"structures.hoop_stress\")", "=ENG_EQUATION_TARGET_COUNT(\"structures.hoop_stress\")"),
    ("u64", "Read equation variable count", "eng::invoke::process_invoke_json(\"...\")", "engpy.helpers.equation_variable_count(\"structures.hoop_stress\")", "=ENG_EQUATION_VARIABLE_COUNT(\"structures.hoop_stress\")", "=ENG_EQUATION_VARIABLE_COUNT(\"structures.hoop_stress\")"),
    ("str", "Read fluid properties as delimited text", "eng::invoke::process_invoke_json(\"...\")", "engpy.helpers.fluid_properties_text(\"H2O\")", "=ENG_FLUID_PROPERTIES_TEXT(\"H2O\")", "=ENG_FLUID_PROPERTIES_TEXT(\"H2O\")"),
    ("list[list]", "Read fluid property table rows [property, default_unit]", "eng::invoke::process_invoke_json(\"...\")", "engpy.helpers.fluid_properties_table(\"H2O\")", "=ENG_FLUID_PROPERTIES_TABLE(\"H2O\")", "=ENG_FLUID_PROPERTIES_TABLE(\"H2O\")"),
    ("u64", "Read fluid property count", "eng::invoke::process_invoke_json(\"...\")", "engpy.helpers.fluid_property_count(\"H2O\")", "=ENG_FLUID_PROPERTY_COUNT(\"H2O\")", "=ENG_FLUID_PROPERTY_COUNT(\"H2O\")"),
    ("str", "Read material properties as delimited text", "eng::invoke::process_invoke_json(\"...\")", "engpy.helpers.material_properties_text(\"stainless_304\")", "=ENG_MATERIAL_PROPERTIES_TEXT(\"stainless_304\")", "=ENG_MATERIAL_PROPERTIES_TEXT(\"stainless_304\")"),
    ("list[list]", "Read material property table rows [property, unit]", "eng::invoke::process_invoke_json(\"...\")", "engpy.helpers.material_properties_table(\"stainless_304\")", "=ENG_MATERIAL_PROPERTIES_TABLE(\"stainless_304\")", "=ENG_MATERIAL_PROPERTIES_TABLE(\"stainless_304\")"),
    ("u64", "Read material property count", "eng::invoke::process_invoke_json(\"...\")", "engpy.helpers.material_property_count(\"stainless_304\")", "=ENG_MATERIAL_PROPERTY_COUNT(\"stainless_304\")", "=ENG_MATERIAL_PROPERTY_COUNT(\"stainless_304\")"),
    ("str", "Read device modes as delimited text", "eng::invoke::process_invoke_json(\"...\")", "engpy.helpers.device_modes_text(\"pipe_loss\")", "=ENG_DEVICE_MODES_TEXT(\"pipe_loss\")", "=ENG_DEVICE_MODES_TEXT(\"pipe_loss\")"),
    ("u64", "Read device mode count", "eng::invoke::process_invoke_json(\"...\")", "engpy.helpers.device_mode_count(\"pipe_loss\")", "=ENG_DEVICE_MODE_COUNT(\"pipe_loss\")", "=ENG_DEVICE_MODE_COUNT(\"pipe_loss\")"),
];

/// The arguments of the same bindings, in order: binding position, name, description.
pub const METADATA_ARGS: [PairRow; 36] = [
    (0, "path_id", "Equation path id (for example `fluids.reynolds_number`)"),
    (1, "path_id", "Equation path id"),
    (2, "path_id", "Equation path id"),
    (2, "variable", "Variable key (case-insensitive)"),
    (3, "path_id", "Equation path id"),
    (4, "path_id", "Equation path id"),
    (5, "path_id", "Equation path id"),
    (6, "path_id", "Equation path id"),
    (7, "path_id", "Equation path id"),
    (8, "path_id", "Equation path id"),
    (9, "path_id", "Equation path id"),
    (10, "value", "Input value in `in_unit`"),
    (10, "in_unit", "Input unit expression (for example Pa, m, psia, kg/(m*s))"),
    (10, "out_unit", "Requested output unit expression"),
    (11, "entity", "equation | device | fluid | material | constant"),
    (11, "key", "Entity id/key"),
    (11, "field", "Metadata field to read"),
    (12, "key", "Fluid key/alias"),
    (13, "key", "Material key/alias"),
    (14, "key", "Device key"),
    (15, "path_id", "Equation path id"),
    (16, "path_id", "Equation path id"),
    (17, "path_id", "Equation path id"),
    (18, "path_id", "Equation path id"),
    (19, "path_id", "Equation path id"),
    (20, "path_id", "Equation path id"),
    (21, "path_id", "Equation path id"),
    (22, "path_id", "Equation path id"),
    (23, "key", "Fluid key/alias"),
    (24, "key", "Fluid key/alias"),
    (25, "key", "Fluid key/alias"),
    (26, "key", "Material key/alias"),
    (27, "key", "Material key/alias"),
    (28, "key", "Material key/alias"),
    (29, "key", "Device key"),
    (30, "key", "Device key"),
];

/// The fixed arguments of the same bindings, in order: binding position, key, value.
pub const METADATA_FIXED: [PairRow; 6] = [
    (12, "entity", "fluid"),
    (12, "field", "supported_properties"),
    (13, "entity", "material"),
    (13, "field", "properties"),
    (14, "entity", "device"),
    (14, "field", "supported_modes"),
];

/// The names of the study and lookup bindings: id, entity, source, Python module, Python name,
/// Excel name, operation.
pub const STUDY_NAMES: [NameRow; 8] = [
    ("study.equation.sweep", "study", "equation", "study", "equation_sweep_table", "ENG_STUDY_EQUATION_TABLE", "study.equation.sweep"),
    ("study.device.isentropic_m_to_p_p0.table", "study", "device.isentropic_calc", "study", "isentropic_m_to_p_p0_table", "ENG_STUDY_ISENTROPIC_M_TO_P_P0_TABLE", "study.device.isentropic_m_to_p_p0.table"),
    ("study.device.nozzle_flow.table", "study", "device.nozzle_flow_calc", "study", "nozzle_flow_table", "ENG_STUDY_NOZZLE_FLOW_TABLE", "study.device.nozzle_flow.table"),
    ("study.device.normal_shock.table", "study", "device.normal_shock_calc", "study", "normal_shock_table", "ENG_STUDY_NORMAL_SHOCK_TABLE", "study.device.normal_shock.table"),
    ("study.workflow.nozzle_normal_shock.table", "study", "solve.workflow.nozzle_normal_shock", "study", "nozzle_normal_shock_workflow_table", "ENG_STUDY_NOZZLE_NORMAL_SHOCK_WORKFLOW_TABLE", "study.workflow.nozzle_normal_shock.table"),
    ("fluid.prop", "fluid", "fluids", "fluids", "fluid_prop", "ENG_FLUID_PROP", "fluid.prop"),
    ("material.prop", "material", "materials", "materials", "mat_prop", "ENG_MAT_PROP", "material.prop"),
    ("constant.get", "constant", "constants", "constants", "get_constant", "ENG_CONST", "constant.get"),
];

/// The texts of the same bindings, position by position: what they return,
/// their help, and their Rust, Python, xlOil and PyXLL examples.
pub const STUDY_TEXTS: [TextRow; 8] = [
    ("dict(table, spill)", "Generic equation study sweep table (1D axis)", "eng::solve::run_equation_study(...)", "engpy.study.equation_sweep_table(path_id=\"compressible.isentropic_pressure_ratio\", target=\"p_p0\", sweep_variable=\"M\", start=0.2, end=3.0, count=20, spacing=\"linear\")", "=ENG_STUDY_EQUATION_TABLE(\"compressible.isentropic_pressure_ratio\",\"p_p0\",\"M\",0.2,3,20,\"linear\",\"\")", "=ENG_STUDY_EQUATION_TABLE(\"compressible.isentropic_pressure_ratio\",\"p_p0\",\"M\",0.2,3,20,\"linear\",\"\")"),
    ("dict(table, spill)", "Study table for isentropic device Mach -> p/p0", "eng::solve::study_isentropic_m_to_p_p0(1.4, eng::solve::SweepAxis::linspace(0.2, 3.0, 21), None)", "engpy.study.isentropic_m_to_p_p0_table(gamma=1.4, start=0.2, end=3.0, count=21)", "=ENG_STUDY_ISENTROPIC_M_TO_P_P0_TABLE(1.4,0.2,3,21,\"\")", "=ENG_STUDY_ISENTROPIC_M_TO_P_P0_TABLE(1.4,0.2,3,21,\"\")"),
    ("dict(table, spill)", "Study table for nozzle-flow device over area ratio", "eng::solve::study_nozzle_flow_area_ratio(1.4, eng::solve::SweepAxis::linspace(1.2, 3.0, 20), eng::devices::NozzleFlowBranch::Supersonic)", "engpy.study.nozzle_flow_table(gamma=1.4, start=1.2, end=3.0, count=20, branch=\"supersonic\")", "=ENG_STUDY_NOZZLE_FLOW_TABLE(1.4,1.2,3,20,\"supersonic\")", "=ENG_STUDY_NOZZLE_FLOW_TABLE(1.4,1.2,3,20,\"supersonic\")"),
    ("dict(table, spill)", "Study table for normal-shock device over M1", "eng::solve::study_normal_shock_m1(1.4, eng::solve::SweepAxis::linspace(1.05, 4.0, 20))", "engpy.study.normal_shock_table(gamma=1.4, start=1.05, end=4.0, count=20)", "=ENG_STUDY_NORMAL_SHOCK_TABLE(1.4,1.05,4,20)", "=ENG_STUDY_NORMAL_SHOCK_TABLE(1.4,1.05,4,20)"),
    ("dict(table, spill)", "Study table for nozzle + normal-shock chained workflow", "eng::solve::study_nozzle_normal_shock_workflow(1.4, eng::solve::SweepAxis::linspace(1.2, 3.0, 20), eng::devices::NozzleFlowBranch::Supersonic)", "engpy.study.nozzle_normal_shock_workflow_table(gamma=1.4, start=1.2, end=3.0, count=20, branch=\"supersonic\")", "=ENG_STUDY_NOZZLE_NORMAL_SHOCK_WORKFLOW_TABLE(1.4,1.2,3,20,\"supersonic\")", "=ENG_STUDY_NOZZLE_NORMAL_SHOCK_WORKFLOW_TABLE(1.4,1.2,3,20,\"supersonic\")"),
    ("f64", "Binding-friendly fluid property lookup", "fluids::water().state_tp(\"300 K\", \"1 bar\")?.rho()?", "engpy.fluids.fluid_prop(\"H2O\", \"T\", \"300 K\", \"P\", \"1 bar\", \"rho\")", "=ENG_FLUID_PROP(\"H2O\",\"T\",\"300 K\",\"P\",\"1 bar\",\"rho\")", "=ENG_FLUID_PROP(\"H2O\",\"T\",\"300 K\",\"P\",\"1 bar\",\"rho\")"),
    ("f64", "Binding-friendly material property lookup", "materials::stainless_304().temperature(\"350 K\")?.property(\"elastic_modulus\")?", "engpy.materials.mat_prop(\"stainless_304\", \"elastic_modulus\", \"350 K\")", "=ENG_MAT_PROP(\"stainless_304\",\"elastic_modulus\",\"350 K\")", "=ENG_MAT_PROP(\"stainless_304\",\"elastic_modulus\",\"350 K\")"),
    ("f64", "Get constant value from registry", "equations::get_constant(\"g0\")?.value", "engpy.constants.get_constant(\"g0\")", "=ENG_CONST(\"g0\")", "=ENG_CONST(\"g0\")"),
];

/// The arguments of the same bindings, in order: binding position, name, description.
pub const STUDY_ARGS: [PairRow; 37] = [
    (0, "path_id", "Equation path id"),
    (0, "target", "Solve target key"),
    (0, "sweep_variable", "Variable to sweep"),
    (0, "start", "Sweep start"),
    (0, "end", "Sweep end"),
    (0, "count", "Number of samples"),
    (0, "spacing", "Spacing mode (linear or logspace)"),
    (0, "branch", "Optional branch"),
    (1, "gamma", "Specific heat ratio"),
    (1, "start", "Mach start"),
    (1, "end", "Mach end"),
    (1, "count", "Sample count"),
    (1, "branch", "Optional branch"),
    (2, "gamma", "Specific heat ratio"),
    (2, "start", "Area-ratio start"),
    (2, "end", "Area-ratio end"),
    (2, "count", "Sample count"),
    (2, "branch", "Branch (subsonic/supersonic)"),
    (3, "gamma", "Specific heat ratio"),
    (3, "start", "M1 start"),
    (3, "end", "M1 end"),
    (3, "count", "Sample count"),
    (4, "gamma", "Specific heat ratio"),
    (4, "start", "Area-ratio start"),
    (4, "end", "Area-ratio end"),
    (4, "count", "Sample count"),
    (4, "branch", "Nozzle branch (subsonic/supersonic)"),
    (5, "fluid", "Fluid key/name"),
    (5, "in1_key", "State input key 1"),
    (5, "in1_value", "State input value 1"),
    (5, "in2_key", "State input key 2"),
    (5, "in2_value", "State input value 2"),
    (5, "out_prop", "Output property key"),
    (6, "material", "Material key/name"),
    (6, "property", "Property key"),
    (6, "temperature", "Temperature input"),
    (7, "key", "Constant key"),
];

/// The fixed arguments of the same bindings, in order: binding position, key, value.
pub const STUDY_FIXED: [PairRow; 0] = [
];

} // verus!
