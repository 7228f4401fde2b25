use eng::devices::DeviceDocsEntry;
use eng::docs::binding_text::{
    excel_param_name_for_op, render_binding_arg_bullets_for_excel_signature, render_excel_example_args,
    render_excel_help_block, render_python_docstring, render_python_example_args, BindingArg, BindingFunction,
    BindingManifest,
};
use eng::docs::device_pages::{device_equation_dependencies, render_binding_examples_for_device, render_device_page, render_devices_guide};
use eng::docs::excel_modules::{render_pyxll_module, render_xloil_module};
use eng::docs::naming::{humanize_path_id, snake_case, title_case};
use eng::docs::output::{default_book_root, default_pdf_path, html_export_report, join, mdbook_paths, HtmlBuildStatus, MdBookBuildOutcome};
use eng::docs::ordered_names::{insert_sorted, lex_less};
use eng::docs::summary_cards::{render_equation_summary_cards, EquationSummaryCardRow, SUMMARY_CARD_STYLE};
use eng::docs::pages::{
    missing_mdbook_message, render_bindings_guide, render_getting_started, render_mdbook_readme, render_python_runtime,
    DocSnippets, MISSING_MDBOOK_MESSAGE,
};
use eng::docs::python_modules::{
    render_python_constants_module, render_python_devices_module, render_python_helpers_module, render_python_package_init,
    render_python_study_module,
};

fn arg(name: &str, description: &str) -> BindingArg {
    BindingArg { name: name.to_string(), description: description.to_string() }
}

fn function(module: &str, name: &str, op: &str, args: Vec<BindingArg>, fixed: Vec<(&str, &str)>) -> BindingFunction {
    BindingFunction {
        id: format!("{module}.{name}"),
        entity: "test".to_string(),
        source: "test".to_string(),
        python_module: module.to_string(),
        python_name: name.to_string(),
        excel_name: format!("ENG_{}", name.to_uppercase()),
        op: op.to_string(),
        fixed_args: fixed.into_iter().map(|(k, v)| (k.to_string(), v.to_string())).collect(),
        args,
        returns: "f64".to_string(),
        help: "Does a \"thing\"".to_string(),
        rust_example: String::new(),
        python_example: String::new(),
        xloil_example: String::new(),
        pyxll_example: "=ENG_X()".to_string(),
    }
}

fn snippets() -> DocSnippets {
    let s = |t: &str| format!("  {t}\n");
    DocSnippets {
        top_level_import: s("use eng::*;"),
        simple_equation_solve: s("solve();"),
        typed_unit_input: s("typed();"),
        qty_macro_input: s("qty();"),
        runtime_string_input: s("runtime();"),
        fluid_property_lookup: s("fluid();"),
        fluid_state_constructors: s("state();"),
        fluid_saturation_metadata: s("sat();"),
        material_property_lookup: s("mat();"),
        context_solve: s("ctx();"),
        family_variant_access: s("family();"),
        device_pipe_loss_fixed: s("fixed();"),
        device_pipe_loss_colebrook_direct: s("direct();"),
        device_pipe_loss_colebrook_fluid: s("fluid_ctx();"),
    }
}

#[test]
fn snake_case_splits_words_and_trims() {
    assert_eq!(snake_case("ENG_FANNO_FLOW"), "e_n_g_f_a_n_n_o_f_l_o_w");
    assert_eq!(snake_case("eng_fanno_flow"), "eng_fanno_flow");
    assert_eq!(snake_case("inputKind"), "input_kind");
    assert_eq!(snake_case("  p/p0 ratio!"), "p_p0_ratio");
    assert_eq!(snake_case("__x__"), "x");
    assert_eq!(snake_case(""), "");
}

#[test]
fn snake_case_gives_canonical_names() {
    for input in ["PrandtlMeyer Angle", "  p/p0 ratio!", "__x__", "A__B", "mach_angle_rad", "T0/T", ""] {
        let r = snake_case(input);
        assert!(r.chars().all(|c| c.is_ascii_lowercase() || c.is_ascii_digit() || c == '_'));
        assert!(!r.starts_with('_') && !r.ends_with('_') && !r.contains("__"));
        assert_eq!(snake_case(&r), r);
    }
    assert_eq!(snake_case("PrandtlMeyer Angle"), "prandtl_meyer_angle");
    assert_eq!(snake_case("A__B"), "a_b");
}

#[test]
fn title_case_capitalises_pieces() {
    assert_eq!(title_case("reynolds_number"), "Reynolds Number");
    assert_eq!(title_case("__a__b"), "A B");
    assert_eq!(title_case(""), "");
    assert_eq!(humanize_path_id("fluids.reynolds_number"), "Fluids Reynolds Number");
    assert_eq!(humanize_path_id("a..b"), "A  B");
}

#[test]
fn excel_names_follow_the_rename_table() {
    assert_eq!(excel_param_name_for_op("device.pipe_loss.solve_delta_p", "rho"), "density");
    assert_eq!(excel_param_name_for_op("device.isentropic_calc.value", "input_kind"), "value_kind_in");
    assert_eq!(excel_param_name_for_op("device.fanno_flow_calc.value", "input_kind"), "value_kind_in");
    assert_eq!(excel_param_name_for_op("device.fanno_flow_calc.pivot_mach", "input_value"), "value_in");
    assert_eq!(excel_param_name_for_op("device.oblique_shock_calc.path_text", "target_kind"), "target_kind_out");
    assert_eq!(excel_param_name_for_op("device.conical_shock_calc", "input_value"), "value_in");
    assert_eq!(excel_param_name_for_op("device.rayleigh_calc.value", "input_kind"), "input_kind");
    assert_eq!(excel_param_name_for_op("fluid.prop", "in2_value"), "state_value_2");
    assert_eq!(excel_param_name_for_op("fluid.prop", "Rho"), "rho");
    assert_eq!(excel_param_name_for_op("material.prop", "property"), "property_key");
}

#[test]
fn example_argument_lists() {
    let args = vec![arg("inputKind", "x"), arg("gamma", "y")];
    assert_eq!(render_python_example_args(&args), "input_kind=\"...\", gamma=\"...\"");
    assert_eq!(render_excel_example_args(&args), "\"...\",\"...\"");
    assert_eq!(render_excel_example_args(&[]), "");
}

#[test]
fn docstrings_and_help_blocks() {
    let f = function("helpers", "thing", "meta.get", vec![arg("Key", " the key "), arg("branch", "branch")], vec![]);
    assert_eq!(
        render_python_docstring(&f),
        "Does a \"thing\"\n\nArgs:\n  key:  the key \n  branch: branch\nReturns:\n  f64\n"
    );
    let mut g = f.clone();
    g.help = "say \"\"\"hi\"\"\"".to_string();
    g.args.clear();
    assert_eq!(render_python_docstring(&g), "say '''hi'''\n\nArgs:\n  (none)\nReturns:\n  f64\n");
    assert_eq!(
        render_excel_help_block(&f),
        "Does a \"thing\" | Arguments: | - key: the key | - branch: branch | Returns: f64 | Example: =ENG_X()"
    );
    assert_eq!(render_binding_arg_bullets_for_excel_signature(&[], "x"), "- `(no args)`\n");
    assert_eq!(
        render_binding_arg_bullets_for_excel_signature(&[arg("mu", " viscosity ")], "device.pipe_loss.solve_delta_p"),
        "- `viscosity`: viscosity\n"
    );
}

fn manifest() -> BindingManifest {
    BindingManifest {
        schema_version: "1",
        generated_from: "catalog.json",
        python_package: "engpy".to_string(),
        functions: vec![
            function("constants", "const_get", "constant.get", vec![arg("key", "k")], vec![]),
            function("helpers", "meta_get", "meta.get", vec![arg("entity", "e")], vec![("field", "name")]),
            function("study", "sweep", "study.equation.table", vec![arg("start", "s")], vec![]),
            function("devices", "dev_calc", "device.fanno_flow_calc.value", vec![arg("gamma", "g"), arg("branch", "b")], vec![("input_kind", "mach")]),
            function("devices", "pipe_loss_solve_delta_p", "device.pipe_loss.solve_delta_p", vec![], vec![]),
        ],
    }
}

#[test]
fn python_modules_forward_to_invoke() {
    let m = manifest();
    let c = render_python_constants_module(&m);
    assert!(c.starts_with("from ._runtime import invoke\n\ndef const_get(key):\n    \"\"\"Does a \"thing\"\n\nArgs:\n  key: k\nReturns:\n  f64\n\"\"\"\n    return invoke(\"constant.get\", {\"key\": key})\n\n"));
    assert!(!c.contains("meta_get"));
    let h = render_python_helpers_module(&m);
    assert!(h.contains("def meta_get(entity):"));
    assert!(h.contains("return invoke(\"meta.get\", {\"field\": \"name\", \"entity\": entity})"));
    let s = render_python_study_module(&m);
    assert!(s.contains("def sweep(start=None):"));
    assert!(s.contains("{**({\"start\": start} if start is not None else {})}"));
    let d = render_python_devices_module(&m);
    assert!(d.contains("def dev_calc(gamma, branch=None):"));
    assert!(d.contains("{\"input_kind\": \"mach\", \"gamma\": gamma, **({\"branch\": branch} if branch not in (None, \"\") else {})}"));
    assert!(d.contains("def pipe_loss_solve_delta_p(friction_model=\"Colebrook\""));
    assert!(d.contains("return invoke(\"device.pipe_loss.solve_delta_p\", {k: v for k, v in args.items() if v is not None})"));
    assert!(render_python_package_init(&m).ends_with("# Generated from catalog.json\n"));
}

#[test]
fn excel_modules_name_worksheet_functions() {
    let m = manifest();
    let x = render_xloil_module(&m);
    assert!(x.starts_with("try:\n    import xloil\n"));
    assert!(x.contains("@xloil.func(name=\"ENG_CONST_GET\", help=\"Does a 'thing' | Arguments: | - key: k | Returns: f64 | Example: =ENG_X()\")\ndef e_n_g_c_o_n_s_t_g_e_t(key):"));
    assert!(x.contains("{\"output\": \"spill\", \"start\": start}"));
    assert!(x.contains("def e_n_g_d_e_v_c_a_l_c(gamma, branch=\"\"):"));
    let p = render_pyxll_module(&m);
    assert!(p.contains("@xl_func(name=\"ENG_META_GET\", doc=\""));
    assert!(p.contains("return invoke(\"meta.get\", {\"field\": \"name\", \"entity\": entity})"));
}

#[test]
fn static_pages() {
    assert!(render_bindings_guide().starts_with("# Bindings (Python and Excel)\n\n"));
    assert_eq!(render_mdbook_readme(), "# Generated Unified mdBook\n\nThis directory is generated by `eng::docs`.\n");
    assert_eq!(missing_mdbook_message(), MISSING_MDBOOK_MESSAGE);
    let rt = render_python_runtime();
    assert!(rt.contains("PROTOCOL_VERSION = \"eng-invoke.v1\""));
    assert!(!rt.contains("__PROTOCOL_VERSION__"));
    let gs = render_getting_started(&snippets());
    assert!(gs.starts_with("# Getting Started\n\n"));
    assert!(gs.contains("use eng::*;"));
    assert!(!gs.contains("  use eng::*;\n"));
}

#[test]
fn device_pages_come_from_generation_specs() {
    assert!(device_equation_dependencies("fanno_flow_calc").contains(&"compressible.fanno_friction_parameter"));
    assert!(device_equation_dependencies("pipe_loss").is_empty());
    assert!(render_binding_examples_for_device("no_such_device").is_empty());
    assert!(render_binding_examples_for_device("rayleigh_calc").starts_with("## Bindings"));
    let guide = render_devices_guide(&snippets());
    assert!(guide.contains("## Fanno Flow Calculator\n\n- Key: `fanno_flow_calc`\n"));
    assert!(guide.contains("## Fixed-f Mode\n\n```rust\nfixed();\n```\n\n"));
    let entry = DeviceDocsEntry {
        key: "nozzle_flow_calc".to_string(),
        name: "Nozzle".to_string(),
        summary: "S".to_string(),
        supported_modes: vec!["m1".to_string()],
        outputs: vec!["o1".to_string()],
        route: "devices/nozzle_flow_calc.md".to_string(),
    };
    let page = render_device_page(&entry);
    assert!(page.starts_with("# Nozzle\n\n**Key:** `nozzle_flow_calc`\n\nS\n\n## Overview"));
    assert!(page.contains("## Modes\n\n- m1\n\n## Outputs\n\n- o1\n## Internal Composition\n\n"));
    assert!(page.contains("- [Compressible Area Mach](../equations/compressible/area_mach.md)\n"));
}

#[test]
fn output_paths_and_html_report() {
    assert_eq!(join("/w", "generated"), "/w/generated");
    assert_eq!(join("/w/", "generated"), "/w/generated");
    assert_eq!(join("", "generated"), "generated");
    assert_eq!(default_book_root("/ws"), "/ws/generated/book");
    assert_eq!(default_pdf_path("/ws"), "/ws/generated/engineering_handbook.pdf");
    let p = mdbook_paths("/out");
    assert_eq!(p.html_dir, "/out/book");
    assert_eq!(p.html_index, "/out/book/index.html");
    let r = html_export_report(p.clone(), MdBookBuildOutcome::NotInstalled).unwrap();
    assert!(matches!(r.status, HtmlBuildStatus::MdBookNotInstalled { ref message } if message == MISSING_MDBOOK_MESSAGE));
    assert!(matches!(html_export_report(p.clone(), MdBookBuildOutcome::Succeeded).unwrap().status, HtmlBuildStatus::Built));
    assert_eq!(
        html_export_report(p, MdBookBuildOutcome::Failed("boom".to_string())).unwrap_err(),
        "mdbook build failed for /out: boom"
    );
}

#[test]
fn equations_init_lists_packages_once_in_order() {
    let mut m = manifest();
    m.functions.push(function("equations.fluids.reynolds_number", "solve_re", "equation.solve", vec![], vec![]));
    m.functions.push(function("equations.Compressible.area_mach", "solve_m", "equation.solve", vec![], vec![]));
    m.functions.push(function("equations.fluids.darcy", "solve_f", "equation.solve", vec![], vec![]));
    m.functions.push(function("equations.structures", "solve_s", "equation.solve", vec![], vec![]));
    let names = eng::docs::equations_init::equations_top_level_packages(&m);
    assert_eq!(names, vec!["compressible", "fluids", "structures"]);
    let text = eng::docs::equations_init::render_python_equations_init(&m);
    assert!(text.starts_with("from engpy._runtime import invoke\n\nfrom . import compressible\nfrom . import fluids\nfrom . import structures\n\ndef solve("));
    assert!(text.ends_with("__all__ = [\n    \"compressible\",\n    \"fluids\",\n    \"structures\",\n    \"solve\",\n]\n"));
}

#[test]
fn text_order_and_sorted_insert() {
    assert!(lex_less("abc", "abd"));
    assert!(lex_less("ab", "abc"));
    assert!(!lex_less("abc", "abc"));
    assert!(!lex_less("b", "abc"));
    let mut v: Vec<String> = Vec::new();
    for s in ["m", "a", "z", "m", "b"] {
        insert_sorted(&mut v, s.to_string());
    }
    assert_eq!(v, vec!["a", "b", "m", "z"]);
}

#[test]
fn summary_cards_show_optional_chips() {
    let row = |branches: &str, sub: Option<&str>| EquationSummaryCardRow {
        path_id: "fluids.re".to_string(),
        name: "Reynolds".to_string(),
        link: "re.md".to_string(),
        latex: "Re".to_string(),
        targets: "<code>Re</code>".to_string(),
        default_target: "Re".to_string(),
        branches: branches.to_string(),
        subcategory: sub.map(|s| s.to_string()),
    };
    let html = render_equation_summary_cards(vec![row("-", Some("pipes")), row("low, high", None)], true);
    assert!(html.starts_with(SUMMARY_CARD_STYLE));
    assert!(html.contains("<a class=\"equation-summary-card-link\" href=\"re.md\" aria-label=\"Open Reynolds\"></a>\n"));
    assert!(html.contains("<div class=\"equation-summary-latex\">\\(Re\\)</div>\n"));
    assert_eq!(html.matches("<article").count(), 2);
    assert_eq!(html.matches(">Branches<").count(), 1);
    assert_eq!(html.matches(">Subcategory<").count(), 1);
    assert!(html.ends_with("</article>\n</div>\n"));
    let no_sub = render_equation_summary_cards(vec![row("-", Some("pipes"))], false);
    assert!(!no_sub.contains("Subcategory"));
}
