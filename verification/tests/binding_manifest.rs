use eng::devices::generation_specs;
use eng::docs::binding_manifest::{
    build_binding_manifest, device_bindings, equation_args_for_target, equation_binding, equation_bindings,
    family_bindings, metadata_binding_functions, sort_by_id, study_and_lookup_binding_functions, upper_ascii,
    EquationPage, FamilyDoc, FamilyVariantDoc, PageBranch, PageVariable,
};
use eng::docs::binding_text::{render_python_docstring, BindingArg, BindingFunction};
use eng::docs::equation_modules::{python_equation_files, render_equation_module, GeneratedFile};

fn var(key: &str, name: &str, description: &str) -> PageVariable {
    PageVariable {
        key: key.to_string(),
        name: name.to_string(),
        description: description.to_string(),
        symbol: key.to_string(),
        dimension: "dimensionless".to_string(),
        default_unit: "1".to_string(),
    }
}

fn reynolds_page(branches: Vec<&str>) -> EquationPage {
    EquationPage {
        path_id: "fluids.reynolds_number".to_string(),
        name: "Reynolds Number".to_string(),
        category: "fluids".to_string(),
        solve_targets: vec!["Re".to_string(), "mu".to_string()],
        default_target: None,
        branches: branches.into_iter().map(|b| PageBranch { name: b.to_string(), preferred: false }).collect(),
        variables: vec![
            var("rho", "Density", "Fluid density"),
            var("V", "Velocity", "   "),
            var("L", "Length", "Characteristic length"),
            var("mu", "Viscosity", "Dynamic viscosity"),
            var("Re", "Reynolds", "Reynolds number"),
        ],
    }
}

fn names(args: &[BindingArg]) -> Vec<String> {
    args.iter().map(|a| a.name.clone()).collect()
}

fn stub(id: &str) -> BindingFunction {
    BindingFunction {
        id: id.to_string(),
        entity: String::new(),
        source: String::new(),
        python_module: String::new(),
        python_name: String::new(),
        excel_name: String::new(),
        op: String::new(),
        fixed_args: Vec::new(),
        args: Vec::new(),
        returns: String::new(),
        help: id.to_string(),
        rust_example: String::new(),
        python_example: String::new(),
        xloil_example: String::new(),
        pyxll_example: String::new(),
    }
}

#[test]
fn target_arguments_skip_the_target_and_fall_back_to_names() {
    let page = reynolds_page(vec![]);
    let args = equation_args_for_target(&page, "Re");
    assert_eq!(names(&args), vec!["rho", "V", "L", "mu"]);
    assert_eq!(args[0].description, "Fluid density");
    assert_eq!(args[1].description, "Velocity");
}

#[test]
fn equation_binding_names_and_examples() {
    let page = reynolds_page(vec![]);
    let f = equation_binding(&page, "Re");
    assert_eq!(f.id, "equation.fluids.reynolds_number.Re");
    assert_eq!(f.entity, "equation");
    assert_eq!(f.source, "fluids.reynolds_number");
    assert_eq!(f.python_module, "equations.fluids.reynolds_number");
    assert_eq!(f.python_name, "solve_re");
    assert_eq!(f.excel_name, "ENG_FLUIDS_REYNOLDS_NUMBER_RE");
    assert_eq!(f.op, "equation.solve");
    assert_eq!(
        f.fixed_args,
        vec![
            ("path_id".to_string(), "fluids.reynolds_number".to_string()),
            ("target".to_string(), "Re".to_string())
        ]
    );
    assert_eq!(f.returns, "f64");
    assert_eq!(f.help, "Solve Reynolds Number for Re");
    assert_eq!(f.rust_example, "eq.solve(equations::fluids::reynolds_number::equation()).for_target(\"Re\").value()?");
    assert_eq!(
        f.python_example,
        "engpy.equations.fluids.reynolds_number.solve_re(rho=\"...\", v=\"...\", l=\"...\", mu=\"...\")"
    );
    assert_eq!(f.xloil_example, "=ENG_FLUIDS_REYNOLDS_NUMBER_RE(\"...\",\"...\",\"...\",\"...\")");
    assert_eq!(f.pyxll_example, f.xloil_example);
}

#[test]
fn equation_binding_with_branches_takes_a_branch_argument() {
    let page = reynolds_page(vec!["laminar", "turbulent"]);
    let f = equation_binding(&page, "mu");
    assert_eq!(names(&f.args), vec!["rho", "V", "L", "Re", "branch"]);
    assert_eq!(f.args[4].description, "Optional branch selection. Supported: laminar, turbulent");
    assert_eq!(f.excel_name, "ENG_FLUIDS_REYNOLDS_NUMBER_MU");
    assert!(f.python_example.ends_with("re=\"...\", branch=\"...\")"));
}

#[test]
fn every_page_target_gets_a_binding() {
    let pages = vec![reynolds_page(vec![])];
    let fs = equation_bindings(&pages);
    let ids: Vec<&str> = fs.iter().map(|f| f.id.as_str()).collect();
    assert_eq!(ids, vec!["equation.fluids.reynolds_number.Re", "equation.fluids.reynolds_number.mu"]);
}

#[test]
fn family_variants_bind_only_equations_with_pages() {
    let pages = vec![reynolds_page(vec![])];
    let families = vec![FamilyDoc {
        key: "flowRegime".to_string(),
        name: "Flow Regime".to_string(),
        variants: vec![
            FamilyVariantDoc {
                key: "pipe".to_string(),
                name: "Pipe".to_string(),
                equation_id: "fluids.reynolds_number".to_string(),
            },
            FamilyVariantDoc { key: "none".to_string(), name: "None".to_string(), equation_id: "no.such".to_string() },
        ],
    }];
    let fs = family_bindings(&families, &pages);
    assert_eq!(fs.len(), 2);
    let f = &fs[0];
    assert_eq!(f.id, "family.flowRegime.pipe.Re");
    assert_eq!(f.entity, "family_variant");
    assert_eq!(f.source, "flowRegime.pipe");
    assert_eq!(f.python_module, "equations.families.flow_regime.pipe");
    assert_eq!(f.python_name, "solve_re");
    assert_eq!(f.excel_name, "ENG_FAMILY_FLOW_REGIME_PIPE_RE");
    assert_eq!(f.help, "Solve Flow Regime variant Pipe for Re");
    assert_eq!(fs[1].excel_name, "ENG_FAMILY_FLOW_REGIME_PIPE_MU");
}

#[test]
fn sorting_by_id_is_stable() {
    let mut b1 = stub("b");
    b1.help = "first".to_string();
    let mut b2 = stub("b");
    b2.help = "second".to_string();
    let sorted = sort_by_id(vec![stub("c"), b1, stub("a"), b2, stub("ab")]);
    let ids: Vec<&str> = sorted.iter().map(|f| f.id.as_str()).collect();
    assert_eq!(ids, vec!["a", "ab", "b", "b", "c"]);
    assert_eq!(sorted[2].help, "first");
    assert_eq!(sorted[3].help, "second");
}

#[test]
fn fixed_bindings_lead_with_equation_metadata_and_end_with_constants() {
    let meta = metadata_binding_functions();
    assert_eq!(meta.len(), 31);
    assert_eq!(meta[0].id, "equation.meta");
    assert_eq!(meta[0].excel_name, "ENG_EQUATION_META");
    assert_eq!(meta[0].args.len(), 1);
    assert_eq!(meta[0].args[0].name, "path_id");
    let fluid = &meta[12];
    assert_eq!(fluid.id, "fluid.meta.properties");
    assert_eq!(fluid.op, "meta.get");
    assert_eq!(
        fluid.fixed_args,
        vec![("entity".to_string(), "fluid".to_string()), ("field".to_string(), "supported_properties".to_string())]
    );
    assert_eq!(fluid.args.len(), 1);
    assert_eq!(fluid.args[0].description, "Fluid key/alias");
    assert_eq!(fluid.returns, "list");
    assert_eq!(fluid.python_example, "engpy.helpers.fluid_properties(\"H2O\")");
    assert!(meta.iter().filter(|f| f.id != "fluid.meta.properties" && f.id != "material.meta.properties" && f.id != "device.meta.modes" && f.id != "meta.get").all(|f| f.fixed_args.is_empty() || f.op == "meta.get"));
    let study = study_and_lookup_binding_functions();
    assert_eq!(study.len(), 8);
    assert_eq!(study[7].id, "constant.get");
    assert_eq!(study[7].excel_name, "ENG_CONST");
    assert_eq!(study[0].args.len(), 8);
    assert_eq!(study[0].args[7].name, "branch");
    assert!(study.iter().all(|f| f.fixed_args.is_empty()));
}

#[test]
fn manifest_orders_every_binding_by_id() {
    let pages = vec![reynolds_page(vec![])];
    let m = build_binding_manifest(&pages, &Vec::new());
    assert_eq!(m.schema_version, "1");
    assert_eq!(m.generated_from, "generated/catalog.json");
    assert_eq!(m.python_package, "engpy");
    let device_count = device_bindings(&generation_specs()).len();
    assert_eq!(m.functions.len(), 2 + 31 + device_count + 8);
    for w in m.functions.windows(2) {
        assert!(w[0].id <= w[1].id);
    }
    assert!(m.functions.iter().any(|f| f.id == "equation.fluids.reynolds_number.mu"));
    assert!(m.functions.iter().any(|f| f.id == "study.equation.sweep"));
    assert!(m.functions.iter().any(|f| f.entity == "device" && f.python_module == "devices"));
}

#[test]
fn manifest_has_a_solve_binding_for_every_page_target() {
    let pages = vec![reynolds_page(vec!["laminar"])];
    let m = build_binding_manifest(&pages, &Vec::new());
    for p in &pages {
        assert!(!p.solve_targets.is_empty());
        for t in &p.solve_targets {
            let id = format!("equation.{}.{}", p.path_id, t);
            assert!(m.functions.iter().any(|f| f.id == id && f.op == "equation.solve"));
        }
    }
}

#[test]
fn upper_ascii_leaves_other_characters() {
    assert_eq!(upper_ascii("ab-c.9é"), "AB-C.9é");
}

fn flow_regime() -> FamilyDoc {
    FamilyDoc {
        key: "flowRegime".to_string(),
        name: "Flow Regime".to_string(),
        variants: vec![FamilyVariantDoc {
            key: "pipe".to_string(),
            name: "Pipe".to_string(),
            equation_id: "fluids.reynolds_number".to_string(),
        }],
    }
}

fn file<'a>(files: &'a [GeneratedFile], path: &[&str]) -> &'a GeneratedFile {
    files.iter().find(|f| f.path == path).unwrap_or_else(|| panic!("no file {path:?}"))
}

#[test]
fn equation_module_forwards_arguments_then_fixed_arguments() {
    let page = reynolds_page(vec!["laminar"]);
    let f = equation_binding(&page, "Re");
    let text = render_equation_module(&vec![f.clone()]);
    let doc = render_python_docstring(&f).replace('"', "'");
    let expected = format!(
        "from engpy._runtime import invoke\n\ndef solve_re(rho, v, l, mu, branch=None):\n    \"\"\"{doc}\"\"\"\n    return invoke(\"equation.solve\", {{\"rho\": rho, \"V\": v, \"L\": l, \"mu\": mu, **({{\"branch\": branch}} if branch is not None else {{}}), \"path_id\": \"fluids.reynolds_number\", \"target\": \"Re\"}})\n\n__all__ = [\n    \"solve_re\",\n]\n"
    );
    assert_eq!(text, expected);
}

#[test]
fn equation_files_lay_out_modules_and_packages() {
    let m = build_binding_manifest(&vec![reynolds_page(vec![])], &vec![flow_regime()]);
    let files = python_equation_files(&m);
    let paths: Vec<Vec<String>> = files.iter().map(|f| f.path.clone()).collect();
    let p = |xs: &[&str]| xs.iter().map(|x| x.to_string()).collect::<Vec<String>>();
    assert_eq!(
        paths,
        vec![
            p(&["families", "flow_regime", "pipe.py"]),
            p(&["fluids", "reynolds_number.py"]),
            p(&["meta.py"]),
            p(&["families", "__init__.py"]),
            p(&["families", "flow_regime", "__init__.py"]),
            p(&["fluids", "__init__.py"]),
        ]
    );
    let fluids = file(&files, &["fluids", "reynolds_number.py"]);
    assert!(fluids.text.starts_with("from engpy._runtime import invoke\n\ndef solve_re(rho, v, l, mu):\n"));
    assert!(fluids.text.ends_with("__all__ = [\n    \"solve_re\",\n    \"solve_mu\",\n]\n"));
    let pipe = file(&files, &["families", "flow_regime", "pipe.py"]);
    assert!(pipe.text.contains("\"path_id\": \"fluids.reynolds_number\", \"target\": \"Re\"})"));
    assert_eq!(
        file(&files, &["families", "__init__.py"]).text,
        "from . import flow_regime\n\n__all__ = [\n    \"flow_regime\",\n]\n"
    );
    assert_eq!(
        file(&files, &["families", "flow_regime", "__init__.py"]).text,
        "from . import pipe\n\n__all__ = [\n    \"pipe\",\n]\n"
    );
    assert_eq!(
        file(&files, &["fluids", "__init__.py"]).text,
        "from . import reynolds_number\nfrom .reynolds_number import solve_mu as solve_mu\nfrom .reynolds_number import solve_re as solve_re\n\n__all__ = [\n    \"reynolds_number\",\n]\n"
    );
}

#[test]
fn colliding_alias_names_are_listed_not_imported() {
    let mut other = reynolds_page(vec![]);
    other.path_id = "fluids.pipe_reynolds".to_string();
    other.solve_targets = vec!["Re".to_string()];
    let m = build_binding_manifest(&vec![reynolds_page(vec![]), other], &Vec::new());
    let files = python_equation_files(&m);
    assert_eq!(files.len(), 4);
    assert!(file(&files, &["meta.py"]).text.contains("def equation_meta(path_id):"));
    assert_eq!(
        file(&files, &["fluids", "__init__.py"]).text,
        "from . import pipe_reynolds\nfrom . import reynolds_number\nfrom .reynolds_number import solve_mu as solve_mu\n\n# Omitted legacy aliases due to collisions:\n# - solve_re\n\n__all__ = [\n    \"pipe_reynolds\",\n    \"reynolds_number\",\n]\n"
    );
}

#[test]
fn repeated_equations_prefix_is_taken_off() {
    let mut f = stub("x");
    f.python_module = "equations.equations.meta.util".to_string();
    f.python_name = "util".to_string();
    let m = eng::docs::binding_text::BindingManifest {
        schema_version: "1",
        generated_from: "generated/catalog.json",
        python_package: "engpy".to_string(),
        functions: vec![f],
    };
    let files = python_equation_files(&m);
    let paths: Vec<Vec<String>> = files.iter().map(|f| f.path.clone()).collect();
    assert_eq!(paths, vec![vec!["meta".to_string(), "util.py".to_string()], vec!["meta".to_string(), "__init__.py".to_string()]]);
    assert_eq!(files[1].text, "from . import util\n\n__all__ = [\n    \"util\",\n]\n");
}
