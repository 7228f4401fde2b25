use eng::docs::binding_manifest::{EquationPage, PageBranch, PageVariable};
use eng::docs::book_index::{
    render_equations_index, render_families_index, render_summary, BookCategory, BookContents, BookEntry, BookEquation,
    BookSubcategory, FamilyIndexEntry, IndexedEquation, SUMMARY_HEAD,
};
use eng::docs::equation_pages::{
    render_binding_examples_for_equation, render_binding_examples_for_family, render_equation_page, render_family_page,
    EquationPageDoc, FamilyPage, FamilyPageVariant, PageConstant, PageExample, PageFamilyRef,
};
use eng::docs::pages::{render_solve_layer_page, render_studies_page, render_workflows, DocSnippets};
use eng::strings::usize_text;

fn var(key: &str, name: &str, description: &str) -> PageVariable {
    PageVariable {
        key: key.to_string(),
        name: name.to_string(),
        description: description.to_string(),
        symbol: format!("{key}_s"),
        dimension: "dim".to_string(),
        default_unit: "u".to_string(),
    }
}

fn page(default_target: Option<&str>, branches: Vec<(&str, bool)>) -> EquationPage {
    EquationPage {
        path_id: "fluids.reynolds_number".to_string(),
        name: "Reynolds Number".to_string(),
        category: "fluids".to_string(),
        solve_targets: vec!["Re".to_string(), "mu".to_string()],
        default_target: default_target.map(|t| t.to_string()),
        branches: branches.into_iter().map(|(n, p)| PageBranch { name: n.to_string(), preferred: p }).collect(),
        variables: vec![
            var("rho", "Density", "Fluid density"),
            var("V", "Velocity", " "),
            var("L", "Length", "Characteristic length"),
            var("mu", "Viscosity", "Dynamic viscosity"),
            var("Re", "Reynolds", "Reynolds number"),
        ],
    }
}

const PATH: &str = "fluids.reynolds_number";

fn expected_bindings(target: &str, func: &str, excel: &str, py: &str, xl: &str, bullets: &str) -> String {
    let m = "engpy.equations.fluids.reynolds_number";
    format!(
        "## Bindings\n\n### Rust\n```rust\nlet value = eq.solve(equations::fluids::reynolds_number::equation()).for_target(\"{target}\").value()?;\n```\n\n### Python\n```python\n{m}.{func}({py})\n# helper layer\nengpy.helpers.format_value({m}.{func}({py}), \"<in_unit>\", \"<out_unit>\")\nengpy.equations.meta.equation_ascii(\"{PATH}\")\nengpy.helpers.equation_targets_text(\"{PATH}\")\nengpy.helpers.equation_variables_table(\"{PATH}\")\nengpy.helpers.equation_target_count(\"{PATH}\")\n```\n\n### Excel\n```excel\n={excel}({xl})\n=ENG_FORMAT({excel}({xl}),\"<in_unit>\",\"<out_unit>\")\n=ENG_EQUATION_ASCII(\"{PATH}\")\n=ENG_EQUATION_TARGETS_TEXT(\"{PATH}\")\n=ENG_EQUATION_VARIABLES_TABLE(\"{PATH}\")\n=ENG_EQUATION_TARGET_COUNT(\"{PATH}\")\n```\n\n**Excel arguments**\n{bullets}\n"
    )
}

#[test]
fn equation_bindings_section_uses_first_target_without_default() {
    let text = render_binding_examples_for_equation(&page(None, vec![]));
    let expected = expected_bindings(
        "Re",
        "solve_re",
        "ENG_FLUIDS_REYNOLDS_NUMBER_RE",
        "rho=\"...\", v=\"...\", l=\"...\", mu=\"...\"",
        "\"...\",\"...\",\"...\",\"...\"",
        "- `rho`: Fluid density\n- `v`: Velocity\n- `l`: Characteristic length\n- `mu`: Dynamic viscosity\n",
    );
    assert_eq!(text, expected);
}

#[test]
fn equation_bindings_section_shows_the_preferred_branch() {
    let text = render_binding_examples_for_equation(&page(Some("mu"), vec![("laminar", false), ("turbulent", true)]));
    let py = "rho=\"...\", v=\"...\", l=\"...\", re=\"...\"";
    let xl = "\"...\",\"...\",\"...\",\"...\"";
    let mut expected = expected_bindings(
        "mu",
        "solve_mu",
        "ENG_FLUIDS_REYNOLDS_NUMBER_MU",
        py,
        xl,
        "- `rho`: Fluid density\n- `v`: Velocity\n- `l`: Characteristic length\n- `re`: Reynolds number\n",
    );
    expected.push_str(&format!(
        "\n**Branch behavior**\n- Default solver behavior uses preferred branch (`turbulent`) when one is marked.\n- Supported branches: `laminar`, `turbulent`\n\n### Python (explicit branch)\n```python\nengpy.equations.fluids.reynolds_number.solve_mu({py}, branch=\"turbulent\")\n```\n\n### Excel (explicit branch)\n```excel\n=ENG_FLUIDS_REYNOLDS_NUMBER_MU({xl},\"turbulent\")\n=ENG_EQUATION_BRANCHES_TEXT(\"{PATH}\")\n=ENG_EQUATION_BRANCHES_TABLE(\"{PATH}\")\n```\n"
    ));
    assert_eq!(text, expected);
}

#[test]
fn first_branch_is_used_when_none_is_preferred() {
    let text = render_binding_examples_for_equation(&page(None, vec![("subsonic", false), ("supersonic", false)]));
    assert!(text.contains("uses preferred branch (`subsonic`)"));
    assert!(text.contains(", branch=\"subsonic\")"));
}

#[test]
fn equation_page_sections_appear_only_when_present() {
    let doc = EquationPageDoc {
        page: page(None, vec![]),
        latex: "Re = \\frac{\\rho V L}{\\mu}".to_string(),
        unicode: "Re = ρVL/μ".to_string(),
        ascii: "Re = rho*V*L/mu".to_string(),
        assumptions: vec!["Newtonian fluid".to_string()],
        family: Some(PageFamilyRef {
            family_name: "Flow Regime".to_string(),
            link: "../families/flow_regime.md".to_string(),
            variant_name: "Pipe".to_string(),
            variant_key: "pipe".to_string(),
            when_to_use: "  internal flow ".to_string(),
        }),
        constants: vec![],
        examples: vec![PageExample { label: "Basic".to_string(), code: "let re = 1.0;".to_string() }],
    };
    let text = render_equation_page(&doc);
    let head = "# Reynolds Number\n\n**Path ID:** `fluids.reynolds_number`\n\n$$\nRe = \\frac{\\rho V L}{\\mu}\n$$\n\n- Unicode: `Re = ρVL/μ`\n- ASCII: `Re = rho*V*L/mu`\n\n## Variables\n\n<table><thead><tr><th>Key</th><th>Name</th><th>Symbol</th><th>Dimension</th><th>Unit</th></tr></thead><tbody>\n<tr><td><code>rho</code></td><td>Density</td><td>\\(rho_s\\)</td><td><code>dim</code></td><td><code>u</code></td></tr>\n";
    assert!(text.starts_with(head));
    let middle = "</tbody></table>\n\n## Assumptions\n\n- Newtonian fluid\n\n## Family\n\n- Family: [`Flow Regime`](../families/flow_regime.md)\n- Variant: `Pipe` (`pipe`)\n- Use when: internal flow\n\n## Examples\n\n### Basic\n\n```rust\nlet re = 1.0;\n```\n\n\n## Bindings\n";
    assert!(text.contains(middle));
    assert!(!text.contains("## Constants Used"));
    assert!(text.ends_with(&render_binding_examples_for_equation(&doc.page)));
}

#[test]
fn equation_page_lists_constants_with_links() {
    let doc = EquationPageDoc {
        page: page(None, vec![]),
        latex: String::new(),
        unicode: String::new(),
        ascii: String::new(),
        assumptions: vec![],
        family: None,
        constants: vec![PageConstant {
            key: "g0".to_string(),
            name: "Standard gravity".to_string(),
            symbol_latex: "g_0".to_string(),
            link: "../../constants/g0.md".to_string(),
        }],
        examples: vec![],
    };
    let text = render_equation_page(&doc);
    assert!(text.contains("</tbody></table>\n\n## Constants Used\n\n- [`g0`](../../constants/g0.md) (Standard gravity) \\(g_0\\)\n\n\n## Bindings"));
    assert!(!text.contains("## Family"));
    assert!(!text.contains("## Assumptions"));
}

fn family(variants: Vec<FamilyPageVariant>) -> FamilyPage {
    FamilyPage {
        key: "idealGas".to_string(),
        name: "Ideal Gas Law".to_string(),
        description: "  Forms of pV = nRT. ".to_string(),
        canonical_law: "pV = nRT".to_string(),
        canonical_equation: "thermo.ideal_gas".to_string(),
        canonical_link: "../thermo/ideal_gas.md".to_string(),
        assumptions: vec![],
        references: vec!["Cengel".to_string()],
        variants,
    }
}

#[test]
fn family_page_lists_variants() {
    let f = family(vec![FamilyPageVariant {
        key: "molar".to_string(),
        equation_id: "thermo.ideal_gas_molar".to_string(),
        link: "../thermo/ideal_gas_molar.md".to_string(),
        display_latex: "pV = nRT".to_string(),
        when_to_use: " ".to_string(),
        description: "Molar form".to_string(),
    }]);
    let expected = "# Ideal Gas Law\n\n**Family key:** `idealGas`\n\nForms of pV = nRT.\n\n**Canonical law:** `pV = nRT`\n\n**Canonical equation:** [`thermo.ideal_gas`](../thermo/ideal_gas.md)\n\n## Shared References\n\n- Cengel\n\n## Variants\n\n| Variant | Equation | Display | Use when | Notes |\n| --- | --- | --- | --- | --- |\n| `molar` | [`thermo.ideal_gas_molar`](../thermo/ideal_gas_molar.md) | \\(pV = nRT\\) | - | Molar form |\n\n## Bindings\n\n### Python\n\n```python\nfrom engpy.equations.families import ideal_gas\nideal_gas.molar.solve_<target>(...)\n```\n\n### Excel\n\n```excel\n=ENG_FAMILY_<FAMILY>_<VARIANT>_<TARGET>(...)\n```\n";
    assert_eq!(render_family_page(&f), expected);
}

#[test]
fn family_bindings_without_variants_only_import() {
    assert_eq!(
        render_binding_examples_for_family(&family(vec![])),
        "## Bindings\n\n### Python\n\n```python\nfrom engpy.equations.families import ideal_gas\n```\n\n### Excel\n\n```excel\n=ENG_FAMILY_<FAMILY>_<VARIANT>_<TARGET>(...)\n```\n"
    );
}

fn entry(name: &str, key: &str) -> BookEntry {
    BookEntry { name: name.to_string(), key: key.to_string() }
}

fn eq(name: &str, slug: &str) -> BookEquation {
    BookEquation {
        path_id: format!("x.{slug}"),
        name: name.to_string(),
        slug: slug.to_string(),
        latex: String::new(),
        solve_targets: vec![],
        default_target: None,
        branches: vec![],
    }
}

#[test]
fn summary_lists_every_page() {
    let c = BookContents {
        categories: vec![BookCategory {
            name: "fluid_mechanics".to_string(),
            root_equations: vec![eq("Reynolds Number", "reynolds_number")],
            subcategories: vec![BookSubcategory {
                name: "pipe_flow".to_string(),
                equations: vec![eq("Darcy Weisbach", "darcy_weisbach")],
            }],
        }],
        families: vec![entry("Ideal Gas", "idealGas")],
        devices: vec![entry("Pipe Loss", "pipe_loss")],
        constants: vec![entry("Standard Gravity", "g0")],
        fluids: vec![entry("Water", "H2O")],
        materials: vec![],
    };
    let expected = format!(
        "{SUMMARY_HEAD}  - [Fluid Mechanics](equations/fluid_mechanics/index.md)\n    - [Reynolds Number](equations/fluid_mechanics/reynolds_number.md)\n    - [Pipe Flow](equations/fluid_mechanics/pipe_flow/index.md)\n      - [Darcy Weisbach](equations/fluid_mechanics/pipe_flow/darcy_weisbach.md)\n- [Equation Families](equations/families/index.md)\n  - [Ideal Gas](equations/families/ideal_gas.md)\n- [Devices](devices/index.md)\n  - [Pipe Loss](devices/pipe_loss.md)\n- [Constants](constants/index.md)\n  - [Standard Gravity](constants/g0.md)\n- [Fluids Guide](fluids/guide.md)\n- [Fluids](fluids/index.md)\n  - [Water](fluids/h2_o.md)\n- [Materials Guide](materials/guide.md)\n- [Materials](materials/index.md)\n"
    );
    assert_eq!(render_summary(&c), expected);
    assert!(SUMMARY_HEAD.starts_with("# Summary\n\n- [Home](index.md)\n"));
}

#[test]
fn families_index_counts_variants() {
    assert_eq!(render_families_index(&vec![]), "# Equation Families\n\nNo equation families are currently defined.\n");
    let text = render_families_index(&vec![FamilyIndexEntry {
        name: "Ideal Gas".to_string(),
        key: "idealGas".to_string(),
        canonical_equation: "thermo.ideal_gas".to_string(),
        variant_count: 12,
    }]);
    assert_eq!(
        text,
        "# Equation Families\n\nFamilies group common forms of the same physical law without duplicating conceptual identity.\n\n- [Ideal Gas](./ideal_gas.md): canonical `thermo.ideal_gas` (12 variants)\n"
    );
}

#[test]
fn equations_index_tabulates_pages() {
    let rows = vec![
        IndexedEquation {
            name: "Reynolds Number".to_string(),
            link: "fluids/reynolds_number.md".to_string(),
            category: "fluids".to_string(),
            target_count: 4,
            constants: vec![],
        },
        IndexedEquation {
            name: "Weight".to_string(),
            link: "statics/weight.md".to_string(),
            category: "rigid_body".to_string(),
            target_count: 10,
            constants: vec!["g0".to_string(), "G".to_string()],
        },
    ];
    let text = render_equations_index(&rows, &vec!["fluids".to_string(), "rigid_body".to_string()]);
    let expected = "# Equation Catalog\n\n- [Guide](./guide.md)\n- [Families](./families/index.md)\n\n## Equation Table\n\n| Equation | Category | Targets | Constants |\n| --- | --- | --- | --- |\n| [Reynolds Number](fluids/reynolds_number.md) | Fluids | 4 | - |\n| [Weight](statics/weight.md) | Rigid Body | 10 | `g0`, `G` |\n\n## Browse By Category\n\n- [Fluids](./fluids/index.md)\n- [Rigid Body](./rigid_body/index.md)\n";
    assert_eq!(text, expected);
}

#[test]
fn counts_are_written_in_decimal() {
    assert_eq!(usize_text(0), "0");
    assert_eq!(usize_text(7), "7");
    assert_eq!(usize_text(10), "10");
    assert_eq!(usize_text(4096), "4096");
}

fn snippets() -> DocSnippets {
    let s = |t: &str| format!("\n  {t}\n\n");
    DocSnippets {
        top_level_import: s("use eng::*;"),
        simple_equation_solve: s("solve();"),
        typed_unit_input: s("typed();"),
        qty_macro_input: s("qty();"),
        runtime_string_input: s("runtime();"),
        fluid_property_lookup: s("fluid();"),
        fluid_state_constructors: s("state();"),
        fluid_saturation_metadata: s("sat();"),
        material_property_lookup: s("mat();"),
        context_solve: s("ctx();"),
        family_variant_access: s("family();"),
        device_pipe_loss_fixed: s("fixed();"),
        device_pipe_loss_colebrook_direct: s("direct();"),
        device_pipe_loss_colebrook_fluid: s("fluid_ctx();"),
    }
}

#[test]
fn workflow_and_solve_layer_chapters() {
    let w = render_workflows(&snippets());
    assert!(w.starts_with("# Examples & Workflows\n\nThese examples are sourced from verified snippets and corresponding tests.\n\n## 1. Simple Equation Solve\n\n```rust\nsolve();\n```\n\n## 2. Typed Unit Solve\n\n```rust\ntyped();\n```\n\n"));
    assert!(w.contains("## 7. Direct Fluid/Material Property Lookup\n\n```rust\nfluid();\n```\n\n```rust\nmat();\n```\n\n"));
    assert!(w.ends_with("println!(\"trace={}\", out.path_text());\n```\n"));
    let s = render_solve_layer_page();
    assert!(s.starts_with("# Engineering Solve Layer\n\n"));
    assert!(s.ends_with("Conical-shock Taylor-Maccoll stepping and branch-sensitive oblique/conical inversions use this layer.\n"));
    let st = render_studies_page();
    assert!(st.starts_with("# Studies and Parameter Sweeps\n\n"));
    assert!(st.contains("  - `ENG_STUDY_NOZZLE_FLOW_TABLE(...)`\n"));
}
