use eng::devices::DeviceDocsEntry;
use eng::docs::book_index::{BookCategory, BookEntry, BookEquation, BookSubcategory};
use eng::docs::catalog_pages::{
    fluid_route, render_constant_page, render_constants_index, render_devices_index, render_fluid_page,
    render_fluids_index, render_home, render_material_page, render_materials_index, ConstantPage, FluidContextEquation,
    FluidPage, MaterialPage, DEVICES_INDEX_HEAD, FLUIDS_INDEX_HEAD, FLUIDS_INDEX_TAIL, FLUID_ALIAS_TABLE,
    FLUID_ERROR_BEHAVIOR, HOME_HEAD,
};
use eng::docs::category_pages::{
    render_category_equation_summary_cards, render_category_index, render_subcategory_equation_summary_cards,
    render_subcategory_index,
};
use eng::docs::pages::{DocSnippets, FLUID_BINDING_EXAMPLES, MATERIAL_BINDING_EXAMPLES};

fn strings(items: &[&str]) -> Vec<String> {
    items.iter().map(|s| s.to_string()).collect()
}

#[test]
fn home_page_reports_library_size() {
    let md = render_home(120, 7, 9, 3, 0);
    assert!(md.starts_with(HOME_HEAD));
    assert_eq!(
        &md[HOME_HEAD.len()..],
        "\n**Library size:** 120 equations, 7 constants, 9 devices, 3 fluids, 0 materials.\n"
    );
}

fn gravity() -> ConstantPage {
    ConstantPage {
        key: "g0".to_string(),
        name: "Standard Gravity".to_string(),
        symbol_latex: "g_0".to_string(),
        symbol_unicode: "g₀".to_string(),
        value_text: "9.80665".to_string(),
        unit: "m/s^2".to_string(),
        source: "CODATA".to_string(),
        note: "Exact by definition.".to_string(),
    }
}

#[test]
fn constant_page_lists_its_fields() {
    assert_eq!(
        render_constant_page(&gravity()),
        "# Standard Gravity\n\n- Key: `g0`\n- Symbol: \\(g_0\\)\n- Value: `9.80665` `m/s^2`\n- Source: CODATA\n\nExact by definition.\n"
    );
}

#[test]
fn constants_index_has_one_line_per_constant() {
    let mut c2 = gravity();
    c2.key = "c".to_string();
    c2.name = "Speed of Light".to_string();
    c2.symbol_unicode = "c".to_string();
    assert_eq!(render_constants_index(&vec![]), "# Constants\n\n");
    assert_eq!(
        render_constants_index(&vec![gravity(), c2]),
        "# Constants\n\n- [Standard Gravity](./g0.md): `g₀`\n- [Speed of Light](./c.md): `c`\n"
    );
}

#[test]
fn material_page_shows_aliases_or_none() {
    let mut m = MaterialPage {
        key: "stainless_304".to_string(),
        name: "Stainless 304".to_string(),
        aliases: vec![],
        source: "handbook".to_string(),
        properties: strings(&["density", "elastic_modulus"]),
        description: "Austenitic steel.".to_string(),
    };
    let expected_none = format!(
        "# Stainless 304\n\n- Key: `stainless_304`\n- Aliases: none\n- Source: handbook\n- Properties: density, elastic_modulus\n\nAustenitic steel.\n\n{}",
        MATERIAL_BINDING_EXAMPLES
    );
    assert_eq!(render_material_page(&m), expected_none);
    m.aliases = strings(&["ss304", "304"]);
    assert!(render_material_page(&m).contains("- Aliases: ss304, 304\n"));
}

#[test]
fn materials_index_links_snake_case_pages() {
    let ms = vec![BookEntry { name: "Stainless 304".to_string(), key: "stainless_304".to_string() }];
    assert_eq!(render_materials_index(&ms), "# Materials\n\n- [Stainless 304](./stainless_304.md)\n");
}

#[test]
fn devices_index_has_one_row_per_device() {
    let ds = vec![DeviceDocsEntry {
        key: "pipe_loss".to_string(),
        name: "Pipe Loss".to_string(),
        summary: "Darcy pressure drop".to_string(),
        supported_modes: strings(&["fixed", "colebrook"]),
        outputs: strings(&["delta_p"]),
        route: "devices/pipe_loss.md".to_string(),
    }];
    assert_eq!(
        render_devices_index(&ds),
        format!(
            "{}| [Pipe Loss](./pipe_loss.md) | `pipe_loss` | Darcy pressure drop | fixed, colebrook |\n",
            DEVICES_INDEX_HEAD
        )
    );
}

fn water() -> FluidPage {
    FluidPage {
        key: "water".to_string(),
        name: "Water".to_string(),
        aliases: strings(&["h2o"]),
        supported_state_inputs: strings(&["T,P", "P,h", "H,S"]),
        supported_properties: strings(&["density", "gamma", "prandtl"]),
    }
}

#[test]
fn fluids_index_rows_and_tail() {
    let mut air = water();
    air.key = "air".to_string();
    air.name = "Air".to_string();
    air.aliases = vec![];
    air.supported_properties = vec![];
    assert_eq!(
        render_fluids_index(&vec![water(), air]),
        format!(
            "{}| [Water](./water.md) | `water` | `h2o` | `T,P, P,h, H,S` | 3 |\n| [Air](./air.md) | `air` | - | `T,P, P,h, H,S` | 0 |\n{}",
            FLUIDS_INDEX_HEAD, FLUIDS_INDEX_TAIL
        )
    );
}

fn snippets() -> DocSnippets {
    let s = |t: &str| t.to_string();
    DocSnippets {
        top_level_import: s("use eng::*;"),
        simple_equation_solve: s("solve();"),
        typed_unit_input: s("typed();"),
        qty_macro_input: s("qty();"),
        runtime_string_input: s("runtime();"),
        fluid_property_lookup: s("  lookup();\n"),
        fluid_state_constructors: s("\nctor();\n"),
        fluid_saturation_metadata: s("sat();"),
        material_property_lookup: s("mat();"),
        context_solve: s(" ctx(); "),
        family_variant_access: s("family();"),
        device_pipe_loss_fixed: s("fixed();"),
        device_pipe_loss_colebrook_direct: s("direct();"),
        device_pipe_loss_colebrook_fluid: s("fluid();"),
    }
}

#[test]
fn fluid_page_notes_pairs_and_accessors() {
    let cs = vec![
        FluidContextEquation { name: "Reynolds".to_string(), link: "../eq/re.md".to_string(), uses_fluid: true },
        FluidContextEquation { name: "Ideal Gas".to_string(), link: "../eq/ig.md".to_string(), uses_fluid: false },
    ];
    let md = render_fluid_page(&water(), &snippets(), &cs);
    let expected = format!(
        "# Water\n\n| Field | Value |\n| --- | --- |\n| Key | `water` |\n| Aliases | h2o |\n| Supported state inputs | `T,P, P,h, H,S` |\n| Supported properties | 3 |\n\n\
## Supported State Input Pairs\n\n| Pair | Notes |\n| --- | --- |\n\
| `T,P` | General purpose explicit state constructor (`state_tp`) |\n\
| `P,h` | Pressure/enthalpy inversion (`state_ph`) |\n\
| `H,S` | Supported by backend model |\n\
\n## Verified Constructor and Generic Examples\n\n```rust\nctor();```\n\n{}\
## Supported Property Keys\n\n| Property key | Direct accessor |\n| --- | --- |\n\
| `density` | `density()`, `rho()` |\n| `gamma` | `gamma()` |\n| `prandtl` | `property_by_name(...)` |\n\
\n## Direct Property Access Example\n\n```rust\nlookup();\n```\n\n## Saturation and Metadata Example\n\n```rust\nsat();\n```\n\n\
## Using This Fluid With Equations\n\n```rust\nctx();\n```\n\n### Equations currently using `fluid` context\n\n\
- [Reynolds](../eq/re.md)\n{}\n{}",
        FLUID_ALIAS_TABLE, FLUID_ERROR_BEHAVIOR, FLUID_BINDING_EXAMPLES
    );
    assert_eq!(md, expected);
}

#[test]
fn fluid_page_without_users_says_so_and_lists_at_most_twelve() {
    let none = vec![FluidContextEquation { name: "A".to_string(), link: "a.md".to_string(), uses_fluid: false }];
    let md = render_fluid_page(&water(), &snippets(), &none);
    assert!(md.contains("context\n\n- No current equation pages declare `fluid` resolver context.\n"));
    let many: Vec<FluidContextEquation> = (0..15)
        .map(|i| FluidContextEquation { name: format!("E{i}"), link: format!("e{i}.md"), uses_fluid: true })
        .collect();
    let md = render_fluid_page(&water(), &snippets(), &many);
    assert!(md.contains("- [E11](e11.md)\n"));
    assert!(!md.contains("- [E12](e12.md)"));
    assert_eq!(md.matches("- [E").count(), 12);
}

#[test]
fn fluid_route_is_snake_case() {
    assert_eq!(fluid_route("water"), "fluids/water.md");
    assert_eq!(fluid_route("CarbonDioxide"), "fluids/carbon_dioxide.md");
}

fn eq(path_id: &str, name: &str, slug: &str) -> BookEquation {
    BookEquation {
        path_id: path_id.to_string(),
        name: name.to_string(),
        slug: slug.to_string(),
        latex: "a=b".to_string(),
        solve_targets: strings(&["a", "b"]),
        default_target: Some("a".to_string()),
        branches: vec![],
    }
}

fn category() -> BookCategory {
    BookCategory {
        name: "fluids".to_string(),
        root_equations: vec![eq("fluids.z", "Zeta", "zeta")],
        subcategories: vec![BookSubcategory {
            name: "pipe_flow".to_string(),
            equations: vec![eq("fluids.pipe_flow.a", "Alpha", "alpha")],
        }],
    }
}

#[test]
fn category_index_lists_cards_then_links() {
    let c = category();
    let cards = render_category_equation_summary_cards(&c);
    // The card of the nested equation sorts first by its path.
    let alpha = cards.find("Alpha").unwrap();
    let zeta = cards.find("Zeta").unwrap();
    assert!(alpha < zeta);
    assert!(cards.contains("./pipe_flow/alpha.md"));
    assert!(cards.contains("./zeta.md"));
    let md = render_category_index(&c);
    assert_eq!(
        md,
        format!(
            "# Fluids\n\n## Equation Summary\n\n{}\n## Browse\n\n- [Zeta](./zeta.md)\n- [Pipe Flow](./pipe_flow/index.md)\n",
            cards
        )
    );
}

#[test]
fn subcategory_index_lists_its_equations() {
    let c = category();
    let s = &c.subcategories[0];
    let cards = render_subcategory_equation_summary_cards(s);
    assert!(cards.contains("./alpha.md"));
    assert_eq!(
        render_subcategory_index(&c, s),
        format!("# Fluids / Pipe Flow\n\n## Equation Summary\n\n{}\n## Browse\n\n- [Alpha](./alpha.md)\n", cards)
    );
}
