use eng::devices::{docs_entries, generation_specs};
use eng::docs::catalog::{
    build_unified_catalog, catalog_links, collect_resolver_contexts, device_equation_dependencies, sort_links,
    CatalogEquationSource, CatalogFamilySource, CatalogLink, CatalogVariantSource,
};

fn s(t: &str) -> String {
    t.to_string()
}

fn triple(l: &CatalogLink) -> (String, String, String) {
    (l.relation.clone(), l.from.clone(), l.to.clone())
}

fn reynolds() -> CatalogEquationSource {
    CatalogEquationSource {
        key: s("reynolds_number"),
        path_id: s("fluids.reynolds_number"),
        name: s("Reynolds Number"),
        category: s("fluids"),
        subcategories: vec![s("internal")],
        default_target: Some(s("Re")),
        uses_constants: vec![s("g0")],
        resolver_sources: vec![Some(s("fluid")), None, Some(s("   ")), Some(s("fluid")), Some(s("material"))],
    }
}

fn friction() -> CatalogFamilySource {
    CatalogFamilySource {
        key: s("friction_factor"),
        name: s("Friction Factor"),
        description: s("Darcy friction"),
        canonical_law: s("f = ..."),
        canonical_equation: s("fluids.colebrook"),
        route: s("equations/families/friction_factor.md"),
        variants: vec![
            CatalogVariantSource {
                key: s("laminar"),
                name: s("Laminar"),
                equation_id: s("fluids.laminar_friction"),
                display_latex: s("f=64/Re"),
                when_to_use: s("Re < 2300"),
                equation_route: s("equations/fluids/laminar_friction.md"),
            },
            CatalogVariantSource {
                key: s("colebrook"),
                name: s("Colebrook"),
                equation_id: s("fluids.colebrook"),
                display_latex: s("..."),
                when_to_use: s("turbulent"),
                equation_route: s("equations/fluids/colebrook.md"),
            },
        ],
    }
}

#[test]
fn resolver_contexts_are_sorted_unique_and_not_blank() {
    let got = collect_resolver_contexts(&reynolds().resolver_sources);
    assert_eq!(got, vec![s("fluid"), s("material")]);
    assert!(collect_resolver_contexts(&vec![None, Some(s(""))]).is_empty());
}

#[test]
fn links_are_sorted_by_relation_then_ends() {
    let links = catalog_links(&vec![reynolds()], &vec![friction()], &vec![], &generation_specs());
    let got: Vec<(String, String, String)> = links.iter().map(triple).collect();
    let t = |a: &str, b: &str, c: &str| (s(a), s(b), s(c));
    assert_eq!(
        got,
        vec![
            t("equation_uses_constant", "fluids.reynolds_number", "g0"),
            t("equation_uses_context", "fluids.reynolds_number", "fluid"),
            t("equation_uses_context", "fluids.reynolds_number", "material"),
            t("family_canonical_equation", "friction_factor", "fluids.colebrook"),
            t("family_variant_maps_to_equation", "friction_factor.colebrook", "fluids.colebrook"),
            t("family_variant_maps_to_equation", "friction_factor.laminar", "fluids.laminar_friction"),
        ]
    );
}

#[test]
fn device_links_follow_their_specs() {
    let specs = generation_specs();
    let deps = device_equation_dependencies(&specs, "nozzle_flow_calc");
    assert_eq!(
        deps,
        vec![
            "compressible.area_mach",
            "compressible.isentropic_pressure_ratio",
            "compressible.isentropic_temperature_ratio",
            "compressible.isentropic_density_ratio"
        ]
    );
    assert!(device_equation_dependencies(&specs, "pipe_loss").is_empty());
    let devices = docs_entries();
    let links = catalog_links(&vec![], &vec![], &devices, &specs);
    let total: usize = specs.iter().map(|sp| sp.equation_dependencies.len()).sum();
    assert_eq!(links.len(), total);
    assert!(links.iter().all(|l| l.relation == "device_uses_equation"));
    let got: Vec<(String, String, String)> = links.iter().map(triple).collect();
    let mut sorted = got.clone();
    sorted.sort();
    assert_eq!(got, sorted);
    assert_eq!(got[0].1, "conical_shock_calc");
}

#[test]
fn sort_links_orders_by_all_three_fields() {
    let l = |a: &str, b: &str, c: &str| CatalogLink { relation: s(a), from: s(b), to: s(c) };
    let out = sort_links(vec![l("b", "x", "2"), l("a", "y", "1"), l("b", "x", "1"), l("a", "x", "9"), l("b", "x", "1")]);
    let got: Vec<(String, String, String)> = out.iter().map(triple).collect();
    let t = |a: &str, b: &str, c: &str| (s(a), s(b), s(c));
    assert_eq!(got, vec![t("a", "x", "9"), t("a", "y", "1"), t("b", "x", "1"), t("b", "x", "1"), t("b", "x", "2")]);
}

#[test]
fn catalog_entries_repeat_their_sources() {
    let cat = build_unified_catalog(
        &vec![reynolds()],
        &vec![friction()],
        vec![s("g0")],
        vec![],
        vec![],
        vec![],
        &generation_specs(),
    );
    assert_eq!(cat.equations.len(), 1);
    let e = &cat.equations[0];
    assert_eq!(e.path_id, "fluids.reynolds_number");
    assert_eq!(e.default_target.as_deref(), Some("Re"));
    assert_eq!(e.subcategories, vec![s("internal")]);
    assert_eq!(e.resolver_contexts, vec![s("fluid"), s("material")]);
    let f = &cat.families[0];
    assert_eq!(f.route, "equations/families/friction_factor.md");
    assert_eq!(f.variants[0].route, "friction_factor.laminar");
    assert_eq!(f.variants[1].route, "friction_factor.colebrook");
    assert_eq!(f.variants[1].equation_route, "equations/fluids/colebrook.md");
    assert_eq!(cat.constants, vec![s("g0")]);
    assert_eq!(cat.links.len(), 6);
}
