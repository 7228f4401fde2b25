use eng::architecture::{
    architecture_spec, boundary_rules, catalog_evolution_plan, external_binding_plan, ideal_gas_family_prototype,
    ownership_rules, solve_graph_prototype, two_orifice_component_prototype, ArchitectureLayer, LayerOwner,
};
use eng::docs::architecture_page::render_architecture_page;

#[test]
fn architecture_spec_has_all_layers() {
    let spec = architecture_spec();
    assert_eq!(spec.ownership.len(), 6);
    assert_eq!(spec.boundaries.len(), 6);
    assert_eq!(spec.family_prototype.key, "ideal_gas");
    assert_eq!(spec.component_prototype.key, "two_orifice");
}

#[test]
fn ownership_follows_layer_order_and_owners() {
    let rules = ownership_rules();
    let layers: Vec<ArchitectureLayer> = rules.iter().map(|r| r.layer).collect();
    assert_eq!(
        layers,
        vec![
            ArchitectureLayer::AtomicEquation,
            ArchitectureLayer::EquationFamily,
            ArchitectureLayer::ComponentModel,
            ArchitectureLayer::SolveWorkflow,
            ArchitectureLayer::SolveGraph,
            ArchitectureLayer::ExternalBinding,
        ]
    );
    assert_eq!(rules[0].owner, LayerOwner::Equations);
    assert_eq!(rules[1].owner, LayerOwner::Equations);
    for r in &rules[2..] {
        assert_eq!(r.owner, LayerOwner::Eng);
    }
    for r in &rules {
        assert_eq!(r.owns.len(), 3);
        assert_eq!(r.does_not_own.len(), 3);
    }
}

#[test]
fn every_layer_has_one_boundary_rule() {
    let rules = boundary_rules();
    for (i, a) in rules.iter().enumerate() {
        for b in &rules[i + 1..] {
            assert_ne!(a.layer, b.layer);
        }
        assert_eq!(a.belongs_here.len(), 3);
        assert_eq!(a.does_not_belong_here.len(), 3);
    }
    assert_eq!(rules.len(), 6);
}

#[test]
fn prototypes_carry_their_keys() {
    let f = ideal_gas_family_prototype();
    assert_eq!(f.canonical_relation, "P * V = m * R * T");
    assert_eq!(f.variants.len(), 2);
    assert_eq!(f.variants[0].key, "pv_equals_mrt");
    assert_eq!(f.variants[1].key, "p_equals_rho_rt");
    let c = two_orifice_component_prototype();
    assert_eq!(c.required_contexts, vec!["fluid"]);
    assert_eq!(c.equation_dependencies, vec!["fluids.orifice_mass_flow_incompressible", "fluids.continuity_mass_flow"]);
    let g = solve_graph_prototype();
    assert_eq!(g.node_kinds.len(), 6);
    assert_eq!(g.node_kinds[0], "atomic_equation");
    let b = external_binding_plan();
    assert_eq!(b.targets, vec!["python", "excel"]);
    let p = catalog_evolution_plan();
    assert_eq!(p.new_sections, vec!["equation_families", "components", "binding_surfaces"]);
    assert_eq!(p.required_links.len(), 4);
}

#[test]
fn architecture_page_renders_tables() {
    let page = render_architecture_page();
    assert!(page.starts_with("# Architecture Layers\n\n"));
    assert!(page.contains("| `AtomicEquation` | `Equations` | equation registry + normalization + validation; scalar solve behavior + diagnostics; equation-level docs/examples/export fragments | multi-step component orchestration; top-level graph execution engine; excel/python runtime implementations |\n"));
    assert!(page.contains("### `ExternalBinding`\n\nBelongs here:\n- generated thin wrappers for rust-owned behavior\n"));
    assert!(page.contains("- Key: `ideal_gas`\n- Canonical relation: `P * V = m * R * T`\n- Canonical equation path: `thermo.ideal_gas`\n"));
    assert!(page.contains("  - `pv_equals_mrt` (Pressure-Volume Form) target `P`: closed-control-volume mass/temperature/volume calculations\n"));
    assert!(page.contains("- Targets: python, excel\n- Authoritative runtime: rust (eng + domain crates)\n"));
    assert!(page.contains("- New sections: equation_families, components, binding_surfaces\n"));
    assert!(page.ends_with("exported as `generated/architecture_spec.json`.\n"));
}

#[test]
fn architecture_texts_are_exact() {
    let spec = architecture_spec();
    let rules = ownership_rules();
    assert_eq!(rules[0].owns, vec!["equation registry + normalization + validation", "scalar solve behavior + diagnostics", "equation-level docs/examples/export fragments"]);
    assert_eq!(rules[0].does_not_own, vec!["multi-step component orchestration", "top-level graph execution engine", "excel/python runtime implementations"]);
    assert_eq!(rules[5].does_not_own[2], "independent duplicate logic");
    let bounds = boundary_rules();
    assert_eq!(bounds[3].belongs_here[0], "reusable root/ODE numeric utilities with convergence metadata");
    assert_eq!(bounds[5].does_not_belong_here, vec!["business logic reimplementation", "separate unit engine", "untracked API behavior divergence"]);
    for r in &bounds {
        for b in &r.belongs_here {
            assert!(!r.does_not_belong_here.contains(b));
        }
    }
    for r in &rules {
        for o in &r.owns {
            assert!(!r.does_not_own.contains(o));
        }
    }
    let f = ideal_gas_family_prototype();
    assert_eq!(f.name, "Ideal Gas Law Family");
    assert_eq!(f.variants[1].display_name, "Density Form");
    let c = two_orifice_component_prototype();
    assert_eq!(c.name, "Two-Orifice Pressure Splitter (Prototype)");
    assert_eq!(c.notes.len(), 3);
    let b = external_binding_plan();
    assert_eq!(b.authoritative_runtime, "rust (eng + domain crates)");
    assert_eq!(b.generated_from, vec!["unified catalog.json", "equation pages/examples metadata", "family/component binding manifest entries"]);
    assert_eq!(b.naming_rules.len(), 3);
    assert_eq!(b.notes.len(), 2);
    assert_eq!(spec.graph_prototype.edge_semantics, solve_graph_prototype().edge_semantics);
    assert_eq!(spec.catalog_plan.required_links, catalog_evolution_plan().required_links);
    assert_eq!(spec.binding_plan.notes, b.notes);
    let owned: Vec<ArchitectureLayer> = rules.iter().map(|r| r.layer).collect();
    let bounded: Vec<ArchitectureLayer> = bounds.iter().map(|r| r.layer).collect();
    assert_eq!(owned, bounded);
}
