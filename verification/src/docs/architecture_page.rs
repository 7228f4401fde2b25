//! The handbook chapter on the architecture layers, rendered from the
//! architecture description.
use vstd::prelude::*;
use crate::architecture::{
    architecture_spec_exact, boundary_layers, ownership_layers,
    architecture_spec, ArchitectureLayer, ArchitectureSpec, BindingPlan, CatalogEvolutionPlan, ComponentModelPrototype,
    EquationFamilyPrototype, FamilyVariantPrototype, LayerBoundaryRule, LayerOwner, OwnershipRule, SolveGraphPrototype,
};
use crate::strings::{concat_seq, join_seq, join_strs, prefixed_lines, push_prefixed_lines, push_str, str_views};

verus! {

/// The name a layer is shown under.
pub open spec fn layer_name(l: ArchitectureLayer) -> Seq<char> {
    match l {
        ArchitectureLayer::AtomicEquation => "AtomicEquation"@,
        ArchitectureLayer::EquationFamily => "EquationFamily"@,
        ArchitectureLayer::ComponentModel => "ComponentModel"@,
        ArchitectureLayer::SolveWorkflow => "SolveWorkflow"@,
        ArchitectureLayer::SolveGraph => "SolveGraph"@,
        ArchitectureLayer::ExternalBinding => "ExternalBinding"@,
    }
}

/// The name an owner is shown under.
pub open spec fn owner_name(o: LayerOwner) -> Seq<char> {
    match o {
        LayerOwner::Equations => "Equations"@,
        LayerOwner::Eng => "Eng"@,
        LayerOwner::EngFluids => "EngFluids"@,
        LayerOwner::EngMaterials => "EngMaterials"@,
    }
}

impl ArchitectureLayer {
    /// The name the layer is shown under.
    pub fn name(&self) -> (res: &'static str)
        ensures
            res@ == layer_name(*self),
    {
        match self {
            ArchitectureLayer::AtomicEquation => "AtomicEquation",
            ArchitectureLayer::EquationFamily => "EquationFamily",
            ArchitectureLayer::ComponentModel => "ComponentModel",
            ArchitectureLayer::SolveWorkflow => "SolveWorkflow",
            ArchitectureLayer::SolveGraph => "SolveGraph",
            ArchitectureLayer::ExternalBinding => "ExternalBinding",
        }
    }
}

impl LayerOwner {
    /// The name the owner is shown under.
    pub fn name(&self) -> (res: &'static str)
        ensures
            res@ == owner_name(*self),
    {
        match self {
            LayerOwner::Equations => "Equations",
            LayerOwner::Eng => "Eng",
            LayerOwner::EngFluids => "EngFluids",
            LayerOwner::EngMaterials => "EngMaterials",
        }
    }
}

/// The fixed introduction and layer definitions of the chapter.
pub const ARCHITECTURE_INTRO: [&'static str; 10] = [
    "# Architecture Layers\n\n",
    "This chapter defines strict ownership boundaries for work after atomic equations.\n\n",
    "## Layer Definitions\n\n",
    "1. **Atomic Equation**: one physical relation with scalar-first solve behavior and equation-level tests/docs.\n",
    "2. **Equation Family / Variants**: one canonical law with multiple discoverable forms without duplicating solver logic.\n",
    "3. **Component Model**: multi-equation iterative engineering model using contexts (fluid/material) as needed.\n",
    "4. **Solve Workflow Layer**: reusable numeric roots/ODE wrappers plus station/workflow chaining and provenance.\n",
    "5. **Solve Graph / Chaining**: node/edge orchestration connecting equations, components, constants, and property sources.\n",
    "6. **External Bindings**: generated Python/Excel surfaces over Rust-owned implementations.\n\n",
    "## Ownership Map\n\n| Layer | Owner | Owns | Does not own |\n| --- | --- | --- | --- |\n",
];

/// One row of the ownership table.
pub open spec fn ownership_row(r: OwnershipRule) -> Seq<char> {
    "| `"@ + layer_name(r.layer) + "` | `"@ + owner_name(r.owner) + "` | "@ + join_seq(str_views(r.owns@), "; "@) + " | "@
        + join_seq(str_views(r.does_not_own@), "; "@) + " |\n"@
}

/// The section of one layer's boundary rule.
pub open spec fn boundary_section(b: LayerBoundaryRule) -> Seq<char> {
    "### `"@ + layer_name(b.layer) + "`\n\n"@ + "Belongs here:\n"@ + prefixed_lines("- "@, str_views(b.belongs_here@))
        + "\nDoes not belong here:\n"@ + prefixed_lines("- "@, str_views(b.does_not_belong_here@)) + "\n"@
}

/// The line of one family variant.
pub open spec fn variant_line(v: FamilyVariantPrototype) -> Seq<char> {
    "  - `"@ + v.key@ + "` ("@ + v.display_name@ + ") target `"@ + v.target@ + "`: "@ + v.intended_usage@ + "\n"@
}

pub open spec fn ownership_section(rules: Seq<OwnershipRule>) -> Seq<char> {
    concat_seq(rules.map_values(|r: OwnershipRule| ownership_row(r))) + "\n"@
}

pub open spec fn boundaries_section(rules: Seq<LayerBoundaryRule>) -> Seq<char> {
    "## Belongs Here / Not Here Rules\n\n"@ + concat_seq(rules.map_values(|b: LayerBoundaryRule| boundary_section(b)))
}

pub open spec fn family_section(f: EquationFamilyPrototype) -> Seq<char> {
    "## Prototype: Equation Family (Ideal Gas)\n\n"@ + "- Key: `"@ + f.key@ + "`\n- Canonical relation: `"@
        + f.canonical_relation@ + "`\n- Canonical equation path: `"@ + f.canonical_equation_path@ + "`\n"@
        + "- Variants:\n"@ + concat_seq(f.variants@.map_values(|v: FamilyVariantPrototype| variant_line(v))) + "\n"@
}

pub open spec fn component_section(c: ComponentModelPrototype) -> Seq<char> {
    "## Prototype: Component Model (Two Orifice)\n\n"@ + "- Key: `"@ + c.key@ + "`\n- Requires contexts: "@
        + join_seq(str_views(c.required_contexts@), ", "@) + "\n- Depends on equations: "@
        + join_seq(str_views(c.equation_dependencies@), ", "@) + "\n"@ + prefixed_lines("- "@, str_views(c.notes@))
        + "\n"@
}

pub open spec fn graph_section(g: SolveGraphPrototype) -> Seq<char> {
    "## Solve Graph Model (Planned)\n\n"@ + "- Node kinds: "@ + join_seq(str_views(g.node_kinds@), ", "@)
        + "\n- Edge semantics: "@ + join_seq(str_views(g.edge_semantics@), "; "@) + "\n"@
        + prefixed_lines("- "@, str_views(g.notes@)) + "\n"@
}

pub open spec fn binding_section(b: BindingPlan) -> Seq<char> {
    "## External Binding Plan (Python/Excel)\n\n"@ + "- Targets: "@ + join_seq(str_views(b.targets@), ", "@)
        + "\n- Authoritative runtime: "@ + b.authoritative_runtime@ + "\n- Generated from: "@
        + join_seq(str_views(b.generated_from@), "; "@) + "\n"@ + "- Naming rules:\n"@
        + prefixed_lines("  - "@, str_views(b.naming_rules@)) + "- Notes:\n"@ + prefixed_lines("  - "@, str_views(b.notes@))
        + "\n"@
}

pub open spec fn catalog_section(p: CatalogEvolutionPlan) -> Seq<char> {
    "## Catalog Evolution Plan\n\n"@ + "- New sections: "@ + join_seq(str_views(p.new_sections@), ", "@)
        + "\n- Required links: "@ + join_seq(str_views(p.required_links@), ", "@) + "\n"@
        + "\nThe machine-readable form of this chapter is exported as `generated/architecture_spec.json`.\n"@
}

/// The architecture chapter: the fixed introduction, the ownership table, the
/// boundary rules, and the family, component, graph, binding and catalog plans.
pub open spec fn architecture_page_text(spec: ArchitectureSpec) -> Seq<char> {
    concat_seq(str_views(ARCHITECTURE_INTRO@)) + ownership_section(spec.ownership@) + boundaries_section(spec.boundaries@)
        + family_section(spec.family_prototype) + component_section(spec.component_prototype) + graph_section(
        spec.graph_prototype,
    ) + binding_section(spec.binding_plan) + catalog_section(spec.catalog_plan)
}

fn push_joined(md: &mut String, parts: &Vec<&'static str>, sep: &str)
    ensures
        final(md)@ == old(md)@ + join_seq(str_views(parts@), sep@),
{
    let j = join_strs(parts, sep);
    push_str(md, j.as_str());
}

#[verifier::spinoff_prover]
#[verifier::rlimit(40)]
fn push_ownership(md: &mut String, rules: &Vec<OwnershipRule>)
    ensures
        final(md)@ == old(md)@ + ownership_section(rules@),
{
    let ghost s0 = md@;
    let mut i: usize = 0;
    while i < rules.len()
        invariant
            i <= rules@.len(),
            md@ == s0 + concat_seq(rules@.subrange(0, i as int).map_values(|r: OwnershipRule| ownership_row(r))),
        decreases rules@.len() - i,
    {
        let r = &rules[i];
        let ghost before = md@;
        push_str(md, "| `");
        push_str(md, r.layer.name());
        push_str(md, "` | `");
        push_str(md, r.owner.name());
        push_str(md, "` | ");
        push_joined(md, &r.owns, "; ");
        push_str(md, " | ");
        push_joined(md, &r.does_not_own, "; ");
        push_str(md, " |\n");
        proof {
            assert(md@ =~= before + ownership_row(*r));
            let t = rules@.subrange(0, i + 1).map_values(|r: OwnershipRule| ownership_row(r));
            assert(t.drop_last() =~= rules@.subrange(0, i as int).map_values(|r: OwnershipRule| ownership_row(r)));
        }
        i = i + 1;
    }
    assert(rules@.subrange(0, rules@.len() as int) =~= rules@);
    push_str(md, "\n");
}

#[verifier::spinoff_prover]
#[verifier::rlimit(40)]
fn push_boundaries(md: &mut String, rules: &Vec<LayerBoundaryRule>)
    ensures
        final(md)@ == old(md)@ + boundaries_section(rules@),
{
    let ghost s0 = md@;
    push_str(md, "## Belongs Here / Not Here Rules\n\n");
    let ghost s1 = md@;
    let mut i: usize = 0;
    while i < rules.len()
        invariant
            i <= rules@.len(),
            md@ == s1 + concat_seq(rules@.subrange(0, i as int).map_values(|b: LayerBoundaryRule| boundary_section(b))),
        decreases rules@.len() - i,
    {
        let b = &rules[i];
        let ghost before = md@;
        push_str(md, "### `");
        push_str(md, b.layer.name());
        push_str(md, "`\n\n");
        push_str(md, "Belongs here:\n");
        push_prefixed_lines(md, "- ", &b.belongs_here);
        push_str(md, "\nDoes not belong here:\n");
        push_prefixed_lines(md, "- ", &b.does_not_belong_here);
        push_str(md, "\n");
        proof {
            assert(md@ =~= before + boundary_section(*b));
            let t = rules@.subrange(0, i + 1).map_values(|b: LayerBoundaryRule| boundary_section(b));
            assert(t.drop_last() =~= rules@.subrange(0, i as int).map_values(|b: LayerBoundaryRule| boundary_section(b)));
        }
        i = i + 1;
    }
    assert(rules@.subrange(0, rules@.len() as int) =~= rules@);
}

fn push_family(md: &mut String, f: &EquationFamilyPrototype)
    ensures
        final(md)@ == old(md)@ + family_section(*f),
{
    let ghost s0 = md@;
    push_str(md, "## Prototype: Equation Family (Ideal Gas)\n\n");
    push_str(md, "- Key: `");
    push_str(md, f.key);
    push_str(md, "`\n- Canonical relation: `");
    push_str(md, f.canonical_relation);
    push_str(md, "`\n- Canonical equation path: `");
    push_str(md, f.canonical_equation_path);
    push_str(md, "`\n");
    push_str(md, "- Variants:\n");
    let ghost s1 = md@;
    let mut i: usize = 0;
    while i < f.variants.len()
        invariant
            i <= f.variants@.len(),
            md@ == s1 + concat_seq(f.variants@.subrange(0, i as int).map_values(|v: FamilyVariantPrototype| variant_line(v))),
        decreases f.variants@.len() - i,
    {
        let v = &f.variants[i];
        let ghost before = md@;
        push_str(md, "  - `");
        push_str(md, v.key);
        push_str(md, "` (");
        push_str(md, v.display_name);
        push_str(md, ") target `");
        push_str(md, v.target);
        push_str(md, "`: ");
        push_str(md, v.intended_usage);
        push_str(md, "\n");
        proof {
            assert(md@ =~= before + variant_line(*v));
            let t = f.variants@.subrange(0, i + 1).map_values(|v: FamilyVariantPrototype| variant_line(v));
            assert(t.drop_last() =~= f.variants@.subrange(0, i as int).map_values(|v: FamilyVariantPrototype| variant_line(v)));
        }
        i = i + 1;
    }
    assert(f.variants@.subrange(0, f.variants@.len() as int) =~= f.variants@);
    push_str(md, "\n");
    assert(md@ =~= s0 + family_section(*f));
}

fn push_component(md: &mut String, c: &ComponentModelPrototype)
    ensures
        final(md)@ == old(md)@ + component_section(*c),
{
    let ghost s0 = md@;
    push_str(md, "## Prototype: Component Model (Two Orifice)\n\n");
    push_str(md, "- Key: `");
    push_str(md, c.key);
    push_str(md, "`\n- Requires contexts: ");
    push_joined(md, &c.required_contexts, ", ");
    push_str(md, "\n- Depends on equations: ");
    push_joined(md, &c.equation_dependencies, ", ");
    push_str(md, "\n");
    push_prefixed_lines(md, "- ", &c.notes);
    push_str(md, "\n");
    assert(md@ =~= s0 + component_section(*c));
}

fn push_graph(md: &mut String, g: &SolveGraphPrototype)
    ensures
        final(md)@ == old(md)@ + graph_section(*g),
{
    let ghost s0 = md@;
    push_str(md, "## Solve Graph Model (Planned)\n\n");
    push_str(md, "- Node kinds: ");
    push_joined(md, &g.node_kinds, ", ");
    push_str(md, "\n- Edge semantics: ");
    push_joined(md, &g.edge_semantics, "; ");
    push_str(md, "\n");
    push_prefixed_lines(md, "- ", &g.notes);
    push_str(md, "\n");
    assert(md@ =~= s0 + graph_section(*g));
}

fn push_binding(md: &mut String, b: &BindingPlan)
    ensures
        final(md)@ == old(md)@ + binding_section(*b),
{
    let ghost s0 = md@;
    push_str(md, "## External Binding Plan (Python/Excel)\n\n");
    push_str(md, "- Targets: ");
    push_joined(md, &b.targets, ", ");
    push_str(md, "\n- Authoritative runtime: ");
    push_str(md, b.authoritative_runtime);
    push_str(md, "\n- Generated from: ");
    push_joined(md, &b.generated_from, "; ");
    push_str(md, "\n");
    push_str(md, "- Naming rules:\n");
    push_prefixed_lines(md, "  - ", &b.naming_rules);
    push_str(md, "- Notes:\n");
    push_prefixed_lines(md, "  - ", &b.notes);
    push_str(md, "\n");
    assert(md@ =~= s0 + binding_section(*b));
}

fn push_catalog(md: &mut String, p: &CatalogEvolutionPlan)
    ensures
        final(md)@ == old(md)@ + catalog_section(*p),
{
    let ghost s0 = md@;
    push_str(md, "## Catalog Evolution Plan\n\n");
    push_str(md, "- New sections: ");
    push_joined(md, &p.new_sections, ", ");
    push_str(md, "\n- Required links: ");
    push_joined(md, &p.required_links, ", ");
    push_str(md, "\n");
    push_str(md, "\nThe machine-readable form of this chapter is exported as `generated/architecture_spec.json`.\n");
    assert(md@ =~= s0 + catalog_section(*p));
}

/// Renders the architecture chapter from a description.
pub fn render_architecture_page_from(spec: &ArchitectureSpec) -> (res: String)
    ensures
        res@ == architecture_page_text(*spec),
{
    let mut md = crate::strings::concat_parts(ARCHITECTURE_INTRO.as_slice());
    push_ownership(&mut md, &spec.ownership);
    push_boundaries(&mut md, &spec.boundaries);
    push_family(&mut md, &spec.family_prototype);
    push_component(&mut md, &spec.component_prototype);
    push_graph(&mut md, &spec.graph_prototype);
    push_binding(&mut md, &spec.binding_plan);
    push_catalog(&mut md, &spec.catalog_plan);
    assert(md@ =~= architecture_page_text(*spec));
    md
}

/// The handbook's architecture chapter: the page rendered from the
/// description that `architecture_spec` returns.
pub open spec fn handbook_architecture_page() -> Seq<char> {
    architecture_page_text(choose|s: ArchitectureSpec| architecture_spec_exact(s))
}

/// Any two descriptions with exactly the tables and prototypes of
/// `architecture_spec` render to the same chapter.
pub proof fn architecture_page_is_determined(a: ArchitectureSpec, b: ArchitectureSpec)
    requires
        architecture_spec_exact(a),
        architecture_spec_exact(b),
    ensures
        architecture_page_text(a) == architecture_page_text(b),
{
    let ra = a.ownership@;
    let rb = b.ownership@;
    assert(ownership_layers(ra).len() == ra.len());
    assert(ownership_layers(rb).len() == rb.len());
    assert forall|i: int| 0 <= i < ra.len() implies ownership_row(ra[i]) == ownership_row(rb[i]) by {
        assert(ownership_layers(ra)[i] == ra[i].layer);
        assert(ownership_layers(rb)[i] == rb[i].layer);
    }
    assert(ra.map_values(|r: OwnershipRule| ownership_row(r)) =~= rb.map_values(|r: OwnershipRule| ownership_row(r)));
    let ba = a.boundaries@;
    let bb = b.boundaries@;
    assert(boundary_layers(ba).len() == ba.len());
    assert(boundary_layers(bb).len() == bb.len());
    assert forall|i: int| 0 <= i < ba.len() implies boundary_section(ba[i]) == boundary_section(bb[i]) by {
        assert(boundary_layers(ba)[i] == ba[i].layer);
        assert(boundary_layers(bb)[i] == bb[i].layer);
    }
    assert(ba.map_values(|r: LayerBoundaryRule| boundary_section(r)) =~= bb.map_values(
        |r: LayerBoundaryRule| boundary_section(r),
    ));
    let va = a.family_prototype.variants@;
    let vb = b.family_prototype.variants@;
    assert(variant_line(va[0]) == variant_line(vb[0]));
    assert(variant_line(va[1]) == variant_line(vb[1]));
    assert(va.map_values(|v: FamilyVariantPrototype| variant_line(v)) =~= vb.map_values(
        |v: FamilyVariantPrototype| variant_line(v),
    ));
}

/// Renders the architecture chapter of the handbook.
pub fn render_architecture_page() -> (res: String)
    ensures
        res@ == handbook_architecture_page(),
{
    let spec = architecture_spec();
    proof {
        architecture_page_is_determined(spec, choose|s: ArchitectureSpec| architecture_spec_exact(s));
    }
    render_architecture_page_from(&spec)
}

} // verus!
