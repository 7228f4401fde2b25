//! The layered architecture of the engineering stack, as data: which crate owns
//! each layer, what belongs in it, and the prototypes of the upper layers.
use vstd::prelude::*;

verus! {

/// The layers of the stack, from the single law up to the external bindings.
#[derive(Debug, Clone, Copy, PartialEq, Eq, Structural)]
pub enum ArchitectureLayer {
    AtomicEquation,
    EquationFamily,
    ComponentModel,
    SolveWorkflow,
    SolveGraph,
    ExternalBinding,
}

/// The crates that own layers.
#[derive(Debug, Clone, Copy, PartialEq, Eq, Structural)]
pub enum LayerOwner {
    Equations,
    Eng,
    EngFluids,
    EngMaterials,
}

/// The layers in order, lowest first.
pub open spec fn layer_order() -> Seq<ArchitectureLayer> {
    seq![
        ArchitectureLayer::AtomicEquation,
        ArchitectureLayer::EquationFamily,
        ArchitectureLayer::ComponentModel,
        ArchitectureLayer::SolveWorkflow,
        ArchitectureLayer::SolveGraph,
        ArchitectureLayer::ExternalBinding,
    ]
}

/// The equation crate owns the two equation layers; `eng` owns every layer above.
pub open spec fn owner_of(layer: ArchitectureLayer) -> LayerOwner {
    match layer {
        ArchitectureLayer::AtomicEquation => LayerOwner::Equations,
        ArchitectureLayer::EquationFamily => LayerOwner::Equations,
        _ => LayerOwner::Eng,
    }
}

/// Every layer occurs in `layers`, and none occurs twice.
pub open spec fn covers_each_layer_once(layers: Seq<ArchitectureLayer>) -> bool {
    &&& forall|l: ArchitectureLayer| #[trigger] layers.contains(l)
    &&& forall|i: int, j: int|
        0 <= i < layers.len() && 0 <= j < layers.len() && layers[i] == layers[j] ==> i == j
}

/// The layer order names each layer exactly once.
pub proof fn layer_order_covers_each_layer_once()
    ensures
        covers_each_layer_once(layer_order()),
{
    assert forall|l: ArchitectureLayer| #[trigger] layer_order().contains(l) by {
        let k: int = match l {
            ArchitectureLayer::AtomicEquation => 0,
            ArchitectureLayer::EquationFamily => 1,
            ArchitectureLayer::ComponentModel => 2,
            ArchitectureLayer::SolveWorkflow => 3,
            ArchitectureLayer::SolveGraph => 4,
            ArchitectureLayer::ExternalBinding => 5,
        };
        assert(layer_order()[k] == l);
    }
}

/// Who owns a layer, what it owns and what it leaves to others.
#[derive(Debug, Clone)]
pub struct OwnershipRule {
    pub layer: ArchitectureLayer,
    pub owner: LayerOwner,
    pub owns: Vec<&'static str>,
    pub does_not_own: Vec<&'static str>,
}

/// What belongs in a layer and what does not.
#[derive(Debug, Clone)]
pub struct LayerBoundaryRule {
    pub layer: ArchitectureLayer,
    pub belongs_here: Vec<&'static str>,
    pub does_not_belong_here: Vec<&'static str>,
}

/// A family of equivalent forms of one canonical law.
#[derive(Debug, Clone)]
pub struct EquationFamilyPrototype {
    pub key: &'static str,
    pub name: &'static str,
    pub canonical_relation: &'static str,
    pub canonical_equation_path: &'static str,
    pub variants: Vec<FamilyVariantPrototype>,
}

/// One form of a family's law.
#[derive(Debug, Clone)]
pub struct FamilyVariantPrototype {
    pub key: &'static str,
    pub display_name: &'static str,
    pub target: &'static str,
    pub intended_usage: &'static str,
}

/// A component model built from several equations.
#[derive(Debug, Clone)]
pub struct ComponentModelPrototype {
    pub key: &'static str,
    pub name: &'static str,
    pub required_contexts: Vec<&'static str>,
    pub equation_dependencies: Vec<&'static str>,
    pub notes: Vec<&'static str>,
}

/// The node kinds and edge meaning of the solve graph.
#[derive(Debug, Clone)]
pub struct SolveGraphPrototype {
    pub node_kinds: Vec<&'static str>,
    pub edge_semantics: Vec<&'static str>,
    pub notes: Vec<&'static str>,
}

/// How external bindings are produced.
#[derive(Debug, Clone)]
pub struct BindingPlan {
    pub targets: Vec<&'static str>,
    pub authoritative_runtime: &'static str,
    pub generated_from: Vec<&'static str>,
    pub naming_rules: Vec<&'static str>,
    pub notes: Vec<&'static str>,
}

/// The sections and links that the catalog gains.
#[derive(Debug, Clone)]
pub struct CatalogEvolutionPlan {
    pub new_sections: Vec<&'static str>,
    pub required_links: Vec<&'static str>,
}

/// The whole architecture description.
#[derive(Debug, Clone)]
pub struct ArchitectureSpec {
    pub ownership: Vec<OwnershipRule>,
    pub boundaries: Vec<LayerBoundaryRule>,
    pub family_prototype: EquationFamilyPrototype,
    pub component_prototype: ComponentModelPrototype,
    pub graph_prototype: SolveGraphPrototype,
    pub binding_plan: BindingPlan,
    pub catalog_plan: CatalogEvolutionPlan,
}

pub open spec fn ownership_layers(rules: Seq<OwnershipRule>) -> Seq<ArchitectureLayer> {
    rules.map_values(|r: OwnershipRule| r.layer)
}

pub open spec fn boundary_layers(rules: Seq<LayerBoundaryRule>) -> Seq<ArchitectureLayer> {
    rules.map_values(|r: LayerBoundaryRule| r.layer)
}

/// The ownership table: one rule per layer, in layer order, each naming the
/// layer's owner and three responsibilities on each side.
pub open spec fn ownership_rules_ok(rules: Seq<OwnershipRule>) -> bool {
    &&& ownership_layers(rules) == layer_order()
    &&& forall|i: int| 0 <= i < rules.len() ==> {
        &&& (#[trigger] rules[i]).owner == owner_of(rules[i].layer)
        &&& rules[i].owns.len() == 3
        &&& rules[i].does_not_own.len() == 3
    }
}

/// The boundary table: one rule per layer, in layer order, with three entries
/// on each side.
pub open spec fn boundary_rules_ok(rules: Seq<LayerBoundaryRule>) -> bool {
    &&& boundary_layers(rules) == layer_order()
    &&& forall|i: int| 0 <= i < rules.len() ==> {
        &&& (#[trigger] rules[i]).belongs_here.len() == 3
        &&& rules[i].does_not_belong_here.len() == 3
    }
}

/// What each layer owns (three entries) and leaves to others (three entries),
/// in layer order.
pub const OWNERSHIP_TEXTS: [(&'static str, &'static str, &'static str, &'static str, &'static str, &'static str); 6] = [
    ("equation registry + normalization + validation", "scalar solve behavior + diagnostics", "equation-level docs/examples/export fragments", "multi-step component orchestration", "top-level graph execution engine", "excel/python runtime implementations"),
    ("canonical law identity + variant metadata", "variant discovery/docs/search surfaces", "family-to-atomic mapping", "component iterative strategies", "graph scheduling", "external binding runtimes"),
    ("multi-equation orchestration", "iteration policy and convergence strategy", "context-aware model IO surfaces", "single-relation canonical equations", "global graph scheduling", "backend-native fluid/material implementations"),
    ("shared numeric solve wrappers (root/convergence reporting)", "shared ODE integration interfaces for engineering models", "station/workflow chaining and provenance tracing", "atomic equation definitions", "device-specific engineering semantics", "binding-generation policy"),
    ("node/edge orchestration across equations/components", "dependency ordering and graph solve execution", "cross-domain chained workflows", "atomic equation definitions", "fluid/material property backends", "binding runtime logic"),
    ("python/excel surface generation spec", "binding package metadata + naming rules", "catalog-driven API exposure policy", "core numeric implementations", "domain registry truth", "independent duplicate logic"),
];

/// What belongs in each layer (three entries) and what does not (three
/// entries), in layer order.
pub const BOUNDARY_TEXTS: [(&'static str, &'static str, &'static str, &'static str, &'static str, &'static str); 6] = [
    ("single physical law with scalar variables", "explicit and/or numerical solve paths for that one law", "baseline full-state test cases", "workflow orchestration spanning many laws", "component-level iteration/control loops", "cross-step graph sequencing"),
    ("multiple common views of one canonical law", "variant docs/search aliases", "shared assumptions across forms", "duplicate full atomic equations for each algebraic view", "component orchestration logic", "graph node scheduling"),
    ("multi-equation iterative model behavior", "high-level engineering input/output interfaces", "context resolution across fluid/material states", "new atomic law definitions", "general graph planner", "binding-generation policy"),
    ("reusable root/ODE numeric utilities with convergence metadata", "ordered step/station workflow execution scaffolding", "cross-step provenance, warnings, and structured failure propagation", "new equation physics definitions", "device-specific binding naming decisions", "full arbitrary graph optimization/planning"),
    ("equation/component/property/constant node chaining", "edge-based dataflow + dependency execution", "multi-node workflow diagnostics", "atomic equation authoring", "component-specific constitutive details", "domain backend implementations"),
    ("generated thin wrappers for rust-owned behavior", "stable naming/signature projection", "binding docs/examples from unified catalog", "business logic reimplementation", "separate unit engine", "untracked API behavior divergence"),
];

/// The layers in order, lowest first, as the tables list them.
pub const ARCHITECTURE_LAYERS: [ArchitectureLayer; 6] = [
    ArchitectureLayer::AtomicEquation,
    ArchitectureLayer::EquationFamily,
    ArchitectureLayer::ComponentModel,
    ArchitectureLayer::SolveWorkflow,
    ArchitectureLayer::SolveGraph,
    ArchitectureLayer::ExternalBinding,
];

/// The ownership table exactly: one rule per layer in layer order, the layer's
/// owner, and the entries of its row of `OWNERSHIP_TEXTS`.
pub open spec fn ownership_rules_exact(rules: Seq<OwnershipRule>) -> bool {
    &&& ownership_rules_ok(rules)
    &&& forall|i: int| 0 <= i < rules.len() ==> {
        &&& (#[trigger] rules[i]).owns@ == seq![OWNERSHIP_TEXTS@[i].0, OWNERSHIP_TEXTS@[i].1, OWNERSHIP_TEXTS@[i].2]
        &&& rules[i].does_not_own@ == seq![OWNERSHIP_TEXTS@[i].3, OWNERSHIP_TEXTS@[i].4, OWNERSHIP_TEXTS@[i].5]
    }
}

/// The boundary table exactly: one rule per layer in layer order, with the
/// entries of its row of `BOUNDARY_TEXTS`.
pub open spec fn boundary_rules_exact(rules: Seq<LayerBoundaryRule>) -> bool {
    &&& boundary_rules_ok(rules)
    &&& forall|i: int| 0 <= i < rules.len() ==> {
        &&& (#[trigger] rules[i]).belongs_here@ == seq![BOUNDARY_TEXTS@[i].0, BOUNDARY_TEXTS@[i].1, BOUNDARY_TEXTS@[i].2]
        &&& rules[i].does_not_belong_here@ == seq![BOUNDARY_TEXTS@[i].3, BOUNDARY_TEXTS@[i].4, BOUNDARY_TEXTS@[i].5]
    }
}

fn owner_for(layer: ArchitectureLayer) -> (o: LayerOwner)
    ensures
        o == owner_of(layer),
{
    match layer {
        ArchitectureLayer::AtomicEquation => LayerOwner::Equations,
        ArchitectureLayer::EquationFamily => LayerOwner::Equations,
        _ => LayerOwner::Eng,
    }
}

/// Who owns each layer of the stack.
pub fn ownership_rules() -> (rules: Vec<OwnershipRule>)
    ensures
        ownership_rules_exact(rules@),
        covers_each_layer_once(ownership_layers(rules@)),
{
    let mut rules: Vec<OwnershipRule> = Vec::new();
    let mut i: usize = 0;
    assert(ARCHITECTURE_LAYERS@ =~= layer_order());
    while i < 6
        invariant
            i <= 6,
            ARCHITECTURE_LAYERS@ == layer_order(),
            rules@.len() == i,
            forall|k: int| 0 <= k < i ==> {
                &&& (#[trigger] rules@[k]).layer == layer_order()[k]
                &&& rules@[k].owner == owner_of(rules@[k].layer)
                &&& rules@[k].owns@ == seq![OWNERSHIP_TEXTS@[k].0, OWNERSHIP_TEXTS@[k].1, OWNERSHIP_TEXTS@[k].2]
                &&& rules@[k].does_not_own@ == seq![OWNERSHIP_TEXTS@[k].3, OWNERSHIP_TEXTS@[k].4, OWNERSHIP_TEXTS@[k].5]
            },
        decreases 6 - i,
    {
        let t = OWNERSHIP_TEXTS[i];
        let layer = ARCHITECTURE_LAYERS[i];
        let owns = vec![t.0, t.1, t.2];
        let does_not_own = vec![t.3, t.4, t.5];
        assert(owns@ =~= seq![t.0, t.1, t.2]);
        assert(does_not_own@ =~= seq![t.3, t.4, t.5]);
        rules.push(OwnershipRule { layer, owner: owner_for(layer), owns, does_not_own });
        i = i + 1;
    }
    proof {
        assert(ownership_layers(rules@) =~= layer_order());
        layer_order_covers_each_layer_once();
    }
    rules
}

/// What belongs in each layer of the stack.
pub fn boundary_rules() -> (rules: Vec<LayerBoundaryRule>)
    ensures
        boundary_rules_exact(rules@),
        covers_each_layer_once(boundary_layers(rules@)),
{
    let mut rules: Vec<LayerBoundaryRule> = Vec::new();
    let mut i: usize = 0;
    assert(ARCHITECTURE_LAYERS@ =~= layer_order());
    while i < 6
        invariant
            i <= 6,
            ARCHITECTURE_LAYERS@ == layer_order(),
            rules@.len() == i,
            forall|k: int| 0 <= k < i ==> {
                &&& (#[trigger] rules@[k]).layer == layer_order()[k]
                &&& rules@[k].belongs_here@ == seq![BOUNDARY_TEXTS@[k].0, BOUNDARY_TEXTS@[k].1, BOUNDARY_TEXTS@[k].2]
                &&& rules@[k].does_not_belong_here@ == seq![BOUNDARY_TEXTS@[k].3, BOUNDARY_TEXTS@[k].4, BOUNDARY_TEXTS@[k].5]
            },
        decreases 6 - i,
    {
        let t = BOUNDARY_TEXTS[i];
        let belongs_here = vec![t.0, t.1, t.2];
        let does_not_belong_here = vec![t.3, t.4, t.5];
        assert(belongs_here@ =~= seq![t.0, t.1, t.2]);
        assert(does_not_belong_here@ =~= seq![t.3, t.4, t.5]);
        rules.push(LayerBoundaryRule { layer: ARCHITECTURE_LAYERS[i], belongs_here, does_not_belong_here });
        i = i + 1;
    }
    proof {
        assert(boundary_layers(rules@) =~= layer_order());
        layer_order_covers_each_layer_once();
    }
    rules
}

/// The ownership table and the boundary table cover the same layers, in the
/// same order.
pub proof fn tables_share_layers(o: Seq<OwnershipRule>, b: Seq<LayerBoundaryRule>)
    requires
        ownership_rules_exact(o),
        boundary_rules_exact(b),
    ensures
        ownership_layers(o) == boundary_layers(b),
        o.len() == b.len(),
        forall|i: int| 0 <= i < o.len() ==> #[trigger] o[i].layer == b[i].layer,
{
    assert(ownership_layers(o).len() == o.len());
    assert(boundary_layers(b).len() == b.len());
    assert forall|i: int| 0 <= i < o.len() implies #[trigger] o[i].layer == b[i].layer by {
        assert(ownership_layers(o)[i] == o[i].layer);
        assert(boundary_layers(b)[i] == b[i].layer);
    }
}

/// No layer both owns and does not own the same responsibility.
pub proof fn ownership_sides_disjoint(rules: Seq<OwnershipRule>)
    requires
        ownership_rules_exact(rules),
    ensures
        forall|i: int, j: int, k: int| 0 <= i < rules.len() && 0 <= j < 3 && 0 <= k < 3 ==> (#[trigger] rules[i].owns@[j])@
            != (#[trigger] rules[i].does_not_own@[k])@,
{
    assert(ownership_layers(rules).len() == rules.len());
    assert(rules.len() == 6);
    assert forall|i: int, j: int, k: int| 0 <= i < rules.len() && 0 <= j < 3 && 0 <= k < 3 implies (#[trigger] rules[i].owns@[j])@
        != (#[trigger] rules[i].does_not_own@[k])@ by {
        assert(rules[i].owns@ == seq![OWNERSHIP_TEXTS@[i].0, OWNERSHIP_TEXTS@[i].1, OWNERSHIP_TEXTS@[i].2]);
        assert(rules[i].does_not_own@ == seq![OWNERSHIP_TEXTS@[i].3, OWNERSHIP_TEXTS@[i].4, OWNERSHIP_TEXTS@[i].5]);
        if i == 0 && j == 0 && k == 0 {
            reveal_strlit("equation registry + normalization + validation");
            reveal_strlit("multi-step component orchestration");
            assert("equation registry + normalization + validation"@.len() != "multi-step component orchestration"@.len());
        } else if i == 0 && j == 0 && k == 1 {
            reveal_strlit("equation registry + normalization + validation");
            reveal_strlit("top-level graph execution engine");
            assert("equation registry + normalization + validation"@.len() != "top-level graph execution engine"@.len());
        } else if i == 0 && j == 0 && k == 2 {
            reveal_strlit("equation registry + normalization + validation");
            reveal_strlit("excel/python runtime implementations");
            assert("equation registry + normalization + validation"@.len() != "excel/python runtime implementations"@.len());
        } else if i == 0 && j == 1 && k == 0 {
            reveal_strlit("scalar solve behavior + diagnostics");
            reveal_strlit("multi-step component orchestration");
            assert("scalar solve behavior + diagnostics"@.len() != "multi-step component orchestration"@.len());
        } else if i == 0 && j == 1 && k == 1 {
            reveal_strlit("scalar solve behavior + diagnostics");
            reveal_strlit("top-level graph execution engine");
            assert("scalar solve behavior + diagnostics"@.len() != "top-level graph execution engine"@.len());
        } else if i == 0 && j == 1 && k == 2 {
            reveal_strlit("scalar solve behavior + diagnostics");
            reveal_strlit("excel/python runtime implementations");
            assert("scalar solve behavior + diagnostics"@.len() != "excel/python runtime implementations"@.len());
        } else if i == 0 && j == 2 && k == 0 {
            reveal_strlit("equation-level docs/examples/export fragments");
            reveal_strlit("multi-step component orchestration");
            assert("equation-level docs/examples/export fragments"@.len() != "multi-step component orchestration"@.len());
        } else if i == 0 && j == 2 && k == 1 {
            reveal_strlit("equation-level docs/examples/export fragments");
            reveal_strlit("top-level graph execution engine");
            assert("equation-level docs/examples/export fragments"@.len() != "top-level graph execution engine"@.len());
        } else if i == 0 && j == 2 && k == 2 {
            reveal_strlit("equation-level docs/examples/export fragments");
            reveal_strlit("excel/python runtime implementations");
            assert("equation-level docs/examples/export fragments"@.len() != "excel/python runtime implementations"@.len());
        } else if i == 1 && j == 0 && k == 0 {
            reveal_strlit("canonical law identity + variant metadata");
            reveal_strlit("component iterative strategies");
            assert("canonical law identity + variant metadata"@.len() != "component iterative strategies"@.len());
        } else if i == 1 && j == 0 && k == 1 {
            reveal_strlit("canonical law identity + variant metadata");
            reveal_strlit("graph scheduling");
            assert("canonical law identity + variant metadata"@.len() != "graph scheduling"@.len());
        } else if i == 1 && j == 0 && k == 2 {
            reveal_strlit("canonical law identity + variant metadata");
            reveal_strlit("external binding runtimes");
            assert("canonical law identity + variant metadata"@.len() != "external binding runtimes"@.len());
        } else if i == 1 && j == 1 && k == 0 {
            reveal_strlit("variant discovery/docs/search surfaces");
            reveal_strlit("component iterative strategies");
            assert("variant discovery/docs/search surfaces"@.len() != "component iterative strategies"@.len());
        } else if i == 1 && j == 1 && k == 1 {
            reveal_strlit("variant discovery/docs/search surfaces");
            reveal_strlit("graph scheduling");
            assert("variant discovery/docs/search surfaces"@.len() != "graph scheduling"@.len());
        } else if i == 1 && j == 1 && k == 2 {
            reveal_strlit("variant discovery/docs/search surfaces");
            reveal_strlit("external binding runtimes");
            assert("variant discovery/docs/search surfaces"@.len() != "external binding runtimes"@.len());
        } else if i == 1 && j == 2 && k == 0 {
            reveal_strlit("family-to-atomic mapping");
            reveal_strlit("component iterative strategies");
            assert("family-to-atomic mapping"@.len() != "component iterative strategies"@.len());
        } else if i == 1 && j == 2 && k == 1 {
            reveal_strlit("family-to-atomic mapping");
            reveal_strlit("graph scheduling");
            assert("family-to-atomic mapping"@.len() != "graph scheduling"@.len());
        } else if i == 1 && j == 2 && k == 2 {
            reveal_strlit("family-to-atomic mapping");
            reveal_strlit("external binding runtimes");
            assert("family-to-atomic mapping"@.len() != "external binding runtimes"@.len());
        } else if i == 2 && j == 0 && k == 0 {
            reveal_strlit("multi-equation orchestration");
            reveal_strlit("single-relation canonical equations");
            assert("multi-equation orchestration"@.len() != "single-relation canonical equations"@.len());
        } else if i == 2 && j == 0 && k == 1 {
            reveal_strlit("multi-equation orchestration");
            reveal_strlit("global graph scheduling");
            assert("multi-equation orchestration"@.len() != "global graph scheduling"@.len());
        } else if i == 2 && j == 0 && k == 2 {
            reveal_strlit("multi-equation orchestration");
            reveal_strlit("backend-native fluid/material implementations");
            assert("multi-equation orchestration"@.len() != "backend-native fluid/material implementations"@.len());
        } else if i == 2 && j == 1 && k == 0 {
            reveal_strlit("iteration policy and convergence strategy");
            reveal_strlit("single-relation canonical equations");
            assert("iteration policy and convergence strategy"@.len() != "single-relation canonical equations"@.len());
        } else if i == 2 && j == 1 && k == 1 {
            reveal_strlit("iteration policy and convergence strategy");
            reveal_strlit("global graph scheduling");
            assert("iteration policy and convergence strategy"@.len() != "global graph scheduling"@.len());
        } else if i == 2 && j == 1 && k == 2 {
            reveal_strlit("iteration policy and convergence strategy");
            reveal_strlit("backend-native fluid/material implementations");
            assert("iteration policy and convergence strategy"@.len() != "backend-native fluid/material implementations"@.len());
        } else if i == 2 && j == 2 && k == 0 {
            reveal_strlit("context-aware model IO surfaces");
            reveal_strlit("single-relation canonical equations");
            assert("context-aware model IO surfaces"@.len() != "single-relation canonical equations"@.len());
        } else if i == 2 && j == 2 && k == 1 {
            reveal_strlit("context-aware model IO surfaces");
            reveal_strlit("global graph scheduling");
            assert("context-aware model IO surfaces"@.len() != "global graph scheduling"@.len());
        } else if i == 2 && j == 2 && k == 2 {
            reveal_strlit("context-aware model IO surfaces");
            reveal_strlit("backend-native fluid/material implementations");
            assert("context-aware model IO surfaces"@.len() != "backend-native fluid/material implementations"@.len());
        } else if i == 3 && j == 0 && k == 0 {
            reveal_strlit("shared numeric solve wrappers (root/convergence reporting)");
            reveal_strlit("atomic equation definitions");
            assert("shared numeric solve wrappers (root/convergence reporting)"@.len() != "atomic equation definitions"@.len());
        } else if i == 3 && j == 0 && k == 1 {
            reveal_strlit("shared numeric solve wrappers (root/convergence reporting)");
            reveal_strlit("device-specific engineering semantics");
            assert("shared numeric solve wrappers (root/convergence reporting)"@.len() != "device-specific engineering semantics"@.len());
        } else if i == 3 && j == 0 && k == 2 {
            reveal_strlit("shared numeric solve wrappers (root/convergence reporting)");
            reveal_strlit("binding-generation policy");
            assert("shared numeric solve wrappers (root/convergence reporting)"@.len() != "binding-generation policy"@.len());
        } else if i == 3 && j == 1 && k == 0 {
            reveal_strlit("shared ODE integration interfaces for engineering models");
            reveal_strlit("atomic equation definitions");
            assert("shared ODE integration interfaces for engineering models"@.len() != "atomic equation definitions"@.len());
        } else if i == 3 && j == 1 && k == 1 {
            reveal_strlit("shared ODE integration interfaces for engineering models");
            reveal_strlit("device-specific engineering semantics");
            assert("shared ODE integration interfaces for engineering models"@.len() != "device-specific engineering semantics"@.len());
        } else if i == 3 && j == 1 && k == 2 {
            reveal_strlit("shared ODE integration interfaces for engineering models");
            reveal_strlit("binding-generation policy");
            assert("shared ODE integration interfaces for engineering models"@.len() != "binding-generation policy"@.len());
        } else if i == 3 && j == 2 && k == 0 {
            reveal_strlit("station/workflow chaining and provenance tracing");
            reveal_strlit("atomic equation definitions");
            assert("station/workflow chaining and provenance tracing"@.len() != "atomic equation definitions"@.len());
        } else if i == 3 && j == 2 && k == 1 {
            reveal_strlit("station/workflow chaining and provenance tracing");
            reveal_strlit("device-specific engineering semantics");
            assert("station/workflow chaining and provenance tracing"@.len() != "device-specific engineering semantics"@.len());
        } else if i == 3 && j == 2 && k == 2 {
            reveal_strlit("station/workflow chaining and provenance tracing");
            reveal_strlit("binding-generation policy");
            assert("station/workflow chaining and provenance tracing"@.len() != "binding-generation policy"@.len());
        } else if i == 4 && j == 0 && k == 0 {
            reveal_strlit("node/edge orchestration across equations/components");
            reveal_strlit("atomic equation definitions");
            assert("node/edge orchestration across equations/components"@.len() != "atomic equation definitions"@.len());
        } else if i == 4 && j == 0 && k == 1 {
            reveal_strlit("node/edge orchestration across equations/components");
            reveal_strlit("fluid/material property backends");
            assert("node/edge orchestration across equations/components"@.len() != "fluid/material property backends"@.len());
        } else if i == 4 && j == 0 && k == 2 {
            reveal_strlit("node/edge orchestration across equations/components");
            reveal_strlit("binding runtime logic");
            assert("node/edge orchestration across equations/components"@.len() != "binding runtime logic"@.len());
        } else if i == 4 && j == 1 && k == 0 {
            reveal_strlit("dependency ordering and graph solve execution");
            reveal_strlit("atomic equation definitions");
            assert("dependency ordering and graph solve execution"@.len() != "atomic equation definitions"@.len());
        } else if i == 4 && j == 1 && k == 1 {
            reveal_strlit("dependency ordering and graph solve execution");
            reveal_strlit("fluid/material property backends");
            assert("dependency ordering and graph solve execution"@.len() != "fluid/material property backends"@.len());
        } else if i == 4 && j == 1 && k == 2 {
            reveal_strlit("dependency ordering and graph solve execution");
            reveal_strlit("binding runtime logic");
            assert("dependency ordering and graph solve execution"@.len() != "binding runtime logic"@.len());
        } else if i == 4 && j == 2 && k == 0 {
            reveal_strlit("cross-domain chained workflows");
            reveal_strlit("atomic equation definitions");
            assert("cross-domain chained workflows"@.len() != "atomic equation definitions"@.len());
        } else if i == 4 && j == 2 && k == 1 {
            reveal_strlit("cross-domain chained workflows");
            reveal_strlit("fluid/material property backends");
            assert("cross-domain chained workflows"@.len() != "fluid/material property backends"@.len());
        } else if i == 4 && j == 2 && k == 2 {
            reveal_strlit("cross-domain chained workflows");
            reveal_strlit("binding runtime logic");
            assert("cross-domain chained workflows"@.len() != "binding runtime logic"@.len());
        } else if i == 5 && j == 0 && k == 0 {
            reveal_strlit("python/excel surface generation spec");
            reveal_strlit("core numeric implementations");
            assert("python/excel surface generation spec"@.len() != "core numeric implementations"@.len());
        } else if i == 5 && j == 0 && k == 1 {
            reveal_strlit("python/excel surface generation spec");
            reveal_strlit("domain registry truth");
            assert("python/excel surface generation spec"@.len() != "domain registry truth"@.len());
        } else if i == 5 && j == 0 && k == 2 {
            reveal_strlit("python/excel surface generation spec");
            reveal_strlit("independent duplicate logic");
            assert("python/excel surface generation spec"@.len() != "independent duplicate logic"@.len());
        } else if i == 5 && j == 1 && k == 0 {
            reveal_strlit("binding package metadata + naming rules");
            reveal_strlit("core numeric implementations");
            assert("binding package metadata + naming rules"@.len() != "core numeric implementations"@.len());
        } else if i == 5 && j == 1 && k == 1 {
            reveal_strlit("binding package metadata + naming rules");
            reveal_strlit("domain registry truth");
            assert("binding package metadata + naming rules"@.len() != "domain registry truth"@.len());
        } else if i == 5 && j == 1 && k == 2 {
            reveal_strlit("binding package metadata + naming rules");
            reveal_strlit("independent duplicate logic");
            assert("binding package metadata + naming rules"@.len() != "independent duplicate logic"@.len());
        } else if i == 5 && j == 2 && k == 0 {
            reveal_strlit("catalog-driven API exposure policy");
            reveal_strlit("core numeric implementations");
            assert("catalog-driven API exposure policy"@.len() != "core numeric implementations"@.len());
        } else if i == 5 && j == 2 && k == 1 {
            reveal_strlit("catalog-driven API exposure policy");
            reveal_strlit("domain registry truth");
            assert("catalog-driven API exposure policy"@.len() != "domain registry truth"@.len());
        } else if i == 5 && j == 2 && k == 2 {
            reveal_strlit("catalog-driven API exposure policy");
            reveal_strlit("independent duplicate logic");
            assert("catalog-driven API exposure policy"@.len() != "independent duplicate logic"@.len());
        }
    }
}

/// Nothing both belongs and does not belong in the same layer.
pub proof fn boundary_sides_disjoint(rules: Seq<LayerBoundaryRule>)
    requires
        boundary_rules_exact(rules),
    ensures
        forall|i: int, j: int, k: int| 0 <= i < rules.len() && 0 <= j < 3 && 0 <= k < 3 ==> (#[trigger] rules[i].belongs_here@[j])@
            != (#[trigger] rules[i].does_not_belong_here@[k])@,
{
    assert(boundary_layers(rules).len() == rules.len());
    assert(rules.len() == 6);
    assert forall|i: int, j: int, k: int| 0 <= i < rules.len() && 0 <= j < 3 && 0 <= k < 3 implies (#[trigger] rules[i].belongs_here@[j])@
        != (#[trigger] rules[i].does_not_belong_here@[k])@ by {
        assert(rules[i].belongs_here@ == seq![BOUNDARY_TEXTS@[i].0, BOUNDARY_TEXTS@[i].1, BOUNDARY_TEXTS@[i].2]);
        assert(rules[i].does_not_belong_here@ == seq![BOUNDARY_TEXTS@[i].3, BOUNDARY_TEXTS@[i].4, BOUNDARY_TEXTS@[i].5]);
        if i == 0 && j == 0 && k == 0 {
            reveal_strlit("single physical law with scalar variables");
            reveal_strlit("workflow orchestration spanning many laws");
            assert("single physical law with scalar variables"@[0] != "workflow orchestration spanning many laws"@[0]);
        } else if i == 0 && j == 0 && k == 1 {
            reveal_strlit("single physical law with scalar variables");
            reveal_strlit("component-level iteration/control loops");
            assert("single physical law with scalar variables"@.len() != "component-level iteration/control loops"@.len());
        } else if i == 0 && j == 0 && k == 2 {
            reveal_strlit("single physical law with scalar variables");
            reveal_strlit("cross-step graph sequencing");
            assert("single physical law with scalar variables"@.len() != "cross-step graph sequencing"@.len());
        } else if i == 0 && j == 1 && k == 0 {
            reveal_strlit("explicit and/or numerical solve paths for that one law");
            reveal_strlit("workflow orchestration spanning many laws");
            assert("explicit and/or numerical solve paths for that one law"@.len() != "workflow orchestration spanning many laws"@.len());
        } else if i == 0 && j == 1 && k == 1 {
            reveal_strlit("explicit and/or numerical solve paths for that one law");
            reveal_strlit("component-level iteration/control loops");
            assert("explicit and/or numerical solve paths for that one law"@.len() != "component-level iteration/control loops"@.len());
        } else if i == 0 && j == 1 && k == 2 {
            reveal_strlit("explicit and/or numerical solve paths for that one law");
            reveal_strlit("cross-step graph sequencing");
            assert("explicit and/or numerical solve paths for that one law"@.len() != "cross-step graph sequencing"@.len());
        } else if i == 0 && j == 2 && k == 0 {
            reveal_strlit("baseline full-state test cases");
            reveal_strlit("workflow orchestration spanning many laws");
            assert("baseline full-state test cases"@.len() != "workflow orchestration spanning many laws"@.len());
        } else if i == 0 && j == 2 && k == 1 {
            reveal_strlit("baseline full-state test cases");
            reveal_strlit("component-level iteration/control loops");
            assert("baseline full-state test cases"@.len() != "component-level iteration/control loops"@.len());
        } else if i == 0 && j == 2 && k == 2 {
            reveal_strlit("baseline full-state test cases");
            reveal_strlit("cross-step graph sequencing");
            assert("baseline full-state test cases"@.len() != "cross-step graph sequencing"@.len());
        } else if i == 1 && j == 0 && k == 0 {
            reveal_strlit("multiple common views of one canonical law");
            reveal_strlit("duplicate full atomic equations for each algebraic view");
            assert("multiple common views of one canonical law"@.len() != "duplicate full atomic equations for each algebraic view"@.len());
        } else if i == 1 && j == 0 && k == 1 {
            reveal_strlit("multiple common views of one canonical law");
            reveal_strlit("component orchestration logic");
            assert("multiple common views of one canonical law"@.len() != "component orchestration logic"@.len());
        } else if i == 1 && j == 0 && k == 2 {
            reveal_strlit("multiple common views of one canonical law");
            reveal_strlit("graph node scheduling");
            assert("multiple common views of one canonical law"@.len() != "graph node scheduling"@.len());
        } else if i == 1 && j == 1 && k == 0 {
            reveal_strlit("variant docs/search aliases");
            reveal_strlit("duplicate full atomic equations for each algebraic view");
            assert("variant docs/search aliases"@.len() != "duplicate full atomic equations for each algebraic view"@.len());
        } else if i == 1 && j == 1 && k == 1 {
            reveal_strlit("variant docs/search aliases");
            reveal_strlit("component orchestration logic");
            assert("variant docs/search aliases"@.len() != "component orchestration logic"@.len());
        } else if i == 1 && j == 1 && k == 2 {
            reveal_strlit("variant docs/search aliases");
            reveal_strlit("graph node scheduling");
            assert("variant docs/search aliases"@.len() != "graph node scheduling"@.len());
        } else if i == 1 && j == 2 && k == 0 {
            reveal_strlit("shared assumptions across forms");
            reveal_strlit("duplicate full atomic equations for each algebraic view");
            assert("shared assumptions across forms"@.len() != "duplicate full atomic equations for each algebraic view"@.len());
        } else if i == 1 && j == 2 && k == 1 {
            reveal_strlit("shared assumptions across forms");
            reveal_strlit("component orchestration logic");
            assert("shared assumptions across forms"@.len() != "component orchestration logic"@.len());
        } else if i == 1 && j == 2 && k == 2 {
            reveal_strlit("shared assumptions across forms");
            reveal_strlit("graph node scheduling");
            assert("shared assumptions across forms"@.len() != "graph node scheduling"@.len());
        } else if i == 2 && j == 0 && k == 0 {
            reveal_strlit("multi-equation iterative model behavior");
            reveal_strlit("new atomic law definitions");
            assert("multi-equation iterative model behavior"@.len() != "new atomic law definitions"@.len());
        } else if i == 2 && j == 0 && k == 1 {
            reveal_strlit("multi-equation iterative model behavior");
            reveal_strlit("general graph planner");
            assert("multi-equation iterative model behavior"@.len() != "general graph planner"@.len());
        } else if i == 2 && j == 0 && k == 2 {
            reveal_strlit("multi-equation iterative model behavior");
            reveal_strlit("binding-generation policy");
            assert("multi-equation iterative model behavior"@.len() != "binding-generation policy"@.len());
        } else if i == 2 && j == 1 && k == 0 {
            reveal_strlit("high-level engineering input/output interfaces");
            reveal_strlit("new atomic law definitions");
            assert("high-level engineering input/output interfaces"@.len() != "new atomic law definitions"@.len());
        } else if i == 2 && j == 1 && k == 1 {
            reveal_strlit("high-level engineering input/output interfaces");
            reveal_strlit("general graph planner");
            assert("high-level engineering input/output interfaces"@.len() != "general graph planner"@.len());
        } else if i == 2 && j == 1 && k == 2 {
            reveal_strlit("high-level engineering input/output interfaces");
            reveal_strlit("binding-generation policy");
            assert("high-level engineering input/output interfaces"@.len() != "binding-generation policy"@.len());
        } else if i == 2 && j == 2 && k == 0 {
            reveal_strlit("context resolution across fluid/material states");
            reveal_strlit("new atomic law definitions");
            assert("context resolution across fluid/material states"@.len() != "new atomic law definitions"@.len());
        } else if i == 2 && j == 2 && k == 1 {
            reveal_strlit("context resolution across fluid/material states");
            reveal_strlit("general graph planner");
            assert("context resolution across fluid/material states"@.len() != "general graph planner"@.len());
        } else if i == 2 && j == 2 && k == 2 {
            reveal_strlit("context resolution across fluid/material states");
            reveal_strlit("binding-generation policy");
            assert("context resolution across fluid/material states"@.len() != "binding-generation policy"@.len());
        } else if i == 3 && j == 0 && k == 0 {
            reveal_strlit("reusable root/ODE numeric utilities with convergence metadata");
            reveal_strlit("new equation physics definitions");
            assert("reusable root/ODE numeric utilities with convergence metadata"@.len() != "new equation physics definitions"@.len());
        } else if i == 3 && j == 0 && k == 1 {
            reveal_strlit("reusable root/ODE numeric utilities with convergence metadata");
            reveal_strlit("device-specific binding naming decisions");
            assert("reusable root/ODE numeric utilities with convergence metadata"@.len() != "device-specific binding naming decisions"@.len());
        } else if i == 3 && j == 0 && k == 2 {
            reveal_strlit("reusable root/ODE numeric utilities with convergence metadata");
            reveal_strlit("full arbitrary graph optimization/planning");
            assert("reusable root/ODE numeric utilities with convergence metadata"@.len() != "full arbitrary graph optimization/planning"@.len());
        } else if i == 3 && j == 1 && k == 0 {
            reveal_strlit("ordered step/station workflow execution scaffolding");
            reveal_strlit("new equation physics definitions");
            assert("ordered step/station workflow execution scaffolding"@.len() != "new equation physics definitions"@.len());
        } else if i == 3 && j == 1 && k == 1 {
            reveal_strlit("ordered step/station workflow execution scaffolding");
            reveal_strlit("device-specific binding naming decisions");
            assert("ordered step/station workflow execution scaffolding"@.len() != "device-specific binding naming decisions"@.len());
        } else if i == 3 && j == 1 && k == 2 {
            reveal_strlit("ordered step/station workflow execution scaffolding");
            reveal_strlit("full arbitrary graph optimization/planning");
            assert("ordered step/station workflow execution scaffolding"@.len() != "full arbitrary graph optimization/planning"@.len());
        } else if i == 3 && j == 2 && k == 0 {
            reveal_strlit("cross-step provenance, warnings, and structured failure propagation");
            reveal_strlit("new equation physics definitions");
            assert("cross-step provenance, warnings, and structured failure propagation"@.len() != "new equation physics definitions"@.len());
        } else if i == 3 && j == 2 && k == 1 {
            reveal_strlit("cross-step provenance, warnings, and structured failure propagation");
            reveal_strlit("device-specific binding naming decisions");
            assert("cross-step provenance, warnings, and structured failure propagation"@.len() != "device-specific binding naming decisions"@.len());
        } else if i == 3 && j == 2 && k == 2 {
            reveal_strlit("cross-step provenance, warnings, and structured failure propagation");
            reveal_strlit("full arbitrary graph optimization/planning");
            assert("cross-step provenance, warnings, and structured failure propagation"@.len() != "full arbitrary graph optimization/planning"@.len());
        } else if i == 4 && j == 0 && k == 0 {
            reveal_strlit("equation/component/property/constant node chaining");
            reveal_strlit("atomic equation authoring");
            assert("equation/component/property/constant node chaining"@.len() != "atomic equation authoring"@.len());
        } else if i == 4 && j == 0 && k == 1 {
            reveal_strlit("equation/component/property/constant node chaining");
            reveal_strlit("component-specific constitutive details");
            assert("equation/component/property/constant node chaining"@.len() != "component-specific constitutive details"@.len());
        } else if i == 4 && j == 0 && k == 2 {
            reveal_strlit("equation/component/property/constant node chaining");
            reveal_strlit("domain backend implementations");
            assert("equation/component/property/constant node chaining"@.len() != "domain backend implementations"@.len());
        } else if i == 4 && j == 1 && k == 0 {
            reveal_strlit("edge-based dataflow + dependency execution");
            reveal_strlit("atomic equation authoring");
            assert("edge-based dataflow + dependency execution"@.len() != "atomic equation authoring"@.len());
        } else if i == 4 && j == 1 && k == 1 {
            reveal_strlit("edge-based dataflow + dependency execution");
            reveal_strlit("component-specific constitutive details");
            assert("edge-based dataflow + dependency execution"@.len() != "component-specific constitutive details"@.len());
        } else if i == 4 && j == 1 && k == 2 {
            reveal_strlit("edge-based dataflow + dependency execution");
            reveal_strlit("domain backend implementations");
            assert("edge-based dataflow + dependency execution"@.len() != "domain backend implementations"@.len());
        } else if i == 4 && j == 2 && k == 0 {
            reveal_strlit("multi-node workflow diagnostics");
            reveal_strlit("atomic equation authoring");
            assert("multi-node workflow diagnostics"@.len() != "atomic equation authoring"@.len());
        } else if i == 4 && j == 2 && k == 1 {
            reveal_strlit("multi-node workflow diagnostics");
            reveal_strlit("component-specific constitutive details");
            assert("multi-node workflow diagnostics"@.len() != "component-specific constitutive details"@.len());
        } else if i == 4 && j == 2 && k == 2 {
            reveal_strlit("multi-node workflow diagnostics");
            reveal_strlit("domain backend implementations");
            assert("multi-node workflow diagnostics"@.len() != "domain backend implementations"@.len());
        } else if i == 5 && j == 0 && k == 0 {
            reveal_strlit("generated thin wrappers for rust-owned behavior");
            reveal_strlit("business logic reimplementation");
            assert("generated thin wrappers for rust-owned behavior"@.len() != "business logic reimplementation"@.len());
        } else if i == 5 && j == 0 && k == 1 {
            reveal_strlit("generated thin wrappers for rust-owned behavior");
            reveal_strlit("separate unit engine");
            assert("generated thin wrappers for rust-owned behavior"@.len() != "separate unit engine"@.len());
        } else if i == 5 && j == 0 && k == 2 {
            reveal_strlit("generated thin wrappers for rust-owned behavior");
            reveal_strlit("untracked API behavior divergence");
            assert("generated thin wrappers for rust-owned behavior"@.len() != "untracked API behavior divergence"@.len());
        } else if i == 5 && j == 1 && k == 0 {
            reveal_strlit("stable naming/signature projection");
            reveal_strlit("business logic reimplementation");
            assert("stable naming/signature projection"@.len() != "business logic reimplementation"@.len());
        } else if i == 5 && j == 1 && k == 1 {
            reveal_strlit("stable naming/signature projection");
            reveal_strlit("separate unit engine");
            assert("stable naming/signature projection"@.len() != "separate unit engine"@.len());
        } else if i == 5 && j == 1 && k == 2 {
            reveal_strlit("stable naming/signature projection");
            reveal_strlit("untracked API behavior divergence");
            assert("stable naming/signature projection"@.len() != "untracked API behavior divergence"@.len());
        } else if i == 5 && j == 2 && k == 0 {
            reveal_strlit("binding docs/examples from unified catalog");
            reveal_strlit("business logic reimplementation");
            assert("binding docs/examples from unified catalog"@.len() != "business logic reimplementation"@.len());
        } else if i == 5 && j == 2 && k == 1 {
            reveal_strlit("binding docs/examples from unified catalog");
            reveal_strlit("separate unit engine");
            assert("binding docs/examples from unified catalog"@.len() != "separate unit engine"@.len());
        } else if i == 5 && j == 2 && k == 2 {
            reveal_strlit("binding docs/examples from unified catalog");
            reveal_strlit("untracked API behavior divergence");
            assert("binding docs/examples from unified catalog"@.len() != "untracked API behavior divergence"@.len());
        }
    }
}

/// The ideal-gas family exactly: its key, name, law and equation, and its two
/// variants with their names, targets and uses.
pub open spec fn family_prototype_exact(f: EquationFamilyPrototype) -> bool {
    &&& f.key == "ideal_gas"
    &&& f.name == "Ideal Gas Law Family"
    &&& f.canonical_relation == "P * V = m * R * T"
    &&& f.canonical_equation_path == "thermo.ideal_gas"
    &&& f.variants@.len() == 2
    &&& f.variants@[0].key == "pv_equals_mrt"
    &&& f.variants@[0].display_name == "Pressure-Volume Form"
    &&& f.variants@[0].target == "P"
    &&& f.variants@[0].intended_usage == "closed-control-volume mass/temperature/volume calculations"
    &&& f.variants@[1].key == "p_equals_rho_rt"
    &&& f.variants@[1].display_name == "Density Form"
    &&& f.variants@[1].target == "P"
    &&& f.variants@[1].intended_usage == "flow-property form using density instead of total volume/mass"
}

/// The ideal-gas family: the law `P * V = m * R * T` in its volume and density
/// forms, both solved for pressure.
pub fn ideal_gas_family_prototype() -> (f: EquationFamilyPrototype)
    ensures
        family_prototype_exact(f),
{
    EquationFamilyPrototype {
        key: "ideal_gas",
        name: "Ideal Gas Law Family",
        canonical_relation: "P * V = m * R * T",
        canonical_equation_path: "thermo.ideal_gas",
        variants: vec![
            FamilyVariantPrototype {
                key: "pv_equals_mrt",
                display_name: "Pressure-Volume Form",
                target: "P",
                intended_usage: "closed-control-volume mass/temperature/volume calculations",
            },
            FamilyVariantPrototype {
                key: "p_equals_rho_rt",
                display_name: "Density Form",
                target: "P",
                intended_usage: "flow-property form using density instead of total volume/mass",
            },
        ],
    }
}

/// The two-orifice splitter exactly: key, name, contexts, equations and notes.
pub open spec fn component_prototype_exact(c: ComponentModelPrototype) -> bool {
    &&& c.key == "two_orifice"
    &&& c.name == "Two-Orifice Pressure Splitter (Prototype)"
    &&& c.required_contexts@ == seq!["fluid"]
    &&& c.equation_dependencies@ == seq!["fluids.orifice_mass_flow_incompressible", "fluids.continuity_mass_flow"]
    &&& c.notes@ == seq!["component owns iterative pressure split; equations stay atomic", "inputs/outputs are engineering-level (inlet pressure, outlet pressures, total flow)", "designed as a future component-layer package target"]
}

/// The two-orifice pressure splitter: needs a fluid context and uses the orifice
/// and continuity equations.
pub fn two_orifice_component_prototype() -> (c: ComponentModelPrototype)
    ensures
        component_prototype_exact(c),
{
    let c = ComponentModelPrototype {
        key: "two_orifice",
        name: "Two-Orifice Pressure Splitter (Prototype)",
        required_contexts: vec!["fluid"],
        equation_dependencies: vec![
            "fluids.orifice_mass_flow_incompressible",
            "fluids.continuity_mass_flow",
        ],
        notes: vec![
            "component owns iterative pressure split; equations stay atomic",
            "inputs/outputs are engineering-level (inlet pressure, outlet pressures, total flow)",
            "designed as a future component-layer package target",
        ],
    };
    assert(c.required_contexts@ =~= seq!["fluid"]);
    assert(c.equation_dependencies@ =~= seq!["fluids.orifice_mass_flow_incompressible", "fluids.continuity_mass_flow"]);
    assert(c.notes@ =~= seq!["component owns iterative pressure split; equations stay atomic", "inputs/outputs are engineering-level (inlet pressure, outlet pressures, total flow)", "designed as a future component-layer package target"]);
    c
}

/// The solve-graph node kinds, in order.
pub open spec fn graph_node_kinds() -> Seq<Seq<char>> {
    seq![
        "atomic_equation"@,
        "equation_family_variant"@,
        "component_model"@,
        "fluid_property_source"@,
        "material_property_source"@,
        "constant_source"@,
    ]
}

/// The solve graph exactly: its node kinds, edge rules and notes.
pub open spec fn graph_prototype_exact(g: SolveGraphPrototype) -> bool {
    &&& g.node_kinds@ == seq!["atomic_equation", "equation_family_variant", "component_model", "fluid_property_source", "material_property_source", "constant_source"]
    &&& g.edge_semantics@ == seq!["edge carries resolved scalar value (SI canonical)", "target ports consume upstream node outputs", "graph solve performs dependency order + cycle diagnostics"]
    &&& g.notes@ == seq!["graph layer composes equations/components but does not redefine their internals", "cycles require explicit policy (fixed-point/newton) and remain out-of-scope for this pass"]
}

/// The solve graph: six node kinds, three edge rules, two notes.
pub fn solve_graph_prototype() -> (g: SolveGraphPrototype)
    ensures
        g.node_kinds@.map_values(|s: &str| s@) == graph_node_kinds(),
        graph_prototype_exact(g),
{
    let g = SolveGraphPrototype {
        node_kinds: vec![
            "atomic_equation",
            "equation_family_variant",
            "component_model",
            "fluid_property_source",
            "material_property_source",
            "constant_source",
        ],
        edge_semantics: vec![
            "edge carries resolved scalar value (SI canonical)",
            "target ports consume upstream node outputs",
            "graph solve performs dependency order + cycle diagnostics",
        ],
        notes: vec![
            "graph layer composes equations/components but does not redefine their internals",
            "cycles require explicit policy (fixed-point/newton) and remain out-of-scope for this pass",
        ],
    };
    assert(g.node_kinds@ =~= seq!["atomic_equation", "equation_family_variant", "component_model", "fluid_property_source", "material_property_source", "constant_source"]);
    assert(g.edge_semantics@ =~= seq!["edge carries resolved scalar value (SI canonical)", "target ports consume upstream node outputs", "graph solve performs dependency order + cycle diagnostics"]);
    assert(g.notes@ =~= seq!["graph layer composes equations/components but does not redefine their internals", "cycles require explicit policy (fixed-point/newton) and remain out-of-scope for this pass"]);
    assert(g.node_kinds@.map_values(|s: &str| s@) =~= graph_node_kinds());
    g
}

/// The binding plan exactly: targets, runtime, sources, naming rules and notes.
pub open spec fn binding_plan_exact(p: BindingPlan) -> bool {
    &&& p.targets@ == seq!["python", "excel"]
    &&& p.authoritative_runtime == "rust (eng + domain crates)"
    &&& p.generated_from@ == seq!["unified catalog.json", "equation pages/examples metadata", "family/component binding manifest entries"]
    &&& p.naming_rules@ == seq!["python: snake_case modules/functions", "excel: SCREAMING_SNAKE_CASE function names + simple scalar signatures", "bindings expose plain-SI and unit-string convenience overloads"]
    &&& p.notes@ == seq!["bindings are thin adapters; no duplicated solver/unit logic", "docs/examples in bindings are generated from unified handbook metadata"]
}

/// Bindings target python and excel, with rust as the one runtime.
pub fn external_binding_plan() -> (p: BindingPlan)
    ensures
        binding_plan_exact(p),
{
    let p = BindingPlan {
        targets: vec!["python", "excel"],
        authoritative_runtime: "rust (eng + domain crates)",
        generated_from: vec![
            "unified catalog.json",
            "equation pages/examples metadata",
            "family/component binding manifest entries",
        ],
        naming_rules: vec![
            "python: snake_case modules/functions",
            "excel: SCREAMING_SNAKE_CASE function names + simple scalar signatures",
            "bindings expose plain-SI and unit-string convenience overloads",
        ],
        notes: vec![
            "bindings are thin adapters; no duplicated solver/unit logic",
            "docs/examples in bindings are generated from unified handbook metadata",
        ],
    };
    assert(p.targets@ =~= seq!["python", "excel"]);
    assert(p.generated_from@ =~= seq!["unified catalog.json", "equation pages/examples metadata", "family/component binding manifest entries"]);
    assert(p.naming_rules@ =~= seq!["python: snake_case modules/functions", "excel: SCREAMING_SNAKE_CASE function names + simple scalar signatures", "bindings expose plain-SI and unit-string convenience overloads"]);
    assert(p.notes@ =~= seq!["bindings are thin adapters; no duplicated solver/unit logic", "docs/examples in bindings are generated from unified handbook metadata"]);
    p
}

/// The catalog plan exactly: its new sections and required link kinds.
pub open spec fn catalog_plan_exact(p: CatalogEvolutionPlan) -> bool {
    &&& p.new_sections@ == seq!["equation_families", "components", "binding_surfaces"]
    &&& p.required_links@ == seq!["family_variant_maps_to_equation", "component_uses_equation", "component_requires_context", "binding_exposes_entity"]
}

/// The catalog gains three sections and four link kinds.
pub fn catalog_evolution_plan() -> (p: CatalogEvolutionPlan)
    ensures
        catalog_plan_exact(p),
{
    let p = CatalogEvolutionPlan {
        new_sections: vec!["equation_families", "components", "binding_surfaces"],
        required_links: vec![
            "family_variant_maps_to_equation",
            "component_uses_equation",
            "component_requires_context",
            "binding_exposes_entity",
        ],
    };
    assert(p.new_sections@ =~= seq!["equation_families", "components", "binding_surfaces"]);
    assert(p.required_links@ =~= seq!["family_variant_maps_to_equation", "component_uses_equation", "component_requires_context", "binding_exposes_entity"]);
    p
}

/// The whole description exactly as its parts give it.
pub open spec fn architecture_spec_exact(spec: ArchitectureSpec) -> bool {
    &&& ownership_rules_exact(spec.ownership@)
    &&& boundary_rules_exact(spec.boundaries@)
    &&& family_prototype_exact(spec.family_prototype)
    &&& component_prototype_exact(spec.component_prototype)
    &&& graph_prototype_exact(spec.graph_prototype)
    &&& binding_plan_exact(spec.binding_plan)
    &&& catalog_plan_exact(spec.catalog_plan)
}

/// The whole description, assembled from the tables and prototypes above.
pub fn architecture_spec() -> (spec: ArchitectureSpec)
    ensures
        architecture_spec_exact(spec),
        covers_each_layer_once(ownership_layers(spec.ownership@)),
        covers_each_layer_once(boundary_layers(spec.boundaries@)),
{
    ArchitectureSpec {
        ownership: ownership_rules(),
        boundaries: boundary_rules(),
        family_prototype: ideal_gas_family_prototype(),
        component_prototype: two_orifice_component_prototype(),
        graph_prototype: solve_graph_prototype(),
        binding_plan: external_binding_plan(),
        catalog_plan: catalog_evolution_plan(),
    }
}

} // verus!
