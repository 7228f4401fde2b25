//! The handbook's home page and its pages and indexes of constants, materials,
//! fluids and devices.
use vstd::prelude::*;
use crate::devices::DeviceDocsEntry;
use crate::docs::book_index::{code_list_cell, render_code_list_cell, BookEntry};
use crate::docs::naming::{snake_case, snake_case_of};
use crate::docs::pages::{
    render_binding_examples_for_fluid, render_binding_examples_for_material, DocSnippets, FLUID_BINDING_EXAMPLES,
    MATERIAL_BINDING_EXAMPLES,
};
use crate::strings::{concat_seq, decimal_text, join_seq, join_strings, push_str, usize_text, views};
use crate::text::{str_eq, trim_seq, trim_str};

verus! {

// ---------------------------------------------------------------------------
// Home
// ---------------------------------------------------------------------------

/// The home page up to the library's size.
pub const HOME_HEAD: &'static str = "# Engineering Handbook\n\nDocs are the primary user interface for this library. Every core workflow example shown here is backed by compile-checked and/or executed test coverage.\n\n## Start Here\n\n- [Getting Started](getting_started/index.md)\n- [Input Styles](input_styles/index.md)\n- [Units & Quantities](units_quantities/index.md)\n- [Examples & Workflows](workflows/index.md)\n\n- [Engineering Solve Layer](solve/index.md)\n\n- [Studies and Parameter Sweeps](studies/index.md)\n\n- [Bindings (Python/Excel)](bindings/index.md)\n\n## Domain Guides\n\n- [Equations Guide](equations/guide.md)\n- [Devices Guide](devices/guide.md)\n- [Fluids Guide](fluids/guide.md)\n- [Materials Guide](materials/guide.md)\n- [Constants](constants/index.md)\n- [YAML Authoring](yaml_authoring/index.md)\n- [Validation / Trust](validation_trust/index.md)\n- [Architecture Overview](architecture/index.md)\n\n## Catalog\n\n- [Equations](equations/index.md)\n- [Equation Families](equations/families/index.md)\n- [Devices](devices/index.md)\n- [Fluids](fluids/index.md)\n- [Materials](materials/index.md)\n";

/// The home page: the chapters, then how many equations, constants, devices,
/// fluids and materials the handbook documents.
pub open spec fn home_text(equations: nat, constants: nat, devices: nat, fluids: nat, materials: nat) -> Seq<char> {
    HOME_HEAD@ + "\n**Library size:** "@ + decimal_text(equations) + " equations, "@ + decimal_text(constants)
        + " constants, "@ + decimal_text(devices) + " devices, "@ + decimal_text(fluids) + " fluids, "@
        + decimal_text(materials) + " materials.\n"@
}

/// Renders the home page.
pub fn render_home(equations: usize, constants: usize, devices: usize, fluids: usize, materials: usize) -> (res: String)
    ensures
        res@ == home_text(equations as nat, constants as nat, devices as nat, fluids as nat, materials as nat),
{
    let mut md = String::from_str(HOME_HEAD);
    push_str(&mut md, "\n**Library size:** ");
    push_str(&mut md, usize_text(equations).as_str());
    push_str(&mut md, " equations, ");
    push_str(&mut md, usize_text(constants).as_str());
    push_str(&mut md, " constants, ");
    push_str(&mut md, usize_text(devices).as_str());
    push_str(&mut md, " devices, ");
    push_str(&mut md, usize_text(fluids).as_str());
    push_str(&mut md, " fluids, ");
    push_str(&mut md, usize_text(materials).as_str());
    push_str(&mut md, " materials.\n");
    md
}

// ---------------------------------------------------------------------------
// Constants
// ---------------------------------------------------------------------------

/// What a constant's page shows; the value as it is written out.
#[derive(Debug, Clone)]
pub struct ConstantPage {
    pub key: String,
    pub name: String,
    pub symbol_latex: String,
    pub symbol_unicode: String,
    pub value_text: String,
    pub unit: String,
    pub source: String,
    pub note: String,
}

pub open spec fn constant_page_text(c: ConstantPage) -> Seq<char> {
    "# "@ + c.name@ + "\n\n- Key: `"@ + c.key@ + "`\n- Symbol: \\("@ + c.symbol_latex@ + "\\)\n- Value: `"@
        + c.value_text@ + "` `"@ + c.unit@ + "`\n- Source: "@ + c.source@ + "\n\n"@ + c.note@ + "\n"@
}

/// Renders a constant's page.
pub fn render_constant_page(c: &ConstantPage) -> (res: String)
    ensures
        res@ == constant_page_text(*c),
{
    let mut md = String::from_str("# ");
    push_str(&mut md, c.name.as_str());
    push_str(&mut md, "\n\n- Key: `");
    push_str(&mut md, c.key.as_str());
    push_str(&mut md, "`\n- Symbol: \\(");
    push_str(&mut md, c.symbol_latex.as_str());
    push_str(&mut md, "\\)\n- Value: `");
    push_str(&mut md, c.value_text.as_str());
    push_str(&mut md, "` `");
    push_str(&mut md, c.unit.as_str());
    push_str(&mut md, "`\n- Source: ");
    push_str(&mut md, c.source.as_str());
    push_str(&mut md, "\n\n");
    push_str(&mut md, c.note.as_str());
    push_str(&mut md, "\n");
    md
}

pub open spec fn constant_index_line(c: ConstantPage) -> Seq<char> {
    "- ["@ + c.name@ + "](./"@ + c.key@ + ".md): `"@ + c.symbol_unicode@ + "`\n"@
}

/// The constants index: one line per constant, with its symbol.
pub open spec fn constants_index_text(cs: Seq<ConstantPage>) -> Seq<char> {
    "# Constants\n\n"@ + concat_seq(cs.map_values(|c: ConstantPage| constant_index_line(c)))
}

/// Renders the constants index.
pub fn render_constants_index(cs: &Vec<ConstantPage>) -> (res: String)
    ensures
        res@ == constants_index_text(cs@),
{
    let mut md = String::from_str("# Constants\n\n");
    let ghost head = md@;
    let mut i: usize = 0;
    while i < cs.len()
        invariant
            i <= cs@.len(),
            head == "# Constants\n\n"@,
            md@ == head + concat_seq(cs@.subrange(0, i as int).map_values(|c: ConstantPage| constant_index_line(c))),
        decreases cs.len() - i,
    {
        push_str(&mut md, "- [");
        push_str(&mut md, cs[i].name.as_str());
        push_str(&mut md, "](./");
        push_str(&mut md, cs[i].key.as_str());
        push_str(&mut md, ".md): `");
        push_str(&mut md, cs[i].symbol_unicode.as_str());
        push_str(&mut md, "`\n");
        proof {
            let t = cs@.subrange(0, i + 1).map_values(|c: ConstantPage| constant_index_line(c));
            assert(t.drop_last() =~= cs@.subrange(0, i as int).map_values(|c: ConstantPage| constant_index_line(c)));
        }
        i = i + 1;
    }
    assert(cs@.subrange(0, cs@.len() as int) =~= cs@);
    md
}

// ---------------------------------------------------------------------------
// Materials
// ---------------------------------------------------------------------------

/// What a material's page shows.
#[derive(Debug, Clone)]
pub struct MaterialPage {
    pub key: String,
    pub name: String,
    pub aliases: Vec<String>,
    pub source: String,
    pub properties: Vec<String>,
    pub description: String,
}

/// The aliases, comma separated, or `none`.
pub open spec fn aliases_text(aliases: Seq<String>) -> Seq<char> {
    if aliases.len() == 0 {
        "none"@
    } else {
        join_seq(views(aliases), ", "@)
    }
}

fn render_aliases_text(aliases: &Vec<String>) -> (res: String)
    ensures
        res@ == aliases_text(aliases@),
{
    if aliases.len() == 0 {
        String::from_str("none")
    } else {
        join_strings(aliases, ", ")
    }
}

pub open spec fn material_page_text(m: MaterialPage) -> Seq<char> {
    "# "@ + m.name@ + "\n\n- Key: `"@ + m.key@ + "`\n- Aliases: "@ + aliases_text(m.aliases@) + "\n- Source: "@
        + m.source@ + "\n- Properties: "@ + join_seq(views(m.properties@), ", "@) + "\n\n"@ + m.description@
        + "\n"@ + "\n"@ + MATERIAL_BINDING_EXAMPLES@
}

/// Renders a material's page.
pub fn render_material_page(m: &MaterialPage) -> (res: String)
    ensures
        res@ == material_page_text(*m),
{
    let mut md = String::from_str("# ");
    push_str(&mut md, m.name.as_str());
    push_str(&mut md, "\n\n- Key: `");
    push_str(&mut md, m.key.as_str());
    push_str(&mut md, "`\n- Aliases: ");
    push_str(&mut md, render_aliases_text(&m.aliases).as_str());
    push_str(&mut md, "\n- Source: ");
    push_str(&mut md, m.source.as_str());
    push_str(&mut md, "\n- Properties: ");
    push_str(&mut md, join_strings(&m.properties, ", ").as_str());
    push_str(&mut md, "\n\n");
    push_str(&mut md, m.description.as_str());
    push_str(&mut md, "\n");
    push_str(&mut md, "\n");
    push_str(&mut md, render_binding_examples_for_material().as_str());
    md
}

pub open spec fn material_index_line(e: BookEntry) -> Seq<char> {
    "- ["@ + e.name@ + "](./"@ + snake_case_of(e.key@) + ".md)\n"@
}

/// The materials index: one link per material.
pub open spec fn materials_index_text(ms: Seq<BookEntry>) -> Seq<char> {
    "# Materials\n\n"@ + concat_seq(ms.map_values(|e: BookEntry| material_index_line(e)))
}

/// Renders the materials index.
pub fn render_materials_index(ms: &Vec<BookEntry>) -> (res: String)
    ensures
        res@ == materials_index_text(ms@),
{
    let mut md = String::from_str("# Materials\n\n");
    let ghost head = md@;
    let mut i: usize = 0;
    while i < ms.len()
        invariant
            i <= ms@.len(),
            head == "# Materials\n\n"@,
            md@ == head + concat_seq(ms@.subrange(0, i as int).map_values(|e: BookEntry| material_index_line(e))),
        decreases ms.len() - i,
    {
        push_str(&mut md, "- [");
        push_str(&mut md, ms[i].name.as_str());
        push_str(&mut md, "](./");
        push_str(&mut md, snake_case(ms[i].key.as_str()).as_str());
        push_str(&mut md, ".md)\n");
        proof {
            let t = ms@.subrange(0, i + 1).map_values(|e: BookEntry| material_index_line(e));
            assert(t.drop_last() =~= ms@.subrange(0, i as int).map_values(|e: BookEntry| material_index_line(e)));
        }
        i = i + 1;
    }
    assert(ms@.subrange(0, ms@.len() as int) =~= ms@);
    md
}

// ---------------------------------------------------------------------------
// Devices
// ---------------------------------------------------------------------------

pub open spec fn device_index_row(d: DeviceDocsEntry) -> Seq<char> {
    "| ["@ + d.name@ + "](./"@ + snake_case_of(d.key@) + ".md) | `"@ + d.key@ + "` | "@ + d.summary@ + " | "@
        + join_seq(views(d.supported_modes@), ", "@) + " |\n"@
}

/// The head of the devices index, up to its rows.
pub const DEVICES_INDEX_HEAD: &'static str = "# Devices\n\n- [Devices Guide](./guide.md)\n\n| Device | Key | Summary | Modes |\n| --- | --- | --- | --- |\n";

/// The devices index: one table row per device.
pub open spec fn devices_index_text(ds: Seq<DeviceDocsEntry>) -> Seq<char> {
    DEVICES_INDEX_HEAD@ + concat_seq(ds.map_values(|d: DeviceDocsEntry| device_index_row(d)))
}

fn render_device_index_row(d: &DeviceDocsEntry) -> (res: String)
    ensures
        res@ == device_index_row(*d),
{
    let mut md = String::from_str("| [");
    push_str(&mut md, d.name.as_str());
    push_str(&mut md, "](./");
    push_str(&mut md, snake_case(d.key.as_str()).as_str());
    push_str(&mut md, ".md) | `");
    push_str(&mut md, d.key.as_str());
    push_str(&mut md, "` | ");
    push_str(&mut md, d.summary.as_str());
    push_str(&mut md, " | ");
    push_str(&mut md, join_strings(&d.supported_modes, ", ").as_str());
    push_str(&mut md, " |\n");
    md
}

/// Renders the devices index.
pub fn render_devices_index(ds: &Vec<DeviceDocsEntry>) -> (res: String)
    ensures
        res@ == devices_index_text(ds@),
{
    let mut md = String::from_str(DEVICES_INDEX_HEAD);
    let ghost head = md@;
    let mut i: usize = 0;
    while i < ds.len()
        invariant
            i <= ds@.len(),
            head == DEVICES_INDEX_HEAD@,
            md@ == head + concat_seq(ds@.subrange(0, i as int).map_values(|d: DeviceDocsEntry| device_index_row(d))),
        decreases ds.len() - i,
    {
        let row = render_device_index_row(&ds[i]);
        push_str(&mut md, row.as_str());
        proof {
            let t = ds@.subrange(0, i + 1).map_values(|d: DeviceDocsEntry| device_index_row(d));
            assert(t.drop_last() =~= ds@.subrange(0, i as int).map_values(|d: DeviceDocsEntry| device_index_row(d)));
        }
        i = i + 1;
    }
    assert(ds@.subrange(0, ds@.len() as int) =~= ds@);
    md
}

// ---------------------------------------------------------------------------
// Fluids
// ---------------------------------------------------------------------------

/// What a fluid's page and index row show.
#[derive(Debug, Clone)]
pub struct FluidPage {
    pub key: String,
    pub name: String,
    pub aliases: Vec<String>,
    pub supported_state_inputs: Vec<String>,
    pub supported_properties: Vec<String>,
}

pub open spec fn fluid_index_row(f: FluidPage) -> Seq<char> {
    "| ["@ + f.name@ + "](./"@ + snake_case_of(f.key@) + ".md) | `"@ + f.key@ + "` | "@ + code_list_cell(f.aliases@)
        + " | `"@ + join_seq(views(f.supported_state_inputs@), ", "@) + "` | "@ + decimal_text(
        f.supported_properties@.len(),
    ) + " |\n"@
}

/// The head of the fluids index, up to its rows.
pub const FLUIDS_INDEX_HEAD: &'static str = "# Fluids\n\nCatalog-backed fluid wrappers with typed and generic state APIs.\n\n- [Fluids Guide](./guide.md)\n\n| Fluid | Key | Aliases | Supported State Inputs | Properties |\n| --- | --- | --- | --- | --- |\n";

/// The closing note of the fluids index.
pub const FLUIDS_INDEX_TAIL: &'static str = "\nEach fluid page includes constructor patterns, generic input aliases, direct accessor guidance, saturation helpers, and equation-context usage.\n";

/// The fluids index: one table row per fluid.
pub open spec fn fluids_index_text(fs: Seq<FluidPage>) -> Seq<char> {
    FLUIDS_INDEX_HEAD@ + concat_seq(fs.map_values(|f: FluidPage| fluid_index_row(f))) + FLUIDS_INDEX_TAIL@
}

fn render_fluid_index_row(f: &FluidPage) -> (res: String)
    ensures
        res@ == fluid_index_row(*f),
{
    let mut md = String::from_str("| [");
    push_str(&mut md, f.name.as_str());
    push_str(&mut md, "](./");
    push_str(&mut md, snake_case(f.key.as_str()).as_str());
    push_str(&mut md, ".md) | `");
    push_str(&mut md, f.key.as_str());
    push_str(&mut md, "` | ");
    push_str(&mut md, render_code_list_cell(&f.aliases).as_str());
    push_str(&mut md, " | `");
    push_str(&mut md, join_strings(&f.supported_state_inputs, ", ").as_str());
    push_str(&mut md, "` | ");
    push_str(&mut md, usize_text(f.supported_properties.len()).as_str());
    push_str(&mut md, " |\n");
    md
}

/// Renders the fluids index.
pub fn render_fluids_index(fs: &Vec<FluidPage>) -> (res: String)
    ensures
        res@ == fluids_index_text(fs@),
{
    let mut md = String::from_str(FLUIDS_INDEX_HEAD);
    let ghost head = md@;
    let mut i: usize = 0;
    while i < fs.len()
        invariant
            i <= fs@.len(),
            head == FLUIDS_INDEX_HEAD@,
            md@ == head + concat_seq(fs@.subrange(0, i as int).map_values(|f: FluidPage| fluid_index_row(f))),
        decreases fs.len() - i,
    {
        let row = render_fluid_index_row(&fs[i]);
        push_str(&mut md, row.as_str());
        proof {
            let t = fs@.subrange(0, i + 1).map_values(|f: FluidPage| fluid_index_row(f));
            assert(t.drop_last() =~= fs@.subrange(0, i as int).map_values(|f: FluidPage| fluid_index_row(f)));
        }
        i = i + 1;
    }
    assert(fs@.subrange(0, fs@.len() as int) =~= fs@);
    push_str(&mut md, FLUIDS_INDEX_TAIL);
    md
}

/// The notes on state input pairs; any other pair is supported by the backend model.
pub const STATE_PAIR_NOTES: [(&'static str, &'static str); 6] = [
    ("T,P", "General purpose explicit state constructor (`state_tp`)"),
    ("P,h", "Pressure/enthalpy inversion (`state_ph`)"),
    ("P,s", "Pressure/entropy inversion (`state_ps`)"),
    ("rho,h", "Density/enthalpy construction (`state_rho_h`)"),
    ("P,Q", "Two-phase saturation by pressure (`state_pq`)"),
    ("T,Q", "Two-phase saturation by temperature (`state_tq`)"),
];

/// The direct accessors of property keys; any other key is read by name.
pub const PROPERTY_ACCESSORS: [(&'static str, &'static str); 12] = [
    ("pressure", "`pressure()`, `p()`"),
    ("temperature", "`temperature()`, `t()`"),
    ("density", "`density()`, `rho()`"),
    ("dynamic_viscosity", "`dynamic_viscosity()`, `mu()`"),
    ("thermal_conductivity", "`thermal_conductivity()`, `k()`"),
    ("specific_heat_capacity", "`specific_heat_capacity()`, `cp()`"),
    ("specific_heat_capacity_cv", "`specific_heat_capacity_cv()`, `cv()`"),
    ("speed_of_sound", "`speed_of_sound()`, `a()`"),
    ("specific_enthalpy", "`specific_enthalpy()`, `h()`"),
    ("specific_entropy", "`specific_entropy()`, `s()`"),
    ("gamma", "`gamma()`"),
    ("quality", "`quality()`"),
];

/// The value of the first entry of `table` from position `i` on whose key is
/// `k`, or `default`.
pub open spec fn lookup_from(table: Seq<(&'static str, &'static str)>, k: Seq<char>, default: Seq<char>, i: int) -> Seq<char>
    decreases table.len() - i,
{
    if i < 0 || i >= table.len() {
        default
    } else if table[i].0@ == k {
        table[i].1@
    } else {
        lookup_from(table, k, default, i + 1)
    }
}

pub open spec fn state_pair_note(pair: Seq<char>) -> Seq<char> {
    lookup_from(STATE_PAIR_NOTES@, pair, "Supported by backend model"@, 0)
}

pub open spec fn property_accessor(p: Seq<char>) -> Seq<char> {
    lookup_from(PROPERTY_ACCESSORS@, p, "`property_by_name(...)`"@, 0)
}

fn lookup_exec(table: &[(&'static str, &'static str)], k: &str, default: &'static str) -> (res: &'static str)
    ensures
        res@ == lookup_from(table@, k@, default@, 0),
{
    let mut i: usize = 0;
    while i < table.len()
        invariant
            i <= table@.len(),
            lookup_from(table@, k@, default@, 0) == lookup_from(table@, k@, default@, i as int),
        decreases table.len() - i,
    {
        if str_eq(table[i].0, k) {
            return table[i].1;
        }
        i = i + 1;
    }
    default
}

/// An equation page a fluid page may point to: its name, the link to it from
/// the fluid's page, and whether one of its variables takes the fluid context.
#[derive(Debug, Clone)]
pub struct FluidContextEquation {
    pub name: String,
    pub link: String,
    pub uses_fluid: bool,
}

/// The equations that take the fluid context, in order.
pub open spec fn fluid_users(cs: Seq<FluidContextEquation>) -> Seq<FluidContextEquation>
    decreases cs.len(),
{
    if cs.len() == 0 {
        Seq::empty()
    } else if cs.last().uses_fluid {
        fluid_users(cs.drop_last()).push(cs.last())
    } else {
        fluid_users(cs.drop_last())
    }
}

/// The most equations a fluid page lists.
pub const MAX_LISTED_EQUATIONS: usize = 12;

/// The equations a fluid page lists: the first ones that take the fluid
/// context, at most twelve, or a note that there are none.
pub open spec fn fluid_equations_list(cs: Seq<FluidContextEquation>) -> Seq<char> {
    let users = fluid_users(cs);
    if users.len() == 0 {
        "- No current equation pages declare `fluid` resolver context.\n"@
    } else {
        concat_seq(
            users.take(if users.len() < 12 { users.len() as int } else { 12 }).map_values(
                |e: FluidContextEquation| "- ["@ + e.name@ + "]("@ + e.link@ + ")\n"@,
            ),
        )
    }
}

/// The generic property alias table of a fluid page.
pub const FLUID_ALIAS_TABLE: &'static str = "## Generic Property Aliases\n\n| Canonical | Aliases |\n| --- | --- |\n| Temperature | `T`, `temperature` |\n| Pressure | `P`, `pressure` |\n| Density | `rho`, `density` |\n| Specific enthalpy | `h`, `enthalpy` |\n| Specific entropy | `s`, `entropy` |\n| Quality | `Q`, `quality`, `x` |\n\n";

/// The error behavior section of a fluid page.
pub const FLUID_ERROR_BEHAVIOR: &'static str = "\n## Error Behavior\n\n- Unsupported input pairs return explicit pair diagnostics with a supported-pairs list.\n- Unknown/invalid generic property keys return actionable key guidance.\n- `u`/internal-energy keys are rejected intentionally to prevent ambiguity with `h`.\n- Backend failures are surfaced as recoverable structured errors with fluid/pair/property context.\n";

/// A fluid's page: its fields, its state input pairs with notes, the
/// constructor examples, the alias table, its property keys with accessors, the
/// lookup, saturation and equation-context examples, the equations that take
/// the fluid context, the error behavior and the bindings section.
pub open spec fn fluid_page_text(f: FluidPage, s: DocSnippets, cs: Seq<FluidContextEquation>) -> Seq<char> {
    "# "@ + f.name@ + "\n\n| Field | Value |\n| --- | --- |\n| Key | `"@ + f.key@ + "` |\n| Aliases | "@ + aliases_text(
        f.aliases@,
    ) + " |\n| Supported state inputs | `"@ + join_seq(views(f.supported_state_inputs@), ", "@)
        + "` |\n| Supported properties | "@ + decimal_text(f.supported_properties@.len())
        + " |\n\n## Supported State Input Pairs\n\n| Pair | Notes |\n| --- | --- |\n"@ + concat_seq(
        f.supported_state_inputs@.map_values(|p: String| "| `"@ + p@ + "` | "@ + state_pair_note(p@) + " |\n"@),
    ) + "\n## Verified Constructor and Generic Examples\n\n```rust\n"@ + trim_seq(s.fluid_state_constructors@)
        + "```\n\n"@ + FLUID_ALIAS_TABLE@ + "## Supported Property Keys\n\n| Property key | Direct accessor |\n| --- | --- |\n"@
        + concat_seq(
        f.supported_properties@.map_values(|p: String| "| `"@ + p@ + "` | "@ + property_accessor(p@) + " |\n"@),
    ) + "\n## Direct Property Access Example\n\n```rust\n"@ + trim_seq(s.fluid_property_lookup@)
        + "\n```\n\n## Saturation and Metadata Example\n\n```rust\n"@ + trim_seq(s.fluid_saturation_metadata@)
        + "\n```\n\n## Using This Fluid With Equations\n\n```rust\n"@ + trim_seq(s.context_solve@)
        + "\n```\n\n### Equations currently using `fluid` context\n\n"@ + fluid_equations_list(cs)
        + FLUID_ERROR_BEHAVIOR@ + "\n"@ + FLUID_BINDING_EXAMPLES@
}

fn push_table_rows(out: &mut String, keys: &Vec<String>, table: &[(&'static str, &'static str)], default: &'static str)
    ensures
        final(out)@ == old(out)@ + concat_seq(
            keys@.map_values(|p: String| "| `"@ + p@ + "` | "@ + lookup_from(table@, p@, default@, 0) + " |\n"@),
        ),
{
    let ghost start = out@;
    let mut i: usize = 0;
    while i < keys.len()
        invariant
            i <= keys@.len(),
            out@ == start + concat_seq(
                keys@.subrange(0, i as int).map_values(
                    |p: String| "| `"@ + p@ + "` | "@ + lookup_from(table@, p@, default@, 0) + " |\n"@,
                ),
            ),
        decreases keys.len() - i,
    {
        push_str(out, "| `");
        push_str(out, keys[i].as_str());
        push_str(out, "` | ");
        push_str(out, lookup_exec(table, keys[i].as_str(), default));
        push_str(out, " |\n");
        proof {
            let t = keys@.subrange(0, i + 1).map_values(
                |p: String| "| `"@ + p@ + "` | "@ + lookup_from(table@, p@, default@, 0) + " |\n"@,
            );
            assert(t.drop_last() =~= keys@.subrange(0, i as int).map_values(
                |p: String| "| `"@ + p@ + "` | "@ + lookup_from(table@, p@, default@, 0) + " |\n"@,
            ));
        }
        i = i + 1;
    }
    assert(keys@.subrange(0, keys@.len() as int) =~= keys@);
}

fn push_fluid_equations(out: &mut String, cs: &Vec<FluidContextEquation>)
    ensures
        final(out)@ == old(out)@ + fluid_equations_list(cs@),
{
    let ghost start = out@;
    let mut listed: usize = 0;
    let mut i: usize = 0;
    while i < cs.len() && listed < MAX_LISTED_EQUATIONS
        invariant
            i <= cs@.len(),
            listed <= 12,
            listed == (if fluid_users(cs@.subrange(0, i as int)).len() < 12 {
                fluid_users(cs@.subrange(0, i as int)).len() as int
            } else {
                12
            }),
            listed < 12 ==> listed == fluid_users(cs@.subrange(0, i as int)).len(),
            out@ == start + concat_seq(
                fluid_users(cs@.subrange(0, i as int)).take(listed as int).map_values(
                    |e: FluidContextEquation| "- ["@ + e.name@ + "]("@ + e.link@ + ")\n"@,
                ),
            ),
        decreases cs.len() - i,
    {
        let ghost before = fluid_users(cs@.subrange(0, i as int));
        assert(cs@.subrange(0, i + 1).drop_last() =~= cs@.subrange(0, i as int));
        assert(cs@.subrange(0, i + 1).last() == cs@[i as int]);
        if cs[i].uses_fluid {
            push_str(out, "- [");
            push_str(out, cs[i].name.as_str());
            push_str(out, "](");
            push_str(out, cs[i].link.as_str());
            push_str(out, ")\n");
            proof {
                let after = before.push(cs@[i as int]);
                let f = |e: FluidContextEquation| "- ["@ + e.name@ + "]("@ + e.link@ + ")\n"@;
                assert(after.take(listed + 1) =~= before.take(listed as int).push(cs@[i as int]));
                assert(after.take(listed + 1).map_values(f).drop_last() =~= before.take(listed as int).map_values(f));
            }
            listed = listed + 1;
        }
        i = i + 1;
    }
    proof {
        let users = fluid_users(cs@);
        if listed < 12 {
            assert(i == cs@.len());
        }
        // Once twelve are listed the rest are not shown; otherwise all were seen.
        lemma_fluid_users_prefix(cs@, i as int);
        if listed == 12 {
            assert(users.take(12) =~= fluid_users(cs@.subrange(0, i as int)).take(12));
        } else {
            assert(cs@.subrange(0, i as int) =~= cs@);
        }
    }
    if listed == 0 {
        push_str(out, "- No current equation pages declare `fluid` resolver context.\n");
    }
}

/// The users among a prefix are a prefix of all the users.
proof fn lemma_fluid_users_prefix(cs: Seq<FluidContextEquation>, i: int)
    requires
        0 <= i <= cs.len(),
    ensures
        fluid_users(cs.subrange(0, i)).len() <= fluid_users(cs).len(),
        forall|k: int| 0 <= k < fluid_users(cs.subrange(0, i)).len() ==> #[trigger] fluid_users(cs)[k] == fluid_users(
            cs.subrange(0, i),
        )[k],
    decreases cs.len() - i,
{
    if i < cs.len() {
        lemma_fluid_users_prefix(cs, i + 1);
        assert(cs.subrange(0, i + 1).drop_last() =~= cs.subrange(0, i));
    } else {
        assert(cs.subrange(0, i) =~= cs);
    }
}

fn push_state_pair_rows(out: &mut String, pairs: &Vec<String>)
    ensures
        final(out)@ == old(out)@ + concat_seq(
            pairs@.map_values(|p: String| "| `"@ + p@ + "` | "@ + state_pair_note(p@) + " |\n"@),
        ),
{
    let table = STATE_PAIR_NOTES.as_slice();
    assert(table@ == STATE_PAIR_NOTES@);
    push_table_rows(out, pairs, table, "Supported by backend model");
    assert(pairs@.map_values(
        |p: String| "| `"@ + p@ + "` | "@ + lookup_from(table@, p@, "Supported by backend model"@, 0) + " |\n"@,
    ) =~= pairs@.map_values(|p: String| "| `"@ + p@ + "` | "@ + state_pair_note(p@) + " |\n"@));
}

fn push_accessor_rows(out: &mut String, props: &Vec<String>)
    ensures
        final(out)@ == old(out)@ + concat_seq(
            props@.map_values(|p: String| "| `"@ + p@ + "` | "@ + property_accessor(p@) + " |\n"@),
        ),
{
    let table = PROPERTY_ACCESSORS.as_slice();
    assert(table@ == PROPERTY_ACCESSORS@);
    push_table_rows(out, props, table, "`property_by_name(...)`");
    assert(props@.map_values(
        |p: String| "| `"@ + p@ + "` | "@ + lookup_from(table@, p@, "`property_by_name(...)`"@, 0) + " |\n"@,
    ) =~= props@.map_values(|p: String| "| `"@ + p@ + "` | "@ + property_accessor(p@) + " |\n"@));
}

/// Renders a fluid's page.
pub fn render_fluid_page(f: &FluidPage, s: &DocSnippets, cs: &Vec<FluidContextEquation>) -> (res: String)
    ensures
        res@ == fluid_page_text(*f, *s, cs@),
{
    let mut md = String::from_str("# ");
    push_str(&mut md, f.name.as_str());
    push_str(&mut md, "\n\n| Field | Value |\n| --- | --- |\n| Key | `");
    push_str(&mut md, f.key.as_str());
    push_str(&mut md, "` |\n| Aliases | ");
    push_str(&mut md, render_aliases_text(&f.aliases).as_str());
    push_str(&mut md, " |\n| Supported state inputs | `");
    push_str(&mut md, join_strings(&f.supported_state_inputs, ", ").as_str());
    push_str(&mut md, "` |\n| Supported properties | ");
    push_str(&mut md, usize_text(f.supported_properties.len()).as_str());
    push_str(&mut md, " |\n\n## Supported State Input Pairs\n\n| Pair | Notes |\n| --- | --- |\n");
    push_state_pair_rows(&mut md, &f.supported_state_inputs);
    push_str(&mut md, "\n## Verified Constructor and Generic Examples\n\n```rust\n");
    push_str(&mut md, trim_str(s.fluid_state_constructors.as_str()));
    push_str(&mut md, "```\n\n");
    push_str(&mut md, FLUID_ALIAS_TABLE);
    push_str(&mut md, "## Supported Property Keys\n\n| Property key | Direct accessor |\n| --- | --- |\n");
    push_accessor_rows(&mut md, &f.supported_properties);
    push_str(&mut md, "\n## Direct Property Access Example\n\n```rust\n");
    push_str(&mut md, trim_str(s.fluid_property_lookup.as_str()));
    push_str(&mut md, "\n```\n\n## Saturation and Metadata Example\n\n```rust\n");
    push_str(&mut md, trim_str(s.fluid_saturation_metadata.as_str()));
    push_str(&mut md, "\n```\n\n## Using This Fluid With Equations\n\n```rust\n");
    push_str(&mut md, trim_str(s.context_solve.as_str()));
    push_str(&mut md, "\n```\n\n### Equations currently using `fluid` context\n\n");
    push_fluid_equations(&mut md, cs);
    push_str(&mut md, FLUID_ERROR_BEHAVIOR);
    push_str(&mut md, "\n");
    push_str(&mut md, render_binding_examples_for_fluid().as_str());
    md
}

/// Where a fluid's page lives, which links from it start at.
pub open spec fn fluid_page_route(key: Seq<char>) -> Seq<char> {
    "fluids/"@ + snake_case_of(key) + ".md"@
}

/// The route of a fluid's page.
pub fn fluid_route(key: &str) -> (res: String)
    ensures
        res@ == fluid_page_route(key@),
{
    let mut r = String::from_str("fluids/");
    push_str(&mut r, snake_case(key).as_str());
    push_str(&mut r, ".md");
    r
}

} // verus!
