//! Compressible-flow calculator devices: their kind vocabularies, parsers,
//! solve routing and generated documentation metadata.
use vstd::prelude::*;
use crate::docs::binding_tables::{rows_at, PairRow, TextRow};
use crate::strings::views;

pub mod framework;
pub mod isentropic;
pub mod fanno_flow;
pub mod rayleigh;
pub mod nozzle_flow;
pub mod normal_shock;
pub mod oblique_shock;
pub mod conical_shock;

verus! {

/// One argument of a generated binding function.
#[derive(Debug, Clone)]
pub struct DeviceBindingArgSpec {
    pub name: &'static str,
    pub description: &'static str,
}

/// One generated binding function of a device: its names in each binding
/// surface, the invoke operation it calls, the arguments it fixes and those it
/// takes, and its documentation.
#[derive(Debug, Clone)]
pub struct DeviceBindingFunctionSpec {
    pub id: &'static str,
    pub python_name: &'static str,
    pub excel_name: &'static str,
    pub op: &'static str,
    pub fixed_args: Vec<(&'static str, &'static str)>,
    pub args: Vec<DeviceBindingArgSpec>,
    pub returns: &'static str,
    pub help: &'static str,
    pub rust_example: &'static str,
    pub python_example: &'static str,
    pub xloil_example: &'static str,
    pub pyxll_example: &'static str,
}

/// Everything the documentation and binding generators need of one device.
#[derive(Debug, Clone)]
pub struct DeviceGenerationSpec {
    pub key: &'static str,
    pub name: &'static str,
    pub summary: &'static str,
    pub supported_modes: Vec<&'static str>,
    pub outputs: Vec<&'static str>,
    pub route: &'static str,
    pub binding_markdown: &'static str,
    pub overview_markdown: &'static str,
    pub equation_dependencies: Vec<&'static str>,
    pub binding_functions: Vec<DeviceBindingFunctionSpec>,
}

/// The names of a device binding: its id, Python name, Excel name and
/// operation, then the input and target kinds it fixes, or two empty texts
/// when it fixes none.
pub type DeviceNameRow = (&'static str, &'static str, &'static str, &'static str, &'static str, &'static str);

/// The kinds a binding of this row fixes: none, or the input kind and then
/// the target kind.
pub open spec fn fixed_kinds_of(row: DeviceNameRow) -> Seq<(&'static str, &'static str)> {
    if row.4@.len() == 0 {
        Seq::empty()
    } else {
        seq![("input_kind", row.4), ("target_kind", row.5)]
    }
}

/// The binding is the one of these rows: its names, the kinds it fixes, its
/// arguments and its texts.
pub open spec fn device_row_matches(
    b: DeviceBindingFunctionSpec,
    names: DeviceNameRow,
    texts: TextRow,
    args: Seq<(Seq<char>, Seq<char>)>,
) -> bool {
    &&& b.id == names.0
    &&& b.python_name == names.1
    &&& b.excel_name == names.2
    &&& b.op == names.3
    &&& b.fixed_args@ == fixed_kinds_of(names)
    &&& b.args@.map_values(|a: DeviceBindingArgSpec| (a.name@, a.description@)) == args
    &&& b.returns == texts.0
    &&& b.help == texts.1
    &&& b.rust_example == texts.2
    &&& b.python_example == texts.3
    &&& b.xloil_example == texts.4
    &&& b.pyxll_example == texts.5
}

/// The bindings are those of the tables' rows, one per name row, in order.
pub open spec fn device_table_bindings(
    bs: Seq<DeviceBindingFunctionSpec>,
    names: Seq<DeviceNameRow>,
    texts: Seq<TextRow>,
    args: Seq<PairRow>,
) -> bool {
    &&& bs.len() == names.len()
    &&& forall|k: int| 0 <= k < bs.len() ==> device_row_matches(#[trigger] bs[k], names[k], texts[k], rows_at(args, k))
}

fn device_args_at(table: &[PairRow], k: usize) -> (res: Vec<DeviceBindingArgSpec>)
    ensures
        res@.map_values(|a: DeviceBindingArgSpec| (a.name@, a.description@)) == rows_at(table@, k as int),
{
    let mut res: Vec<DeviceBindingArgSpec> = Vec::new();
    let mut j: usize = 0;
    while j < table.len()
        invariant
            j <= table@.len(),
            res@.map_values(|a: DeviceBindingArgSpec| (a.name@, a.description@)) == rows_at(
                table@.subrange(0, j as int),
                k as int,
            ),
        decreases table.len() - j,
    {
        let row = table[j];
        let ghost before = res@.map_values(|a: DeviceBindingArgSpec| (a.name@, a.description@));
        if row.0 == k {
            res.push(arg(row.1, row.2));
            assert(res@.map_values(|a: DeviceBindingArgSpec| (a.name@, a.description@)) =~= before.push((row.1@, row.2@)));
        }
        assert(table@.subrange(0, j + 1).drop_last() =~= table@.subrange(0, j as int));
        j = j + 1;
    }
    assert(table@.subrange(0, table@.len() as int) =~= table@);
    res
}

/// The bindings of the tables' rows, one per name row, in order.
pub fn device_binding_table(names: &[DeviceNameRow], texts: &[TextRow], args: &[PairRow]) -> (res: Vec<DeviceBindingFunctionSpec>)
    requires
        names@.len() == texts@.len(),
    ensures
        device_table_bindings(res@, names@, texts@, args@),
{
    let mut res: Vec<DeviceBindingFunctionSpec> = Vec::new();
    let mut k: usize = 0;
    while k < names.len()
        invariant
            names@.len() == texts@.len(),
            k <= names@.len(),
            res@.len() == k,
            forall|i: int| 0 <= i < k ==> device_row_matches(#[trigger] res@[i], names@[i], texts@[i], rows_at(args@, i)),
        decreases names.len() - k,
    {
        let n = names[k];
        let t = texts[k];
        let fixed_args: Vec<(&'static str, &'static str)> = if n.4.unicode_len() == 0 {
            Vec::new()
        } else {
            vec![("input_kind", n.4), ("target_kind", n.5)]
        };
        assert(fixed_args@ =~= fixed_kinds_of(n));
        res.push(
            DeviceBindingFunctionSpec {
                id: n.0,
                python_name: n.1,
                excel_name: n.2,
                op: n.3,
                fixed_args,
                args: device_args_at(args, k),
                returns: t.0,
                help: t.1,
                rust_example: t.2,
                python_example: t.3,
                xloil_example: t.4,
                pyxll_example: t.5,
            },
        );
        k = k + 1;
    }
    res
}

/// An argument description.
pub fn arg(name: &'static str, description: &'static str) -> (res: DeviceBindingArgSpec)
    ensures
        res.name == name,
        res.description == description,
{
    DeviceBindingArgSpec { name, description }
}

/// The views of a list of static strings.
pub open spec fn texts(v: Seq<&'static str>) -> Seq<Seq<char>> {
    v.map_values(|s: &'static str| s@)
}

/// A fixed-argument list of a binding: empty, or exactly the input kind
/// followed by the target kind, each one of the given keys.
pub open spec fn fixed_kinds_in(
    fixed: Seq<(&'static str, &'static str)>,
    input_keys: Seq<Seq<char>>,
    output_keys: Seq<Seq<char>>,
) -> bool {
    ||| fixed.len() == 0
    ||| {
        &&& fixed.len() == 2
        &&& fixed[0].0@ == "input_kind"@
        &&& fixed[1].0@ == "target_kind"@
        &&& input_keys.contains(fixed[0].1@)
        &&& output_keys.contains(fixed[1].1@)
    }
}

/// The device keys, in the order the generators list the devices.
pub open spec fn device_keys() -> Seq<Seq<char>> {
    seq!["rayleigh_calc"@, "nozzle_flow_calc"@, "conical_shock_calc"@, "oblique_shock_calc"@, "fanno_flow_calc"@]
}

/// A device's documentation page lives at `devices/<key>.md`.
pub open spec fn page_route(key: Seq<char>) -> Seq<char> {
    "devices/"@ + key + ".md"@
}

/// The generation metadata of the devices, in the order the generators list them.
pub open spec fn device_specs_are(specs: Seq<DeviceGenerationSpec>) -> bool {
    &&& specs.len() == 5
    &&& rayleigh::generation_spec_fields(specs[0])
    &&& nozzle_flow::generation_spec_fields(specs[1])
    &&& conical_shock::generation_spec_fields(specs[2])
    &&& oblique_shock::generation_spec_fields(specs[3])
    &&& fanno_flow::generation_spec_fields(specs[4])
}

/// The generation metadata of the devices with generated pages and bindings,
/// in catalog order: Rayleigh flow, nozzle flow and conical shock in the first
/// three places, then oblique shock and Fanno flow.
pub fn generation_specs() -> (specs: Vec<DeviceGenerationSpec>)
    ensures
        device_specs_are(specs@),
        specs.len() == device_keys().len(),
        forall|i: int| 0 <= i < specs.len() ==> (#[trigger] specs[i]).key@ == device_keys()[i],
        forall|i: int| 0 <= i < specs.len() ==> (#[trigger] specs[i]).route@ == page_route(specs[i].key@),
        forall|i: int| 0 <= i < specs.len() ==> (#[trigger] specs[i]).equation_dependencies.len() > 0,
{
    let specs = vec![
        rayleigh::generation_spec(),
        nozzle_flow::generation_spec(),
        conical_shock::generation_spec(),
        oblique_shock::generation_spec(),
        fanno_flow::generation_spec(),
    ];
    proof {
        reveal_strlit("devices/");
        reveal_strlit(".md");
        reveal_strlit("oblique_shock_calc");
        reveal_strlit("devices/oblique_shock_calc.md");
        reveal_strlit("fanno_flow_calc");
        reveal_strlit("devices/fanno_flow_calc.md");
        reveal_strlit("rayleigh_calc");
        reveal_strlit("devices/rayleigh_calc.md");
        reveal_strlit("nozzle_flow_calc");
        reveal_strlit("devices/nozzle_flow_calc.md");
        reveal_strlit("conical_shock_calc");
        reveal_strlit("devices/conical_shock_calc.md");
        assert(specs[0].route@ =~= page_route(specs[0].key@));
        assert(specs[1].route@ =~= page_route(specs[1].key@));
        assert(specs[2].route@ =~= page_route(specs[2].key@));
        assert(specs[3].route@ =~= page_route(specs[3].key@));
        assert(specs[4].route@ =~= page_route(specs[4].key@));
        assert forall|i: int| 0 <= i < specs.len() implies (#[trigger] specs[i]).equation_dependencies.len() > 0 by {
            assert(texts(specs[i].equation_dependencies@).len() == specs[i].equation_dependencies@.len());
        }
    }
    specs
}

/// No two devices share a key.
pub proof fn device_keys_distinct()
    ensures
        forall|i: int, j: int| 0 <= i < j < device_keys().len() ==> device_keys()[i] != device_keys()[j],
{
    reveal_strlit("oblique_shock_calc");
    reveal_strlit("fanno_flow_calc");
    reveal_strlit("rayleigh_calc");
    reveal_strlit("nozzle_flow_calc");
    reveal_strlit("conical_shock_calc");
    assert(device_keys()[2].len() == 18 && device_keys()[3].len() == 18);
    assert(device_keys()[2][0] != device_keys()[3][0]);
    assert(device_keys()[0].len() == 13);
    assert(device_keys()[1].len() == 16);
    assert(device_keys()[4].len() == 15);
}

/// The summary of a device that the documentation index shows.
#[derive(Debug, Clone)]
pub struct DeviceDocsEntry {
    pub key: String,
    pub name: String,
    pub summary: String,
    pub supported_modes: Vec<String>,
    pub outputs: Vec<String>,
    pub route: String,
}

/// The entry shows exactly the key, name, summary, modes, outputs and route of the spec.
pub open spec fn entry_matches(e: DeviceDocsEntry, s: DeviceGenerationSpec) -> bool {
    &&& e.key@ == s.key@
    &&& e.name@ == s.name@
    &&& e.summary@ == s.summary@
    &&& views(e.supported_modes@) == texts(s.supported_modes@)
    &&& views(e.outputs@) == texts(s.outputs@)
    &&& e.route@ == s.route@
}

fn owned_texts(v: &Vec<&'static str>) -> (res: Vec<String>)
    ensures
        views(res@) == texts(v@),
{
    let mut res: Vec<String> = Vec::new();
    let mut i: usize = 0;
    while i < v.len()
        invariant
            i <= v@.len(),
            views(res@) == texts(v@.subrange(0, i as int)),
        decreases v@.len() - i,
    {
        res.push(String::from_str(v[i]));
        proof {
            assert(texts(v@.subrange(0, i + 1)) =~= texts(v@.subrange(0, i as int)).push(v@[i as int]@));
            assert(views(res@) =~= views(res@.drop_last()).push(res@.last()@));
        }
        i = i + 1;
    }
    assert(v@.subrange(0, v@.len() as int) =~= v@);
    res
}

/// The documentation entries of the given specs, one per spec and in order.
pub fn docs_entries_from(specs: &Vec<DeviceGenerationSpec>) -> (entries: Vec<DeviceDocsEntry>)
    ensures
        entries.len() == specs.len(),
        forall|i: int| 0 <= i < specs.len() ==> entry_matches(#[trigger] entries[i], specs[i]),
{
    let mut entries: Vec<DeviceDocsEntry> = Vec::new();
    let mut i: usize = 0;
    while i < specs.len()
        invariant
            i <= specs.len(),
            entries.len() == i,
            forall|k: int| 0 <= k < i ==> entry_matches(#[trigger] entries[k], specs[k]),
        decreases specs.len() - i,
    {
        let s = &specs[i];
        entries.push(DeviceDocsEntry {
            key: String::from_str(s.key),
            name: String::from_str(s.name),
            summary: String::from_str(s.summary),
            supported_modes: owned_texts(&s.supported_modes),
            outputs: owned_texts(&s.outputs),
            route: String::from_str(s.route),
        });
        i = i + 1;
    }
    entries
}

/// The documentation entries of every device.
pub fn docs_entries() -> (entries: Vec<DeviceDocsEntry>)
    ensures
        exists|specs: Seq<DeviceGenerationSpec>|
            #![trigger device_specs_are(specs)]
            {
                &&& device_specs_are(specs)
                &&& entries.len() == specs.len()
                &&& forall|i: int| 0 <= i < specs.len() ==> entry_matches(#[trigger] entries[i], specs[i])
            },
        entries.len() == device_keys().len(),
        forall|i: int| 0 <= i < entries.len() ==> (#[trigger] entries[i]).key@ == device_keys()[i]
            && entries[i].route@ == page_route(device_keys()[i]),
{
    let specs = generation_specs();
    let entries = docs_entries_from(&specs);
    assert forall|i: int| 0 <= i < entries.len() implies (#[trigger] entries[i]).key@ == device_keys()[i]
        && entries[i].route@ == page_route(device_keys()[i]) by {
        assert(entry_matches(entries[i], specs[i]));
    }
    assert(device_specs_are(specs@));
    entries
}

} // verus!
