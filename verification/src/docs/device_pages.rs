//! Documentation pages generated from the devices' metadata: the devices
//! guide, one page per device, and lookups by device key.
use vstd::prelude::*;
use crate::devices::{device_keys, device_specs_are, generation_specs, texts, DeviceDocsEntry, DeviceGenerationSpec};
use crate::docs::naming::{humanize_path_id, humanize_path_id_of};
use crate::docs::pages::DocSnippets;
use crate::strings::{concat_seq, push_str, views};
use crate::text::{map_char, replace_char, str_eq, trim_seq, trim_str};

verus! {

// ---------------------------------------------------------------------------
// Lookup by key
// ---------------------------------------------------------------------------

/// The position of the first spec with key `key`, searching from `i`; -1 if none.
pub open spec fn spec_index_from(specs: Seq<DeviceGenerationSpec>, key: Seq<char>, i: int) -> int
    decreases specs.len() - i,
{
    if i < 0 || i >= specs.len() {
        -1
    } else if specs[i].key@ == key {
        i
    } else {
        spec_index_from(specs, key, i + 1)
    }
}

/// The position of the first spec with key `key`; -1 if none.
pub open spec fn spec_index(specs: Seq<DeviceGenerationSpec>, key: Seq<char>) -> int {
    spec_index_from(specs, key, 0)
}

/// The search result is -1 exactly when no spec from `i` on has the key, and
/// otherwise a position from `i` on that has it.
pub proof fn lemma_spec_index_from(specs: Seq<DeviceGenerationSpec>, key: Seq<char>, i: int)
    requires
        0 <= i <= specs.len(),
    ensures
        spec_index_from(specs, key, i) == -1 <==> forall|j: int| i <= j < specs.len() ==> specs[j].key@ != key,
        spec_index_from(specs, key, i) != -1 ==> i <= spec_index_from(specs, key, i) < specs.len()
            && specs[spec_index_from(specs, key, i)].key@ == key,
    decreases specs.len() - i,
{
    if i < specs.len() {
        lemma_spec_index_from(specs, key, i + 1);
    }
}

/// Finds the first spec with the given key.
pub fn find_device_spec(specs: &Vec<DeviceGenerationSpec>, key: &str) -> (res: Option<usize>)
    ensures
        match res {
            Some(i) => i as int == spec_index(specs@, key@) && 0 <= i < specs.len(),
            None => spec_index(specs@, key@) == -1,
        },
{
    let mut i: usize = 0;
    while i < specs.len()
        invariant
            i <= specs.len(),
            spec_index_from(specs@, key@, i as int) == spec_index(specs@, key@),
        decreases specs.len() - i,
    {
        if str_eq(specs[i].key, key) {
            return Some(i);
        }
        i = i + 1;
    }
    None
}

/// The equation dependencies of the device with key `key` among `specs`; none
/// for an unknown key.
pub open spec fn dependencies_in(specs: Seq<DeviceGenerationSpec>, key: Seq<char>) -> Seq<&'static str> {
    let i = spec_index(specs, key);
    if i >= 0 { specs[i].equation_dependencies@ } else { Seq::empty() }
}

/// Looks up the equation dependencies of a device among the given specs.
pub fn equation_dependencies_in(specs: &Vec<DeviceGenerationSpec>, device_key: &str) -> (res: Vec<&'static str>)
    ensures
        res@ == dependencies_in(specs@, device_key@),
{
    match find_device_spec(specs, device_key) {
        Some(i) => specs[i].equation_dependencies.clone(),
        None => Vec::new(),
    }
}

/// The equation dependencies of a device; none for a key that names no device.
pub fn device_equation_dependencies(device_key: &str) -> (res: Vec<&'static str>)
    ensures
        !device_keys().contains(device_key@) ==> res.len() == 0,
        device_keys().contains(device_key@) ==> res.len() > 0,
        exists|specs: Seq<DeviceGenerationSpec>| device_specs_are(specs) && specs.len() == device_keys().len()
            && (forall|i: int| 0 <= i < specs.len() ==> (#[trigger] specs[i]).key@ == device_keys()[i])
            && res@ == dependencies_in(specs, device_key@),
{
    let specs = generation_specs();
    proof {
        lemma_spec_index_from(specs@, device_key@, 0);
        if device_keys().contains(device_key@) {
            let k = choose|k: int| 0 <= k < device_keys().len() && device_keys()[k] == device_key@;
            assert(specs[k].key@ == device_key@);
        }
    }
    equation_dependencies_in(&specs, device_key)
}

/// The bindings section of the device with key `key` among `specs`; empty for
/// an unknown key.
pub open spec fn binding_examples_in(specs: Seq<DeviceGenerationSpec>, key: Seq<char>) -> Seq<char> {
    let i = spec_index(specs, key);
    if i >= 0 { specs[i].binding_markdown@ } else { Seq::empty() }
}

/// Looks up the bindings section of a device among the given specs.
pub fn binding_examples_in_specs(specs: &Vec<DeviceGenerationSpec>, device_key: &str) -> (res: String)
    ensures
        res@ == binding_examples_in(specs@, device_key@),
{
    match find_device_spec(specs, device_key) {
        Some(i) => String::from_str(specs[i].binding_markdown),
        None => String::new(),
    }
}

/// The bindings section of a device's page; empty for a key that names no device.
pub fn render_binding_examples_for_device(device_key: &str) -> (res: String)
    ensures
        !device_keys().contains(device_key@) ==> res@.len() == 0,
        exists|specs: Seq<DeviceGenerationSpec>| device_specs_are(specs) && specs.len() == device_keys().len()
            && (forall|i: int| 0 <= i < specs.len() ==> (#[trigger] specs[i]).key@ == device_keys()[i])
            && res@ == binding_examples_in(specs, device_key@),
{
    let specs = generation_specs();
    proof {
        lemma_spec_index_from(specs@, device_key@, 0);
    }
    binding_examples_in_specs(&specs, device_key)
}

// ---------------------------------------------------------------------------
// The devices guide
// ---------------------------------------------------------------------------

/// `- item` and a newline for each item.
pub open spec fn bullets(items: Seq<Seq<char>>) -> Seq<char> {
    concat_seq(items.map_values(|t: Seq<char>| "- "@ + t + "\n"@))
}

fn push_bullets(md: &mut String, items: &Vec<&'static str>)
    ensures
        final(md)@ == old(md)@ + bullets(texts(items@)),
{
    let ghost start = md@;
    let mut i: usize = 0;
    while i < items.len()
        invariant
            i <= items@.len(),
            md@ == start + bullets(texts(items@.subrange(0, i as int))),
        decreases items@.len() - i,
    {
        push_str(md, "- ");
        push_str(md, items[i]);
        push_str(md, "\n");
        proof {
            let t = texts(items@.subrange(0, i + 1)).map_values(|t: Seq<char>| "- "@ + t + "\n"@);
            assert(t.drop_last() =~= texts(items@.subrange(0, i as int)).map_values(|t: Seq<char>| "- "@ + t + "\n"@));
            assert(md@ =~= start + bullets(texts(items@.subrange(0, i + 1))));
        }
        i = i + 1;
    }
    assert(items@.subrange(0, items@.len() as int) =~= items@);
}

/// The section of one device in the devices guide.
pub open spec fn guide_section(s: DeviceGenerationSpec) -> Seq<char> {
    "## "@ + s.name@ + "\n\n"@ + "- Key: `"@ + s.key@ + "`\n"@ + "- "@ + s.summary@ + "\n"@ + "- Route: `"@ + s.route@
        + "`\n"@ + bullets(texts(s.supported_modes@)) + "\n"@
}

/// The devices guide over the given specs: an introduction, one section per
/// device, then the pipe-loss examples.
pub open spec fn devices_guide_text(specs: Seq<DeviceGenerationSpec>, sn: DocSnippets) -> Seq<char> {
    "# Devices Guide\n\n"@
        + "Devices/components compose multiple atomic equations into higher-level engineering workflows. Device docs and bindings are generated from typed Rust metadata specs.\n\n"@
        + concat_seq(specs.map_values(|s: DeviceGenerationSpec| guide_section(s)))
        + "## Fixed-f Mode\n\n```rust\n"@ + trim_seq(sn.device_pipe_loss_fixed@) + "\n```\n\n"@
        + "## Colebrook Mode (direct properties)\n\n```rust\n"@ + trim_seq(sn.device_pipe_loss_colebrook_direct@) + "\n```\n\n"@
        + "## Colebrook Mode (fluid context)\n\n```rust\n"@ + trim_seq(sn.device_pipe_loss_colebrook_fluid@) + "\n```\n\n"@
        + "See [Devices Index](./index.md) for full generated device pages.\n"@
}

fn render_guide_section(s: &DeviceGenerationSpec) -> (res: String)
    ensures
        res@ == guide_section(*s),
{
    let mut md = String::from_str("## ");
    push_str(&mut md, s.name);
    push_str(&mut md, "\n\n");
    push_str(&mut md, "- Key: `");
    push_str(&mut md, s.key);
    push_str(&mut md, "`\n");
    push_str(&mut md, "- ");
    push_str(&mut md, s.summary);
    push_str(&mut md, "\n");
    push_str(&mut md, "- Route: `");
    push_str(&mut md, s.route);
    push_str(&mut md, "`\n");
    push_bullets(&mut md, &s.supported_modes);
    push_str(&mut md, "\n");
    md
}

/// Renders the devices guide over the given specs.
pub fn render_devices_guide_from(specs: &Vec<DeviceGenerationSpec>, snippets: &DocSnippets) -> (res: String)
    ensures
        res@ == devices_guide_text(specs@, *snippets),
{
    let mut md = String::from_str("# Devices Guide\n\n");
    push_str(
        &mut md,
        "Devices/components compose multiple atomic equations into higher-level engineering workflows. Device docs and bindings are generated from typed Rust metadata specs.\n\n",
    );
    let ghost start = md@;
    let mut i: usize = 0;
    while i < specs.len()
        invariant
            i <= specs@.len(),
            md@ == start + concat_seq(specs@.subrange(0, i as int).map_values(|s: DeviceGenerationSpec| guide_section(s))),
        decreases specs@.len() - i,
    {
        let s = &specs[i];
        let ghost before = md@;
        let section = render_guide_section(s);
        push_str(&mut md, section.as_str());
        proof {
            assert(md@ =~= before + guide_section(*s));
            let t = specs@.subrange(0, i + 1).map_values(|s: DeviceGenerationSpec| guide_section(s));
            assert(t.drop_last() =~= specs@.subrange(0, i as int).map_values(|s: DeviceGenerationSpec| guide_section(s)));
        }
        i = i + 1;
    }
    assert(specs@.subrange(0, specs@.len() as int) =~= specs@);
    push_str(&mut md, "## Fixed-f Mode\n\n```rust\n");
    push_str(&mut md, trim_str(snippets.device_pipe_loss_fixed.as_str()));
    push_str(&mut md, "\n```\n\n");
    push_str(&mut md, "## Colebrook Mode (direct properties)\n\n```rust\n");
    push_str(&mut md, trim_str(snippets.device_pipe_loss_colebrook_direct.as_str()));
    push_str(&mut md, "\n```\n\n");
    push_str(&mut md, "## Colebrook Mode (fluid context)\n\n```rust\n");
    push_str(&mut md, trim_str(snippets.device_pipe_loss_colebrook_fluid.as_str()));
    push_str(&mut md, "\n```\n\n");
    push_str(&mut md, "See [Devices Index](./index.md) for full generated device pages.\n");
    md
}

/// Renders the devices guide over every device.
pub fn render_devices_guide(snippets: &DocSnippets) -> (res: String)
    ensures
        exists|specs: Seq<DeviceGenerationSpec>| device_specs_are(specs) && specs.len() == device_keys().len()
            && (forall|i: int| 0 <= i < specs.len() ==> (#[trigger] specs[i]).key@ == device_keys()[i])
            && res@ == devices_guide_text(specs, *snippets),
{
    let specs = generation_specs();
    render_devices_guide_from(&specs, snippets)
}

// ---------------------------------------------------------------------------
// One page per device
// ---------------------------------------------------------------------------

/// The link to an equation's page: its human name and its path with dots as
/// directory separators.
pub open spec fn dependency_line(dep: Seq<char>) -> Seq<char> {
    "- ["@ + humanize_path_id_of(dep) + "](../equations/"@ + map_char(dep, '.', '/') + ".md)\n"@
}

/// The page of a device: title, key, summary, overview, modes, outputs, the
/// equations it is built from, and its bindings section.
pub open spec fn device_page_text(d: DeviceDocsEntry, s: DeviceGenerationSpec) -> Seq<char> {
    "# "@ + d.name@ + "\n\n"@ + "**Key:** `"@ + d.key@ + "`\n\n"@ + d.summary@ + "\n\n"@ + s.overview_markdown@ + "\n"@
        + "## Modes\n\n"@ + bullets(views(d.supported_modes@)) + "\n## Outputs\n\n"@ + bullets(views(d.outputs@))
        + "## Internal Composition\n\n"@
        + concat_seq(texts(s.equation_dependencies@).map_values(|dep: Seq<char>| dependency_line(dep))) + "\n"@
        + s.binding_markdown@
}

fn push_string_bullets(md: &mut String, items: &Vec<String>)
    ensures
        final(md)@ == old(md)@ + bullets(views(items@)),
{
    let ghost start = md@;
    let mut i: usize = 0;
    while i < items.len()
        invariant
            i <= items@.len(),
            md@ == start + bullets(views(items@.subrange(0, i as int))),
        decreases items@.len() - i,
    {
        push_str(md, "- ");
        push_str(md, items[i].as_str());
        push_str(md, "\n");
        proof {
            let t = views(items@.subrange(0, i + 1)).map_values(|t: Seq<char>| "- "@ + t + "\n"@);
            assert(t.drop_last() =~= views(items@.subrange(0, i as int)).map_values(|t: Seq<char>| "- "@ + t + "\n"@));
            assert(md@ =~= start + bullets(views(items@.subrange(0, i + 1))));
        }
        i = i + 1;
    }
    assert(items@.subrange(0, items@.len() as int) =~= items@);
}

/// Renders the page of a documented device, given the spec with its key.
pub fn render_device_page_from(specs: &Vec<DeviceGenerationSpec>, d: &DeviceDocsEntry) -> (res: String)
    requires
        spec_index(specs@, d.key@) >= 0,
    ensures
        res@ == device_page_text(*d, specs@[spec_index(specs@, d.key@)]),
{
    let k = match find_device_spec(specs, d.key.as_str()) {
        Some(k) => k,
        None => {
            assert(false);
            0
        },
    };
    let s = &specs[k];
    let mut md = String::from_str("# ");
    push_str(&mut md, d.name.as_str());
    push_str(&mut md, "\n\n");
    push_str(&mut md, "**Key:** `");
    push_str(&mut md, d.key.as_str());
    push_str(&mut md, "`\n\n");
    push_str(&mut md, d.summary.as_str());
    push_str(&mut md, "\n\n");
    push_str(&mut md, s.overview_markdown);
    push_str(&mut md, "\n");
    push_str(&mut md, "## Modes\n\n");
    push_string_bullets(&mut md, &d.supported_modes);
    push_str(&mut md, "\n## Outputs\n\n");
    push_string_bullets(&mut md, &d.outputs);
    push_str(&mut md, "## Internal Composition\n\n");
    let ghost start = md@;
    let deps = &s.equation_dependencies;
    let mut i: usize = 0;
    while i < deps.len()
        invariant
            i <= deps@.len(),
            md@ == start + concat_seq(texts(deps@.subrange(0, i as int)).map_values(|dep: Seq<char>| dependency_line(dep))),
        decreases deps@.len() - i,
    {
        let dep = deps[i];
        let ghost before = md@;
        push_str(&mut md, "- [");
        let human = humanize_path_id(dep);
        push_str(&mut md, human.as_str());
        push_str(&mut md, "](../equations/");
        let path = replace_char(dep, '.', '/');
        push_str(&mut md, path.as_str());
        push_str(&mut md, ".md)\n");
        proof {
            assert(md@ =~= before + dependency_line(dep@));
            let t = texts(deps@.subrange(0, i + 1)).map_values(|dep: Seq<char>| dependency_line(dep));
            assert(t.drop_last() =~= texts(deps@.subrange(0, i as int)).map_values(|dep: Seq<char>| dependency_line(dep)));
        }
        i = i + 1;
    }
    assert(deps@.subrange(0, deps@.len() as int) =~= deps@);
    push_str(&mut md, "\n");
    let examples = binding_examples_in_specs(specs, d.key.as_str());
    push_str(&mut md, examples.as_str());
    md
}

/// Renders the page of a device, for an entry whose key names a device.
pub fn render_device_page(d: &DeviceDocsEntry) -> (res: String)
    requires
        device_keys().contains(d.key@),
    ensures
        exists|specs: Seq<DeviceGenerationSpec>| device_specs_are(specs) && specs.len() == device_keys().len()
            && (forall|i: int| 0 <= i < specs.len() ==> (#[trigger] specs[i]).key@ == device_keys()[i])
            && spec_index(specs, d.key@) >= 0
            && res@ == device_page_text(*d, specs[spec_index(specs, d.key@)]),
{
    let specs = generation_specs();
    proof {
        lemma_spec_index_from(specs@, d.key@, 0);
        let k = choose|k: int| 0 <= k < device_keys().len() && device_keys()[k] == d.key@;
        assert(specs[k].key@ == d.key@);
    }
    render_device_page_from(&specs, d)
}

} // verus!
