//! The decisions of the invoke handlers that read catalog metadata: which
//! entity and field a `meta.get` request names, how entries are found by key or
//! alias, which family variant an equation is, how `format.value` renders, and
//! the refusals each of them answers with.
use vstd::prelude::*;
use crate::devices::DeviceDocsEntry;
use crate::docs::binding_manifest::{FamilyDoc, FamilyVariantDoc};
use crate::docs::catalog_pages::{FluidPage, MaterialPage};
use crate::invoke::InvokeRefusal;
use crate::strings::{copy_strings, push_str, views};
use crate::text::{ascii_lowercase, lower_seq, str_eq};

verus! {

// ---------------------------------------------------------------------------
// Entities and fields of `meta.get`
// ---------------------------------------------------------------------------

/// The kinds of catalog entry `meta.get` reads.
#[derive(Debug, Clone, Copy, PartialEq, Eq, Structural)]
pub enum MetaEntity {
    Equation,
    Constant,
    Fluid,
    Material,
    Device,
}

/// The name of an entity kind, as requests write it.
pub open spec fn meta_entity_name(e: MetaEntity) -> Seq<char> {
    match e {
        MetaEntity::Equation => "equation"@,
        MetaEntity::Constant => "constant"@,
        MetaEntity::Fluid => "fluid"@,
        MetaEntity::Material => "material"@,
        MetaEntity::Device => "device"@,
    }
}

/// The entity kind a (lower-cased) name stands for.
pub open spec fn meta_entity_of(s: Seq<char>) -> Option<MetaEntity> {
    if s == "equation"@ {
        Some(MetaEntity::Equation)
    } else if s == "constant"@ {
        Some(MetaEntity::Constant)
    } else if s == "fluid"@ {
        Some(MetaEntity::Fluid)
    } else if s == "material"@ {
        Some(MetaEntity::Material)
    } else if s == "device"@ {
        Some(MetaEntity::Device)
    } else {
        None
    }
}

impl MetaEntity {
    /// The name of the entity kind.
    pub fn name(&self) -> (res: &'static str)
        ensures
            res@ == meta_entity_name(*self),
    {
        match self {
            MetaEntity::Equation => "equation",
            MetaEntity::Constant => "constant",
            MetaEntity::Fluid => "fluid",
            MetaEntity::Material => "material",
            MetaEntity::Device => "device",
        }
    }
}

/// Each entity kind is read back from its own name.
pub proof fn meta_entity_name_round_trip(e: MetaEntity)
    ensures
        meta_entity_of(lower_seq(meta_entity_name(e))) == Some(e),
{
    reveal_strlit("equation");
    reveal_strlit("constant");
    reveal_strlit("fluid");
    reveal_strlit("material");
    reveal_strlit("device");
    let n = meta_entity_name(e);
    assert(lower_seq(n) =~= n);
    assert("constant"@[0] != "equation"@[0]);
    assert("material"@[0] != "equation"@[0]);
    assert("material"@[0] != "constant"@[0]);
    assert("fluid"@.len() != "equation"@.len());
    assert("device"@.len() != "equation"@.len());
    assert("device"@.len() != "fluid"@.len());
}

/// Reads the entity kind of a request, in any letter case.
pub fn parse_meta_entity(raw: &str) -> (res: Option<MetaEntity>)
    ensures
        res == meta_entity_of(lower_seq(raw@)),
{
    let s = ascii_lowercase(raw);
    let s = s.as_str();
    if str_eq(s, "equation") {
        Some(MetaEntity::Equation)
    } else if str_eq(s, "constant") {
        Some(MetaEntity::Constant)
    } else if str_eq(s, "fluid") {
        Some(MetaEntity::Fluid)
    } else if str_eq(s, "material") {
        Some(MetaEntity::Material)
    } else if str_eq(s, "device") {
        Some(MetaEntity::Device)
    } else {
        None
    }
}

/// The fields `meta.get` can read.
#[derive(Debug, Clone, Copy, PartialEq, Eq, Structural)]
pub enum MetaField {
    Name,
    Ascii,
    Unicode,
    Latex,
    Description,
    Variables,
    Targets,
    Value,
    Unit,
    SymbolAscii,
    SymbolUnicode,
    SymbolLatex,
    Aliases,
    SupportedProperties,
    SupportedStateInputs,
    Properties,
    Source,
    Summary,
    SupportedModes,
    Outputs,
}

/// The name of a field, as requests write it.
pub open spec fn meta_field_name(f: MetaField) -> Seq<char> {
    match f {
        MetaField::Name => "name"@,
        MetaField::Ascii => "ascii"@,
        MetaField::Unicode => "unicode"@,
        MetaField::Latex => "latex"@,
        MetaField::Description => "description"@,
        MetaField::Variables => "variables"@,
        MetaField::Targets => "targets"@,
        MetaField::Value => "value"@,
        MetaField::Unit => "unit"@,
        MetaField::SymbolAscii => "symbol_ascii"@,
        MetaField::SymbolUnicode => "symbol_unicode"@,
        MetaField::SymbolLatex => "symbol_latex"@,
        MetaField::Aliases => "aliases"@,
        MetaField::SupportedProperties => "supported_properties"@,
        MetaField::SupportedStateInputs => "supported_state_inputs"@,
        MetaField::Properties => "properties"@,
        MetaField::Source => "source"@,
        MetaField::Summary => "summary"@,
        MetaField::SupportedModes => "supported_modes"@,
        MetaField::Outputs => "outputs"@,
    }
}

/// The fields each entity kind offers, in the order requests list them.
pub open spec fn entity_fields(e: MetaEntity) -> Seq<MetaField> {
    match e {
        MetaEntity::Equation => seq![
            MetaField::Name,
            MetaField::Ascii,
            MetaField::Unicode,
            MetaField::Latex,
            MetaField::Description,
            MetaField::Variables,
            MetaField::Targets,
        ],
        MetaEntity::Constant => seq![
            MetaField::Name,
            MetaField::Value,
            MetaField::Unit,
            MetaField::SymbolAscii,
            MetaField::SymbolUnicode,
            MetaField::SymbolLatex,
        ],
        MetaEntity::Fluid => seq![
            MetaField::Name,
            MetaField::Aliases,
            MetaField::SupportedProperties,
            MetaField::SupportedStateInputs,
        ],
        MetaEntity::Material => seq![
            MetaField::Name,
            MetaField::Aliases,
            MetaField::Properties,
            MetaField::Source,
            MetaField::Description,
        ],
        MetaEntity::Device => seq![MetaField::Name, MetaField::Summary, MetaField::SupportedModes, MetaField::Outputs],
    }
}

/// The field of entity kind `e` that a (lower-cased) name stands for: the
/// first of the kind's fields with that name.
pub open spec fn field_in(fields: Seq<MetaField>, s: Seq<char>) -> Option<MetaField>
    decreases fields.len(),
{
    if fields.len() == 0 {
        None
    } else if meta_field_name(fields[0]) == s {
        Some(fields[0])
    } else {
        field_in(fields.drop_first(), s)
    }
}

pub open spec fn meta_field_of(e: MetaEntity, s: Seq<char>) -> Option<MetaField> {
    field_in(entity_fields(e), s)
}

impl MetaField {
    /// The name of the field.
    pub fn name(&self) -> (res: &'static str)
        ensures
            res@ == meta_field_name(*self),
    {
        match self {
            MetaField::Name => "name",
            MetaField::Ascii => "ascii",
            MetaField::Unicode => "unicode",
            MetaField::Latex => "latex",
            MetaField::Description => "description",
            MetaField::Variables => "variables",
            MetaField::Targets => "targets",
            MetaField::Value => "value",
            MetaField::Unit => "unit",
            MetaField::SymbolAscii => "symbol_ascii",
            MetaField::SymbolUnicode => "symbol_unicode",
            MetaField::SymbolLatex => "symbol_latex",
            MetaField::Aliases => "aliases",
            MetaField::SupportedProperties => "supported_properties",
            MetaField::SupportedStateInputs => "supported_state_inputs",
            MetaField::Properties => "properties",
            MetaField::Source => "source",
            MetaField::Summary => "summary",
            MetaField::SupportedModes => "supported_modes",
            MetaField::Outputs => "outputs",
        }
    }
}

fn entity_field_list(e: MetaEntity) -> (res: Vec<MetaField>)
    ensures
        res@ == entity_fields(e),
{
    let v = match e {
        MetaEntity::Equation => vec![
            MetaField::Name,
            MetaField::Ascii,
            MetaField::Unicode,
            MetaField::Latex,
            MetaField::Description,
            MetaField::Variables,
            MetaField::Targets,
        ],
        MetaEntity::Constant => vec![
            MetaField::Name,
            MetaField::Value,
            MetaField::Unit,
            MetaField::SymbolAscii,
            MetaField::SymbolUnicode,
            MetaField::SymbolLatex,
        ],
        MetaEntity::Fluid => vec![
            MetaField::Name,
            MetaField::Aliases,
            MetaField::SupportedProperties,
            MetaField::SupportedStateInputs,
        ],
        MetaEntity::Material => vec![
            MetaField::Name,
            MetaField::Aliases,
            MetaField::Properties,
            MetaField::Source,
            MetaField::Description,
        ],
        MetaEntity::Device => vec![MetaField::Name, MetaField::Summary, MetaField::SupportedModes, MetaField::Outputs],
    };
    assert(v@ =~= entity_fields(e));
    v
}

/// Reads the field a request names for an entity kind, in any letter case.
pub fn parse_meta_field(e: MetaEntity, raw: &str) -> (res: Option<MetaField>)
    ensures
        res == meta_field_of(e, lower_seq(raw@)),
{
    let s = ascii_lowercase(raw);
    let fields = entity_field_list(e);
    let mut i: usize = 0;
    assert(fields@.subrange(0, fields@.len() as int) =~= fields@);
    while i < fields.len()
        invariant
            fields@ == entity_fields(e),
            s@ == lower_seq(raw@),
            i <= fields@.len(),
            meta_field_of(e, s@) == field_in(fields@.subrange(i as int, fields@.len() as int), s@),
        decreases fields.len() - i,
    {
        let f = fields[i];
        let ghost rest = fields@.subrange(i as int, fields@.len() as int);
        assert(rest[0] == f);
        if str_eq(f.name(), s.as_str()) {
            assert(meta_field_name(rest[0]) == s@);
            assert(rest.len() > 0);
            assert(field_in(rest, s@) == Some(rest[0]));
            return Some(f);
        }
        assert(rest.drop_first() =~= fields@.subrange(i + 1, fields@.len() as int));
        i = i + 1;
    }
    None
}

// ---------------------------------------------------------------------------
// Refusals
// ---------------------------------------------------------------------------

/// `missing string arg '<key>'`, or `missing numeric arg '<key>'`.
pub open spec fn missing_arg_text(key: Seq<char>, numeric: bool) -> Seq<char> {
    (if numeric {
        "missing numeric arg '"@
    } else {
        "missing string arg '"@
    }) + key + "'"@
}

/// The refusal of a request that lacks an argument: it names the argument.
pub fn missing_arg_refusal(key: &'static str, numeric: bool) -> (r: InvokeRefusal)
    ensures
        r.code@ == "missing_arg"@,
        r.field@ == key@,
        r.message@ == missing_arg_text(key@, numeric),
{
    let mut m = String::from_str(if numeric {
        "missing numeric arg '"
    } else {
        "missing string arg '"
    });
    push_str(&mut m, key);
    push_str(&mut m, "'");
    InvokeRefusal { code: "missing_arg", field: key, message: m }
}

/// The refusal of an entity kind `meta.get` does not know.
pub fn unknown_entity_refusal(entity: &str) -> (r: InvokeRefusal)
    ensures
        r.code@ == "unknown_meta_entity"@,
        r.field@ == "entity"@,
        r.message@ == "unsupported metadata entity '"@ + entity@ + "'"@,
{
    let mut m = String::from_str("unsupported metadata entity '");
    push_str(&mut m, entity);
    push_str(&mut m, "'");
    InvokeRefusal { code: "unknown_meta_entity", field: "entity", message: m }
}

/// The refusal of a field the entity kind does not offer.
pub fn unknown_field_refusal(e: MetaEntity, field: &str) -> (r: InvokeRefusal)
    ensures
        r.code@ == "unknown_meta_field"@,
        r.field@ == "field"@,
        r.message@ == "unsupported "@ + meta_entity_name(e) + " field '"@ + field@ + "'"@,
{
    let mut m = String::from_str("unsupported ");
    push_str(&mut m, e.name());
    push_str(&mut m, " field '");
    push_str(&mut m, field);
    push_str(&mut m, "'");
    InvokeRefusal { code: "unknown_meta_field", field: "field", message: m }
}

/// The error code of a key that names no entry of the kind.
pub open spec fn unknown_entry_code(e: MetaEntity) -> Seq<char> {
    match e {
        MetaEntity::Equation => "unknown_equation"@,
        MetaEntity::Constant => "unknown_constant"@,
        MetaEntity::Fluid => "unknown_fluid"@,
        MetaEntity::Material => "unknown_material"@,
        MetaEntity::Device => "unknown_device"@,
    }
}

/// The refusal of a key that names no entry: an equation's carries the
/// lookup's own message, the others `unknown <kind> '<key>'`.
pub fn unknown_entry_refusal(e: MetaEntity, key: &str, lookup_message: &str) -> (r: InvokeRefusal)
    ensures
        r.code@ == unknown_entry_code(e),
        r.field@ == "key"@,
        r.message@ == if e == MetaEntity::Equation {
            lookup_message@
        } else {
            "unknown "@ + meta_entity_name(e) + " '"@ + key@ + "'"@
        },
{
    let code = match e {
        MetaEntity::Equation => "unknown_equation",
        MetaEntity::Constant => "unknown_constant",
        MetaEntity::Fluid => "unknown_fluid",
        MetaEntity::Material => "unknown_material",
        MetaEntity::Device => "unknown_device",
    };
    let message = match e {
        MetaEntity::Equation => String::from_str(lookup_message),
        _ => {
            let mut m = String::from_str("unknown ");
            push_str(&mut m, e.name());
            push_str(&mut m, " '");
            push_str(&mut m, key);
            push_str(&mut m, "'");
            m
        },
    };
    InvokeRefusal { code, field: "key", message }
}

// ---------------------------------------------------------------------------
// Finding entries
// ---------------------------------------------------------------------------

/// Two names are the same up to ASCII letter case.
pub open spec fn same_name(a: Seq<char>, b: Seq<char>) -> bool {
    lower_seq(a) == lower_seq(b)
}

/// An entry is named by `q` when its key or one of its aliases is, up to ASCII
/// letter case.
pub open spec fn names_entry(key: Seq<char>, aliases: Seq<String>, q: Seq<char>) -> bool {
    same_name(key, q) || exists|j: int| 0 <= j < aliases.len() && same_name(#[trigger] aliases[j]@, q)
}

/// A catalog entry as lookups see it: its key and its aliases.
#[derive(Debug, Clone)]
pub struct NamedEntry {
    pub key: String,
    pub aliases: Vec<String>,
}

fn same_name_exec(a: &str, b: &str) -> (res: bool)
    ensures
        res == same_name(a@, b@),
{
    let x = ascii_lowercase(a);
    let y = ascii_lowercase(b);
    str_eq(x.as_str(), y.as_str())
}

fn names_entry_exec(e: &NamedEntry, q: &str) -> (res: bool)
    ensures
        res == names_entry(e.key@, e.aliases@, q@),
{
    if same_name_exec(e.key.as_str(), q) {
        return true;
    }
    let mut j: usize = 0;
    while j < e.aliases.len()
        invariant
            j <= e.aliases@.len(),
            forall|k: int| 0 <= k < j ==> !same_name(#[trigger] e.aliases@[k]@, q@),
        decreases e.aliases.len() - j,
    {
        if same_name_exec(e.aliases[j].as_str(), q) {
            return true;
        }
        j = j + 1;
    }
    false
}

/// The first entry that `q` names, by key or alias, in any letter case.
pub fn find_named_entry(entries: &Vec<NamedEntry>, q: &str) -> (res: Option<usize>)
    ensures
        res is None ==> forall|i: int| 0 <= i < entries@.len() ==> !names_entry(
            #[trigger] entries@[i].key@,
            entries@[i].aliases@,
            q@,
        ),
        res matches Some(i) ==> i < entries@.len() && names_entry(entries@[i as int].key@, entries@[i as int].aliases@, q@)
            && forall|k: int| 0 <= k < i ==> !names_entry(#[trigger] entries@[k].key@, entries@[k].aliases@, q@),
{
    let mut i: usize = 0;
    while i < entries.len()
        invariant
            i <= entries@.len(),
            forall|k: int| 0 <= k < i ==> !names_entry(#[trigger] entries@[k].key@, entries@[k].aliases@, q@),
        decreases entries.len() - i,
    {
        if names_entry_exec(&entries[i], q) {
            return Some(i);
        }
        i = i + 1;
    }
    None
}

// ---------------------------------------------------------------------------
// Families
// ---------------------------------------------------------------------------

/// Family `i`'s variant `j` stands for equation `path_id`, and no earlier
/// variant of an earlier or the same family does.
pub open spec fn is_first_variant_for(fs: Seq<FamilyDoc>, path_id: Seq<char>, i: int, j: int) -> bool {
    &&& 0 <= i < fs.len()
    &&& 0 <= j < fs[i].variants@.len()
    &&& fs[i].variants@[j].equation_id@ == path_id
    &&& forall|a: int, b: int|
        0 <= a < fs.len() && 0 <= b < fs[a].variants@.len() && (a < i || (a == i && b < j)) ==> (
        #[trigger] fs[a].variants@[b]).equation_id@ != path_id
}

/// The family variant an equation is: the first variant, in family order,
/// whose equation it is.
pub fn family_variant_of(families: &Vec<FamilyDoc>, path_id: &str) -> (res: Option<(usize, usize)>)
    ensures
        res matches Some((i, j)) ==> is_first_variant_for(families@, path_id@, i as int, j as int),
        res is None ==> forall|a: int, b: int|
            0 <= a < families@.len() && 0 <= b < families@[a].variants@.len() ==> (
            #[trigger] families@[a].variants@[b]).equation_id@ != path_id@,
{
    let mut i: usize = 0;
    while i < families.len()
        invariant
            i <= families@.len(),
            forall|a: int, b: int|
                0 <= a < i && 0 <= b < families@[a].variants@.len() ==> (
                #[trigger] families@[a].variants@[b]).equation_id@ != path_id@,
        decreases families.len() - i,
    {
        let vs = &families[i].variants;
        let mut j: usize = 0;
        while j < vs.len()
            invariant
                i < families@.len(),
                vs@ == families@[i as int].variants@,
                j <= vs@.len(),
                forall|a: int, b: int|
                    0 <= a < i && 0 <= b < families@[a].variants@.len() ==> (
                    #[trigger] families@[a].variants@[b]).equation_id@ != path_id@,
                forall|b: int| 0 <= b < j ==> (#[trigger] vs@[b]).equation_id@ != path_id@,
            decreases vs.len() - j,
        {
            if str_eq(vs[j].equation_id.as_str(), path_id) {
                proof {
                    assert forall|a: int, b: int|
                        0 <= a < families@.len() && 0 <= b < families@[a].variants@.len() && (a < i || (a == i
                            && b < j)) implies (#[trigger] families@[a].variants@[b]).equation_id@ != path_id@ by {
                        if a == i {
                            assert(families@[a].variants@[b] == vs@[b]);
                        }
                    }
                }
                return Some((i, j));
            }
            j = j + 1;
        }
        proof {
            assert forall|a: int, b: int|
                0 <= a < i + 1 && 0 <= b < families@[a].variants@.len() implies (
                #[trigger] families@[a].variants@[b]).equation_id@ != path_id@ by {
                if a == i {
                    assert(families@[a].variants@[b] == vs@[b]);
                }
            }
        }
        i = i + 1;
    }
    None
}

// ---------------------------------------------------------------------------
// `format.value`
// ---------------------------------------------------------------------------

/// How `format.value` answers: the converted number, or it with its unit.
#[derive(Debug, Clone, Copy, PartialEq, Eq, Structural)]
pub enum FormatMode {
    Value,
    Text,
}

/// The mode a request names: `value` when it names none, in any letter case.
pub open spec fn format_mode_of(mode: Option<Seq<char>>) -> Option<FormatMode> {
    let m = match mode {
        Some(s) => lower_seq(s),
        None => "value"@,
    };
    if m == "value"@ {
        Some(FormatMode::Value)
    } else if m == "text"@ {
        Some(FormatMode::Text)
    } else {
        None
    }
}

/// Reads the mode of a `format.value` request; a mode other than `value` or
/// `text` is refused, naming the argument `mode`.
pub fn parse_format_mode(mode: Option<&str>) -> (res: Result<FormatMode, InvokeRefusal>)
    ensures
        res matches Ok(m) ==> format_mode_of(match mode {
            Some(s) => Some(s@),
            None => None,
        }) == Some(m),
        res matches Err(r) ==> format_mode_of(match mode {
            Some(s) => Some(s@),
            None => None,
        }) is None && r.code@ == "invalid_arg_value"@ && r.field@ == "mode"@ && r.message@ == "unsupported mode '"@
            + lower_seq(mode.unwrap()@) + "' (use 'value' or 'text')"@,
{
    let m = match mode {
        Some(s) => ascii_lowercase(s),
        None => String::from_str("value"),
    };
    if str_eq(m.as_str(), "value") {
        Ok(FormatMode::Value)
    } else if str_eq(m.as_str(), "text") {
        Ok(FormatMode::Text)
    } else {
        let mut msg = String::from_str("unsupported mode '");
        push_str(&mut msg, m.as_str());
        push_str(&mut msg, "' (use 'value' or 'text')");
        Err(InvokeRefusal { code: "invalid_arg_value", field: "mode", message: msg })
    }
}

// ---------------------------------------------------------------------------
// Reading a field of a device, fluid or material
// ---------------------------------------------------------------------------

/// What `meta.get` answers with: a text, or a list of texts.
#[derive(Debug, Clone)]
pub enum MetaValue {
    Text(String),
    List(Vec<String>),
}

/// A value with its texts as characters.
pub enum MetaValueView {
    Text(Seq<char>),
    List(Seq<Seq<char>>),
}

pub open spec fn meta_value_view(v: MetaValue) -> MetaValueView {
    match v {
        MetaValue::Text(s) => MetaValueView::Text(s@),
        MetaValue::List(l) => MetaValueView::List(views(l@)),
    }
}

/// A refusal as characters: its code, the argument it names, its message.
pub open spec fn refusal_view(r: InvokeRefusal) -> (Seq<char>, Seq<char>, Seq<char>) {
    (r.code@, r.field@, r.message@)
}

pub open spec fn answer_view(res: Result<MetaValue, InvokeRefusal>) -> Result<MetaValueView, (Seq<char>, Seq<char>, Seq<char>)> {
    match res {
        Ok(v) => Ok(meta_value_view(v)),
        Err(r) => Err(refusal_view(r)),
    }
}

/// Entry `i` is the first that `q` names, by key or alias.
pub open spec fn first_named(keys: Seq<Seq<char>>, aliases: Seq<Seq<String>>, q: Seq<char>, i: int) -> bool {
    &&& 0 <= i < keys.len()
    &&& names_entry(keys[i], aliases[i], q)
    &&& forall|k: int| 0 <= k < i ==> !names_entry(#[trigger] keys[k], aliases[k], q)
}

/// Only one entry is the first that `q` names.
pub proof fn lemma_first_named_unique(keys: Seq<Seq<char>>, aliases: Seq<Seq<String>>, q: Seq<char>, i: int, j: int)
    requires
        first_named(keys, aliases, q, i),
        first_named(keys, aliases, q, j),
    ensures
        i == j,
{
    if i < j {
        assert(!names_entry(keys[i], aliases[i], q));
    } else if j < i {
        assert(!names_entry(keys[j], aliases[j], q));
    }
}

/// What `meta.get` answers for entity kind `e`, over entries with these keys
/// and aliases, where `value(i, f)` is field `f` of entry `i` when the entry
/// has it: the field of the first entry the key names; a refusal of the key
/// when it names none; a refusal of the field (as lower-cased) when the kind
/// or the entry does not offer it.
pub open spec fn meta_answer(
    e: MetaEntity,
    keys: Seq<Seq<char>>,
    aliases: Seq<Seq<String>>,
    value: spec_fn(int, MetaField) -> Option<MetaValueView>,
    key: Seq<char>,
    field: Seq<char>,
) -> Result<MetaValueView, (Seq<char>, Seq<char>, Seq<char>)> {
    if exists|i: int| first_named(keys, aliases, key, i) {
        let i = choose|i: int| first_named(keys, aliases, key, i);
        match meta_field_of(e, lower_seq(field)) {
            Some(f) => match value(i, f) {
                Some(v) => Ok(v),
                None => Err(unknown_field_view(e, field)),
            },
            None => Err(unknown_field_view(e, field)),
        }
    } else {
        Err(unknown_key_view(e, key))
    }
}

pub open spec fn unknown_field_view(e: MetaEntity, field: Seq<char>) -> (Seq<char>, Seq<char>, Seq<char>) {
    ("unknown_meta_field"@, "field"@, "unsupported "@ + meta_entity_name(e) + " field '"@ + lower_seq(field) + "'"@)
}

pub open spec fn unknown_key_view(e: MetaEntity, key: Seq<char>) -> (Seq<char>, Seq<char>, Seq<char>) {
    (unknown_entry_code(e), "key"@, "unknown "@ + meta_entity_name(e) + " '"@ + key + "'"@)
}

/// A device's name, summary, modes and outputs.
pub open spec fn device_field(d: DeviceDocsEntry, f: MetaField) -> Option<MetaValueView> {
    match f {
        MetaField::Name => Some(MetaValueView::Text(d.name@)),
        MetaField::Summary => Some(MetaValueView::Text(d.summary@)),
        MetaField::SupportedModes => Some(MetaValueView::List(views(d.supported_modes@))),
        MetaField::Outputs => Some(MetaValueView::List(views(d.outputs@))),
        _ => None,
    }
}

/// A fluid's name, aliases, properties and state inputs.
pub open spec fn fluid_field(d: FluidPage, f: MetaField) -> Option<MetaValueView> {
    match f {
        MetaField::Name => Some(MetaValueView::Text(d.name@)),
        MetaField::Aliases => Some(MetaValueView::List(views(d.aliases@))),
        MetaField::SupportedProperties => Some(MetaValueView::List(views(d.supported_properties@))),
        MetaField::SupportedStateInputs => Some(MetaValueView::List(views(d.supported_state_inputs@))),
        _ => None,
    }
}

/// A material's name, aliases, properties, source and description.
pub open spec fn material_field(d: MaterialPage, f: MetaField) -> Option<MetaValueView> {
    match f {
        MetaField::Name => Some(MetaValueView::Text(d.name@)),
        MetaField::Aliases => Some(MetaValueView::List(views(d.aliases@))),
        MetaField::Properties => Some(MetaValueView::List(views(d.properties@))),
        MetaField::Source => Some(MetaValueView::Text(d.source@)),
        MetaField::Description => Some(MetaValueView::Text(d.description@)),
        _ => None,
    }
}

/// Devices are found by key alone.
pub open spec fn no_aliases(n: nat) -> Seq<Seq<String>> {
    Seq::new(n, |i: int| Seq::<String>::empty())
}

pub open spec fn named_keys(ns: Seq<NamedEntry>) -> Seq<Seq<char>> {
    ns.map_values(|n: NamedEntry| n.key@)
}

pub open spec fn named_aliases(ns: Seq<NamedEntry>) -> Seq<Seq<String>> {
    ns.map_values(|n: NamedEntry| n.aliases@)
}

/// Answers with the refusal of the key or of the field, or the found entry's index and field.
fn locate(e: MetaEntity, named: &Vec<NamedEntry>, key: &str, field: &str) -> (res: Result<(usize, MetaField), InvokeRefusal>)
    requires
        e != MetaEntity::Equation,
    ensures
        match res {
            Ok((i, f)) => first_named(named_keys(named@), named_aliases(named@), key@, i as int) && meta_field_of(
                e,
                lower_seq(field@),
            ) == Some(f),
            Err(r) => {
                ||| (forall|i: int| !#[trigger] first_named(named_keys(named@), named_aliases(named@), key@, i))
                    && refusal_view(r) == unknown_key_view(e, key@)
                ||| (exists|i: int| #[trigger] first_named(named_keys(named@), named_aliases(named@), key@, i))
                    && meta_field_of(e, lower_seq(field@)) is None && refusal_view(r) == unknown_field_view(e, field@)
            },
        },
{
    let ghost keys = named_keys(named@);
    let ghost aliases = named_aliases(named@);
    match find_named_entry(named, key) {
        None => {
            assert forall|i: int| !first_named(keys, aliases, key@, i) by {
                if 0 <= i < keys.len() {
                    assert(!names_entry(named@[i].key@, named@[i].aliases@, key@));
                }
            }
            Err(unknown_entry_refusal(e, key, ""))
        },
        Some(i) => {
            assert(first_named(keys, aliases, key@, i as int)) by {
                assert forall|k: int| 0 <= k < i implies !names_entry(#[trigger] keys[k], aliases[k], key@) by {
                    assert(!names_entry(named@[k].key@, named@[k].aliases@, key@));
                }
            }
            match parse_meta_field(e, field) {
                Some(f) => Ok((i, f)),
                None => {
                    let lowered = ascii_lowercase(field);
                    Err(unknown_field_refusal(e, lowered.as_str()))
                },
            }
        },
    }
}

/// Answers `meta.get` for a device: the field of the first device whose key
/// the request names, in any letter case.
pub fn device_meta(entries: &Vec<DeviceDocsEntry>, key: &str, field: &str) -> (res: Result<MetaValue, InvokeRefusal>)
    ensures
        answer_view(res) == meta_answer(
            MetaEntity::Device,
            entries@.map_values(|d: DeviceDocsEntry| d.key@),
            no_aliases(entries@.len()),
            |i: int, f: MetaField| device_field(entries@[i], f),
            key@,
            field@,
        ),
{
    let mut named: Vec<NamedEntry> = Vec::new();
    let mut k: usize = 0;
    while k < entries.len()
        invariant
            k <= entries@.len(),
            named@.len() == k,
            forall|j: int| 0 <= j < k ==> (#[trigger] named@[j]).key@ == entries@[j].key@ && named@[j].aliases@
                == Seq::<String>::empty(),
        decreases entries.len() - k,
    {
        named.push(NamedEntry { key: entries[k].key.clone(), aliases: Vec::new() });
        k = k + 1;
    }
    let ghost keys = entries@.map_values(|d: DeviceDocsEntry| d.key@);
    let ghost aliases = no_aliases(entries@.len());
    assert(named_keys(named@) =~= keys);
    assert(named_aliases(named@) =~= aliases);
    let ghost value = |i: int, f: MetaField| device_field(entries@[i], f);
    match locate(MetaEntity::Device, &named, key, field) {
        Err(r) => Err(r),
        Ok((i, f)) => {
            proof {
                let j = choose|j: int| first_named(keys, aliases, key@, j);
                lemma_first_named_unique(keys, aliases, key@, i as int, j);
            }
            let d = &entries[i];
            match f {
                MetaField::Name => Ok(MetaValue::Text(d.name.clone())),
                MetaField::Summary => Ok(MetaValue::Text(d.summary.clone())),
                MetaField::SupportedModes => Ok(MetaValue::List(copy_strings(&d.supported_modes))),
                MetaField::Outputs => Ok(MetaValue::List(copy_strings(&d.outputs))),
                _ => Err(unknown_field_refusal(MetaEntity::Device, ascii_lowercase(field).as_str())),
            }
        },
    }
}

fn named_with_aliases(keys: &Vec<&String>, aliases: &Vec<&Vec<String>>) -> (res: Vec<NamedEntry>)
    requires
        keys@.len() == aliases@.len(),
    ensures
        named_keys(res@) == keys@.map_values(|k: &String| k@),
        named_aliases(res@) == aliases@.map_values(|a: &Vec<String>| a@),
{
    let mut named: Vec<NamedEntry> = Vec::new();
    let mut k: usize = 0;
    while k < keys.len()
        invariant
            keys@.len() == aliases@.len(),
            k <= keys@.len(),
            named@.len() == k,
            forall|j: int| 0 <= j < k ==> (#[trigger] named@[j]).key@ == keys@[j]@ && named@[j].aliases@ == aliases@[j]@,
        decreases keys.len() - k,
    {
        named.push(NamedEntry { key: keys[k].clone(), aliases: copy_strings(aliases[k]) });
        k = k + 1;
    }
    assert(named_keys(named@) =~= keys@.map_values(|k: &String| k@));
    assert(named_aliases(named@) =~= aliases@.map_values(|a: &Vec<String>| a@));
    named
}

/// Answers `meta.get` for a fluid: the field of the first fluid whose key or
/// alias the request names, in any letter case.
pub fn fluid_meta(entries: &Vec<FluidPage>, key: &str, field: &str) -> (res: Result<MetaValue, InvokeRefusal>)
    ensures
        answer_view(res) == meta_answer(
            MetaEntity::Fluid,
            entries@.map_values(|d: FluidPage| d.key@),
            entries@.map_values(|d: FluidPage| d.aliases@),
            |i: int, f: MetaField| fluid_field(entries@[i], f),
            key@,
            field@,
        ),
{
    let mut keys: Vec<&String> = Vec::new();
    let mut aliases: Vec<&Vec<String>> = Vec::new();
    let mut k: usize = 0;
    while k < entries.len()
        invariant
            k <= entries@.len(),
            keys@.len() == k,
            aliases@.len() == k,
            forall|j: int| 0 <= j < k ==> *(#[trigger] keys@[j]) == entries@[j].key && *aliases@[j] == entries@[j].aliases,
        decreases entries.len() - k,
    {
        keys.push(&entries[k].key);
        aliases.push(&entries[k].aliases);
        k = k + 1;
    }
    let named = named_with_aliases(&keys, &aliases);
    let ghost ks = entries@.map_values(|d: FluidPage| d.key@);
    let ghost als = entries@.map_values(|d: FluidPage| d.aliases@);
    assert(named_keys(named@) =~= ks);
    assert forall|j: int| 0 <= j < als.len() implies named_aliases(named@)[j] == als[j] by {
        assert(*keys@[j] == entries@[j].key);
    }
    assert(named_aliases(named@) =~= als);
    match locate(MetaEntity::Fluid, &named, key, field) {
        Err(r) => Err(r),
        Ok((i, f)) => {
            proof {
                let j = choose|j: int| first_named(ks, als, key@, j);
                lemma_first_named_unique(ks, als, key@, i as int, j);
            }
            let d = &entries[i];
            match f {
                MetaField::Name => Ok(MetaValue::Text(d.name.clone())),
                MetaField::Aliases => Ok(MetaValue::List(copy_strings(&d.aliases))),
                MetaField::SupportedProperties => Ok(MetaValue::List(copy_strings(&d.supported_properties))),
                MetaField::SupportedStateInputs => Ok(MetaValue::List(copy_strings(&d.supported_state_inputs))),
                _ => Err(unknown_field_refusal(MetaEntity::Fluid, ascii_lowercase(field).as_str())),
            }
        },
    }
}

/// Answers `meta.get` for a material: the field of the first material whose
/// key or alias the request names, in any letter case.
pub fn material_meta(entries: &Vec<MaterialPage>, key: &str, field: &str) -> (res: Result<MetaValue, InvokeRefusal>)
    ensures
        answer_view(res) == meta_answer(
            MetaEntity::Material,
            entries@.map_values(|d: MaterialPage| d.key@),
            entries@.map_values(|d: MaterialPage| d.aliases@),
            |i: int, f: MetaField| material_field(entries@[i], f),
            key@,
            field@,
        ),
{
    let mut keys: Vec<&String> = Vec::new();
    let mut aliases: Vec<&Vec<String>> = Vec::new();
    let mut k: usize = 0;
    while k < entries.len()
        invariant
            k <= entries@.len(),
            keys@.len() == k,
            aliases@.len() == k,
            forall|j: int| 0 <= j < k ==> *(#[trigger] keys@[j]) == entries@[j].key && *aliases@[j] == entries@[j].aliases,
        decreases entries.len() - k,
    {
        keys.push(&entries[k].key);
        aliases.push(&entries[k].aliases);
        k = k + 1;
    }
    let named = named_with_aliases(&keys, &aliases);
    let ghost ks = entries@.map_values(|d: MaterialPage| d.key@);
    let ghost als = entries@.map_values(|d: MaterialPage| d.aliases@);
    assert(named_keys(named@) =~= ks);
    assert forall|j: int| 0 <= j < als.len() implies named_aliases(named@)[j] == als[j] by {
        assert(*keys@[j] == entries@[j].key);
    }
    assert(named_aliases(named@) =~= als);
    match locate(MetaEntity::Material, &named, key, field) {
        Err(r) => Err(r),
        Ok((i, f)) => {
            proof {
                let j = choose|j: int| first_named(ks, als, key@, j);
                lemma_first_named_unique(ks, als, key@, i as int, j);
            }
            let d = &entries[i];
            match f {
                MetaField::Name => Ok(MetaValue::Text(d.name.clone())),
                MetaField::Aliases => Ok(MetaValue::List(copy_strings(&d.aliases))),
                MetaField::Properties => Ok(MetaValue::List(copy_strings(&d.properties))),
                MetaField::Source => Ok(MetaValue::Text(d.source.clone())),
                MetaField::Description => Ok(MetaValue::Text(d.description.clone())),
                _ => Err(unknown_field_refusal(MetaEntity::Material, ascii_lowercase(field).as_str())),
            }
        },
    }
}

} // verus!

verus! {

/// The answer of a device read, as `device_meta` gives it.
pub open spec fn device_answer(entries: Seq<DeviceDocsEntry>, key: Seq<char>, field: Seq<char>) -> Result<
    MetaValueView,
    (Seq<char>, Seq<char>, Seq<char>),
> {
    meta_answer(
        MetaEntity::Device,
        entries.map_values(|d: DeviceDocsEntry| d.key@),
        no_aliases(entries.len()),
        |i: int, f: MetaField| device_field(entries[i], f),
        key,
        field,
    )
}

/// A device read answers, for the device the key names, that device's own
/// field of the name asked for, in any letter case: `name` its name,
/// `summary` its summary, `supported_modes` its modes and `outputs` its
/// outputs; any other field name is refused as an unknown device field.
pub proof fn device_reads_answer_the_named_field(entries: Seq<DeviceDocsEntry>, key: Seq<char>, field: Seq<char>, i: int)
    requires
        first_named(entries.map_values(|d: DeviceDocsEntry| d.key@), no_aliases(entries.len()), key, i),
    ensures
        lower_seq(field) == "name"@ ==> device_answer(entries, key, field) == Ok::<_, (Seq<char>, Seq<char>, Seq<char>)>(
            MetaValueView::Text(entries[i].name@),
        ),
        lower_seq(field) == "summary"@ ==> device_answer(entries, key, field) == Ok::<_, (Seq<char>, Seq<char>, Seq<char>)>(
            MetaValueView::Text(entries[i].summary@),
        ),
        lower_seq(field) == "supported_modes"@ ==> device_answer(entries, key, field) == Ok::<
            _,
            (Seq<char>, Seq<char>, Seq<char>),
        >(MetaValueView::List(views(entries[i].supported_modes@))),
        lower_seq(field) == "outputs"@ ==> device_answer(entries, key, field) == Ok::<_, (Seq<char>, Seq<char>, Seq<char>)>(
            MetaValueView::List(views(entries[i].outputs@)),
        ),
        lower_seq(field) != "name"@ && lower_seq(field) != "summary"@ && lower_seq(field) != "supported_modes"@
            && lower_seq(field) != "outputs"@ ==> device_answer(entries, key, field) == Err::<MetaValueView, _>(
            unknown_field_view(MetaEntity::Device, field),
        ),
{
    let keys = entries.map_values(|d: DeviceDocsEntry| d.key@);
    let aliases = no_aliases(entries.len());
    let j = choose|j: int| first_named(keys, aliases, key, j);
    lemma_first_named_unique(keys, aliases, key, i, j);
    reveal_strlit("name");
    reveal_strlit("summary");
    reveal_strlit("supported_modes");
    reveal_strlit("outputs");
    let fs = entity_fields(MetaEntity::Device);
    let f0 = fs.subrange(0, 4);
    let f1 = fs.subrange(1, 4);
    let f2 = fs.subrange(2, 4);
    let f3 = fs.subrange(3, 4);
    let f4 = fs.subrange(4, 4);
    assert(f0 =~= fs);
    assert(f0.drop_first() =~= f1);
    assert(f0[0] == MetaField::Name);
    assert(f1.drop_first() =~= f2);
    assert(f1[0] == MetaField::Summary);
    assert(f2.drop_first() =~= f3);
    assert(f2[0] == MetaField::SupportedModes);
    assert(f3.drop_first() =~= f4);
    assert(f3[0] == MetaField::Outputs);
    assert(f4.len() == 0);
    assert(meta_field_name(f1[0]) != "name"@) by { assert("summary"@.len() != "name"@.len() || "summary"@[0] != "name"@[0]); }
    assert(meta_field_name(f2[0]) != "name"@) by { assert("supported_modes"@.len() != "name"@.len() || "supported_modes"@[0] != "name"@[0]); }
    assert(meta_field_name(f3[0]) != "name"@) by { assert("outputs"@.len() != "name"@.len() || "outputs"@[0] != "name"@[0]); }
    assert(field_in(f0, "name"@) == Some(MetaField::Name));
    assert(meta_field_name(f0[0]) != "summary"@) by { assert("name"@.len() != "summary"@.len() || "name"@[0] != "summary"@[0]); }
    assert(meta_field_name(f2[0]) != "summary"@) by { assert("supported_modes"@.len() != "summary"@.len() || "supported_modes"@[0] != "summary"@[0]); }
    assert(meta_field_name(f3[0]) != "summary"@) by { assert("outputs"@.len() != "summary"@.len() || "outputs"@[0] != "summary"@[0]); }
    assert(field_in(f1, "summary"@) == Some(MetaField::Summary));
    assert(field_in(f0, "summary"@) == Some(MetaField::Summary));
    assert(meta_field_name(f0[0]) != "supported_modes"@) by { assert("name"@.len() != "supported_modes"@.len() || "name"@[0] != "supported_modes"@[0]); }
    assert(meta_field_name(f1[0]) != "supported_modes"@) by { assert("summary"@.len() != "supported_modes"@.len() || "summary"@[0] != "supported_modes"@[0]); }
    assert(meta_field_name(f3[0]) != "supported_modes"@) by { assert("outputs"@.len() != "supported_modes"@.len() || "outputs"@[0] != "supported_modes"@[0]); }
    assert(field_in(f2, "supported_modes"@) == Some(MetaField::SupportedModes));
    assert(field_in(f1, "supported_modes"@) == Some(MetaField::SupportedModes));
    assert(field_in(f0, "supported_modes"@) == Some(MetaField::SupportedModes));
    assert(meta_field_name(f0[0]) != "outputs"@) by { assert("name"@.len() != "outputs"@.len() || "name"@[0] != "outputs"@[0]); }
    assert(meta_field_name(f1[0]) != "outputs"@) by { assert("summary"@.len() != "outputs"@.len() || "summary"@[0] != "outputs"@[0]); }
    assert(meta_field_name(f2[0]) != "outputs"@) by { assert("supported_modes"@.len() != "outputs"@.len() || "supported_modes"@[0] != "outputs"@[0]); }
    assert(field_in(f3, "outputs"@) == Some(MetaField::Outputs));
    assert(field_in(f2, "outputs"@) == Some(MetaField::Outputs));
    assert(field_in(f1, "outputs"@) == Some(MetaField::Outputs));
    assert(field_in(f0, "outputs"@) == Some(MetaField::Outputs));
    let l = lower_seq(field);
    if l != "name"@ && l != "summary"@ && l != "supported_modes"@ && l != "outputs"@ {
        assert(field_in(f4, l) == None::<MetaField>);
        assert(field_in(f3, l) == None::<MetaField>);
        assert(field_in(f2, l) == None::<MetaField>);
        assert(field_in(f1, l) == None::<MetaField>);
        assert(field_in(f0, l) == None::<MetaField>);
    }
}


/// The answer of a fluid read, as `fluid_meta` gives it.
pub open spec fn fluid_answer(entries: Seq<FluidPage>, key: Seq<char>, field: Seq<char>) -> Result<
    MetaValueView,
    (Seq<char>, Seq<char>, Seq<char>),
> {
    meta_answer(
        MetaEntity::Fluid,
        entries.map_values(|d: FluidPage| d.key@),
        entries.map_values(|d: FluidPage| d.aliases@),
        |i: int, f: MetaField| fluid_field(entries[i], f),
        key,
        field,
    )
}

/// A fluid read answers, for the fluid the key or an alias names, that fluid's
/// own field of the name asked for, in any letter case; any other field name
/// is refused as an unknown fluid field.
pub proof fn fluid_reads_answer_the_named_field(entries: Seq<FluidPage>, key: Seq<char>, field: Seq<char>, i: int)
    requires
        first_named(entries.map_values(|d: FluidPage| d.key@), entries.map_values(|d: FluidPage| d.aliases@), key, i),
    ensures
        lower_seq(field) == "name"@ ==> fluid_answer(entries, key, field) == Ok::<_, (Seq<char>, Seq<char>, Seq<char>)>(
            MetaValueView::Text(entries[i].name@),
        ),
        lower_seq(field) == "aliases"@ ==> fluid_answer(entries, key, field) == Ok::<_, (Seq<char>, Seq<char>, Seq<char>)>(
            MetaValueView::List(views(entries[i].aliases@)),
        ),
        lower_seq(field) == "supported_properties"@ ==> fluid_answer(entries, key, field) == Ok::<_, (Seq<char>, Seq<char>, Seq<char>)>(
            MetaValueView::List(views(entries[i].supported_properties@)),
        ),
        lower_seq(field) == "supported_state_inputs"@ ==> fluid_answer(entries, key, field) == Ok::<_, (Seq<char>, Seq<char>, Seq<char>)>(
            MetaValueView::List(views(entries[i].supported_state_inputs@)),
        ),
        lower_seq(field) != "name"@ && lower_seq(field) != "aliases"@ && lower_seq(field) != "supported_properties"@ && lower_seq(field) != "supported_state_inputs"@ ==> fluid_answer(entries, key, field) == Err::<MetaValueView, _>(
            unknown_field_view(MetaEntity::Fluid, field),
        ),
{
    let keys = entries.map_values(|d: FluidPage| d.key@);
    let aliases = entries.map_values(|d: FluidPage| d.aliases@);
    let j = choose|j: int| first_named(keys, aliases, key, j);
    lemma_first_named_unique(keys, aliases, key, i, j);
    let fs = entity_fields(MetaEntity::Fluid);
    let f0 = fs.subrange(0, 4);
    let f1 = fs.subrange(1, 4);
    let f2 = fs.subrange(2, 4);
    let f3 = fs.subrange(3, 4);
    let f4 = fs.subrange(4, 4);
    assert(f0 =~= fs);
    assert(f0.drop_first() =~= f1);
    assert(f0[0] == MetaField::Name);
    assert(f1.drop_first() =~= f2);
    assert(f1[0] == MetaField::Aliases);
    assert(f2.drop_first() =~= f3);
    assert(f2[0] == MetaField::SupportedProperties);
    assert(f3.drop_first() =~= f4);
    assert(f3[0] == MetaField::SupportedStateInputs);
    assert(f4.len() == 0);
    reveal_strlit("name");
    reveal_strlit("aliases");
    reveal_strlit("supported_properties");
    reveal_strlit("supported_state_inputs");
    assert(meta_field_name(f1[0]) != "name"@) by { assert("aliases"@.len() != "name"@.len()); }
    assert(meta_field_name(f2[0]) != "name"@) by { assert("supported_properties"@.len() != "name"@.len()); }
    assert(meta_field_name(f3[0]) != "name"@) by { assert("supported_state_inputs"@.len() != "name"@.len()); }
    assert(field_in(f0, "name"@) == Some(MetaField::Name));
    assert(meta_field_name(f0[0]) != "aliases"@) by { assert("name"@.len() != "aliases"@.len()); }
    assert(meta_field_name(f2[0]) != "aliases"@) by { assert("supported_properties"@.len() != "aliases"@.len()); }
    assert(meta_field_name(f3[0]) != "aliases"@) by { assert("supported_state_inputs"@.len() != "aliases"@.len()); }
    assert(field_in(f1, "aliases"@) == Some(MetaField::Aliases));
    assert(field_in(f0, "aliases"@) == Some(MetaField::Aliases));
    assert(meta_field_name(f0[0]) != "supported_properties"@) by { assert("name"@.len() != "supported_properties"@.len()); }
    assert(meta_field_name(f1[0]) != "supported_properties"@) by { assert("aliases"@.len() != "supported_properties"@.len()); }
    assert(meta_field_name(f3[0]) != "supported_properties"@) by { assert("supported_state_inputs"@.len() != "supported_properties"@.len()); }
    assert(field_in(f2, "supported_properties"@) == Some(MetaField::SupportedProperties));
    assert(field_in(f1, "supported_properties"@) == Some(MetaField::SupportedProperties));
    assert(field_in(f0, "supported_properties"@) == Some(MetaField::SupportedProperties));
    assert(meta_field_name(f0[0]) != "supported_state_inputs"@) by { assert("name"@.len() != "supported_state_inputs"@.len()); }
    assert(meta_field_name(f1[0]) != "supported_state_inputs"@) by { assert("aliases"@.len() != "supported_state_inputs"@.len()); }
    assert(meta_field_name(f2[0]) != "supported_state_inputs"@) by { assert("supported_properties"@.len() != "supported_state_inputs"@.len()); }
    assert(field_in(f3, "supported_state_inputs"@) == Some(MetaField::SupportedStateInputs));
    assert(field_in(f2, "supported_state_inputs"@) == Some(MetaField::SupportedStateInputs));
    assert(field_in(f1, "supported_state_inputs"@) == Some(MetaField::SupportedStateInputs));
    assert(field_in(f0, "supported_state_inputs"@) == Some(MetaField::SupportedStateInputs));
    let l = lower_seq(field);
    if l != "name"@ && l != "aliases"@ && l != "supported_properties"@ && l != "supported_state_inputs"@ {
        assert(field_in(f4, l) == None::<MetaField>);
        assert(field_in(f3, l) == None::<MetaField>);
        assert(field_in(f2, l) == None::<MetaField>);
        assert(field_in(f1, l) == None::<MetaField>);
        assert(field_in(f0, l) == None::<MetaField>);
    }
}

/// The answer of a material read, as `material_meta` gives it.
pub open spec fn material_answer(entries: Seq<MaterialPage>, key: Seq<char>, field: Seq<char>) -> Result<
    MetaValueView,
    (Seq<char>, Seq<char>, Seq<char>),
> {
    meta_answer(
        MetaEntity::Material,
        entries.map_values(|d: MaterialPage| d.key@),
        entries.map_values(|d: MaterialPage| d.aliases@),
        |i: int, f: MetaField| material_field(entries[i], f),
        key,
        field,
    )
}

/// A material read answers, for the material the key or an alias names, that
/// material's own field of the name asked for, in any letter case; any other
/// field name is refused as an unknown material field.
pub proof fn material_reads_answer_the_named_field(entries: Seq<MaterialPage>, key: Seq<char>, field: Seq<char>, i: int)
    requires
        first_named(entries.map_values(|d: MaterialPage| d.key@), entries.map_values(|d: MaterialPage| d.aliases@), key, i),
    ensures
        lower_seq(field) == "name"@ ==> material_answer(entries, key, field) == Ok::<_, (Seq<char>, Seq<char>, Seq<char>)>(
            MetaValueView::Text(entries[i].name@),
        ),
        lower_seq(field) == "aliases"@ ==> material_answer(entries, key, field) == Ok::<_, (Seq<char>, Seq<char>, Seq<char>)>(
            MetaValueView::List(views(entries[i].aliases@)),
        ),
        lower_seq(field) == "properties"@ ==> material_answer(entries, key, field) == Ok::<_, (Seq<char>, Seq<char>, Seq<char>)>(
            MetaValueView::List(views(entries[i].properties@)),
        ),
        lower_seq(field) == "source"@ ==> material_answer(entries, key, field) == Ok::<_, (Seq<char>, Seq<char>, Seq<char>)>(
            MetaValueView::Text(entries[i].source@),
        ),
        lower_seq(field) == "description"@ ==> material_answer(entries, key, field) == Ok::<_, (Seq<char>, Seq<char>, Seq<char>)>(
            MetaValueView::Text(entries[i].description@),
        ),
        lower_seq(field) != "name"@ && lower_seq(field) != "aliases"@ && lower_seq(field) != "properties"@ && lower_seq(field) != "source"@ && lower_seq(field) != "description"@ ==> material_answer(entries, key, field) == Err::<MetaValueView, _>(
            unknown_field_view(MetaEntity::Material, field),
        ),
{
    let keys = entries.map_values(|d: MaterialPage| d.key@);
    let aliases = entries.map_values(|d: MaterialPage| d.aliases@);
    let j = choose|j: int| first_named(keys, aliases, key, j);
    lemma_first_named_unique(keys, aliases, key, i, j);
    let fs = entity_fields(MetaEntity::Material);
    let f0 = fs.subrange(0, 5);
    let f1 = fs.subrange(1, 5);
    let f2 = fs.subrange(2, 5);
    let f3 = fs.subrange(3, 5);
    let f4 = fs.subrange(4, 5);
    let f5 = fs.subrange(5, 5);
    assert(f0 =~= fs);
    assert(f0.drop_first() =~= f1);
    assert(f0[0] == MetaField::Name);
    assert(f1.drop_first() =~= f2);
    assert(f1[0] == MetaField::Aliases);
    assert(f2.drop_first() =~= f3);
    assert(f2[0] == MetaField::Properties);
    assert(f3.drop_first() =~= f4);
    assert(f3[0] == MetaField::Source);
    assert(f4.drop_first() =~= f5);
    assert(f4[0] == MetaField::Description);
    assert(f5.len() == 0);
    reveal_strlit("name");
    reveal_strlit("aliases");
    reveal_strlit("properties");
    reveal_strlit("source");
    reveal_strlit("description");
    assert(meta_field_name(f1[0]) != "name"@) by { assert("aliases"@.len() != "name"@.len()); }
    assert(meta_field_name(f2[0]) != "name"@) by { assert("properties"@.len() != "name"@.len()); }
    assert(meta_field_name(f3[0]) != "name"@) by { assert("source"@.len() != "name"@.len()); }
    assert(meta_field_name(f4[0]) != "name"@) by { assert("description"@.len() != "name"@.len()); }
    assert(field_in(f0, "name"@) == Some(MetaField::Name));
    assert(meta_field_name(f0[0]) != "aliases"@) by { assert("name"@.len() != "aliases"@.len()); }
    assert(meta_field_name(f2[0]) != "aliases"@) by { assert("properties"@.len() != "aliases"@.len()); }
    assert(meta_field_name(f3[0]) != "aliases"@) by { assert("source"@.len() != "aliases"@.len()); }
    assert(meta_field_name(f4[0]) != "aliases"@) by { assert("description"@.len() != "aliases"@.len()); }
    assert(field_in(f1, "aliases"@) == Some(MetaField::Aliases));
    assert(field_in(f0, "aliases"@) == Some(MetaField::Aliases));
    assert(meta_field_name(f0[0]) != "properties"@) by { assert("name"@.len() != "properties"@.len()); }
    assert(meta_field_name(f1[0]) != "properties"@) by { assert("aliases"@.len() != "properties"@.len()); }
    assert(meta_field_name(f3[0]) != "properties"@) by { assert("source"@.len() != "properties"@.len()); }
    assert(meta_field_name(f4[0]) != "properties"@) by { assert("description"@.len() != "properties"@.len()); }
    assert(field_in(f2, "properties"@) == Some(MetaField::Properties));
    assert(field_in(f1, "properties"@) == Some(MetaField::Properties));
    assert(field_in(f0, "properties"@) == Some(MetaField::Properties));
    assert(meta_field_name(f0[0]) != "source"@) by { assert("name"@.len() != "source"@.len()); }
    assert(meta_field_name(f1[0]) != "source"@) by { assert("aliases"@.len() != "source"@.len()); }
    assert(meta_field_name(f2[0]) != "source"@) by { assert("properties"@.len() != "source"@.len()); }
    assert(meta_field_name(f4[0]) != "source"@) by { assert("description"@.len() != "source"@.len()); }
    assert(field_in(f3, "source"@) == Some(MetaField::Source));
    assert(field_in(f2, "source"@) == Some(MetaField::Source));
    assert(field_in(f1, "source"@) == Some(MetaField::Source));
    assert(field_in(f0, "source"@) == Some(MetaField::Source));
    assert(meta_field_name(f0[0]) != "description"@) by { assert("name"@.len() != "description"@.len()); }
    assert(meta_field_name(f1[0]) != "description"@) by { assert("aliases"@.len() != "description"@.len()); }
    assert(meta_field_name(f2[0]) != "description"@) by { assert("properties"@.len() != "description"@.len()); }
    assert(meta_field_name(f3[0]) != "description"@) by { assert("source"@.len() != "description"@.len()); }
    assert(field_in(f4, "description"@) == Some(MetaField::Description));
    assert(field_in(f3, "description"@) == Some(MetaField::Description));
    assert(field_in(f2, "description"@) == Some(MetaField::Description));
    assert(field_in(f1, "description"@) == Some(MetaField::Description));
    assert(field_in(f0, "description"@) == Some(MetaField::Description));
    let l = lower_seq(field);
    if l != "name"@ && l != "aliases"@ && l != "properties"@ && l != "source"@ && l != "description"@ {
        assert(field_in(f5, l) == None::<MetaField>);
        assert(field_in(f4, l) == None::<MetaField>);
        assert(field_in(f3, l) == None::<MetaField>);
        assert(field_in(f2, l) == None::<MetaField>);
        assert(field_in(f1, l) == None::<MetaField>);
        assert(field_in(f0, l) == None::<MetaField>);
    }
}

} // verus!
