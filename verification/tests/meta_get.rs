use eng::docs::binding_manifest::{FamilyDoc, FamilyVariantDoc};
use eng::devices::docs_entries;
use eng::docs::catalog_pages::{FluidPage, MaterialPage};
use eng::meta::{
    device_meta, fluid_meta, material_meta, MetaValue,
    family_variant_of, find_named_entry, missing_arg_refusal, parse_format_mode, parse_meta_entity, parse_meta_field,
    unknown_entity_refusal, unknown_entry_refusal, unknown_field_refusal, FormatMode, MetaEntity, MetaField, NamedEntry,
};

#[test]
fn entities_are_read_in_any_case() {
    assert_eq!(parse_meta_entity("Equation"), Some(MetaEntity::Equation));
    assert_eq!(parse_meta_entity("FLUID"), Some(MetaEntity::Fluid));
    assert_eq!(parse_meta_entity("device"), Some(MetaEntity::Device));
    assert_eq!(parse_meta_entity("devices"), None);
    assert_eq!(parse_meta_entity(" fluid"), None);
}

#[test]
fn fields_belong_to_their_entity() {
    assert_eq!(parse_meta_field(MetaEntity::Equation, "LaTeX"), Some(MetaField::Latex));
    assert_eq!(parse_meta_field(MetaEntity::Constant, "symbol_unicode"), Some(MetaField::SymbolUnicode));
    assert_eq!(parse_meta_field(MetaEntity::Constant, "latex"), None);
    assert_eq!(parse_meta_field(MetaEntity::Fluid, "Supported_Properties"), Some(MetaField::SupportedProperties));
    assert_eq!(parse_meta_field(MetaEntity::Material, "source"), Some(MetaField::Source));
    assert_eq!(parse_meta_field(MetaEntity::Device, "supported_modes"), Some(MetaField::SupportedModes));
    assert_eq!(parse_meta_field(MetaEntity::Device, "aliases"), None);
    assert_eq!(MetaField::SupportedStateInputs.name(), "supported_state_inputs");
    assert_eq!(MetaEntity::Material.name(), "material");
}

#[test]
fn refusals_name_the_argument() {
    let r = missing_arg_refusal("entity", false);
    assert_eq!((r.code, r.field, r.message.as_str()), ("missing_arg", "entity", "missing string arg 'entity'"));
    let r = missing_arg_refusal("value", true);
    assert_eq!(r.message, "missing numeric arg 'value'");
    let r = unknown_entity_refusal("planet");
    assert_eq!((r.code, r.field, r.message.as_str()), ("unknown_meta_entity", "entity", "unsupported metadata entity 'planet'"));
    let r = unknown_field_refusal(MetaEntity::Fluid, "color");
    assert_eq!((r.code, r.field, r.message.as_str()), ("unknown_meta_field", "field", "unsupported fluid field 'color'"));
    let r = unknown_entry_refusal(MetaEntity::Material, "unobtainium", "");
    assert_eq!((r.code, r.field, r.message.as_str()), ("unknown_material", "key", "unknown material 'unobtainium'"));
    let r = unknown_entry_refusal(MetaEntity::Equation, "x.y", "equation 'x.y' not found");
    assert_eq!((r.code, r.message.as_str()), ("unknown_equation", "equation 'x.y' not found"));
}

fn named(key: &str, aliases: &[&str]) -> NamedEntry {
    NamedEntry { key: key.to_string(), aliases: aliases.iter().map(|a| a.to_string()).collect() }
}

#[test]
fn entries_are_found_by_key_or_alias() {
    let entries = vec![named("H2O", &["water", "steam"]), named("N2", &["nitrogen"]), named("Water", &[])];
    assert_eq!(find_named_entry(&entries, "h2o"), Some(0));
    assert_eq!(find_named_entry(&entries, "WATER"), Some(0));
    assert_eq!(find_named_entry(&entries, "Nitrogen"), Some(1));
    assert_eq!(find_named_entry(&entries, "argon"), None);
}

#[test]
fn family_variant_is_the_first_match() {
    let v = |k: &str, e: &str| FamilyVariantDoc { key: k.to_string(), name: k.to_uppercase(), equation_id: e.to_string() };
    let families = vec![
        FamilyDoc { key: "a".to_string(), name: "A".to_string(), variants: vec![v("x", "eq.one"), v("y", "eq.two")] },
        FamilyDoc { key: "b".to_string(), name: "B".to_string(), variants: vec![v("z", "eq.two")] },
    ];
    assert_eq!(family_variant_of(&families, "eq.two"), Some((0, 1)));
    assert_eq!(family_variant_of(&families, "eq.one"), Some((0, 0)));
    assert_eq!(family_variant_of(&families, "eq.three"), None);
}

#[test]
fn format_modes() {
    assert_eq!(parse_format_mode(None).unwrap(), FormatMode::Value);
    assert_eq!(parse_format_mode(Some("TEXT")).unwrap(), FormatMode::Text);
    let r = parse_format_mode(Some("Pretty")).unwrap_err();
    assert_eq!((r.code, r.field, r.message.as_str()), ("invalid_arg_value", "mode", "unsupported mode 'pretty' (use 'value' or 'text')"));
}

fn text(v: &Result<MetaValue, eng::invoke::InvokeRefusal>) -> String {
    match v {
        Ok(MetaValue::Text(t)) => t.clone(),
        Ok(MetaValue::List(l)) => format!("[{}]", l.join(",")),
        Err(r) => format!("{}|{}|{}", r.code, r.field, r.message),
    }
}

#[test]
fn device_meta_reads_fields_by_key() {
    let ds = docs_entries();
    assert_eq!(text(&device_meta(&ds, "FANNO_FLOW_CALC", "Name")), "Fanno Flow Calculator");
    assert_eq!(text(&device_meta(&ds, "fanno_flow_calc", "outputs")), "[value_si,pivot_mach,path diagnostics]");
    assert_eq!(text(&device_meta(&ds, "pipe", "name")), "unknown_device|key|unknown device 'pipe'");
    assert_eq!(
        text(&device_meta(&ds, "fanno_flow_calc", "Aliases")),
        "unknown_meta_field|field|unsupported device field 'aliases'"
    );
}

fn water() -> FluidPage {
    FluidPage {
        key: "water".to_string(),
        name: "Water".to_string(),
        aliases: vec!["H2O".to_string()],
        supported_state_inputs: vec!["T,P".to_string()],
        supported_properties: vec!["density".to_string(), "gamma".to_string()],
    }
}

#[test]
fn fluid_meta_finds_aliases_in_any_case() {
    let fs = vec![water()];
    assert_eq!(text(&fluid_meta(&fs, "h2o", "name")), "Water");
    assert_eq!(text(&fluid_meta(&fs, "WATER", "supported_properties")), "[density,gamma]");
    assert_eq!(text(&fluid_meta(&fs, "water", "aliases")), "[H2O]");
    assert_eq!(text(&fluid_meta(&fs, "air", "name")), "unknown_fluid|key|unknown fluid 'air'");
    assert_eq!(text(&fluid_meta(&fs, "water", "Unit")), "unknown_meta_field|field|unsupported fluid field 'unit'");
}

#[test]
fn material_meta_reads_the_first_match() {
    let m = |key: &str, alias: &str, source: &str| MaterialPage {
        key: key.to_string(),
        name: key.to_uppercase(),
        aliases: vec![alias.to_string()],
        source: source.to_string(),
        properties: vec!["density".to_string()],
        description: "d".to_string(),
    };
    let ms = vec![m("steel", "ss", "first"), m("ss", "x", "second")];
    assert_eq!(text(&material_meta(&ms, "SS", "source")), "first");
    assert_eq!(text(&material_meta(&ms, "x", "name")), "SS");
    assert_eq!(text(&material_meta(&ms, "steel", "properties")), "[density]");
    assert_eq!(text(&material_meta(&ms, "copper", "name")), "unknown_material|key|unknown material 'copper'");
}
