use frper::service::{item_lookup, parse_cargo_toml, versions_from_manifest, TomlItem, VersionError};

fn text(s: &str) -> TomlItem {
    TomlItem::Text(s.to_string())
}

fn table(entries: Vec<(&str, TomlItem)>) -> TomlItem {
    TomlItem::Table(entries.into_iter().map(|(k, v)| (k.to_string(), v)).collect())
}

#[test]
fn both_versions() {
    let manifest = "[package]\nname = \"frper\"\nversion = \"0.1.3\"\n\n[package.metadata.frp]\nversion = \"0.44.0\"\n";
    assert_eq!(parse_cargo_toml(manifest).unwrap(), vec!["0.1.3", "0.44.0"]);
}

#[test]
fn only_first_frp_entry_is_read() {
    let manifest = "[package]\nversion = \"1.0.0\"\n[package.metadata.frp]\nversion = \"0.44.0\"\ncommit = \"abc\"\n";
    assert_eq!(parse_cargo_toml(manifest).unwrap(), vec!["1.0.0"]);
}

#[test]
fn missing_parts_give_fewer_versions() {
    assert_eq!(parse_cargo_toml("[package]\nname = \"x\"\n").unwrap(), Vec::<String>::new());
    assert_eq!(parse_cargo_toml("[dependencies]\nserde = \"1\"\n").unwrap(), Vec::<String>::new());
    assert_eq!(parse_cargo_toml("this is = = not toml").unwrap(), Vec::<String>::new());
    assert_eq!(parse_cargo_toml("[package]\nversion = \"2.0.0\"\n").unwrap(), vec!["2.0.0"]);
    assert_eq!(
        parse_cargo_toml("[package]\nversion = \"2.0.0\"\n[package.metadata.frp]\n").unwrap(),
        vec!["2.0.0"]
    );
}

#[test]
fn version_errors() {
    assert_eq!(parse_cargo_toml("[package]\nversion = 3\n").unwrap_err(), VersionError::FrperVersion);
    assert_eq!(
        parse_cargo_toml("[package]\nversion = \"1.0.0\"\n[package.metadata.other]\nx = 1\n").unwrap_err(),
        VersionError::FrpVersion
    );
    assert_eq!(VersionError::FrperVersion.message(), "can not parse frper version");
    assert_eq!(VersionError::FrpVersion.message(), "can not parse frp version");
}

#[test]
fn versions_from_built_document() {
    let doc = table(vec![(
        "package",
        table(vec![
            ("metadata", table(vec![("frp", table(vec![("version", text("0.45.0"))]))])),
            ("version", text("0.2.0")),
        ]),
    )]);
    assert_eq!(versions_from_manifest(&Some(doc)).unwrap(), vec!["0.2.0", "0.45.0"]);
    assert_eq!(versions_from_manifest(&None).unwrap(), Vec::<String>::new());
    let frp_not_text = table(vec![(
        "package",
        table(vec![("metadata", table(vec![("frp", table(vec![("version", TomlItem::Integer(1))]))]))]),
    )]);
    assert_eq!(versions_from_manifest(&Some(frp_not_text)).unwrap(), Vec::<String>::new());
}

#[test]
fn lookup_in_tables() {
    let t = table(vec![("a", TomlItem::Boolean(true)), ("b", text("x"))]);
    assert!(matches!(item_lookup(&t, "b"), Some(TomlItem::Text(s)) if s == "x"));
    assert!(item_lookup(&t, "c").is_none());
    assert!(item_lookup(&text("a"), "a").is_none());
}
