use iroha_wasm_pack::manifest::{cargo_config_from_document, parse_cargo_config};
use iroha_wasm_pack::steps::step_check_crate_config;
use iroha_wasm_pack::{BuildArgs, BuildContext, BuildError, ErrorKind, ProjectPath};

fn parse_error(detail: &str) -> BuildError {
    BuildError::new(
        ErrorKind::ManifestParseError,
        format!("parse cargo toml failed, error = {}", detail),
    )
}

fn kinds(text: &str) -> Vec<String> {
    parse_cargo_config(text).unwrap().lib.crate_type
}

fn table(entries: Vec<(&str, toml::Value)>) -> toml::Value {
    let mut map = toml::value::Table::new();
    for (key, value) in entries {
        map.insert(key.to_string(), value);
    }
    toml::Value::Table(map)
}

fn text(s: &str) -> toml::Value {
    toml::Value::String(s.to_string())
}

fn context_for(manifest: &str) -> Result<BuildContext, BuildError> {
    let args = BuildArgs::new(Vec::new());
    let root = ProjectPath::new("/".to_string(), vec!["project".to_string()]);
    BuildContext::new(&args, &root, manifest)
}

#[test]
fn reads_name_and_kinds() {
    let config = parse_cargo_config(
        "[package]\nname = \"token\"\nversion = \"0.1.0\"\n\n[lib]\ncrate-type = [\"cdylib\", \"rlib\"]\n",
    )
    .unwrap();
    assert_eq!(config.package.name, "token");
    assert_eq!(config.lib.crate_type, vec!["cdylib".to_string(), "rlib".to_string()]);
}

#[test]
fn legacy_spelling_reads_like_the_canonical_one() {
    let canonical = "[package]\nname = \"token\"\n[lib]\ncrate_type = [\"cdylib\"]\n";
    let legacy = "[package]\nname = \"token\"\n[lib]\ncrate-type = [\"cdylib\"]\n";
    assert_eq!(parse_cargo_config(canonical).unwrap(), parse_cargo_config(legacy).unwrap());
    assert_eq!(kinds(canonical), vec!["cdylib".to_string()]);
}

#[test]
fn generated_manifest_style_with_single_quotes_reads() {
    assert_eq!(
        kinds("[package]\nname = 'x'\n[lib]\ncrate-type = ['cdylib']\n"),
        vec!["cdylib".to_string()]
    );
}

#[test]
fn other_sections_and_fields_are_ignored() {
    let config = parse_cargo_config(
        "[package]\nname = \"a\"\nedition = \"2021\"\n[dependencies]\nserde = \"1\"\n[lib]\npath = \"src/lib.rs\"\ncrate-type = [\"rlib\"]\n[profile.release]\nlto = true\n",
    )
    .unwrap();
    assert_eq!(config.package.name, "a");
    assert_eq!(config.lib.crate_type, vec!["rlib".to_string()]);
}

#[test]
fn crate_config_step_passes_for_cdylib_only() {
    let args = BuildArgs::new(Vec::new());
    let cdylib = context_for("[package]\nname = \"a\"\n[lib]\ncrate-type = [\"cdylib\"]\n").unwrap();
    let rlib = context_for("[package]\nname = \"a\"\n[lib]\ncrate-type=[\"rlib\"]\n").unwrap();
    assert_eq!(step_check_crate_config(&args, &cdylib), Ok(()));
    let e = step_check_crate_config(&args, &rlib).unwrap_err();
    assert_eq!(e.kind, ErrorKind::InvalidLibraryKind);
    assert_eq!(
        e.message,
        "crate-type must be cdylib to compile to wasm32-unknown-unknown. Add the following to your Cargo.toml file:\n\n[lib]\ncrate-type = [\"cdylib\"]"
    );
}

#[test]
fn first_library_kind_is_the_one_that_counts() {
    let args = BuildArgs::new(Vec::new());
    let first = context_for("[package]\nname = \"a\"\n[lib]\ncrate-type = [\"cdylib\", \"rlib\"]\n").unwrap();
    let second = context_for("[package]\nname = \"a\"\n[lib]\ncrate-type = [\"rlib\", \"cdylib\"]\n").unwrap();
    assert_eq!(first.crate_type(), "cdylib");
    assert_eq!(second.crate_type(), "rlib");
    assert!(step_check_crate_config(&args, &first).is_ok());
    assert!(step_check_crate_config(&args, &second).is_err());
}

#[test]
fn malformed_text_carries_the_parsers_message() {
    let text = "[package\nname = ";
    let expected = toml::from_str::<toml::Value>(text).unwrap_err().to_string();
    assert!(!expected.is_empty());
    assert_eq!(parse_cargo_config(text), Err(parse_error(&expected)));
}

#[test]
fn duplicate_key_is_malformed() {
    let e = parse_cargo_config("[package]\nname = \"a\"\nname = \"b\"\n[lib]\ncrate-type = []\n")
        .unwrap_err();
    assert_eq!(e.kind, ErrorKind::ManifestParseError);
    assert!(e.message.starts_with("parse cargo toml failed, error = "));
}

#[test]
fn missing_package_is_rejected() {
    assert_eq!(
        parse_cargo_config("[lib]\ncrate-type = [\"cdylib\"]\n"),
        Err(parse_error("expected a string at `package.name`"))
    );
}

#[test]
fn package_without_name_is_rejected() {
    assert_eq!(
        parse_cargo_config("[package]\nversion = \"1\"\n[lib]\ncrate-type = [\"cdylib\"]\n"),
        Err(parse_error("expected a string at `package.name`"))
    );
}

#[test]
fn name_that_is_no_string_is_rejected() {
    assert_eq!(
        parse_cargo_config("[package]\nname = 7\n[lib]\ncrate-type = [\"cdylib\"]\n"),
        Err(parse_error("expected a string at `package.name`"))
    );
    assert_eq!(
        parse_cargo_config("package = \"x\"\n[lib]\ncrate-type = [\"cdylib\"]\n"),
        Err(parse_error("expected a string at `package.name`"))
    );
}

#[test]
fn missing_lib_is_rejected() {
    assert_eq!(
        parse_cargo_config("[package]\nname = \"a\"\n"),
        Err(parse_error("missing field `lib`"))
    );
}

#[test]
fn lib_without_kinds_is_rejected() {
    assert_eq!(
        parse_cargo_config("[package]\nname = \"a\"\n[lib]\npath = \"src/lib.rs\"\n"),
        Err(parse_error("missing field `crate_type`"))
    );
}

#[test]
fn both_spellings_at_once_are_a_duplicate() {
    assert_eq!(
        parse_cargo_config(
            "[package]\nname = \"a\"\n[lib]\ncrate-type = [\"cdylib\"]\ncrate_type = [\"cdylib\"]\n"
        ),
        Err(parse_error("duplicate field `crate_type`"))
    );
}

#[test]
fn kinds_that_are_no_array_of_strings_are_rejected() {
    let expected = Err(parse_error("expected an array of strings at `lib.crate-type`"));
    assert_eq!(
        parse_cargo_config("[package]\nname = \"a\"\n[lib]\ncrate-type = \"cdylib\"\n"),
        expected
    );
    assert_eq!(
        parse_cargo_config("[package]\nname = \"a\"\n[lib]\ncrate-type = [1, 2]\n"),
        expected
    );
    assert_eq!(
        parse_cargo_config("[package]\nname = \"a\"\n[lib]\ncrate_type = [[\"cdylib\"]]\n"),
        expected
    );
}

#[test]
fn empty_manifest_is_rejected() {
    assert_eq!(parse_cargo_config(""), Err(parse_error("expected a string at `package.name`")));
}

#[test]
fn empty_kinds_parse_but_make_no_context() {
    let text = "[package]\nname = \"a\"\n[lib]\ncrate-type = []\n";
    assert_eq!(kinds(text), Vec::<String>::new());
    let e = context_for(text).unwrap_err();
    assert_eq!(e.kind, ErrorKind::MissingLibraryKind);
    assert_eq!(
        e.message,
        "crate-type is empty. Add the following to your Cargo.toml file:\n\n[lib]\ncrate-type = [\"cdylib\"]"
    );
}

#[test]
fn context_of_a_malformed_manifest_is_the_parse_error() {
    let e = context_for("name = ").unwrap_err();
    assert_eq!(e.kind, ErrorKind::ManifestParseError);
}

#[test]
fn document_built_by_hand_reads() {
    let doc = table(vec![
        ("package", table(vec![("name", text("handmade"))])),
        ("lib", table(vec![("crate_type", toml::Value::Array(vec![text("cdylib"), text("staticlib")]))])),
    ]);
    let config = cargo_config_from_document(&doc).unwrap();
    assert_eq!(config.package.name, "handmade");
    assert_eq!(config.lib.crate_type, vec!["cdylib".to_string(), "staticlib".to_string()]);
}

#[test]
fn document_with_a_mixed_array_is_rejected() {
    let doc = table(vec![
        ("package", table(vec![("name", text("a"))])),
        ("lib", table(vec![("crate-type", toml::Value::Array(vec![text("cdylib"), toml::Value::Integer(1)]))])),
    ]);
    assert_eq!(
        cargo_config_from_document(&doc),
        Err(parse_error("expected an array of strings at `lib.crate-type`"))
    );
}

#[test]
fn document_that_is_no_table_is_rejected() {
    assert_eq!(
        cargo_config_from_document(&text("package")),
        Err(parse_error("expected a string at `package.name`"))
    );
    assert_eq!(
        cargo_config_from_document(&toml::Value::Array(Vec::new())),
        Err(parse_error("expected a string at `package.name`"))
    );
}

#[test]
fn lib_that_is_no_table_has_no_kinds() {
    let doc = table(vec![("package", table(vec![("name", text("a"))])), ("lib", text("cdylib"))]);
    assert_eq!(cargo_config_from_document(&doc), Err(parse_error("missing field `crate_type`")));
}
