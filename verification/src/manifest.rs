//! Reading the project manifest: the package name and the library kinds.
//!
//! The TOML grammar is the `toml` crate's; what a manifest has to hold is
//! decided here, on the tree that the parser hands back.

use crate::error::{BuildError, ErrorKind, Failure};
use crate::text::concat2;
use vstd::prelude::*;

verus! {

/// `toml::Value`, the parser's tree of values. Nothing inside it is visible
/// here: it is read through the accessors below.
#[verifier::external_type_specification]
#[verifier::external_body]
pub struct ExValue(toml::Value);

/// What a parsed value holds, as far as a manifest is concerned.
pub enum Tree {
    /// A string.
    Text(Seq<char>),
    /// An array, item by item.
    List(Seq<Tree>),
    /// A table, by key.
    Table(Map<Seq<char>, Tree>),
    /// Anything else: an integer, a float, a boolean or a date.
    Scalar,
}

/// The tree that a `toml::Value` holds: `Text` for `Value::String`, `List` for
/// `Value::Array`, `Table` for `Value::Table`, `Scalar` for the other variants.
pub uninterp spec fn tree_of(value: toml::Value) -> Tree;

/// What `toml::from_str` makes of a text: the tree of the document, or the
/// parser's message where it rejects the text.
pub uninterp spec fn toml_document(text: Seq<char>) -> Result<Tree, Seq<char>>;

/// The entry of a table under a key; `None` for a missing key and for a tree
/// that is no table.
pub open spec fn member(tree: Tree, key: Seq<char>) -> Option<Tree> {
    match tree {
        Tree::Table(entries) => entries.get(key),
        _ => None,
    }
}

/// The characters of a string; `None` for any other tree.
pub open spec fn text(tree: Tree) -> Option<Seq<char>> {
    match tree {
        Tree::Text(t) => Some(t),
        _ => None,
    }
}

/// The strings of an array of strings; `None` for any other tree.
pub open spec fn texts(tree: Tree) -> Option<Seq<Seq<char>>> {
    match tree {
        Tree::List(items) => if forall|i: int|
            0 <= i < items.len() ==> text(#[trigger] items[i]).is_some() {
            Some(Seq::new(items.len(), |i: int| text(items[i]).unwrap()))
        } else {
            None
        },
        _ => None,
    }
}

/// Calls `toml::from_str` for a `toml::Value` and turns its error into the
/// error's message. The contract claims only that the outcome is the one named
/// `toml_document`: a function of the text alone.
#[verifier::external_body]
fn parse_document(text: &str) -> (r: Result<toml::Value, String>)
    ensures
        match r {
            Ok(value) => toml_document(text@) == Ok::<Tree, Seq<char>>(tree_of(value)),
            Err(message) => toml_document(text@) == Err::<Tree, Seq<char>>(message@),
        },
{
    toml::from_str::<toml::Value>(text).map_err(|e| e.to_string())
}

/// Calls `toml::Value::get` with a string index: the entry under `key` where
/// the value is a table that has the key, `None` otherwise.
#[verifier::external_body]
fn value_member<'a>(value: &'a toml::Value, key: &str) -> (r: Option<&'a toml::Value>)
    ensures
        match member(tree_of(*value), key@) {
            Some(entry) => r matches Some(found) && tree_of(*found) == entry,
            None => r.is_none(),
        },
{
    value.get(key)
}

/// Calls `toml::Value::as_str`: the string where the value is one, `None`
/// otherwise.
#[verifier::external_body]
fn value_text<'a>(value: &'a toml::Value) -> (r: Option<&'a str>)
    ensures
        match text(tree_of(*value)) {
            Some(t) => r matches Some(found) && found@ == t,
            None => r.is_none(),
        },
{
    value.as_str()
}

/// Calls `toml::Value::as_array`: the items where the value is an array,
/// `None` otherwise.
#[verifier::external_body]
fn value_items<'a>(value: &'a toml::Value) -> (r: Option<&'a Vec<toml::Value>>)
    ensures
        match tree_of(*value) {
            Tree::List(items) => r matches Some(found) && found@.len() == items.len() && (forall|
                i: int,
            |
                0 <= i < items.len() ==> tree_of(#[trigger] found@[i]) == items[i]),
            _ => r.is_none(),
        },
{
    value.as_array()
}

/// The `[package]` table of a manifest.
#[derive(Debug, PartialEq, Eq)]
pub struct Package {
    pub name: String,
}

/// The `[lib]` table of a manifest.
#[derive(Debug, PartialEq, Eq)]
pub struct Lib {
    /// The library kinds, in the order of the manifest.
    pub crate_type: Vec<String>,
}

/// What a build reads from a manifest.
#[derive(Debug, PartialEq, Eq)]
pub struct CargoConfig {
    pub package: Package,
    pub lib: Lib,
}

/// The mathematical content of a [`CargoConfig`].
pub struct ConfigView {
    pub name: Seq<char>,
    pub crate_type: Seq<Seq<char>>,
}

impl View for CargoConfig {
    type V = ConfigView;

    open spec fn view(&self) -> ConfigView {
        ConfigView { name: self.package.name@, crate_type: self.lib.crate_type.deep_view() }
    }
}

/// A failed reading as contracts see it.
pub open spec fn config_view(r: Result<CargoConfig, BuildError>) -> Result<ConfigView, Failure> {
    match r {
        Ok(config) => Ok(config@),
        Err(e) => Err(e@),
    }
}

/// The failure of a manifest that cannot be read, with the reason in `detail`.
pub open spec fn parse_failure(detail: Seq<char>) -> Failure {
    Failure {
        kind: ErrorKind::ManifestParseError,
        message: "parse cargo toml failed, error = "@ + detail,
    }
}

/// The name under `package.name`, where there is a string.
pub open spec fn package_name(doc: Tree) -> Option<Seq<char>> {
    match member(doc, "package"@) {
        Some(package) => match member(package, "name"@) {
            Some(name) => text(name),
            None => None,
        },
        None => None,
    }
}

/// The library kinds of a `[lib]` table, or what is wrong with it. The field
/// is spelled `crate_type` or `crate-type`; both at once count as a duplicate.
pub open spec fn library_kinds(lib: Tree) -> Result<Seq<Seq<char>>, Seq<char>> {
    match (member(lib, "crate_type"@), member(lib, "crate-type"@)) {
        (Some(_), Some(_)) => Err("duplicate field `crate_type`"@),
        (None, None) => Err("missing field `crate_type`"@),
        (Some(kinds), None) | (None, Some(kinds)) => match texts(kinds) {
            Some(list) => Ok(list),
            None => Err("expected an array of strings at `lib.crate-type`"@),
        },
    }
}

/// What a manifest with the given tree holds, or why it cannot be read.
pub open spec fn read_tree(doc: Tree) -> Result<ConfigView, Failure> {
    match package_name(doc) {
        None => Err(parse_failure("expected a string at `package.name`"@)),
        Some(name) => match member(doc, "lib"@) {
            None => Err(parse_failure("missing field `lib`"@)),
            Some(lib) => match library_kinds(lib) {
                Ok(crate_type) => Ok(ConfigView { name, crate_type }),
                Err(detail) => Err(parse_failure(detail)),
            },
        },
    }
}

/// What a manifest with the given text holds, or why it cannot be read.
pub open spec fn read_text(manifest: Seq<char>) -> Result<ConfigView, Failure> {
    match toml_document(manifest) {
        Ok(doc) => read_tree(doc),
        Err(message) => Err(parse_failure(message)),
    }
}

/// A manifest whose `[lib]` table spells the field `crate_type`, rewritten to
/// spell it `crate-type`; any other tree as it is.
pub open spec fn with_legacy_spelling(doc: Tree) -> Tree {
    match doc {
        Tree::Table(top) => match top.get("lib"@) {
            Some(Tree::Table(lib)) => if lib.contains_key("crate_type"@) && !lib.contains_key(
                "crate-type"@,
            ) {
                Tree::Table(
                    top.insert(
                        "lib"@,
                        Tree::Table(
                            lib.remove("crate_type"@).insert("crate-type"@, lib["crate_type"@]),
                        ),
                    ),
                )
            } else {
                doc
            },
            _ => doc,
        },
        _ => doc,
    }
}

/// A manifest reads the same whether its library kinds stand under
/// `crate_type` or under the legacy spelling `crate-type`.
pub proof fn legacy_spelling_reads_the_same(doc: Tree)
    ensures
        read_tree(with_legacy_spelling(doc)) == read_tree(doc),
{
    reveal_strlit("lib");
    reveal_strlit("package");
    reveal_strlit("crate_type");
    reveal_strlit("crate-type");
    assert("lib"@ != "package"@) by {
        assert("lib"@.len() != "package"@.len());
    }
    assert("crate_type"@ != "crate-type"@) by {
        assert("crate_type"@[5] != "crate-type"@[5]);
    }
}

fn fail<T>(detail: &str) -> (r: Result<T, BuildError>)
    ensures
        r matches Err(e) && e@ == parse_failure(detail@),
{
    Err(
        BuildError::new(
            ErrorKind::ManifestParseError,
            concat2("parse cargo toml failed, error = ", detail),
        ),
    )
}

/// The strings of an array of strings.
fn kinds_of(value: &toml::Value) -> (r: Option<Vec<String>>)
    ensures
        r.deep_view() == texts(tree_of(*value)),
{
    let items = match value_items(value) {
        Some(items) => items,
        None => {
            return None;
        },
    };
    let ghost trees = tree_of(*value)->List_0;
    let mut kinds: Vec<String> = Vec::new();
    let mut i: usize = 0;
    while i < items.len()
        invariant
            i <= items.len(),
            tree_of(*value) == Tree::List(trees),
            items@.len() == trees.len(),
            forall|j: int| 0 <= j < trees.len() ==> tree_of(#[trigger] items@[j]) == trees[j],
            kinds.len() == i,
            forall|j: int| 0 <= j < i ==> text(#[trigger] trees[j]) == Some(kinds@[j]@),
        decreases items.len() - i,
    {
        match value_text(&items[i]) {
            Some(kind) => {
                kinds.push(String::from_str(kind));
            },
            None => {
                return None;
            },
        }
        i += 1;
    }
    Some(kinds)
}

/// Read the package name and the library kinds off a parsed manifest.
pub fn cargo_config_from_document(doc: &toml::Value) -> (r: Result<CargoConfig, BuildError>)
    ensures
        config_view(r) == read_tree(tree_of(*doc)),
{
    let name = match value_member(doc, "package") {
        Some(package) => match value_member(package, "name") {
            Some(name) => value_text(name),
            None => None,
        },
        None => None,
    };
    let name = match name {
        Some(name) => String::from_str(name),
        None => {
            return fail("expected a string at `package.name`");
        },
    };
    let lib = match value_member(doc, "lib") {
        Some(lib) => lib,
        None => {
            return fail("missing field `lib`");
        },
    };
    let kinds = match (value_member(lib, "crate_type"), value_member(lib, "crate-type")) {
        (Some(_), Some(_)) => {
            return fail("duplicate field `crate_type`");
        },
        (None, None) => {
            return fail("missing field `crate_type`");
        },
        (Some(kinds), None) => kinds,
        (None, Some(kinds)) => kinds,
    };
    match kinds_of(kinds) {
        Some(crate_type) => Ok(CargoConfig { package: Package { name }, lib: Lib { crate_type } }),
        None => fail("expected an array of strings at `lib.crate-type`"),
    }
}

/// Parse the manifest of a project from its text.
///
/// Fails with `ManifestParseError` where the text is no TOML document, and
/// where the document lacks a string `package.name` or an array of strings
/// under `lib.crate_type` (or `lib.crate-type`).
pub fn parse_cargo_config(manifest: &str) -> (r: Result<CargoConfig, BuildError>)
    ensures
        config_view(r) == read_text(manifest@),
{
    match parse_document(manifest) {
        Ok(doc) => cargo_config_from_document(&doc),
        Err(message) => fail(message.as_str()),
    }
}

} // verus!
