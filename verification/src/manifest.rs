//! Manifest parsing: reads the documentation-build section of a package
//! manifest into a [`Metadata`] fragment.
//!
//! The structured-document parsing itself is done by the `toml` crate; its
//! values are opaque here. What a parsed value holds is modelled by
//! [`TomlNode`], with [`toml_content`] naming the content of an opaque value
//! and [`spec_parse_manifest`] naming what parsing a text yields — a function
//! of the text alone. Each call into the crate goes through a small trusted
//! wrapper whose contract says over those names what the crate's source
//! shows; everything from the parsed document to the fragment is verified,
//! with the defaulting rules stated exactly in [`Metadata::from_parts`] and
//! [`spec_fragment_of_doc`].

use vstd::prelude::*;

use crate::metadata::{
    spec_base_args, spec_cargo_args, spec_default_metadata, spec_default_target,
    spec_default_targets, spec_environment_variables, spec_host_target, spec_other_targets,
    Metadata, MetadataView,
};

verus! {

/// The mathematical content of a parsed document value: the shapes the
/// resolver reads. Anything else (an integer, a float, a datetime) is
/// `Other`: present, but never a string, boolean, array or table.
pub ghost enum TomlNode {
    Str(Seq<char>),
    Bool(bool),
    Arr(Seq<TomlNode>),
    Tbl(Map<Seq<char>, TomlNode>),
    Other,
}

/// The content of an opaque parsed value. Named, not defined: the trusted
/// wrappers below say how each accessor of the `toml` crate reads it.
pub uninterp spec fn toml_content(value: toml::Value) -> TomlNode;

/// What parsing a manifest text yields: `Some` exactly on well-formed
/// documents. A function of the text alone — parsing does no I/O.
pub uninterp spec fn spec_parse_manifest(text: Seq<char>) -> Option<TomlNode>;

/// Table lookup on a node: an entry of a table, `None` on a missing key or
/// any non-table node.
pub open spec fn spec_table_get(node: TomlNode, key: Seq<char>) -> Option<TomlNode> {
    if node is Tbl && node->Tbl_0.dom().contains(key) {
        Some(node->Tbl_0[key])
    } else {
        None
    }
}

#[verifier::external_type_specification]
#[verifier::external_body]
pub struct ExTomlValue(toml::Value);

#[verifier::external_type_specification]
#[verifier::external_body]
pub struct ExTomlDeError(toml::de::Error);

/// Relies on `<toml::Table as FromStr>::from_str`: parses a whole document
/// into its top-level table (wrapped one-for-one as a value), failing exactly
/// on malformed text, deterministically in the text.
#[verifier::external_body]
fn parse_toml_value(manifest: &str) -> (r: Result<toml::Value, toml::de::Error>)
    ensures
        match r {
            Ok(v) => spec_parse_manifest(manifest@) == Some(toml_content(v)),
            Err(_) => spec_parse_manifest(manifest@) is None,
        },
{
    match manifest.parse::<toml::Table>() {
        Ok(table) => Ok(toml::Value::Table(table)),
        Err(e) => Err(e),
    }
}

/// Relies on `toml::Value::get` with a string index: the table entry under
/// the key; `None` on a missing key or a non-table value.
#[verifier::external_body]
fn value_get<'a>(value: &'a toml::Value, key: &str) -> (r: Option<&'a toml::Value>)
    ensures
        match r {
            Some(inner) => spec_table_get(toml_content(*value), key@) == Some(
                toml_content(*inner),
            ),
            None => spec_table_get(toml_content(*value), key@) is None,
        },
{
    value.get(key)
}

/// Relies on `toml::Value::as_bool`: the boolean payload exactly when the
/// value is a boolean.
#[verifier::external_body]
fn value_as_bool(value: &toml::Value) -> (r: Option<bool>)
    ensures
        match r {
            Some(b) => toml_content(*value) == TomlNode::Bool(b),
            None => !(toml_content(*value) is Bool),
        },
{
    value.as_bool()
}

/// Relies on `toml::Value::as_str`: the string payload exactly when the
/// value is a string.
#[verifier::external_body]
fn value_as_str<'a>(value: &'a toml::Value) -> (r: Option<&'a str>)
    ensures
        match r {
            Some(s) => toml_content(*value) == TomlNode::Str(s@),
            None => !(toml_content(*value) is Str),
        },
{
    value.as_str()
}

/// Relies on `toml::Value::as_array`: the element list exactly when the
/// value is an array, its elements in order.
#[verifier::external_body]
fn value_as_array<'a>(value: &'a toml::Value) -> (r: Option<&'a Vec<toml::Value>>)
    ensures
        match r {
            Some(arr) => toml_content(*value) is Arr && toml_content(*value)->Arr_0.len()
                == arr@.len() && (forall|i: int|
                0 <= i < arr@.len() ==> toml_content(*value)->Arr_0[i] == #[trigger] toml_content(
                    arr@[i],
                )),
            None => !(toml_content(*value) is Arr),
        },
{
    value.as_array()
}

/// Relies on `toml::de::Error::message`: the human-readable account of a
/// parse failure.
#[verifier::external_body]
fn de_error_message(error: &toml::de::Error) -> String {
    String::from_str(error.message())
}

/// Why a manifest could not be turned into a fragment.
#[derive(Debug)]
pub enum MetadataError {
    /// The manifest could not be read from disk.
    Io(String),
    /// The manifest text is not a well-formed structured document.
    Parse(String),
}

/// The documentation-build section of a parsed document: the nested table
/// under the fixed key path, `None` when any level is missing or not a table.
pub open spec fn spec_section_of(doc: TomlNode) -> Option<TomlNode> {
    match spec_table_get(doc, "package"@) {
        Some(package) => match spec_table_get(package, "metadata"@) {
            Some(metadata) => match spec_table_get(metadata, "docs"@) {
                Some(docs) => spec_table_get(docs, "rs"@),
                None => None,
            },
            None => None,
        },
        None => None,
    }
}

/// The boolean field `key` of a section: `None` when missing or not a
/// boolean.
pub open spec fn spec_bool_field(section: TomlNode, key: Seq<char>) -> Option<bool> {
    match spec_table_get(section, key) {
        Some(v) => if v is Bool {
            Some(v->Bool_0)
        } else {
            None
        },
        None => None,
    }
}

/// The string field `key` of a section: `None` when missing or not a string.
pub open spec fn spec_string_field(section: TomlNode, key: Seq<char>) -> Option<Seq<char>> {
    match spec_table_get(section, key) {
        Some(v) => if v is Str {
            Some(v->Str_0)
        } else {
            None
        },
        None => None,
    }
}

/// The strings of an array node, in order: `None` on any non-array node and
/// on an array with a non-string element.
pub open spec fn spec_strings_of(node: TomlNode) -> Option<Seq<Seq<char>>> {
    if node is Arr && (forall|i: int| 0 <= i < node->Arr_0.len() ==> (#[trigger] node->Arr_0[i])
        is Str) {
        Some(Seq::new(node->Arr_0.len(), |i: int| node->Arr_0[i]->Str_0))
    } else {
        None
    }
}

/// The string-array field `key` of a section: `None` when missing, not an
/// array, or holding a non-string element.
pub open spec fn spec_string_array_field(section: TomlNode, key: Seq<char>) -> Option<
    Seq<Seq<char>>,
> {
    match spec_table_get(section, key) {
        Some(v) => spec_strings_of(v),
        None => None,
    }
}

/// The fragment a parsed document describes: absence of the section yields
/// the fully-default fragment; in the section, a missing or wrongly-typed
/// field yields that field's default, never an error.
pub open spec fn spec_fragment_of_doc(doc: TomlNode) -> MetadataView {
    match spec_section_of(doc) {
        Some(section) => MetadataView {
            features: spec_string_array_field(section, "features"@),
            all_features: spec_bool_field(section, "all-features"@) == Some(true),
            no_default_features: spec_bool_field(section, "no-default-features"@) == Some(true),
            default_target: spec_string_field(section, "default-target"@),
            targets: spec_string_array_field(section, "targets"@),
            rustc_args: spec_string_array_field(section, "rustc-args"@),
            rustdoc_args: spec_string_array_field(section, "rustdoc-args"@),
        },
        None => spec_default_metadata(),
    }
}

/// The fragment a manifest text describes: `Some` exactly on well-formed
/// documents, and then a function of the text alone.
pub open spec fn spec_manifest_fragment(text: Seq<char>) -> Option<MetadataView> {
    match spec_parse_manifest(text) {
        Some(doc) => Some(spec_fragment_of_doc(doc)),
        None => None,
    }
}

/// The section of a manifest that configures the documentation build, if the
/// document has one: exactly [`spec_section_of`] the document's content.
fn docs_rs_section<'a>(manifest: &'a toml::Value) -> (r: Option<&'a toml::Value>)
    ensures
        match r {
            Some(section) => spec_section_of(toml_content(*manifest)) == Some(
                toml_content(*section),
            ),
            None => spec_section_of(toml_content(*manifest)) is None,
        },
{
    match value_get(manifest, "package") {
        Some(package) => match value_get(package, "metadata") {
            Some(metadata) => match value_get(metadata, "docs") {
                Some(docs) => value_get(docs, "rs"),
                None => None,
            },
            None => None,
        },
        None => None,
    }
}

/// The strings of an array's elements: `None` as soon as one element is not
/// a string.
fn strings_of_values(values: &Vec<toml::Value>) -> (r: Option<Vec<String>>)
    ensures
        match r {
            Some(out) => out.deep_view().len() == values@.len() && (forall|k: int|
                0 <= k < values@.len() ==> #[trigger] toml_content(values@[k]) == TomlNode::Str(
                    out.deep_view()[k],
                )),
            None => exists|k: int|
                0 <= k < values@.len() && !(#[trigger] toml_content(values@[k]) is Str),
        },
{
    let mut out: Vec<String> = Vec::new();
    let mut i: usize = 0;
    while i < values.len()
        invariant
            i <= values.len(),
            out.deep_view().len() == i,
            forall|k: int|
                0 <= k < i ==> #[trigger] toml_content(values@[k]) == TomlNode::Str(
                    out.deep_view()[k],
                ),
        decreases values.len() - i,
    {
        match value_as_str(&values[i]) {
            Some(s) => {
                let ghost old_out: Seq<Seq<char>> = out.deep_view();
                out.push(s.to_owned());
                proof {
                    assert(out.deep_view() =~= old_out.push(s@));
                }
            },
            None => {
                assert(!(toml_content(values@[i as int]) is Str));
                return None;
            },
        }
        i = i + 1;
    }
    Some(out)
}

/// The string-array field `key` of `table`, exactly
/// [`spec_string_array_field`] of its content.
fn string_array_field(table: &toml::Value, key: &str) -> (r: Option<Vec<String>>)
    ensures
        r.deep_view() == spec_string_array_field(toml_content(*table), key@),
{
    match value_get(table, key) {
        Some(v) => match value_as_array(v) {
            Some(arr) => {
                let ghost node: TomlNode = toml_content(*v);
                match strings_of_values(arr) {
                    Some(out) => {
                        proof {
                            assert forall|i: int| 0 <= i < node->Arr_0.len() implies (
                            #[trigger] node->Arr_0[i]) is Str by {
                                assert(toml_content(arr@[i]) == TomlNode::Str(out.deep_view()[i]));
                            }
                            assert forall|i: int| 0 <= i < node->Arr_0.len() implies Seq::new(
                                node->Arr_0.len(),
                                |j: int| node->Arr_0[j]->Str_0,
                            )[i] == out.deep_view()[i] by {
                                assert(toml_content(arr@[i]) == TomlNode::Str(out.deep_view()[i]));
                                assert(node->Arr_0[i] == toml_content(arr@[i]));
                            }
                            assert(Seq::new(node->Arr_0.len(), |i: int| node->Arr_0[i]->Str_0)
                                =~= out.deep_view());
                        }
                        Some(out)
                    },
                    None => {
                        proof {
                            let k = choose|k: int|
                                0 <= k < arr@.len() && !(#[trigger] toml_content(arr@[k]) is Str);
                            assert(!(node->Arr_0[k] is Str));
                        }
                        None
                    },
                }
            },
            None => None,
        },
        None => None,
    }
}

/// The boolean field `key` of `table`, exactly [`spec_bool_field`] of its
/// content.
fn bool_field(table: &toml::Value, key: &str) -> (r: Option<bool>)
    ensures
        r == spec_bool_field(toml_content(*table), key@),
{
    match value_get(table, key) {
        Some(v) => value_as_bool(v),
        None => None,
    }
}

/// The string field `key` of `table`, exactly [`spec_string_field`] of its
/// content.
fn string_field(table: &toml::Value, key: &str) -> (r: Option<String>)
    ensures
        r.deep_view() == spec_string_field(toml_content(*table), key@),
{
    match value_get(table, key) {
        Some(v) => match value_as_str(v) {
            Some(s) => Some(s.to_owned()),
            None => None,
        },
        None => None,
    }
}

impl Metadata {
    /// Builds a fragment from the raw optional fields of a manifest section:
    /// each boolean flag defaults to off when its field is absent, every
    /// other field is kept as given.
    pub fn from_parts(
        features: Option<Vec<String>>,
        all_features: Option<bool>,
        no_default_features: Option<bool>,
        default_target: Option<String>,
        targets: Option<Vec<String>>,
        rustc_args: Option<Vec<String>>,
        rustdoc_args: Option<Vec<String>>,
    ) -> (m: Metadata)
        ensures
            m@ == (MetadataView {
                features: features.deep_view(),
                all_features: all_features == Some(true),
                no_default_features: no_default_features == Some(true),
                default_target: default_target.deep_view(),
                targets: targets.deep_view(),
                rustc_args: rustc_args.deep_view(),
                rustdoc_args: rustdoc_args.deep_view(),
            }),
    {
        let all_features_flag: bool = match all_features {
            Some(b) => b,
            None => false,
        };
        let no_default_features_flag: bool = match no_default_features {
            Some(b) => b,
            None => false,
        };
        Metadata {
            features,
            all_features: all_features_flag,
            no_default_features: no_default_features_flag,
            default_target,
            targets,
            rustc_args,
            rustdoc_args,
        }
    }

    /// Parses a manifest text into its fragment, exactly
    /// [`spec_manifest_fragment`]: a malformed document is a
    /// [`MetadataError::Parse`]; a well-formed one always yields a fragment,
    /// the fully-default one when the documentation-build section is absent.
    pub fn from_str(manifest: &str) -> (r: Result<Metadata, MetadataError>)
        ensures
            match r {
                Ok(m) => spec_manifest_fragment(manifest@) == Some(m@),
                Err(e) => e is Parse && spec_manifest_fragment(manifest@) is None,
            },
    {
        let value = match parse_toml_value(manifest) {
            Ok(v) => v,
            Err(e) => {
                return Err(MetadataError::Parse(de_error_message(&e)));
            },
        };
        let ghost doc: TomlNode = toml_content(value);
        match docs_rs_section(&value) {
            Some(table) => {
                let ghost section: TomlNode = toml_content(*table);
                let m = Metadata::from_parts(
                    string_array_field(table, "features"),
                    bool_field(table, "all-features"),
                    bool_field(table, "no-default-features"),
                    string_field(table, "default-target"),
                    string_array_field(table, "targets"),
                    string_array_field(table, "rustc-args"),
                    string_array_field(table, "rustdoc-args"),
                );
                proof {
                    assert(m@ =~= spec_fragment_of_doc(doc));
                }
                Ok(m)
            },
            None => {
                let m = Metadata::default();
                proof {
                    assert(m@ =~= spec_fragment_of_doc(doc));
                }
                Ok(m)
            },
        }
    }
}

/// Law: parsing and resolution are pure — byte-identical manifest text
/// describes the identical fragment, and [`Metadata::from_str`] pins its
/// result to that fragment, so two calls on the same text return equal
/// fragments, and equal plans through them.
pub proof fn lemma_from_str_pure(text1: Seq<char>, text2: Seq<char>)
    requires
        text1 == text2,
    ensures
        spec_manifest_fragment(text1) == spec_manifest_fragment(text2),
{
}

/// Law: a well-formed manifest without the documentation-build section
/// yields the fully-default fragment, never an error, and that fragment
/// resolves to the host default target, the fixed default list minus the
/// host triple, the bare argument list, and empty extra-argument variables.
pub proof fn lemma_unconfigured_manifest(text: Seq<char>, doc: TomlNode)
    requires
        spec_parse_manifest(text) == Some(doc),
        spec_section_of(doc) is None,
    ensures
        spec_manifest_fragment(text) == Some(spec_default_metadata()),
        spec_default_target(spec_default_metadata()) == spec_host_target(),
        spec_other_targets(spec_default_metadata()) == spec_default_targets().to_set().remove(
            spec_host_target(),
        ),
        spec_cargo_args(spec_default_metadata()) == spec_base_args(),
        spec_environment_variables(spec_default_metadata()) == seq![
            ("RUSTFLAGS"@, Seq::<char>::empty()),
            ("RUSTDOCFLAGS"@, Seq::<char>::empty()),
            ("DOCS_RS"@, "1"@),
        ],
{
    assert(spec_cargo_args(spec_default_metadata()) =~= spec_base_args());
    assert(spec_environment_variables(spec_default_metadata()) =~= seq![
        ("RUSTFLAGS"@, Seq::<char>::empty()),
        ("RUSTDOCFLAGS"@, Seq::<char>::empty()),
        ("DOCS_RS"@, "1"@),
    ]);
}

/// The manifest file a source directory is read from: the pristine copy wins
/// over the plain one, and a directory with neither has no manifest.
pub fn manifest_file_name(orig_exists: bool, plain_exists: bool) -> (r: Option<&'static str>)
    ensures
        orig_exists ==> r == Some("Cargo.toml.orig"),
        !orig_exists && plain_exists ==> r == Some("Cargo.toml"),
        !orig_exists && !plain_exists ==> r is None,
{
    if orig_exists {
        Some("Cargo.toml.orig")
    } else if plain_exists {
        Some("Cargo.toml")
    } else {
        None
    }
}

} // verus!
