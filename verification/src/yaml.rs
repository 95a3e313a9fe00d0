//! Trusted access to the YAML document tree.
//!
//! Parsing and tree navigation are done by `serde_yaml`; every call into it
//! stands behind one of the small trusted functions below. A parsed value is
//! opaque to the verifier, so its content is given a name: `yaml_model` maps
//! each node to an abstract tree, and `parse_of` names the tree a text
//! parses to — a function of the text alone. Each trusted function states
//! its result over that model exactly as the crate's source shows it; the
//! mapping of fields into the library's own records is then ordinary
//! verified logic.

use vstd::prelude::*;

verus! {

/// A node of a parsed YAML document, as `serde_yaml` represents it.
#[verifier::external_type_specification]
#[verifier::external_body]
pub struct ExYamlValue(serde_yaml::Value);

/// The abstract shape of one YAML node. A number is modeled by the one
/// reading this library takes of it (its value as an unsigned integer,
/// where it has one); a tagged node keeps its tag wrapper, because key
/// lookup sees tags while every value accessor looks through them.
pub ghost enum YamlModel {
    Null,
    Bool(bool),
    Number { as_unsigned: Option<u64> },
    Str(Seq<char>),
    List(Seq<YamlModel>),
    Mapping(Seq<(YamlModel, YamlModel)>),
    Tagged(Box<YamlModel>),
}

/// The node behind any chain of tags, as `Value::untag_ref` walks it.
pub open spec fn untag_model(m: YamlModel) -> YamlModel
    decreases m,
{
    match m {
        YamlModel::Tagged(inner) => untag_model(*inner),
        _ => m,
    }
}

/// The entry a string key selects in a mapping: the one whose key is that
/// string itself — a tagged key never matches, as in `Mapping::get` with a
/// string index.
pub open spec fn model_get(entries: Seq<(YamlModel, YamlModel)>, key: Seq<char>) -> Option<
    YamlModel,
>
    decreases entries.len(),
{
    if entries.len() == 0 {
        None
    } else if entries[0].0 == YamlModel::Str(key) {
        Some(entries[0].1)
    } else {
        model_get(entries.drop_first(), key)
    }
}

/// The model of a parsed value.
pub uninterp spec fn yaml_model(v: serde_yaml::Value) -> YamlModel;

/// The tree a text parses to, absent when the text is not valid YAML.
/// Parsing is a function of the text alone.
pub uninterp spec fn parse_of(text: Seq<char>) -> Option<YamlModel>;

/// Relies on `serde_yaml::from_str`: parses a document into a tree, `None`
/// exactly when the text is not structurally valid YAML.
#[verifier::external_body]
pub(crate) fn parse_document(text: &str) -> (r: Option<serde_yaml::Value>)
    ensures
        (r is Some) == (parse_of(text@) is Some),
        r matches Some(v) ==> parse_of(text@) == Some(yaml_model(v)),
{
    serde_yaml::from_str(text).ok()
}

/// Relies on `serde_yaml::Value::get` with a string index: looks the key up
/// in the node's untagged mapping form — only an entry whose key is that
/// plain string matches — and is `None` for any other node or an absent
/// key.
#[verifier::external_body]
pub(crate) fn get_field<'a>(node: &'a serde_yaml::Value, key: &str) -> (r: Option<
    &'a serde_yaml::Value,
>)
    ensures
        match untag_model(yaml_model(*node)) {
            YamlModel::Mapping(entries) => match model_get(entries, key@) {
                Some(m) => r matches Some(v) && yaml_model(*v) == m,
                None => r is None,
            },
            _ => r is None,
        },
{
    node.get(key)
}

/// Relies on `serde_yaml::Value::is_mapping`: true exactly for a node whose
/// untagged form is a mapping.
#[verifier::external_body]
pub(crate) fn is_mapping(node: &serde_yaml::Value) -> (r: bool)
    ensures
        r == (untag_model(yaml_model(*node)) is Mapping),
{
    node.is_mapping()
}

/// Relies on `serde_yaml::Value::as_bool`: `Some` exactly for a node whose
/// untagged form is a boolean.
#[verifier::external_body]
pub(crate) fn as_bool(node: &serde_yaml::Value) -> (r: Option<bool>)
    ensures
        r == (match untag_model(yaml_model(*node)) {
            YamlModel::Bool(b) => Some(b),
            _ => None::<bool>,
        }),
{
    node.as_bool()
}

/// Relies on `serde_yaml::Value::as_str`: `Some` exactly for a node whose
/// untagged form is a string, handed out as an owned copy.
#[verifier::external_body]
pub(crate) fn as_string(node: &serde_yaml::Value) -> (r: Option<String>)
    ensures
        match untag_model(yaml_model(*node)) {
            YamlModel::Str(s) => r matches Some(x) && x@ == s,
            _ => r is None,
        },
{
    node.as_str().map(str::to_owned)
}

/// Relies on `serde_yaml::Value::as_u64`: `Some` exactly for a node whose
/// untagged form is a number with an unsigned integer value.
#[verifier::external_body]
pub(crate) fn as_u64(node: &serde_yaml::Value) -> (r: Option<u64>)
    ensures
        r == (match untag_model(yaml_model(*node)) {
            YamlModel::Number { as_unsigned } => as_unsigned,
            _ => None::<u64>,
        }),
{
    node.as_u64()
}

/// Relies on `serde_yaml::Value::as_sequence`: `Some` exactly for a node
/// whose untagged form is a sequence, handing its elements out one for one
/// and in order.
#[verifier::external_body]
pub(crate) fn as_sequence(node: &serde_yaml::Value) -> (r: Option<Vec<serde_yaml::Value>>)
    ensures
        match untag_model(yaml_model(*node)) {
            YamlModel::List(ms) => r matches Some(v) && v@.len() == ms.len() && (forall|i: int|
                0 <= i < ms.len() ==> yaml_model(v@[i]) == ms[i]),
            _ => r is None,
        },
{
    node.as_sequence().map(|s| s.to_vec())
}

/// Whether an entry key is handed out by `as_entries` as this string: the
/// key's untagged form, where it is a string.
pub open spec fn entry_key_matches(key_model: YamlModel, out: Option<String>) -> bool {
    match untag_model(key_model) {
        YamlModel::Str(s) => out matches Some(k) && k@ == s,
        _ => out is None,
    }
}

/// Relies on `serde_yaml::Value::as_mapping` and `Mapping::iter`: `Some`
/// exactly for a node whose untagged form is a mapping, handing its entries
/// out one for one and in order, each key as a string where its untagged
/// form is one.
#[verifier::external_body]
pub(crate) fn as_entries(node: &serde_yaml::Value) -> (r: Option<
    Vec<(Option<String>, serde_yaml::Value)>,
>)
    ensures
        match untag_model(yaml_model(*node)) {
            YamlModel::Mapping(entries) => r matches Some(v) && v@.len() == entries.len() && (
            forall|i: int|
                0 <= i < entries.len() ==> entry_key_matches(entries[i].0, #[trigger] v@[i].0)
                    && yaml_model(v@[i].1) == entries[i].1),
            _ => r is None,
        },
{
    node.as_mapping().map(
        |m| m.iter().map(|(k, v)| (k.as_str().map(str::to_owned), v.clone())).collect(),
    )
}

} // verus!
