//! What the library reads and writes of a specification in YAML.

use vstd::prelude::*;

verus! {

/// The text under `metadata`/`name` of a YAML document, as `serde_yaml`
/// reads it; `None` where the text is no single YAML document or holds no
/// text there.
pub uninterp spec fn metadata_name(yaml: Seq<char>) -> Option<Seq<char>>;

/// The YAML document with the text under `metadata`/`name` replaced, as
/// `serde_yaml` writes it; `None` where there is no such document or it
/// cannot be written.
pub uninterp spec fn renamed(yaml: Seq<char>, name: Seq<char>) -> Option<Seq<char>>;

/// Reads the name of a specification: `serde_yaml::from_str` into a
/// `serde_yaml::Value`, then `Value::get` for "metadata" and for "name", then
/// `Value::as_str`. The contract names the result; it claims nothing of it
/// but that it depends on the text alone.
#[verifier::external_body]
pub(crate) fn read_metadata_name(yaml: &str) -> (name: Option<String>)
    ensures
        match name {
            Some(text) => metadata_name(yaml@) == Some(text@),
            None => metadata_name(yaml@) is None,
        },
{
    let document: serde_yaml::Value = serde_yaml::from_str(yaml).ok()?;
    document.get("metadata")?.get("name")?.as_str().map(|name| name.to_string())
}

/// Writes the specification with another name: `serde_yaml::from_str` into
/// a `serde_yaml::Value`, `Value::get_mut` for "metadata" and for "name",
/// the new text put there, then `serde_yaml::to_string`. The contract names
/// the result; it claims nothing of it but that it depends on the two texts
/// alone.
#[verifier::external_body]
pub(crate) fn write_metadata_name(yaml: &str, name: &str) -> (written: Option<String>)
    ensures
        match written {
            Some(text) => renamed(yaml@, name@) == Some(text@),
            None => renamed(yaml@, name@) is None,
        },
{
    let mut document: serde_yaml::Value = serde_yaml::from_str(yaml).ok()?;
    *document.get_mut("metadata")?.get_mut("name")? = serde_yaml::Value::String(name.to_string());
    serde_yaml::to_string(&document).ok()
}

} // verus!
