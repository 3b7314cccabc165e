//! Trusted boundary to the YAML parser.
//!
//! Metadata files are YAML key-to-string mappings. Parsing them is delegated
//! to `serde_yaml`; nothing here restates the YAML grammar. Instead the
//! parse result is given a name, [`yaml_string_pairs`]: on a given text it is
//! a fixed but unspecified value, so every contract downstream speaks of the
//! parse outcome exactly without claiming what any particular text parses to.

use vstd::prelude::*;

verus! {

/// The outcome of parsing `text` as a YAML key-to-string mapping: `None`
/// when the text is not such a mapping, otherwise the key/value pairs in
/// ascending key order. The outcome depends on the text alone.
pub uninterp spec fn yaml_string_pairs(text: Seq<char>) -> Option<
    Seq<(Seq<char>, Seq<char>)>,
>;

/// Ghost image of a list of owned key/value pairs.
pub open spec fn pairs_view(pairs: Seq<(String, String)>) -> Seq<(Seq<char>, Seq<char>)> {
    pairs.map_values(|p: (String, String)| (p.0@, p.1@))
}

#[verifier::external_type_specification]
#[verifier::external_body]
pub struct ExYamlError(serde_yaml::Error);

/// Relies on `serde_yaml::from_str` deserializing a
/// `BTreeMap<String, String>`: it succeeds exactly when the text is a YAML
/// mapping from strings to strings, the result depends on the text alone,
/// and a `BTreeMap` hands its entries out in ascending key order.
#[verifier::external_body]
pub(crate) fn parse_string_pairs(text: &str) -> (r: Result<
    Vec<(String, String)>,
    serde_yaml::Error,
>)
    ensures
        r is Ok <==> yaml_string_pairs(text@) is Some,
        r matches Ok(pairs) ==> yaml_string_pairs(text@) == Some(pairs_view(pairs@)),
{
    match serde_yaml::from_str::<std::collections::BTreeMap<String, String>>(text) {
        Ok(map) => Ok(map.into_iter().collect()),
        Err(e) => Err(e),
    }
}

} // verus!
