use crate::error::PlaylistError;
use crate::registry::{entries_map, names_unique, Registry};
use vstd::prelude::*;

verus! {

#[verifier::external_type_specification]
#[verifier::external_body]
pub struct ExJsonError(serde_json::Error);

/// The mapping that `serde_json::from_str` reads from the text as a JSON object
/// of strings, or `None` where the text is not one.
pub uninterp spec fn json_object(text: Seq<char>) -> Option<Map<Seq<char>, Seq<char>>>;

/// The text that `serde_json::to_string_pretty` writes for a mapping of strings
/// held in key order.
pub uninterp spec fn json_text(m: Map<Seq<char>, Seq<char>>) -> Seq<char>;

/// Relies on `serde_json::from_str`, read into a `BTreeMap<String, String>`,
/// whose entries are then handed out once each, in key order.
#[verifier::external_body]
fn decode_object(text: &str) -> (r: Result<Vec<(String, String)>, serde_json::Error>)
    ensures
        r is Ok <==> json_object(text@) is Some,
        r matches Ok(v) ==> names_unique(v@) && json_object(text@) == Some(entries_map(v@)),
{
    serde_json::from_str::<std::collections::BTreeMap<String, String>>(text).map(
        |m| m.into_iter().collect(),
    )
}

/// Relies on `serde_json::to_string_pretty` over a `BTreeMap<&str, &str>`: it
/// fails only where a `Serialize` impl fails or a map key is not a string, and
/// neither happens for a map of strings written into memory. The map is walked
/// in key order, so the text depends on the mapping alone, and each key and
/// value is written as a JSON string, which `serde_json::from_str` reads back to
/// the same mapping.
#[verifier::external_body]
fn encode_object(entries: &Vec<(String, String)>) -> (r: Result<String, serde_json::Error>)
    requires
        names_unique(entries@),
    ensures
        r is Ok,
        r matches Ok(t) ==> t@ == json_text(entries_map(entries@)) && json_object(t@) == Some(
            entries_map(entries@),
        ),
{
    let m: std::collections::BTreeMap<&str, &str> = entries.iter().map(
        |e| (e.0.as_str(), e.1.as_str()),
    ).collect();
    serde_json::to_string_pretty(&m)
}

/// The registry that the text of the registry file stands for: what it holds
/// as a JSON object of strings, and nothing where it is not one.
pub open spec fn loaded(text: Seq<char>) -> Map<Seq<char>, Seq<char>> {
    match json_object(text) {
        Some(m) => m,
        None => Map::empty(),
    }
}

/// `text` is what persisting the mapping `m` writes.
pub open spec fn persisted_as(m: Map<Seq<char>, Seq<char>>, text: Seq<char>) -> bool {
    text == json_text(m) && json_object(text) == Some(m)
}

/// The registry for what decoding the file gave: its entries, or an empty
/// registry where the text could not be decoded.
pub fn registry_from_decoded(decoded: Option<Vec<(String, String)>>) -> (r: Registry)
    requires
        decoded matches Some(v) ==> names_unique(v@),
    ensures
        r.wf(),
        r@ == match decoded {
            Some(v) => entries_map(v@),
            None => Map::empty(),
        },
{
    match decoded {
        Some(v) => Registry::from_entries(v),
        None => Registry::new(),
    }
}

/// Reads the registry from the text of its file. Text that is not a JSON object
/// of strings gives an empty registry: this never fails.
pub fn load_playlists(data: &str) -> (r: Result<Registry, PlaylistError>)
    ensures
        r is Ok,
        r matches Ok(reg) ==> reg.wf() && reg@ == loaded(data@),
{
    let decoded = match decode_object(data) {
        Ok(v) => Some(v),
        Err(_) => None,
    };
    Ok(registry_from_decoded(decoded))
}

/// The text to write to the registry file for `playlists`, the whole file.
/// Producing it never fails: only writing it can.
pub fn persist_text(playlists: &Registry) -> (r: Result<String, PlaylistError>)
    requires
        playlists.wf(),
    ensures
        r is Ok,
        r matches Ok(t) ==> persisted_as(playlists@, t@),
{
    let entries = playlists.entries();
    match encode_object(&entries) {
        Ok(t) => Ok(t),
        Err(_) => Err(PlaylistError::FileWriteFailed),
    }
}

/// Persisting a registry, loading what was written and persisting that again
/// gives the registry back, and the same text byte for byte.
pub proof fn lemma_persist_load_round_trip(
    m: Map<Seq<char>, Seq<char>>,
    first: Seq<char>,
    second: Seq<char>,
)
    requires
        persisted_as(m, first),
        persisted_as(loaded(first), second),
    ensures
        loaded(first) == m,
        loaded(second) == m,
        second == first,
{
}

/// Removing a name that is not tracked leaves the registry as it was, and the
/// file written afterwards is the one written before, byte for byte.
pub proof fn lemma_remove_absent_keeps_file(
    m: Map<Seq<char>, Seq<char>>,
    name: Seq<char>,
    before: Seq<char>,
    after: Seq<char>,
)
    requires
        !m.contains_key(name),
        persisted_as(m, before),
        persisted_as(m.remove(name), after),
    ensures
        m.remove(name) == m,
        after == before,
{
    assert(m.remove(name) =~= m);
}

/// A file whose text is not a JSON object of strings loads as an empty registry.
pub proof fn lemma_corrupt_file_loads_empty(text: Seq<char>)
    requires
        json_object(text) is None,
    ensures
        loaded(text) == Map::<Seq<char>, Seq<char>>::empty(),
{
}

} // verus!
