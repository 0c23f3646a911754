//! Reading the declared script names out of the nearest project manifest.
//!
//! The caller hands in the manifest text found at each level of the bounded
//! ancestor walk (closest first, `None` where the level has no manifest);
//! the first level that has a manifest decides.  A manifest that cannot be
//! parsed, or has no "scripts" section, yields no script names — never an
//! error.

use vstd::prelude::*;

use crate::manager::WALK_BOUND;

verus! {

/// What the keys of the top-level object named `key` of the JSON document
/// `doc` are: a fixed function of the document text and the key alone,
/// left uninterpreted here.  Empty when the document does not parse or the
/// named section is missing or not an object.
pub uninterp spec fn json_object_keys_of(doc: Seq<char>, key: Seq<char>) -> Seq<Seq<char>>;

/// Relies on serde_json — `from_str`, `Value::get`, `Value::as_object` and
/// `Map::keys` — to list the keys of the top-level object named `key`.
/// The result depends on the document text and the key alone: the default
/// map keeps its keys in sorted order, so even the order is fixed.  An
/// unparsable document or a missing or non-object section yields no keys.
#[verifier::external_body]
fn parse_object_keys(doc: &str, key: &str) -> (r: Vec<String>)
    ensures
        r.deep_view() == json_object_keys_of(doc@, key@),
{
    match serde_json::from_str::<serde_json::Value>(doc) {
        Ok(v) => match v.get(key).and_then(|s| s.as_object()) {
            Some(map) => map.keys().cloned().collect(),
            None => Vec::new(),
        },
        Err(_) => Vec::new(),
    }
}

/// The script names declared by a manifest: the keys of its "scripts"
/// section.
pub open spec fn scripts_of_manifest(content: Seq<char>) -> Seq<Seq<char>> {
    json_object_keys_of(content, "scripts"@)
}

/// The script names of the nearest manifest within the bounded walk,
/// scanning from level `i` onward; no manifest within the bound means no
/// script names.
pub open spec fn read_scripts_from(manifests: Seq<Option<Seq<char>>>, i: int) -> Seq<Seq<char>>
    decreases manifests.len() - i,
{
    if i < 0 || i >= manifests.len() || i >= WALK_BOUND {
        Seq::empty()
    } else {
        match manifests[i] {
            Some(content) => scripts_of_manifest(content),
            None => read_scripts_from(manifests, i + 1),
        }
    }
}

/// The script names of the nearest manifest within the bounded walk.
pub open spec fn read_scripts_spec(manifests: Seq<Option<Seq<char>>>) -> Seq<Seq<char>> {
    read_scripts_from(manifests, 0)
}

/// Read the declared script names from the nearest manifest.  `manifests`
/// holds the manifest text found at each level of the ancestor walk,
/// closest first, `None` where the level has no manifest; only the first
/// `WALK_BOUND` levels count.  Always yields a plain sequence of names,
/// possibly empty — never an error.
pub fn read_package_json_scripts(manifests: &Vec<Option<String>>) -> (r: Vec<String>)
    ensures
        r.deep_view() == read_scripts_spec(manifests.deep_view()),
{
    let ghost ms = manifests.deep_view();
    let mut i: usize = 0;
    while i < manifests.len() && i < WALK_BOUND
        invariant
            i <= manifests.len(),
            ms == manifests.deep_view(),
            ms.len() == manifests.len(),
            forall|j: int| 0 <= j < manifests.len() ==> ms[j] == manifests@[j].deep_view(),
            read_scripts_spec(ms) == read_scripts_from(ms, i as int),
        decreases manifests.len() - i,
    {
        match &manifests[i] {
            Some(content) => {
                return parse_object_keys(content.as_str(), "scripts");
            },
            None => {},
        }
        i = i + 1;
    }
    let r: Vec<String> = Vec::new();
    proof {
        assert(r.deep_view() =~= Seq::<Seq<char>>::empty());
    }
    r
}

} // verus!
