//! Loading the manifest: serde_json parses the raw bytes into a generic
//! JSON document, which one trusted wrapper hands over as a plain tree;
//! verified code walks that tree, checks it against the manifest schema,
//! and builds the typed model. The loader succeeds exactly when the bytes
//! are well-formed JSON whose document follows the schema, and any
//! manifest it returns is well-formed: every entry carries at least one
//! mirror URL. No network is reachable from here: a malformed document is
//! rejected before any entry could be processed.

use vstd::prelude::*;
use crate::manifest::{
    requirement_of, Dependencies, Env, File, Hashes, ManifestError, MrPack, Requirement,
};
use crate::text::str_eq;

verus! {

/// A JSON document as a plain tree. An object's pairs keep the order
/// serde_json hands them over in; a number is carried in its signed and
/// unsigned integer readings, and one that is no integer carries neither.
#[derive(Debug)]
pub enum JsonNode {
    Null,
    Bool(bool),
    Number { signed: Option<i64>, unsigned: Option<u64> },
    Text(String),
    Array(Vec<JsonNode>),
    Object(Vec<(String, JsonNode)>),
}

/// The document the bytes parse to, if they are well-formed JSON: what
/// serde_json::from_slice returns, a function of the bytes alone.
pub uninterp spec fn json_of(bytes: Seq<u8>) -> Option<JsonNode>;

#[verifier::external_type_specification]
#[verifier::external_body]
pub struct ExValue(serde_json::Value);

/// Relies on the serde_json::Value variants: rebuilds a parsed document
/// as the library's plain tree, one arm per variant, field for field
/// (a number through its two integer readings).
#[verifier::external_body]
fn node_of_value(v: serde_json::Value) -> JsonNode {
    match v {
        serde_json::Value::Null => JsonNode::Null,
        serde_json::Value::Bool(b) => JsonNode::Bool(b),
        serde_json::Value::Number(n) => JsonNode::Number { signed: n.as_i64(), unsigned: n.as_u64() },
        serde_json::Value::String(s) => JsonNode::Text(s),
        serde_json::Value::Array(a) => JsonNode::Array(
            a.into_iter().map(node_of_value).collect(),
        ),
        serde_json::Value::Object(o) => JsonNode::Object(
            o.into_iter().map(|p| (p.0, node_of_value(p.1))).collect(),
        ),
    }
}

/// Relies on serde_json::from_slice::<Value>: parses a JSON document from
/// bytes, failing exactly when the bytes are not well-formed JSON. The
/// result depends on the bytes alone and is named `json_of`.
#[verifier::external_body]
fn json_parse(bytes: &[u8]) -> (r: Option<JsonNode>)
    ensures
        r == json_of(bytes@),
{
    match serde_json::from_slice::<serde_json::Value>(bytes) {
        Ok(v) => Some(node_of_value(v)),
        Err(_) => None,
    }
}

/// The value under the first pair holding `key` (serde_json's objects
/// carry each key once).
pub open spec fn obj_lookup(entries: Seq<(String, JsonNode)>, key: Seq<char>) -> Option<JsonNode>
    decreases entries.len(),
{
    if entries.len() == 0 {
        None
    } else if entries[0].0@ == key {
        Some(entries[0].1)
    } else {
        obj_lookup(entries.drop_first(), key)
    }
}

/// The value under `key`, when the node is an object holding the key.
pub open spec fn field_of(d: JsonNode, key: Seq<char>) -> Option<JsonNode> {
    match d {
        JsonNode::Object(entries) => obj_lookup(entries@, key),
        _ => None,
    }
}

/// The string under `key`, when there is one.
pub open spec fn string_field(d: JsonNode, key: Seq<char>) -> Option<String> {
    match field_of(d, key) {
        Some(JsonNode::Text(s)) => Some(s),
        _ => None,
    }
}

/// The signed integer under `key`, when there is one.
pub open spec fn int_field(d: JsonNode, key: Seq<char>) -> Option<i64> {
    match field_of(d, key) {
        Some(JsonNode::Number { signed, .. }) => signed,
        _ => None,
    }
}

/// The unsigned integer under `key`, when there is one.
pub open spec fn nat_field(d: JsonNode, key: Seq<char>) -> Option<u64> {
    match field_of(d, key) {
        Some(JsonNode::Number { unsigned, .. }) => unsigned,
        _ => None,
    }
}

/// Every element of `a` is a string.
pub open spec fn all_strings(a: Seq<JsonNode>) -> bool {
    forall|i: int| 0 <= i < a.len() ==> ((#[trigger] a[i]) is Text)
}

/// `urls` holds exactly the strings of `a`, in order.
pub open spec fn downloads_match(urls: Seq<String>, a: Seq<JsonNode>) -> bool {
    &&& urls.len() == a.len()
    &&& forall|i: int| 0 <= i < a.len() ==> ((#[trigger] a[i]) matches JsonNode::Text(s) && s
        == urls[i])
}

/// The document node is a well-formed entry: every field present with
/// the right type, both env strings naming a requirement, a non-empty
/// array of mirror URL strings, and a declared size that fits the model.
pub open spec fn file_ok(d: JsonNode) -> bool {
    &&& string_field(d, "path"@) is Some
    &&& (field_of(d, "hashes"@) matches Some(h) && string_field(h, "sha1"@) is Some
        && string_field(h, "sha512"@) is Some)
    &&& (field_of(d, "env"@) matches Some(e) && (string_field(e, "client"@) matches Some(c)
        && requirement_of(c@) is Some) && (string_field(e, "server"@) matches Some(s)
        && requirement_of(s@) is Some))
    &&& (field_of(d, "downloads"@) matches Some(n) && n matches JsonNode::Array(a) && all_strings(
        a@,
    ) && a@.len() > 0)
    &&& (nat_field(d, "fileSize"@) matches Some(u) && u <= u32::MAX)
}

/// `f` is the entry the document node describes.
pub open spec fn file_matches(f: File, d: JsonNode) -> bool {
    &&& string_field(d, "path"@) == Some(f.path)
    &&& (field_of(d, "hashes"@) matches Some(h) && string_field(h, "sha1"@) == Some(f.hashes.sha1)
        && string_field(h, "sha512"@) == Some(f.hashes.sha512))
    &&& (field_of(d, "env"@) matches Some(e) && (string_field(e, "client"@) matches Some(c)
        && requirement_of(c@) == Some(f.env.client)) && (string_field(e, "server"@)
        matches Some(s) && requirement_of(s@) == Some(f.env.server)))
    &&& (field_of(d, "downloads"@) matches Some(n) && n matches JsonNode::Array(a)
        && downloads_match(f.downloads@, a@))
    &&& nat_field(d, "fileSize"@) == Some(f.file_size as u64)
}

/// The document is a well-formed manifest: every field present with the
/// right type, a format version that fits the model, and every entry
/// well-formed.
pub open spec fn manifest_ok(d: JsonNode) -> bool {
    &&& (int_field(d, "formatVersion"@) matches Some(v) && i32::MIN <= v <= i32::MAX)
    &&& string_field(d, "game"@) is Some
    &&& string_field(d, "versionId"@) is Some
    &&& string_field(d, "name"@) is Some
    &&& (field_of(d, "files"@) matches Some(n) && n matches JsonNode::Array(a) && forall|i: int|
        0 <= i < a@.len() ==> file_ok(#[trigger] a@[i]))
    &&& (field_of(d, "dependencies"@) matches Some(p) && string_field(p, "forge"@) is Some
        && string_field(p, "minecraft"@) is Some)
}

/// `m` is the manifest the document describes.
pub open spec fn manifest_matches(m: MrPack, d: JsonNode) -> bool {
    &&& int_field(d, "formatVersion"@) == Some(m.format_version as i64)
    &&& string_field(d, "game"@) == Some(m.game)
    &&& string_field(d, "versionId"@) == Some(m.version_id)
    &&& string_field(d, "name"@) == Some(m.name)
    &&& (field_of(d, "files"@) matches Some(n) && n matches JsonNode::Array(a) && m.files@.len()
        == a@.len() && forall|i: int| 0 <= i < a@.len() ==> file_matches(
        m.files@[i],
        #[trigger] a@[i],
    ))
    &&& (field_of(d, "dependencies"@) matches Some(p) && string_field(p, "forge"@) == Some(
        m.dependencies.forge,
    ) && string_field(p, "minecraft"@) == Some(m.dependencies.minecraft))
}

/// Finds the pair holding `key` in an object's entries.
fn lookup_field<'a>(entries: &'a Vec<(String, JsonNode)>, key: &str) -> (r: Option<&'a JsonNode>)
    ensures
        r matches Some(p) ==> obj_lookup(entries@, key@) == Some(*p),
        r is None ==> obj_lookup(entries@, key@) is None,
{
    let mut i: usize = 0;
    proof {
        assert(entries@.skip(0) =~= entries@);
    }
    while i < entries.len()
        invariant
            0 <= i <= entries@.len(),
            obj_lookup(entries@, key@) == obj_lookup(entries@.skip(i as int), key@),
        decreases entries@.len() - i,
    {
        proof {
            assert(entries@.skip(i as int)[0] == entries@[i as int]);
        }
        if str_eq(entries[i].0.as_str(), key) {
            return Some(&entries[i].1);
        }
        proof {
            assert(entries@.skip(i as int).drop_first() =~= entries@.skip(i + 1));
        }
        i = i + 1;
    }
    None
}

/// The value under `key` of the document node, when it is an object
/// holding the key.
fn get_field<'a>(d: &'a JsonNode, key: &str) -> (r: Option<&'a JsonNode>)
    ensures
        r matches Some(p) ==> field_of(*d, key@) == Some(*p),
        r is None ==> field_of(*d, key@) is None,
{
    match d {
        JsonNode::Object(entries) => lookup_field(entries, key),
        _ => None,
    }
}

/// The string held by field `key`, or the schema error.
fn get_string_field(d: &JsonNode, key: &str) -> (r: Result<String, ManifestError>)
    ensures
        r matches Ok(s) ==> string_field(*d, key@) == Some(s),
        r is Err <==> string_field(*d, key@) is None,
        r matches Err(e) ==> e == ManifestError::Parse,
{
    match get_field(d, key) {
        Some(n) => match n {
            JsonNode::Text(s) => Ok(s.clone()),
            _ => Err(ManifestError::Parse),
        },
        None => Err(ManifestError::Parse),
    }
}

/// The requirement named by field `key`, or the schema error.
fn get_requirement_field(d: &JsonNode, key: &str) -> (r: Result<Requirement, ManifestError>)
    ensures
        r matches Ok(q) ==> (string_field(*d, key@) matches Some(s) && requirement_of(s@) == Some(
            q,
        )),
        r is Err <==> !(string_field(*d, key@) matches Some(s) && requirement_of(s@) is Some),
        r matches Err(e) ==> e == ManifestError::Parse,
{
    let s = match get_string_field(d, key) {
        Ok(s) => s,
        Err(e) => {
            return Err(e);
        },
    };
    match Requirement::parse(s.as_str()) {
        Some(q) => Ok(q),
        None => Err(ManifestError::Parse),
    }
}

/// The signed integer held by field `key`, when there is one.
fn get_int_field(d: &JsonNode, key: &str) -> (r: Option<i64>)
    ensures
        r == int_field(*d, key@),
{
    match get_field(d, key) {
        Some(n) => match n {
            JsonNode::Number { signed, .. } => *signed,
            _ => None,
        },
        None => None,
    }
}

/// The unsigned integer held by field `key`, when there is one.
fn get_nat_field(d: &JsonNode, key: &str) -> (r: Option<u64>)
    ensures
        r == nat_field(*d, key@),
{
    match get_field(d, key) {
        Some(n) => match n {
            JsonNode::Number { unsigned, .. } => *unsigned,
            _ => None,
        },
        None => None,
    }
}

/// Checks a declared format version against the model's integer range.
/// It is accepted exactly when it fits.
pub fn check_format_version(v: i64) -> (r: Result<i32, ManifestError>)
    ensures
        i32::MIN <= v <= i32::MAX <==> (r matches Ok(n) && n == v),
        !(i32::MIN <= v <= i32::MAX) <==> (r matches Err(e) && e == ManifestError::Parse),
{
    if i32::MIN as i64 <= v && v <= i32::MAX as i64 {
        Ok(v as i32)
    } else {
        Err(ManifestError::Parse)
    }
}

/// Checks a declared file size against the model's integer range. It is
/// accepted exactly when it fits.
pub fn check_file_size(v: u64) -> (r: Result<u32, ManifestError>)
    ensures
        v <= u32::MAX <==> (r matches Ok(n) && n == v),
        v > u32::MAX <==> (r matches Err(e) && e == ManifestError::Parse),
{
    if v <= u32::MAX as u64 {
        Ok(v as u32)
    } else {
        Err(ManifestError::Parse)
    }
}

/// Builds one entry from its document node: it succeeds exactly when the
/// node is a well-formed entry, and then returns the entry the node
/// describes. An entry with an empty mirror list is rejected: mirror
/// order defines fallback priority, and an entry must have at least one
/// mirror.
fn parse_file(d: &JsonNode) -> (r: Result<File, ManifestError>)
    ensures
        r is Ok <==> file_ok(*d),
        r matches Ok(f) ==> (file_matches(f, *d) && f.wf()),
        r matches Err(e) ==> e == ManifestError::Parse,
{
    let path = match get_string_field(d, "path") {
        Ok(s) => s,
        Err(e) => {
            return Err(e);
        },
    };
    let hashes_node = match get_field(d, "hashes") {
        Some(h) => h,
        None => {
            return Err(ManifestError::Parse);
        },
    };
    let sha1 = match get_string_field(hashes_node, "sha1") {
        Ok(s) => s,
        Err(e) => {
            return Err(e);
        },
    };
    let sha512 = match get_string_field(hashes_node, "sha512") {
        Ok(s) => s,
        Err(e) => {
            return Err(e);
        },
    };
    let env_node = match get_field(d, "env") {
        Some(h) => h,
        None => {
            return Err(ManifestError::Parse);
        },
    };
    let client = match get_requirement_field(env_node, "client") {
        Ok(q) => q,
        Err(e) => {
            return Err(e);
        },
    };
    let server = match get_requirement_field(env_node, "server") {
        Ok(q) => q,
        Err(e) => {
            return Err(e);
        },
    };
    let downloads_node = match get_field(d, "downloads") {
        Some(n) => n,
        None => {
            return Err(ManifestError::Parse);
        },
    };
    let elements = match downloads_node {
        JsonNode::Array(a) => a,
        _ => {
            return Err(ManifestError::Parse);
        },
    };
    let mut downloads: Vec<String> = Vec::new();
    let mut i: usize = 0;
    while i < elements.len()
        invariant
            0 <= i <= elements@.len(),
            downloads@.len() == i,
            field_of(*d, "downloads"@) == Some(*downloads_node),
            (*downloads_node) matches JsonNode::Array(arr) && arr@ == elements@,
            forall|k: int| 0 <= k < i ==> ((#[trigger] elements@[k]) matches JsonNode::Text(s)
                && s == downloads@[k]),
        decreases elements@.len() - i,
    {
        match &elements[i] {
            JsonNode::Text(s) => downloads.push(s.clone()),
            _ => {
                proof {
                    assert(!((elements@[i as int]) is Text));
                    assert(!all_strings(elements@));
                    assert((*downloads_node) matches JsonNode::Array(a) && a@ == elements@);
                    assert(!file_ok(*d));
                }
                return Err(ManifestError::Parse);
            },
        }
        i = i + 1;
    }
    if downloads.len() == 0 {
        proof {
            assert((*downloads_node) matches JsonNode::Array(a) && a@ == elements@);
            assert(elements@.len() == 0);
            assert(!file_ok(*d));
        }
        return Err(ManifestError::Parse);
    }
    let size_raw = match get_nat_field(d, "fileSize") {
        Some(u) => u,
        None => {
            return Err(ManifestError::Parse);
        },
    };
    let file_size = match check_file_size(size_raw) {
        Ok(n) => n,
        Err(e) => {
            return Err(e);
        },
    };
    Ok(
        File {
            path,
            hashes: Hashes { sha1, sha512 },
            env: Env { client, server },
            downloads,
            file_size,
        },
    )
}

/// Builds the dependency metadata from its document node: it succeeds
/// exactly when both platform versions are present as strings.
fn parse_dependencies(d: &JsonNode) -> (r: Result<Dependencies, ManifestError>)
    ensures
        r is Ok <==> (string_field(*d, "forge"@) is Some && string_field(*d, "minecraft"@)
            is Some),
        r matches Ok(p) ==> (string_field(*d, "forge"@) == Some(p.forge) && string_field(
            *d,
            "minecraft"@,
        ) == Some(p.minecraft)),
        r matches Err(e) ==> e == ManifestError::Parse,
{
    let forge = match get_string_field(d, "forge") {
        Ok(s) => s,
        Err(e) => {
            return Err(e);
        },
    };
    let minecraft = match get_string_field(d, "minecraft") {
        Ok(s) => s,
        Err(e) => {
            return Err(e);
        },
    };
    Ok(Dependencies { forge, minecraft })
}

/// Turns the raw bytes of a manifest document into the typed model, or
/// reports the parse error. It succeeds exactly when the bytes are
/// well-formed JSON whose document is a well-formed manifest, and then
/// returns the manifest the document describes; any manifest returned is
/// well-formed: every entry holds at least one mirror URL.
pub fn parse_manifest(bytes: &[u8]) -> (r: Result<MrPack, ManifestError>)
    ensures
        r is Ok <==> (json_of(bytes@) matches Some(d) && manifest_ok(d)),
        r matches Ok(m) ==> (json_of(bytes@) matches Some(d) && manifest_matches(m, d)
            && m.wf()),
        r matches Err(e) ==> e == ManifestError::Parse,
{
    let doc = match json_parse(bytes) {
        Some(d) => d,
        None => {
            return Err(ManifestError::Parse);
        },
    };
    let version_raw = match get_int_field(&doc, "formatVersion") {
        Some(v) => v,
        None => {
            return Err(ManifestError::Parse);
        },
    };
    let format_version = match check_format_version(version_raw) {
        Ok(n) => n,
        Err(e) => {
            return Err(e);
        },
    };
    let game = match get_string_field(&doc, "game") {
        Ok(s) => s,
        Err(e) => {
            return Err(e);
        },
    };
    let version_id = match get_string_field(&doc, "versionId") {
        Ok(s) => s,
        Err(e) => {
            return Err(e);
        },
    };
    let name = match get_string_field(&doc, "name") {
        Ok(s) => s,
        Err(e) => {
            return Err(e);
        },
    };
    let files_node = match get_field(&doc, "files") {
        Some(n) => n,
        None => {
            return Err(ManifestError::Parse);
        },
    };
    let entries = match files_node {
        JsonNode::Array(a) => a,
        _ => {
            return Err(ManifestError::Parse);
        },
    };
    let mut files: Vec<File> = Vec::new();
    let mut i: usize = 0;
    while i < entries.len()
        invariant
            0 <= i <= entries@.len(),
            files@.len() == i,
            json_of(bytes@) == Some(doc),
            field_of(doc, "files"@) == Some(*files_node),
            (*files_node) matches JsonNode::Array(arr) && arr@ == entries@,
            forall|k: int| 0 <= k < i ==> file_ok(#[trigger] entries@[k]),
            forall|k: int| 0 <= k < i ==> file_matches(#[trigger] files@[k], entries@[k]),
            forall|k: int| 0 <= k < i ==> (#[trigger] files@[k]).wf(),
        decreases entries@.len() - i,
    {
        match parse_file(&entries[i]) {
            Ok(f) => files.push(f),
            Err(e) => {
                proof {
                    assert(!file_ok(entries@[i as int]));
                    assert((*files_node) matches JsonNode::Array(a) && a@ == entries@);
                    assert(!manifest_ok(doc));
                }
                return Err(e);
            },
        }
        i = i + 1;
    }
    let deps_node = match get_field(&doc, "dependencies") {
        Some(n) => n,
        None => {
            return Err(ManifestError::Parse);
        },
    };
    let dependencies = match parse_dependencies(deps_node) {
        Ok(p) => p,
        Err(e) => {
            return Err(e);
        },
    };
    Ok(MrPack { format_version, game, version_id, name, files, dependencies })
}

} // verus!
