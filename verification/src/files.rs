//! Editing of the game's JSON configuration files: which files there are,
//! parsed JSON documents and the lookups made in them, checking that an edit
//! is valid JSON, refusing paths outside the server directory, and detecting
//! edits made on disk since the client loaded them.
use vstd::prelude::*;
use crate::text::concat;
use crate::text::opt_chars;

verus! {

broadcast use vstd::string::group_string_axioms;

/// The two kinds of game configuration file.
#[derive(Clone, Copy, Debug, PartialEq, Eq, Structural)]
pub enum ConfigFileKind {
    /// `ServerDescription.json` in the server working directory.
    ServerDescription,
    /// A world's `WorldDescription.json`.
    WorldDescription,
}

/// The JSON text to validate.
pub struct ValidateRequest {
    pub content: String,
}

/// Outcome of a validation: valid, or the parser's complaint.
pub struct ValidateResponse {
    pub valid: bool,
    pub error: Option<String>,
}

/// A configuration file named by its path relative to the manager's directory.
pub struct FilePathQuery {
    pub path: String,
}

#[verifier::external_type_specification]
#[verifier::external_body]
pub struct ExJsonValue(serde_json::Value);

/// The message of the error that `serde_json::from_str` reports for `text`,
/// or `None` where the text parses as a JSON value.
pub uninterp spec fn json_parse_error(text: Seq<char>) -> Option<Seq<char>>;

/// A JSON document: its text and the value that `serde_json::from_str`
/// parsed from it. The fields are private and only `parse_json` builds a
/// document, so the value is always the parse of the text.
pub struct JsonDoc {
    text: String,
    value: serde_json::Value,
}

/// Whether the JSON value parsed from `text` holds a value at `path`: each
/// key in turn found by `Value::get` in the object reached so far.
pub uninterp spec fn json_has_at(text: Seq<char>, path: Seq<Seq<char>>) -> bool;

/// Whether the value at `path` in the parse of `text` is an object
/// (`Value::is_object`).
pub uninterp spec fn json_object_at(text: Seq<char>, path: Seq<Seq<char>>) -> bool;

/// The string held by the value at `path` in the parse of `text`, if it is a
/// string (`Value::as_str`).
pub uninterp spec fn json_text_at(text: Seq<char>, path: Seq<Seq<char>>) -> Option<Seq<char>>;

/// The unsigned integer held by the value at `path` in the parse of `text`,
/// if it is one that fits in a `u64` (`Value::as_u64`).
pub uninterp spec fn json_u64_at(text: Seq<char>, path: Seq<Seq<char>>) -> Option<u64>;

/// Parses `text` as a JSON value with `serde_json::from_str`; the error, if
/// any, is the parser's own message (its `Display`).
#[verifier::external_body]
pub(crate) fn parse_json(text: &str) -> (r: Result<JsonDoc, String>)
    ensures
        match r {
            Ok(d) => json_parse_error(text@) is None && d.text() == text@,
            Err(e) => json_parse_error(text@) == Some(e@),
        },
{
    match serde_json::from_str::<serde_json::Value>(text) {
        Ok(value) => Ok(JsonDoc { text: text.to_string(), value }),
        Err(e) => Err(format!("{e}")),
    }
}

impl JsonDoc {
    /// The text the document was parsed from.
    pub closed spec fn text(&self) -> Seq<char> {
        self.text@
    }

    /// The parsed value.
    pub fn into_value(self) -> serde_json::Value {
        self.value
    }

    /// The document's top-level value.
    pub fn root(&self) -> (r: JsonNode<'_>)
        ensures
            r.text() == self.text(),
            r.path() == Seq::<Seq<char>>::empty(),
    {
        JsonNode { value: &self.value, text: Ghost(self.text@), path: Ghost(Seq::empty()) }
    }
}

/// A value inside a parsed document, with the document's text and the keys
/// that lead to it. The fields are private: a node is made only by
/// `JsonDoc::root` and `JsonNode::child`, so its value is always the one at
/// its path.
pub struct JsonNode<'a> {
    value: &'a serde_json::Value,
    text: Ghost<Seq<char>>,
    path: Ghost<Seq<Seq<char>>>,
}

/// `Value::get` with a key: the value under that key when this value is an
/// object holding it.
#[verifier::external_body]
fn value_get<'a>(node: &JsonNode<'a>, key: &str) -> (r: Option<&'a serde_json::Value>)
    ensures
        r is Some <==> json_has_at(node.text(), node.path().push(key@)),
{
    node.value.get(key)
}

/// `Value::is_object`.
#[verifier::external_body]
fn value_is_object(node: &JsonNode) -> (r: bool)
    ensures
        r == json_object_at(node.text(), node.path()),
{
    node.value.is_object()
}

/// `Value::as_str`, copied into a `String`.
#[verifier::external_body]
fn value_as_str(node: &JsonNode) -> (r: Option<String>)
    ensures
        match r {
            Some(t) => json_text_at(node.text(), node.path()) == Some(t@),
            None => json_text_at(node.text(), node.path()) is None,
        },
{
    node.value.as_str().map(|t| t.to_string())
}

/// `Value::as_u64`.
#[verifier::external_body]
fn value_as_u64(node: &JsonNode) -> (r: Option<u64>)
    ensures
        r == json_u64_at(node.text(), node.path()),
{
    node.value.as_u64()
}

/// The string at `path` in the parse of `text`: absent where there is no
/// value there or it is not a string.
pub open spec fn json_text_field(text: Seq<char>, path: Seq<Seq<char>>) -> Option<Seq<char>> {
    if json_has_at(text, path) {
        json_text_at(text, path)
    } else {
        None
    }
}

/// The unsigned integer at `path` in the parse of `text`: absent where there
/// is no value there or it is not a `u64`.
pub open spec fn json_u64_field(text: Seq<char>, path: Seq<Seq<char>>) -> Option<u64> {
    if json_has_at(text, path) {
        json_u64_at(text, path)
    } else {
        None
    }
}

impl<'a> JsonNode<'a> {
    /// The text of the document the node belongs to.
    pub closed spec fn text(&self) -> Seq<char> {
        self.text@
    }

    /// The keys that lead from the document's top to the node.
    pub closed spec fn path(&self) -> Seq<Seq<char>> {
        self.path@
    }

    /// The value under `key`, when this value is an object holding it.
    pub fn child(&self, key: &str) -> (r: Option<JsonNode<'a>>)
        ensures
            r is Some <==> json_has_at(self.text(), self.path().push(key@)),
            r matches Some(n) ==> n.text() == self.text() && n.path() == self.path().push(key@),
    {
        match value_get(self, key) {
            Some(v) => Some(JsonNode { value: v, text: Ghost(self.text@), path: Ghost(self.path@.push(key@)) }),
            None => None,
        }
    }

    /// Whether the value is an object.
    pub fn is_object(&self) -> (r: bool)
        ensures
            r == json_object_at(self.text(), self.path()),
    {
        value_is_object(self)
    }

    /// The string under `key`, when there is one.
    pub fn text_field(&self, key: &str) -> (r: Option<String>)
        ensures
            opt_chars(r) == json_text_field(self.text(), self.path().push(key@)),
    {
        match self.child(key) {
            Some(n) => value_as_str(&n),
            None => None,
        }
    }

    /// The unsigned integer under `key`, when there is one.
    pub fn u64_field(&self, key: &str) -> (r: Option<u64>)
        ensures
            r == json_u64_field(self.text(), self.path().push(key@)),
    {
        match self.child(key) {
            Some(n) => value_as_u64(&n),
            None => None,
        }
    }
}

/// The message shown for text that is not valid JSON.
pub open spec fn invalid_json_message(detail: Seq<char>) -> Seq<char> {
    "Invalid JSON: "@ + detail
}

/// Prefixes the parser's complaint.
pub fn invalid_json(detail: &str) -> (r: String)
    ensures
        r@ == invalid_json_message(detail@),
{
    concat("Invalid JSON: ", detail)
}

/// Parses the text of a configuration file; text that is not JSON is refused
/// with the parser's message.
pub fn validate_json(content: &str) -> (r: Result<serde_json::Value, String>)
    ensures
        r is Ok <==> json_parse_error(content@) is None,
        r matches Err(e) ==> e@ == invalid_json_message(json_parse_error(content@)->0),
{
    match parse_json(content) {
        Ok(d) => Ok(d.into_value()),
        Err(detail) => Err(invalid_json(detail.as_str())),
    }
}

/// The answer to a validation request, given what the check found.
pub fn validation_response(outcome: Result<(), String>) -> (r: ValidateResponse)
    ensures
        r.valid == outcome is Ok,
        match outcome {
            Ok(_) => r.error is None,
            Err(e) => r.error == Some(e),
        },
{
    match outcome {
        Ok(()) => ValidateResponse { valid: true, error: None },
        Err(e) => ValidateResponse { valid: false, error: Some(e) },
    }
}

/// Validates the text of a request: valid exactly when it parses as JSON.
pub fn validate_request(req: &ValidateRequest) -> (r: ValidateResponse)
    ensures
        r.valid == (json_parse_error(req.content@) is None),
        r.valid ==> r.error is None,
        !r.valid ==> (r.error matches Some(e) && e@ == invalid_json_message(
            json_parse_error(req.content@)->0,
        )),
{
    let outcome = match validate_json(req.content.as_str()) {
        Ok(_) => Ok(()),
        Err(e) => Err(e),
    };
    validation_response(outcome)
}

/// The file on disk changed since the client read it: the two modification
/// times (in milliseconds) are more than a second apart.
pub open spec fn modified_since(disk_ms: int, client_ms: int) -> bool {
    disk_ms - client_ms > 1000 || client_ms - disk_ms > 1000
}

/// Whether a write must be refused as a conflict.
pub fn mtime_conflict(disk_ms: i64, client_ms: i64) -> (r: bool)
    requires
        i64::MIN < disk_ms - client_ms <= i64::MAX,
    ensures
        r == modified_since(disk_ms as int, client_ms as int),
{
    let d = disk_ms - client_ms;
    let a: i64 = if d < 0 {
        -d
    } else {
        d
    };
    a > 1000
}

/// Saving with the modification time the client read is never a conflict,
/// and the check does not depend on which time is the disk's.
pub proof fn law_conflict_symmetric(disk_ms: int, client_ms: int)
    ensures
        !modified_since(client_ms, client_ms),
        modified_since(disk_ms, client_ms) == modified_since(client_ms, disk_ms),
{
}

/// `path` lies within `base`: the components of `base` are the first
/// components of `path` (whole components, as `Path::starts_with` compares).
pub open spec fn within(path: Seq<Seq<char>>, base: Seq<Seq<char>>) -> bool {
    base.len() <= path.len() && forall|i: int| 0 <= i < base.len() ==> path[i] == base[i]
}

/// The text of each component.
pub open spec fn component_views(v: Seq<String>) -> Seq<Seq<char>> {
    v.map_values(|s: String| s@)
}

/// Whether a resolved path (by components) lies within the base directory.
pub fn is_within(path: &Vec<String>, base: &Vec<String>) -> (r: bool)
    ensures
        r == within(component_views(path@), component_views(base@)),
{
    if base.len() > path.len() {
        return false;
    }
    let mut i: usize = 0;
    while i < base.len()
        invariant
            base.len() <= path.len(),
            i <= base.len(),
            forall|k: int|
                0 <= k < i ==> component_views(path@)[k] == component_views(base@)[k],
        decreases base.len() - i,
    {
        if !crate::text::str_eq(path[i].as_str(), base[i].as_str()) {
            assert(component_views(path@)[i as int] != component_views(base@)[i as int]);
            return false;
        }
        i = i + 1;
    }
    true
}

/// Refuses a resolved path outside the base directory.
pub fn check_within(path: &Vec<String>, base: &Vec<String>) -> (r: Result<(), String>)
    ensures
        r is Ok <==> within(component_views(path@), component_views(base@)),
        r matches Err(e) ==> e@ == "Path must be within the server directory"@,
{
    if is_within(path, base) {
        Ok(())
    } else {
        Err("Path must be within the server directory".to_string())
    }
}

/// A path within a directory stays within it when the directory is nested
/// in another: containment is transitive.
pub proof fn law_within_transitive(a: Seq<Seq<char>>, b: Seq<Seq<char>>, c: Seq<Seq<char>>)
    requires
        within(a, b),
        within(b, c),
    ensures
        within(a, c),
{
}

/// Every directory contains itself.
pub proof fn law_within_reflexive(a: Seq<Seq<char>>)
    ensures
        within(a, a),
{
}

} // verus!
