use vstd::prelude::*;

verus! {

#[verifier::external_type_specification]
#[verifier::external_body]
pub struct ExValue(serde_json::Value);

/// The mathematical content of a JSON document: what this library reads of
/// it. A number is kept as its value where it is a non-negative integer
/// that fits 64 bits, and as `None` otherwise.
pub enum JsonTree {
    Null,
    Bool(bool),
    Number(Option<u64>),
    Text(Seq<char>),
    Array(Seq<JsonTree>),
    Object(Map<Seq<char>, JsonTree>),
}

/// What `serde_json::from_slice` makes of a byte string, or `None` where
/// the bytes are not one JSON document.
pub uninterp spec fn json_of(bytes: Seq<u8>) -> Option<JsonTree>;

/// What `serde_yaml::from_slice` makes of a byte string as JSON-shaped
/// data, or `None` where it cannot.
pub uninterp spec fn yaml_of(bytes: Seq<u8>) -> Option<JsonTree>;

/// A parsed document: the generic value, kept whole to be sent on, and its
/// content.
pub struct Tree {
    value: serde_json::Value,
    model: Ghost<JsonTree>,
}

impl Tree {
    pub closed spec fn view(&self) -> JsonTree {
        self.model@
    }

    /// The generic value, as parsed.
    pub fn value(&self) -> (r: &serde_json::Value) {
        &self.value
    }
}

/// Relies on `serde_json::from_slice` into `serde_json::Value`; a failure
/// is described in words.
#[verifier::external_body]
pub(crate) fn parse_json(bytes: &[u8]) -> (r: Result<Tree, String>)
    ensures
        match r {
            Ok(t) => json_of(bytes@) == Some(t@),
            Err(_) => json_of(bytes@) is None,
        },
{
    match serde_json::from_slice::<serde_json::Value>(bytes) {
        Ok(value) => Ok(Tree { value, model: Ghost(vstd::pervasive::arbitrary()) }),
        Err(e) => Err(e.to_string()),
    }
}

/// Relies on `serde_yaml::from_slice` into `serde_json::Value`; a failure
/// is described in words.
#[verifier::external_body]
pub(crate) fn parse_yaml(bytes: &[u8]) -> (r: Result<Tree, String>)
    ensures
        match r {
            Ok(t) => yaml_of(bytes@) == Some(t@),
            Err(_) => yaml_of(bytes@) is None,
        },
{
    match serde_yaml::from_slice::<serde_json::Value>(bytes) {
        Ok(value) => Ok(Tree { value, model: Ghost(vstd::pervasive::arbitrary()) }),
        Err(e) => Err(e.to_string()),
    }
}

/// The member under `key` of an object; `None` for a missing key or a
/// value that is no object.
pub open spec fn member_of(t: JsonTree, key: Seq<char>) -> Option<JsonTree> {
    match t {
        JsonTree::Object(m) => if m.dom().contains(key) { Some(m[key]) } else { None },
        _ => None,
    }
}

/// Relies on `serde_json::Value::get` with a text index: the member under
/// `key` of an object, `None` where the key is missing or the value is no
/// object.
#[verifier::external_body]
pub(crate) fn member(t: &Tree, key: &str) -> (r: Option<Tree>)
    ensures
        match r {
            Some(m) => member_of(t@, key@) == Some(m@),
            None => member_of(t@, key@) is None,
        },
{
    t.value.get(key).map(|v| Tree { value: v.clone(), model: Ghost(vstd::pervasive::arbitrary()) })
}

/// Relies on `serde_json::Value::as_str`: the text of a string value.
#[verifier::external_body]
pub(crate) fn as_text(t: &Tree) -> (r: Option<String>)
    ensures
        match t@ {
            JsonTree::Text(s) => r matches Some(x) && x@ == s,
            _ => r is None,
        },
{
    t.value.as_str().map(String::from)
}

/// Relies on `serde_json::Value::as_u64`: the value of a non-negative
/// integer that fits 64 bits.
#[verifier::external_body]
pub(crate) fn as_number(t: &Tree) -> (r: Option<u64>)
    ensures
        match t@ {
            JsonTree::Number(n) => r == n,
            _ => r is None,
        },
{
    t.value.as_u64()
}

/// Relies on `serde_json::Value::is_null`.
#[verifier::external_body]
pub(crate) fn is_null(t: &Tree) -> (r: bool)
    ensures
        r == (t@ is Null),
{
    t.value.is_null()
}

/// Relies on `serde_json::Value::is_object`.
#[verifier::external_body]
pub(crate) fn is_object(t: &Tree) -> (r: bool)
    ensures
        r == (t@ is Object),
{
    t.value.is_object()
}

/// The outcome of reading an optional text member.
#[derive(Debug)]
pub enum Field {
    Absent,
    Text(String),
    Malformed,
}

impl Field {
    /// `None` for a malformed field, `Some(None)` for an absent one.
    pub open spec fn view(&self) -> Option<Option<Seq<char>>> {
        match self {
            Field::Absent => Some(None),
            Field::Text(t) => Some(Some(t@)),
            Field::Malformed => None,
        }
    }
}

/// A text member read off a tree: absent or null is `Some(None)`, a string
/// is `Some(Some(text))`, anything else is `None`.
pub open spec fn text_field_of(t: JsonTree, key: Seq<char>) -> Option<Option<Seq<char>>> {
    match member_of(t, key) {
        None => Some(None),
        Some(JsonTree::Null) => Some(None),
        Some(JsonTree::Text(s)) => Some(Some(s)),
        Some(_) => None,
    }
}

/// Reads the member `key` of `t` as an optional text.
pub fn text_field(t: &Tree, key: &str) -> (r: Field)
    ensures
        r@ == text_field_of(t@, key@),
{
    match member(t, key) {
        None => Field::Absent,
        Some(m) => {
            if is_null(&m) {
                Field::Absent
            } else {
                match as_text(&m) {
                    Some(s) => Field::Text(s),
                    None => Field::Malformed,
                }
            }
        },
    }
}

/// The text a field holds: its string, or empty where it is absent.
pub open spec fn field_text(f: Field) -> Seq<char> {
    match f {
        Field::Text(t) => t@,
        _ => Seq::empty(),
    }
}

/// The text of a field, where it holds one.
pub open spec fn field_opt(f: Field) -> Option<Seq<char>> {
    match f {
        Field::Text(t) => Some(t@),
        _ => None,
    }
}

/// The outcome of reading an optional non-negative integer member.
#[derive(Debug)]
pub enum NumberField {
    Absent,
    Number(u64),
    Malformed,
}

impl NumberField {
    /// `None` for a malformed field, `Some(None)` for an absent one.
    pub open spec fn view(&self) -> Option<Option<u64>> {
        match self {
            NumberField::Absent => Some(None),
            NumberField::Number(n) => Some(Some(*n)),
            NumberField::Malformed => None,
        }
    }
}

/// An integer member read off a tree: absent or null is `Some(None)`, a
/// non-negative integer is `Some(Some(n))`, anything else is `None`.
pub open spec fn number_field_of(t: JsonTree, key: Seq<char>) -> Option<Option<u64>> {
    match member_of(t, key) {
        None => Some(None),
        Some(JsonTree::Null) => Some(None),
        Some(JsonTree::Number(Some(n))) => Some(Some(n)),
        Some(_) => None,
    }
}

/// Reads the member `key` of `t` as an optional non-negative integer.
pub fn number_field(t: &Tree, key: &str) -> (r: NumberField)
    ensures
        r@ == number_field_of(t@, key@),
{
    match member(t, key) {
        None => NumberField::Absent,
        Some(m) => {
            if is_null(&m) {
                NumberField::Absent
            } else {
                match as_number(&m) {
                    Some(n) => NumberField::Number(n),
                    None => NumberField::Malformed,
                }
            }
        },
    }
}

} // verus!
