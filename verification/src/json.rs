use vstd::prelude::*;
use vstd::string::*;

verus! {

/// A JSON document held as plain values.
///
/// An object keeps its members as a list of name and value pairs; a name is
/// looked up by its first occurrence. Whole numbers that are not negative
/// are `Unsigned`, negative whole numbers are `Signed`, and every other
/// number is kept as its decimal text in `Real`.
#[derive(Debug, PartialEq, Eq)]
pub enum Json {
    Null,
    Bool(bool),
    Unsigned(u64),
    Signed(i64),
    Real(String),
    Text(String),
    Array(Vec<Json>),
    Object(Vec<(String, Json)>),
}

/// A JSON document as a mathematical value.
pub enum JsonView {
    Null,
    Bool(bool),
    Unsigned(u64),
    Signed(i64),
    Real(Seq<char>),
    Text(Seq<char>),
    Array(Seq<JsonView>),
    Object(Seq<(Seq<char>, JsonView)>),
}

impl View for Json {
    type V = JsonView;

    open spec fn view(&self) -> JsonView
        decreases self,
    {
        match self {
            Json::Null => JsonView::Null,
            Json::Bool(b) => JsonView::Bool(*b),
            Json::Unsigned(n) => JsonView::Unsigned(*n),
            Json::Signed(n) => JsonView::Signed(*n),
            Json::Real(literal) => JsonView::Real(literal@),
            Json::Text(s) => JsonView::Text(s@),
            Json::Array(items) => JsonView::Array(
                Seq::new(
                    items@.len(),
                    |i: int|
                        if 0 <= i < items@.len() {
                            items@[i]@
                        } else {
                            JsonView::Null
                        },
                ),
            ),
            Json::Object(members) => JsonView::Object(spec_members(members@)),
        }
    }
}

/// The members of an object as mathematical values.
pub open spec fn spec_members(members: Seq<(String, Json)>) -> Seq<(Seq<char>, JsonView)>
    decreases members,
{
    Seq::new(
        members.len(),
        |i: int|
            if 0 <= i < members.len() {
                (members[i].0@, members[i].1@)
            } else {
                (Seq::empty(), JsonView::Null)
            },
    )
}

/// The value of the first member called `key` in a list of members.
pub open spec fn spec_member(members: Seq<(Seq<char>, JsonView)>, key: Seq<char>) -> Option<
    JsonView,
>
    decreases members.len(),
{
    if members.len() == 0 {
        None
    } else if members[0].0 == key {
        Some(members[0].1)
    } else {
        spec_member(members.skip(1), key)
    }
}

/// Looking a name up from position `i` on either hits at `i` or goes on at `i + 1`.
pub proof fn lemma_member_step(members: Seq<(Seq<char>, JsonView)>, key: Seq<char>, i: int)
    requires
        0 <= i < members.len(),
    ensures
        members[i].0 == key ==> spec_member(members.skip(i), key) == Some(members[i].1),
        members[i].0 != key ==> spec_member(members.skip(i), key) == spec_member(
            members.skip(i + 1),
            key,
        ),
{
    assert(members.skip(i).skip(1) =~= members.skip(i + 1));
}

impl JsonView {
    /// The member called `key`, where the document is an object that has one.
    pub open spec fn field(self, key: Seq<char>) -> Option<JsonView> {
        match self {
            JsonView::Object(members) => spec_member(members, key),
            _ => None,
        }
    }

    /// The text of a `Text` document.
    pub open spec fn text(self) -> Option<Seq<char>> {
        match self {
            JsonView::Text(s) => Some(s),
            _ => None,
        }
    }
}

/// The position of the first member called `key`.
fn position(entries: &Vec<(String, Json)>, key: &str) -> (r: Option<usize>)
    ensures
        match r {
            Some(i) => i < entries@.len() && Json::Object(*entries)@.field(key@) == Some(
                entries@[i as int].1@,
            ),
            None => Json::Object(*entries)@.field(key@) is None,
        },
{
    let ghost members = spec_members(entries@);
    let wanted = String::from_str(key);
    let mut i: usize = 0;
    assert(Json::Object(*entries)@ == JsonView::Object(members));
    assert(members.skip(0) =~= members);
    while i < entries.len()
        invariant
            i <= entries@.len(),
            wanted@ == key@,
            members == spec_members(entries@),
            spec_member(members, key@) == spec_member(members.skip(i as int), key@),
        decreases entries@.len() - i,
    {
        proof {
            lemma_member_step(members, key@, i as int);
        }
        if entries[i].0 == wanted {
            return Some(i);
        }
        i += 1;
    }
    assert(members.skip(i as int).len() == 0);
    None
}

impl Json {
    /// Borrows the member called `key` of an object.
    pub fn member<'a>(&'a self, key: &str) -> (r: Option<&'a Json>)
        ensures
            match r {
                Some(found) => self@.field(key@) == Some(found@),
                None => self@.field(key@) is None,
            },
    {
        match self {
            Json::Object(entries) => match position(entries, key) {
                Some(i) => Some(&entries[i].1),
                None => None,
            },
            _ => None,
        }
    }

    /// Takes the member called `key` out of an object.
    pub fn into_member(self, key: &str) -> (r: Option<Json>)
        ensures
            match r {
                Some(found) => self@.field(key@) == Some(found@),
                None => self@.field(key@) is None,
            },
    {
        match self {
            Json::Object(mut entries) => match position(&entries, key) {
                Some(i) => {
                    let entry = entries.remove(i);
                    Some(entry.1)
                },
                None => None,
            },
            _ => None,
        }
    }
}

/// What `serde_json::from_slice` makes of a body, read as a document: the
/// document, or `None` where the bytes are not one JSON document.
pub uninterp spec fn parsed_json(bytes: Seq<u8>) -> Option<JsonView>;

/// Moves a `serde_json::Value` into a `Json`, variant by variant. A number
/// becomes `Unsigned` where `Number::as_u64` gives it, `Signed` where only
/// `Number::as_i64` does, and else `Real` with the number's own text.
#[verifier::external_body]
fn from_value(value: serde_json::Value) -> Json {
    match value {
        serde_json::Value::Null => Json::Null,
        serde_json::Value::Bool(b) => Json::Bool(b),
        serde_json::Value::Number(n) => match (n.as_u64(), n.as_i64()) {
            (Some(u), _) => Json::Unsigned(u),
            (None, Some(i)) => Json::Signed(i),
            (None, None) => Json::Real(n.to_string()),
        },
        serde_json::Value::String(s) => Json::Text(s),
        serde_json::Value::Array(items) => Json::Array(items.into_iter().map(from_value).collect()),
        serde_json::Value::Object(members) => Json::Object(
            members.into_iter().map(|(k, v)| (k, from_value(v))).collect(),
        ),
    }
}

/// Calls `serde_json::from_slice` for a `serde_json::Value`. The contract
/// claims only that the outcome is a function of the bytes, `parsed_json`:
/// `Ok` with the document where there is one, `Err` where there is none.
#[verifier::external_body]
fn parse_bytes(bytes: &[u8]) -> (r: Result<Json, serde_json::Error>)
    ensures
        match r {
            Ok(doc) => parsed_json(bytes@) == Some(doc@),
            Err(_) => parsed_json(bytes@) is None,
        },
{
    serde_json::from_slice::<serde_json::Value>(bytes).map(from_value)
}

/// The error type of `serde_json`, carried through unread.
#[verifier::external_type_specification]
#[verifier::external_body]
pub struct ExJsonError(serde_json::Error);

/// The value type of `serde_json`, carried through unread.
#[verifier::external_type_specification]
#[verifier::external_body]
pub struct ExJsonValue(serde_json::Value);

/// Reads a body as one JSON document.
pub fn parse(bytes: &[u8]) -> (r: Option<Json>)
    ensures
        match r {
            Some(doc) => parsed_json(bytes@) == Some(doc@),
            None => parsed_json(bytes@) is None,
        },
{
    match parse_bytes(bytes) {
        Ok(doc) => Some(doc),
        Err(_) => None,
    }
}

} // verus!
