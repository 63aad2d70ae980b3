//! The response envelope: optional metadata and pagination links around a
//! `data` member that is either one resource object or an array of them.
//!
//! The envelope is read from a JSON value as the library holds it
//! ([`JsonValue`]); the shape of `data` is decided by its JSON kind alone, and
//! a single object is never turned into a one-element array or back.
use crate::model::links::PaginationLinks;
use crate::model::meta::{GoldenCopy, Meta, Pagination};
use crate::text::{owned, same_text};
use vstd::prelude::*;

verus! {

/// A JSON number.
#[derive(Debug, Clone, PartialEq)]
pub enum JsonNumber {
    /// A non-negative integer.
    PosInt(u64),
    /// A negative integer.
    NegInt(i64),
    /// Any other number, as its decimal text.
    Float(String),
}

/// A JSON value.
#[derive(Debug)]
pub enum JsonValue {
    Null,
    Bool(bool),
    Number(JsonNumber),
    String(String),
    Array(Vec<JsonValue>),
    /// Members in document order.
    Object(Vec<(String, JsonValue)>),
}

/// The payload of a response: one resource, or an array of them.
#[derive(Debug)]
pub enum DataOrVec {
    Single(Box<JsonValue>),
    Multiple(Vec<JsonValue>),
}

/// A response envelope.
#[derive(Debug)]
pub struct ApiResponse {
    /// The metadata of the response.
    pub meta: Option<Meta>,
    /// The pagination links of the response.
    pub links: Option<PaginationLinks>,
    /// The payload.
    pub data: DataOrVec,
}

/// Why a JSON value is not the expected envelope.
#[derive(Debug)]
pub enum DecodeError {
    /// The named member, or the whole body, is not a JSON object.
    NotAnObject(String),
    /// A required member is missing.
    MissingField(String),
    /// The named member has the wrong JSON kind.
    WrongKind(String),
    /// An object holds a member that its type does not know.
    UnknownField(String),
}

/// The value of the first member named `key`, from position `i` on.
pub open spec fn member_from(fields: Seq<(String, JsonValue)>, key: Seq<char>, i: int) -> Option<
    JsonValue,
>
    decreases fields.len() - i,
{
    if i < 0 || i >= fields.len() {
        None
    } else if fields[i].0@ == key {
        Some(fields[i].1)
    } else {
        member_from(fields, key, i + 1)
    }
}

/// The member `key` of an object; `None` for a missing member or a non-object.
pub open spec fn member(v: JsonValue, key: Seq<char>) -> Option<JsonValue> {
    match v {
        JsonValue::Object(fields) => member_from(fields@, key, 0),
        _ => None,
    }
}

/// A member that is missing or `null`.
pub open spec fn absent(m: Option<JsonValue>) -> bool {
    m is None || m == Some(JsonValue::Null)
}

/// The text of a string member.
pub open spec fn text_value(m: Option<JsonValue>) -> Option<Seq<char>> {
    match m {
        Some(JsonValue::String(s)) => Some(s@),
        _ => None,
    }
}

/// The value of an integer member that fits in a `u32`.
pub open spec fn u32_value(m: Option<JsonValue>) -> Option<u32> {
    match m {
        Some(JsonValue::Number(JsonNumber::PosInt(n))) => if n <= u32::MAX {
            Some(n as u32)
        } else {
            None
        },
        _ => None,
    }
}

/// An optional text member is missing, `null` or a string.
pub open spec fn optional_text_ok(m: Option<JsonValue>) -> bool {
    absent(m) || text_value(m) is Some
}

/// An optional text field holds what the member does.
pub open spec fn optional_text_matches(o: Option<String>, m: Option<JsonValue>) -> bool {
    match o {
        None => absent(m),
        Some(s) => text_value(m) == Some(s@),
    }
}

/// `v` is a valid object of pagination links.
pub open spec fn links_valid(v: JsonValue) -> bool {
    &&& v is Object
    &&& text_value(member(v, "first"@)) is Some
    &&& text_value(member(v, "last"@)) is Some
    &&& optional_text_ok(member(v, "prev"@))
    &&& optional_text_ok(member(v, "next"@))
}

/// `v` is a valid pagination object.
pub open spec fn pagination_valid(v: JsonValue) -> bool {
    &&& v is Object
    &&& u32_value(member(v, "currentPage"@)) is Some
    &&& u32_value(member(v, "perPage"@)) is Some
    &&& u32_value(member(v, "from"@)) is Some
    &&& u32_value(member(v, "to"@)) is Some
    &&& u32_value(member(v, "total"@)) is Some
    &&& u32_value(member(v, "lastPage"@)) is Some
}

/// `v` is a valid golden-copy object.
pub open spec fn golden_copy_valid(v: JsonValue) -> bool {
    v is Object && text_value(member(v, "publishDate"@)) is Some
}

/// Every member of the object is named `a` or `b`.
pub open spec fn only_members(v: JsonValue, a: Seq<char>, b: Seq<char>) -> bool {
    match v {
        JsonValue::Object(fields) => forall|i: int|
            0 <= i < fields@.len() ==> (#[trigger] fields@[i]).0@ == a || fields@[i].0@ == b,
        _ => false,
    }
}

/// `v` is a valid metadata object.
pub open spec fn meta_valid(v: JsonValue) -> bool {
    &&& v is Object
    &&& only_members(v, "goldenCopy"@, "pagination"@)
    &&& (absent(member(v, "goldenCopy"@)) || golden_copy_valid(member(v, "goldenCopy"@)->Some_0))
    &&& (absent(member(v, "pagination"@)) || pagination_valid(member(v, "pagination"@)->Some_0))
}

/// `g` holds what the golden-copy object `v` does.
pub open spec fn golden_copy_matches(g: GoldenCopy, v: JsonValue) -> bool {
    text_value(member(v, "publishDate"@)) == Some(g.publish_date@)
}

/// `p` holds what the pagination object `v` does.
pub open spec fn pagination_matches(p: Pagination, v: JsonValue) -> bool {
    &&& u32_value(member(v, "currentPage"@)) == Some(p.current_page)
    &&& u32_value(member(v, "perPage"@)) == Some(p.per_page)
    &&& u32_value(member(v, "from"@)) == Some(p.from)
    &&& u32_value(member(v, "to"@)) == Some(p.to)
    &&& u32_value(member(v, "total"@)) == Some(p.total)
    &&& u32_value(member(v, "lastPage"@)) == Some(p.last_page)
}

/// `l` holds what the links object `v` does.
pub open spec fn links_match(l: PaginationLinks, v: JsonValue) -> bool {
    &&& text_value(member(v, "first"@)) == Some(l.first@)
    &&& text_value(member(v, "last"@)) == Some(l.last@)
    &&& optional_text_matches(l.prev, member(v, "prev"@))
    &&& optional_text_matches(l.next, member(v, "next"@))
}

/// `m` holds what the metadata object `v` does.
pub open spec fn meta_matches(m: Meta, v: JsonValue) -> bool {
    &&& match m.golden_copy {
        None => absent(member(v, "goldenCopy"@)),
        Some(g) => !absent(member(v, "goldenCopy"@)) && golden_copy_matches(
            g,
            member(v, "goldenCopy"@)->Some_0,
        ),
    }
    &&& match m.pagination {
        None => absent(member(v, "pagination"@)),
        Some(p) => !absent(member(v, "pagination"@)) && pagination_matches(
            p,
            member(v, "pagination"@)->Some_0,
        ),
    }
}

/// `data` is a JSON object or array.
pub open spec fn data_valid(v: JsonValue) -> bool {
    v is Object || v is Array
}

/// `v` is a valid response envelope.
pub open spec fn envelope_valid(v: JsonValue) -> bool {
    &&& v is Object
    &&& member(v, "data"@) is Some
    &&& data_valid(member(v, "data"@)->Some_0)
    &&& (absent(member(v, "meta"@)) || meta_valid(member(v, "meta"@)->Some_0))
    &&& (absent(member(v, "links"@)) || links_valid(member(v, "links"@)->Some_0))
}

/// The payload that a `data` value reads as.
pub open spec fn data_of(v: JsonValue) -> DataOrVec {
    match v {
        JsonValue::Array(items) => DataOrVec::Multiple(items),
        _ => DataOrVec::Single(Box::new(v)),
    }
}

/// The value a looked-up member refers to.
pub open spec fn seen(m: Option<&JsonValue>) -> Option<JsonValue> {
    match m {
        Some(x) => Some(*x),
        None => None,
    }
}

/// The member `key` of the object `fields`.
fn get_member<'a>(fields: &'a Vec<(String, JsonValue)>, key: &str) -> (r: Option<&'a JsonValue>)
    ensures
        match r {
            Some(m) => member_from(fields@, key@, 0) == Some(*m),
            None => member_from(fields@, key@, 0) is None,
        },
{
    match find_member(fields, key) {
        Some(i) => Some(&fields[i].1),
        None => None,
    }
}

/// The position of the member `key` of the object `fields`.
fn find_member(fields: &Vec<(String, JsonValue)>, key: &str) -> (r: Option<usize>)
    ensures
        match r {
            Some(i) => i < fields@.len() && member_from(fields@, key@, 0) == Some(fields@[i as int].1),
            None => member_from(fields@, key@, 0) is None,
        },
{
    let mut i: usize = 0;
    while i < fields.len()
        invariant
            i <= fields@.len(),
            member_from(fields@, key@, 0) == member_from(fields@, key@, i as int),
        decreases fields@.len() - i,
    {
        if same_text(fields[i].0.as_str(), key) {
            return Some(i);
        }
        i = i + 1;
    }
    None
}

/// The text of an optional string member: `None` when missing or `null`.
fn optional_text(m: Option<&JsonValue>, name: &str) -> (r: Result<Option<String>, DecodeError>)
    ensures
        r is Ok <==> optional_text_ok(seen(m)),
        r is Ok ==> optional_text_matches(r->Ok_0, seen(m)),
{
    match m {
        None => Ok(None),
        Some(JsonValue::Null) => Ok(None),
        Some(JsonValue::String(s)) => Ok(Some(s.clone())),
        Some(_) => Err(DecodeError::WrongKind(owned(name))),
    }
}

/// The text of a required string member.
fn required_text(m: Option<&JsonValue>, name: &str) -> (r: Result<String, DecodeError>)
    ensures
        r is Ok <==> text_value(seen(m)) is Some,
        r is Ok ==> text_value(seen(m)) == Some(r->Ok_0@),
{
    match m {
        Some(JsonValue::String(s)) => Ok(s.clone()),
        None => Err(DecodeError::MissingField(owned(name))),
        Some(_) => Err(DecodeError::WrongKind(owned(name))),
    }
}

/// The value of a required integer member that fits in a `u32`.
fn required_u32(m: Option<&JsonValue>, name: &str) -> (r: Result<u32, DecodeError>)
    ensures
        r is Ok <==> u32_value(seen(m)) is Some,
        r is Ok ==> u32_value(seen(m)) == Some(r->Ok_0),
{
    match m {
        Some(JsonValue::Number(JsonNumber::PosInt(n))) => if *n <= 4294967295u64 {
            Ok(*n as u32)
        } else {
            Err(DecodeError::WrongKind(owned(name)))
        },
        None => Err(DecodeError::MissingField(owned(name))),
        Some(_) => Err(DecodeError::WrongKind(owned(name))),
    }
}

/// Reads the `data` member: an object is one resource, an array is a list
/// of resources (possibly empty), and any other kind is an error.
pub fn data_or_vec(v: JsonValue) -> (r: Result<DataOrVec, DecodeError>)
    ensures
        data_valid(v) ==> r is Ok && r->Ok_0 == data_of(v),
        !data_valid(v) ==> r is Err && r->Err_0 is WrongKind,
{
    match v {
        JsonValue::Object(_) => Ok(DataOrVec::Single(Box::new(v))),
        JsonValue::Array(items) => Ok(DataOrVec::Multiple(items)),
        _ => Err(DecodeError::WrongKind(owned("data"))),
    }
}

impl PaginationLinks {
    /// Reads pagination links from a JSON object.
    pub fn from_json(v: &JsonValue) -> (r: Result<PaginationLinks, DecodeError>)
        ensures
            r is Ok <==> links_valid(*v),
            r is Ok ==> links_match(r->Ok_0, *v),
    {
        let fields = match v {
            JsonValue::Object(fields) => fields,
            _ => {
                return Err(DecodeError::NotAnObject(owned("links")));
            },
        };
        let first = required_text(get_member(fields, "first"), "first")?;
        let prev = optional_text(get_member(fields, "prev"), "prev")?;
        let next = optional_text(get_member(fields, "next"), "next")?;
        let last = required_text(get_member(fields, "last"), "last")?;
        Ok(PaginationLinks { first, prev, next, last })
    }
}

impl Pagination {
    /// Reads pagination counters from a JSON object.
    pub fn from_json(v: &JsonValue) -> (r: Result<Pagination, DecodeError>)
        ensures
            r is Ok <==> pagination_valid(*v),
            r is Ok ==> pagination_matches(r->Ok_0, *v),
    {
        let fields = match v {
            JsonValue::Object(fields) => fields,
            _ => {
                return Err(DecodeError::NotAnObject(owned("pagination")));
            },
        };
        let current_page = required_u32(get_member(fields, "currentPage"), "currentPage")?;
        let per_page = required_u32(get_member(fields, "perPage"), "perPage")?;
        let from = required_u32(get_member(fields, "from"), "from")?;
        let to = required_u32(get_member(fields, "to"), "to")?;
        let total = required_u32(get_member(fields, "total"), "total")?;
        let last_page = required_u32(get_member(fields, "lastPage"), "lastPage")?;
        Ok(Pagination { current_page, per_page, from, to, total, last_page })
    }
}

impl GoldenCopy {
    /// Reads the golden-copy object.
    pub fn from_json(v: &JsonValue) -> (r: Result<GoldenCopy, DecodeError>)
        ensures
            r is Ok <==> golden_copy_valid(*v),
            r is Ok ==> golden_copy_matches(r->Ok_0, *v),
    {
        let fields = match v {
            JsonValue::Object(fields) => fields,
            _ => {
                return Err(DecodeError::NotAnObject(owned("goldenCopy")));
            },
        };
        let publish_date = required_text(get_member(fields, "publishDate"), "publishDate")?;
        Ok(GoldenCopy { publish_date })
    }
}

impl Meta {
    /// Reads the metadata object; a member other than `goldenCopy` and
    /// `pagination` is an error.
    pub fn from_json(v: &JsonValue) -> (r: Result<Meta, DecodeError>)
        ensures
            r is Ok <==> meta_valid(*v),
            r is Ok ==> meta_matches(r->Ok_0, *v),
    {
        let fields = match v {
            JsonValue::Object(fields) => fields,
            _ => {
                return Err(DecodeError::NotAnObject(owned("meta")));
            },
        };
        let mut i: usize = 0;
        while i < fields.len()
            invariant
                *v == JsonValue::Object(*fields),
                i <= fields@.len(),
                forall|j: int|
                    0 <= j < i ==> #[trigger] fields@[j].0@ == "goldenCopy"@ || fields@[j].0@
                        == "pagination"@,
            decreases fields@.len() - i,
        {
            let name = fields[i].0.as_str();
            if !same_text(name, "goldenCopy") && !same_text(name, "pagination") {
                assert(!only_members(*v, "goldenCopy"@, "pagination"@)) by {
                    let entry = fields@[i as int];
                    assert(entry.0@ != "goldenCopy"@ && entry.0@ != "pagination"@);
                    assert(v->Object_0@[i as int] == entry);
                }
                return Err(DecodeError::UnknownField(owned(name)));
            }
            i = i + 1;
        }
        let golden_copy = match get_member(fields, "goldenCopy") {
            None => None,
            Some(JsonValue::Null) => None,
            Some(g) => Some(GoldenCopy::from_json(g)?),
        };
        let pagination = match get_member(fields, "pagination") {
            None => None,
            Some(JsonValue::Null) => None,
            Some(p) => Some(Pagination::from_json(p)?),
        };
        Ok(Meta { golden_copy, pagination })
    }
}

impl ApiResponse {
    /// Reads a response envelope. Fails when the body is not an object, when
    /// `data` is missing or neither an object nor an array, or when `meta` or
    /// `links` is present and malformed.
    pub fn from_json(v: JsonValue) -> (r: Result<ApiResponse, DecodeError>)
        ensures
            r is Ok <==> envelope_valid(v),
            r is Ok ==> r->Ok_0.data == data_of(member(v, "data"@)->Some_0),
            r is Ok ==> match r->Ok_0.meta {
                None => absent(member(v, "meta"@)),
                Some(m) => !absent(member(v, "meta"@)) && meta_matches(m, member(v, "meta"@)->Some_0),
            },
            r is Ok ==> match r->Ok_0.links {
                None => absent(member(v, "links"@)),
                Some(l) => !absent(member(v, "links"@)) && links_match(l, member(v, "links"@)->Some_0),
            },
            !(v is Object) ==> r is Err && r->Err_0 is NotAnObject,
            v is Object && member(v, "data"@) is None ==> r is Err && r->Err_0 is MissingField,
    {
        let ghost v0 = v;
        let mut fields = match v {
            JsonValue::Object(fields) => fields,
            _ => {
                return Err(DecodeError::NotAnObject(owned("body")));
            },
        };
        let index = match find_member(&fields, "data") {
            Some(i) => i,
            None => {
                return Err(DecodeError::MissingField(owned("data")));
            },
        };
        let meta = match get_member(&fields, "meta") {
            None => None,
            Some(JsonValue::Null) => None,
            Some(m) => Some(Meta::from_json(m)?),
        };
        let links = match get_member(&fields, "links") {
            None => None,
            Some(JsonValue::Null) => None,
            Some(l) => Some(PaginationLinks::from_json(l)?),
        };
        let payload = fields.remove(index);
        let data = data_or_vec(payload.1)?;
        Ok(ApiResponse { meta, links, data })
    }
}

} // verus!
