use vstd::prelude::*;

use crate::text::str_eq;

verus! {

/// What the library reads of a JSON document: for an object, its members in
/// the parser's key order (every key once), each with its text when it is a
/// string and nothing otherwise; any other document is just not an object.
#[derive(Debug)]
pub enum JsonDoc {
    Object(Vec<(String, Option<String>)>),
    NotObject,
}

/// The document that serde_json reads from a byte string, as read above, if
/// it reads one (it refuses some JSON, such as nesting deeper than 128 levels).
pub uninterp spec fn json_document(bytes: Seq<u8>) -> Option<JsonDoc>;

/// The message of the error that serde_json reports for bytes it cannot
/// read as a document (the `Display` of its `Error`).
pub uninterp spec fn json_error_text(bytes: Seq<u8>) -> Seq<char>;

/// `serde_json::from_slice::<serde_json::Value>`, with the object's members
/// read by `Value::as_str`; an error is handed on as its message. Trusted:
/// it succeeds exactly when serde_json reads a document from the bytes, and
/// then returns that document as read above.
#[verifier::external_body]
pub(crate) fn parse_json(bytes: &[u8]) -> (res: Result<JsonDoc, String>)
    ensures
        res is Ok <==> json_document(bytes@) is Some,
        res matches Ok(v) ==> json_document(bytes@) == Some(v),
        res matches Err(t) ==> t@ == json_error_text(bytes@),
{
    match serde_json::from_slice::<serde_json::Value>(bytes) {
        Ok(serde_json::Value::Object(m)) => Ok(JsonDoc::Object(
            m.into_iter().map(|(k, v)| (k, v.as_str().map(String::from))).collect(),
        )),
        Ok(_) => Ok(JsonDoc::NotObject),
        Err(e) => Err(e.to_string()),
    }
}

/// The value of the first member named `key`.
pub open spec fn member_value(entries: Seq<(String, Option<String>)>, key: Seq<char>) -> Option<
    Option<String>,
>
    decreases entries.len(),
{
    if entries.len() == 0 {
        None
    } else if entries[0].0@ == key {
        Some(entries[0].1)
    } else {
        member_value(entries.drop_first(), key)
    }
}

/// The text of member `key` of an object, when that member is a string;
/// nothing for any other document or member (`value[key].as_str()`).
pub open spec fn str_member(v: JsonDoc, key: Seq<char>) -> Option<Seq<char>> {
    match v {
        JsonDoc::Object(entries) => match member_value(entries@, key) {
            Some(Some(s)) => Some(s@),
            _ => None,
        },
        JsonDoc::NotObject => None,
    }
}

/// Member `key` of an object as a string, if it is one.
pub fn str_member_of(v: &JsonDoc, key: &str) -> (r: Option<String>)
    ensures
        match r {
            Some(s) => str_member(*v, key@) == Some(s@),
            None => str_member(*v, key@) is None,
        },
{
    match v {
        JsonDoc::Object(entries) => {
            let mut i: usize = 0;
            assert(entries@.skip(0) =~= entries@);
            while i < entries.len()
                invariant
                    *v == JsonDoc::Object(*entries),
                    i <= entries@.len(),
                    member_value(entries@, key@) == member_value(entries@.skip(i as int), key@),
                decreases entries@.len() - i,
            {
                let ghost rest = entries@.skip(i as int);
                assert(rest.drop_first() =~= entries@.skip(i + 1));
                assert(rest[0] == entries@[i as int]);
                if str_eq(entries[i].0.as_str(), key) {
                    assert(member_value(entries@, key@) == Some(entries@[i as int].1));
                    let found = &entries[i].1;
                    match found {
                        Some(s) => {
                            let text = s.clone();
                            assert(*found == Some(*s));
                            return Some(text);
                        },
                        None => {
                            return None;
                        },
                    }
                }
                i = i + 1;
            }
            assert(entries@.skip(i as int).len() == 0);
            None
        },
        JsonDoc::NotObject => None,
    }
}

} // verus!
