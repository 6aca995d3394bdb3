//! The credentials a user token seals: the JSON text of the user's id, email
//! and password, as serde_json writes an object with those three string
//! members (in the order of serde_json's map, which sorts the keys unless its
//! `preserve_order` feature is on).
use serde_json::{Map as JsonMap, Value};
use vstd::prelude::*;

verus! {

/// The text that serde_json writes for a JSON object whose members are the
/// given string fields, inserted in the given order.
pub uninterp spec fn json_object_text(fields: Seq<(Seq<char>, Seq<char>)>) -> Seq<char>;

/// An upper bound on the length of that text: the two braces, and for each
/// field its key and value with every character escaped at most six
/// characters long (`\u00XX`), two pairs of quotes, a colon and a comma.
pub open spec fn json_fields_bound(fields: Seq<(Seq<char>, Seq<char>)>) -> int
    decreases fields.len(),
{
    if fields.len() == 0 {
        2
    } else {
        json_fields_bound(fields.drop_last()) + 6 * (fields.last().0.len() + fields.last().1.len()) + 6
    }
}

/// The text is at least the two braces long and at most `json_fields_bound`.
pub open spec fn json_text_size_ok(text: Seq<char>, fields: Seq<(Seq<char>, Seq<char>)>) -> bool {
    2 <= text.len() && text.len() <= json_fields_bound(fields)
}

/// `serde_json::to_string` of a `Value::Object` built from `fields`, each value a
/// `Value::String`. Writing such a value has no failing case (its keys are
/// strings and a string always serializes), so the result is always `Ok`. Its
/// text is named, not spelled out; of its length the source shows that it is
/// written between `{` and `}`, each member as a quoted key, `:` and a quoted
/// value, members separated by `,`, and each character of a key or value
/// written as itself or as an escape of at most six characters.
#[verifier::external_body]
fn json_object_string(fields: &Vec<(String, String)>) -> (r: Result<String, String>)
    ensures
        r is Ok,
        r matches Ok(text) ==> text@ == json_object_text(fields.deep_view()),
        r matches Ok(text) ==> json_text_size_ok(text@, fields.deep_view()),
{
    let object: JsonMap<String, Value> = fields.iter().map(
        |(key, value)| (key.clone(), Value::String(value.clone())),
    ).collect();
    serde_json::to_string(&Value::Object(object)).map_err(|e| e.to_string())
}

/// The members of a user's credentials, in the order they are inserted.
pub open spec fn credentials_fields(id: Seq<char>, email: Seq<char>, password: Seq<char>) -> Seq<
    (Seq<char>, Seq<char>),
> {
    seq![("id"@, id), ("email"@, email), ("password"@, password)]
}

/// The credentials text of a user.
pub open spec fn credentials_text(id: Seq<char>, email: Seq<char>, password: Seq<char>) -> Seq<char> {
    json_object_text(credentials_fields(id, email, password))
}

/// The bound on the length of a user's credentials text.
pub open spec fn credentials_bound(id: Seq<char>, email: Seq<char>, password: Seq<char>) -> int {
    110 + 6 * (id.len() + email.len() + password.len()) as int
}

/// The JSON text of a user's credentials: an object with the string members
/// `id`, `email` and `password`.
pub fn credentials_json(id: &str, email: &str, password: &str) -> (r: Result<String, String>)
    ensures
        r is Ok,
        r matches Ok(text) ==> text@ == credentials_text(id@, email@, password@),
        r matches Ok(text) ==> 2 <= text@.len() && text@.len() <= credentials_bound(id@, email@, password@),
{
    let mut fields: Vec<(String, String)> = Vec::new();
    fields.push((String::from_str("id"), id.to_owned()));
    fields.push((String::from_str("email"), email.to_owned()));
    fields.push((String::from_str("password"), password.to_owned()));
    proof {
        reveal_strlit("id");
        reveal_strlit("email");
        reveal_strlit("password");
        let f = credentials_fields(id@, email@, password@);
        assert(fields.deep_view() =~= f);
        assert(f.drop_last().drop_last().drop_last() =~= Seq::<(Seq<char>, Seq<char>)>::empty());
        reveal_with_fuel(json_fields_bound, 4);
    }
    json_object_string(&fields)
}

} // verus!
