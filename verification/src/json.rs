//! The boundary to `serde_json`. The parser turns a blob into the members of
//! a JSON object; which bytes are such an object is the parser's business
//! and is known here by name only. The contract of [`parse_object`] is taken
//! on trust, not proved.

use vstd::prelude::*;

verus! {

/// `serde_json::Error`, the parser's account of why it rejected its input.
#[verifier::external_type_specification]
#[verifier::external_body]
pub struct ExJsonError(serde_json::Error);

/// One member of a JSON object, as far as a configuration is read: its key,
/// and its text where its value is a JSON string.
#[derive(Debug, PartialEq, Eq)]
pub struct Member {
    pub key: String,
    pub text: Option<String>,
}

impl View for Member {
    type V = (Seq<char>, Option<Seq<char>>);

    open spec fn view(&self) -> (Seq<char>, Option<Seq<char>>) {
        (
            self.key@,
            match self.text {
                Some(text) => Some(text@),
                None => None,
            },
        )
    }
}

/// The members as plain text.
pub open spec fn member_views(members: Seq<Member>) -> Seq<(Seq<char>, Option<Seq<char>>)> {
    members.map_values(|member: Member| member@)
}

/// The members of the JSON object that `serde_json::from_slice` reads from
/// `bytes`, each with its key and with its text where its value is a string;
/// `None` where it reads no object from them.
pub uninterp spec fn json_object(bytes: Seq<u8>) -> Option<Seq<(Seq<char>, Option<Seq<char>>)>>;

/// Calls `serde_json::from_slice` to read a `serde_json::Map`, which it does
/// from a JSON object and from nothing else, and hands out the members.
/// Trusted: the outcome depends on the bytes alone, so that the same bytes
/// give the same members, or are rejected, every time.
#[verifier::external_body]
pub(crate) fn parse_object(bytes: &[u8]) -> (parsed: Result<Vec<Member>, serde_json::Error>)
    ensures
        parsed matches Ok(members) ==> json_object(bytes@) == Some(member_views(members@)),
        parsed is Err ==> json_object(bytes@) is None,
{
    let object: serde_json::Map<String, serde_json::Value> = serde_json::from_slice(bytes)?;
    let members = object.into_iter().map(|(key, value)| match value {
        serde_json::Value::String(text) => Member { key, text: Some(text) },
        serde_json::Value::Null => Member { key, text: None },
        serde_json::Value::Bool(_) => Member { key, text: None },
        serde_json::Value::Number(_) => Member { key, text: None },
        serde_json::Value::Array(_) => Member { key, text: None },
        serde_json::Value::Object(_) => Member { key, text: None },
    });
    Ok(members.collect())
}

} // verus!
