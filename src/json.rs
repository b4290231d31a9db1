use vstd::prelude::*;

use crate::vote::{ContractError, ContractResponse};

verus! {

#[verifier::external_type_specification]
#[verifier::external_body]
pub struct ExJsonError(serde_json::Error);

/// The JSON string literal that serde_json writes for a text: quoted, with
/// its escapes.
pub uninterp spec fn json_string_of(s: Seq<char>) -> Seq<char>;

/// Relies on `serde_json::to_string` applied to a `String`: it returns the JSON
/// string literal for the text, which depends on the text alone. A `String` is
/// written only through `serialize_str` into a `Vec<u8>`, which cannot fail, so
/// the call always succeeds.
#[verifier::external_body]
fn json_quote(s: &String) -> (r: Result<String, serde_json::Error>)
    ensures
        r is Ok,
        r matches Ok(t) ==> t@ == json_string_of(s@),
{
    serde_json::to_string(s)
}

/// The JSON object `{"msg":<quoted>}` for an already quoted message.
pub open spec fn response_json_of(quoted_msg: Seq<char>) -> Seq<char> {
    "{\"msg\":"@ + quoted_msg + "}"@
}

/// The error text for a reply that could not be encoded.
pub open spec fn serialization_error_of(text: Seq<char>) -> Seq<char> {
    "Serialization error: "@ + text
}

/// Frames the outcome of quoting a reply's message: the quoted text becomes the
/// reply object, an encoding error's text becomes a contract error.
pub fn encode_response(quoted: Result<String, String>) -> (r: Result<String, ContractError>)
    ensures
        quoted matches Ok(q) ==> (r matches Ok(t) && t@ == response_json_of(q@)),
        quoted matches Err(e) ==> (r matches Err(x) && x.msg@ == serialization_error_of(e@)),
{
    match quoted {
        Ok(q) => {
            let mut t = "{\"msg\":".to_owned();
            t.append(q.as_str());
            t.append("}");
            assert(t@ =~= response_json_of(q@));
            Ok(t)
        },
        Err(e) => {
            let mut text = "Serialization error: ".to_owned();
            text.append(e.as_str());
            assert(text@ =~= serialization_error_of(e@));
            Err(ContractError { msg: text })
        },
    }
}

impl ContractResponse {
    /// The reply as a JSON object with the single field `msg`.
    pub fn to_json(&self) -> (r: Result<String, ContractError>)
        ensures
            r matches Ok(t) && t@ == response_json_of(json_string_of(self.msg@)),
    {
        let quoted = json_quote(&self.msg).unwrap();
        encode_response(Ok(quoted))
    }
}

} // verus!
