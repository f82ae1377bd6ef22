//! The fixed response envelope: status code 200, static CORS/content-type
//! headers, a JSON body holding the selected line under a single `message`
//! field, and a flag saying the body is not base64-encoded.

use vstd::prelude::*;
use vstd::string::StringExecFns;

verus! {

/// The fixed-shape success record handed back to the invocation boundary.
pub struct ResponseEnvelope {
    pub status_code: u64,
    pub headers: Vec<(String, String)>,
    pub body: String,
    pub is_base64_encoded: bool,
}

/// What str::trim leaves of a string: its surrounding whitespace removed.
/// The result depends on the input characters alone.
pub uninterp spec fn trim_of(s: Seq<char>) -> Seq<char>;

/// Relies on str::trim: returns the input with leading and trailing
/// whitespace removed, hence a piece of the input that is never longer
/// than it.
#[verifier::external_body]
fn trim(s: &str) -> (r: &str)
    ensures
        r@ == trim_of(s@),
        r@.len() <= s@.len(),
{
    s.trim()
}

/// Wrap the selected line in the response envelope: always status 200, the
/// four static headers, not base64-encoded, and a body interpolating the
/// whitespace-trimmed line into a one-field JSON object. The interpolation
/// is raw: a line holding a double quote or backslash yields invalid JSON —
/// a known limitation preserved by design, not corrected here.
pub fn build_response(line: &String) -> (r: ResponseEnvelope)
    ensures
        r.status_code == 200,
        !r.is_base64_encoded,
        r.headers@.len() == 4,
        r.headers@[0].0@ == "Content-Type"@,
        r.headers@[0].1@ == "application/json"@,
        r.headers@[1].0@ == "Access-Control-Allow-Methods"@,
        r.headers@[1].1@ == "'GET,OPTIONS'"@,
        r.headers@[2].0@ == "Access-Control-Allow-Headers"@,
        r.headers@[2].1@ == "'Content-Type,X-Amz-Date,Authorization,X-Api-Key,X-Amz-Security-Token'"@,
        r.headers@[3].0@ == "Access-Control-Allow-Origin"@,
        r.headers@[3].1@ == "https://example.com"@,
        r.body@ == "{\"message\": \""@ + trim_of(line@) + "\"}"@,
{
    let mut headers: Vec<(String, String)> = Vec::new();
    headers.push((String::from_str("Content-Type"), String::from_str("application/json")));
    headers.push(
        (String::from_str("Access-Control-Allow-Methods"), String::from_str("'GET,OPTIONS'")),
    );
    headers.push(
        (
            String::from_str("Access-Control-Allow-Headers"),
            String::from_str(
                "'Content-Type,X-Amz-Date,Authorization,X-Api-Key,X-Amz-Security-Token'",
            ),
        ),
    );
    headers.push(
        (String::from_str("Access-Control-Allow-Origin"), String::from_str("https://example.com")),
    );
    let mut body = String::from_str("{\"message\": \"");
    body.append(trim(line.as_str()));
    body.append("\"}");
    proof {
        assert(body@ =~= "{\"message\": \""@ + trim_of(line@) + "\"}"@);
    }
    ResponseEnvelope { status_code: 200, headers, body, is_base64_encoded: false }
}

} // verus!
