//! The credential header attached to every upload request:
//! `Basic <base64(user:pass)>`.

use vstd::prelude::*;
use vstd::string::StringExecFns;
use base64::Engine;

verus! {

/// The standard (padded) base64 encoding of a string's bytes.
pub uninterp spec fn base64_standard_of(s: Seq<char>) -> Seq<char>;

/// Relies on base64's `Engine::encode` with the `STANDARD` engine: the
/// encoding depends on the input bytes alone.
#[verifier::external_body]
fn base64_encode_str(s: &str) -> (r: String)
    ensures
        r@ == base64_standard_of(s@),
{
    base64::engine::general_purpose::STANDARD.encode(s)
}

/// The header value owed for a user and password pair.
pub open spec fn spec_basic_auth_header(user: Seq<char>, pass: Seq<char>) -> Seq<char> {
    "Basic "@ + base64_standard_of(user + ":"@ + pass)
}

/// Build the `Authorization` value for the storage sink: `Basic ` followed
/// by the standard base64 encoding of `user:pass`.
pub fn basic_auth_header(user: &str, pass: &str) -> (r: String)
    ensures
        r@ == spec_basic_auth_header(user@, pass@),
{
    let mut raw = String::from_str(user);
    raw.append(":");
    raw.append(pass);
    let encoded = base64_encode_str(raw.as_str());
    let mut header = String::from_str("Basic ");
    header.append(encoded.as_str());
    header
}

} // verus!
