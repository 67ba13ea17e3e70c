use vstd::prelude::*;

use reqwest::header::{HeaderValue, InvalidHeaderValue};

use crate::error::BackupError;

verus! {

#[verifier::external_type_specification]
#[verifier::external_body]
pub struct ExHeaderValue(HeaderValue);

#[verifier::external_type_specification]
#[verifier::external_body]
pub struct ExInvalidHeaderValue(InvalidHeaderValue);

/// A character that a header value may hold: a visible ASCII character, a
/// space, a tab, or any character beyond ASCII (whose UTF-8 bytes are all
/// at least 0x80).
pub open spec fn header_char_allowed(c: char) -> bool {
    (c as u32 >= 32 && c as u32 != 127) || c == '\t'
}

pub open spec fn valid_header_text(s: Seq<char>) -> bool {
    forall|i: int| 0 <= i < s.len() ==> header_char_allowed(#[trigger] s[i])
}

/// Relies on `HeaderValue::from_str` of the `http` crate (re-exported by
/// reqwest): it accepts a string exactly when each of its bytes is at least
/// 32 and not 127, or is a tab.
pub assume_specification[ HeaderValue::from_str ](src: &str) -> (r: Result<
    HeaderValue,
    InvalidHeaderValue,
>)
    ensures
        r is Ok <==> valid_header_text(src@),
;

/// The media type asked of the API.
pub const ACCEPT_VALUE: &'static str = "application/vnd.github+json";

/// The name this tool gives itself to the API.
pub const USER_AGENT_VALUE: &'static str = "github-backup";

/// The texts of the headers that every request to the API carries.
pub struct ApiHeaders {
    /// `Bearer ` followed by the access token.
    pub authorization: String,
    /// The media type asked of the API.
    pub accept: String,
    /// The name this tool gives itself to the API.
    pub user_agent: String,
}

/// The `Authorization` credential for `token`.
pub fn bearer_credential(token: &str) -> (r: String)
    ensures
        r@ == "Bearer "@ + token@,
{
    let mut credential = String::from_str("Bearer ");
    credential.append(token);
    credential
}

/// The API headers for `token`; they exist exactly when the token can stand
/// in a header value.
pub fn api_headers(token: &str) -> (r: Result<ApiHeaders, BackupError>)
    ensures
        r is Ok <==> valid_header_text(token@),
        r is Ok ==> r->Ok_0.authorization@ == "Bearer "@ + token@ && r->Ok_0.accept@
            == ACCEPT_VALUE@ && r->Ok_0.user_agent@ == USER_AGENT_VALUE@,
        r is Err ==> r == Err::<ApiHeaders, BackupError>(BackupError::InvalidToken),
{
    proof {
        reveal_strlit("Bearer ");
    }
    let credential = bearer_credential(token);
    assert(valid_header_text(credential@) <==> valid_header_text(token@)) by {
        if valid_header_text(token@) {
            assert forall|i: int| 0 <= i < credential@.len() implies header_char_allowed(
                #[trigger] credential@[i],
            ) by {
                if i >= 7 {
                    assert(credential@[i] == token@[i - 7]);
                }
            }
        }
        if valid_header_text(credential@) {
            assert forall|i: int| 0 <= i < token@.len() implies header_char_allowed(
                #[trigger] token@[i],
            ) by {
                assert(credential@[i + 7] == token@[i]);
            }
        }
    }
    if HeaderValue::from_str(credential.as_str()).is_err() {
        return Err(BackupError::InvalidToken);
    }
    Ok(
        ApiHeaders {
            authorization: credential,
            accept: String::from_str(ACCEPT_VALUE),
            user_agent: String::from_str(USER_AGENT_VALUE),
        },
    )
}

} // verus!
