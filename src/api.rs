//! The remote API's addresses, its status lines, and what a fetch came to.
use vstd::prelude::*;

use crate::text::{append_decimal, decimal};
use crate::types::Beatmap;

verus! {

/// The HTTP status of a response that carries what was asked for.
pub const HTTP_OK: u16 = 200;

/// The text that the HTTP client shows for a status code: the code, then its reason phrase.
pub uninterp spec fn status_text(code: u16) -> Seq<char>;

/// Relies on `reqwest::StatusCode::from_u16` and the status code's `Display`, which
/// writes the code's digits and then the reason phrase, so the text is never empty.
/// `from_u16` accepts exactly the codes from 100 to 999.
#[verifier::external_body]
fn status_line(code: u16) -> (r: String)
    requires
        100 <= code <= 999,
    ensures
        r@ == status_text(code),
        r@.len() > 0,
{
    match reqwest::StatusCode::from_u16(code) {
        Ok(status) => status.to_string(),
        Err(_) => String::new(),
    }
}

/// Why a token exchange failed.
#[derive(Clone, Copy, Debug, PartialEq, Eq, Structural)]
pub enum AuthError {
    /// The server answered with this non-success status.
    Status(u16),
    /// No answer could be had.
    Network,
}

impl AuthError {
    /// A status error holds a code that HTTP can carry.
    pub open spec fn wf(self) -> bool {
        match self {
            AuthError::Status(code) => 100 <= code <= 999,
            AuthError::Network => true,
        }
    }

    /// The text shown to the user for this error.
    pub open spec fn spec_message(self) -> Seq<char> {
        match self {
            AuthError::Status(code) => status_text(code),
            AuthError::Network => "Network error"@,
        }
    }

    /// The text shown to the user for this error; never empty.
    pub fn message(self) -> (r: String)
        requires
            self.wf(),
        ensures
            r@ == self.spec_message(),
            r@.len() > 0,
    {
        match self {
            AuthError::Status(code) => status_line(code),
            AuthError::Network => {
                proof {
                    reveal_strlit("Network error");
                }
                String::from_str("Network error")
            },
        }
    }
}

/// What one fetch of a beatmap came to.
#[derive(Clone, Debug, PartialEq, Eq)]
pub enum FetchOutcome {
    /// The beatmap's current record.
    Found(Beatmap),
    /// The server has no such beatmap (any status but success).
    NotFound,
    /// The request or the reading of its answer failed.
    Failed,
}

/// What a beatmap fetch came to, from the answer's status and, for a success,
/// the decoded body (absent where it could not be read).
pub fn beatmap_outcome(status: u16, body: Option<Beatmap>) -> (r: FetchOutcome)
    ensures
        status != HTTP_OK ==> r == FetchOutcome::NotFound,
        status == HTTP_OK ==> r == match body {
            Some(b) => FetchOutcome::Found(b),
            None => FetchOutcome::Failed,
        },
{
    if status != HTTP_OK {
        FetchOutcome::NotFound
    } else {
        match body {
            Some(b) => FetchOutcome::Found(b),
            None => FetchOutcome::Failed,
        }
    }
}

pub open spec fn spec_token_url() -> Seq<char> {
    "https://osu.ppy.sh/oauth/token"@
}

pub open spec fn spec_beatmap_url(id: u32) -> Seq<char> {
    "https://osu.ppy.sh/api/v2/beatmaps/"@ + decimal(id as nat)
}

pub open spec fn spec_cover_url(id: u32) -> Seq<char> {
    "https://assets.ppy.sh/beatmaps/"@ + decimal(id as nat) + "/covers/list.jpg"@
}

/// Where the token exchange is posted.
pub fn token_url() -> (r: String)
    ensures
        r@ == spec_token_url(),
{
    String::from_str("https://osu.ppy.sh/oauth/token")
}

/// Where the record of beatmap `id` is fetched.
pub fn beatmap_url(id: u32) -> (r: String)
    ensures
        r@ == spec_beatmap_url(id),
{
    let mut s = String::from_str("https://osu.ppy.sh/api/v2/beatmaps/");
    append_decimal(&mut s, id);
    s
}

/// Where the cover image of beatmap `id` is fetched.
pub fn cover_url(id: u32) -> (r: String)
    ensures
        r@ == spec_cover_url(id),
{
    let mut s = String::from_str("https://assets.ppy.sh/beatmaps/");
    append_decimal(&mut s, id);
    s.append("/covers/list.jpg");
    s
}

/// Where the public address of this machine is asked for.
pub fn public_ip_url() -> (r: String)
    ensures
        r@ == "https://ipinfo.io/ip"@,
{
    String::from_str("https://ipinfo.io/ip")
}

/// The value of the `Authorization` header for a bearer token.
pub fn bearer(access_token: &str) -> (r: String)
    ensures
        r@ == "Bearer "@ + access_token@,
{
    let mut s = String::from_str("Bearer ");
    s.append(access_token);
    s
}

} // verus!
