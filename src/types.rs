//! The records that the beatmap API exchanges, as plain values.
use vstd::prelude::*;

verus! {

/// The review state of a beatmap, in the API's order.
#[derive(Clone, Copy, Debug, PartialEq, Eq, Structural)]
pub enum RankStatus {
    Graveyard,
    Wip,
    Pending,
    Ranked,
    Approved,
    Qualified,
    Loved,
}

impl RankStatus {
    /// The signed code under which the API sends this status.
    pub open spec fn spec_code(self) -> int {
        match self {
            RankStatus::Graveyard => -2,
            RankStatus::Wip => -1,
            RankStatus::Pending => 0,
            RankStatus::Ranked => 1,
            RankStatus::Approved => 2,
            RankStatus::Qualified => 3,
            RankStatus::Loved => 4,
        }
    }

    /// A status that no later poll can change: polling stops once it is seen.
    pub open spec fn spec_is_terminal(self) -> bool {
        match self {
            RankStatus::Graveyard | RankStatus::Wip | RankStatus::Ranked | RankStatus::Loved => true,
            RankStatus::Pending | RankStatus::Approved | RankStatus::Qualified => false,
        }
    }

    /// The text shown for this status.
    pub open spec fn spec_label(self) -> Seq<char> {
        match self {
            RankStatus::Graveyard => "Graveyard"@,
            RankStatus::Wip => "WIP"@,
            RankStatus::Pending => "Pending"@,
            RankStatus::Ranked => "Ranked"@,
            RankStatus::Approved => "Approved"@,
            RankStatus::Qualified => "Qualified"@,
            RankStatus::Loved => "Loved"@,
        }
    }

    pub fn code(self) -> (r: i8)
        ensures
            r == self.spec_code(),
    {
        match self {
            RankStatus::Graveyard => -2,
            RankStatus::Wip => -1,
            RankStatus::Pending => 0,
            RankStatus::Ranked => 1,
            RankStatus::Approved => 2,
            RankStatus::Qualified => 3,
            RankStatus::Loved => 4,
        }
    }

    /// The status sent under `code`, if any.
    pub fn from_code(code: i8) -> (r: Option<RankStatus>)
        ensures
            r is None <==> !(-2 <= code <= 4),
            r matches Some(s) ==> s.spec_code() == code,
    {
        match code {
            -2 => Some(RankStatus::Graveyard),
            -1 => Some(RankStatus::Wip),
            0 => Some(RankStatus::Pending),
            1 => Some(RankStatus::Ranked),
            2 => Some(RankStatus::Approved),
            3 => Some(RankStatus::Qualified),
            4 => Some(RankStatus::Loved),
            _ => None,
        }
    }

    pub fn is_terminal(self) -> (r: bool)
        ensures
            r == self.spec_is_terminal(),
    {
        match self {
            RankStatus::Graveyard | RankStatus::Wip | RankStatus::Ranked | RankStatus::Loved => true,
            RankStatus::Pending | RankStatus::Approved | RankStatus::Qualified => false,
        }
    }

    pub fn label(self) -> (r: &'static str)
        ensures
            r@ == self.spec_label(),
    {
        match self {
            RankStatus::Graveyard => "Graveyard",
            RankStatus::Wip => "WIP",
            RankStatus::Pending => "Pending",
            RankStatus::Ranked => "Ranked",
            RankStatus::Approved => "Approved",
            RankStatus::Qualified => "Qualified",
            RankStatus::Loved => "Loved",
        }
    }
}

/// Descriptive data of the set a beatmap belongs to.
#[derive(Clone, Debug, PartialEq, Eq)]
pub struct Beatmapset {
    pub title: String,
    pub artist: String,
    pub creator: String,
}

/// The status record of one beatmap.
#[derive(Clone, Debug, PartialEq, Eq)]
pub struct Beatmap {
    pub id: u32,
    pub ranked: RankStatus,
    pub beatmapset: Beatmapset,
}

/// The OAuth grant that the token exchange asks for.
#[derive(Clone, Copy, Debug, PartialEq, Eq, Structural)]
pub enum GrantType {
    ClientCredentials,
}

impl GrantType {
    /// The wire name of the grant.
    pub fn as_str(self) -> (r: &'static str)
        ensures
            r@ == "client_credentials"@,
    {
        "client_credentials"
    }
}

/// The scope that the token exchange asks for.
#[derive(Clone, Copy, Debug, PartialEq, Eq, Structural)]
pub enum GrantScope {
    Public,
}

impl GrantScope {
    /// The wire name of the scope.
    pub fn as_str(self) -> (r: &'static str)
        ensures
            r@ == "public"@,
    {
        "public"
    }
}

/// The body of a client-credentials token request.
#[derive(Clone, Debug, PartialEq, Eq)]
pub struct TokenGrantRequest {
    pub client_id: String,
    pub client_secret: String,
    pub grant_type: GrantType,
    pub scope: GrantScope,
}

impl TokenGrantRequest {
    /// A public-scope client-credentials request for the given client.
    pub fn with_credentials(client_id: String, client_secret: String) -> (r: Self)
        ensures
            r.client_id@ == client_id@,
            r.client_secret@ == client_secret@,
            r.grant_type == GrantType::ClientCredentials,
            r.scope == GrantScope::Public,
    {
        TokenGrantRequest {
            client_id,
            client_secret,
            grant_type: GrantType::ClientCredentials,
            scope: GrantScope::Public,
        }
    }
}

/// The answer to a successful token request.
#[derive(Clone, Debug, PartialEq, Eq)]
pub struct TokenGrantResponse {
    pub access_token: String,
    pub expires_in: i32,
    pub token_type: String,
}

} // verus!
