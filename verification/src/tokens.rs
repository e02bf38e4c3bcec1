//! API tokens: how many an account may hold, what a new token's creator
//! is shown, how a creation request is answered, and who may revoke one.

use vstd::prelude::*;
use crate::invitation::Timestamp;

verus! {

/// A stored API token; `token` holds the token's hash.
#[derive(Debug)]
pub struct ApiToken {
    pub id: i32,
    pub account_id: i32,
    pub token: String,
    pub name: String,
    pub created_at: Timestamp,
    pub last_used_at: Option<Timestamp>,
}

/// A token just created, with the plain text that is shown once.
#[derive(Debug)]
pub struct CreatedApiToken {
    pub model: ApiToken,
    pub plaintext: String,
}

/// What the creator of a token is sent back.
#[derive(Debug)]
pub struct EncodableApiTokenWithToken {
    pub id: i32,
    pub name: String,
    pub token: String,
    pub created_at: Timestamp,
    pub last_used_at: Option<Timestamp>,
}

/// The answer shows the stored token's id, name and dates with the plain
/// text in place of the hash.
impl From<CreatedApiToken> for EncodableApiTokenWithToken {
    fn from(token: CreatedApiToken) -> (r: EncodableApiTokenWithToken) {
        EncodableApiTokenWithToken {
            id: token.model.id,
            name: token.model.name,
            token: token.plaintext,
            created_at: token.model.created_at,
            last_used_at: token.model.last_used_at,
        }
    }
}

impl vstd::std_specs::convert::FromSpecImpl<CreatedApiToken> for EncodableApiTokenWithToken {
    open spec fn obeys_from_spec() -> bool {
        true
    }

    open spec fn from_spec(token: CreatedApiToken) -> EncodableApiTokenWithToken {
        EncodableApiTokenWithToken {
            id: token.model.id,
            name: token.model.name,
            token: token.plaintext,
            created_at: token.model.created_at,
            last_used_at: token.model.last_used_at,
        }
    }
}

/// The refusal of a token past the limit.
pub open spec fn too_many_tokens() -> Seq<char> {
    "Too many tokens created."@
}

/// An account holding `count` tokens may create another while it holds
/// fewer than `max`.
pub fn check_token_quota(count: i64, max: i64) -> (r: Result<(), String>)
    ensures
        r is Ok <==> count < max,
        r matches Err(msg) ==> msg@ == too_many_tokens(),
{
    if count < max {
        Ok(())
    } else {
        Err(String::from_str("Too many tokens created."))
    }
}

/// How storing a new token failed.
pub enum TokenFailure {
    /// The account has a token of that name already.
    NameTaken,
    /// A refusal with its message (such as the limit's).
    Refused(String),
    Other,
}

/// The answer to a token creation request, with a text body; the created
/// token is sent as JSON.
pub enum TokenReply {
    BadRequest(String),
    NotFound(String),
    Created(EncodableApiTokenWithToken),
}

/// The answer to a creation request whose name was accepted, after the
/// store answered.
pub fn token_creation_reply(outcome: Result<CreatedApiToken, TokenFailure>) -> (r: TokenReply)
    ensures
        match outcome {
            Ok(t) => r == TokenReply::Created(
                EncodableApiTokenWithToken {
                    id: t.model.id,
                    name: t.model.name,
                    token: t.plaintext,
                    created_at: t.model.created_at,
                    last_used_at: t.model.last_used_at,
                },
            ),
            Err(TokenFailure::NameTaken) => r matches TokenReply::BadRequest(m) && m@
                == "That name has already been taken."@,
            Err(TokenFailure::Refused(msg)) => r == TokenReply::BadRequest(msg),
            Err(TokenFailure::Other) => r matches TokenReply::NotFound(m) && m@ == Seq::<char>::empty(),
        },
{
    match outcome {
        Ok(t) => TokenReply::Created(EncodableApiTokenWithToken::from(t)),
        Err(TokenFailure::NameTaken) => TokenReply::BadRequest(String::from_str("That name has already been taken.")),
        Err(TokenFailure::Refused(msg)) => TokenReply::BadRequest(msg),
        Err(TokenFailure::Other) => TokenReply::NotFound(String::new()),
    }
}

/// A token is revoked only by the account it belongs to; a request for
/// another's token is answered the same way but changes nothing.
pub fn may_revoke(token_owner: i32, user_id: i32) -> (b: bool)
    ensures
        b == (token_owner == user_id),
{
    token_owner == user_id
}

} // verus!
