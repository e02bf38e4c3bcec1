use movey::invitation::Timestamp;
use movey::tokens::{
    check_token_quota, may_revoke, token_creation_reply, ApiToken, CreatedApiToken, EncodableApiTokenWithToken,
    TokenFailure, TokenReply,
};

fn created() -> CreatedApiToken {
    CreatedApiToken {
        model: ApiToken {
            id: 5,
            account_id: 1,
            token: "hashed".to_string(),
            name: "name1".to_string(),
            created_at: Timestamp { secs: 10, nanos: 0 },
            last_used_at: None,
        },
        plaintext: "plain-token".to_string(),
    }
}

#[test]
fn api_token_max_token_reached_works() {
    assert_eq!(check_token_quota(0, 2), Ok(()));
    assert_eq!(check_token_quota(1, 2), Ok(()));
    assert_eq!(check_token_quota(2, 2), Err("Too many tokens created.".to_string()));
    assert_eq!(check_token_quota(3, 2), Err("Too many tokens created.".to_string()));
}

#[test]
fn a_created_token_shows_its_plain_text() {
    let shown = EncodableApiTokenWithToken::from(created());
    assert_eq!(shown.id, 5);
    assert_eq!(shown.name, "name1");
    assert_eq!(shown.token, "plain-token");
    assert_eq!(shown.created_at, Timestamp { secs: 10, nanos: 0 });
    assert_eq!(shown.last_used_at, None);
}

#[test]
fn token_creation_is_answered_by_outcome() {
    match token_creation_reply(Ok(created())) {
        TokenReply::Created(t) => assert_eq!(t.token, "plain-token"),
        _ => panic!("expected the token"),
    }
    match token_creation_reply(Err(TokenFailure::NameTaken)) {
        TokenReply::BadRequest(m) => assert_eq!(m, "That name has already been taken."),
        _ => panic!("expected a refusal"),
    }
    match token_creation_reply(Err(TokenFailure::Refused("Too many tokens created.".to_string()))) {
        TokenReply::BadRequest(m) => assert_eq!(m, "Too many tokens created."),
        _ => panic!("expected a refusal"),
    }
    match token_creation_reply(Err(TokenFailure::Other)) {
        TokenReply::NotFound(m) => assert_eq!(m, ""),
        _ => panic!("expected not found"),
    }
}

#[test]
fn only_the_owner_revokes_a_token() {
    assert!(may_revoke(1, 1));
    assert!(!may_revoke(1, 2));
}
