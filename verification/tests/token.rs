use filesharing::models::User;
use filesharing::permissions::Permissions;
use filesharing::status::Status;
use filesharing::token::{
    authorization_token, claims_at, issue_claims, request_token, token_account, token_username,
    Claims, HeaderInput, TOKEN_LIFETIME,
};
use filesharing::download::DECOY_HASH;

fn user(password: &str) -> User {
    User { id: 1, username: "dave".to_string(), password: password.to_string(), terminate: None, permissions: Permissions::none() }
}

#[test]
fn claims_expire_after_four_weeks() {
    let c = claims_at("dave".to_string(), 1_700_000_000);
    assert_eq!(c.iat, 1_700_000_000);
    assert_eq!(c.exp, 1_700_000_000 + 4 * 7 * 24 * 3600);
    assert_eq!(TOKEN_LIFETIME, 2_419_200);
    assert_eq!(c.username, "dave");
}

#[test]
fn issued_claims_are_four_weeks_long() {
    let c = issue_claims("erin".to_string()).unwrap();
    assert_eq!(c.exp - c.iat, 2_419_200);
    assert!(c.iat > 1_600_000_000);
}

#[test]
fn token_request_decisions() {
    assert_eq!(request_token(None, "pw"), Err(Status::Unauthorized));
    assert_eq!(request_token(Some(user("")), "pw"), Err(Status::InternalServerError));
    assert_eq!(request_token(Some(user(DECOY_HASH)), "pw"), Err(Status::Unauthorized));
}

#[test]
fn header_token_extraction() {
    let e = authorization_token(HeaderInput::Missing).unwrap_err();
    assert_eq!((e.status, e.message.as_str()), (Status::Forbidden, "Please add the JWT token to the header"));
    let e = authorization_token(HeaderInput::Unreadable).unwrap_err();
    assert_eq!((e.status, e.message.as_str()), (Status::Forbidden, "Empty header is not allowed"));
    let e = authorization_token(HeaderInput::Text("Bearer".to_string())).unwrap_err();
    assert_eq!((e.status, e.message.as_str()), (Status::InternalServerError, "Token cannot be parsed"));
    assert_eq!(authorization_token(HeaderInput::Text("Bearer a.b.c".to_string())).unwrap(), "a.b.c");
}

#[test]
fn decoded_token_lookups() {
    let e = token_username(None).unwrap_err();
    assert_eq!((e.status, e.message.as_str()), (Status::Unauthorized, "Unable to decode token"));
    let c = Claims { exp: 2, iat: 1, username: "x".to_string() };
    assert_eq!(token_username(Some(c)).unwrap(), "x");
    let e = token_account(None).unwrap_err();
    assert_eq!((e.status, e.message.as_str()), (Status::Forbidden, "You are not an authorized user"));
    assert_eq!(token_account(Some(user("h"))).unwrap().username, "dave");
}
