use rustball::sign_in::{
    decimal_string, has_session, persist_access, sign_in_step, token_request, Credentials, SignInAction, SignInEvent,
    SignInState,
};

fn creds() -> Credentials {
    Credentials { consumer_key: "key123".to_string(), consumer_secret: "secret456".to_string() }
}

fn names(v: &[&str]) -> Vec<String> {
    v.iter().map(|s| s.to_string()).collect()
}

fn reply_body(a: &SignInAction) -> String {
    match a {
        SignInAction::Reply { body } => body.clone(),
        _ => panic!("expected a reply"),
    }
}

#[test]
fn session_cookie_detection() {
    assert!(has_session(&names(&["lang", "userid"])));
    assert!(!has_session(&names(&["user", "USERID"])));
    assert!(!has_session(&names(&[])));
}

#[test]
fn signed_in_visitor_goes_to_league() {
    let (next, action) =
        sign_in_step(SignInState::Start, SignInEvent::Requested { cookie_names: names(&["userid"]), timestamp: 1318622958 }, &creds());
    assert!(matches!(next, SignInState::Done));
    match action {
        SignInAction::Redirect { location } => assert_eq!(location, "http://localhost:3000/league/"),
        _ => panic!("expected a redirect"),
    }
}

#[test]
fn new_visitor_requests_a_token() {
    let (next, action) =
        sign_in_step(SignInState::Start, SignInEvent::Requested { cookie_names: names(&["other"]), timestamp: 1318622958 }, &creds());
    assert!(matches!(next, SignInState::AwaitingTokenReply));
    match action {
        SignInAction::SendTokenRequest { url, authorization } => {
            assert_eq!(url, "https://twitter.com/oauth/request_token");
            assert!(authorization.starts_with("OAuth "));
            assert!(authorization.contains("oauth_consumer_key=\"key123\""));
            assert!(authorization.contains("oauth_signature_method=\"HMAC-SHA1\""));
            assert!(authorization.contains(
                "oauth_callback=\"http%3A%2F%2F127.0.0.1%3A3000%2Fpersist_access%2F\""
            ));
            assert!(authorization.contains("oauth_signature=\""));
            let nonce = authorization.split("oauth_nonce=\"").nth(1).unwrap().split('"').next().unwrap();
            assert_eq!(nonce.len(), 42);
            assert!(nonce.chars().all(|c| c.is_ascii_alphanumeric()));
            assert!(authorization.contains("oauth_timestamp=\"1318622958\""));
        }
        _ => panic!("expected a token request"),
    }
}

#[test]
#[allow(deprecated)]
fn token_request_is_signed_with_the_given_time_and_nonce() {
    let req = token_request(&creds(), 1318622958, "kYjzVBB8Y0ZFabxSWbWovY3uYSQ2pTgmZeNu2VS4cg");
    assert_eq!(req.url, "https://twitter.com/oauth/request_token");
    let expected = oauthcli::authorization_header(
        "POST",
        url::Url::parse("https://twitter.com/oauth/request_token").unwrap(),
        None,
        "key123",
        "secret456",
        None,
        None,
        oauthcli::SignatureMethod::HmacSha1,
        "1318622958",
        "kYjzVBB8Y0ZFabxSWbWovY3uYSQ2pTgmZeNu2VS4cg",
        Some("http://127.0.0.1:3000/persist_access/"),
        None,
        Vec::<(String, String)>::new().into_iter(),
    );
    assert_eq!(req.authorization, expected);
    assert!(req.authorization.contains("oauth_timestamp=\"1318622958\""));
    assert!(req.authorization.contains("oauth_nonce=\"kYjzVBB8Y0ZFabxSWbWovY3uYSQ2pTgmZeNu2VS4cg\""));
    let other = token_request(&creds(), 1318622959, "kYjzVBB8Y0ZFabxSWbWovY3uYSQ2pTgmZeNu2VS4cg");
    assert_ne!(req.authorization, other.authorization);
}

#[test]
fn send_failure_is_answered() {
    let (next, action) = sign_in_step(
        SignInState::AwaitingTokenReply,
        SignInEvent::TokenRequestSent(Err("no route".to_string())),
        &creds(),
    );
    assert!(matches!(next, SignInState::Done));
    assert_eq!(reply_body(&action), "Error sending initial oauth request: no route");
}

#[test]
fn sent_request_is_read() {
    let (next, action) =
        sign_in_step(SignInState::AwaitingTokenReply, SignInEvent::TokenRequestSent(Ok(())), &creds());
    assert!(matches!(next, SignInState::ReadingTokenReply));
    assert!(matches!(action, SignInAction::ReadTokenReply));
}

#[test]
fn read_failure_is_answered() {
    let (next, action) = sign_in_step(
        SignInState::ReadingTokenReply,
        SignInEvent::TokenReplyRead(Err("eof".to_string())),
        &creds(),
    );
    assert!(matches!(next, SignInState::Done));
    assert_eq!(reply_body(&action), "Error reading response to initial oauth request: eof");
}

#[test]
fn reply_without_token_is_answered() {
    let (_, action) = sign_in_step(
        SignInState::ReadingTokenReply,
        SignInEvent::TokenReplyRead(Ok("oauth_problem=x".to_string())),
        &creds(),
    );
    assert_eq!(reply_body(&action), "No `oauth_token` in response from Twitter");
    let (_, action) = sign_in_step(
        SignInState::ReadingTokenReply,
        SignInEvent::TokenReplyRead(Ok("oauth_token=t".to_string())),
        &creds(),
    );
    assert_eq!(reply_body(&action), "No `oauth_token_secret` in response from Twitter");
}

#[test]
fn granted_token_is_saved_then_visitor_is_sent_to_twitter() {
    let reply = "oauth_token=TOK&oauth_token_secret=SEC&oauth_callback_confirmed=true".to_string();
    let (saving, save) =
        sign_in_step(SignInState::ReadingTokenReply, SignInEvent::TokenReplyRead(Ok(reply)), &creds());
    match save {
        SignInAction::SaveToken { token, secret } => {
            assert_eq!(token, "TOK");
            assert_eq!(secret, "SEC");
        }
        _ => panic!("expected the token to be saved"),
    }
    let (done, redirect) = sign_in_step(saving, SignInEvent::TokenSaved(Ok(())), &creds());
    assert!(matches!(done, SignInState::Done));
    match redirect {
        SignInAction::Redirect { location } => {
            assert_eq!(location, "https://twitter.com/oauth/authenticate?oauth_token=TOK")
        }
        _ => panic!("expected a redirect"),
    }
}

#[test]
fn save_failure_is_answered() {
    let (next, action) = sign_in_step(
        SignInState::SavingToken { token: "T".to_string() },
        SignInEvent::TokenSaved(Err("duplicate key".to_string())),
        &creds(),
    );
    assert!(matches!(next, SignInState::Done));
    assert_eq!(reply_body(&action), "Error saving response in database: duplicate key");
}

#[test]
fn out_of_order_events_are_ignored() {
    let (next, action) = sign_in_step(SignInState::Done, SignInEvent::TokenSaved(Ok(())), &creds());
    assert!(matches!(next, SignInState::Done));
    assert!(matches!(action, SignInAction::Ignore));
    let (next, action) =
        sign_in_step(SignInState::Start, SignInEvent::TokenRequestSent(Ok(())), &creds());
    assert!(matches!(next, SignInState::Start));
    assert!(matches!(action, SignInAction::Ignore));
}

#[test]
fn flow_reaches_done_within_four_steps() {
    let mut state = SignInState::Start;
    let events = vec![
        SignInEvent::Requested { cookie_names: Vec::new(), timestamp: 1700000000 },
        SignInEvent::TokenRequestSent(Ok(())),
        SignInEvent::TokenReplyRead(Ok("oauth_token=a&oauth_token_secret=b".to_string())),
        SignInEvent::TokenSaved(Ok(())),
    ];
    for e in events {
        let (next, action) = sign_in_step(state, e, &creds());
        assert!(!matches!(action, SignInAction::Ignore));
        state = next;
    }
    assert!(matches!(state, SignInState::Done));
}

#[test]
fn persist_access_does_nothing() {
    persist_access();
}

#[test]
fn decimal_writing() {
    assert_eq!(decimal_string(0), "0");
    assert_eq!(decimal_string(7), "7");
    assert_eq!(decimal_string(10), "10");
    assert_eq!(decimal_string(1318622958), "1318622958");
    assert_eq!(decimal_string(u64::MAX), "18446744073709551615");
}
