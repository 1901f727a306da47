use most_gpt::most::{websocket_url, IdentityError, Most, PostRequest};

#[test]
fn new_account_has_no_identity() {
    let most = Most::new("token", "https://chat.example.org/", "chatgpt");
    assert_eq!(most.bot_token(), "token");
    assert_eq!(most.base_url(), "https://chat.example.org/");
    assert_eq!(most.bot_name(), "chatgpt");
    assert_eq!(most.user_id(), "");
    assert_eq!(most.clone(), most);
}

#[test]
fn me_url_is_under_the_base_url() {
    let most = Most::new("token", "https://chat.example.org/", "chatgpt");
    assert_eq!(most.me_url(), "https://chat.example.org/api/v4/users/me");
}

#[test]
fn me_reads_the_identifier() {
    let mut most = Most::new("token", "https://chat.example.org/", "chatgpt");
    assert_eq!(most.me("{\"id\":\"bot42\",\"username\":\"chatgpt\"}"), Ok(()));
    assert_eq!(most.user_id(), "bot42");
    assert_eq!(most.bot_token(), "token");
    assert_eq!(most.base_url(), "https://chat.example.org/");
    assert_eq!(most.bot_name(), "chatgpt");
}

#[test]
fn me_without_an_identifier_fails_and_changes_nothing() {
    let mut most = Most::new("token", "https://chat.example.org/", "chatgpt");
    assert_eq!(most.me("{\"id\":\"bot42\"}"), Ok(()));
    assert_eq!(most.me("{\"username\":\"chatgpt\"}"), Err(IdentityError::NoId));
    assert_eq!(most.me("{\"id\":42}"), Err(IdentityError::NoId));
    assert_eq!(most.me("\"bot42\""), Err(IdentityError::NoId));
    assert_eq!(most.user_id(), "bot42");
}

#[test]
fn me_with_a_malformed_body_fails_and_changes_nothing() {
    let mut most = Most::new("token", "https://chat.example.org/", "chatgpt");
    assert_eq!(most.me("<html>"), Err(IdentityError::Malformed));
    assert_eq!(most.user_id(), "");
}

#[test]
fn identify_takes_what_it_is_given() {
    let mut most = Most::new("token", "https://chat.example.org/", "chatgpt");
    assert_eq!(most.identify(None), Err(IdentityError::NoId));
    assert_eq!(most.user_id(), "");
    assert_eq!(most.identify(Some("bot42")), Ok(()));
    assert_eq!(most.user_id(), "bot42");
}

#[test]
fn identity_errors_describe_themselves() {
    assert_eq!(IdentityError::NoId.message(), "No id found");
    assert_eq!(IdentityError::Malformed.message(), "Malformed user");
}

#[test]
fn posts_builds_a_threaded_reply() {
    let most = Most::new("token", "https://chat.example.org/", "chatgpt");
    assert_eq!(
        most.posts("c1", "hi", "p1"),
        PostRequest {
            url: "https://chat.example.org/api/v4/posts".to_string(),
            bearer: "token".to_string(),
            channel_id: "c1".to_string(),
            message: "hi".to_string(),
            root_id: "p1".to_string(),
        }
    );
}

#[test]
fn websocket_url_follows_the_scheme() {
    assert_eq!(
        websocket_url("https", "chat.example.org"),
        Some("wss://chat.example.org/api/v4/websocket".to_string())
    );
    assert_eq!(
        websocket_url("http", "localhost"),
        Some("ws://localhost/api/v4/websocket".to_string())
    );
    assert_eq!(websocket_url("ftp", "chat.example.org"), None);
    assert_eq!(websocket_url("", "chat.example.org"), None);
    assert_eq!(websocket_url("HTTPS", "chat.example.org"), None);
}
