use bitcoin_rpc_client::auth::{authorization_value, basic_authorization, credentials};
use bitcoin_rpc_client::retry::{RetryPolicy, DEFAULT_INTERVAL, DEFAULT_MAX_ATTEMPTS};
use bitcoin_rpc_client::BitcoinCoreClient;

#[test]
fn credentials_are_joined_with_a_colon() {
    assert_eq!(credentials("user", "pass"), "user:pass");
    assert_eq!(credentials("", ""), ":");
    assert_eq!(credentials("a:b", "c"), "a:b:c");
}

#[test]
fn authorization_value_prefixes_the_scheme() {
    assert_eq!(authorization_value("dXNlcjpwYXNz"), "Basic dXNlcjpwYXNz");
    assert_eq!(authorization_value(""), "Basic ");
}

#[test]
fn basic_authorization_encodes_the_credentials() {
    assert_eq!(
        basic_authorization("user", "pass"),
        Some("Basic dXNlcjpwYXNz".to_string())
    );
    assert_eq!(
        basic_authorization("bitcoin", "54pLR_f7-G6is32LP-7nbhzZSbJs_2zSATtZV_r05yg="),
        Some(
            "Basic Yml0Y29pbjo1NHBMUl9mNy1HNmlzMzJMUC03bmJoelpTYkpzXzJ6U0FUdFpWX3IwNXlnPQ=="
                .to_string()
        )
    );
}

#[test]
fn basic_authorization_pads_short_input() {
    assert_eq!(basic_authorization("", ""), Some("Basic Og==".to_string()));
    assert_eq!(basic_authorization("a", ""), Some("Basic YTo=".to_string()));
    assert_eq!(basic_authorization("a", "b"), Some("Basic YTpi".to_string()));
}

#[test]
fn basic_authorization_encodes_utf8_bytes() {
    assert_eq!(
        basic_authorization("ü", "é"),
        Some("Basic w7w6w6k=".to_string())
    );
}

#[test]
fn authorization_is_printable_ascii() {
    let client = BitcoinCoreClient::new("http://localhost:18443", "üser\n", "p\u{7f}ss\t");
    assert!(client.authorization().starts_with("Basic "));
    assert!(client
        .authorization()
        .bytes()
        .all(|byte| (0x20..=0x7e).contains(&byte)));
}

#[test]
fn new_client_keeps_url_and_header_and_default_policy() {
    let client = BitcoinCoreClient::new("http://localhost:18443", "user", "pass");
    assert_eq!(client.url(), "http://localhost:18443");
    assert_eq!(client.authorization(), "Basic dXNlcjpwYXNz");
    assert_eq!(
        client.retry_policy(),
        Some(RetryPolicy {
            max_attempts: 10,
            interval: 500
        })
    );
    assert_eq!(client.retry_policy(), Some(RetryPolicy::default()));
    assert_eq!(DEFAULT_MAX_ATTEMPTS, 10);
    assert_eq!(DEFAULT_INTERVAL, 500);
}

#[test]
fn with_retry_policy_changes_the_policy_only() {
    let client = BitcoinCoreClient::new("http://node", "u", "p").with_retry_policy(None);
    assert_eq!(client.retry_policy(), None);
    assert_eq!(client.url(), "http://node");
    assert_eq!(client.authorization(), "Basic dTpw");
    let policy = RetryPolicy {
        max_attempts: 3,
        interval: 7,
    };
    let client = client.with_retry_policy(Some(policy));
    assert_eq!(client.retry_policy(), Some(policy));
    assert_eq!(client.authorization(), "Basic dTpw");
}
