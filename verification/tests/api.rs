use freshbooks_mcp::api::{
    account_id_from_profile, api_url, status_line, bearer, check_status, ApiError, FreshBooksClient, TokenData,
    TokenStep, PROFILE_PATH, TOKEN_PATH,
};
use freshbooks_mcp::config::Config;
use freshbooks_mcp::json::{Json, JsonNumber};

fn s(v: &str) -> Json {
    Json::Str(v.to_string())
}

fn obj(fields: Vec<(&str, Json)>) -> Json {
    Json::Object(fields.into_iter().map(|(k, v)| (k.to_string(), v)).collect())
}

fn config(account: Option<&str>) -> Config {
    Config {
        client_id: "cid".to_string(),
        client_secret: "SECRET-REDACTED".to_string(),
        redirect_uri: "https://localhost/callback".to_string(),
        account_id: account.map(|a| a.to_string()),
    }
}

fn token() -> TokenData {
    TokenData {
        access_token: "acc".to_string(),
        refresh_token: "ref".to_string(),
        expires_in: Some(43200),
        scope: None,
    }
}

fn pairs(j: &Json) -> Vec<(String, String)> {
    match j {
        Json::Object(f) => f
            .iter()
            .map(|(k, v)| match v {
                Json::Str(t) => (k.clone(), t.clone()),
                _ => panic!("not a string"),
            })
            .collect(),
        _ => panic!("not an object"),
    }
}

fn p(k: &str, v: &str) -> (String, String) {
    (k.to_string(), v.to_string())
}

#[test]
fn error_messages() {
    assert_eq!(ApiError::Reqwest("x".to_string()).message(), "HTTP request failed: x");
    assert_eq!(
        ApiError::Api { status: 401, body: "bad token".to_string() }.message(),
        "FreshBooks API error (401 Unauthorized): bad token"
    );
    assert_eq!(
        ApiError::Api { status: 599, body: String::new() }.message(),
        "FreshBooks API error (599 <unknown status code>): "
    );
    assert_eq!(
        ApiError::NoToken.message(),
        "Not authenticated. Use get_auth_url and exchange_code tools first."
    );
    assert_eq!(ApiError::Other("plain".to_string()).message(), "plain");
}

#[test]
fn status_judgement() {
    assert_eq!(check_status(200, "{}".to_string()).ok(), Some("{}".to_string()));
    assert_eq!(check_status(204, String::new()).ok(), Some(String::new()));
    match check_status(500, "oops".to_string()) {
        Err(ApiError::Api { status, body }) => {
            assert_eq!(status, 500);
            assert_eq!(body, "oops");
        }
        _ => panic!("expected an API error"),
    }
    assert!(check_status(302, String::new()).is_err());
    assert!(check_status(199, String::new()).is_err());
    assert!(check_status(300, String::new()).is_err());
}

#[test]
fn urls_and_headers() {
    assert_eq!(api_url(TOKEN_PATH), "https://api.freshbooks.com/auth/oauth/token");
    assert_eq!(api_url(PROFILE_PATH), "https://api.freshbooks.com/auth/api/v1/users/me");
    assert_eq!(bearer("tok"), "Bearer tok");
}

#[test]
fn authorization_url() {
    let c = FreshBooksClient::new(config(None), "/tmp/t.json".to_string(), None);
    assert_eq!(
        c.auth_url(),
        "https://auth.freshbooks.com/oauth/authorize?response_type=code&client_id=cid&redirect_uri=https://localhost/callback"
    );
    assert_eq!(c.token_path(), "/tmp/t.json");
}

#[test]
fn token_request_bodies() {
    let c = FreshBooksClient::new(config(None), String::new(), None);
    assert_eq!(
        pairs(&c.exchange_body("the-code")),
        vec![
            p("grant_type", "authorization_code"),
            p("client_id", "cid"),
            p("client_secret", "SECRET-REDACTED"),
            p("code", "the-code"),
            p("redirect_uri", "https://localhost/callback"),
        ]
    );
    assert_eq!(
        pairs(&c.refresh_body("r1")),
        vec![
            p("grant_type", "refresh_token"),
            p("client_id", "cid"),
            p("client_secret", "SECRET-REDACTED"),
            p("refresh_token", "r1"),
            p("redirect_uri", "https://localhost/callback"),
        ]
    );
}

#[test]
fn token_steps() {
    let mut c = FreshBooksClient::new(config(None), String::new(), None);
    assert!(matches!(c.token_step(0), TokenStep::Missing));
    c.store_token(token());
    assert!(matches!(c.token_step(0), TokenStep::Ready(ref a) if a == "acc"));
    assert!(matches!(c.token_step(39599), TokenStep::Ready(_)));
    assert!(matches!(c.token_step(-5), TokenStep::Ready(_)));
    assert!(matches!(c.token_step(39600), TokenStep::Refresh(ref r) if r == "ref"));
    assert!(matches!(c.token_step(i64::MAX), TokenStep::Refresh(_)));
}

#[test]
fn account_id_state() {
    let mut c = FreshBooksClient::new(config(Some("A1")), String::new(), Some(token()));
    assert_eq!(c.known_account_id(), Some("A1"));
    c.store_account_id("B2".to_string());
    assert_eq!(c.known_account_id(), Some("B2"));
    assert!(matches!(c.token_step(1), TokenStep::Ready(_)));
    let c = FreshBooksClient::new(config(None), String::new(), None);
    assert_eq!(c.known_account_id(), None);
}

#[test]
fn account_discovery() {
    let data = obj(vec![(
        "response",
        obj(vec![(
            "business_memberships",
            Json::Array(vec![
                obj(vec![("business", obj(vec![("account_id", Json::Null)]))]),
                obj(vec![("role", s("owner"))]),
                obj(vec![("business", obj(vec![("account_id", s("xyz9"))]))]),
                obj(vec![("business", obj(vec![("account_id", s("later"))]))]),
            ]),
        )]),
    )]);
    assert_eq!(account_id_from_profile(&data).ok(), Some("xyz9".to_string()));

    let none = obj(vec![(
        "response",
        obj(vec![("business_memberships", Json::Array(vec![obj(vec![(
            "business",
            obj(vec![("account_id", Json::Number(JsonNumber::UInt(5)))]),
        )])]))]),
    )]);
    match account_id_from_profile(&none) {
        Err(e) => assert_eq!(e.message(), "Could not find account_id in /users/me response"),
        Ok(_) => panic!("expected an error"),
    }
    match account_id_from_profile(&obj(vec![])) {
        Err(ApiError::Other(m)) => assert_eq!(m, "Could not find account_id in /users/me response"),
        _ => panic!("expected an error"),
    }
}

#[test]
fn status_lines() {
    assert_eq!(status_line(404, Some("Not Found")), "404 Not Found");
    assert_eq!(status_line(799, None), "799 <unknown status code>");
}
