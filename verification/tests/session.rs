use serde_json::Value;
use vault_provider::config::{Environment, VaultConfig};
use vault_provider::http::{HttpMethod, HttpRequest};
use vault_provider::provider::VaultProvider;
use vault_provider::provider_url::ProviderUrl;
use vault_provider::secret::Secret;
use vault_provider::session::{
    decode_body, login_token, oidc_token, NO_JWT, NO_OIDC_TOKEN, NO_OIDC_URL, NO_OIDC_VALUE,
    NO_ROLE, NO_ROLE_ID, NO_SECRET_ID, NO_TOKEN, READ_FORBIDDEN, UNDECODABLE, WRITE_FORBIDDEN,
};
use vault_provider::step::{Goal, Step};

/// One reply of a scripted server: a status with the text of the reply, or why
/// there is no reply.
type Reply = Result<(u16, &'static str), &'static str>;

/// A scripted outside world, and a record of what was asked of it.
struct Script {
    variables: Vec<(&'static str, &'static str)>,
    files: Vec<(&'static str, &'static str)>,
    home_file: Option<&'static str>,
    replies: Vec<Reply>,
    asked: Vec<String>,
    sent: Vec<HttpRequest>,
}

fn script(variables: Vec<(&'static str, &'static str)>, replies: Vec<Reply>) -> Script {
    Script {
        variables,
        files: vec![],
        home_file: None,
        replies,
        asked: vec![],
        sent: vec![],
    }
}

fn with_token(replies: Vec<Reply>) -> Script {
    script(vec![("VAULT_TOKEN", "s.token")], replies)
}

fn session_provider(uri: &str) -> VaultProvider {
    let url = ProviderUrl::parse(uri).unwrap();
    VaultProvider::new(VaultConfig::try_from(&url, &Environment::empty()).unwrap())
}

fn document(text: &str) -> Value {
    serde_json::from_str(text).unwrap()
}

/// Answers every step from the script, up to the one that asks for nothing.
fn drive(provider: &VaultProvider, first: Step, script: &mut Script) -> Step {
    let mut step = first;
    let mut last: &'static str = "";
    loop {
        step = match step {
            Step::ReadVariable { name, state } => {
                let value = script.variables.iter().find(|(n, _)| *n == name);
                script.asked.push(name);
                provider.on_variable(state, value.map(|(_, v)| v.to_string()))
            }
            Step::ReadFile { path, state } => {
                let contents = script.files.iter().find(|(p, _)| *p == path);
                let contents = match contents {
                    Some((_, c)) => Ok(c.to_string()),
                    None => Err("no such file".to_string()),
                };
                script.asked.push(path);
                provider.on_file(state, contents)
            }
            Step::ReadHomeFile { home, fallback, name, state } => {
                script.asked.push(format!("{}|{}/{}", home, fallback, name));
                provider.on_home_file(state, script.home_file.map(|c| c.to_string()))
            }
            Step::Send { request, state } => {
                script.sent.push(request);
                match script.replies.remove(0) {
                    Ok((status, text)) => {
                        last = text;
                        provider.on_status(state, Ok(status))
                    }
                    Err(reason) => provider.on_status(state, Err(reason.to_string())),
                }
            }
            Step::ReadBody { state } => provider.on_body(state, Ok(last.as_bytes().to_vec())),
            Step::ReadText { state } => provider.on_text(state, Some(last.to_string())),
            end => return end,
        }
    }
}

fn get(uri: &str, script: &mut Script) -> Result<Option<String>, String> {
    let provider = session_provider(uri);
    match drive(&provider, provider.get_secret("app", "KEY", "dev"), script) {
        Step::Found { secret } => Ok(secret.map(|secret| secret.expose().to_string())),
        Step::Failed { error } => Err(error.message().to_string()),
        _ => panic!("a read ended otherwise"),
    }
}

fn set(uri: &str, value: &str, script: &mut Script) -> Result<(), String> {
    let provider = session_provider(uri);
    let first = provider.set_secret("app", "KEY", Secret::new(value.to_string()), "dev");
    match drive(&provider, first, script) {
        Step::Written => Ok(()),
        Step::Failed { error } => Err(error.message().to_string()),
        _ => panic!("a write ended otherwise"),
    }
}

fn token_header(request: &HttpRequest) -> Option<&[u8]> {
    request.headers.get("X-Vault-Token").map(|value| value.as_bytes())
}

const FOUND: &str = r#"{"data": {"data": {"value": "hunter2"}}}"#;
const LOGGED_IN: &str = r#"{"auth": {"client_token": "s.login"}}"#;

#[test]
fn token_read_sends_one_request() {
    let mut world = with_token(vec![Ok((200, FOUND))]);
    let result = get("vault://ns1@vault.example.com:8200/secret", &mut world);
    assert_eq!(result, Ok(Some("hunter2".to_string())));
    assert_eq!(world.asked, vec!["VAULT_TOKEN".to_string()]);
    assert_eq!(world.sent.len(), 1);
    let request = &world.sent[0];
    assert_eq!(request.method, HttpMethod::Get);
    assert_eq!(
        request.url,
        "https://vault.example.com:8200/v1/secret/data/secretspec/app/dev/KEY"
    );
    assert_eq!(request.headers.len(), 2);
    assert_eq!(token_header(request), Some(&b"s.token"[..]));
    assert_eq!(request.headers.get("X-Vault-Namespace").unwrap().as_bytes(), b"ns1");
    assert!(request.extra_headers.is_empty());
    assert!(request.query.is_empty());
    assert_eq!(request.body, None);
}

#[test]
fn token_comes_from_the_home_directory_where_the_variable_is_empty() {
    let mut world = script(vec![("VAULT_TOKEN", "")], vec![Ok((200, FOUND))]);
    world.home_file = Some("  s.home\n");
    assert_eq!(get("vault://h", &mut world), Ok(Some("hunter2".to_string())));
    assert_eq!(
        world.asked,
        vec!["VAULT_TOKEN".to_string(), "HOME|USERPROFILE/.vault-token".to_string()]
    );
    assert_eq!(token_header(&world.sent[0]), Some(&b"s.home"[..]));
}

#[test]
fn missing_token_fails() {
    let mut world = script(vec![], vec![]);
    assert_eq!(get("vault://h", &mut world), Err(NO_TOKEN.to_string()));
    let mut blank = script(vec![], vec![]);
    blank.home_file = Some(" \n");
    assert_eq!(set("vault://h", "v", &mut blank), Err(NO_TOKEN.to_string()));
    assert_eq!(
        NO_TOKEN,
        "No Vault token found. Set the VAULT_TOKEN environment variable or create a ~/.vault-token file."
    );
}

#[test]
fn empty_names_fail_before_anything_is_asked_for() {
    let provider = session_provider("vault://h");
    let mut world = script(vec![], vec![]);
    let step = drive(&provider, provider.get_secret("", "KEY", "dev"), &mut world);
    match step {
        Step::Failed { error } => assert_eq!(error.message(), "project cannot be empty"),
        _ => panic!("the read went on"),
    }
    let value = Secret::new("v".to_string());
    let step = drive(&provider, provider.set_secret("app", "", value, "dev"), &mut world);
    match step {
        Step::Failed { error } => assert_eq!(error.message(), "key cannot be empty"),
        _ => panic!("the write went on"),
    }
    assert!(world.asked.is_empty());
}

#[test]
fn token_that_cannot_stand_in_a_header_fails() {
    let mut world = script(vec![("VAULT_TOKEN", "a\nb")], vec![]);
    assert_eq!(
        get("vault://h", &mut world),
        Err("Invalid token value: failed to parse header value".to_string())
    );
    assert!(world.sent.is_empty());
}

#[test]
fn read_reports_each_status() {
    let read = |reply: Reply| get("vault://h:8200", &mut with_token(vec![reply]));
    assert_eq!(read(Ok((404, "{}"))), Ok(None));
    assert_eq!(read(Ok((200, "{}"))), Ok(None));
    assert_eq!(read(Ok((403, "x"))), Err(READ_FORBIDDEN.to_string()));
    assert_eq!(read(Ok((500, "sealed"))), Err("Vault returned HTTP 500: sealed".to_string()));
    assert_eq!(read(Ok((204, ""))), Err("Vault returned HTTP 204: ".to_string()));
    assert_eq!(
        read(Ok((200, "not json"))),
        Err("Failed to parse Vault response: error decoding response body".to_string())
    );
    assert_eq!(
        read(Err("timed out")),
        Err("Failed to connect to Vault at https://h:8200: timed out".to_string())
    );
    assert_eq!(
        READ_FORBIDDEN,
        "Vault authentication failed (403 Forbidden). Check your VAULT_TOKEN and ensure it has the required permissions."
    );
}

#[test]
fn write_of_an_own_entry_sends_one_request() {
    let mut world = with_token(vec![Ok((204, ""))]);
    assert_eq!(set("vault://h/kv?kv=1", "v", &mut world), Ok(()));
    assert_eq!(world.sent.len(), 1);
    let request = &world.sent[0];
    assert_eq!(request.method, HttpMethod::Post);
    assert_eq!(request.url, "https://h/v1/kv/secretspec/app/dev/KEY");
    assert_eq!(request.body, Some(document(r#"{"value": "v"}"#)));
    assert_eq!(token_header(request), Some(&b"s.token"[..]));
}

#[test]
fn write_reports_each_status() {
    let write = |reply: Reply| set("vault://h", "v", &mut with_token(vec![reply]));
    assert_eq!(write(Ok((200, "{}"))), Ok(()));
    assert_eq!(write(Ok((204, ""))), Ok(()));
    assert_eq!(write(Ok((403, "x"))), Err(WRITE_FORBIDDEN.to_string()));
    assert_eq!(
        write(Ok((404, "no route"))),
        Err("Vault returned HTTP 404 while writing secret: no route".to_string())
    );
    assert_eq!(
        write(Ok((201, "odd"))),
        Err("Vault returned HTTP 201 while writing secret: odd".to_string())
    );
    assert_eq!(
        write(Err("refused")),
        Err("Failed to connect to Vault at https://h: refused".to_string())
    );
    assert_eq!(
        WRITE_FORBIDDEN,
        "Vault authentication failed (403 Forbidden). Check your VAULT_TOKEN and ensure it has write permissions."
    );
}

#[test]
fn flat_write_keeps_the_other_fields() {
    let stored = r#"{"data": {"data": {"OTHER": "kept", "KEY": "old", "N": 1}}}"#;
    let mut world = with_token(vec![Ok((200, stored)), Ok((200, "{}"))]);
    let uri = "openbao://vault.example.com:8200/kv/team/app/dev?layout=flat";
    assert_eq!(set(uri, "new", &mut world), Ok(()));
    let url = "https://vault.example.com:8200/v1/kv/data/team/app/dev";
    assert_eq!(world.sent.len(), 2);
    assert_eq!(world.sent[0].method, HttpMethod::Get);
    assert_eq!(world.sent[0].url, url);
    assert_eq!(world.sent[0].body, None);
    assert_eq!(token_header(&world.sent[0]), Some(&b"s.token"[..]));
    assert_eq!(world.sent[1].method, HttpMethod::Post);
    assert_eq!(world.sent[1].url, url);
    assert_eq!(token_header(&world.sent[1]), Some(&b"s.token"[..]));
    assert_eq!(
        world.sent[1].body,
        Some(document(r#"{"data": {"OTHER": "kept", "KEY": "new", "N": 1}}"#))
    );
}

#[test]
fn flat_write_begins_a_document_where_there_is_none() {
    let mut absent = with_token(vec![Ok((404, "{}")), Ok((200, "{}"))]);
    assert_eq!(set("vault://h?layout=flat&kv=1", "new", &mut absent), Ok(()));
    assert_eq!(absent.sent[1].body, Some(document(r#"{"KEY": "new"}"#)));
    let mut deleted = with_token(vec![Ok((200, r#"{"data": {"data": null}}"#)), Ok((200, "{}"))]);
    assert_eq!(set("vault://h?layout=flat", "new", &mut deleted), Ok(()));
    assert_eq!(deleted.sent[1].body, Some(document(r#"{"data": {"KEY": "new"}}"#)));
}

#[test]
fn flat_write_is_not_sent_where_the_read_fails() {
    let write = |reply: Reply| {
        let mut world = with_token(vec![reply]);
        let result = set("vault://h?layout=flat", "v", &mut world);
        assert_eq!(world.sent.len(), 1);
        result.unwrap_err()
    };
    assert_eq!(write(Ok((403, "x"))), READ_FORBIDDEN);
    assert_eq!(
        write(Ok((503, "sealed"))),
        "Vault returned HTTP 503 while reading existing flat secret document: sealed"
    );
    assert_eq!(
        write(Ok((200, "oops"))),
        "Failed to parse Vault response: error decoding response body"
    );
    assert_eq!(write(Err("refused")), "Failed to connect to Vault at https://h: refused");
}

#[test]
fn what_is_set_is_what_is_got() {
    let mut writing = with_token(vec![Ok((404, "")), Ok((200, "{}"))]);
    assert_eq!(set("vault://h?layout=flat&kv=1", "hunter2", &mut writing), Ok(()));
    assert_eq!(writing.sent[1].body, Some(document(r#"{"KEY": "hunter2"}"#)));
    let mut reading = with_token(vec![Ok((200, r#"{"data": {"KEY": "hunter2"}}"#))]);
    let result = get("vault://h?layout=flat&kv=1", &mut reading);
    assert_eq!(result, Ok(Some("hunter2".to_string())));
    assert_eq!(reading.sent[0].url, writing.sent[1].url);
}

#[test]
fn set_of_one_key_leaves_the_others() {
    let stored = r#"{"data": {"data": {"OTHER": "kept", "KEY": "old"}}}"#;
    let read_other = |uri: &str, reply: Reply, script: &mut Script| {
        let provider = session_provider(uri);
        script.replies = vec![reply];
        match drive(&provider, provider.get_secret("app", "OTHER", "dev"), script) {
            Step::Found { secret } => secret.map(|secret| secret.expose().to_string()),
            _ => panic!("a read ended otherwise"),
        }
    };
    let flat = "vault://h?layout=flat";
    let mut world = with_token(vec![]);
    assert_eq!(read_other(flat, Ok((200, stored)), &mut world).as_deref(), Some("kept"));
    world.replies = vec![Ok((200, stored)), Ok((200, "{}"))];
    assert_eq!(set(flat, "new", &mut world), Ok(()));
    let written = r#"{"data": {"OTHER": "kept", "KEY": "new"}}"#;
    assert_eq!(world.sent.last().unwrap().body, Some(document(written)));
    let reply = r#"{"data": {"data": {"OTHER": "kept", "KEY": "new"}}}"#;
    assert_eq!(read_other(flat, Ok((200, reply)), &mut world).as_deref(), Some("kept"));
    let mut entries = with_token(vec![Ok((200, "{}"))]);
    assert_eq!(set("vault://h", "new", &mut entries), Ok(()));
    read_other("vault://h", Ok((404, "")), &mut entries);
    assert_ne!(entries.sent[0].url, entries.sent[1].url);
}

#[test]
fn no_request_is_sent_a_second_time() {
    let mut world = actions(vec![
        Ok((200, r#"{"value": "ey.minted"}"#)),
        Ok((200, LOGGED_IN)),
        Ok((404, "")),
        Ok((200, "{}")),
    ]);
    let uri = "vault://h?auth=jwt&role=ci&jwt=github-actions&layout=flat";
    assert_eq!(set(uri, "v", &mut world), Ok(()));
    assert_eq!(world.sent.len(), 4);
    for (i, later) in world.sent.iter().enumerate() {
        for earlier in &world.sent[..i] {
            assert!(
                earlier.method != later.method
                    || earlier.url != later.url
                    || earlier.extra_headers != later.extra_headers
            );
        }
    }
}

#[test]
fn approle_logs_in_with_both_ids() {
    let mut world = script(
        vec![("VAULT_ROLE_ID", "rid"), ("VAULT_SECRET_ID", "")],
        vec![Ok((201, LOGGED_IN)), Ok((200, FOUND))],
    );
    let result = get("vault://team@h?auth=approle", &mut world);
    assert_eq!(result, Ok(Some("hunter2".to_string())));
    assert_eq!(world.asked, vec!["VAULT_ROLE_ID".to_string(), "VAULT_SECRET_ID".to_string()]);
    let login = &world.sent[0];
    assert_eq!(login.method, HttpMethod::Post);
    assert_eq!(login.url, "https://h/v1/auth/approle/login");
    assert_eq!(login.body, Some(document(r#"{"role_id": "rid", "secret_id": ""}"#)));
    assert!(login.headers.is_empty());
    assert_eq!(
        login.extra_headers,
        vec![("X-Vault-Namespace".to_string(), "team".to_string())]
    );
    assert_eq!(token_header(&world.sent[1]), Some(&b"s.login"[..]));
}

#[test]
fn approle_needs_both_ids() {
    let uri = "vault://h?auth=approle";
    assert_eq!(get(uri, &mut script(vec![], vec![])), Err(NO_ROLE_ID.to_string()));
    let mut half = script(vec![("VAULT_ROLE_ID", "rid")], vec![]);
    assert_eq!(get(uri, &mut half), Err(NO_SECRET_ID.to_string()));
    assert_eq!(
        NO_ROLE_ID,
        "VAULT_ROLE_ID environment variable is required for AppRole authentication."
    );
    assert_eq!(
        NO_SECRET_ID,
        "VAULT_SECRET_ID environment variable is required for AppRole authentication."
    );
}

#[test]
fn login_reports_what_went_wrong() {
    let login = |reply: Reply| {
        let ids = vec![("VAULT_ROLE_ID", "r"), ("VAULT_SECRET_ID", "s")];
        get("vault://h?auth=approle", &mut script(ids, vec![reply])).unwrap_err()
    };
    assert_eq!(login(Err("refused")), "AppRole login failed: refused");
    assert_eq!(
        login(Ok((400, "invalid role or secret ID"))),
        "AppRole login to https://h/v1/auth/approle/login returned HTTP 400 Bad Request: invalid role or secret ID"
    );
    assert_eq!(
        login(Ok((499, ""))),
        "AppRole login to https://h/v1/auth/approle/login returned HTTP 499 <unknown status code>: "
    );
    assert_eq!(
        login(Ok((200, "<html>"))),
        "Failed to parse AppRole login response: error decoding response body"
    );
    assert_eq!(login(Ok((200, "{}"))), "AppRole login response missing auth.client_token");
    assert_eq!(
        login(Ok((200, r#"{"auth": {"client_token": 1}}"#))),
        "AppRole login response missing auth.client_token"
    );
}

#[test]
fn jwt_login_takes_the_variable_first() {
    let mut world = script(
        vec![("VAULT_JWT", "ey.jwt"), ("VAULT_JWT_PATH", "/token")],
        vec![Ok((200, LOGGED_IN)), Ok((200, FOUND))],
    );
    let uri = "vault://h?auth=jwt&role=ci&auth_mount=github-actions";
    assert_eq!(get(uri, &mut world), Ok(Some("hunter2".to_string())));
    assert_eq!(world.asked, vec!["VAULT_JWT".to_string()]);
    assert_eq!(world.sent[0].url, "https://h/v1/auth/github-actions/login");
    assert_eq!(world.sent[0].body, Some(document(r#"{"role": "ci", "jwt": "ey.jwt"}"#)));
    assert!(world.sent[0].extra_headers.is_empty());
    assert_eq!(token_header(&world.sent[1]), Some(&b"s.login"[..]));
}

#[test]
fn jwt_login_falls_back_to_a_file() {
    let mut world = script(
        vec![("VAULT_JWT", ""), ("VAULT_JWT_PATH", "/var/run/token")],
        vec![Ok((200, LOGGED_IN)), Ok((204, ""))],
    );
    world.files = vec![("/var/run/token", "\n ey.file \n")];
    assert_eq!(set("vault://h?auth=oidc&role=ci", "v", &mut world), Ok(()));
    assert_eq!(
        world.asked,
        vec!["VAULT_JWT".to_string(), "VAULT_JWT_PATH".to_string(), "/var/run/token".to_string()]
    );
    assert_eq!(world.sent[0].body, Some(document(r#"{"role": "ci", "jwt": "ey.file"}"#)));
}

#[test]
fn missing_jwt_fails() {
    let uri = "vault://h?auth=jwt&role=ci";
    assert_eq!(get(uri, &mut script(vec![], vec![])), Err(NO_JWT.to_string()));
    let mut blank = script(vec![("VAULT_JWT_PATH", "/blank")], vec![]);
    blank.files = vec![("/blank", " \n\t")];
    assert_eq!(get(uri, &mut blank), Err(NO_JWT.to_string()));
    let mut unreadable = script(vec![("VAULT_JWT_PATH", "/gone")], vec![]);
    assert_eq!(
        get(uri, &mut unreadable),
        Err("Failed to read VAULT_JWT_PATH (/gone): no such file".to_string())
    );
    assert_eq!(
        NO_JWT,
        "No JWT found for Vault authentication. Set VAULT_JWT, or VAULT_JWT_PATH to a file containing one (a Kubernetes projected service account token, for example), or use `?jwt=github-actions` to mint one."
    );
}

#[test]
fn missing_role_fails_before_anything_is_asked_for() {
    let mut world = script(vec![("VAULT_JWT", "ey.jwt")], vec![]);
    assert_eq!(get("vault://h?auth=jwt", &mut world), Err(NO_ROLE.to_string()));
    assert!(world.asked.is_empty());
    assert_eq!(
        NO_ROLE,
        "JWT authentication needs a Vault role. Add `?role=<name>` to the provider URI or set VAULT_ROLE."
    );
}

#[test]
fn refused_jwt_login_shows_the_reply() {
    let mut world = script(
        vec![("VAULT_JWT", "ey.jwt")],
        vec![Ok((403, "claim \"sub\" does not match"))],
    );
    assert_eq!(
        get("vault://h?auth=jwt&role=ci", &mut world),
        Err(
            "JWT login to https://h/v1/auth/jwt/login returned HTTP 403 Forbidden: claim \"sub\" does not match"
                .to_string()
        )
    );
}

fn actions(replies: Vec<Reply>) -> Script {
    script(
        vec![
            ("ACTIONS_ID_TOKEN_REQUEST_URL", "https://actions/token?api-version=2"),
            ("ACTIONS_ID_TOKEN_REQUEST_TOKEN", "request-token"),
        ],
        replies,
    )
}

#[test]
fn token_is_minted_for_the_audience() {
    let mut world = actions(vec![
        Ok((200, r#"{"value": "ey.minted"}"#)),
        Ok((200, LOGGED_IN)),
        Ok((200, FOUND)),
    ]);
    let uri = "vault://ns@h?auth=jwt&role=ci&jwt=github-actions&audience=https%3A%2F%2Fgithub.com%2Fred-wiz";
    assert_eq!(get(uri, &mut world), Ok(Some("hunter2".to_string())));
    assert_eq!(
        world.asked,
        vec![
            "ACTIONS_ID_TOKEN_REQUEST_URL".to_string(),
            "ACTIONS_ID_TOKEN_REQUEST_TOKEN".to_string(),
        ]
    );
    let mint = &world.sent[0];
    assert_eq!(mint.method, HttpMethod::Get);
    assert_eq!(mint.url, "https://actions/token?api-version=2");
    assert!(mint.headers.is_empty());
    assert_eq!(
        mint.extra_headers,
        vec![("Authorization".to_string(), "bearer request-token".to_string())]
    );
    assert_eq!(
        mint.query,
        vec![("audience".to_string(), "https://github.com/red-wiz".to_string())]
    );
    assert_eq!(mint.body, None);
    assert_eq!(world.sent[1].body, Some(document(r#"{"role": "ci", "jwt": "ey.minted"}"#)));
}

#[test]
fn token_is_minted_without_an_audience() {
    let mut world = actions(vec![
        Ok((200, r#"{"value": "ey.minted"}"#)),
        Ok((200, LOGGED_IN)),
        Ok((404, "")),
    ]);
    assert_eq!(get("vault://h?auth=jwt&role=ci&jwt=github", &mut world), Ok(None));
    assert!(world.sent[0].query.is_empty());
}

#[test]
fn minting_needs_both_variables() {
    let uri = "vault://h?auth=jwt&role=ci&jwt=github-actions";
    assert_eq!(get(uri, &mut script(vec![], vec![])), Err(NO_OIDC_URL.to_string()));
    let mut half = script(vec![("ACTIONS_ID_TOKEN_REQUEST_URL", "https://actions")], vec![]);
    assert_eq!(get(uri, &mut half), Err(NO_OIDC_TOKEN.to_string()));
    assert_eq!(
        NO_OIDC_URL,
        "ACTIONS_ID_TOKEN_REQUEST_URL is not set. `?jwt=github-actions` needs a job with `permissions: id-token: write`."
    );
    assert_eq!(
        NO_OIDC_TOKEN,
        "ACTIONS_ID_TOKEN_REQUEST_TOKEN is not set. `?jwt=github-actions` needs a job with `permissions: id-token: write`."
    );
}

#[test]
fn minting_reports_what_went_wrong() {
    let mint = |reply: Reply| {
        get("vault://h?auth=jwt&role=ci&jwt=github-actions", &mut actions(vec![reply])).unwrap_err()
    };
    assert_eq!(mint(Err("refused")), "Failed to request a GitHub Actions OIDC token: refused");
    assert_eq!(
        mint(Ok((401, "expired"))),
        "GitHub Actions OIDC request returned HTTP 401 Unauthorized: expired"
    );
    assert_eq!(
        mint(Ok((200, ""))),
        "Failed to parse the GitHub Actions OIDC response: error decoding response body"
    );
    assert_eq!(mint(Ok((200, r#"{"count": 1}"#))), NO_OIDC_VALUE);
    assert_eq!(NO_OIDC_VALUE, "GitHub Actions OIDC response missing `value`");
}

#[test]
fn minting_is_not_tried_unless_the_uri_asks() {
    let mut world = actions(vec![]);
    assert_eq!(get("vault://h?auth=jwt&role=ci", &mut world), Err(NO_JWT.to_string()));
    assert_eq!(world.asked, vec!["VAULT_JWT".to_string(), "VAULT_JWT_PATH".to_string()]);
    assert!(world.sent.is_empty());
}

#[test]
fn reading_posts_nothing_but_the_login() {
    let mut world = actions(vec![
        Ok((200, r#"{"value": "ey.minted"}"#)),
        Ok((200, LOGGED_IN)),
        Ok((200, r#"{"data": {"data": {"KEY": "hunter2"}}}"#)),
    ]);
    let uri = "vault://h?auth=jwt&role=ci&jwt=github-actions&layout=flat";
    assert_eq!(get(uri, &mut world), Ok(Some("hunter2".to_string())));
    let posted: Vec<&str> = world
        .sent
        .iter()
        .filter(|request| request.method == HttpMethod::Post)
        .map(|request| request.url.as_str())
        .collect();
    assert_eq!(posted, vec!["https://h/v1/auth/jwt/login"]);
}

#[test]
fn requests_go_to_the_login_and_the_document() {
    let ids = vec![("VAULT_ROLE_ID", "r"), ("VAULT_SECRET_ID", "s")];
    let mut world =
        script(ids, vec![Ok((200, LOGGED_IN)), Ok((404, "")), Ok((200, "{}"))]);
    assert_eq!(set("vault://ns@h:8200?auth=approle&layout=flat", "v", &mut world), Ok(()));
    let urls: Vec<&str> = world.sent.iter().map(|request| request.url.as_str()).collect();
    assert_eq!(
        urls,
        vec![
            "https://h:8200/v1/auth/approle/login",
            "https://h:8200/v1/secret/data/secretspec/app/dev",
            "https://h:8200/v1/secret/data/secretspec/app/dev",
        ]
    );
    for request in &world.sent[1..] {
        assert_eq!(request.headers.get("X-Vault-Namespace").unwrap().as_bytes(), b"ns");
        assert_eq!(token_header(request), Some(&b"s.login"[..]));
    }
}

#[test]
fn unreadable_replies_are_reported() {
    let provider = session_provider("vault://h");
    let goal = || Goal::Fetch { url: "https://h/v1/x".to_string(), key: "KEY".to_string() };
    let send = || match provider.pursue(goal(), &Secret::new("t".to_string())) {
        Step::Send { state, .. } => state,
        _ => panic!("no request was made"),
    };
    let step = match provider.on_status(send(), Ok(200)) {
        Step::ReadBody { state } => provider.on_body(state, Err("connection reset".to_string())),
        _ => panic!("the body was not asked for"),
    };
    match step {
        Step::Failed { error } => {
            assert_eq!(error.message(), "Failed to parse Vault response: connection reset")
        }
        _ => panic!("the read went on"),
    }
    let step = match provider.on_status(send(), Ok(500)) {
        Step::ReadText { state } => provider.on_text(state, None),
        _ => panic!("the text was not asked for"),
    };
    match step {
        Step::Failed { error } => assert_eq!(error.message(), "Vault returned HTTP 500: "),
        _ => panic!("the read went on"),
    }
}

#[test]
fn decoded_document_can_be_handed_over() {
    let provider = session_provider("vault://h");
    let goal = Goal::Fetch { url: "https://h/v1/x".to_string(), key: "KEY".to_string() };
    let state = match provider.pursue(goal, &Secret::new("t".to_string())) {
        Step::Send { state, .. } => state,
        _ => panic!("no request was made"),
    };
    let step = match provider.on_status(state, Ok(200)) {
        Step::ReadBody { state } => provider.on_document(state, Ok(document(FOUND))),
        _ => panic!("the body was not asked for"),
    };
    match step {
        Step::Found { secret } => assert_eq!(secret.unwrap().expose(), "hunter2"),
        _ => panic!("the secret was not found"),
    }
}

#[test]
fn bodies_are_decoded() {
    assert_eq!(decode_body(Ok(b" [1] ".to_vec())), Ok(document("[1]")));
    assert_eq!(decode_body(Ok(b"[1".to_vec())), Err(UNDECODABLE.to_string()));
    assert_eq!(decode_body(Ok(vec![0xff])), Err("error decoding response body".to_string()));
    assert_eq!(decode_body(Err("reset".to_string())), Err("reset".to_string()));
}

#[test]
fn tokens_are_found_in_replies() {
    let exposed = |secret: Option<Secret>| secret.map(|secret| secret.expose().to_string());
    assert_eq!(exposed(login_token(&document(LOGGED_IN))).as_deref(), Some("s.login"));
    assert_eq!(exposed(login_token(&document("[]"))), None);
    assert_eq!(exposed(login_token(&document(r#"{"auth": null}"#))), None);
    assert_eq!(exposed(oidc_token(&document(r#"{"value": "ey"}"#))).as_deref(), Some("ey"));
    assert_eq!(exposed(oidc_token(&document(r#"{"value": {}}"#))), None);
    assert_eq!(exposed(oidc_token(&document("null"))), None);
}
