//! Reading and writing a secret: from the first step to the last.
use reqwest::header::{HeaderMap, HeaderValue};
use serde_json::Value;
use vstd::prelude::*;
use vstd::string::*;

use crate::config::{AuthMethod, ConfigView, JwtSource, VaultLayout};
use crate::error::{failure, failure_because, failure_with, SecretSpecError};
use crate::http::{
    header_values, headers_clone, headers_new, http_reason, is_success, no_headers, status_text,
    HttpMethod, HttpRequest, RequestView,
};
use crate::json::{
    fields_insert, fields_new, json_fields, json_member, json_of, json_text, json_view, no_fields,
    object_value, parse_json, text_value, value_get, value_text, JsonView,
};
use crate::provider::{
    api_headers, document_url, kv_data, login_url, opt_secret_view, stored_secret, updated_fields,
    write_body, VaultProvider,
};
use crate::secret::Secret;
use crate::step::{
    BodyState, BodyView, FileState, FileView, Goal, GoalView, HomeFileState, HomeFileView,
    LoginMethod, StatusState, StatusView, Step, StepView, TextState, TextView, VariableState,
    VariableView,
};
use crate::text::{decimal, decimal_text, kept, nonempty, opt_view, pairs_view, trim, trimmed};

verus! {

/// The message where a JWT login has no role.
pub const NO_ROLE: &'static str =
    "JWT authentication needs a Vault role. Add `?role=<name>` to the provider URI or set VAULT_ROLE.";

/// The message where there is no JWT.
pub const NO_JWT: &'static str =
    "No JWT found for Vault authentication. Set VAULT_JWT, or VAULT_JWT_PATH to a file containing one (a Kubernetes projected service account token, for example), or use `?jwt=github-actions` to mint one.";

/// The message where there is no token.
pub const NO_TOKEN: &'static str =
    "No Vault token found. Set the VAULT_TOKEN environment variable or create a ~/.vault-token file.";

/// The message where there is no role ID.
pub const NO_ROLE_ID: &'static str =
    "VAULT_ROLE_ID environment variable is required for AppRole authentication.";

/// The message where there is no secret ID.
pub const NO_SECRET_ID: &'static str =
    "VAULT_SECRET_ID environment variable is required for AppRole authentication.";

/// The message where the job has no URL to mint a token at.
pub const NO_OIDC_URL: &'static str =
    "ACTIONS_ID_TOKEN_REQUEST_URL is not set. `?jwt=github-actions` needs a job with `permissions: id-token: write`.";

/// The message where the job has no credential to mint a token with.
pub const NO_OIDC_TOKEN: &'static str =
    "ACTIONS_ID_TOKEN_REQUEST_TOKEN is not set. `?jwt=github-actions` needs a job with `permissions: id-token: write`.";

/// The message where the minting endpoint answers without a token.
pub const NO_OIDC_VALUE: &'static str = "GitHub Actions OIDC response missing `value`";

/// The message where the server refuses a read.
pub const READ_FORBIDDEN: &'static str =
    "Vault authentication failed (403 Forbidden). Check your VAULT_TOKEN and ensure it has the required permissions.";

/// The message where the server refuses a write.
pub const WRITE_FORBIDDEN: &'static str =
    "Vault authentication failed (403 Forbidden). Check your VAULT_TOKEN and ensure it has write permissions.";

/// How the HTTP client words that a body is not the JSON document it should be.
pub const UNDECODABLE: &'static str = "error decoding response body";

/// The document in a body that has been read, or the reason why there is none.
pub open spec fn decoded(body: Result<Seq<u8>, Seq<char>>) -> Result<JsonView, Seq<char>> {
    match body {
        Ok(bytes) => match json_of(bytes) {
            Some(document) => Ok(document),
            None => Err(UNDECODABLE@),
        },
        Err(reason) => Err(reason),
    }
}

/// The view of a body that has been read, or of the reason why not.
pub open spec fn body_view(body: Result<Vec<u8>, String>) -> Result<Seq<u8>, Seq<char>> {
    match body {
        Ok(bytes) => Ok(bytes@),
        Err(reason) => Err(reason@),
    }
}

/// The view of a document, or of the reason why there is none.
pub open spec fn document_view(document: Result<Value, String>) -> Result<JsonView, Seq<char>> {
    match document {
        Ok(document) => Ok(json_view(document)),
        Err(reason) => Err(reason@),
    }
}

/// The view of the contents of a file, or of the reason why there are none.
pub open spec fn contents_view(contents: Result<String, String>) -> Result<Seq<char>, Seq<char>> {
    match contents {
        Ok(contents) => Ok(contents@),
        Err(reason) => Err(reason@),
    }
}

/// The view of the status of a reply, or of the reason why there is none.
pub open spec fn reply_view(reply: Result<u16, String>) -> Result<u16, Seq<char>> {
    match reply {
        Ok(status) => Ok(status),
        Err(reason) => Err(reason@),
    }
}

/// How a login method is called in messages.
pub open spec fn method_name(method: LoginMethod) -> Seq<char> {
    match method {
        LoginMethod::AppRole => "AppRole"@,
        LoginMethod::Jwt => "JWT"@,
    }
}

/// Where the backend of a login method is mounted by default.
pub open spec fn method_mount(method: LoginMethod) -> Seq<char> {
    match method {
        LoginMethod::AppRole => "approle"@,
        LoginMethod::Jwt => "jwt"@,
    }
}

/// A status as messages about logins show it: the number and the reason phrase.
pub open spec fn full_status(status: u16) -> Seq<char> {
    decimal(status as nat) + " "@ + http_reason(status as int)
}

/// A step that ends in failure.
pub open spec fn failed(message: Seq<char>) -> StepView {
    StepView::Failed { message }
}

/// A JSON object with two texts.
pub open spec fn two_texts(
    first: Seq<char>,
    first_text: Seq<char>,
    second: Seq<char>,
    second_text: Seq<char>,
) -> JsonView {
    JsonView::Object(
        no_fields().insert(first, JsonView::Text(first_text)).insert(
            second,
            JsonView::Text(second_text),
        ),
    )
}

/// The request of a login: the credentials are posted to the login URL, with the
/// namespace where there is one.
pub open spec fn login_request(
    config: ConfigView,
    method: LoginMethod,
    credentials: JsonView,
) -> RequestView {
    RequestView {
        method: HttpMethod::Post,
        url: login_url(config, method_mount(method)),
        headers: no_headers(),
        extra_headers: match config.namespace {
            Some(namespace) => seq![("X-Vault-Namespace"@, namespace)],
            None => seq![],
        },
        query: seq![],
        body: Some(credentials),
    }
}

/// Logging in.
pub open spec fn login_step(
    config: ConfigView,
    goal: GoalView,
    method: LoginMethod,
    credentials: JsonView,
) -> StepView {
    StepView::Send {
        request: login_request(config, method, credentials),
        state: StatusView::Login { goal, method, url: login_url(config, method_mount(method)) },
    }
}

/// Logging in with a JWT.
pub open spec fn jwt_login_step(
    config: ConfigView,
    goal: GoalView,
    role: Seq<char>,
    jwt: Seq<char>,
) -> StepView {
    login_step(config, goal, LoginMethod::Jwt, two_texts("role"@, role, "jwt"@, jwt))
}

/// The request that mints a workload-identity token, for the audience where there
/// is one.
pub open spec fn oidc_request(
    config: ConfigView,
    url: Seq<char>,
    token: Seq<char>,
) -> RequestView {
    RequestView {
        method: HttpMethod::Get,
        url,
        headers: no_headers(),
        extra_headers: seq![("Authorization"@, "bearer "@ + token)],
        query: match config.audience {
            Some(audience) => seq![("audience"@, audience)],
            None => seq![],
        },
        body: None,
    }
}

/// Minting a workload-identity token.
pub open spec fn oidc_step(
    config: ConfigView,
    goal: GoalView,
    role: Seq<char>,
    url: Seq<char>,
    token: Seq<char>,
) -> StepView {
    StepView::Send {
        request: oidc_request(config, url, token),
        state: StatusView::Oidc { goal, role },
    }
}

/// Obtaining a JWT from the configured source. Without a role this fails before
/// anything is asked for.
pub open spec fn jwt_step(config: ConfigView, goal: GoalView) -> StepView {
    match (config.role, config.jwt_source) {
        (None, _) => failed(NO_ROLE@),
        (Some(role), JwtSource::Environment) => StepView::ReadVariable {
            name: "VAULT_JWT"@,
            state: VariableView::Jwt { goal, role },
        },
        (Some(role), JwtSource::GithubActions) => StepView::ReadVariable {
            name: "ACTIONS_ID_TOKEN_REQUEST_URL"@,
            state: VariableView::OidcUrl { goal, role },
        },
    }
}

/// Resolving a token, with the configured method.
pub open spec fn token_step(config: ConfigView, goal: GoalView) -> StepView {
    match config.auth {
        AuthMethod::Token => StepView::ReadVariable {
            name: "VAULT_TOKEN"@,
            state: VariableView::Token { goal },
        },
        AuthMethod::AppRole => StepView::ReadVariable {
            name: "VAULT_ROLE_ID"@,
            state: VariableView::RoleId { goal },
        },
        AuthMethod::Jwt => jwt_step(config, goal),
    }
}

/// Reading a document.
pub open spec fn read_request(
    url: Seq<char>,
    headers: Map<Seq<char>, Seq<Seq<u8>>>,
) -> RequestView {
    RequestView {
        method: HttpMethod::Get,
        url,
        headers,
        extra_headers: seq![],
        query: seq![],
        body: None,
    }
}

/// Writing `value` under `key`, where `fields` are those that a flat document
/// has so far.
pub open spec fn write_step(
    config: ConfigView,
    url: Seq<char>,
    key: Seq<char>,
    value: Seq<char>,
    headers: Map<Seq<char>, Seq<Seq<u8>>>,
    fields: Map<Seq<char>, JsonView>,
) -> StepView {
    StepView::Send {
        request: RequestView {
            method: HttpMethod::Post,
            url,
            headers,
            extra_headers: seq![],
            query: seq![],
            body: Some(
                write_body(
                    config.kv_version,
                    updated_fields(config.layout, fields, key, value),
                ),
            ),
        },
        state: StatusView::Write,
    }
}

/// Pursuing the goal once there is a token. A flat document is read before it
/// is written.
pub open spec fn goal_step(config: ConfigView, goal: GoalView, token: Seq<char>) -> StepView {
    match (api_headers(token, config.namespace), goal, config.layout) {
        (Err(message), _, _) => failed(message),
        (Ok(headers), GoalView::Fetch { url, key }, _) => StepView::Send {
            request: read_request(url, headers),
            state: StatusView::Fetch { key },
        },
        (Ok(headers), GoalView::Store { url, key, value }, VaultLayout::SecretSpec) => write_step(
            config,
            url,
            key,
            value,
            headers,
            no_fields(),
        ),
        (Ok(headers), GoalView::Store { url, key, value }, VaultLayout::Flat) => StepView::Send {
            request: read_request(url, headers),
            state: StatusView::Read { url, key, value, headers },
        },
    }
}

/// The first step of reading a secret.
pub open spec fn get_step(
    config: ConfigView,
    project: Seq<char>,
    key: Seq<char>,
    profile: Seq<char>,
) -> StepView {
    match document_url(config, project, profile, key) {
        Ok(url) => token_step(config, GoalView::Fetch { url, key }),
        Err(message) => failed(message),
    }
}

/// The first step of writing a secret.
pub open spec fn set_step(
    config: ConfigView,
    project: Seq<char>,
    key: Seq<char>,
    value: Seq<char>,
    profile: Seq<char>,
) -> StepView {
    match document_url(config, project, profile, key) {
        Ok(url) => token_step(config, GoalView::Store { url, key, value }),
        Err(message) => failed(message),
    }
}

/// The step after an environment variable has been read. But for the two parts
/// of an AppRole credential, an empty variable counts as absent.
pub open spec fn variable_step(
    config: ConfigView,
    state: VariableView,
    value: Option<Seq<char>>,
) -> StepView {
    match state {
        VariableView::Token { goal } => match nonempty(value) {
            Some(token) => goal_step(config, goal, token),
            None => StepView::ReadHomeFile {
                home: "HOME"@,
                fallback: "USERPROFILE"@,
                name: ".vault-token"@,
                state: HomeFileView { goal },
            },
        },
        VariableView::RoleId { goal } => match value {
            Some(role_id) => StepView::ReadVariable {
                name: "VAULT_SECRET_ID"@,
                state: VariableView::SecretId { goal, role_id },
            },
            None => failed(NO_ROLE_ID@),
        },
        VariableView::SecretId { goal, role_id } => match value {
            Some(secret_id) => login_step(
                config,
                goal,
                LoginMethod::AppRole,
                two_texts("role_id"@, role_id, "secret_id"@, secret_id),
            ),
            None => failed(NO_SECRET_ID@),
        },
        VariableView::Jwt { goal, role } => match nonempty(value) {
            Some(jwt) => jwt_login_step(config, goal, role, jwt),
            None => StepView::ReadVariable {
                name: "VAULT_JWT_PATH"@,
                state: VariableView::JwtPath { goal, role },
            },
        },
        VariableView::JwtPath { goal, role } => match nonempty(value) {
            Some(path) => StepView::ReadFile { path, state: FileView { goal, role, path } },
            None => failed(NO_JWT@),
        },
        VariableView::OidcUrl { goal, role } => match nonempty(value) {
            Some(url) => StepView::ReadVariable {
                name: "ACTIONS_ID_TOKEN_REQUEST_TOKEN"@,
                state: VariableView::OidcToken { goal, role, url },
            },
            None => failed(NO_OIDC_URL@),
        },
        VariableView::OidcToken { goal, role, url } => match nonempty(value) {
            Some(token) => oidc_step(config, goal, role, url, token),
            None => failed(NO_OIDC_TOKEN@),
        },
    }
}

/// The step after the file with the JWT has been read: white space around the
/// JWT does not count.
pub open spec fn file_step(
    config: ConfigView,
    state: FileView,
    contents: Result<Seq<char>, Seq<char>>,
) -> StepView {
    match contents {
        Ok(contents) => if trimmed(contents).len() > 0 {
            jwt_login_step(config, state.goal, state.role, trimmed(contents))
        } else {
            failed(NO_JWT@)
        },
        Err(reason) => failed("Failed to read VAULT_JWT_PATH ("@ + state.path + "): "@ + reason),
    }
}

/// The step after the token file in the home directory has been read: white
/// space around the token does not count.
pub open spec fn home_file_step(
    config: ConfigView,
    state: HomeFileView,
    contents: Option<Seq<char>>,
) -> StepView {
    match contents {
        Some(contents) if trimmed(contents).len() > 0 => goal_step(
            config,
            state.goal,
            trimmed(contents),
        ),
        _ => failed(NO_TOKEN@),
    }
}

/// The step after a request has been sent.
pub open spec fn status_step(
    config: ConfigView,
    state: StatusView,
    reply: Result<u16, Seq<char>>,
) -> StepView {
    match (state, reply) {
        (StatusView::Oidc { .. }, Err(reason)) => failed(
            "Failed to request a GitHub Actions OIDC token: "@ + reason,
        ),
        (StatusView::Oidc { goal, role }, Ok(status)) => if is_success(status) {
            StepView::ReadBody { state: BodyView::Oidc { goal, role } }
        } else {
            StepView::ReadText { state: TextView::Oidc { status: full_status(status) } }
        },
        (StatusView::Login { method, .. }, Err(reason)) => failed(
            method_name(method) + " login failed: "@ + reason,
        ),
        (StatusView::Login { goal, method, url }, Ok(status)) => if is_success(status) {
            StepView::ReadBody { state: BodyView::Login { goal, method } }
        } else {
            StepView::ReadText {
                state: TextView::Login { method, url, status: full_status(status) },
            }
        },
        (_, Err(reason)) => failed(
            "Failed to connect to Vault at "@ + config.endpoint + ": "@ + reason,
        ),
        (StatusView::Fetch { key }, Ok(status)) => if status == 200 {
            StepView::ReadBody { state: BodyView::Fetch { key } }
        } else if status == 404 {
            StepView::Found { secret: None }
        } else if status == 403 {
            failed(READ_FORBIDDEN@)
        } else {
            StepView::ReadText { state: TextView::Fetch { status } }
        },
        (StatusView::Read { url, key, value, headers }, Ok(status)) => if status == 200 {
            StepView::ReadBody { state: BodyView::Read { url, key, value, headers } }
        } else if status == 404 {
            write_step(config, url, key, value, headers, no_fields())
        } else if status == 403 {
            failed(READ_FORBIDDEN@)
        } else {
            StepView::ReadText { state: TextView::Read { status } }
        },
        (StatusView::Write, Ok(status)) => if status == 200 || status == 204 {
            StepView::Written
        } else if status == 403 {
            failed(WRITE_FORBIDDEN@)
        } else {
            StepView::ReadText { state: TextView::Write { status } }
        },
    }
}

/// The token in the reply to a login: the text at `auth.client_token`.
pub open spec fn client_token(reply: JsonView) -> Option<Seq<char>> {
    match json_member(reply, "auth"@) {
        Some(auth) => match json_member(auth, "client_token"@) {
            Some(token) => json_text(token),
            None => None,
        },
        None => None,
    }
}

/// The token in the reply of the minting endpoint: the text at `value`.
pub open spec fn oidc_value(reply: JsonView) -> Option<Seq<char>> {
    match json_member(reply, "value"@) {
        Some(value) => json_text(value),
        None => None,
    }
}

/// The step after the document in a reply that reported success has been
/// decoded.
pub open spec fn document_step(
    config: ConfigView,
    state: BodyView,
    document: Result<JsonView, Seq<char>>,
) -> StepView {
    match (state, document) {
        (BodyView::Oidc { .. }, Err(reason)) => failed(
            "Failed to parse the GitHub Actions OIDC response: "@ + reason,
        ),
        (BodyView::Oidc { goal, role }, Ok(reply)) => match oidc_value(reply) {
            Some(jwt) => jwt_login_step(config, goal, role, jwt),
            None => failed(NO_OIDC_VALUE@),
        },
        (BodyView::Login { method, .. }, Err(reason)) => failed(
            "Failed to parse "@ + method_name(method) + " login response: "@ + reason,
        ),
        (BodyView::Login { goal, method }, Ok(reply)) => match client_token(reply) {
            Some(token) => goal_step(config, goal, token),
            None => failed(method_name(method) + " login response missing auth.client_token"@),
        },
        (_, Err(reason)) => failed("Failed to parse Vault response: "@ + reason),
        (BodyView::Fetch { key }, Ok(reply)) => StepView::Found {
            secret: stored_secret(config, key, reply),
        },
        (BodyView::Read { url, key, value, headers }, Ok(reply)) => write_step(
            config,
            url,
            key,
            value,
            headers,
            match kv_data(config.kv_version, reply) {
                Some(fields) => fields,
                None => no_fields(),
            },
        ),
    }
}

/// The message after the text of a reply that reported a failure has been read.
pub open spec fn refusal(state: TextView, text: Seq<char>) -> Seq<char> {
    match state {
        TextView::Oidc { status } => "GitHub Actions OIDC request returned HTTP "@ + status + ": "@
            + text,
        TextView::Login { method, url, status } => method_name(method) + " login to "@ + url
            + " returned HTTP "@ + status + ": "@ + text,
        TextView::Fetch { status } => "Vault returned HTTP "@ + decimal(status as nat) + ": "@
            + text,
        TextView::Read { status } => "Vault returned HTTP "@ + decimal(status as nat)
            + " while reading existing flat secret document: "@ + text,
        TextView::Write { status } => "Vault returned HTTP "@ + decimal(status as nat)
            + " while writing secret: "@ + text,
    }
}

/// The step after the text of a reply that reported a failure has been read.
/// A text that could not be read counts as empty.
pub open spec fn text_step(state: TextView, text: Option<Seq<char>>) -> StepView {
    failed(
        refusal(
            state,
            match text {
                Some(text) => text,
                None => seq![],
            },
        ),
    )
}

fn login_name(method: LoginMethod) -> (name: &'static str)
    ensures
        name@ == method_name(method),
{
    match method {
        LoginMethod::AppRole => "AppRole",
        LoginMethod::Jwt => "JWT",
    }
}

fn login_mount(method: LoginMethod) -> (mount: &'static str)
    ensures
        mount@ == method_mount(method),
{
    match method {
        LoginMethod::AppRole => "approle",
        LoginMethod::Jwt => "jwt",
    }
}

fn succeeds(status: u16) -> (success: bool)
    ensures
        success == is_success(status),
{
    200 <= status && status < 300
}

fn fail(error: SecretSpecError) -> (step: Step)
    ensures
        step@ == failed(error@),
{
    Step::Failed { error }
}

fn read_variable(name: &str, state: VariableState) -> (step: Step)
    ensures
        step@ == (StepView::ReadVariable { name: name@, state: state@ }),
{
    Step::ReadVariable { name: name.to_owned(), state }
}

fn one_pair(first: &str, second: &str) -> (pairs: Vec<(String, String)>)
    ensures
        pairs_view(pairs@) == seq![(first@, second@)],
{
    let mut pairs: Vec<(String, String)> = Vec::new();
    pairs.push((first.to_owned(), second.to_owned()));
    assert(pairs_view(pairs@) =~= seq![(first@, second@)]);
    pairs
}

fn no_pairs() -> (pairs: Vec<(String, String)>)
    ensures
        pairs_view(pairs@) == Seq::<(Seq<char>, Seq<char>)>::empty(),
{
    let pairs: Vec<(String, String)> = Vec::new();
    assert(pairs_view(pairs@) =~= Seq::<(Seq<char>, Seq<char>)>::empty());
    pairs
}

fn credentials(first: &str, first_text: &str, second: &str, second_text: &str) -> (document: Value)
    ensures
        json_view(document) == two_texts(first@, first_text@, second@, second_text@),
{
    let mut fields = fields_new();
    fields_insert(&mut fields, first.to_owned(), text_value(first_text));
    fields_insert(&mut fields, second.to_owned(), text_value(second_text));
    object_value(fields)
}

fn document_request(url: String, headers: HeaderMap<HeaderValue>) -> (request: HttpRequest)
    ensures
        request@ == read_request(url@, header_values(headers)),
{
    HttpRequest {
        method: HttpMethod::Get,
        url,
        headers,
        extra_headers: no_pairs(),
        query: no_pairs(),
        body: None,
    }
}

/// Decodes a body as a JSON document.
pub fn decode_body(body: Result<Vec<u8>, String>) -> (document: Result<Value, String>)
    ensures
        document_view(document) == decoded(body_view(body)),
{
    match body {
        Ok(bytes) => match parse_json(bytes.as_slice()) {
            Some(document) => Ok(document),
            None => Err(UNDECODABLE.to_owned()),
        },
        Err(reason) => Err(reason),
    }
}

/// The token in the reply to a login.
pub fn login_token(reply: &Value) -> (token: Option<Secret>)
    ensures
        opt_secret_view(token) == client_token(json_view(*reply)),
{
    match value_get(reply, "auth") {
        Some(auth) => match value_get(auth, "client_token") {
            Some(token) => match value_text(token) {
                Some(text) => Some(Secret::new(text.to_owned())),
                None => None,
            },
            None => None,
        },
        None => None,
    }
}

/// The token in the reply of the minting endpoint.
pub fn oidc_token(reply: &Value) -> (token: Option<Secret>)
    ensures
        opt_secret_view(token) == oidc_value(json_view(*reply)),
{
    match value_get(reply, "value") {
        Some(value) => match value_text(value) {
            Some(text) => Some(Secret::new(text.to_owned())),
            None => None,
        },
        None => None,
    }
}

impl VaultProvider {
    /// Begins to read a secret.
    pub fn get_secret(&self, project: &str, key: &str, profile: &str) -> (step: Step)
        ensures
            step@ == get_step(self@, project@, key@, profile@),
    {
        match self.secret_url(project, profile, key) {
            Ok(url) => self.resolve_token(Goal::Fetch { url, key: key.to_owned() }),
            Err(error) => fail(error),
        }
    }

    /// Begins to write a secret.
    pub fn set_secret(&self, project: &str, key: &str, value: Secret, profile: &str) -> (step: Step)
        ensures
            step@ == set_step(self@, project@, key@, value@, profile@),
    {
        match self.secret_url(project, profile, key) {
            Ok(url) => self.resolve_token(Goal::Store { url, key: key.to_owned(), value }),
            Err(error) => fail(error),
        }
    }

    /// Resolves the Vault token using the configured authentication method.
    pub fn resolve_token(&self, goal: Goal) -> (step: Step)
        ensures
            step@ == token_step(self@, goal@),
    {
        match self.config().auth {
            AuthMethod::Token => read_variable("VAULT_TOKEN", VariableState::Token { goal }),
            AuthMethod::AppRole => read_variable("VAULT_ROLE_ID", VariableState::RoleId { goal }),
            AuthMethod::Jwt => self.resolve_jwt_auth(goal),
        }
    }

    /// Authenticates via JWT/OIDC.
    pub fn resolve_jwt_auth(&self, goal: Goal) -> (step: Step)
        ensures
            step@ == jwt_step(self@, goal@),
    {
        let role = match &self.config().role {
            Some(role) => role.clone(),
            None => {
                return fail(failure(NO_ROLE));
            },
        };
        match self.config().jwt_source {
            JwtSource::Environment => read_variable("VAULT_JWT", VariableState::Jwt { goal, role }),
            JwtSource::GithubActions => read_variable(
                "ACTIONS_ID_TOKEN_REQUEST_URL",
                VariableState::OidcUrl { goal, role },
            ),
        }
    }

    /// Posts a login payload.
    fn login(&self, goal: Goal, method: LoginMethod, body: Value) -> (step: Step)
        ensures
            step@ == login_step(self@, goal@, method, json_view(body)),
    {
        let url = self.auth_login_url(login_mount(method));
        let extra_headers = match &self.config().namespace {
            Some(namespace) => one_pair("X-Vault-Namespace", namespace.as_str()),
            None => no_pairs(),
        };
        let request = HttpRequest {
            method: HttpMethod::Post,
            url: url.clone(),
            headers: headers_new(),
            extra_headers,
            query: no_pairs(),
            body: Some(body),
        };
        Step::Send { request, state: StatusState::Login { goal, method, url } }
    }

    /// Logs in with a JWT.
    fn jwt_login(&self, goal: Goal, role: &str, jwt: &Secret) -> (step: Step)
        ensures
            step@ == jwt_login_step(self@, goal@, role@, jwt@),
    {
        self.login(goal, LoginMethod::Jwt, credentials("role", role, "jwt", jwt.expose()))
    }

    /// Mints a workload-identity token from the GitHub Actions OIDC endpoint.
    fn mint_token(&self, goal: Goal, role: String, url: String, token: &str) -> (step: Step)
        ensures
            step@ == oidc_step(self@, goal@, role@, url@, token@),
    {
        let bearer = "bearer ".to_owned().concat(token);
        let query = match &self.config().audience {
            Some(audience) => one_pair("audience", audience.as_str()),
            None => no_pairs(),
        };
        let request = HttpRequest {
            method: HttpMethod::Get,
            url,
            headers: headers_new(),
            extra_headers: one_pair("Authorization", bearer.as_str()),
            query,
            body: None,
        };
        Step::Send { request, state: StatusState::Oidc { goal, role } }
    }

    /// Writes `value` under `key`, where `fields` are those that a flat document
    /// has so far.
    fn write_secret(
        &self,
        url: String,
        key: &str,
        value: &Secret,
        headers: HeaderMap<HeaderValue>,
        fields: serde_json::Map<String, Value>,
    ) -> (step: Step)
        ensures
            step@ == write_step(
                self@,
                url@,
                key@,
                value@,
                header_values(headers),
                json_fields(fields),
            ),
    {
        let document = self.secret_document(fields, key, value);
        let request = HttpRequest {
            method: HttpMethod::Post,
            url,
            headers,
            extra_headers: no_pairs(),
            query: no_pairs(),
            body: Some(document),
        };
        Step::Send { request, state: StatusState::Write }
    }

    /// Pursues the goal once there is a token.
    pub fn pursue(&self, goal: Goal, token: &Secret) -> (step: Step)
        ensures
            step@ == goal_step(self@, goal@, token@),
    {
        let headers = match Self::build_headers(token, &self.config().namespace) {
            Ok(headers) => headers,
            Err(error) => {
                return fail(error);
            },
        };
        match goal {
            Goal::Fetch { url, key } => Step::Send {
                request: document_request(url, headers),
                state: StatusState::Fetch { key },
            },
            Goal::Store { url, key, value } => match self.config().layout {
                VaultLayout::SecretSpec => self.write_secret(
                    url,
                    key.as_str(),
                    &value,
                    headers,
                    fields_new(),
                ),
                VaultLayout::Flat => {
                    let copy = headers_clone(&headers);
                    Step::Send {
                        request: document_request(url.clone(), copy),
                        state: StatusState::Read { url, key, value, headers },
                    }
                },
            },
        }
    }

    /// Goes on after an environment variable has been read.
    pub fn on_variable(&self, state: VariableState, value: Option<String>) -> (step: Step)
        ensures
            step@ == variable_step(self@, state@, opt_view(value)),
    {
        match state {
            VariableState::Token { goal } => match kept(value) {
                Some(token) => self.pursue(goal, &Secret::new(token)),
                None => Step::ReadHomeFile {
                    home: "HOME".to_owned(),
                    fallback: "USERPROFILE".to_owned(),
                    name: ".vault-token".to_owned(),
                    state: HomeFileState { goal },
                },
            },
            VariableState::RoleId { goal } => match value {
                Some(role_id) => read_variable(
                    "VAULT_SECRET_ID",
                    VariableState::SecretId { goal, role_id },
                ),
                None => fail(failure(NO_ROLE_ID)),
            },
            VariableState::SecretId { goal, role_id } => match value {
                Some(secret_id) => self.login(
                    goal,
                    LoginMethod::AppRole,
                    credentials("role_id", role_id.as_str(), "secret_id", secret_id.as_str()),
                ),
                None => fail(failure(NO_SECRET_ID)),
            },
            VariableState::Jwt { goal, role } => match kept(value) {
                Some(jwt) => self.jwt_login(goal, role.as_str(), &Secret::new(jwt)),
                None => read_variable("VAULT_JWT_PATH", VariableState::JwtPath { goal, role }),
            },
            VariableState::JwtPath { goal, role } => match kept(value) {
                Some(path) => Step::ReadFile {
                    path: path.clone(),
                    state: FileState { goal, role, path },
                },
                None => fail(failure(NO_JWT)),
            },
            VariableState::OidcUrl { goal, role } => match kept(value) {
                Some(url) => read_variable(
                    "ACTIONS_ID_TOKEN_REQUEST_TOKEN",
                    VariableState::OidcToken { goal, role, url },
                ),
                None => fail(failure(NO_OIDC_URL)),
            },
            VariableState::OidcToken { goal, role, url } => match kept(value) {
                Some(token) => self.mint_token(goal, role, url, token.as_str()),
                None => fail(failure(NO_OIDC_TOKEN)),
            },
        }
    }

    /// Goes on after the file with the JWT has been read, or could not be.
    pub fn on_file(&self, state: FileState, contents: Result<String, String>) -> (step: Step)
        ensures
            step@ == file_step(self@, state@, contents_view(contents)),
    {
        match contents {
            Ok(contents) => {
                let jwt = trim(contents.as_str());
                if !jwt.as_str().is_empty() {
                    self.jwt_login(state.goal, state.role.as_str(), &Secret::new(jwt))
                } else {
                    fail(failure(NO_JWT))
                }
            },
            Err(reason) => {
                let mut message = "Failed to read VAULT_JWT_PATH (".to_owned();
                message.append(state.path.as_str());
                message.append("): ");
                message.append(reason.as_str());
                fail(failure(message.as_str()))
            },
        }
    }

    /// Goes on after the token file in the home directory has been read, or
    /// could not be.
    pub fn on_home_file(&self, state: HomeFileState, contents: Option<String>) -> (step: Step)
        ensures
            step@ == home_file_step(self@, state@, opt_view(contents)),
    {
        if let Some(contents) = contents {
            let token = trim(contents.as_str());
            if !token.as_str().is_empty() {
                return self.pursue(state.goal, &Secret::new(token));
            }
        }
        fail(failure(NO_TOKEN))
    }

    /// Goes on after a request has been sent: with the status of the reply, or
    /// the reason why there is none.
    pub fn on_status(&self, state: StatusState, reply: Result<u16, String>) -> (step: Step)
        requires
            reply matches Ok(status) ==> 100 <= status <= 999,
        ensures
            step@ == status_step(self@, state@, reply_view(reply)),
    {
        match reply {
            Ok(status) => self.on_reply(state, status),
            Err(reason) => match state {
                StatusState::Oidc { .. } => fail(
                    failure_because(
                        "Failed to request a GitHub Actions OIDC token: ",
                        reason.as_str(),
                    ),
                ),
                StatusState::Login { method, .. } => fail(
                    failure_with(login_name(method), " login failed: ", reason.as_str()),
                ),
                _ => {
                    let mut message = "Failed to connect to Vault at ".to_owned();
                    message.append(self.config().endpoint.as_str());
                    message.append(": ");
                    message.append(reason.as_str());
                    fail(failure(message.as_str()))
                },
            },
        }
    }

    /// Goes on after a request has been answered.
    fn on_reply(&self, state: StatusState, status: u16) -> (step: Step)
        requires
            100 <= status <= 999,
        ensures
            step@ == status_step(self@, state@, Ok(status)),
    {
        match state {
            StatusState::Oidc { goal, role } => if succeeds(status) {
                Step::ReadBody { state: BodyState::Oidc { goal, role } }
            } else {
                Step::ReadText { state: TextState::Oidc { status: status_text(status) } }
            },
            StatusState::Login { goal, method, url } => if succeeds(status) {
                Step::ReadBody { state: BodyState::Login { goal, method } }
            } else {
                Step::ReadText {
                    state: TextState::Login { method, url, status: status_text(status) },
                }
            },
            StatusState::Fetch { key } => match status {
                200 => Step::ReadBody { state: BodyState::Fetch { key } },
                404 => Step::Found { secret: None },
                403 => fail(failure(READ_FORBIDDEN)),
                _ => Step::ReadText { state: TextState::Fetch { status } },
            },
            StatusState::Read { url, key, value, headers } => match status {
                200 => Step::ReadBody { state: BodyState::Read { url, key, value, headers } },
                404 => self.write_secret(url, key.as_str(), &value, headers, fields_new()),
                403 => fail(failure(READ_FORBIDDEN)),
                _ => Step::ReadText { state: TextState::Read { status } },
            },
            StatusState::Write => match status {
                200 | 204 => Step::Written,
                403 => fail(failure(WRITE_FORBIDDEN)),
                _ => Step::ReadText { state: TextState::Write { status } },
            },
        }
    }

    /// Goes on after the body of a reply that reported success has been read,
    /// or could not be.
    pub fn on_body(&self, state: BodyState, body: Result<Vec<u8>, String>) -> (step: Step)
        ensures
            step@ == document_step(self@, state@, decoded(body_view(body))),
    {
        self.on_document(state, decode_body(body))
    }

    /// Goes on after the document in a reply that reported success has been
    /// decoded, or could not be.
    pub fn on_document(&self, state: BodyState, document: Result<Value, String>) -> (step: Step)
        ensures
            step@ == document_step(self@, state@, document_view(document)),
    {
        match state {
            BodyState::Oidc { goal, role } => match document {
                Ok(reply) => match oidc_token(&reply) {
                    Some(jwt) => self.jwt_login(goal, role.as_str(), &jwt),
                    None => fail(failure(NO_OIDC_VALUE)),
                },
                Err(reason) => fail(
                    failure_because(
                        "Failed to parse the GitHub Actions OIDC response: ",
                        reason.as_str(),
                    ),
                ),
            },
            BodyState::Login { goal, method } => match document {
                Ok(reply) => match login_token(&reply) {
                    Some(token) => self.pursue(goal, &token),
                    None => fail(
                        failure_because(
                            login_name(method),
                            " login response missing auth.client_token",
                        ),
                    ),
                },
                Err(reason) => {
                    let mut message = "Failed to parse ".to_owned();
                    message.append(login_name(method));
                    message.append(" login response: ");
                    message.append(reason.as_str());
                    fail(failure(message.as_str()))
                },
            },
            BodyState::Fetch { key } => match document {
                Ok(reply) => Step::Found { secret: self.read_secret(key.as_str(), &reply) },
                Err(reason) => fail(
                    failure_because("Failed to parse Vault response: ", reason.as_str()),
                ),
            },
            BodyState::Read { url, key, value, headers } => match document {
                Ok(reply) => self.write_secret(
                    url,
                    key.as_str(),
                    &value,
                    headers,
                    self.stored_fields(&reply),
                ),
                Err(reason) => fail(
                    failure_because("Failed to parse Vault response: ", reason.as_str()),
                ),
            },
        }
    }

    /// Goes on after the text of a reply that reported a failure has been read,
    /// or could not be.
    pub fn on_text(&self, state: TextState, text: Option<String>) -> (step: Step)
        ensures
            step@ == text_step(state@, opt_view(text)),
    {
        let text = match text {
            Some(text) => text,
            None => String::new(),
        };
        let mut message = String::new();
        match state {
            TextState::Oidc { status } => {
                message.append("GitHub Actions OIDC request returned HTTP ");
                message.append(status.as_str());
                message.append(": ");
            },
            TextState::Login { method, url, status } => {
                message.append(login_name(method));
                message.append(" login to ");
                message.append(url.as_str());
                message.append(" returned HTTP ");
                message.append(status.as_str());
                message.append(": ");
            },
            TextState::Fetch { status } => {
                message.append("Vault returned HTTP ");
                message.append(decimal_text(status).as_str());
                message.append(": ");
            },
            TextState::Read { status } => {
                message.append("Vault returned HTTP ");
                message.append(decimal_text(status).as_str());
                message.append(" while reading existing flat secret document: ");
            },
            TextState::Write { status } => {
                message.append("Vault returned HTTP ");
                message.append(decimal_text(status).as_str());
                message.append(" while writing secret: ");
            },
        }
        message.append(text.as_str());
        assert(message@ =~= refusal(state@, text@));
        fail(failure(message.as_str()))
    }
}

} // verus!
