//! What a session comes to: the steps of a whole run, and the result that they
//! lead to, said without the steps.
use vstd::prelude::*;

use crate::config::{AuthMethod, ConfigView, JwtSource, VaultLayout};
use crate::http::{is_success, no_headers, HttpMethod, RequestView};
use crate::json::{no_fields, JsonView};
use crate::provider::{
    api_headers, document_url, kv_data, stored_secret, updated_fields, write_body,
};
use crate::session::{
    client_token, decoded, document_step, file_step, full_status, get_step, goal_step,
    home_file_step, jwt_login_step, login_request, login_step, method_name, oidc_request,
    oidc_value, read_request, refusal, set_step, status_step, text_step, token_step, two_texts,
    variable_step, NO_JWT, NO_OIDC_TOKEN, NO_OIDC_URL, NO_OIDC_VALUE, NO_ROLE, NO_ROLE_ID,
    NO_SECRET_ID, NO_TOKEN, READ_FORBIDDEN, WRITE_FORBIDDEN,
};
use crate::step::{GoalView, LoginMethod, StatusView, StepView, TextView};
use crate::text::{nonempty, trimmed};

verus! {

/// The answers of the outside world to all that a session may ask of it. A
/// session sends no request twice, as `laws::no_request_is_sent_twice` shows, so
/// the request says which reply is meant.
pub struct World {
    /// The environment variables, by name.
    pub variable: spec_fn(Seq<char>) -> Option<Seq<char>>,
    /// The files, by path: their contents, or why they cannot be read.
    pub file: spec_fn(Seq<char>) -> Result<Seq<char>, Seq<char>>,
    /// The files in the home directory, by the two variables that may name the
    /// directory and the name of the file.
    pub home_file: spec_fn(Seq<char>, Seq<char>, Seq<char>) -> Option<Seq<char>>,
    /// The status of the reply to a request, or why there is no reply.
    pub status: spec_fn(RequestView) -> Result<u16, Seq<char>>,
    /// The body of the reply to a request, or why it cannot be read.
    pub body: spec_fn(RequestView) -> Result<Seq<u8>, Seq<char>>,
    /// The text of the reply to a request, where it can be read.
    pub text: spec_fn(RequestView) -> Option<Seq<char>>,
}

/// A session at some point: the step that is due, and the request that was sent
/// last.
pub struct Point {
    pub step: StepView,
    pub last: RequestView,
}

/// Whether a step asks for nothing more.
pub open spec fn finished(step: StepView) -> bool {
    step is Found || step is Written || step is Failed
}

/// The point after the step that is due has been answered.
pub open spec fn advance(config: ConfigView, world: World, point: Point) -> Point {
    match point.step {
        StepView::ReadVariable { name, state } => Point {
            step: variable_step(config, state, (world.variable)(name)),
            ..point
        },
        StepView::ReadFile { path, state } => Point {
            step: file_step(config, state, (world.file)(path)),
            ..point
        },
        StepView::ReadHomeFile { home, fallback, name, state } => Point {
            step: home_file_step(config, state, (world.home_file)(home, fallback, name)),
            ..point
        },
        StepView::Send { request, state } => Point {
            step: status_step(config, state, (world.status)(request)),
            last: request,
        },
        StepView::ReadBody { state } => Point {
            step: document_step(config, state, decoded((world.body)(point.last))),
            ..point
        },
        StepView::ReadText { state } => Point {
            step: text_step(state, (world.text)(point.last)),
            ..point
        },
        _ => point,
    }
}

/// The point after `n` steps have been answered.
pub open spec fn run(config: ConfigView, world: World, point: Point, n: nat) -> Point
    decreases n,
{
    if n == 0 {
        point
    } else {
        run(config, world, advance(config, world, point), (n - 1) as nat)
    }
}

/// A point at which nothing has been sent.
pub open spec fn start(step: StepView) -> Point {
    Point {
        step,
        last: RequestView {
            method: HttpMethod::Get,
            url: seq![],
            headers: no_headers(),
            extra_headers: seq![],
            query: seq![],
            body: None,
        },
    }
}

/// The most steps that a session can ask to be answered.
pub open spec fn longest() -> nat {
    10
}

/// The text of the reply to a request; empty where it cannot be read.
pub open spec fn reply_text(world: World, request: RequestView) -> Seq<char> {
    match (world.text)(request) {
        Some(text) => text,
        None => seq![],
    }
}

/// The token from `VAULT_TOKEN`, else from `~/.vault-token`.
pub open spec fn static_token(world: World) -> Result<Seq<char>, Seq<char>> {
    match nonempty((world.variable)("VAULT_TOKEN"@)) {
        Some(token) => Ok(token),
        None => match (world.home_file)("HOME"@, "USERPROFILE"@, ".vault-token"@) {
            Some(contents) if trimmed(contents).len() > 0 => Ok(trimmed(contents)),
            _ => Err(NO_TOKEN@),
        },
    }
}

/// The token that a login yields.
pub open spec fn login_result(
    config: ConfigView,
    world: World,
    method: LoginMethod,
    credentials: JsonView,
) -> Result<Seq<char>, Seq<char>> {
    let request = login_request(config, method, credentials);
    match (world.status)(request) {
        Err(reason) => Err(method_name(method) + " login failed: "@ + reason),
        Ok(status) => if !is_success(status) {
            Err(
                refusal(
                    TextView::Login { method, url: request.url, status: full_status(status) },
                    reply_text(world, request),
                ),
            )
        } else {
            match decoded((world.body)(request)) {
                Err(reason) => Err(
                    "Failed to parse "@ + method_name(method) + " login response: "@ + reason,
                ),
                Ok(reply) => match client_token(reply) {
                    Some(token) => Ok(token),
                    None => Err(
                        method_name(method) + " login response missing auth.client_token"@,
                    ),
                },
            }
        },
    }
}

/// The token that an AppRole login yields, with `VAULT_ROLE_ID` and
/// `VAULT_SECRET_ID`.
pub open spec fn approle_token(config: ConfigView, world: World) -> Result<Seq<char>, Seq<char>> {
    match ((world.variable)("VAULT_ROLE_ID"@), (world.variable)("VAULT_SECRET_ID"@)) {
        (None, _) => Err(NO_ROLE_ID@),
        (Some(_), None) => Err(NO_SECRET_ID@),
        (Some(role_id), Some(secret_id)) => login_result(
            config,
            world,
            LoginMethod::AppRole,
            two_texts("role_id"@, role_id, "secret_id"@, secret_id),
        ),
    }
}

/// The JWT from `VAULT_JWT`, else from the file that `VAULT_JWT_PATH` names.
pub open spec fn environment_jwt(world: World) -> Result<Seq<char>, Seq<char>> {
    match (nonempty((world.variable)("VAULT_JWT"@)), nonempty(
        (world.variable)("VAULT_JWT_PATH"@),
    )) {
        (Some(jwt), _) => Ok(jwt),
        (None, Some(path)) => match (world.file)(path) {
            Ok(contents) => if trimmed(contents).len() > 0 {
                Ok(trimmed(contents))
            } else {
                Err(NO_JWT@)
            },
            Err(reason) => Err("Failed to read VAULT_JWT_PATH ("@ + path + "): "@ + reason),
        },
        (None, None) => Err(NO_JWT@),
    }
}

/// The JWT that the GitHub Actions OIDC endpoint mints.
pub open spec fn minted_jwt(config: ConfigView, world: World) -> Result<Seq<char>, Seq<char>> {
    match (nonempty((world.variable)("ACTIONS_ID_TOKEN_REQUEST_URL"@)), nonempty(
        (world.variable)("ACTIONS_ID_TOKEN_REQUEST_TOKEN"@),
    )) {
        (None, _) => Err(NO_OIDC_URL@),
        (Some(_), None) => Err(NO_OIDC_TOKEN@),
        (Some(url), Some(token)) => {
            let request = oidc_request(config, url, token);
            match (world.status)(request) {
                Err(reason) => Err("Failed to request a GitHub Actions OIDC token: "@ + reason),
                Ok(status) => if !is_success(status) {
                    Err(
                        refusal(
                            TextView::Oidc { status: full_status(status) },
                            reply_text(world, request),
                        ),
                    )
                } else {
                    match decoded((world.body)(request)) {
                        Err(reason) => Err(
                            "Failed to parse the GitHub Actions OIDC response: "@ + reason,
                        ),
                        Ok(reply) => match oidc_value(reply) {
                            Some(jwt) => Ok(jwt),
                            None => Err(NO_OIDC_VALUE@),
                        },
                    }
                },
            }
        },
    }
}

/// The token that a JWT login yields.
pub open spec fn jwt_token(config: ConfigView, world: World) -> Result<Seq<char>, Seq<char>> {
    match config.role {
        None => Err(NO_ROLE@),
        Some(role) => {
            let jwt = match config.jwt_source {
                JwtSource::Environment => environment_jwt(world),
                JwtSource::GithubActions => minted_jwt(config, world),
            };
            match jwt {
                Ok(jwt) => login_result(
                    config,
                    world,
                    LoginMethod::Jwt,
                    two_texts("role"@, role, "jwt"@, jwt),
                ),
                Err(message) => Err(message),
            }
        },
    }
}

/// The Vault token, from the configured authentication method.
pub open spec fn vault_token(config: ConfigView, world: World) -> Result<Seq<char>, Seq<char>> {
    match config.auth {
        AuthMethod::Token => static_token(world),
        AuthMethod::AppRole => approle_token(config, world),
        AuthMethod::Jwt => jwt_token(config, world),
    }
}

/// The headers of the requests to the API.
pub open spec fn request_headers(config: ConfigView, world: World) -> Result<
    Map<Seq<char>, Seq<Seq<u8>>>,
    Seq<char>,
> {
    match vault_token(config, world) {
        Ok(token) => api_headers(token, config.namespace),
        Err(message) => Err(message),
    }
}

/// The message where the server cannot be reached.
pub open spec fn unreachable_message(config: ConfigView, reason: Seq<char>) -> Seq<char> {
    "Failed to connect to Vault at "@ + config.endpoint + ": "@ + reason
}

/// The secret in the document at a URL, read with the given headers.
pub open spec fn fetch_result(
    config: ConfigView,
    world: World,
    headers: Result<Map<Seq<char>, Seq<Seq<u8>>>, Seq<char>>,
    url: Seq<char>,
    key: Seq<char>,
) -> Result<Option<Seq<char>>, Seq<char>> {
    match headers {
        Err(message) => Err(message),
        Ok(headers) => {
            let request = read_request(url, headers);
            match (world.status)(request) {
                Err(reason) => Err(unreachable_message(config, reason)),
                Ok(status) => if status == 200 {
                    match decoded((world.body)(request)) {
                        Ok(reply) => Ok(stored_secret(config, key, reply)),
                        Err(reason) => Err("Failed to parse Vault response: "@ + reason),
                    }
                } else if status == 404 {
                    Ok(None)
                } else if status == 403 {
                    Err(READ_FORBIDDEN@)
                } else {
                    Err(refusal(TextView::Fetch { status }, reply_text(world, request)))
                },
            }
        },
    }
}

/// The secret of a key: `None` where there is none.
pub open spec fn get_result(
    config: ConfigView,
    world: World,
    project: Seq<char>,
    key: Seq<char>,
    profile: Seq<char>,
) -> Result<Option<Seq<char>>, Seq<char>> {
    match document_url(config, project, profile, key) {
        Ok(url) => fetch_result(config, world, request_headers(config, world), url, key),
        Err(message) => Err(message),
    }
}

/// The fields that a flat document has so far: none where it does not exist.
pub open spec fn existing_fields(
    config: ConfigView,
    world: World,
    url: Seq<char>,
    headers: Map<Seq<char>, Seq<Seq<u8>>>,
) -> Result<Map<Seq<char>, JsonView>, Seq<char>> {
    let request = read_request(url, headers);
    match (world.status)(request) {
        Err(reason) => Err(unreachable_message(config, reason)),
        Ok(status) => if status == 200 {
            match decoded((world.body)(request)) {
                Ok(reply) => match kv_data(config.kv_version, reply) {
                    Some(fields) => Ok(fields),
                    None => Ok(no_fields()),
                },
                Err(reason) => Err("Failed to parse Vault response: "@ + reason),
            }
        } else if status == 404 {
            Ok(no_fields())
        } else if status == 403 {
            Err(READ_FORBIDDEN@)
        } else {
            Err(refusal(TextView::Read { status }, reply_text(world, request)))
        },
    }
}

/// The fields that a write starts from: those of a flat document, and none in
/// the key's own entry.
pub open spec fn base_fields(
    config: ConfigView,
    world: World,
    url: Seq<char>,
    headers: Map<Seq<char>, Seq<Seq<u8>>>,
) -> Result<Map<Seq<char>, JsonView>, Seq<char>> {
    match config.layout {
        VaultLayout::SecretSpec => Ok(no_fields()),
        VaultLayout::Flat => existing_fields(config, world, url, headers),
    }
}

/// The request that writes a secret into the document at a URL, with the given
/// headers, or why none is sent.
pub open spec fn store_request(
    config: ConfigView,
    world: World,
    headers: Result<Map<Seq<char>, Seq<Seq<u8>>>, Seq<char>>,
    url: Seq<char>,
    key: Seq<char>,
    value: Seq<char>,
) -> Result<RequestView, Seq<char>> {
    match headers {
        Err(message) => Err(message),
        Ok(headers) => match base_fields(config, world, url, headers) {
            Err(message) => Err(message),
            Ok(fields) => Ok(
                RequestView {
                    method: HttpMethod::Post,
                    url,
                    headers,
                    extra_headers: seq![],
                    query: seq![],
                    body: Some(
                        write_body(
                            config.kv_version,
                            updated_fields(config.layout, fields, key, value),
                        ),
                    ),
                },
            ),
        },
    }
}

/// The request that writes the secret of a key, or why none is sent.
pub open spec fn set_request(
    config: ConfigView,
    world: World,
    project: Seq<char>,
    key: Seq<char>,
    value: Seq<char>,
    profile: Seq<char>,
) -> Result<RequestView, Seq<char>> {
    match document_url(config, project, profile, key) {
        Ok(url) => store_request(
            config,
            world,
            request_headers(config, world),
            url,
            key,
            value,
        ),
        Err(message) => Err(message),
    }
}

/// How the server takes a write.
pub open spec fn write_result(config: ConfigView, world: World, request: RequestView) -> Result<
    (),
    Seq<char>,
> {
    match (world.status)(request) {
        Err(reason) => Err(unreachable_message(config, reason)),
        Ok(status) => if status == 200 || status == 204 {
            Ok(())
        } else if status == 403 {
            Err(WRITE_FORBIDDEN@)
        } else {
            Err(refusal(TextView::Write { status }, reply_text(world, request)))
        },
    }
}

/// Whether the secret of a key is written.
pub open spec fn set_result(
    config: ConfigView,
    world: World,
    project: Seq<char>,
    key: Seq<char>,
    value: Seq<char>,
    profile: Seq<char>,
) -> Result<(), Seq<char>> {
    match set_request(config, world, project, key, value, profile) {
        Ok(request) => write_result(config, world, request),
        Err(message) => Err(message),
    }
}

/// The last step of a session that reads a secret.
pub open spec fn found(result: Result<Option<Seq<char>>, Seq<char>>) -> StepView {
    match result {
        Ok(secret) => StepView::Found { secret },
        Err(message) => StepView::Failed { message },
    }
}

/// The last step of a session that writes a secret.
pub open spec fn written(result: Result<(), Seq<char>>) -> StepView {
    match result {
        Ok(_) => StepView::Written,
        Err(message) => StepView::Failed { message },
    }
}

/// The last step of a session that has headers, or why it has none.
spec fn goal_end(
    config: ConfigView,
    world: World,
    goal: GoalView,
    headers: Result<Map<Seq<char>, Seq<Seq<u8>>>, Seq<char>>,
) -> StepView {
    match goal {
        GoalView::Fetch { url, key } => found(fetch_result(config, world, headers, url, key)),
        GoalView::Store { url, key, value } => written(
            match store_request(config, world, headers, url, key, value) {
                Ok(request) => write_result(config, world, request),
                Err(message) => Err(message),
            },
        ),
    }
}

/// The last step of a session that has a token, or why it has none.
spec fn token_end(
    config: ConfigView,
    world: World,
    goal: GoalView,
    token: Result<Seq<char>, Seq<char>>,
) -> StepView {
    goal_end(
        config,
        world,
        goal,
        match token {
            Ok(token) => api_headers(token, config.namespace),
            Err(message) => Err(message),
        },
    )
}

pub(crate) proof fn lemma_finished(config: ConfigView, world: World, point: Point, n: nat)
    requires
        finished(point.step),
    ensures
        run(config, world, point, n) == point,
    decreases n,
{
    if n > 0 {
        lemma_finished(config, world, point, (n - 1) as nat);
    }
}

proof fn lemma_write(
    config: ConfigView,
    world: World,
    request: RequestView,
    last: RequestView,
    n: nat,
)
    requires
        n >= 2,
    ensures
        run(
            config,
            world,
            Point { step: StepView::Send { request, state: StatusView::Write }, last },
            n,
        ).step == written(write_result(config, world, request)),
{
    let point = Point { step: StepView::Send { request, state: StatusView::Write }, last };
    let first = advance(config, world, point);
    let second = advance(config, world, first);
    reveal_with_fuel(run, 3);
    if finished(first.step) {
        lemma_finished(config, world, first, (n - 1) as nat);
    } else {
        lemma_finished(config, world, second, (n - 2) as nat);
    }
}

proof fn lemma_goal(
    config: ConfigView,
    world: World,
    goal: GoalView,
    token: Seq<char>,
    last: RequestView,
    n: nat,
)
    requires
        n >= 4,
    ensures
        run(config, world, Point { step: goal_step(config, goal, token), last }, n).step
            == goal_end(config, world, goal, api_headers(token, config.namespace)),
{
    let point = Point { step: goal_step(config, goal, token), last };
    let first = advance(config, world, point);
    let second = advance(config, world, first);
    reveal_with_fuel(run, 3);
    match (api_headers(token, config.namespace), goal, config.layout) {
        (Err(_), _, _) => {
            lemma_finished(config, world, point, n);
        },
        (Ok(headers), GoalView::Fetch { url, key }, _) => {
            if finished(first.step) {
                lemma_finished(config, world, first, (n - 1) as nat);
            } else {
                lemma_finished(config, world, second, (n - 2) as nat);
            }
        },
        (Ok(headers), GoalView::Store { url, key, value }, VaultLayout::SecretSpec) => {
            let request = store_request(config, world, Ok(headers), url, key, value)->Ok_0;
            lemma_write(config, world, request, last, n);
        },
        (Ok(headers), GoalView::Store { url, key, value }, VaultLayout::Flat) => {
            if finished(first.step) {
                lemma_finished(config, world, first, (n - 1) as nat);
            } else if finished(second.step) {
                lemma_finished(config, world, second, (n - 2) as nat);
            } else {
                let request = store_request(config, world, Ok(headers), url, key, value)->Ok_0;
                if first.step is Send {
                    lemma_write(config, world, request, first.last, (n - 1) as nat);
                } else {
                    lemma_write(config, world, request, second.last, (n - 2) as nat);
                }
            }
        },
    }
}

proof fn lemma_login(
    config: ConfigView,
    world: World,
    goal: GoalView,
    method: LoginMethod,
    credentials: JsonView,
    last: RequestView,
    n: nat,
)
    requires
        n >= 6,
    ensures
        run(
            config,
            world,
            Point { step: login_step(config, goal, method, credentials), last },
            n,
        ).step == token_end(
            config,
            world,
            goal,
            login_result(config, world, method, credentials),
        ),
{
    let point = Point { step: login_step(config, goal, method, credentials), last };
    let first = advance(config, world, point);
    let second = advance(config, world, first);
    reveal_with_fuel(run, 3);
    if finished(first.step) {
        lemma_finished(config, world, first, (n - 1) as nat);
    } else {
        match login_result(config, world, method, credentials) {
            Ok(token) => {
                lemma_goal(config, world, goal, token, second.last, (n - 2) as nat);
            },
            Err(_) => {
                lemma_finished(config, world, second, (n - 2) as nat);
            },
        }
    }
}

proof fn lemma_jwt_login(
    config: ConfigView,
    world: World,
    goal: GoalView,
    role: Seq<char>,
    jwt: Seq<char>,
    last: RequestView,
    n: nat,
)
    requires
        n >= 6,
        config.role == Some(role),
        config.auth == AuthMethod::Jwt,
        match config.jwt_source {
            JwtSource::Environment => environment_jwt(world),
            JwtSource::GithubActions => minted_jwt(config, world),
        } == Ok::<Seq<char>, Seq<char>>(jwt),
    ensures
        run(
            config,
            world,
            Point { step: jwt_login_step(config, goal, role, jwt), last },
            n,
        ).step == token_end(config, world, goal, vault_token(config, world)),
{
    lemma_login(
        config,
        world,
        goal,
        LoginMethod::Jwt,
        two_texts("role"@, role, "jwt"@, jwt),
        last,
        n,
    );
}

proof fn lemma_token(
    config: ConfigView,
    world: World,
    goal: GoalView,
    last: RequestView,
    n: nat,
)
    requires
        n >= longest(),
    ensures
        run(config, world, Point { step: token_step(config, goal), last }, n).step == token_end(
            config,
            world,
            goal,
            vault_token(config, world),
        ),
{
    let point = Point { step: token_step(config, goal), last };
    let first = advance(config, world, point);
    let second = advance(config, world, first);
    let third = advance(config, world, second);
    let fourth = advance(config, world, third);
    reveal_with_fuel(run, 5);
    if finished(point.step) {
        lemma_finished(config, world, point, n);
    } else if finished(first.step) {
        lemma_finished(config, world, first, (n - 1) as nat);
    } else {
        match config.auth {
            AuthMethod::Token => {
                match nonempty((world.variable)("VAULT_TOKEN"@)) {
                    Some(token) => {
                        lemma_goal(config, world, goal, token, last, (n - 1) as nat);
                    },
                    None => {
                        match static_token(world) {
                            Ok(token) => {
                                lemma_goal(config, world, goal, token, last, (n - 2) as nat);
                            },
                            Err(_) => {
                                lemma_finished(config, world, second, (n - 2) as nat);
                            },
                        }
                    },
                }
            },
            AuthMethod::AppRole => {
                if finished(second.step) {
                    lemma_finished(config, world, second, (n - 2) as nat);
                } else {
                    let role_id = (world.variable)("VAULT_ROLE_ID"@)->0;
                    let secret_id = (world.variable)("VAULT_SECRET_ID"@)->0;
                    lemma_login(
                        config,
                        world,
                        goal,
                        LoginMethod::AppRole,
                        two_texts("role_id"@, role_id, "secret_id"@, secret_id),
                        last,
                        (n - 2) as nat,
                    );
                }
            },
            AuthMethod::Jwt => {
                let role = config.role->0;
                match config.jwt_source {
                    JwtSource::Environment => {
                        match environment_jwt(world) {
                            Ok(jwt) => {
                                if nonempty((world.variable)("VAULT_JWT"@)) is Some {
                                    lemma_jwt_login(
                                        config,
                                        world,
                                        goal,
                                        role,
                                        jwt,
                                        last,
                                        (n - 1) as nat,
                                    );
                                } else {
                                    lemma_jwt_login(
                                        config,
                                        world,
                                        goal,
                                        role,
                                        jwt,
                                        last,
                                        (n - 3) as nat,
                                    );
                                }
                            },
                            Err(_) => {
                                if finished(second.step) {
                                    lemma_finished(config, world, second, (n - 2) as nat);
                                } else {
                                    lemma_finished(config, world, third, (n - 3) as nat);
                                }
                            },
                        }
                    },
                    JwtSource::GithubActions => {
                        match minted_jwt(config, world) {
                            Ok(jwt) => {
                                lemma_jwt_login(
                                    config,
                                    world,
                                    goal,
                                    role,
                                    jwt,
                                    fourth.last,
                                    (n - 4) as nat,
                                );
                            },
                            Err(_) => {
                                if finished(second.step) {
                                    lemma_finished(config, world, second, (n - 2) as nat);
                                } else if finished(third.step) {
                                    lemma_finished(config, world, third, (n - 3) as nat);
                                } else {
                                    lemma_finished(config, world, fourth, (n - 4) as nat);
                                }
                            },
                        }
                    },
                }
            },
        }
    }
}

/// Reading a secret: whatever the world answers, the session ends after at most
/// ten answers, with the secret of the key, with none, or with the message of
/// the first thing that went wrong.
pub proof fn get_runs_to_its_result(
    config: ConfigView,
    world: World,
    project: Seq<char>,
    key: Seq<char>,
    profile: Seq<char>,
    n: nat,
)
    requires
        n >= longest(),
    ensures
        run(config, world, start(get_step(config, project, key, profile)), n).step == found(
            get_result(config, world, project, key, profile),
        ),
{
    let first = start(get_step(config, project, key, profile));
    match document_url(config, project, profile, key) {
        Ok(url) => {
            lemma_token(config, world, GoalView::Fetch { url, key }, first.last, n);
        },
        Err(_) => {
            lemma_finished(config, world, first, n);
        },
    }
}

/// Writing a secret: whatever the world answers, the session ends after at most
/// ten answers, with the secret written, or with the message of the first thing
/// that went wrong.
pub proof fn set_runs_to_its_result(
    config: ConfigView,
    world: World,
    project: Seq<char>,
    key: Seq<char>,
    value: Seq<char>,
    profile: Seq<char>,
    n: nat,
)
    requires
        n >= longest(),
    ensures
        run(config, world, start(set_step(config, project, key, value, profile)), n).step
            == written(set_result(config, world, project, key, value, profile)),
{
    let first = start(set_step(config, project, key, value, profile));
    match document_url(config, project, profile, key) {
        Ok(url) => {
            lemma_token(config, world, GoalView::Store { url, key, value }, first.last, n);
        },
        Err(_) => {
            lemma_finished(config, world, first, n);
        },
    }
}

} // verus!
