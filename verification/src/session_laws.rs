//! What holds of whole sessions: what is sent, and what comes of each answer.
use vstd::prelude::*;

use crate::config::{AuthMethod, ConfigView, JwtSource, VaultLayout};
use crate::config_laws::blank;
use crate::http::{header_text, http_reason, HttpMethod, RequestView};
use crate::json::{json_member, json_of, JsonView};
use crate::laws::first_step;
use crate::place_laws::{
    are_token_and_namespace, has_secret_put_in, headers_carry_token_and_namespace, holds,
    lemma_holds_is_exact, lemma_put_in_is_exact, lemma_same_headers_by_content, member_of_member,
    stored_at,
};
use crate::provider::document_url;
use crate::run::{
    advance, get_result, get_runs_to_its_result, longest, request_headers, run, set_request,
    set_result, set_runs_to_its_result, start, vault_token, Point, World,
};
use crate::session::{
    decoded, get_step, login_request, oidc_request, read_request, set_step, two_texts, NO_JWT,
    NO_OIDC_TOKEN, NO_OIDC_URL, NO_OIDC_VALUE, NO_ROLE, NO_ROLE_ID, NO_SECRET_ID, NO_TOKEN,
    READ_FORBIDDEN, UNDECODABLE, WRITE_FORBIDDEN,
};
use crate::step::{BodyView, LoginMethod, StatusView, StepView, VariableView};
use crate::text::{decimal, trimmed, without_outer_slashes};

verus! {

/// The text of a reply, as far as it can be read.
pub open spec fn words(world: World, request: RequestView) -> Seq<char> {
    if (world.text)(request) is Some {
        (world.text)(request)->0
    } else {
        seq![]
    }
}

/// Whether the server took a write: it answers with 200 or 204.
pub open spec fn taken(world: World, request: RequestView) -> bool {
    (world.status)(request) == Ok::<u16, Seq<char>>(200) || (world.status)(request) == Ok::<
        u16,
        Seq<char>,
    >(204)
}

/// A write is reported as done if and only if the server took it. Whatever else
/// it answers, and where it does not answer, the session fails.
pub proof fn write_is_done_only_if_taken(
    config: ConfigView,
    world: World,
    project: Seq<char>,
    key: Seq<char>,
    value: Seq<char>,
    profile: Seq<char>,
    n: nat,
)
    requires
        n >= longest(),
    ensures
        ({
            let request = set_request(config, world, project, key, value, profile);
            let end = run(
                config,
                world,
                start(set_step(config, project, key, value, profile)),
                n,
            ).step;
            &&& end is Written <==> request is Ok && taken(world, request->Ok_0)
            &&& end is Written || end is Failed
            &&& set_result(config, world, project, key, value, profile) is Ok <==> request is Ok
                && taken(world, request->Ok_0)
        }),
{
    set_runs_to_its_result(config, world, project, key, value, profile, n);
}

/// A secret is reported as missing only if the server says so: it answers the
/// read with 404, or with 200 and a document that has no text for the key.
/// Whatever else it answers, and where it does not answer, the session fails.
pub proof fn secret_is_missing_only_if_not_there(
    config: ConfigView,
    world: World,
    project: Seq<char>,
    key: Seq<char>,
    profile: Seq<char>,
    n: nat,
)
    requires
        n >= longest(),
    ensures
        ({
            let end = run(config, world, start(get_step(config, project, key, profile)), n).step;
            let url = document_url(config, project, profile, key);
            let headers = request_headers(config, world);
            let status = (world.status)(read_request(url->Ok_0, headers->Ok_0));
            &&& end is Found || end is Failed
            &&& end is Found ==> url is Ok && headers is Ok && (status == Ok::<u16, Seq<char>>(404)
                || status == Ok::<u16, Seq<char>>(200))
            &&& end is Found && status == Ok::<u16, Seq<char>>(404) ==> end->secret is None
            &&& url is Ok && headers is Ok && status == Ok::<u16, Seq<char>>(404) ==> end is Found
            &&& get_result(config, world, project, key, profile) is Ok <==> end is Found
        }),
{
    get_runs_to_its_result(config, world, project, key, profile, n);
}

/// What bytes decode to depends on the JSON parser alone. Bytes that are no JSON,
/// and a body that cannot be read, give no document.
pub proof fn bodies_decode_to_their_documents(bytes: Seq<u8>, reason: Seq<char>)
    ensures
        json_of(bytes) is Some ==> decoded(Ok(bytes)) == Ok::<JsonView, Seq<char>>(
            json_of(bytes)->0,
        ),
        json_of(bytes) is None ==> decoded(Ok(bytes)) == Err::<JsonView, Seq<char>>(UNDECODABLE@),
        decoded(Err(reason)) == Err::<JsonView, Seq<char>>(reason),
{
}

/// Whether a request reads the document at a URL, with a token.
pub open spec fn reads(
    config: ConfigView,
    url: Seq<char>,
    token: Seq<char>,
    request: RequestView,
) -> bool {
    &&& request.method == HttpMethod::Get
    &&& request.url == url
    &&& are_token_and_namespace(request.headers, token, config.namespace)
    &&& request.extra_headers.len() == 0
    &&& request.query.len() == 0
    &&& request.body is None
}

/// Whether the token and the namespace can stand in headers.
pub open spec fn can_be_sent(config: ConfigView, token: Seq<char>) -> bool {
    header_text(token) && (config.namespace is Some ==> header_text(config.namespace->0))
}

proof fn lemma_read_request(
    config: ConfigView,
    world: World,
    url: Seq<char>,
    token: Seq<char>,
    request: RequestView,
)
    requires
        vault_token(config, world) == Ok::<Seq<char>, Seq<char>>(token),
        can_be_sent(config, token),
        reads(config, url, token, request),
    ensures
        request_headers(config, world) == Ok::<Map<Seq<char>, Seq<Seq<u8>>>, Seq<char>>(
            request.headers,
        ),
        request == read_request(url, request.headers),
{
    headers_carry_token_and_namespace(token, config.namespace);
    lemma_same_headers_by_content(token, config.namespace, request.headers);
    assert(request =~= read_request(url, request.headers));
}

/// The message where the server gives no answer.
pub open spec fn no_answer(config: ConfigView, reason: Seq<char>) -> Seq<char> {
    "Failed to connect to Vault at "@ + config.endpoint + ": "@ + reason
}

/// Reading a secret comes down to one answer: that to the request that reads the
/// key's document with the token. With 200 the session finds the text that the
/// reply holds in the key's field, or none; with 404 it finds none; and with
/// anything else it fails, and tells the user the server's status and words.
pub proof fn answer_to_the_read_decides(
    config: ConfigView,
    world: World,
    project: Seq<char>,
    key: Seq<char>,
    profile: Seq<char>,
    url: Seq<char>,
    token: Seq<char>,
    request: RequestView,
    n: nat,
)
    requires
        n >= longest(),
        document_url(config, project, profile, key) == Ok::<Seq<char>, Seq<char>>(url),
        vault_token(config, world) == Ok::<Seq<char>, Seq<char>>(token),
        can_be_sent(config, token),
        reads(config, url, token, request),
    ensures
        ({
            let end = run(config, world, start(get_step(config, project, key, profile)), n).step;
            let field = if config.layout == VaultLayout::Flat {
                key
            } else {
                "value"@
            };
            match (world.status)(request) {
                Err(reason) => end == (StepView::Failed { message: no_answer(config, reason) }),
                Ok(200) => match decoded((world.body)(request)) {
                    Ok(reply) => {
                        let stored = stored_at(config.kv_version, reply);
                        &&& end is Found
                        &&& stored is None ==> end->secret is None
                        &&& stored is Some ==> (match json_member(stored->0, field) {
                            Some(JsonView::Text(text)) => end->secret == Some(text),
                            _ => end->secret is None,
                        })
                    },
                    Err(reason) => end == (StepView::Failed {
                        message: "Failed to parse Vault response: "@ + reason,
                    }),
                },
                Ok(404) => end == (StepView::Found { secret: None }),
                Ok(403) => end == (StepView::Failed { message: READ_FORBIDDEN@ }),
                Ok(status) => end == (StepView::Failed {
                    message: "Vault returned HTTP "@ + decimal(status as nat) + ": "@ + words(
                        world,
                        request,
                    ),
                }),
            }
        }),
{
    lemma_read_request(config, world, url, token, request);
    get_runs_to_its_result(config, world, project, key, profile, n);
}

/// Whether a request writes a document to a URL, with a token.
pub open spec fn writes(
    config: ConfigView,
    url: Seq<char>,
    token: Seq<char>,
    fields: Map<Seq<char>, JsonView>,
    request: RequestView,
) -> bool {
    &&& request.method == HttpMethod::Post
    &&& request.url == url
    &&& are_token_and_namespace(request.headers, token, config.namespace)
    &&& request.extra_headers.len() == 0
    &&& request.query.len() == 0
    &&& request.body is Some && holds(config.kv_version, request.body->0, fields)
}

/// Whether some fields are what a flat document has, by the answer to a request
/// that reads it: those of the object in the reply to a 200, and none where there
/// is no such object or the answer is 404.
pub open spec fn has_fields(
    config: ConfigView,
    world: World,
    read: RequestView,
    fields: Map<Seq<char>, JsonView>,
) -> bool {
    match (world.status)(read) {
        Ok(200) => match decoded((world.body)(read)) {
            Ok(reply) => match stored_at(config.kv_version, reply) {
                Some(JsonView::Object(stored)) => fields == stored,
                _ => fields == Map::<Seq<char>, JsonView>::empty(),
            },
            Err(_) => false,
        },
        Ok(404) => fields == Map::<Seq<char>, JsonView>::empty(),
        _ => false,
    }
}

/// Writing a secret comes down to one answer: that to the request that writes the
/// key's document with the token. What is written is what the document has so
/// far, with the secret put in; a document that is the key's own has nothing so
/// far. With 200 and 204 the secret is written, and with anything else the
/// session fails, and tells the user the server's status and words.
pub proof fn answer_to_the_write_decides(
    config: ConfigView,
    world: World,
    project: Seq<char>,
    key: Seq<char>,
    value: Seq<char>,
    profile: Seq<char>,
    url: Seq<char>,
    token: Seq<char>,
    read: RequestView,
    before: Map<Seq<char>, JsonView>,
    after: Map<Seq<char>, JsonView>,
    request: RequestView,
    n: nat,
)
    requires
        n >= longest(),
        document_url(config, project, profile, key) == Ok::<Seq<char>, Seq<char>>(url),
        vault_token(config, world) == Ok::<Seq<char>, Seq<char>>(token),
        can_be_sent(config, token),
        reads(config, url, token, read),
        config.layout == VaultLayout::Flat ==> has_fields(config, world, read, before),
        has_secret_put_in(config.layout, before, key, value, after),
        writes(config, url, token, after, request),
    ensures
        set_request(config, world, project, key, value, profile) == Ok::<RequestView, Seq<char>>(
            request,
        ),
        ({
            let end = run(
                config,
                world,
                start(set_step(config, project, key, value, profile)),
                n,
            ).step;
            match (world.status)(request) {
                Err(reason) => end == (StepView::Failed { message: no_answer(config, reason) }),
                Ok(200) => end is Written,
                Ok(204) => end is Written,
                Ok(403) => end == (StepView::Failed { message: WRITE_FORBIDDEN@ }),
                Ok(status) => end == (StepView::Failed {
                    message: "Vault returned HTTP "@ + decimal(status as nat)
                        + " while writing secret: "@ + words(world, request),
                }),
            }
        }),
{
    lemma_read_request(config, world, url, token, read);
    headers_carry_token_and_namespace(token, config.namespace);
    lemma_same_headers_by_content(token, config.namespace, request.headers);
    lemma_put_in_is_exact(config.layout, before, key, value, after);
    lemma_holds_is_exact(config.kv_version, request.body->0, after);
    let sent = set_request(config, world, project, key, value, profile)->Ok_0;
    assert(request =~= sent);
    set_runs_to_its_result(config, world, project, key, value, profile, n);
}

/// A flat document that cannot be read is not written: the session fails, and
/// tells the user the server's status and words.
pub proof fn flat_document_that_cannot_be_read_is_not_written(
    config: ConfigView,
    world: World,
    project: Seq<char>,
    key: Seq<char>,
    value: Seq<char>,
    profile: Seq<char>,
    url: Seq<char>,
    token: Seq<char>,
    read: RequestView,
    n: nat,
)
    requires
        n >= longest(),
        config.layout == VaultLayout::Flat,
        document_url(config, project, profile, key) == Ok::<Seq<char>, Seq<char>>(url),
        vault_token(config, world) == Ok::<Seq<char>, Seq<char>>(token),
        can_be_sent(config, token),
        reads(config, url, token, read),
    ensures
        ({
            let end = run(
                config,
                world,
                start(set_step(config, project, key, value, profile)),
                n,
            ).step;
            match (world.status)(read) {
                Err(reason) => end == (StepView::Failed { message: no_answer(config, reason) }),
                Ok(200) => match decoded((world.body)(read)) {
                    Ok(_) => true,
                    Err(reason) => end == (StepView::Failed {
                        message: "Failed to parse Vault response: "@ + reason,
                    }),
                },
                Ok(404) => true,
                Ok(403) => end == (StepView::Failed { message: READ_FORBIDDEN@ }),
                Ok(status) => end == (StepView::Failed {
                    message: "Vault returned HTTP "@ + decimal(status as nat)
                        + " while reading existing flat secret document: "@ + words(world, read),
                }),
            }
        }),
{
    lemma_read_request(config, world, url, token, read);
    set_runs_to_its_result(config, world, project, key, value, profile, n);
}

/// A session that cannot find its document, has no token, or has one that cannot
/// be sent, fails with the reason.
pub proof fn session_without_document_or_token_fails(
    config: ConfigView,
    world: World,
    project: Seq<char>,
    key: Seq<char>,
    value: Option<Seq<char>>,
    profile: Seq<char>,
    n: nat,
)
    requires
        n >= longest(),
    ensures
        ({
            let end = run(
                config,
                world,
                start(first_step(config, project, key, value, profile)),
                n,
            ).step;
            let url = document_url(config, project, profile, key);
            let token = vault_token(config, world);
            &&& url is Err ==> end == (StepView::Failed { message: url->Err_0 })
            &&& url is Ok && token is Err ==> end == (StepView::Failed { message: token->Err_0 })
            &&& url is Ok && token is Ok && !header_text(token->Ok_0) ==> end
                == (StepView::Failed {
                message: "Invalid token value: "@ + "failed to parse header value"@,
            })
            &&& url is Ok && token is Ok && header_text(token->Ok_0) && !can_be_sent(
                config,
                token->Ok_0,
            ) ==> end == (StepView::Failed {
                message: "Invalid namespace value: "@ + "failed to parse header value"@,
            })
        }),
{
    match value {
        None => get_runs_to_its_result(config, world, project, key, profile, n),
        Some(value) => set_runs_to_its_result(config, world, project, key, value, profile, n),
    }
    if vault_token(config, world) is Ok {
        headers_carry_token_and_namespace(vault_token(config, world)->Ok_0, config.namespace);
    }
}

/// With the token method, the token is `VAULT_TOKEN`, and where that is blank what
/// the file `.vault-token` in the home directory holds, without the white space
/// around it. There is none only where both are blank.
pub proof fn token_is_the_variable_or_the_file(config: ConfigView, world: World)
    requires
        config.auth == AuthMethod::Token,
    ensures
        ({
            let variable = (world.variable)("VAULT_TOKEN"@);
            let file = (world.home_file)("HOME"@, "USERPROFILE"@, ".vault-token"@);
            let token = vault_token(config, world);
            &&& !blank(variable) ==> token == Ok::<Seq<char>, Seq<char>>(variable->0)
            &&& blank(variable) && file is Some && trimmed(file->0).len() > 0 ==> token == Ok::<
                Seq<char>,
                Seq<char>,
            >(trimmed(file->0))
            &&& blank(variable) && (file is None || trimmed(file->0).len() == 0) ==> token
                == Err::<Seq<char>, Seq<char>>(NO_TOKEN@)
        }),
{
}

/// Whether a request logs in at the backend of the configuration, which is at
/// `default_mount` unless the configuration names it, and in the namespace of the
/// configuration.
pub open spec fn logs_in(
    config: ConfigView,
    default_mount: Seq<char>,
    request: RequestView,
) -> bool {
    let mount = if config.auth_mount is Some {
        config.auth_mount->0
    } else {
        default_mount
    };
    &&& request.method == HttpMethod::Post
    &&& request.url == config.endpoint + "/v1/auth/"@ + without_outer_slashes(mount) + "/login"@
    &&& request.headers == Map::<Seq<char>, Seq<Seq<u8>>>::empty()
    &&& config.namespace is None ==> request.extra_headers.len() == 0
    &&& config.namespace is Some ==> request.extra_headers == seq![
        ("X-Vault-Namespace"@, config.namespace->0),
    ]
    &&& request.query.len() == 0
}

/// Whether the document that a request sends has two members, which are texts, and
/// no other.
pub open spec fn sends_two_texts(
    request: RequestView,
    name: Seq<char>,
    text: Seq<char>,
    other_name: Seq<char>,
    other_text: Seq<char>,
) -> bool {
    &&& request.body is Some
    &&& json_member(request.body->0, name) == Some(JsonView::Text(text))
    &&& json_member(request.body->0, other_name) == Some(JsonView::Text(other_text))
    &&& forall|member: Seq<char>|
        member != name && member != other_name ==> #[trigger] json_member(
            request.body->0,
            member,
        ) is None
}

proof fn lemma_two_texts(
    request: RequestView,
    name: Seq<char>,
    text: Seq<char>,
    other_name: Seq<char>,
    other_text: Seq<char>,
)
    requires
        sends_two_texts(request, name, text, other_name, other_text),
    ensures
        request.body == Some(two_texts(name, text, other_name, other_text)),
{
    let fields = request.body->0->Object_0;
    let made = two_texts(name, text, other_name, other_text)->Object_0;
    assert forall|member: Seq<char>| #[trigger] fields.contains_key(member) == made.contains_key(
        member,
    ) by {
        if member != name && member != other_name {
            assert(json_member(request.body->0, member) is None);
        }
    }
    assert(fields =~= made);
}

proof fn lemma_two_texts_are_sent(
    request: RequestView,
    name: Seq<char>,
    text: Seq<char>,
    other_name: Seq<char>,
    other_text: Seq<char>,
)
    requires
        name != other_name,
        request.body == Some(two_texts(name, text, other_name, other_text)),
    ensures
        sends_two_texts(request, name, text, other_name, other_text),
{
}

/// Whether a result is what comes of the answer to a login: the text at
/// `auth.client_token` in a reply that reports success, and for anything else the
/// reason, with the server's status and words where it gave them.
pub open spec fn comes_of_login(
    world: World,
    request: RequestView,
    method: Seq<char>,
    result: Result<Seq<char>, Seq<char>>,
) -> bool {
    match (world.status)(request) {
        Err(reason) => result == Err::<Seq<char>, Seq<char>>(method + " login failed: "@ + reason),
        Ok(status) => if status < 200 || 299 < status {
            result == Err::<Seq<char>, Seq<char>>(
                method + " login to "@ + request.url + " returned HTTP "@ + (decimal(status as nat)
                    + " "@ + http_reason(status as int)) + ": "@ + words(world, request),
            )
        } else {
            match decoded((world.body)(request)) {
                Err(reason) => result == Err::<Seq<char>, Seq<char>>(
                    "Failed to parse "@ + method + " login response: "@ + reason,
                ),
                Ok(reply) => match member_of_member(reply, "auth"@, "client_token"@) {
                    Some(JsonView::Text(token)) => result == Ok::<Seq<char>, Seq<char>>(token),
                    _ => result == Err::<Seq<char>, Seq<char>>(
                        method + " login response missing auth.client_token"@,
                    ),
                },
            }
        },
    }
}

proof fn lemma_credential_names()
    ensures
        "role_id"@ != "secret_id"@,
        "role"@ != "jwt"@,
{
    reveal_strlit("role_id");
    reveal_strlit("secret_id");
    reveal_strlit("role");
    reveal_strlit("jwt");
    assert("role_id"@.len() == 7 && "secret_id"@.len() == 9);
    assert("role"@.len() == 4 && "jwt"@.len() == 3);
}

/// With AppRole, the token comes of a login with the two IDs that the environment
/// gives, empty ones included, and there is no login without both.
pub proof fn approle_token_comes_of_the_login(
    config: ConfigView,
    world: World,
    request: RequestView,
)
    requires
        config.auth == AuthMethod::AppRole,
    ensures
        ({
            let role_id = (world.variable)("VAULT_ROLE_ID"@);
            let secret_id = (world.variable)("VAULT_SECRET_ID"@);
            let token = vault_token(config, world);
            &&& role_id is None ==> token == Err::<Seq<char>, Seq<char>>(NO_ROLE_ID@)
            &&& role_id is Some && secret_id is None ==> token == Err::<Seq<char>, Seq<char>>(
                NO_SECRET_ID@,
            )
            &&& role_id is Some && secret_id is Some && logs_in(config, "approle"@, request)
                && sends_two_texts(
                request,
                "role_id"@,
                role_id->0,
                "secret_id"@,
                secret_id->0,
            ) ==> comes_of_login(world, request, "AppRole"@, token)
        }),
{
    let role_id = (world.variable)("VAULT_ROLE_ID"@);
    let secret_id = (world.variable)("VAULT_SECRET_ID"@);
    if role_id is Some && secret_id is Some && logs_in(config, "approle"@, request)
        && sends_two_texts(request, "role_id"@, role_id->0, "secret_id"@, secret_id->0) {
        lemma_two_texts(request, "role_id"@, role_id->0, "secret_id"@, secret_id->0);
        let made = login_request(
            config,
            LoginMethod::AppRole,
            two_texts("role_id"@, role_id->0, "secret_id"@, secret_id->0),
        );
        assert(request =~= made);
    }
}

/// Whether the environment gives a JWT: `VAULT_JWT`, and where that is blank what
/// the file at `VAULT_JWT_PATH` holds, without the white space around it.
pub open spec fn environment_gives(world: World, jwt: Seq<char>) -> bool {
    let variable = (world.variable)("VAULT_JWT"@);
    let path = (world.variable)("VAULT_JWT_PATH"@);
    if !blank(variable) {
        jwt == variable->0
    } else {
        &&& !blank(path)
        &&& (world.file)(path->0) is Ok
        &&& jwt == trimmed((world.file)(path->0)->Ok_0)
        &&& jwt.len() > 0
    }
}

/// With a JWT from the environment, the token comes of a login with the
/// configured role and that JWT.
pub proof fn jwt_token_comes_of_the_login(
    config: ConfigView,
    world: World,
    jwt: Seq<char>,
    request: RequestView,
)
    requires
        config.auth == AuthMethod::Jwt,
        config.role is Some,
        config.jwt_source == JwtSource::Environment,
        environment_gives(world, jwt),
        logs_in(config, "jwt"@, request),
        sends_two_texts(request, "role"@, config.role->0, "jwt"@, jwt),
    ensures
        comes_of_login(world, request, "JWT"@, vault_token(config, world)),
{
    lemma_two_texts(request, "role"@, config.role->0, "jwt"@, jwt);
    let made = login_request(
        config,
        LoginMethod::Jwt,
        two_texts("role"@, config.role->0, "jwt"@, jwt),
    );
    assert(request =~= made);
}

/// Without a role, and without a JWT in the environment, there is no token, and
/// the message says what is missing.
pub proof fn jwt_token_needs_role_and_jwt(config: ConfigView, world: World)
    requires
        config.auth == AuthMethod::Jwt,
    ensures
        ({
            let variable = (world.variable)("VAULT_JWT"@);
            let path = (world.variable)("VAULT_JWT_PATH"@);
            let token = vault_token(config, world);
            &&& config.role is None ==> token == Err::<Seq<char>, Seq<char>>(NO_ROLE@)
            &&& config.role is Some && config.jwt_source == JwtSource::Environment && blank(
                variable,
            ) ==> {
                &&& blank(path) ==> token == Err::<Seq<char>, Seq<char>>(NO_JWT@)
                &&& !blank(path) ==> match (world.file)(path->0) {
                    Err(reason) => token == Err::<Seq<char>, Seq<char>>(
                        "Failed to read VAULT_JWT_PATH ("@ + path->0 + "): "@ + reason,
                    ),
                    Ok(contents) => trimmed(contents).len() == 0 ==> token == Err::<
                        Seq<char>,
                        Seq<char>,
                    >(NO_JWT@),
                }
            }
        }),
{
}

/// Whether a request mints a workload-identity token: at the URL and with the
/// credential that the environment gives, for the configured audience.
pub open spec fn mints(config: ConfigView, world: World, request: RequestView) -> bool {
    let url = (world.variable)("ACTIONS_ID_TOKEN_REQUEST_URL"@);
    let token = (world.variable)("ACTIONS_ID_TOKEN_REQUEST_TOKEN"@);
    &&& !blank(url) && !blank(token)
    &&& request.method == HttpMethod::Get
    &&& request.url == url->0
    &&& request.headers == Map::<Seq<char>, Seq<Seq<u8>>>::empty()
    &&& request.extra_headers == seq![("Authorization"@, "bearer "@ + token->0)]
    &&& config.audience is None ==> request.query.len() == 0
    &&& config.audience is Some ==> request.query == seq![("audience"@, config.audience->0)]
    &&& request.body is None
}

/// With GitHub Actions as the source, the JWT is the text at `value` in the reply
/// to the request that mints it, if that reports success, and the token comes of
/// a login with it and the configured role. Otherwise there is no token, and the
/// message says why.
pub proof fn minted_token_comes_of_two_answers(
    config: ConfigView,
    world: World,
    mint: RequestView,
    login: RequestView,
)
    requires
        config.auth == AuthMethod::Jwt,
        config.role is Some,
        config.jwt_source == JwtSource::GithubActions,
        mints(config, world, mint),
    ensures
        match (world.status)(mint) {
            Err(reason) => vault_token(config, world) == Err::<Seq<char>, Seq<char>>(
                "Failed to request a GitHub Actions OIDC token: "@ + reason,
            ),
            Ok(status) => if status < 200 || 299 < status {
                vault_token(config, world) == Err::<Seq<char>, Seq<char>>(
                    "GitHub Actions OIDC request returned HTTP "@ + (decimal(status as nat) + " "@
                        + http_reason(status as int)) + ": "@ + words(world, mint),
                )
            } else {
                match decoded((world.body)(mint)) {
                    Err(reason) => vault_token(config, world) == Err::<Seq<char>, Seq<char>>(
                        "Failed to parse the GitHub Actions OIDC response: "@ + reason,
                    ),
                    Ok(reply) => match json_member(reply, "value"@) {
                        Some(JsonView::Text(jwt)) => logs_in(config, "jwt"@, login)
                            && sends_two_texts(login, "role"@, config.role->0, "jwt"@, jwt)
                            ==> comes_of_login(world, login, "JWT"@, vault_token(config, world)),
                        _ => vault_token(config, world) == Err::<Seq<char>, Seq<char>>(
                            NO_OIDC_VALUE@,
                        ),
                    },
                }
            },
        },
{
    let url = (world.variable)("ACTIONS_ID_TOKEN_REQUEST_URL"@)->0;
    let token = (world.variable)("ACTIONS_ID_TOKEN_REQUEST_TOKEN"@)->0;
    let made = oidc_request(config, url, token);
    assert(mint =~= made);
    match decoded((world.body)(mint)) {
        Ok(reply) => match json_member(reply, "value"@) {
            Some(JsonView::Text(jwt)) => {
                if logs_in(config, "jwt"@, login) && sends_two_texts(
                    login,
                    "role"@,
                    config.role->0,
                    "jwt"@,
                    jwt,
                ) {
                    lemma_two_texts(login, "role"@, config.role->0, "jwt"@, jwt);
                    let sent = login_request(
                        config,
                        LoginMethod::Jwt,
                        two_texts("role"@, config.role->0, "jwt"@, jwt),
                    );
                    assert(login =~= sent);
                }
            },
            _ => {},
        },
        Err(_) => {},
    }
}

/// Nothing is minted without the two variables that a job with the permission
/// has, and the message says which is missing.
pub proof fn minting_needs_the_permission(config: ConfigView, world: World)
    requires
        config.auth == AuthMethod::Jwt,
        config.role is Some,
        config.jwt_source == JwtSource::GithubActions,
    ensures
        ({
            let url = (world.variable)("ACTIONS_ID_TOKEN_REQUEST_URL"@);
            let token = (world.variable)("ACTIONS_ID_TOKEN_REQUEST_TOKEN"@);
            &&& blank(url) ==> vault_token(config, world) == Err::<Seq<char>, Seq<char>>(
                NO_OIDC_URL@,
            )
            &&& !blank(url) && blank(token) ==> vault_token(config, world) == Err::<
                Seq<char>,
                Seq<char>,
            >(NO_OIDC_TOKEN@)
        }),
{
}

/// Whether a JWT is the one that the configured source gives: the environment, or
/// the reply to a request that mints it.
pub open spec fn is_obtained(config: ConfigView, world: World, jwt: Seq<char>) -> bool {
    if config.jwt_source == JwtSource::Environment {
        environment_gives(world, jwt)
    } else {
        exists|mint: RequestView| #[trigger]
            mints(config, world, mint) && decoded((world.body)(mint)) is Ok && json_member(
                decoded((world.body)(mint))->Ok_0,
                "value"@,
            ) == Some(JsonView::Text(jwt))
    }
}

/// What holds of the credentials at every point of a session.
spec fn credentials_kept(config: ConfigView, world: World, point: Point) -> bool {
    let role_id = (world.variable)("VAULT_ROLE_ID"@);
    let secret_id = (world.variable)("VAULT_SECRET_ID"@);
    match point.step {
        StepView::ReadVariable { name, state } => match state {
            VariableView::Token { .. } => config.auth == AuthMethod::Token && name
                == "VAULT_TOKEN"@,
            VariableView::RoleId { .. } => config.auth == AuthMethod::AppRole && name
                == "VAULT_ROLE_ID"@,
            VariableView::SecretId { role_id: own, .. } => config.auth == AuthMethod::AppRole
                && name == "VAULT_SECRET_ID"@ && role_id == Some(own),
            VariableView::Jwt { role, .. } => for_jwt(config, role) && config.jwt_source
                == JwtSource::Environment && name == "VAULT_JWT"@,
            VariableView::JwtPath { role, .. } => for_jwt(config, role) && config.jwt_source
                == JwtSource::Environment && name == "VAULT_JWT_PATH"@ && blank(
                (world.variable)("VAULT_JWT"@),
            ),
            VariableView::OidcUrl { role, .. } => for_jwt(config, role) && config.jwt_source
                == JwtSource::GithubActions && name == "ACTIONS_ID_TOKEN_REQUEST_URL"@,
            VariableView::OidcToken { role, url, .. } => {
                &&& for_jwt(config, role)
                &&& config.jwt_source == JwtSource::GithubActions
                &&& name == "ACTIONS_ID_TOKEN_REQUEST_TOKEN"@
                &&& url.len() > 0
                &&& (world.variable)("ACTIONS_ID_TOKEN_REQUEST_URL"@) == Some(url)
            },
        },
        StepView::ReadFile { path, state } => {
            &&& for_jwt(config, state.role)
            &&& config.jwt_source == JwtSource::Environment
            &&& blank((world.variable)("VAULT_JWT"@))
            &&& path.len() > 0
            &&& (world.variable)("VAULT_JWT_PATH"@) == Some(path)
        },
        StepView::ReadHomeFile { home, fallback, name, .. } => {
            &&& config.auth == AuthMethod::Token
            &&& blank((world.variable)("VAULT_TOKEN"@))
            &&& home == "HOME"@ && fallback == "USERPROFILE"@ && name == ".vault-token"@
        },
        StepView::Send { request, state } => match state {
            StatusView::Oidc { role, .. } => for_jwt(config, role) && config.jwt_source
                == JwtSource::GithubActions && mints(config, world, request),
            StatusView::Login { method, .. } => logs_in_rightly(config, world, method, request),
            _ => true,
        },
        StepView::ReadBody { state } => match state {
            BodyView::Oidc { role, .. } => for_jwt(config, role) && config.jwt_source
                == JwtSource::GithubActions && mints(config, world, point.last),
            _ => true,
        },
        _ => true,
    }
}

spec fn for_jwt(config: ConfigView, role: Seq<char>) -> bool {
    config.auth == AuthMethod::Jwt && config.role == Some(role)
}

/// Whether a login is the one of the configured method, with the credentials that
/// are there for it: with AppRole the two IDs of the environment, and with a JWT
/// the configured role and the JWT that the configured source gives.
pub open spec fn logs_in_rightly(
    config: ConfigView,
    world: World,
    method: LoginMethod,
    request: RequestView,
) -> bool {
    if method == LoginMethod::AppRole {
        &&& config.auth == AuthMethod::AppRole
        &&& logs_in(config, "approle"@, request)
        &&& (world.variable)("VAULT_ROLE_ID"@) is Some
        &&& (world.variable)("VAULT_SECRET_ID"@) is Some
        &&& sends_two_texts(
            request,
            "role_id"@,
            (world.variable)("VAULT_ROLE_ID"@)->0,
            "secret_id"@,
            (world.variable)("VAULT_SECRET_ID"@)->0,
        )
    } else {
        &&& config.auth == AuthMethod::Jwt
        &&& logs_in(config, "jwt"@, request)
        &&& config.role is Some
        &&& exists|jwt: Seq<char>| #[trigger]
            is_obtained(config, world, jwt) && sends_two_texts(
                request,
                "role"@,
                config.role->0,
                "jwt"@,
                jwt,
            )
    }
}

proof fn lemma_jwt_login_is_right(config: ConfigView, world: World, role: Seq<char>, jwt: Seq<char>)
    requires
        for_jwt(config, role),
        is_obtained(config, world, jwt),
    ensures
        logs_in_rightly(
            config,
            world,
            LoginMethod::Jwt,
            login_request(config, LoginMethod::Jwt, two_texts("role"@, role, "jwt"@, jwt)),
        ),
{
    lemma_credential_names();
    let request = login_request(config, LoginMethod::Jwt, two_texts("role"@, role, "jwt"@, jwt));
    lemma_two_texts_are_sent(request, "role"@, role, "jwt"@, jwt);
    assert(is_obtained(config, world, jwt));
}

proof fn lemma_approle_login_is_right(
    config: ConfigView,
    world: World,
    role_id: Seq<char>,
    secret_id: Seq<char>,
)
    requires
        config.auth == AuthMethod::AppRole,
        (world.variable)("VAULT_ROLE_ID"@) == Some(role_id),
        (world.variable)("VAULT_SECRET_ID"@) == Some(secret_id),
    ensures
        logs_in_rightly(
            config,
            world,
            LoginMethod::AppRole,
            login_request(
                config,
                LoginMethod::AppRole,
                two_texts("role_id"@, role_id, "secret_id"@, secret_id),
            ),
        ),
{
    lemma_credential_names();
    let request = login_request(
        config,
        LoginMethod::AppRole,
        two_texts("role_id"@, role_id, "secret_id"@, secret_id),
    );
    lemma_two_texts_are_sent(request, "role_id"@, role_id, "secret_id"@, secret_id);
}

proof fn lemma_advance_keeps_credentials(config: ConfigView, world: World, point: Point)
    requires
        credentials_kept(config, world, point),
    ensures
        credentials_kept(config, world, advance(config, world, point)),
{
    match point.step {
        StepView::ReadVariable { name, state } => {
            let value = (world.variable)(name);
            match state {
                VariableView::SecretId { role_id, .. } => {
                    if value is Some {
                        lemma_approle_login_is_right(config, world, role_id, value->0);
                    }
                },
                VariableView::Jwt { role, .. } => {
                    if !blank(value) {
                        assert(environment_gives(world, value->0));
                        lemma_jwt_login_is_right(config, world, role, value->0);
                    }
                },
                _ => {},
            }
        },
        StepView::ReadFile { path, state } => {
            match (world.file)(path) {
                Ok(contents) => {
                    if trimmed(contents).len() > 0 {
                        assert(environment_gives(world, trimmed(contents)));
                        lemma_jwt_login_is_right(config, world, state.role, trimmed(contents));
                    }
                },
                Err(_) => {},
            }
        },
        StepView::ReadBody { state: BodyView::Oidc { role, .. } } => {
            match decoded((world.body)(point.last)) {
                Ok(reply) => match json_member(reply, "value"@) {
                    Some(JsonView::Text(jwt)) => {
                        assert(mints(config, world, point.last));
                        assert(is_obtained(config, world, jwt));
                        lemma_jwt_login_is_right(config, world, role, jwt);
                    },
                    _ => {},
                },
                Err(_) => {},
            }
        },
        _ => {},
    }
}

proof fn lemma_run_keeps_credentials(config: ConfigView, world: World, point: Point, n: nat)
    requires
        credentials_kept(config, world, point),
    ensures
        credentials_kept(config, world, run(config, world, point, n)),
    decreases n,
{
    if n > 0 {
        lemma_advance_keeps_credentials(config, world, point);
        lemma_run_keeps_credentials(config, world, advance(config, world, point), (n - 1) as nat);
    }
}

/// A session asks for nothing but the credentials of the configured method: the
/// token, the two IDs of AppRole, or what the configured source of the JWT takes.
/// It reads the file that a variable stands in for only where that is blank.
pub proof fn sessions_ask_for_their_own_credentials(
    config: ConfigView,
    world: World,
    project: Seq<char>,
    key: Seq<char>,
    value: Option<Seq<char>>,
    profile: Seq<char>,
    n: nat,
)
    ensures
        match run(
            config,
            world,
            start(first_step(config, project, key, value, profile)),
            n,
        ).step {
            StepView::ReadVariable { name, .. } => match (config.auth, config.jwt_source) {
                (AuthMethod::Token, _) => name == "VAULT_TOKEN"@,
                (AuthMethod::AppRole, _) => name == "VAULT_ROLE_ID"@ || name == "VAULT_SECRET_ID"@,
                (AuthMethod::Jwt, JwtSource::Environment) => name == "VAULT_JWT"@ || name
                    == "VAULT_JWT_PATH"@ && blank((world.variable)("VAULT_JWT"@)),
                (AuthMethod::Jwt, JwtSource::GithubActions) => name
                    == "ACTIONS_ID_TOKEN_REQUEST_URL"@ || name
                    == "ACTIONS_ID_TOKEN_REQUEST_TOKEN"@,
            },
            StepView::ReadFile { path, .. } => {
                &&& config.auth == AuthMethod::Jwt && config.jwt_source == JwtSource::Environment
                &&& blank((world.variable)("VAULT_JWT"@))
                &&& (world.variable)("VAULT_JWT_PATH"@) == Some(path)
            },
            StepView::ReadHomeFile { home, fallback, name, .. } => {
                &&& config.auth == AuthMethod::Token
                &&& blank((world.variable)("VAULT_TOKEN"@))
                &&& home == "HOME"@ && fallback == "USERPROFILE"@ && name == ".vault-token"@
            },
            _ => true,
        },
{
    let first = start(first_step(config, project, key, value, profile));
    lemma_run_keeps_credentials(config, world, first, n);
}

/// Every login of a session sends the credentials that are there for it, and
/// nothing else: with AppRole the two IDs of the environment, and with a JWT the
/// configured role and the JWT that the configured source gives. A request that
/// mints a token is made from the variables of the environment.
pub proof fn logins_send_the_credentials(
    config: ConfigView,
    world: World,
    project: Seq<char>,
    key: Seq<char>,
    value: Option<Seq<char>>,
    profile: Seq<char>,
    n: nat,
)
    ensures
        match run(
            config,
            world,
            start(first_step(config, project, key, value, profile)),
            n,
        ).step {
            StepView::Send { request, state } => match state {
                StatusView::Login { method, .. } => logs_in_rightly(
                    config,
                    world,
                    method,
                    request,
                ),
                StatusView::Oidc { .. } => mints(config, world, request),
                _ => true,
            },
            _ => true,
        },
{
    let first = start(first_step(config, project, key, value, profile));
    lemma_run_keeps_credentials(config, world, first, n);
}

} // verus!
