//! What holds of the provider as a whole.
use vstd::prelude::*;
use vstd::utf8::encode_utf8;

use crate::config::{
    auth_of, config_of, default_config, endpoint_of, kv_version_of, layout_of, mount_of, path_of,
    scheme_accepted, tls_enabled, AuthMethod, ConfigView, EnvironmentView, JwtSource, KvVersion,
    VaultLayout,
};
use crate::http::{header_name, no_headers, HttpMethod, RequestView};
use crate::json::{json_member, json_text, JsonView};
use crate::provider::{
    api_headers, api_url, document_url, field_of, kv_data, login_url, secretspec_path,
    stored_secret, updated_fields, uri_of, uri_parameters, uri_path, write_body,
};
use crate::provider_url::{
    authority, is_plain, is_plain_host, is_plain_path, is_word, lookup, plain_text, taken_apart,
    UrlView,
};
use crate::run::{
    advance, base_fields, get_result, lemma_finished, login_result, minted_jwt, request_headers,
    run, set_request, set_result, start, Point, World,
};
use crate::session::{
    decoded, get_step, goal_step, login_request, method_mount, oidc_request, read_request, refusal,
    set_step, token_step, NO_ROLE,
};
use crate::step::{
    BodyView, GoalView, LoginMethod, StatusView, StepView, TextView, VariableView,
};
use crate::text::{
    decimal, joined, last_slash, lemma_behind_last_slash, lemma_segments, nonempty, segments,
    without_outer_slashes, without_prefixes,
};

verus! {

/// Whether a text has no slash.
pub open spec fn slash_free(text: Seq<char>) -> bool {
    forall|i: int| 0 <= i < text.len() ==> text[i] != '/'
}

pub(crate) proof fn lemma_first_piece(a: Seq<char>, b: Seq<char>, c: Seq<char>, d: Seq<char>)
    requires
        slash_free(a),
        slash_free(c),
        a + "/"@ + b == c + "/"@ + d,
    ensures
        a == c,
        b == d,
{
    reveal_strlit("/");
    let left = a + "/"@ + b;
    let right = c + "/"@ + d;
    assert(left[a.len() as int] == '/');
    assert(right[c.len() as int] == '/');
    if a.len() < c.len() {
        assert(right[a.len() as int] == c[a.len() as int]);
    } else if c.len() < a.len() {
        assert(left[c.len() as int] == a[c.len() as int]);
    }
    assert forall|i: int| 0 <= i < a.len() implies a[i] == c[i] by {
        assert(left[i] == a[i]);
        assert(right[i] == c[i]);
    }
    assert(a =~= c);
    assert(left.len() == a.len() + 1 + b.len());
    assert(right.len() == c.len() + 1 + d.len());
    assert forall|i: int| 0 <= i < b.len() implies b[i] == d[i] by {
        assert(left[a.len() + 1 + i] == b[i]);
        assert(right[c.len() + 1 + i] == d[i]);
    }
    assert(b =~= d);
}

pub(crate) proof fn lemma_same_prefix(prefix: Seq<char>, a: Seq<char>, b: Seq<char>)
    requires
        prefix + a == prefix + b,
    ensures
        a == b,
{
    let left = prefix + a;
    let right = prefix + b;
    assert(left.len() == right.len());
    assert forall|i: int| 0 <= i < a.len() implies a[i] == b[i] by {
        assert(left[prefix.len() + i] == a[i]);
        assert(right[prefix.len() + i] == b[i]);
    }
    assert(a =~= b);
}

/// In the layout with one entry per key, two keys share an entry only if they
/// are the same key of the same profile of the same project, as long as the
/// names of projects and profiles have no slash.
pub proof fn entries_are_separate(
    config: ConfigView,
    project: Seq<char>,
    profile: Seq<char>,
    key: Seq<char>,
    other_project: Seq<char>,
    other_profile: Seq<char>,
    other_key: Seq<char>,
)
    requires
        config.layout == VaultLayout::SecretSpec,
        slash_free(project),
        slash_free(profile),
        slash_free(other_project),
        slash_free(other_profile),
        document_url(config, project, profile, key) is Ok,
        document_url(config, project, profile, key) == document_url(
            config,
            other_project,
            other_profile,
            other_key,
        ),
    ensures
        project == other_project,
        profile == other_profile,
        key == other_key,
{
    let path = secretspec_path(project, profile, key)->Ok_0;
    let other = secretspec_path(other_project, other_profile, other_key)->Ok_0;
    let prefix = match config.kv_version {
        KvVersion::V2 => config.endpoint + "/v1/"@ + config.mount + "/data/"@,
        KvVersion::V1 => config.endpoint + "/v1/"@ + config.mount + "/"@,
    };
    assert(api_url(config, path) == prefix + path);
    assert(api_url(config, other) == prefix + other);
    lemma_same_prefix(prefix, path, other);
    let rest = profile + "/"@ + key;
    let other_rest = other_profile + "/"@ + other_key;
    assert(path =~= "secretspec/"@ + (project + "/"@ + rest));
    assert(other =~= "secretspec/"@ + (other_project + "/"@ + other_rest));
    lemma_same_prefix(
        "secretspec/"@,
        project + "/"@ + rest,
        other_project + "/"@ + other_rest,
    );
    lemma_first_piece(project, rest, other_project, other_rest);
    lemma_first_piece(profile, key, other_profile, other_key);
}

/// In the flat layout all keys of a profile are in one document.
pub proof fn flat_keys_share_a_document(
    config: ConfigView,
    project: Seq<char>,
    profile: Seq<char>,
    key: Seq<char>,
    other_key: Seq<char>,
)
    requires
        config.layout == VaultLayout::Flat,
    ensures
        document_url(config, project, profile, key) == document_url(
            config,
            project,
            profile,
            other_key,
        ),
{
}

/// Whether `reply` is how the engine answers a read of the document that
/// `written` has written: version 2 gives the written `data` back within `data`,
/// version 1 gives the whole back as `data`.
pub open spec fn gives_back(version: KvVersion, written: JsonView, reply: JsonView) -> bool {
    match version {
        KvVersion::V2 => {
            &&& json_member(reply, "data"@) is Some
            &&& json_member(json_member(reply, "data"@)->0, "data"@) == json_member(
                written,
                "data"@,
            )
        },
        KvVersion::V1 => json_member(reply, "data"@) == Some(written),
    }
}

/// A read gives back what a write wrote: from the reply in which the engine
/// gives back the written document, the secret of the key is the one that was
/// written. In a flat document, every other key is as it was.
pub proof fn read_gives_back_write(
    config: ConfigView,
    before: Map<Seq<char>, JsonView>,
    key: Seq<char>,
    value: Seq<char>,
    reply: JsonView,
)
    requires
        gives_back(
            config.kv_version,
            write_body(config.kv_version, updated_fields(config.layout, before, key, value)),
            reply,
        ),
    ensures
        stored_secret(config, key, reply) == Some(value),
        config.layout == VaultLayout::Flat ==> forall|other: Seq<char>|
            other != key ==> #[trigger] stored_secret(config, other, reply) == (
            match json_member(JsonView::Object(before), other) {
                Some(field) => json_text(field),
                None => None,
            }),
{
    let fields = updated_fields(config.layout, before, key, value);
    assert(kv_data(config.kv_version, reply) == Some(fields));
    assert(fields.contains_key(field_of(config.layout, key)));
}

/// What is set is what is got. Let a secret be written in one session, and read
/// in a later one that has a token and finds the document which the first has
/// written: the second reads at the URL that the first wrote to, and its result
/// is the secret.
pub proof fn get_returns_what_set_wrote(
    config: ConfigView,
    writing: World,
    reading: World,
    project: Seq<char>,
    key: Seq<char>,
    value: Seq<char>,
    profile: Seq<char>,
    headers: Map<Seq<char>, Seq<Seq<u8>>>,
    reply: JsonView,
)
    requires
        set_result(config, writing, project, key, value, profile) is Ok,
        request_headers(config, reading) == Ok::<Map<Seq<char>, Seq<Seq<u8>>>, Seq<char>>(headers),
        ({
            let written = set_request(config, writing, project, key, value, profile)->Ok_0;
            let request = read_request(written.url, headers);
            &&& (reading.status)(request) == Ok::<u16, Seq<char>>(200)
            &&& decoded((reading.body)(request)) == Ok::<JsonView, Seq<char>>(reply)
            &&& gives_back(config.kv_version, written.body->0, reply)
        }),
    ensures
        get_result(config, reading, project, key, profile) == Ok::<
            Option<Seq<char>>,
            Seq<char>,
        >(Some(value)),
{
    let url = document_url(config, project, profile, key)->Ok_0;
    let write_headers = request_headers(config, writing)->Ok_0;
    let before = base_fields(config, writing, url, write_headers)->Ok_0;
    read_gives_back_write(config, before, key, value, reply);
}

/// Whether a request reads the document at a URL.
pub open spec fn is_read_of(request: RequestView, url: Seq<char>) -> bool {
    request == read_request(url, request.headers)
}

/// Whether two worlds differ in nothing but what the document at a URL holds.
pub open spec fn same_but_for(before: World, after: World, url: Seq<char>) -> bool {
    &&& after.variable == before.variable
    &&& after.file == before.file
    &&& after.home_file == before.home_file
    &&& forall|request: RequestView|
        !#[trigger] is_read_of(request, url) ==> {
            &&& (after.status)(request) == (before.status)(request)
            &&& (after.body)(request) == (before.body)(request)
            &&& (after.text)(request) == (before.text)(request)
        }
}

proof fn lemma_same_headers(config: ConfigView, before: World, after: World, url: Seq<char>)
    requires
        same_but_for(before, after, url),
    ensures
        request_headers(config, after) == request_headers(config, before),
{
    assert forall|method: LoginMethod, credentials: JsonView|
        login_result(config, after, method, credentials) == #[trigger] login_result(
            config,
            before,
            method,
            credentials,
        ) by {
        assert(!is_read_of(login_request(config, method, credentials), url));
    }
    assert(minted_jwt(config, after) == minted_jwt(config, before)) by {
        let oidc_url = (before.variable)("ACTIONS_ID_TOKEN_REQUEST_URL"@)->0;
        let oidc_token = (before.variable)("ACTIONS_ID_TOKEN_REQUEST_TOKEN"@)->0;
        let request = oidc_request(config, oidc_url, oidc_token);
        assert(request.extra_headers.len() == 1);
        assert(!is_read_of(request, url));
    }
}

/// Writing a secret changes nothing but the document that it is written to: in a
/// world that is the same but for this document, a key that is kept in another
/// one is got as before.
pub proof fn set_leaves_other_documents(
    config: ConfigView,
    before: World,
    after: World,
    url: Seq<char>,
    project: Seq<char>,
    key: Seq<char>,
    profile: Seq<char>,
)
    requires
        same_but_for(before, after, url),
        document_url(config, project, profile, key) != Ok::<Seq<char>, Seq<char>>(url),
    ensures
        get_result(config, after, project, key, profile) == get_result(
            config,
            before,
            project,
            key,
            profile,
        ),
{
    lemma_same_headers(config, before, after, url);
    match (document_url(config, project, profile, key), request_headers(config, before)) {
        (Ok(own), Ok(headers)) => {
            let request = read_request(own, headers);
            assert(request.url == own);
            assert(!is_read_of(request, url));
        },
        _ => {},
    }
}

/// Writing the secret of one key leaves those of the others. Let a secret be
/// written in one session. In a world that is the same but for the document
/// which that session has written, another key of the same profile is got as
/// before.
pub proof fn set_leaves_other_keys(
    config: ConfigView,
    before: World,
    after: World,
    project: Seq<char>,
    key: Seq<char>,
    value: Seq<char>,
    other: Seq<char>,
    profile: Seq<char>,
    reply: JsonView,
)
    requires
        other != key,
        set_result(config, before, project, key, value, profile) is Ok,
        ({
            let written = set_request(config, before, project, key, value, profile)->Ok_0;
            let request = read_request(written.url, written.headers);
            &&& same_but_for(before, after, written.url)
            &&& (after.status)(request) == Ok::<u16, Seq<char>>(200)
            &&& decoded((after.body)(request)) == Ok::<JsonView, Seq<char>>(reply)
            &&& gives_back(config.kv_version, written.body->0, reply)
        }),
    ensures
        get_result(config, after, project, other, profile) == get_result(
            config,
            before,
            project,
            other,
            profile,
        ),
{
    let url = document_url(config, project, profile, key)->Ok_0;
    lemma_same_headers(config, before, after, url);
    let headers = request_headers(config, before)->Ok_0;
    match config.layout {
        VaultLayout::SecretSpec => {
            if document_url(config, project, profile, other) == Ok::<Seq<char>, Seq<char>>(url) {
                let prefix = match config.kv_version {
                    KvVersion::V2 => config.endpoint + "/v1/"@ + config.mount + "/data/"@,
                    KvVersion::V1 => config.endpoint + "/v1/"@ + config.mount + "/"@,
                } + ("secretspec/"@ + project + "/"@ + profile + "/"@);
                assert(url =~= prefix + key);
                assert(url =~= prefix + other);
                lemma_same_prefix(prefix, key, other);
            }
            set_leaves_other_documents(config, before, after, url, project, other, profile);
        },
        VaultLayout::Flat => {
            let fields = base_fields(config, before, url, headers)->Ok_0;
            read_gives_back_write(config, fields, key, value, reply);
        },
    }
}

/// A flat document is never overwritten unseen: a write is sent only after the
/// document has been read, or has been found not to exist.
pub proof fn flat_write_follows_a_read(
    config: ConfigView,
    world: World,
    project: Seq<char>,
    key: Seq<char>,
    value: Seq<char>,
    profile: Seq<char>,
)
    requires
        config.layout == VaultLayout::Flat,
        set_request(config, world, project, key, value, profile) is Ok,
    ensures
        ({
            let written = set_request(config, world, project, key, value, profile)->Ok_0;
            let status = (world.status)(read_request(written.url, written.headers));
            ||| status == Ok::<u16, Seq<char>>(404)
            ||| status == Ok::<u16, Seq<char>>(200) && decoded(
                (world.body)(read_request(written.url, written.headers)),
            ) is Ok
        }),
{
}

/// A JWT login without a role is refused before anything is asked for.
pub proof fn jwt_login_needs_a_role(config: ConfigView, goal: GoalView)
    requires
        config.auth == AuthMethod::Jwt,
        config.role is None,
    ensures
        token_step(config, goal) == (StepView::Failed { message: NO_ROLE@ }),
{
}

/// The server's own words reach the user: the message of a refused request ends
/// with the text of the reply.
pub proof fn refusal_ends_with_the_reply(state: TextView, text: Seq<char>)
    ensures
        refusal(state, text).len() >= text.len(),
        refusal(state, text).skip(refusal(state, text).len() - text.len()) == text,
{
    let message = refusal(state, text);
    assert(message.skip(message.len() - text.len()) =~= text);
}

/// The variable that a state waits for.
spec fn variable_name(state: VariableView) -> Seq<char> {
    match state {
        VariableView::Token { .. } => "VAULT_TOKEN"@,
        VariableView::RoleId { .. } => "VAULT_ROLE_ID"@,
        VariableView::SecretId { .. } => "VAULT_SECRET_ID"@,
        VariableView::Jwt { .. } => "VAULT_JWT"@,
        VariableView::JwtPath { .. } => "VAULT_JWT_PATH"@,
        VariableView::OidcUrl { .. } => "ACTIONS_ID_TOKEN_REQUEST_URL"@,
        VariableView::OidcToken { .. } => "ACTIONS_ID_TOKEN_REQUEST_TOKEN"@,
    }
}

/// Whether a step belongs to minting a workload-identity token.
pub open spec fn minting(step: StepView) -> bool {
    match step {
        StepView::ReadVariable { state, .. } => state is OidcUrl || state is OidcToken,
        StepView::Send { state, .. } => state is Oidc,
        StepView::ReadBody { state } => state is Oidc,
        StepView::ReadText { state } => state is Oidc,
        _ => false,
    }
}

/// Whether a step asks for an environment variable.
pub open spec fn asks_for(step: StepView, variable: Seq<char>) -> bool {
    match step {
        StepView::ReadVariable { name, .. } => name == variable,
        _ => false,
    }
}

/// Whether headers are those of a request to the API.
spec fn are_api_headers(config: ConfigView, headers: Map<Seq<char>, Seq<Seq<u8>>>) -> bool {
    exists|token: Seq<char>|
        #[trigger] api_headers(token, config.namespace) == Ok::<
            Map<Seq<char>, Seq<Seq<u8>>>,
            Seq<char>,
        >(headers)
}

/// What holds at every point of a session.
spec fn in_order(config: ConfigView, step: StepView) -> bool {
    &&& minting(step) ==> config.auth == AuthMethod::Jwt && config.jwt_source
        == JwtSource::GithubActions
    &&& match step {
        StepView::ReadVariable { name, state } => name == variable_name(state),
        StepView::Send { request, state } => match state {
            StatusView::Oidc { .. } => request.method == HttpMethod::Get
                && request.extra_headers.len() == 1,
            StatusView::Login { .. } => {
                &&& request.method == HttpMethod::Post
                &&& request.headers == no_headers()
                &&& request.extra_headers == (match config.namespace {
                    Some(namespace) => seq![("X-Vault-Namespace"@, namespace)],
                    None => seq![],
                })
            },
            StatusView::Fetch { .. } => is_read_of(request, request.url) && are_api_headers(
                config,
                request.headers,
            ),
            StatusView::Read { headers, .. } => {
                &&& is_read_of(request, request.url)
                &&& headers == request.headers
                &&& are_api_headers(config, headers)
            },
            StatusView::Write => request.method == HttpMethod::Post && are_api_headers(
                config,
                request.headers,
            ),
        },
        StepView::ReadBody { state: BodyView::Read { headers, .. } } => are_api_headers(
            config,
            headers,
        ),
        _ => true,
    }
}

proof fn lemma_goal_in_order(config: ConfigView, goal: GoalView, token: Seq<char>)
    ensures
        in_order(config, goal_step(config, goal, token)),
{
    match api_headers(token, config.namespace) {
        Ok(headers) => {
            assert(are_api_headers(config, headers));
        },
        Err(_) => {},
    }
}

proof fn lemma_advance_in_order(config: ConfigView, world: World, point: Point)
    requires
        in_order(config, point.step),
    ensures
        in_order(config, advance(config, world, point).step),
{
    let next = advance(config, world, point).step;
    assert forall|goal: GoalView, token: Seq<char>|
        #[trigger] goal_step(config, goal, token) == next implies in_order(config, next) by {
        lemma_goal_in_order(config, goal, token);
    }
}

proof fn lemma_run_in_order(config: ConfigView, world: World, point: Point, n: nat)
    requires
        in_order(config, point.step),
    ensures
        in_order(config, run(config, world, point, n).step),
    decreases n,
{
    if n > 0 {
        lemma_advance_in_order(config, world, point);
        lemma_run_in_order(config, world, advance(config, world, point), (n - 1) as nat);
    }
}

/// The first step of a session: of one that reads a secret where there is no
/// value, else of one that writes it.
pub open spec fn first_step(
    config: ConfigView,
    project: Seq<char>,
    key: Seq<char>,
    value: Option<Seq<char>>,
    profile: Seq<char>,
) -> StepView {
    match value {
        None => get_step(config, project, key, profile),
        Some(value) => set_step(config, project, key, value, profile),
    }
}

/// A workload-identity token is minted on request only: in a configuration that
/// does not name GitHub Actions as the source of the JWT, no step of any session
/// mints one, or asks for the variables that it takes.
pub proof fn minting_is_opt_in(
    config: ConfigView,
    world: World,
    project: Seq<char>,
    key: Seq<char>,
    value: Option<Seq<char>>,
    profile: Seq<char>,
    n: nat,
)
    requires
        config.jwt_source == JwtSource::Environment,
    ensures
        ({
            let step = run(
                config,
                world,
                start(first_step(config, project, key, value, profile)),
                n,
            ).step;
            &&& !minting(step)
            &&& !asks_for(step, "ACTIONS_ID_TOKEN_REQUEST_URL"@)
            &&& !asks_for(step, "ACTIONS_ID_TOKEN_REQUEST_TOKEN"@)
        }),
{
    let first = start(first_step(config, project, key, value, profile));
    lemma_run_in_order(config, world, first, n);
    reveal_strlit("VAULT_TOKEN");
    reveal_strlit("VAULT_ROLE_ID");
    reveal_strlit("VAULT_SECRET_ID");
    reveal_strlit("VAULT_JWT");
    reveal_strlit("VAULT_JWT_PATH");
    reveal_strlit("ACTIONS_ID_TOKEN_REQUEST_URL");
    reveal_strlit("ACTIONS_ID_TOKEN_REQUEST_TOKEN");
    assert("ACTIONS_ID_TOKEN_REQUEST_URL"@[0] == 'A');
    assert("ACTIONS_ID_TOKEN_REQUEST_TOKEN"@[0] == 'A');
    assert forall|state: VariableView|
        !(state is OidcUrl || state is OidcToken) implies #[trigger] variable_name(state)[0]
        == 'V' by {}
}

/// How far a session has come: it never goes back, and each request that it sends
/// takes it further.
spec fn stage(step: StepView) -> nat {
    match step {
        StepView::ReadVariable { .. } => 0,
        StepView::ReadFile { .. } => 0,
        StepView::ReadHomeFile { .. } => 0,
        StepView::Send { state, .. } => match state {
            StatusView::Oidc { .. } => 1,
            StatusView::Login { .. } => 3,
            StatusView::Fetch { .. } => 5,
            StatusView::Read { .. } => 5,
            StatusView::Write => 7,
        },
        StepView::ReadBody { state } => match state {
            BodyView::Oidc { .. } => 2,
            BodyView::Login { .. } => 4,
            BodyView::Fetch { .. } => 6,
            BodyView::Read { .. } => 6,
        },
        _ => 8,
    }
}

proof fn lemma_stages(config: ConfigView, world: World, point: Point, n: nat)
    ensures
        stage(point.step) <= stage(run(config, world, point, n).step),
        point.step is Send && n > 0 ==> stage(point.step) < stage(
            run(config, world, point, n).step,
        ),
    decreases n,
{
    if n > 0 {
        lemma_stages(config, world, advance(config, world, point), (n - 1) as nat);
    }
}

proof fn lemma_run_splits(config: ConfigView, world: World, point: Point, i: nat, j: nat)
    ensures
        run(config, world, point, i + j) == run(config, world, run(config, world, point, i), j),
    decreases i,
{
    if i > 0 {
        lemma_run_splits(config, world, advance(config, world, point), (i - 1) as nat, j);
    }
}

/// A session sends no request twice.
pub proof fn no_request_is_sent_twice(
    config: ConfigView,
    world: World,
    project: Seq<char>,
    key: Seq<char>,
    value: Option<Seq<char>>,
    profile: Seq<char>,
    i: nat,
    j: nat,
)
    requires
        i < j,
    ensures
        ({
            let first = start(first_step(config, project, key, value, profile));
            match (run(config, world, first, i).step, run(config, world, first, j).step) {
                (StepView::Send { request, .. }, StepView::Send { request: later, .. }) => request
                    != later,
                _ => true,
            }
        }),
{
    let first = start(first_step(config, project, key, value, profile));
    lemma_run_in_order(config, world, first, i);
    lemma_run_in_order(config, world, first, j);
    lemma_run_splits(config, world, first, i, (j - i) as nat);
    lemma_stages(config, world, run(config, world, first, i), (j - i) as nat);
    assert forall|headers: Map<Seq<char>, Seq<Seq<u8>>>| #[trigger]
        are_api_headers(config, headers) implies headers != no_headers() by {
        assert(headers.contains_key(header_name("X-Vault-Token"@)));
    }
}

/// Whether a request hands a header with a text over, to be checked or already
/// checked.
pub open spec fn carries(request: RequestView, name: Seq<char>, text: Seq<char>) -> bool {
    ||| request.extra_headers.contains((name, text))
    ||| request.headers.contains_key(header_name(name)) && request.headers[header_name(name)]
        == seq![encode_utf8(text)]
}

/// Every request that a session sends to the server names the configured
/// namespace, and each but the login carries a token.
pub proof fn requests_name_the_namespace(
    config: ConfigView,
    world: World,
    project: Seq<char>,
    key: Seq<char>,
    value: Option<Seq<char>>,
    profile: Seq<char>,
    n: nat,
)
    ensures
        match run(
            config,
            world,
            start(first_step(config, project, key, value, profile)),
            n,
        ).step {
            StepView::Send { request, state } => {
                &&& config.namespace is Some && !(state is Oidc) ==> carries(
                    request,
                    "X-Vault-Namespace"@,
                    config.namespace->0,
                )
                &&& !(state is Oidc) && !(state is Login) ==> exists|token: Seq<char>|
                    #[trigger] carries(request, "X-Vault-Token"@, token)
            },
            _ => true,
        },
{
    let first = start(first_step(config, project, key, value, profile));
    lemma_run_in_order(config, world, first, n);
    match run(config, world, first, n).step {
        StepView::Send { request, state } => {
            if state is Login {
                if config.namespace is Some {
                    assert(request.extra_headers[0] == ("X-Vault-Namespace"@, config.namespace->0));
                }
            } else if !(state is Oidc) {
                let token = choose|token: Seq<char>|
                    #[trigger] api_headers(token, config.namespace) == Ok::<
                        Map<Seq<char>, Seq<Seq<u8>>>,
                        Seq<char>,
                    >(request.headers);
                reveal_strlit("X-Vault-Token");
                reveal_strlit("X-Vault-Namespace");
                assert(header_name("X-Vault-Token"@).len() != header_name(
                    "X-Vault-Namespace"@,
                ).len());
                assert(carries(request, "X-Vault-Token"@, token));
            }
        },
        _ => {},
    }
}

/// The goal of a session that waits for a variable.
spec fn variable_goal(state: VariableView) -> GoalView {
    match state {
        VariableView::Token { goal } => goal,
        VariableView::RoleId { goal } => goal,
        VariableView::SecretId { goal, .. } => goal,
        VariableView::Jwt { goal, .. } => goal,
        VariableView::JwtPath { goal, .. } => goal,
        VariableView::OidcUrl { goal, .. } => goal,
        VariableView::OidcToken { goal, .. } => goal,
    }
}

/// Whether a goal is to read the document at `url`, or else to write it.
spec fn is_goal(goal: GoalView, url: Seq<char>, reading: bool) -> bool {
    match goal {
        GoalView::Fetch { url: own, .. } => reading && own == url,
        GoalView::Store { url: own, .. } => !reading && own == url,
    }
}

/// What holds at every point of a session that reads the document at `url`, or
/// else writes it.
spec fn on_course(config: ConfigView, url: Seq<char>, reading: bool, step: StepView) -> bool {
    match step {
        StepView::ReadVariable { state, .. } => is_goal(variable_goal(state), url, reading),
        StepView::ReadFile { state, .. } => is_goal(state.goal, url, reading),
        StepView::ReadHomeFile { state, .. } => is_goal(state.goal, url, reading),
        StepView::Send { request, state } => match state {
            StatusView::Oidc { goal, .. } => is_goal(goal, url, reading) && request.method
                == HttpMethod::Get,
            StatusView::Login { goal, method, .. } => is_goal(goal, url, reading) && request.url
                == login_url(config, method_mount(method)),
            StatusView::Fetch { .. } => reading && request.url == url && request.method
                == HttpMethod::Get,
            StatusView::Read { url: own, .. } => !reading && own == url && request.url == url,
            StatusView::Write => !reading && request.url == url,
        },
        StepView::ReadBody { state } => match state {
            BodyView::Oidc { goal, .. } => is_goal(goal, url, reading),
            BodyView::Login { goal, .. } => is_goal(goal, url, reading),
            BodyView::Fetch { .. } => reading,
            BodyView::Read { url: own, .. } => !reading && own == url,
        },
        StepView::ReadText { .. } => true,
        StepView::Found { .. } => reading,
        StepView::Written => !reading,
        StepView::Failed { .. } => true,
    }
}

proof fn lemma_run_on_course(
    config: ConfigView,
    world: World,
    url: Seq<char>,
    reading: bool,
    point: Point,
    n: nat,
)
    requires
        on_course(config, url, reading, point.step),
    ensures
        on_course(config, url, reading, run(config, world, point, n).step),
    decreases n,
{
    if n > 0 {
        lemma_run_on_course(
            config,
            world,
            url,
            reading,
            advance(config, world, point),
            (n - 1) as nat,
        );
    }
}

/// Reading a secret changes nothing on the server: a session that reads sends no
/// write, and posts nothing but credentials to log in with.
pub proof fn reading_sends_no_write(
    config: ConfigView,
    world: World,
    project: Seq<char>,
    key: Seq<char>,
    profile: Seq<char>,
    n: nat,
)
    ensures
        ({
            let step = run(config, world, start(get_step(config, project, key, profile)), n).step;
            &&& !(step is Written)
            &&& step matches StepView::Send { request, state } ==> {
                &&& !(state is Read) && !(state is Write)
                &&& request.method == HttpMethod::Post ==> state is Login
            }
        }),
{
    let first = get_step(config, project, key, profile);
    let url = document_url(config, project, profile, key)->Ok_0;
    lemma_run_on_course(config, world, url, true, start(first), n);
}

/// Every request of a session goes to the configured server, and there to the
/// document of the key or to the login. The one exception is the request that
/// mints a workload-identity token.
pub proof fn requests_go_to_the_configured_server(
    config: ConfigView,
    world: World,
    project: Seq<char>,
    key: Seq<char>,
    value: Option<Seq<char>>,
    profile: Seq<char>,
    n: nat,
)
    ensures
        run(config, world, start(first_step(config, project, key, value, profile)), n).step matches
            StepView::Send { request, state } ==> {
            &&& state matches StatusView::Login { method, .. } ==> request.url == login_url(
                config,
                method_mount(method),
            )
            &&& !(state is Oidc) && !(state is Login) ==> document_url(config, project, profile, key)
                == Ok::<Seq<char>, Seq<char>>(request.url)
            &&& !(state is Oidc) ==> config.endpoint.is_prefix_of(request.url)
        },
{
    let first = first_step(config, project, key, value, profile);
    match document_url(config, project, profile, key) {
        Ok(url) => {
            lemma_run_on_course(config, world, url, value is None, start(first), n);
            match run(config, world, start(first), n).step {
                StepView::Send { request, state } => {
                    if !(state is Oidc) {
                        assert(config.endpoint =~= request.url.subrange(
                            0,
                            config.endpoint.len() as int,
                        ));
                    }
                },
                _ => {},
            }
        },
        Err(_) => {
            lemma_finished(config, world, start(first), n);
        },
    }
}

/// What the URI gives, the environment does not change: with a host, a user name
/// and a role in the URI, the configuration is the same in every environment.
pub proof fn uri_wins_over_environment(url: UrlView, env: EnvironmentView, other: EnvironmentView)
    requires
        nonempty(url.host) is Some,
        url.username.len() > 0,
        nonempty(lookup(url.query, "role"@)) is Some,
    ensures
        config_of(url, env) == config_of(url, other),
{
}

/// The server that the URI names is spoken to over TLS, unless the URI switches
/// it off.
pub proof fn tls_unless_switched_off(url: UrlView, env: EnvironmentView)
    requires
        nonempty(url.host) is Some,
    ensures
        endpoint_of(url, env) is Some,
        tls_enabled(url) ==> "https://"@.is_prefix_of(endpoint_of(url, env)->0),
        !tls_enabled(url) ==> "http://"@.is_prefix_of(endpoint_of(url, env)->0),
        lookup(url.query, "tls"@) is None ==> tls_enabled(url),
{
    reveal_strlit("https");
    reveal_strlit("http");
    reveal_strlit("://");
    reveal_strlit("https://");
    reveal_strlit("http://");
    let endpoint = endpoint_of(url, env)->0;
    if tls_enabled(url) {
        assert("https://"@ =~= endpoint.subrange(0, 8));
    } else {
        assert("http://"@ =~= endpoint.subrange(0, 7));
    }
}

/// A URI that gives nothing but the server leaves the default configuration, but
/// for the address.
pub proof fn bare_uri_gives_the_defaults(url: UrlView, env: EnvironmentView)
    requires
        scheme_accepted(url.scheme),
        nonempty(url.host) is Some,
        url.username.len() == 0,
        segments(url.path).len() == 0,
        url.query.len() == 0,
        nonempty(env.namespace) is None,
        nonempty(env.role) is None,
    ensures
        config_of(url, env) == Ok::<ConfigView, Seq<char>>(
            ConfigView { endpoint: endpoint_of(url, env)->0, ..default_config() },
        ),
{
    assert forall|key: Seq<char>| #[trigger] lookup(url.query, key) is None by {}
}

/// The source of the JWT is GitHub Actions only where the URI says so.
pub proof fn github_actions_is_named_by_the_uri(
    url: UrlView,
    env: EnvironmentView,
    config: ConfigView,
)
    requires
        config_of(url, env) == Ok::<ConfigView, Seq<char>>(config),
        config.jwt_source == JwtSource::GithubActions,
    ensures
        lookup(url.query, "jwt"@) == Some("github-actions"@) || lookup(url.query, "jwt"@) == Some(
            "github"@,
        ),
{
}

/// The two schemes mean the same.
pub proof fn openbao_is_configured_like_vault(url: UrlView, env: EnvironmentView)
    ensures
        config_of(UrlView { scheme: "openbao"@, ..url }, env) == config_of(
            UrlView { scheme: "vault"@, ..url },
            env,
        ),
{
}

/// In the flat layout, a path behind the mount is the document, for every
/// project and profile.
pub proof fn configured_document_is_used(
    config: ConfigView,
    project: Seq<char>,
    profile: Seq<char>,
    key: Seq<char>,
)
    requires
        config.layout == VaultLayout::Flat,
        config.path is Some,
    ensures
        document_url(config, project, profile, key) == Ok::<Seq<char>, Seq<char>>(
            api_url(config, config.path->0),
        ),
{
}

/// Whether a text is a segment of a path.
pub open spec fn is_segment(text: Seq<char>) -> bool {
    0 < text.len() && slash_free(text)
}

pub(crate) proof fn lemma_segments_are_segments(text: Seq<char>)
    ensures
        forall|i: int| 0 <= i < segments(text).len() ==> is_segment(#[trigger] segments(text)[i]),
    decreases text.len(),
{
    lemma_behind_last_slash(text);
    let slash = last_slash(text);
    let piece = text.skip(slash + 1);
    let before = if 0 <= slash < text.len() {
        segments(text.take(slash))
    } else {
        seq![]
    };
    if 0 <= slash {
        lemma_segments_are_segments(text.take(slash));
    }
    assert(slash_free(piece)) by {
        assert forall|i: int| 0 <= i < piece.len() implies piece[i] != '/' by {
            assert(piece[i] == text[slash + 1 + i]);
        }
    }
    assert forall|i: int| 0 <= i < segments(text).len() implies is_segment(
        #[trigger] segments(text)[i],
    ) by {
        if i < before.len() {
            assert(segments(text)[i] == before[i]);
        } else {
            assert(segments(text)[i] == piece);
        }
    }
}

proof fn lemma_push_segment(text: Seq<char>, segment: Seq<char>)
    requires
        is_segment(segment),
    ensures
        segments(text + "/"@ + segment) == segments(text).push(segment),
{
    reveal_strlit("/");
    let longer = text + "/"@ + segment;
    let begin: int = text.len() as int + 1;
    lemma_segments(longer, begin, longer.len() as int);
    assert(longer.subrange(begin, longer.len() as int) =~= segment);
    assert(longer.take(text.len() as int) =~= text);
    assert(longer.take(longer.len() as int) =~= longer);
}

proof fn lemma_joined_segments(parts: Seq<Seq<char>>)
    requires
        parts.len() > 0,
        forall|i: int| 0 <= i < parts.len() ==> is_segment(#[trigger] parts[i]),
    ensures
        segments("/"@ + joined(parts, "/"@)) == parts,
        joined(parts, "/"@).len() > 0,
    decreases parts.len(),
{
    let last = parts.last();
    let text = "/"@ + joined(parts, "/"@);
    assert(is_segment(last));
    if parts.len() == 1 {
        let none = Seq::<char>::empty();
        assert(segments(none) == Seq::<Seq<char>>::empty()) by {
            assert(none.skip(0).len() == 0);
        }
        assert(text =~= none + "/"@ + last);
        lemma_push_segment(none, last);
        assert(parts =~= Seq::<Seq<char>>::empty().push(last));
    } else {
        let front = parts.drop_last();
        assert forall|i: int| 0 <= i < front.len() implies is_segment(#[trigger] front[i]) by {
            assert(front[i] == parts[i]);
        }
        lemma_joined_segments(front);
        let before = "/"@ + joined(front, "/"@);
        assert(text =~= before + "/"@ + last);
        lemma_push_segment(before, last);
        assert(parts =~= front.push(last));
    }
}

proof fn lemma_join_first(parts: Seq<Seq<char>>)
    requires
        parts.len() > 1,
    ensures
        joined(parts, "/"@) == parts[0] + "/"@ + joined(parts.skip(1), "/"@),
    decreases parts.len(),
{
    let whole = joined(parts, "/"@);
    let rest = parts.skip(1);
    if parts.len() == 2 {
        assert(joined(parts.drop_last(), "/"@) == parts[0]);
        assert(joined(rest, "/"@) == parts[1]);
    } else {
        lemma_join_first(parts.drop_last());
        assert(parts.drop_last().skip(1) =~= rest.drop_last());
        assert(whole =~= parts[0] + "/"@ + (joined(rest.drop_last(), "/"@) + "/"@
            + parts.last()));
        assert(rest.last() == parts.last());
        assert(joined(rest, "/"@) == joined(rest.drop_last(), "/"@) + "/"@ + rest.last());
    }
}

proof fn lemma_uri_parameters(config: ConfigView)
    ensures
        lookup(uri_parameters(config), "layout"@) == (if config.layout == VaultLayout::Flat {
            Some("flat"@)
        } else {
            None
        }),
        lookup(uri_parameters(config), "kv"@) == (if config.kv_version == KvVersion::V1 {
            Some("1"@)
        } else {
            None
        }),
        lookup(uri_parameters(config), "auth"@) == (if config.auth == AuthMethod::AppRole {
            Some("approle"@)
        } else {
            None
        }),
        lookup(uri_parameters(config), "jwt"@) is None,
        lookup(uri_parameters(config), "tls"@) is None,
        "flat"@ != "secretspec"@ && "flat"@ != "default"@,
        forall|i: int|
            0 <= i < uri_parameters(config).len() ==> is_word(
                #[trigger] uri_parameters(config)[i].0,
            ) && is_word(uri_parameters(config)[i].1),
{
    reveal_strlit("layout");
    reveal_strlit("kv");
    reveal_strlit("auth");
    reveal_strlit("jwt");
    reveal_strlit("tls");
    reveal_strlit("flat");
    reveal_strlit("1");
    reveal_strlit("approle");
    reveal_strlit("secretspec");
    reveal_strlit("default");
    assert("layout"@.len() == 6);
    assert("kv"@.len() == 2);
    assert("auth"@.len() == 4);
    assert("jwt"@.len() == 3);
    assert("tls"@.len() == 3);
    assert("flat"@.len() == 4);
    assert("secretspec"@.len() == 10);
    assert("default"@.len() == 7);
    reveal_with_fuel(lookup, 4);
}

/// Whether a path is made of segments, with a slash between each two of them.
pub open spec fn is_document_path(path: Seq<char>) -> bool {
    exists|parts: Seq<Seq<char>>| #[trigger]
        joined(parts, "/"@) == path && 0 < parts.len() && forall|i: int|
            0 <= i < parts.len() ==> is_segment(#[trigger] parts[i])
}

/// Whether a configuration names a place in the engine: the mount is one segment,
/// and so is each part of the path, where there is one.
pub open spec fn names_a_place(config: ConfigView) -> bool {
    &&& is_segment(config.mount)
    &&& config.path is Some ==> is_document_path(config.path->0)
}

/// Every configuration that a URI gives names a place in the engine.
pub proof fn configured_place_is_made_of_segments(
    url: UrlView,
    env: EnvironmentView,
    config: ConfigView,
)
    requires
        config_of(url, env) == Ok::<ConfigView, Seq<char>>(config),
    ensures
        names_a_place(config),
{
    reveal_strlit("secret");
    let parts = segments(url.path);
    lemma_segments_are_segments(url.path);
    if parts.len() > 0 {
        assert(is_segment(parts[0]));
        let rest = parts.skip(1);
        assert forall|i: int| 0 <= i < rest.len() implies is_segment(#[trigger] rest[i]) by {
            assert(rest[i] == parts[i + 1]);
        }
        if config.path is Some {
            assert(joined(rest, "/"@) == config.path->0);
        }
    }
}

proof fn lemma_uri_path(config: ConfigView, again: UrlView)
    requires
        names_a_place(config),
        again.path == uri_path(config),
    ensures
        mount_of(again) == config.mount,
        path_of(again) == config.path,
{
    let mount = seq![config.mount];
    match config.path {
        None => {
            if config.mount == "secret"@ {
                assert(segments(again.path) =~= seq![]);
            } else {
                lemma_joined_segments(mount);
                assert(joined(mount, "/"@) == config.mount);
                assert(mount.skip(1) =~= seq![]);
            }
        },
        Some(path) => {
            let parts = choose|parts: Seq<Seq<char>>| #[trigger]
                joined(parts, "/"@) == path && 0 < parts.len() && forall|i: int|
                    0 <= i < parts.len() ==> is_segment(#[trigger] parts[i]);
            let all = mount + parts;
            assert forall|i: int| 0 <= i < all.len() implies is_segment(#[trigger] all[i]) by {
                if i > 0 {
                    assert(all[i] == parts[i - 1]);
                }
            }
            lemma_joined_segments(parts);
            lemma_joined_segments(all);
            lemma_join_first(all);
            assert(all.skip(1) =~= parts);
            assert(again.path =~= "/"@ + joined(all, "/"@));
        },
    }
}

/// The provider's own URI stands for the same store: taken apart again, it gives
/// the mount, the path, the engine version and the layout of the configuration,
/// the authentication method unless that is a JWT login, and the address if that
/// is the host and port of the URI, spoken to over TLS.
pub proof fn uri_stands_for_the_same_store(
    config: ConfigView,
    again: UrlView,
    env: EnvironmentView,
)
    requires
        names_a_place(config),
        again.path == uri_path(config),
        again.query == uri_parameters(config),
    ensures
        mount_of(again) == config.mount,
        path_of(again) == config.path,
        kv_version_of(again) == config.kv_version,
        layout_of(again) == Ok::<VaultLayout, Seq<char>>(config.layout),
        config.auth != AuthMethod::Jwt ==> auth_of(again) == Ok::<AuthMethod, Seq<char>>(
            config.auth,
        ),
        nonempty(again.host) is Some && config.endpoint == "https://"@ + authority(
            again.host->0,
            again.port,
        ) ==> endpoint_of(again, env) == Some(config.endpoint),
{
    lemma_uri_parameters(config);
    lemma_uri_path(config, again);
    reveal_strlit("https");
    reveal_strlit("://");
    reveal_strlit("https://");
    assert("https"@ + "://"@ =~= "https://"@);
    match (nonempty(again.host), again.port) {
        (Some(host), Some(port)) => {
            assert("https"@ + "://"@ + host + ":"@ + decimal(port as nat) =~= "https://"@
                + authority(host, again.port));
        },
        (Some(host), None) => {
            assert("https"@ + "://"@ + host =~= "https://"@ + authority(host, again.port));
        },
        _ => {},
    }
}

proof fn lemma_decimal_is_slash_free(n: nat)
    ensures
        slash_free(decimal(n)),
    decreases n,
{
    if n >= 10 {
        lemma_decimal_is_slash_free(n / 10);
    }
}

proof fn lemma_no_web_scheme(text: Seq<char>)
    requires
        slash_free(text),
    ensures
        without_prefixes(without_prefixes("https://"@ + text, "https://"@), "http://"@) == text,
{
    reveal_strlit("https://");
    reveal_strlit("http://");
    let whole = "https://"@ + text;
    assert("https://"@ =~= whole.subrange(0, 8));
    assert("https://"@.is_prefix_of(whole));
    assert(whole.skip(8) =~= text);
    assert("https://"@[6] == '/');
    assert("http://"@[5] == '/');
    if "https://"@.is_prefix_of(text) {
        assert(text.subrange(0, 8)[6] == text[6]);
    }
    if "http://"@.is_prefix_of(text) {
        assert(text.subrange(0, 7)[5] == text[5]);
    }
    assert(without_prefixes(text, "https://"@) == text);
}

/// The URL that the provider's own URI is the text of.
spec fn own_url(config: ConfigView, host: Seq<char>, port: Option<u16>) -> UrlView {
    UrlView {
        scheme: "vault"@,
        username: seq![],
        host: Some(host),
        port,
        path: uri_path(config),
        query: uri_parameters(config),
    }
}

proof fn lemma_own_url(config: ConfigView, host: Seq<char>, port: Option<u16>)
    requires
        is_plain_host(host),
        config.endpoint == "https://"@ + authority(host, port),
        is_word(config.mount),
        config.path is Some ==> is_plain_path("/"@ + config.path->0),
    ensures
        is_plain(own_url(config, host, port)),
        plain_text(own_url(config, host, port)) == uri_of(config),
{
    let url = own_url(config, host, port);
    reveal_strlit("/");
    reveal_strlit(":");
    reveal_strlit("vault");
    reveal_strlit("://");
    reveal_strlit("vault://");
    lemma_uri_parameters(config);
    match config.path {
        Some(path) => {
            let behind = "/"@ + path;
            assert(url.path =~= "/"@ + config.mount + behind);
        },
        None => {},
    }
    assert(is_plain_path(url.path));
    match port {
        Some(port) => {
            lemma_decimal_is_slash_free(port as nat);
        },
        None => {},
    }
    assert(slash_free(authority(host, port)));
    lemma_no_web_scheme(authority(host, port));
    assert("vault"@ + "://"@ =~= "vault://"@);
}

/// The provider's own URI gives the configuration back: the text of the URI is
/// taken apart without fault, whatever the environment, into one with the same
/// address, mount, path, engine version and layout, and with the same
/// authentication method unless that is a JWT login. This holds where the address
/// is a plain host, with or without a port, that is spoken to over TLS, and where
/// mount and path are made of letters, digits, hyphens and underscores.
pub proof fn uri_gives_the_configuration_back(
    config: ConfigView,
    host: Seq<char>,
    port: Option<u16>,
    parsed: Result<UrlView, Seq<char>>,
    env: EnvironmentView,
)
    requires
        is_plain_host(host),
        config.endpoint == "https://"@ + authority(host, port),
        is_word(config.mount),
        config.path is Some ==> is_document_path(config.path->0) && is_plain_path(
            "/"@ + config.path->0,
        ),
        uri_of(config).len() <= 0x7fff_ffff,
        taken_apart(uri_of(config), parsed),
    ensures
        parsed is Ok,
        config_of(parsed->Ok_0, env) is Ok,
        ({
            let again = config_of(parsed->Ok_0, env)->Ok_0;
            &&& again.endpoint == config.endpoint
            &&& again.mount == config.mount
            &&& again.path == config.path
            &&& again.kv_version == config.kv_version
            &&& again.layout == config.layout
            &&& config.auth != AuthMethod::Jwt ==> again.auth == config.auth
        }),
{
    let url = own_url(config, host, port);
    lemma_own_url(config, host, port);
    assert(parsed == Ok::<UrlView, Seq<char>>(url));
    assert(names_a_place(config));
    lemma_uri_parameters(config);
    uri_stands_for_the_same_store(config, url, env);
}

/// Whether a text is a run of slashes.
pub open spec fn is_slashes(text: Seq<char>) -> bool {
    forall|i: int| 0 <= i < text.len() ==> text[i] == '/'
}

proof fn lemma_trailing_slash(text: Seq<char>)
    ensures
        without_outer_slashes(text.push('/')) == without_outer_slashes(text),
    decreases text.len(),
{
    let longer = text.push('/');
    if text.len() == 0 {
        assert(longer.drop_first() =~= text);
    } else if text.first() == '/' {
        assert(longer.drop_first() =~= text.drop_first().push('/'));
        lemma_trailing_slash(text.drop_first());
    } else {
        assert(longer.drop_last() =~= text);
    }
}

proof fn lemma_outer_slashes(front: Seq<char>, text: Seq<char>, back: Seq<char>)
    requires
        is_slashes(front),
        is_slashes(back),
    ensures
        without_outer_slashes(front + text + back) == without_outer_slashes(text),
    decreases front.len() + back.len(),
{
    let whole = front + text + back;
    if back.len() > 0 {
        let shorter = front + text + back.drop_last();
        assert(whole =~= shorter.push('/'));
        lemma_trailing_slash(shorter);
        lemma_outer_slashes(front, text, back.drop_last());
    } else if front.len() > 0 {
        assert(whole.drop_first() =~= front.drop_first() + text + back);
        lemma_outer_slashes(front.drop_first(), text, back);
    } else {
        assert(whole =~= text);
    }
}

/// Slashes around the auth mount make no difference, however many there are, be
/// it the configured mount or the default one.
pub proof fn auth_mount_may_have_outer_slashes(
    config: ConfigView,
    front: Seq<char>,
    mount: Seq<char>,
    back: Seq<char>,
    default_mount: Seq<char>,
)
    requires
        is_slashes(front),
        is_slashes(back),
    ensures
        login_url(
            ConfigView { auth_mount: Some(front + mount + back), ..config },
            default_mount,
        ) == login_url(ConfigView { auth_mount: Some(mount), ..config }, default_mount),
        login_url(config, front + default_mount + back) == login_url(config, default_mount),
{
    lemma_outer_slashes(front, mount, back);
    lemma_outer_slashes(front, default_mount, back);
}

} // verus!
