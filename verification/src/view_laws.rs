//! What holds of the views: each of them keeps all that a value holds.
use vstd::prelude::*;

use crate::config::{Environment, VaultConfig};
use crate::error::SecretSpecError;
use crate::http::{header_values, HttpRequest};
use crate::json::json_view;
use crate::provider_url::ProviderUrl;
use crate::step::{
    BodyState, BodyView, FileState, Goal, GoalView, HomeFileState, StatusState, StatusView, Step,
    StepView, TextState, TextView, VariableState, VariableView,
};

verus! {

/// Whether the view of an optional string is that of the string.
pub open spec fn same_option(view: Option<Seq<char>>, text: Option<String>) -> bool {
    &&& view is None <==> text is None
    &&& text is Some ==> view->0 == text->0@
}

/// Whether the view of a list of pairs has all of them, in order.
pub open spec fn same_pairs(
    view: Seq<(Seq<char>, Seq<char>)>,
    pairs: Seq<(String, String)>,
) -> bool {
    &&& view.len() == pairs.len()
    &&& forall|i: int|
        0 <= i < pairs.len() ==> (#[trigger] view[i]).0 == pairs[i].0@ && view[i].1 == pairs[i].1@
}

/// The view of a configuration has each of its settings.
pub proof fn configuration_is_kept(config: VaultConfig)
    ensures
        config@.endpoint == config.endpoint@,
        config@.mount == config.mount@,
        same_option(config@.path, config.path),
        config@.kv_version == config.kv_version,
        same_option(config@.namespace, config.namespace),
        config@.auth == config.auth,
        same_option(config@.auth_mount, config.auth_mount),
        same_option(config@.role, config.role),
        same_option(config@.audience, config.audience),
        config@.jwt_source == config.jwt_source,
        config@.layout == config.layout,
{
}

/// The view of an environment has each of its variables.
pub proof fn environment_is_kept(env: Environment)
    ensures
        same_option(env@.address, env.address),
        same_option(env@.namespace, env.namespace),
        same_option(env@.role, env.role),
{
}

/// The view of a URI has each of its parts.
pub proof fn uri_is_kept(url: ProviderUrl)
    ensures
        url@.scheme == url.scheme@,
        url@.username == url.username@,
        same_option(url@.host, url.host),
        url@.port == url.port,
        url@.path == url.path@,
        same_pairs(url@.query, url.query@),
{
}

/// The view of a request has all that is sent.
pub proof fn request_is_kept(request: HttpRequest)
    ensures
        request@.method == request.method,
        request@.url == request.url@,
        request@.headers == header_values(request.headers),
        same_pairs(request@.extra_headers, request.extra_headers@),
        same_pairs(request@.query, request.query@),
        request@.body is None <==> request.body is None,
        request.body is Some ==> request@.body->0 == json_view(request.body->0),
{
}

/// The view of an error is its message.
pub proof fn error_is_kept(message: String)
    ensures
        SecretSpecError::ProviderOperationFailed(message)@ == message@,
{
}

/// The view of a goal has all that it takes.
pub proof fn goal_is_kept(goal: Goal)
    ensures
        match (goal, goal@) {
            (Goal::Fetch { url, key }, GoalView::Fetch { url: u, key: k }) => url@ == u && key@ == k,
            (Goal::Store { url, key, value }, GoalView::Store { url: u, key: k, value: v }) => url@
                == u && key@ == k && value@ == v,
            _ => false,
        },
{
}

/// The views of the states that wait for a variable or a file have all that is
/// known so far.
pub proof fn waiting_is_kept(state: VariableState, file: FileState, home: HomeFileState)
    ensures
        match (state, state@) {
            (VariableState::Token { goal }, VariableView::Token { goal: g }) => goal@ == g,
            (VariableState::RoleId { goal }, VariableView::RoleId { goal: g }) => goal@ == g,
            (
                VariableState::SecretId { goal, role_id },
                VariableView::SecretId { goal: g, role_id: r },
            ) => goal@ == g && role_id@ == r,
            (VariableState::Jwt { goal, role }, VariableView::Jwt { goal: g, role: r }) => goal@ == g
                && role@ == r,
            (VariableState::JwtPath { goal, role }, VariableView::JwtPath { goal: g, role: r }) =>
                goal@ == g && role@ == r,
            (VariableState::OidcUrl { goal, role }, VariableView::OidcUrl { goal: g, role: r }) =>
                goal@ == g && role@ == r,
            (
                VariableState::OidcToken { goal, role, url },
                VariableView::OidcToken { goal: g, role: r, url: u },
            ) => goal@ == g && role@ == r && url@ == u,
            _ => false,
        },
        file@.goal == file.goal@,
        file@.role == file.role@,
        file@.path == file.path@,
        home@.goal == home.goal@,
{
}

/// The views of the states that wait for a reply have all that is known so far.
pub proof fn expecting_is_kept(status: StatusState, body: BodyState, text: TextState)
    ensures
        match (status, status@) {
            (StatusState::Oidc { goal, role }, StatusView::Oidc { goal: g, role: r }) => goal@ == g
                && role@ == r,
            (
                StatusState::Login { goal, method, url },
                StatusView::Login { goal: g, method: m, url: u },
            ) => goal@ == g && method == m && url@ == u,
            (StatusState::Fetch { key }, StatusView::Fetch { key: k }) => key@ == k,
            (
                StatusState::Read { url, key, value, headers },
                StatusView::Read { url: u, key: k, value: v, headers: h },
            ) => url@ == u && key@ == k && value@ == v && header_values(headers) == h,
            (StatusState::Write, StatusView::Write) => true,
            _ => false,
        },
        match (body, body@) {
            (BodyState::Oidc { goal, role }, BodyView::Oidc { goal: g, role: r }) => goal@ == g
                && role@ == r,
            (BodyState::Login { goal, method }, BodyView::Login { goal: g, method: m }) => goal@
                == g && method == m,
            (BodyState::Fetch { key }, BodyView::Fetch { key: k }) => key@ == k,
            (
                BodyState::Read { url, key, value, headers },
                BodyView::Read { url: u, key: k, value: v, headers: h },
            ) => url@ == u && key@ == k && value@ == v && header_values(headers) == h,
            _ => false,
        },
        match (text, text@) {
            (TextState::Oidc { status }, TextView::Oidc { status: s }) => status@ == s,
            (
                TextState::Login { method, url, status },
                TextView::Login { method: m, url: u, status: s },
            ) => method == m && url@ == u && status@ == s,
            (TextState::Fetch { status }, TextView::Fetch { status: s }) => status == s,
            (TextState::Read { status }, TextView::Read { status: s }) => status == s,
            (TextState::Write { status }, TextView::Write { status: s }) => status == s,
            _ => false,
        },
{
}

/// The view of a step has all that is to be done.
pub proof fn step_is_kept(step: Step)
    ensures
        match (step, step@) {
            (Step::ReadVariable { name, state }, StepView::ReadVariable { name: n, state: s }) =>
                name@ == n && state@ == s,
            (Step::ReadFile { path, state }, StepView::ReadFile { path: p, state: s }) => path@ == p
                && state@ == s,
            (
                Step::ReadHomeFile { home, fallback, name, state },
                StepView::ReadHomeFile { home: h, fallback: f, name: n, state: s },
            ) => home@ == h && fallback@ == f && name@ == n && state@ == s,
            (Step::Send { request, state }, StepView::Send { request: r, state: s }) => request@
                == r && state@ == s,
            (Step::ReadBody { state }, StepView::ReadBody { state: s }) => state@ == s,
            (Step::ReadText { state }, StepView::ReadText { state: s }) => state@ == s,
            (Step::Found { secret }, StepView::Found { secret: s }) => match (secret, s) {
                (Some(secret), Some(text)) => secret@ == text,
                (None, None) => true,
                _ => false,
            },
            (Step::Written, StepView::Written) => true,
            (Step::Failed { error }, StepView::Failed { message }) => error@ == message,
            _ => false,
        },
{
}

} // verus!
