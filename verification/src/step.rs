//! The steps of reading or writing a secret.
//!
//! What needs the outside world is not done here but asked for: a step names
//! the one thing that is to be done next, and holds the state in which the
//! answer is to be handed back.
use reqwest::header::{HeaderMap, HeaderValue};
use vstd::prelude::*;

use crate::error::SecretSpecError;
use crate::http::{header_values, HttpRequest, RequestView};
use crate::provider::opt_secret_view;
use crate::secret::Secret;

verus! {

/// What is to be done once there is a token.
#[allow(inconsistent_fields)]
pub enum Goal {
    /// Read the secret of a key.
    Fetch { url: String, key: String },
    /// Write the secret of a key.
    Store { url: String, key: String, value: Secret },
}

/// The authentication methods that log in with credentials.
#[derive(Debug, Clone, Copy, PartialEq, Eq, Structural)]
pub enum LoginMethod {
    AppRole,
    Jwt,
}

/// Waiting for the value of an environment variable.
#[allow(inconsistent_fields)]
pub enum VariableState {
    /// `VAULT_TOKEN`.
    Token { goal: Goal },
    /// `VAULT_ROLE_ID`.
    RoleId { goal: Goal },
    /// `VAULT_SECRET_ID`.
    SecretId { goal: Goal, role_id: String },
    /// `VAULT_JWT`.
    Jwt { goal: Goal, role: String },
    /// `VAULT_JWT_PATH`.
    JwtPath { goal: Goal, role: String },
    /// `ACTIONS_ID_TOKEN_REQUEST_URL`.
    OidcUrl { goal: Goal, role: String },
    /// `ACTIONS_ID_TOKEN_REQUEST_TOKEN`.
    OidcToken { goal: Goal, role: String, url: String },
}

/// Waiting for the contents of the file that holds the JWT.
pub struct FileState {
    pub goal: Goal,
    pub role: String,
    pub path: String,
}

/// Waiting for the contents of the token file in the home directory.
pub struct HomeFileState {
    pub goal: Goal,
}

/// Waiting for the status of the reply to a request.
#[allow(inconsistent_fields)]
pub enum StatusState {
    /// Minting a workload-identity token.
    Oidc { goal: Goal, role: String },
    /// Logging in.
    Login { goal: Goal, method: LoginMethod, url: String },
    /// Reading a secret.
    Fetch { key: String },
    /// Reading a flat document before it is written.
    Read { url: String, key: String, value: Secret, headers: HeaderMap<HeaderValue> },
    /// Writing a secret.
    Write,
}

/// Waiting for the body of a reply that reported success.
#[allow(inconsistent_fields)]
pub enum BodyState {
    /// Minting a workload-identity token.
    Oidc { goal: Goal, role: String },
    /// Logging in.
    Login { goal: Goal, method: LoginMethod },
    /// Reading a secret.
    Fetch { key: String },
    /// Reading a flat document before it is written.
    Read { url: String, key: String, value: Secret, headers: HeaderMap<HeaderValue> },
}

/// Waiting for the text of a reply that reported a failure.
#[allow(inconsistent_fields)]
pub enum TextState {
    /// Minting a workload-identity token.
    Oidc { status: String },
    /// Logging in.
    Login { method: LoginMethod, url: String, status: String },
    /// Reading a secret.
    Fetch { status: u16 },
    /// Reading a flat document before it is written.
    Read { status: u16 },
    /// Writing a secret.
    Write { status: u16 },
}

/// What is to be done next.
#[allow(inconsistent_fields)]
pub enum Step {
    /// Read an environment variable: absent where it is not set or not Unicode.
    ReadVariable { name: String, state: VariableState },
    /// Read a file.
    ReadFile { path: String, state: FileState },
    /// Read the file `name` in the directory that the variable `home` gives, or
    /// the variable `fallback` where the former is not set.
    ReadHomeFile { home: String, fallback: String, name: String, state: HomeFileState },
    /// Send a request, and give the status of the reply.
    Send { request: HttpRequest, state: StatusState },
    /// Read the body of the reply whose status was last given.
    ReadBody { state: BodyState },
    /// Read the text of the reply whose status was last given.
    ReadText { state: TextState },
    /// Nothing: the key holds this secret, or none.
    Found { secret: Option<Secret> },
    /// Nothing: the secret is written.
    Written,
    /// Nothing: the operation failed.
    Failed { error: SecretSpecError },
}

/// The mathematical content of a `Goal`.
#[allow(inconsistent_fields)]
pub enum GoalView {
    Fetch { url: Seq<char>, key: Seq<char> },
    Store { url: Seq<char>, key: Seq<char>, value: Seq<char> },
}

/// The mathematical content of a `VariableState`.
#[allow(inconsistent_fields)]
pub enum VariableView {
    Token { goal: GoalView },
    RoleId { goal: GoalView },
    SecretId { goal: GoalView, role_id: Seq<char> },
    Jwt { goal: GoalView, role: Seq<char> },
    JwtPath { goal: GoalView, role: Seq<char> },
    OidcUrl { goal: GoalView, role: Seq<char> },
    OidcToken { goal: GoalView, role: Seq<char>, url: Seq<char> },
}

/// The mathematical content of a `FileState`.
pub struct FileView {
    pub goal: GoalView,
    pub role: Seq<char>,
    pub path: Seq<char>,
}

/// The mathematical content of a `HomeFileState`.
pub struct HomeFileView {
    pub goal: GoalView,
}

/// The mathematical content of a `StatusState`.
#[allow(inconsistent_fields)]
pub enum StatusView {
    Oidc { goal: GoalView, role: Seq<char> },
    Login { goal: GoalView, method: LoginMethod, url: Seq<char> },
    Fetch { key: Seq<char> },
    Read {
        url: Seq<char>,
        key: Seq<char>,
        value: Seq<char>,
        headers: Map<Seq<char>, Seq<Seq<u8>>>,
    },
    Write,
}

/// The mathematical content of a `BodyState`.
#[allow(inconsistent_fields)]
pub enum BodyView {
    Oidc { goal: GoalView, role: Seq<char> },
    Login { goal: GoalView, method: LoginMethod },
    Fetch { key: Seq<char> },
    Read {
        url: Seq<char>,
        key: Seq<char>,
        value: Seq<char>,
        headers: Map<Seq<char>, Seq<Seq<u8>>>,
    },
}

/// The mathematical content of a `TextState`.
#[allow(inconsistent_fields)]
pub enum TextView {
    Oidc { status: Seq<char> },
    Login { method: LoginMethod, url: Seq<char>, status: Seq<char> },
    Fetch { status: u16 },
    Read { status: u16 },
    Write { status: u16 },
}

/// The mathematical content of a `Step`.
#[allow(inconsistent_fields)]
pub enum StepView {
    ReadVariable { name: Seq<char>, state: VariableView },
    ReadFile { path: Seq<char>, state: FileView },
    ReadHomeFile {
        home: Seq<char>,
        fallback: Seq<char>,
        name: Seq<char>,
        state: HomeFileView,
    },
    Send { request: RequestView, state: StatusView },
    ReadBody { state: BodyView },
    ReadText { state: TextView },
    Found { secret: Option<Seq<char>> },
    Written,
    Failed { message: Seq<char> },
}

impl View for Goal {
    type V = GoalView;

    open spec fn view(&self) -> GoalView {
        match self {
            Goal::Fetch { url, key } => GoalView::Fetch { url: url@, key: key@ },
            Goal::Store { url, key, value } => GoalView::Store { url: url@, key: key@, value: value@ },
        }
    }
}

impl View for VariableState {
    type V = VariableView;

    open spec fn view(&self) -> VariableView {
        match self {
            VariableState::Token { goal } => VariableView::Token { goal: goal@ },
            VariableState::RoleId { goal } => VariableView::RoleId { goal: goal@ },
            VariableState::SecretId { goal, role_id } => VariableView::SecretId {
                goal: goal@,
                role_id: role_id@,
            },
            VariableState::Jwt { goal, role } => VariableView::Jwt { goal: goal@, role: role@ },
            VariableState::JwtPath { goal, role } => VariableView::JwtPath {
                goal: goal@,
                role: role@,
            },
            VariableState::OidcUrl { goal, role } => VariableView::OidcUrl {
                goal: goal@,
                role: role@,
            },
            VariableState::OidcToken { goal, role, url } => VariableView::OidcToken {
                goal: goal@,
                role: role@,
                url: url@,
            },
        }
    }
}

impl View for FileState {
    type V = FileView;

    open spec fn view(&self) -> FileView {
        FileView { goal: self.goal@, role: self.role@, path: self.path@ }
    }
}

impl View for HomeFileState {
    type V = HomeFileView;

    open spec fn view(&self) -> HomeFileView {
        HomeFileView { goal: self.goal@ }
    }
}

impl View for StatusState {
    type V = StatusView;

    open spec fn view(&self) -> StatusView {
        match self {
            StatusState::Oidc { goal, role } => StatusView::Oidc { goal: goal@, role: role@ },
            StatusState::Login { goal, method, url } => StatusView::Login {
                goal: goal@,
                method: *method,
                url: url@,
            },
            StatusState::Fetch { key } => StatusView::Fetch { key: key@ },
            StatusState::Read { url, key, value, headers } => StatusView::Read {
                url: url@,
                key: key@,
                value: value@,
                headers: header_values(*headers),
            },
            StatusState::Write => StatusView::Write,
        }
    }
}

impl View for BodyState {
    type V = BodyView;

    open spec fn view(&self) -> BodyView {
        match self {
            BodyState::Oidc { goal, role } => BodyView::Oidc { goal: goal@, role: role@ },
            BodyState::Login { goal, method } => BodyView::Login { goal: goal@, method: *method },
            BodyState::Fetch { key } => BodyView::Fetch { key: key@ },
            BodyState::Read { url, key, value, headers } => BodyView::Read {
                url: url@,
                key: key@,
                value: value@,
                headers: header_values(*headers),
            },
        }
    }
}

impl View for TextState {
    type V = TextView;

    open spec fn view(&self) -> TextView {
        match self {
            TextState::Oidc { status } => TextView::Oidc { status: status@ },
            TextState::Login { method, url, status } => TextView::Login {
                method: *method,
                url: url@,
                status: status@,
            },
            TextState::Fetch { status } => TextView::Fetch { status: *status },
            TextState::Read { status } => TextView::Read { status: *status },
            TextState::Write { status } => TextView::Write { status: *status },
        }
    }
}

impl View for Step {
    type V = StepView;

    open spec fn view(&self) -> StepView {
        match self {
            Step::ReadVariable { name, state } => StepView::ReadVariable {
                name: name@,
                state: state@,
            },
            Step::ReadFile { path, state } => StepView::ReadFile { path: path@, state: state@ },
            Step::ReadHomeFile { home, fallback, name, state } => StepView::ReadHomeFile {
                home: home@,
                fallback: fallback@,
                name: name@,
                state: state@,
            },
            Step::Send { request, state } => StepView::Send { request: request@, state: state@ },
            Step::ReadBody { state } => StepView::ReadBody { state: state@ },
            Step::ReadText { state } => StepView::ReadText { state: state@ },
            Step::Found { secret } => StepView::Found { secret: opt_secret_view(*secret) },
            Step::Written => StepView::Written,
            Step::Failed { error } => StepView::Failed { message: error@ },
        }
    }
}

} // verus!
