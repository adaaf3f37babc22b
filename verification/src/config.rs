//! The configuration of the provider, and how a URI and the environment
//! determine it.
use vstd::prelude::*;
use vstd::string::*;

use crate::error::{failure, failure_with, result_view, SecretSpecError};
use crate::provider_url::{lookup, ProviderUrl, UrlView};
use crate::text::{
    decimal, decimal_text, join_from, joined, nonempty, opt_view, present, same, segments,
    split_segments, strings_view,
};

verus! {

/// KV secrets engine version.
#[derive(Debug, Clone, Copy, PartialEq, Eq, Structural)]
pub enum KvVersion {
    /// KV version 1 (no versioning).
    V1,
    /// KV version 2 (versioned, default).
    V2,
}

impl Default for KvVersion {
    fn default() -> (version: Self)
        ensures
            version == KvVersion::V2,
    {
        KvVersion::V2
    }
}

/// Authentication method for the Vault / OpenBao provider.
#[derive(Debug, Clone, Copy, PartialEq, Eq, Structural)]
pub enum AuthMethod {
    /// Token-based authentication via `VAULT_TOKEN` or `~/.vault-token`.
    Token,
    /// AppRole authentication via `VAULT_ROLE_ID` and `VAULT_SECRET_ID`.
    AppRole,
    /// JWT/OIDC authentication: exchanges a workload-identity token for a
    /// Vault token, so that a CI job authenticates as itself.
    Jwt,
}

impl Default for AuthMethod {
    fn default() -> (method: Self)
        ensures
            method == AuthMethod::Token,
    {
        AuthMethod::Token
    }
}

/// Storage layout for Vault / OpenBao secrets.
#[derive(Debug, Clone, Copy, PartialEq, Eq, Structural)]
pub enum VaultLayout {
    /// One KV entry per key, at `secretspec/{project}/{profile}/{key}`.
    SecretSpec,
    /// All keys as fields of one KV document.
    Flat,
}

impl Default for VaultLayout {
    fn default() -> (layout: Self)
        ensures
            layout == VaultLayout::SecretSpec,
    {
        VaultLayout::SecretSpec
    }
}

/// Where the JWT for `auth=jwt` comes from.
#[derive(Debug, Clone, Copy, PartialEq, Eq, Structural)]
pub enum JwtSource {
    /// `VAULT_JWT`, or the file named by `VAULT_JWT_PATH`.
    Environment,
    /// Minted from the GitHub Actions OIDC endpoint. Only on request, with
    /// `?jwt=github-actions`.
    GithubActions,
}

impl Default for JwtSource {
    fn default() -> (source: Self)
        ensures
            source == JwtSource::Environment,
    {
        JwtSource::Environment
    }
}

/// Configuration for the Vault / OpenBao provider.
#[derive(Debug, Clone)]
pub struct VaultConfig {
    /// The Vault server endpoint URL (e.g., `https://vault.example.com:8200`).
    pub endpoint: String,
    /// The KV secrets engine mount path (default: `secret`).
    pub mount: String,
    /// The path of the document under the KV mount, in the flat layout. In the
    /// other layout it plays no part in where a secret is stored.
    pub path: Option<String>,
    /// The KV engine version (default: V2).
    pub kv_version: KvVersion,
    /// Optional Vault namespace.
    pub namespace: Option<String>,
    /// Authentication method (default: Token).
    pub auth: AuthMethod,
    /// Auth backend mount path (default: the name of the method).
    pub auth_mount: Option<String>,
    /// Vault role to authenticate against, for methods that take one.
    pub role: Option<String>,
    /// Audience to request when minting a workload-identity token.
    pub audience: Option<String>,
    /// Where to obtain the JWT from, when `auth` is `Jwt`.
    pub jwt_source: JwtSource,
    /// Storage layout (default: one KV entry per key).
    pub layout: VaultLayout,
}

/// The mathematical content of a `VaultConfig`.
pub struct ConfigView {
    pub endpoint: Seq<char>,
    pub mount: Seq<char>,
    pub path: Option<Seq<char>>,
    pub kv_version: KvVersion,
    pub namespace: Option<Seq<char>>,
    pub auth: AuthMethod,
    pub auth_mount: Option<Seq<char>>,
    pub role: Option<Seq<char>>,
    pub audience: Option<Seq<char>>,
    pub jwt_source: JwtSource,
    pub layout: VaultLayout,
}

impl View for VaultConfig {
    type V = ConfigView;

    open spec fn view(&self) -> ConfigView {
        ConfigView {
            endpoint: self.endpoint@,
            mount: self.mount@,
            path: opt_view(self.path),
            kv_version: self.kv_version,
            namespace: opt_view(self.namespace),
            auth: self.auth,
            auth_mount: opt_view(self.auth_mount),
            role: opt_view(self.role),
            audience: opt_view(self.audience),
            jwt_source: self.jwt_source,
            layout: self.layout,
        }
    }
}

/// The configuration of a local server.
pub open spec fn default_config() -> ConfigView {
    ConfigView {
        endpoint: "https://127.0.0.1:8200"@,
        mount: "secret"@,
        path: None,
        kv_version: KvVersion::V2,
        namespace: None,
        auth: AuthMethod::Token,
        auth_mount: None,
        role: None,
        audience: None,
        jwt_source: JwtSource::Environment,
        layout: VaultLayout::SecretSpec,
    }
}

impl Default for VaultConfig {
    fn default() -> (config: Self)
        ensures
            config@ == default_config(),
    {
        VaultConfig {
            endpoint: "https://127.0.0.1:8200".to_owned(),
            mount: "secret".to_owned(),
            path: None,
            kv_version: KvVersion::default(),
            namespace: None,
            auth: AuthMethod::default(),
            auth_mount: None,
            role: None,
            audience: None,
            jwt_source: JwtSource::default(),
            layout: VaultLayout::default(),
        }
    }
}

/// The variable that holds the server's address where the URI has no host.
pub const ADDRESS_VARIABLE: &'static str = "VAULT_ADDR";

/// The variable that holds the namespace where the URI has no user name.
pub const NAMESPACE_VARIABLE: &'static str = "VAULT_NAMESPACE";

/// The variable that holds the role where the URI has no `role` parameter.
pub const ROLE_VARIABLE: &'static str = "VAULT_ROLE";

/// The environment variables that a URI falls back to, each absent where it is
/// not set or not Unicode.
#[derive(Debug, Clone)]
pub struct Environment {
    /// The value of `VAULT_ADDR`.
    pub address: Option<String>,
    /// The value of `VAULT_NAMESPACE`.
    pub namespace: Option<String>,
    /// The value of `VAULT_ROLE`.
    pub role: Option<String>,
}

/// The mathematical content of an `Environment`.
pub struct EnvironmentView {
    pub address: Option<Seq<char>>,
    pub namespace: Option<Seq<char>>,
    pub role: Option<Seq<char>>,
}

impl View for Environment {
    type V = EnvironmentView;

    open spec fn view(&self) -> EnvironmentView {
        EnvironmentView {
            address: opt_view(self.address),
            namespace: opt_view(self.namespace),
            role: opt_view(self.role),
        }
    }
}

impl Environment {
    /// An environment that sets none of the variables.
    pub fn empty() -> (environment: Self)
        ensures
            environment@ == (EnvironmentView { address: None, namespace: None, role: None }),
    {
        Environment { address: None, namespace: None, role: None }
    }
}

/// The message where neither the URI nor the environment has an address.
pub const NO_ADDRESS: &'static str =
    "No Vault address provided. Either specify a host in the URI (e.g., vault://vault.example.com:8200) or set the VAULT_ADDR environment variable.";

/// Whether the provider answers to a URI scheme.
pub open spec fn scheme_accepted(scheme: Seq<char>) -> bool {
    scheme == "vault"@ || scheme == "openbao"@
}

/// Whether the server is spoken to over TLS: unless `tls` is `false` or `0`.
pub open spec fn tls_enabled(url: UrlView) -> bool {
    match lookup(url.query, "tls"@) {
        Some(value) => value != "false"@ && value != "0"@,
        None => true,
    }
}

/// The server's address: from the host and port of the URI, else from the
/// environment.
pub open spec fn endpoint_of(url: UrlView, env: EnvironmentView) -> Option<Seq<char>> {
    let scheme = if tls_enabled(url) {
        "https"@
    } else {
        "http"@
    };
    match (nonempty(url.host), url.port) {
        (Some(host), Some(port)) => Some(scheme + "://"@ + host + ":"@ + decimal(port as nat)),
        (Some(host), None) => Some(scheme + "://"@ + host),
        (None, _) => nonempty(env.address),
    }
}

/// The KV mount: the first segment of the path.
pub open spec fn mount_of(url: UrlView) -> Seq<char> {
    if segments(url.path).len() > 0 {
        segments(url.path)[0]
    } else {
        "secret"@
    }
}

/// The path under the mount: the segments of the path behind the first.
pub open spec fn path_of(url: UrlView) -> Option<Seq<char>> {
    nonempty(
        if segments(url.path).len() > 0 {
            Some(joined(segments(url.path).skip(1), "/"@))
        } else {
            None
        },
    )
}

/// The KV engine version that the `kv` parameter names.
pub open spec fn kv_version_of(url: UrlView) -> KvVersion {
    match lookup(url.query, "kv"@) {
        Some(value) if value == "1"@ || value == "v1"@ => KvVersion::V1,
        _ => KvVersion::V2,
    }
}

/// The namespace: the user name of the URI, else from the environment.
pub open spec fn namespace_of(url: UrlView, env: EnvironmentView) -> Option<Seq<char>> {
    if url.username.len() > 0 {
        Some(url.username)
    } else {
        nonempty(env.namespace)
    }
}

/// The authentication method that the `auth` parameter names, or the name that
/// is none.
pub open spec fn auth_of(url: UrlView) -> Result<AuthMethod, Seq<char>> {
    match lookup(url.query, "auth"@) {
        None => Ok(AuthMethod::Token),
        Some(value) => if value == "approle"@ {
            Ok(AuthMethod::AppRole)
        } else if value == "token"@ {
            Ok(AuthMethod::Token)
        } else if value == "jwt"@ || value == "oidc"@ {
            Ok(AuthMethod::Jwt)
        } else {
            Err(value)
        },
    }
}

/// The role: from the `role` parameter, else from the environment.
pub open spec fn role_of(url: UrlView, env: EnvironmentView) -> Option<Seq<char>> {
    match nonempty(lookup(url.query, "role"@)) {
        Some(role) => Some(role),
        None => nonempty(env.role),
    }
}

/// The source of the JWT that the `jwt` parameter names, or the name that is
/// none.
pub open spec fn jwt_source_of(url: UrlView) -> Result<JwtSource, Seq<char>> {
    match lookup(url.query, "jwt"@) {
        None => Ok(JwtSource::Environment),
        Some(value) => if value == "env"@ || value == "environment"@ {
            Ok(JwtSource::Environment)
        } else if value == "github-actions"@ || value == "github"@ {
            Ok(JwtSource::GithubActions)
        } else {
            Err(value)
        },
    }
}

/// The storage layout that the `layout` parameter names, or the name that is
/// none.
pub open spec fn layout_of(url: UrlView) -> Result<VaultLayout, Seq<char>> {
    match lookup(url.query, "layout"@) {
        None => Ok(VaultLayout::SecretSpec),
        Some(value) => if value == "secretspec"@ || value == "default"@ {
            Ok(VaultLayout::SecretSpec)
        } else if value == "flat"@ {
            Ok(VaultLayout::Flat)
        } else {
            Err(value)
        },
    }
}

/// The message for a URI scheme that the provider does not answer to.
pub open spec fn scheme_message(scheme: Seq<char>) -> Seq<char> {
    "Invalid scheme '"@ + scheme + "' for vault provider. Expected 'vault' or 'openbao'."@
}

/// The message for an `auth` parameter that names no method.
pub open spec fn auth_message(name: Seq<char>) -> Seq<char> {
    "Unknown auth method '"@ + name + "'. Expected 'token', 'approle' or 'jwt'."@
}

/// The message for a `jwt` parameter that names no source.
pub open spec fn jwt_source_message(name: Seq<char>) -> Seq<char> {
    "Unknown jwt source '"@ + name + "'. Expected 'env' or 'github-actions'."@
}

/// The message for a `layout` parameter that names no layout.
pub open spec fn layout_message(name: Seq<char>) -> Seq<char> {
    "Unknown Vault layout '"@ + name + "'. Expected 'secretspec' or 'flat'."@
}

/// The configuration that a URI gives in an environment, or the message for the
/// first thing that is wrong with it: the scheme, the address, the
/// authentication method, the source of the JWT or the layout.
pub open spec fn config_of(url: UrlView, env: EnvironmentView) -> Result<ConfigView, Seq<char>> {
    if !scheme_accepted(url.scheme) {
        Err(scheme_message(url.scheme))
    } else if endpoint_of(url, env) is None {
        Err(NO_ADDRESS@)
    } else if auth_of(url) is Err {
        Err(auth_message(auth_of(url)->Err_0))
    } else if jwt_source_of(url) is Err {
        Err(jwt_source_message(jwt_source_of(url)->Err_0))
    } else if layout_of(url) is Err {
        Err(layout_message(layout_of(url)->Err_0))
    } else {
        Ok(
            ConfigView {
                endpoint: endpoint_of(url, env)->0,
                mount: mount_of(url),
                path: path_of(url),
                kv_version: kv_version_of(url),
                namespace: namespace_of(url, env),
                auth: auth_of(url)->Ok_0,
                auth_mount: nonempty(lookup(url.query, "auth_mount"@)),
                role: role_of(url, env),
                audience: nonempty(lookup(url.query, "audience"@)),
                jwt_source: jwt_source_of(url)->Ok_0,
                layout: layout_of(url)->Ok_0,
            },
        )
    }
}

fn read_endpoint(url: &ProviderUrl, env: &Environment) -> (endpoint: Option<String>)
    ensures
        opt_view(endpoint) == endpoint_of(url@, env@),
{
    let use_tls = match url.query_value("tls") {
        Some(value) => !same(value.as_str(), "false") && !same(value.as_str(), "0"),
        None => true,
    };
    let scheme = if use_tls {
        "https"
    } else {
        "http"
    };
    match present(&url.host) {
        Some(host) => {
            let mut endpoint = scheme.to_owned();
            endpoint.append("://");
            endpoint.append(host.as_str());
            if let Some(port) = url.port {
                endpoint.append(":");
                endpoint.append(decimal_text(port).as_str());
            }
            Some(endpoint)
        },
        None => present(&env.address),
    }
}

fn read_location(url: &ProviderUrl) -> (location: (String, Option<String>))
    ensures
        location.0@ == mount_of(url@),
        opt_view(location.1) == path_of(url@),
{
    let parts = split_segments(url.path.as_str());
    assert(parts@.len() == strings_view(parts@).len());
    if parts.len() == 0 {
        return ("secret".to_owned(), None);
    }
    let rest = join_from(&parts, 1, "/");
    (parts[0].clone(), present(&Some(rest)))
}

fn read_kv_version(url: &ProviderUrl) -> (version: KvVersion)
    ensures
        version == kv_version_of(url@),
{
    match url.query_value("kv") {
        Some(value) => if same(value.as_str(), "1") || same(value.as_str(), "v1") {
            KvVersion::V1
        } else {
            KvVersion::V2
        },
        None => KvVersion::default(),
    }
}

fn read_namespace(url: &ProviderUrl, env: &Environment) -> (namespace: Option<String>)
    ensures
        opt_view(namespace) == namespace_of(url@, env@),
{
    if !url.username.as_str().is_empty() {
        Some(url.username.clone())
    } else {
        present(&env.namespace)
    }
}

fn read_auth(url: &ProviderUrl) -> (auth: Result<AuthMethod, SecretSpecError>)
    ensures
        match auth {
            Ok(auth) => auth_of(url@) == Ok::<AuthMethod, Seq<char>>(auth),
            Err(error) => auth_of(url@) matches Err(name) && error@ == auth_message(name),
        },
{
    match url.query_value("auth") {
        None => Ok(AuthMethod::default()),
        Some(value) => {
            let name = value.as_str();
            if same(name, "approle") {
                Ok(AuthMethod::AppRole)
            } else if same(name, "token") {
                Ok(AuthMethod::Token)
            } else if same(name, "jwt") || same(name, "oidc") {
                Ok(AuthMethod::Jwt)
            } else {
                Err(
                    failure_with(
                        "Unknown auth method '",
                        name,
                        "'. Expected 'token', 'approle' or 'jwt'.",
                    ),
                )
            }
        },
    }
}

fn read_role(url: &ProviderUrl, env: &Environment) -> (role: Option<String>)
    ensures
        opt_view(role) == role_of(url@, env@),
{
    match present(&url.query_value("role")) {
        Some(role) => Some(role),
        None => present(&env.role),
    }
}

fn read_jwt_source(url: &ProviderUrl) -> (source: Result<JwtSource, SecretSpecError>)
    ensures
        match source {
            Ok(source) => jwt_source_of(url@) == Ok::<JwtSource, Seq<char>>(source),
            Err(error) => jwt_source_of(url@) matches Err(name) && error@ == jwt_source_message(
                name,
            ),
        },
{
    match url.query_value("jwt") {
        None => Ok(JwtSource::default()),
        Some(value) => {
            let name = value.as_str();
            if same(name, "env") || same(name, "environment") {
                Ok(JwtSource::Environment)
            } else if same(name, "github-actions") || same(name, "github") {
                Ok(JwtSource::GithubActions)
            } else {
                Err(
                    failure_with(
                        "Unknown jwt source '",
                        name,
                        "'. Expected 'env' or 'github-actions'.",
                    ),
                )
            }
        },
    }
}

fn read_layout(url: &ProviderUrl) -> (layout: Result<VaultLayout, SecretSpecError>)
    ensures
        match layout {
            Ok(layout) => layout_of(url@) == Ok::<VaultLayout, Seq<char>>(layout),
            Err(error) => layout_of(url@) matches Err(name) && error@ == layout_message(name),
        },
{
    match url.query_value("layout") {
        None => Ok(VaultLayout::default()),
        Some(value) => {
            let name = value.as_str();
            if same(name, "secretspec") || same(name, "default") {
                Ok(VaultLayout::SecretSpec)
            } else if same(name, "flat") {
                Ok(VaultLayout::Flat)
            } else {
                Err(
                    failure_with(
                        "Unknown Vault layout '",
                        name,
                        "'. Expected 'secretspec' or 'flat'.",
                    ),
                )
            }
        },
    }
}

impl VaultConfig {
    /// The configuration that a URI gives in an environment.
    ///
    /// `vault://[namespace@]host[:port][/mount[/path]][?key=value&...]`, or the
    /// same with the scheme `openbao`.
    pub fn try_from(url: &ProviderUrl, env: &Environment) -> (config: Result<
        Self,
        SecretSpecError,
    >)
        ensures
            result_view(config) == config_of(url@, env@),
    {
        let scheme = url.scheme.as_str();
        if !same(scheme, "vault") && !same(scheme, "openbao") {
            return Err(
                failure_with(
                    "Invalid scheme '",
                    scheme,
                    "' for vault provider. Expected 'vault' or 'openbao'.",
                ),
            );
        }
        let endpoint = match read_endpoint(url, env) {
            Some(endpoint) => endpoint,
            None => {
                return Err(failure(NO_ADDRESS));
            },
        };
        let (mount, path) = read_location(url);
        let kv_version = read_kv_version(url);
        let namespace = read_namespace(url, env);
        let auth = match read_auth(url) {
            Ok(auth) => auth,
            Err(error) => {
                return Err(error);
            },
        };
        let auth_mount = present(&url.query_value("auth_mount"));
        let role = read_role(url, env);
        let audience = present(&url.query_value("audience"));
        let jwt_source = match read_jwt_source(url) {
            Ok(source) => source,
            Err(error) => {
                return Err(error);
            },
        };
        let layout = match read_layout(url) {
            Ok(layout) => layout,
            Err(error) => {
                return Err(error);
            },
        };
        Ok(
            VaultConfig {
                endpoint,
                mount,
                path,
                kv_version,
                namespace,
                auth,
                auth_mount,
                role,
                audience,
                jwt_source,
                layout,
            },
        )
    }
}

} // verus!
