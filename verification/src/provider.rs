//! The provider: where it finds a secret on the server, what it sends along,
//! and what it makes of a stored document.
use reqwest::header::{HeaderMap, HeaderValue};
use serde_json::Value;
use vstd::prelude::*;
use vstd::string::*;
use vstd::utf8::encode_utf8;

use crate::config::{AuthMethod, ConfigView, KvVersion, VaultConfig, VaultLayout};
use crate::error::{failure, failure_because, result_view, SecretSpecError};
use crate::http::{
    header_name, header_text, header_value, header_values, headers_insert, headers_new, no_headers,
    plain_header_name,
};
use crate::json::{
    fields_clone, fields_get, fields_insert, fields_new, json_fields, json_member, json_text,
    json_view, no_fields, object_value, text_value, value_get, value_object, value_text, JsonView,
};
use crate::provider_url::{parameter_texts, query_text};
use crate::secret::Secret;
use crate::text::{
    join_from, opt_view, same, strings_view, trim_prefixes, trim_slashes,
    without_outer_slashes, without_prefixes,
};

verus! {

/// HashiCorp Vault / OpenBao provider.
///
/// Stores and retrieves secrets from a Vault or OpenBao server using the KV
/// secrets engine (v1 or v2).
pub struct VaultProvider {
    config: VaultConfig,
}

/// A provider is known by its configuration.
impl View for VaultProvider {
    type V = ConfigView;

    closed spec fn view(&self) -> ConfigView {
        self.config@
    }
}

/// The view of an optional secret.
pub open spec fn opt_secret_view(secret: Option<Secret>) -> Option<Seq<char>> {
    match secret {
        Some(secret) => Some(secret@),
        None => None,
    }
}

/// The view of a collection of headers, or the message of the error.
pub open spec fn headers_result(
    headers: Result<HeaderMap<HeaderValue>, SecretSpecError>,
) -> Result<Map<Seq<char>, Seq<Seq<u8>>>, Seq<char>> {
    match headers {
        Ok(headers) => Ok(header_values(headers)),
        Err(error) => Err(error@),
    }
}

/// The message where no project is given.
pub const NO_PROJECT: &'static str = "project cannot be empty";

/// The message where no profile is given.
pub const NO_PROFILE: &'static str = "profile cannot be empty";

/// The message where no key is given.
pub const NO_KEY: &'static str = "key cannot be empty";

/// The path of a key's own entry: `secretspec/{project}/{profile}/{key}`.
pub open spec fn secretspec_path(
    project: Seq<char>,
    profile: Seq<char>,
    key: Seq<char>,
) -> Result<Seq<char>, Seq<char>> {
    if project.len() == 0 {
        Err(NO_PROJECT@)
    } else if profile.len() == 0 {
        Err(NO_PROFILE@)
    } else if key.len() == 0 {
        Err(NO_KEY@)
    } else {
        Ok("secretspec/"@ + project + "/"@ + profile + "/"@ + key)
    }
}

/// The path of the document that holds all keys: the configured one, else
/// `secretspec/{project}/{profile}`.
pub open spec fn flat_path(
    config: ConfigView,
    project: Seq<char>,
    profile: Seq<char>,
) -> Result<Seq<char>, Seq<char>> {
    match config.path {
        Some(path) => Ok(path),
        None => if project.len() == 0 {
            Err(NO_PROJECT@)
        } else if profile.len() == 0 {
            Err(NO_PROFILE@)
        } else {
            Ok("secretspec/"@ + project + "/"@ + profile)
        },
    }
}

/// The path of the document that holds a key, in the configured layout.
pub open spec fn document_path(
    config: ConfigView,
    project: Seq<char>,
    profile: Seq<char>,
    key: Seq<char>,
) -> Result<Seq<char>, Seq<char>> {
    match config.layout {
        VaultLayout::SecretSpec => secretspec_path(project, profile, key),
        VaultLayout::Flat => flat_path(config, project, profile),
    }
}

/// The API URL of a path: version 2 of the engine keeps its documents under
/// `data`.
pub open spec fn api_url(config: ConfigView, path: Seq<char>) -> Seq<char> {
    match config.kv_version {
        KvVersion::V2 => config.endpoint + "/v1/"@ + config.mount + "/data/"@ + path,
        KvVersion::V1 => config.endpoint + "/v1/"@ + config.mount + "/"@ + path,
    }
}

/// The API URL of the document that holds a key, in the configured layout.
pub open spec fn document_url(
    config: ConfigView,
    project: Seq<char>,
    profile: Seq<char>,
    key: Seq<char>,
) -> Result<Seq<char>, Seq<char>> {
    match document_path(config, project, profile, key) {
        Ok(path) => Ok(api_url(config, path)),
        Err(message) => Err(message),
    }
}

/// The login URL: of the configured auth mount, else of the given one.
pub open spec fn login_url(config: ConfigView, default_mount: Seq<char>) -> Seq<char> {
    let mount = match config.auth_mount {
        Some(mount) => mount,
        None => default_mount,
    };
    config.endpoint + "/v1/auth/"@ + without_outer_slashes(mount) + "/login"@
}

/// The headers of a request to the API: the token, and the namespace where
/// there is one.
pub open spec fn api_headers(token: Seq<char>, namespace: Option<Seq<char>>) -> Result<
    Map<Seq<char>, Seq<Seq<u8>>>,
    Seq<char>,
> {
    let with_token = no_headers().insert(header_name("X-Vault-Token"@), seq![encode_utf8(token)]);
    if !header_text(token) {
        Err("Invalid token value: "@ + "failed to parse header value"@)
    } else {
        match namespace {
            None => Ok(with_token),
            Some(namespace) => if !header_text(namespace) {
                Err("Invalid namespace value: "@ + "failed to parse header value"@)
            } else {
                Ok(
                    with_token.insert(
                        header_name("X-Vault-Namespace"@),
                        seq![encode_utf8(namespace)],
                    ),
                )
            },
        }
    }
}

/// The stored fields in the reply to a read: version 2 of the engine wraps them
/// twice in `data`, version 1 once.
pub open spec fn kv_data(version: KvVersion, reply: JsonView) -> Option<
    Map<Seq<char>, JsonView>,
> {
    let outer = json_member(reply, "data"@);
    let inner = match version {
        KvVersion::V2 => match outer {
            Some(outer) => json_member(outer, "data"@),
            None => None,
        },
        KvVersion::V1 => outer,
    };
    match inner {
        Some(JsonView::Object(fields)) => Some(fields),
        _ => None,
    }
}

/// The field that holds a key: `value` in the key's own entry, the key itself in
/// a flat document.
pub open spec fn field_of(layout: VaultLayout, key: Seq<char>) -> Seq<char> {
    match layout {
        VaultLayout::SecretSpec => "value"@,
        VaultLayout::Flat => key,
    }
}

/// The secret that the reply to a read holds: the text in the key's field.
pub open spec fn stored_secret(config: ConfigView, key: Seq<char>, reply: JsonView) -> Option<
    Seq<char>,
> {
    match kv_data(config.kv_version, reply) {
        Some(fields) => match json_member(JsonView::Object(fields), field_of(config.layout, key)) {
            Some(field) => json_text(field),
            None => None,
        },
        None => None,
    }
}

/// The fields that are to be stored, in the form that a write takes: version 2
/// of the engine wants them wrapped in `data`.
pub open spec fn write_body(version: KvVersion, fields: Map<Seq<char>, JsonView>) -> JsonView {
    match version {
        KvVersion::V2 => JsonView::Object(
            no_fields().insert("data"@, JsonView::Object(fields)),
        ),
        KvVersion::V1 => JsonView::Object(fields),
    }
}

/// The fields that are to be stored so that `key` holds `value`, where `fields`
/// are those that a flat document has so far. A key's own entry holds nothing
/// else.
pub open spec fn updated_fields(
    layout: VaultLayout,
    fields: Map<Seq<char>, JsonView>,
    key: Seq<char>,
    value: Seq<char>,
) -> Map<Seq<char>, JsonView> {
    match layout {
        VaultLayout::SecretSpec => no_fields().insert("value"@, JsonView::Text(value)),
        VaultLayout::Flat => fields.insert(key, JsonView::Text(value)),
    }
}

/// The query parameters of the provider's own URI: those in which the layout,
/// the engine version or an AppRole login differ from the defaults.
pub open spec fn uri_parameters(config: ConfigView) -> Seq<(Seq<char>, Seq<char>)> {
    let layout = if config.layout == VaultLayout::Flat {
        seq![("layout"@, "flat"@)]
    } else {
        seq![]
    };
    let kv = if config.kv_version == KvVersion::V1 {
        seq![("kv"@, "1"@)]
    } else {
        seq![]
    };
    let auth = if config.auth == AuthMethod::AppRole {
        seq![("auth"@, "approle"@)]
    } else {
        seq![]
    };
    layout + kv + auth
}

/// The path of the provider's own URI: nothing for the default mount.
pub open spec fn uri_path(config: ConfigView) -> Seq<char> {
    match config.path {
        Some(path) => "/"@ + config.mount + "/"@ + path,
        None => if config.mount != "secret"@ {
            "/"@ + config.mount
        } else {
            seq![]
        },
    }
}

/// The provider's own URI.
pub open spec fn uri_of(config: ConfigView) -> Seq<char> {
    let host = without_prefixes(without_prefixes(config.endpoint, "https://"@), "http://"@);
    "vault://"@ + host + uri_path(config) + query_text(uri_parameters(config))
}

proof fn lemma_parameter_texts()
    ensures
        "layout=flat"@ == "layout"@ + "="@ + "flat"@,
        "kv=1"@ == "kv"@ + "="@ + "1"@,
        "auth=approle"@ == "auth"@ + "="@ + "approle"@,
{
    reveal_strlit("=");
    reveal_strlit("layout=flat");
    reveal_strlit("layout");
    reveal_strlit("flat");
    reveal_strlit("kv=1");
    reveal_strlit("kv");
    reveal_strlit("1");
    reveal_strlit("auth=approle");
    reveal_strlit("auth");
    reveal_strlit("approle");
    assert("layout=flat"@ =~= "layout"@ + "="@ + "flat"@);
    assert("kv=1"@ =~= "kv"@ + "="@ + "1"@);
    assert("auth=approle"@ =~= "auth"@ + "="@ + "approle"@);
}

proof fn lemma_header_names()
    ensures
        plain_header_name("X-Vault-Token"@),
        plain_header_name("X-Vault-Namespace"@),
{
    reveal_strlit("X-Vault-Token");
    reveal_strlit("X-Vault-Namespace");
}

impl VaultProvider {
    /// Creates a new VaultProvider with the given configuration.
    pub fn new(config: VaultConfig) -> (provider: Self)
        ensures
            provider@ == config@,
    {
        VaultProvider { config }
    }

    /// The configuration of the provider.
    pub fn config(&self) -> (config: &VaultConfig)
        ensures
            config@ == self@,
    {
        &self.config
    }

    /// The name of the provider.
    pub fn name(&self) -> (name: &'static str)
        ensures
            name@ == "vault"@,
    {
        "vault"
    }

    /// Whether the provider can write secrets.
    pub fn allows_set(&self) -> (allowed: bool)
        ensures
            allowed,
    {
        true
    }

    /// Formats the one-entry-per-key path within the KV engine.
    pub fn format_secretspec_path(project: &str, profile: &str, key: &str) -> (path: Result<
        String,
        SecretSpecError,
    >)
        ensures
            result_view(path) == secretspec_path(project@, profile@, key@),
    {
        if project.is_empty() {
            return Err(failure(NO_PROJECT));
        }
        if profile.is_empty() {
            return Err(failure(NO_PROFILE));
        }
        if key.is_empty() {
            return Err(failure(NO_KEY));
        }
        let mut path = "secretspec/".to_owned();
        path.append(project);
        path.append("/");
        path.append(profile);
        path.append("/");
        path.append(key);
        Ok(path)
    }

    /// Formats the flat-layout KV document path.
    pub fn format_flat_path(&self, project: &str, profile: &str) -> (path: Result<
        String,
        SecretSpecError,
    >)
        ensures
            result_view(path) == flat_path(self@, project@, profile@),
    {
        if let Some(path) = &self.config.path {
            return Ok(path.clone());
        }
        if project.is_empty() {
            return Err(failure(NO_PROJECT));
        }
        if profile.is_empty() {
            return Err(failure(NO_PROFILE));
        }
        let mut path = "secretspec/".to_owned();
        path.append(project);
        path.append("/");
        path.append(profile);
        Ok(path)
    }

    /// Login endpoint for the configured auth method, honouring a custom mount.
    pub fn auth_login_url(&self, default_mount: &str) -> (url: String)
        ensures
            url@ == login_url(self@, default_mount@),
    {
        let mount = match &self.config.auth_mount {
            Some(mount) => trim_slashes(mount.as_str()),
            None => trim_slashes(default_mount),
        };
        let mut url = self.config.endpoint.clone();
        url.append("/v1/auth/");
        url.append(mount.as_str());
        url.append("/login");
        url
    }

    /// Builds the full Vault API URL for a secret path.
    pub fn build_url(&self, secret_path: &str) -> (url: String)
        ensures
            url@ == api_url(self@, secret_path@),
    {
        let mut url = self.config.endpoint.clone();
        url.append("/v1/");
        url.append(self.config.mount.as_str());
        match self.config.kv_version {
            KvVersion::V2 => url.append("/data/"),
            KvVersion::V1 => url.append("/"),
        }
        url.append(secret_path);
        url
    }

    /// Builds the Vault API URL of the document that holds a key, in the
    /// configured layout.
    pub fn secret_url(&self, project: &str, profile: &str, key: &str) -> (url: Result<
        String,
        SecretSpecError,
    >)
        ensures
            result_view(url) == document_url(self@, project@, profile@, key@),
    {
        let path = match self.config.layout {
            VaultLayout::SecretSpec => Self::format_secretspec_path(project, profile, key),
            VaultLayout::Flat => self.format_flat_path(project, profile),
        };
        match path {
            Ok(path) => Ok(self.build_url(path.as_str())),
            Err(error) => Err(error),
        }
    }

    /// Builds the common HTTP headers for Vault API requests.
    pub fn build_headers(token: &Secret, namespace: &Option<String>) -> (headers: Result<
        HeaderMap<HeaderValue>,
        SecretSpecError,
    >)
        ensures
            headers_result(headers) == api_headers(token@, opt_view(*namespace)),
    {
        let mut headers = headers_new();
        proof {
            lemma_header_names();
        }
        match header_value(token.expose()) {
            Ok(value) => headers_insert(&mut headers, "X-Vault-Token", value),
            Err(reason) => {
                return Err(failure_because("Invalid token value: ", reason.as_str()));
            },
        }
        if let Some(namespace) = namespace {
            match header_value(namespace.as_str()) {
                Ok(value) => headers_insert(&mut headers, "X-Vault-Namespace", value),
                Err(reason) => {
                    return Err(failure_because("Invalid namespace value: ", reason.as_str()));
                },
            }
        }
        Ok(headers)
    }

    /// The stored fields in the reply to a read.
    pub fn extract_kv_data<'a>(&self, body: &'a Value) -> (data: Option<
        &'a serde_json::Map<String, Value>,
    >)
        ensures
            match data {
                Some(fields) => kv_data(self@.kv_version, json_view(*body)) == Some(
                    json_fields(*fields),
                ),
                None => kv_data(self@.kv_version, json_view(*body)) is None,
            },
    {
        let outer = match value_get(body, "data") {
            Some(outer) => outer,
            None => {
                return None;
            },
        };
        match self.config.kv_version {
            KvVersion::V2 => match value_get(outer, "data") {
                Some(inner) => value_object(inner),
                None => None,
            },
            KvVersion::V1 => value_object(outer),
        }
    }

    /// The secret that the reply to a read holds under a key.
    pub fn read_secret(&self, key: &str, body: &Value) -> (secret: Option<Secret>)
        ensures
            opt_secret_view(secret) == stored_secret(self@, key@, json_view(*body)),
    {
        let fields = match self.extract_kv_data(body) {
            Some(fields) => fields,
            None => {
                return None;
            },
        };
        let field = match self.config.layout {
            VaultLayout::SecretSpec => fields_get(fields, "value"),
            VaultLayout::Flat => fields_get(fields, key),
        };
        match field {
            Some(field) => match value_text(field) {
                Some(text) => Some(Secret::new(text.to_owned())),
                None => None,
            },
            None => None,
        }
    }

    /// The fields that the reply to a read holds: none where it holds no
    /// document.
    pub fn stored_fields(&self, body: &Value) -> (fields: serde_json::Map<String, Value>)
        ensures
            json_fields(fields) == (match kv_data(self@.kv_version, json_view(*body)) {
                Some(fields) => fields,
                None => no_fields(),
            }),
    {
        match self.extract_kv_data(body) {
            Some(fields) => fields_clone(fields),
            None => fields_new(),
        }
    }

    /// The document to write so that `key` holds `value`, where `fields` are
    /// those that a flat document has so far.
    pub fn secret_document(
        &self,
        fields: serde_json::Map<String, Value>,
        key: &str,
        value: &Secret,
    ) -> (document: Value)
        ensures
            json_view(document) == write_body(
                self@.kv_version,
                updated_fields(self@.layout, json_fields(fields), key@, value@),
            ),
    {
        let mut fields = fields;
        match self.config.layout {
            VaultLayout::SecretSpec => {
                fields = fields_new();
                fields_insert(&mut fields, "value".to_owned(), text_value(value.expose()));
            },
            VaultLayout::Flat => {
                fields_insert(&mut fields, key.to_owned(), text_value(value.expose()));
            },
        }
        match self.config.kv_version {
            KvVersion::V2 => {
                let mut outer = fields_new();
                fields_insert(&mut outer, "data".to_owned(), object_value(fields));
                object_value(outer)
            },
            KvVersion::V1 => object_value(fields),
        }
    }

    /// The URI that stands for this provider.
    pub fn uri(&self) -> (uri: String)
        ensures
            uri@ == uri_of(self@),
    {
        let host = trim_prefixes(
            trim_prefixes(self.config.endpoint.as_str(), "https://").as_str(),
            "http://",
        );
        let mut uri = "vault://".to_owned();
        uri.append(host.as_str());
        if !same(self.config.mount.as_str(), "secret") || self.config.path.is_some() {
            uri.append("/");
            uri.append(self.config.mount.as_str());
            if let Some(path) = &self.config.path {
                uri.append("/");
                uri.append(path.as_str());
            }
        }
        let ghost without_query = uri@;
        let mut query: Vec<String> = Vec::new();
        if self.config.layout == VaultLayout::Flat {
            query.push("layout=flat".to_owned());
        }
        if self.config.kv_version == KvVersion::V1 {
            query.push("kv=1".to_owned());
        }
        if self.config.auth == AuthMethod::AppRole {
            query.push("auth=approle".to_owned());
        }
        proof {
            lemma_parameter_texts();
            assert(strings_view(query@) =~= parameter_texts(uri_parameters(self@)));
            assert(strings_view(query@).skip(0) =~= strings_view(query@));
            assert(strings_view(query@).len() == query@.len());
        }
        if query.len() > 0 {
            uri.append("?");
            uri.append(join_from(&query, 0, "&").as_str());
        }
        proof {
            let head = "vault://"@ + without_prefixes(
                without_prefixes(self@.endpoint, "https://"@),
                "http://"@,
            );
            assert(without_query =~= head + uri_path(self@));
            assert(uri@ =~= uri_of(self@));
        }
        uri
    }
}

} // verus!
