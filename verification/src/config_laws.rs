//! What holds of the configuration that a URI gives.
use vstd::prelude::*;

use crate::config::{
    config_of, default_config, AuthMethod, ConfigView, EnvironmentView, JwtSource, KvVersion,
    VaultLayout, ADDRESS_VARIABLE, NAMESPACE_VARIABLE, NO_ADDRESS, ROLE_VARIABLE,
};
use crate::laws::{is_segment, lemma_segments_are_segments};
use crate::provider_url::{lookup, UrlView};
use crate::text::{decimal, joined, segments};
use crate::text_laws::separators_stand_between_the_parts;

verus! {

/// Whether an optional text is absent or empty.
pub open spec fn blank(text: Option<Seq<char>>) -> bool {
    text is None || text->0.len() == 0
}

/// Whether a setting is taken from a text: it is the text, or absent where the
/// text is blank.
pub open spec fn taken_from(setting: Option<Seq<char>>, text: Option<Seq<char>>) -> bool {
    if blank(text) {
        setting is None
    } else {
        setting == text
    }
}

/// The environment fills in what the URI leaves out: the address where there is
/// no host, the namespace where there is no user name, and the role where there
/// is no `role` parameter or an empty one.
pub proof fn environment_fills_in(url: UrlView, env: EnvironmentView, config: ConfigView)
    requires
        config_of(url, env) == Ok::<ConfigView, Seq<char>>(config),
    ensures
        blank(url.host) ==> !blank(env.address) && config.endpoint == env.address->0,
        url.username.len() == 0 ==> taken_from(config.namespace, env.namespace),
        blank(lookup(url.query, "role"@)) ==> taken_from(config.role, env.role),
{
}

/// What the URI gives is taken as it is: the user name as the namespace, and the
/// parameters `role`, `auth_mount` and `audience` under their names. For the last
/// two there is nothing to fall back to.
pub proof fn uri_settings_are_taken(url: UrlView, env: EnvironmentView, config: ConfigView)
    requires
        config_of(url, env) == Ok::<ConfigView, Seq<char>>(config),
    ensures
        url.username.len() > 0 ==> config.namespace == Some(url.username),
        !blank(lookup(url.query, "role"@)) ==> config.role == lookup(url.query, "role"@),
        taken_from(config.auth_mount, lookup(url.query, "auth_mount"@)),
        taken_from(config.audience, lookup(url.query, "audience"@)),
{
}

/// Whether the URI switches TLS off.
pub open spec fn switches_tls_off(url: UrlView) -> bool {
    lookup(url.query, "tls"@) == Some("false"@) || lookup(url.query, "tls"@) == Some("0"@)
}

/// The address is made of the host and the port of the URI, each as it stands
/// there, behind the scheme of a web server with or without TLS.
pub proof fn address_is_host_and_port(url: UrlView, env: EnvironmentView, config: ConfigView)
    requires
        config_of(url, env) == Ok::<ConfigView, Seq<char>>(config),
        !blank(url.host),
    ensures
        ({
            let port = match url.port {
                Some(port) => ":"@ + decimal(port as nat),
                None => seq![],
            };
            &&& switches_tls_off(url) ==> config.endpoint == "http://"@ + url.host->0 + port
            &&& !switches_tls_off(url) ==> config.endpoint == "https://"@ + url.host->0 + port
        }),
{
    reveal_strlit("http");
    reveal_strlit("https");
    reveal_strlit("://");
    reveal_strlit("http://");
    reveal_strlit("https://");
    assert("http"@ + "://"@ =~= "http://"@);
    assert("https"@ + "://"@ =~= "https://"@);
    let port = match url.port {
        Some(port) => ":"@ + decimal(port as nat),
        None => seq![],
    };
    if switches_tls_off(url) {
        assert(config.endpoint =~= "http://"@ + url.host->0 + port);
    } else {
        assert(config.endpoint =~= "https://"@ + url.host->0 + port);
    }
}

/// Whether the text of an optional parameter is one of two, or the parameter is
/// absent.
pub open spec fn absent_or(value: Option<Seq<char>>, one: Seq<char>, other: Seq<char>) -> bool {
    value is None || value == Some(one) || value == Some(other)
}

/// Whether the text of an optional parameter is one of two.
pub open spec fn one_of(value: Option<Seq<char>>, one: Seq<char>, other: Seq<char>) -> bool {
    value == Some(one) || value == Some(other)
}

proof fn lemma_names_differ()
    ensures
        "approle"@ != "token"@,
        "approle"@ != "jwt"@,
        "approle"@ != "oidc"@,
        "token"@ != "jwt"@,
        "token"@ != "oidc"@,
        "env"@ != "github-actions"@,
        "env"@ != "github"@,
        "environment"@ != "github-actions"@,
        "environment"@ != "github"@,
        "secretspec"@ != "flat"@,
        "default"@ != "flat"@,
        "vault"@ != "openbao"@,
{
    reveal_strlit("approle");
    reveal_strlit("token");
    reveal_strlit("jwt");
    reveal_strlit("oidc");
    reveal_strlit("env");
    reveal_strlit("environment");
    reveal_strlit("github");
    reveal_strlit("github-actions");
    reveal_strlit("secretspec");
    reveal_strlit("default");
    reveal_strlit("flat");
    reveal_strlit("vault");
    reveal_strlit("openbao");
    assert("approle"@.len() == 7 && "token"@.len() == 5 && "jwt"@.len() == 3 && "oidc"@.len() == 4);
    assert("env"@.len() == 3 && "environment"@.len() == 11);
    assert("github"@.len() == 6 && "github-actions"@.len() == 14);
    assert("secretspec"@.len() == 10 && "default"@.len() == 7 && "flat"@.len() == 4);
    assert("vault"@.len() == 5 && "openbao"@.len() == 7);
}

/// Each choice is made by the name that the URI gives it, and by no other.
pub proof fn names_make_the_choices(url: UrlView, env: EnvironmentView, config: ConfigView)
    requires
        config_of(url, env) == Ok::<ConfigView, Seq<char>>(config),
    ensures
        config.auth == AuthMethod::AppRole <==> lookup(url.query, "auth"@) == Some("approle"@),
        config.auth == AuthMethod::Jwt <==> one_of(lookup(url.query, "auth"@), "jwt"@, "oidc"@),
        config.auth == AuthMethod::Token <==> absent_or(
            lookup(url.query, "auth"@),
            "token"@,
            "token"@,
        ),
        config.jwt_source == JwtSource::GithubActions <==> one_of(
            lookup(url.query, "jwt"@),
            "github-actions"@,
            "github"@,
        ),
        config.jwt_source == JwtSource::Environment <==> absent_or(
            lookup(url.query, "jwt"@),
            "env"@,
            "environment"@,
        ),
        config.layout == VaultLayout::Flat <==> lookup(url.query, "layout"@) == Some("flat"@),
        config.layout == VaultLayout::SecretSpec <==> absent_or(
            lookup(url.query, "layout"@),
            "secretspec"@,
            "default"@,
        ),
        config.kv_version == KvVersion::V1 <==> one_of(lookup(url.query, "kv"@), "1"@, "v1"@),
{
    lemma_names_differ();
}

/// The path of the URI names the mount, and behind it the document: the mount is
/// its first segment, and what is left of it is the path. Without a segment the
/// mount is `secret`.
pub proof fn path_names_mount_and_document(url: UrlView, env: EnvironmentView, config: ConfigView)
    requires
        config_of(url, env) == Ok::<ConfigView, Seq<char>>(config),
    ensures
        segments(url.path).len() == 0 ==> config.mount == "secret"@ && config.path is None,
        segments(url.path).len() == 1 ==> seq![config.mount] == segments(url.path)
            && config.path is None,
        segments(url.path).len() > 1 ==> config.path is Some && config.mount + "/"@
            + config.path->0 == joined(segments(url.path), "/"@),
{
    let parts = segments(url.path);
    lemma_segments_are_segments(url.path);
    if parts.len() > 0 {
        let rest = parts.skip(1);
        separators_stand_between_the_parts(seq![parts[0]], rest, "/"@);
        assert(seq![parts[0]] + rest =~= parts);
        if parts.len() == 1 {
            assert(rest =~= seq![]);
            assert(parts =~= seq![config.mount]);
        } else {
            assert(rest[0] == parts[1] && is_segment(parts[1]));
            lemma_joined_is_long(rest);
        }
    }
}

proof fn lemma_joined_is_long(parts: Seq<Seq<char>>)
    requires
        parts.len() > 0,
        parts[0].len() > 0,
    ensures
        joined(parts, "/"@).len() > 0,
    decreases parts.len(),
{
    if parts.len() > 1 {
        assert(parts.drop_last()[0] == parts[0]);
        lemma_joined_is_long(parts.drop_last());
    }
}

/// A URI is accepted if and only if its scheme is one of the two, there is an
/// address, and each choice in it has a name that is known.
pub proof fn accepted_uris(url: UrlView, env: EnvironmentView)
    ensures
        config_of(url, env) is Ok <==> {
            &&& url.scheme == "vault"@ || url.scheme == "openbao"@
            &&& !blank(url.host) || !blank(env.address)
            &&& absent_or(lookup(url.query, "auth"@), "token"@, "approle"@) || one_of(
                lookup(url.query, "auth"@),
                "jwt"@,
                "oidc"@,
            )
            &&& absent_or(lookup(url.query, "jwt"@), "env"@, "environment"@) || one_of(
                lookup(url.query, "jwt"@),
                "github-actions"@,
                "github"@,
            )
            &&& absent_or(lookup(url.query, "layout"@), "secretspec"@, "default"@) || lookup(
                url.query,
                "layout"@,
            ) == Some("flat"@)
        },
{
}

/// What is wrong with a URI is told: the scheme or the name that is not known
/// stands in the message, with those that are.
pub proof fn faults_are_named(url: UrlView, env: EnvironmentView, message: Seq<char>)
    requires
        config_of(url, env) == Err::<ConfigView, Seq<char>>(message),
    ensures
        ({
            let scheme_is_known = url.scheme == "vault"@ || url.scheme == "openbao"@;
            let has_address = !blank(url.host) || !blank(env.address);
            let auth = lookup(url.query, "auth"@);
            let auth_is_known = absent_or(auth, "token"@, "approle"@) || one_of(
                auth,
                "jwt"@,
                "oidc"@,
            );
            let source = lookup(url.query, "jwt"@);
            let source_is_known = absent_or(source, "env"@, "environment"@) || one_of(
                source,
                "github-actions"@,
                "github"@,
            );
            let layout = lookup(url.query, "layout"@);
            &&& !scheme_is_known ==> message == "Invalid scheme '"@ + url.scheme
                + "' for vault provider. Expected 'vault' or 'openbao'."@
            &&& scheme_is_known && !has_address ==> message == NO_ADDRESS@
            &&& scheme_is_known && has_address && !auth_is_known ==> message
                == "Unknown auth method '"@ + auth->0
                + "'. Expected 'token', 'approle' or 'jwt'."@
            &&& scheme_is_known && has_address && auth_is_known && !source_is_known ==> message
                == "Unknown jwt source '"@ + source->0 + "'. Expected 'env' or 'github-actions'."@
            &&& scheme_is_known && has_address && auth_is_known && source_is_known ==> message
                == "Unknown Vault layout '"@ + layout->0 + "'. Expected 'secretspec' or 'flat'."@
        }),
{
}

/// Whether two queries agree in the parameters that the provider knows.
pub open spec fn agree(
    query: Seq<(Seq<char>, Seq<char>)>,
    other: Seq<(Seq<char>, Seq<char>)>,
) -> bool {
    &&& lookup(query, "auth"@) == lookup(other, "auth"@)
    &&& lookup(query, "auth_mount"@) == lookup(other, "auth_mount"@)
    &&& lookup(query, "role"@) == lookup(other, "role"@)
    &&& lookup(query, "jwt"@) == lookup(other, "jwt"@)
    &&& lookup(query, "audience"@) == lookup(other, "audience"@)
    &&& lookup(query, "kv"@) == lookup(other, "kv"@)
    &&& lookup(query, "layout"@) == lookup(other, "layout"@)
    &&& lookup(query, "tls"@) == lookup(other, "tls"@)
}

/// Other parameters make no difference, nor does the order of those that do.
pub proof fn other_parameters_make_no_difference(
    url: UrlView,
    query: Seq<(Seq<char>, Seq<char>)>,
    env: EnvironmentView,
)
    requires
        agree(url.query, query),
    ensures
        config_of(UrlView { query, ..url }, env) == config_of(url, env),
{
}

/// The default configuration is what a URI gives that names the local server and
/// nothing else.
pub proof fn default_is_the_local_server(url: UrlView, env: EnvironmentView)
    requires
        url.scheme == "vault"@ || url.scheme == "openbao"@,
        url.host == Some("127.0.0.1"@),
        url.port == Some(8200u16),
        url.username.len() == 0,
        segments(url.path).len() == 0,
        url.query.len() == 0,
        blank(env.namespace),
        blank(env.role),
    ensures
        config_of(url, env) == Ok::<ConfigView, Seq<char>>(default_config()),
{
    assert forall|key: Seq<char>| #[trigger] lookup(url.query, key) is None by {}
    reveal_strlit("127.0.0.1");
    reveal_strlit("https");
    reveal_strlit("://");
    reveal_strlit(":");
    reveal_strlit("https://127.0.0.1:8200");
    reveal_with_fuel(decimal, 4);
    assert("127.0.0.1"@.len() > 0);
    assert(decimal(8200) =~= seq!['8', '2', '0', '0']);
    assert("https"@ + "://"@ + "127.0.0.1"@ + ":"@ + decimal(8200)
        =~= "https://127.0.0.1:8200"@);
}

/// The variables that a URI falls back to are those of the Vault client.
pub proof fn fallbacks_are_the_clients_variables()
    ensures
        ADDRESS_VARIABLE@ == "VAULT_ADDR"@,
        NAMESPACE_VARIABLE@ == "VAULT_NAMESPACE"@,
        ROLE_VARIABLE@ == "VAULT_ROLE"@,
{
}

} // verus!
