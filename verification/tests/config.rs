use vault_provider::config::{
    AuthMethod, Environment, JwtSource, KvVersion, VaultConfig, VaultLayout,
};
use vault_provider::provider::VaultProvider;
use vault_provider::provider_url::ProviderUrl;
use vault_provider::secret::Secret;
use vault_provider::step::{Goal, Step};

fn parsed(uri: &str) -> ProviderUrl {
    ProviderUrl::parse(uri).unwrap()
}

fn config(uri: &str) -> VaultConfig {
    VaultConfig::try_from(&parsed(uri), &Environment::empty()).unwrap()
}

fn rejection(uri: &str) -> String {
    VaultConfig::try_from(&parsed(uri), &Environment::empty()).unwrap_err().message().to_string()
}

fn provider(uri: &str) -> VaultProvider {
    VaultProvider::new(config(uri))
}

fn environment(address: &str, namespace: &str, role: &str) -> Environment {
    Environment {
        address: Some(address.to_string()),
        namespace: Some(namespace.to_string()),
        role: Some(role.to_string()),
    }
}

#[test]
fn test_vault_auth_jwt_is_parsed() {
    let config = config("vault://vault.example.com:8200/secret?auth=jwt&role=ci");
    assert_eq!(config.auth, AuthMethod::Jwt);
    assert_eq!(config.role.as_deref(), Some("ci"));
    assert_eq!(config.jwt_source, JwtSource::Environment);
}

#[test]
fn test_vault_auth_oidc_is_an_alias_for_jwt() {
    let config = config("vault://vault.example.com:8200?auth=oidc");
    assert_eq!(config.auth, AuthMethod::Jwt);
}

#[test]
fn test_vault_unknown_auth_method_is_rejected() {
    let err = rejection("vault://vault.example.com:8200/secret?auth=kerberos");
    assert!(err.contains("kerberos"), "{}", err);
    assert!(err.contains("jwt"), "{}", err);
}

#[test]
fn test_vault_auth_mount_overrides_the_login_path() {
    let provider = provider(
        "vault://vault.example.com:8200/secret?auth=jwt&role=ci&auth_mount=github-actions",
    );
    assert_eq!(
        provider.auth_login_url("jwt"),
        "https://vault.example.com:8200/v1/auth/github-actions/login"
    );
}

#[test]
fn test_vault_auth_mount_defaults_to_the_method_name() {
    let provider = provider("vault://vault.example.com:8200/secret?auth=jwt&role=ci");
    assert_eq!(
        provider.auth_login_url("jwt"),
        "https://vault.example.com:8200/v1/auth/jwt/login"
    );
    assert_eq!(
        provider.auth_login_url("approle"),
        "https://vault.example.com:8200/v1/auth/approle/login"
    );
}

#[test]
fn test_vault_jwt_source_github_actions_is_opt_in() {
    let config = config(
        "vault://vault.example.com:8200/secret?auth=jwt&role=ci&jwt=github-actions&audience=https%3A%2F%2Fgithub.com%2Fred-wiz",
    );
    assert_eq!(config.jwt_source, JwtSource::GithubActions);
    assert_eq!(
        config.audience.as_deref(),
        Some("https://github.com/red-wiz")
    );
}

#[test]
fn test_vault_unknown_jwt_source_is_rejected() {
    let result = VaultConfig::try_from(
        &parsed("vault://vault.example.com:8200/secret?auth=jwt&jwt=carrier-pigeon"),
        &Environment::empty(),
    );
    assert!(result.is_err());
}

#[test]
fn test_vault_jwt_without_a_role_is_rejected() {
    let provider = provider("vault://vault.example.com:8200/secret?auth=jwt");
    let goal = Goal::Fetch { url: "https://vault.example.com:8200".to_string(), key: "K".to_string() };
    let err = match provider.resolve_jwt_auth(goal) {
        Step::Failed { error } => error.message().to_string(),
        _ => panic!("the login went on without a role"),
    };
    assert!(err.contains("role"), "{}", err);
    assert!(err.contains("VAULT_ROLE"), "{}", err);
}

#[test]
fn default_configuration_is_a_local_server() {
    let config = VaultConfig::default();
    assert_eq!(config.endpoint, "https://127.0.0.1:8200");
    assert_eq!(config.mount, "secret");
    assert_eq!(config.path, None);
    assert_eq!(config.kv_version, KvVersion::V2);
    assert_eq!(config.namespace, None);
    assert_eq!(config.auth, AuthMethod::Token);
    assert_eq!(config.auth_mount, None);
    assert_eq!(config.role, None);
    assert_eq!(config.audience, None);
    assert_eq!(config.jwt_source, JwtSource::Environment);
    assert_eq!(config.layout, VaultLayout::SecretSpec);
}

#[test]
fn bare_uri_leaves_the_defaults() {
    let config = config("vault://vault.example.com");
    assert_eq!(config.endpoint, "https://vault.example.com");
    assert_eq!(config.mount, "secret");
    assert_eq!(config.path, None);
    assert_eq!(config.kv_version, KvVersion::default());
    assert_eq!(config.namespace, None);
    assert_eq!(config.auth, AuthMethod::default());
    assert_eq!(config.auth_mount, None);
    assert_eq!(config.role, None);
    assert_eq!(config.audience, None);
    assert_eq!(config.jwt_source, JwtSource::default());
    assert_eq!(config.layout, VaultLayout::default());
}

#[test]
fn text_that_is_no_uri_is_not_parsed() {
    assert_eq!(ProviderUrl::parse("vault").unwrap_err(), "relative URL without a base");
    assert_eq!(ProviderUrl::parse("vault://host:port").unwrap_err(), "invalid port number");
}

#[test]
fn uri_is_taken_apart() {
    let url = parsed("VAULT://ns1@vault.example.com:8200/kv/team?kv=1&role=a+b&role=c");
    assert_eq!(url.scheme, "vault");
    assert_eq!(url.username, "ns1");
    assert_eq!(url.host.as_deref(), Some("vault.example.com"));
    assert_eq!(url.port, Some(8200));
    assert_eq!(url.path, "/kv/team");
    assert_eq!(
        url.query,
        vec![
            ("kv".to_string(), "1".to_string()),
            ("role".to_string(), "a b".to_string()),
            ("role".to_string(), "c".to_string()),
        ]
    );
}

#[test]
fn first_query_parameter_of_a_name_counts() {
    let url = parsed("vault://host?role=first&role=second&empty=");
    assert_eq!(url.query_value("role").as_deref(), Some("first"));
    assert_eq!(url.query_value("empty").as_deref(), Some(""));
    assert_eq!(url.query_value("audience"), None);
}

#[test]
fn foreign_scheme_is_rejected() {
    assert_eq!(
        rejection("https://vault.example.com:8200"),
        "Invalid scheme 'https' for vault provider. Expected 'vault' or 'openbao'."
    );
}

#[test]
fn unknown_names_are_rejected_in_full() {
    assert_eq!(
        rejection("vault://h?auth=kerberos"),
        "Unknown auth method 'kerberos'. Expected 'token', 'approle' or 'jwt'."
    );
    assert_eq!(
        rejection("vault://h?jwt=carrier-pigeon"),
        "Unknown jwt source 'carrier-pigeon'. Expected 'env' or 'github-actions'."
    );
    assert_eq!(
        rejection("vault://h?layout=tree"),
        "Unknown Vault layout 'tree'. Expected 'secretspec' or 'flat'."
    );
    assert_eq!(
        rejection("vault://h?auth="),
        "Unknown auth method ''. Expected 'token', 'approle' or 'jwt'."
    );
}

#[test]
fn first_fault_is_reported() {
    assert!(rejection("http://h?auth=x&jwt=y&layout=z").starts_with("Invalid scheme"));
    assert!(rejection("vault://h?layout=z&jwt=y&auth=x").starts_with("Unknown auth method"));
    assert!(rejection("vault://h?layout=z&jwt=y").starts_with("Unknown jwt source"));
    assert!(rejection("vault:///kv?auth=x").starts_with("No Vault address provided."));
}

#[test]
fn address_comes_from_the_environment_where_the_uri_has_none() {
    let url = parsed("vault:///kv");
    let env = environment("http://127.0.0.1:8200", "", "");
    let config = VaultConfig::try_from(&url, &env).unwrap();
    assert_eq!(config.endpoint, "http://127.0.0.1:8200");
    assert_eq!(config.mount, "kv");
    let message = "No Vault address provided. Either specify a host in the URI (e.g., vault://vault.example.com:8200) or set the VAULT_ADDR environment variable.";
    assert_eq!(rejection("vault:///kv"), message);
    let blank = environment("", "", "");
    assert_eq!(VaultConfig::try_from(&url, &blank).unwrap_err().message(), message);
}

#[test]
fn uri_wins_over_the_environment() {
    let env = environment("https://elsewhere:1", "other", "another");
    let full = VaultConfig::try_from(&parsed("vault://ns@host:8200?role=ci"), &env).unwrap();
    assert_eq!(full.endpoint, "https://host:8200");
    assert_eq!(full.namespace.as_deref(), Some("ns"));
    assert_eq!(full.role.as_deref(), Some("ci"));
    let bare = VaultConfig::try_from(&parsed("vault://host:8200?role="), &env).unwrap();
    assert_eq!(bare.endpoint, "https://host:8200");
    assert_eq!(bare.namespace.as_deref(), Some("other"));
    assert_eq!(bare.role.as_deref(), Some("another"));
}

#[test]
fn empty_variables_count_as_absent() {
    let config = VaultConfig::try_from(&parsed("vault://host"), &environment("", "", "")).unwrap();
    assert_eq!(config.namespace, None);
    assert_eq!(config.role, None);
}

#[test]
fn tls_is_used_unless_switched_off() {
    assert_eq!(config("vault://h:1?tls=false").endpoint, "http://h:1");
    assert_eq!(config("vault://h?tls=0").endpoint, "http://h");
    assert_eq!(config("vault://h?tls=no").endpoint, "https://h");
    assert_eq!(config("vault://h?tls=true").endpoint, "https://h");
    assert_eq!(config("vault://h:65535").endpoint, "https://h:65535");
    assert_eq!(config("vault://h:0").endpoint, "https://h:0");
}

#[test]
fn mount_and_path_are_the_segments_of_the_path() {
    let document = config("openbao://vault.example.com:8200/kv/team/app/dev?layout=flat");
    assert_eq!(document.mount, "kv");
    assert_eq!(document.path.as_deref(), Some("team/app/dev"));
    let slashes = config("vault://h//kv//team///app/");
    assert_eq!(slashes.mount, "kv");
    assert_eq!(slashes.path.as_deref(), Some("team/app"));
    let root = config("vault://h/");
    assert_eq!(root.mount, "secret");
    assert_eq!(root.path, None);
    assert_eq!(config("vault://h/kv/").path, None);
}

#[test]
fn engine_version_is_two_unless_one_is_named() {
    assert_eq!(config("vault://h?kv=1").kv_version, KvVersion::V1);
    assert_eq!(config("vault://h?kv=v1").kv_version, KvVersion::V1);
    assert_eq!(config("vault://h?kv=2").kv_version, KvVersion::V2);
    assert_eq!(config("vault://h?kv=3").kv_version, KvVersion::V2);
    assert_eq!(config("vault://h").kv_version, KvVersion::V2);
}

#[test]
fn names_of_methods_sources_and_layouts() {
    assert_eq!(config("vault://h?auth=token").auth, AuthMethod::Token);
    assert_eq!(config("vault://h?auth=approle").auth, AuthMethod::AppRole);
    assert_eq!(config("vault://h?jwt=env").jwt_source, JwtSource::Environment);
    assert_eq!(config("vault://h?jwt=environment").jwt_source, JwtSource::Environment);
    assert_eq!(config("vault://h?jwt=github").jwt_source, JwtSource::GithubActions);
    assert_eq!(config("vault://h?layout=secretspec").layout, VaultLayout::SecretSpec);
    assert_eq!(config("vault://h?layout=default").layout, VaultLayout::SecretSpec);
    assert_eq!(config("vault://h?layout=flat").layout, VaultLayout::Flat);
}

#[test]
fn empty_parameters_count_as_absent() {
    let config = config("vault://h?auth_mount=&role=&audience=");
    assert_eq!(config.auth_mount, None);
    assert_eq!(config.role, None);
    assert_eq!(config.audience, None);
}

#[test]
fn openbao_and_vault_mean_the_same() {
    let rest = "://ns@h:8200/kv/a?kv=1&layout=flat&auth=approle";
    let vault = config(&format!("vault{}", rest));
    let openbao = config(&format!("openbao{}", rest));
    assert_eq!(format!("{:?}", vault), format!("{:?}", openbao));
}

#[test]
fn secret_gives_its_text_back() {
    assert_eq!(Secret::new("s3cret".to_string()).expose(), "s3cret");
    assert_eq!(Secret::new("\u{e9}\n ".to_string()).expose(), "\u{e9}\n ");
    assert_eq!(Secret::new(String::new()).expose(), "");
}
