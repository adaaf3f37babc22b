use serde_json::Value;
use vault_provider::config::{AuthMethod, Environment, KvVersion, VaultConfig, VaultLayout};
use vault_provider::provider::VaultProvider;
use vault_provider::provider_url::ProviderUrl;
use vault_provider::secret::Secret;

fn provider_of(uri: &str) -> VaultProvider {
    let url = ProviderUrl::parse(uri).unwrap();
    VaultProvider::new(VaultConfig::try_from(&url, &Environment::empty()).unwrap())
}

fn json(text: &str) -> Value {
    serde_json::from_str(text).unwrap()
}

fn secret(text: &str) -> Secret {
    Secret::new(text.to_string())
}

fn exposed(secret: Option<Secret>) -> Option<String> {
    secret.map(|secret| secret.expose().to_string())
}

#[test]
fn name_and_writability() {
    let provider = provider_of("openbao://bao.internal:8200/secret");
    assert_eq!(provider.name(), "vault");
    assert!(provider.allows_set());
    assert_eq!(provider.config().endpoint, "https://bao.internal:8200");
}

#[test]
fn own_entry_is_named_by_project_profile_and_key() {
    assert_eq!(
        VaultProvider::format_secretspec_path("app", "dev", "DATABASE_URL").unwrap(),
        "secretspec/app/dev/DATABASE_URL"
    );
}

#[test]
fn empty_names_are_rejected_in_order() {
    let message = |project: &str, profile: &str, key: &str| {
        VaultProvider::format_secretspec_path(project, profile, key)
            .unwrap_err()
            .message()
            .to_string()
    };
    assert_eq!(message("", "", ""), "project cannot be empty");
    assert_eq!(message("p", "", ""), "profile cannot be empty");
    assert_eq!(message("p", "q", ""), "key cannot be empty");
}

#[test]
fn flat_document_is_the_configured_one_or_that_of_the_profile() {
    let configured = provider_of("vault://h/kv/team/app/dev?layout=flat");
    assert_eq!(configured.format_flat_path("", "").unwrap(), "team/app/dev");
    let bare = provider_of("vault://h/kv?layout=flat");
    assert_eq!(bare.format_flat_path("app", "dev").unwrap(), "secretspec/app/dev");
    assert_eq!(bare.format_flat_path("", "dev").unwrap_err().message(), "project cannot be empty");
    assert_eq!(bare.format_flat_path("app", "").unwrap_err().message(), "profile cannot be empty");
}

#[test]
fn documents_of_version_two_are_under_data() {
    let two = provider_of("vault://vault.example.com:8200/secret");
    assert_eq!(two.build_url("a/b"), "https://vault.example.com:8200/v1/secret/data/a/b");
    let one = provider_of("vault://127.0.0.1:8200/secret?kv=1");
    assert_eq!(one.build_url("a/b"), "https://127.0.0.1:8200/v1/secret/a/b");
}

#[test]
fn secret_url_follows_the_layout() {
    let entry = provider_of("vault://vault.example.com:8200/secret");
    assert_eq!(
        entry.secret_url("app", "dev", "KEY").unwrap(),
        "https://vault.example.com:8200/v1/secret/data/secretspec/app/dev/KEY"
    );
    assert_eq!(entry.secret_url("app", "dev", "").unwrap_err().message(), "key cannot be empty");
    let flat = provider_of("openbao://vault.example.com:8200/kv/team/app/dev?layout=flat");
    assert_eq!(
        flat.secret_url("app", "dev", "DATABASE_URL").unwrap(),
        "https://vault.example.com:8200/v1/kv/data/team/app/dev"
    );
}

#[test]
fn slash_free_names_have_separate_entries() {
    let provider = provider_of("vault://h");
    let url = |project: &str, profile: &str, key: &str| {
        provider.secret_url(project, profile, key).unwrap()
    };
    assert_ne!(url("a", "b", "c"), url("a", "b", "d"));
    assert_ne!(url("a", "b", "c"), url("a", "bc", "c"));
    assert_ne!(url("a", "b", "c"), url("ab", "b", "c"));
    assert_eq!(url("a/b", "c", "k"), url("a", "b/c", "k"));
}

#[test]
fn flat_keys_are_in_one_document() {
    let provider = provider_of("vault://h?layout=flat");
    assert_eq!(
        provider.secret_url("app", "dev", "A").unwrap(),
        provider.secret_url("app", "dev", "B").unwrap()
    );
}

#[test]
fn auth_mount_loses_its_outer_slashes() {
    let provider = provider_of("vault://h?auth_mount=/team/jwt//");
    assert_eq!(provider.auth_login_url("jwt"), "https://h/v1/auth/team/jwt/login");
    assert_eq!(provider_of("vault://h").auth_login_url("/jwt/"), "https://h/v1/auth/jwt/login");
}

#[test]
fn auth_mount_loses_any_run_of_outer_slashes() {
    let login = |mount: &str| {
        let config = VaultConfig { auth_mount: Some(mount.to_string()), ..VaultConfig::default() };
        VaultProvider::new(config).auth_login_url("jwt")
    };
    let plain = provider_of("vault://h");
    for front in ["", "/", "///"] {
        for back in ["", "/", "//"] {
            assert_eq!(login(&format!("{}a/b{}", front, back)), login("a/b"));
            assert_eq!(
                plain.auth_login_url(&format!("{}jwt{}", front, back)),
                "https://h/v1/auth/jwt/login"
            );
        }
    }
}

#[test]
fn headers_hold_the_token_and_the_namespace() {
    let headers = VaultProvider::build_headers(&secret("s.token"), &None).unwrap();
    assert_eq!(headers.len(), 1);
    assert_eq!(headers.get("x-vault-token").unwrap().as_bytes(), b"s.token");
    let both = VaultProvider::build_headers(&secret("t"), &Some("team-\u{e9}".to_string())).unwrap();
    assert_eq!(both.len(), 2);
    assert_eq!(both.get("X-Vault-Token").unwrap().as_bytes(), b"t");
    assert_eq!(both.get("X-Vault-Namespace").unwrap().as_bytes(), "team-\u{e9}".as_bytes());
}

#[test]
fn control_characters_make_no_header() {
    let message = |token: &str, namespace: &str| {
        VaultProvider::build_headers(&secret(token), &Some(namespace.to_string()))
            .unwrap_err()
            .message()
            .to_string()
    };
    assert_eq!(message("a\nb", "ns"), "Invalid token value: failed to parse header value");
    assert_eq!(message("a\u{7f}", "n\ns"), "Invalid token value: failed to parse header value");
    assert_eq!(message("a", "n\u{0}s"), "Invalid namespace value: failed to parse header value");
    assert!(VaultProvider::build_headers(&secret("a\tb"), &Some(String::new())).is_ok());
}

#[test]
fn stored_fields_are_wrapped_by_version() {
    let two = provider_of("vault://h");
    let one = provider_of("vault://h?kv=1");
    let reply = json(r#"{"data": {"data": {"value": "x"}, "metadata": {}}}"#);
    let fields = two.extract_kv_data(&reply).unwrap();
    assert_eq!(Value::Object(fields.clone()), json(r#"{"value": "x"}"#));
    let fields = one.extract_kv_data(&reply).unwrap();
    assert_eq!(Value::Object(fields.clone()), json(r#"{"data": {"value": "x"}, "metadata": {}}"#));
    assert!(two.extract_kv_data(&json(r#"{"data": {"value": "x"}}"#)).is_none());
    assert!(two.extract_kv_data(&json(r#"{"data": {"data": "x"}}"#)).is_none());
    assert!(one.extract_kv_data(&json(r#"{"data": []}"#)).is_none());
    assert!(one.extract_kv_data(&json("[1]")).is_none());
}

#[test]
fn secret_is_read_from_the_field_of_the_layout() {
    let entry = provider_of("vault://h");
    let flat = provider_of("vault://h?layout=flat");
    let reply = json(r#"{"data": {"data": {"value": "one", "KEY": "two", "PORT": 80}}}"#);
    assert_eq!(exposed(entry.read_secret("KEY", &reply)).as_deref(), Some("one"));
    assert_eq!(exposed(flat.read_secret("KEY", &reply)).as_deref(), Some("two"));
    assert_eq!(exposed(flat.read_secret("PORT", &reply)), None);
    assert_eq!(exposed(flat.read_secret("OTHER", &reply)), None);
    assert_eq!(exposed(entry.read_secret("KEY", &json("{}"))), None);
    let one = provider_of("vault://h?kv=1");
    let plain = json(r#"{"data": {"value": "three"}}"#);
    assert_eq!(exposed(one.read_secret("KEY", &plain)).as_deref(), Some("three"));
}

#[test]
fn stored_fields_are_none_without_a_document() {
    let provider = provider_of("vault://h?layout=flat");
    assert!(provider.stored_fields(&json("null")).is_empty());
    let reply = json(r#"{"data": {"data": {"A": "1", "N": 2}}}"#);
    assert_eq!(Value::Object(provider.stored_fields(&reply)), json(r#"{"A": "1", "N": 2}"#));
}

#[test]
fn document_to_write_follows_layout_and_version() {
    let before = || json(r#"{"A": "1", "KEY": "old", "N": [2]}"#).as_object().unwrap().clone();
    let written = |uri: &str| provider_of(uri).secret_document(before(), "KEY", &secret("new"));
    assert_eq!(written("vault://h"), json(r#"{"data": {"value": "new"}}"#));
    assert_eq!(written("vault://h?kv=1"), json(r#"{"value": "new"}"#));
    assert_eq!(
        written("vault://h?layout=flat"),
        json(r#"{"data": {"A": "1", "KEY": "new", "N": [2]}}"#)
    );
    assert_eq!(
        written("vault://h?layout=flat&kv=1"),
        json(r#"{"A": "1", "KEY": "new", "N": [2]}"#)
    );
}

#[test]
fn read_of_a_written_document_gives_the_secret_back() {
    for uri in ["vault://h", "vault://h?kv=1", "vault://h?layout=flat", "vault://h?layout=flat&kv=1"] {
        let provider = provider_of(uri);
        let before = json(r#"{"OTHER": "kept"}"#).as_object().unwrap().clone();
        let written = provider.secret_document(before, "KEY", &secret("new"));
        let mut reply = serde_json::Map::new();
        reply.insert("data".to_string(), written);
        let reply = Value::Object(reply);
        assert_eq!(exposed(provider.read_secret("KEY", &reply)).as_deref(), Some("new"), "{}", uri);
        if provider.config().layout == VaultLayout::Flat {
            assert_eq!(exposed(provider.read_secret("OTHER", &reply)).as_deref(), Some("kept"));
        }
    }
}

#[test]
fn uri_shows_what_differs_from_the_defaults() {
    assert_eq!(provider_of("vault://vault.example.com:8200/secret").uri(), "vault://vault.example.com:8200");
    assert_eq!(provider_of("openbao://h/kv").uri(), "vault://h/kv");
    assert_eq!(provider_of("vault://h/secret/a").uri(), "vault://h/secret/a");
    assert_eq!(
        provider_of("vault://ns@h:1/kv/a/b?auth=approle&kv=1&layout=flat&tls=false").uri(),
        "vault://h:1/kv/a/b?layout=flat&kv=1&auth=approle"
    );
    assert_eq!(provider_of("vault://h?auth=jwt&role=ci").uri(), "vault://h");
    assert_eq!(provider_of("vault://h?kv=1").uri(), "vault://h?kv=1");
}

#[test]
fn uri_loses_every_web_scheme_in_front() {
    let config = VaultConfig {
        endpoint: "https://https://http://http://h".to_string(),
        ..VaultConfig::default()
    };
    assert_eq!(VaultProvider::new(config).uri(), "vault://h");
    let config = VaultConfig { endpoint: "http://https://h".to_string(), ..VaultConfig::default() };
    assert_eq!(VaultProvider::new(config).uri(), "vault://https://h");
}

#[test]
fn own_uri_gives_the_same_store() {
    for uri in ["vault://h", "vault://h/kv/a/b?layout=flat&kv=1&auth=approle", "vault://h//secret//x/"] {
        let first = provider_of(uri);
        let again = provider_of(&first.uri());
        assert_eq!(again.config().mount, first.config().mount);
        assert_eq!(again.config().path, first.config().path);
        assert_eq!(again.config().kv_version, first.config().kv_version);
        assert_eq!(again.config().layout, first.config().layout);
        assert_eq!(again.config().auth, first.config().auth);
    }
    let jwt = provider_of("vault://h?auth=jwt&role=ci");
    assert_eq!(jwt.config().auth, AuthMethod::Jwt);
    assert_eq!(provider_of(&jwt.uri()).config().auth, AuthMethod::Token);
    assert_eq!(jwt.config().kv_version, KvVersion::V2);
}

#[test]
fn own_uri_gives_the_configuration_back() {
    let hosts = ["h", "vault.example.com", "127.0.0.1", "a-1.b", "1", "-", "xn--a", "0x7f.1"];
    let ports = [None, Some(0u16), Some(80), Some(443), Some(8200), Some(65535)];
    let places = [("secret", None), ("secret", Some("a")), ("kv-2_X", None), ("Kv", Some("a_b/C-d/0"))];
    for host in hosts {
        for port in ports {
            for (mount, path) in places {
                for kv_version in [KvVersion::V1, KvVersion::V2] {
                    for auth in [AuthMethod::Token, AuthMethod::AppRole] {
                        for layout in [VaultLayout::SecretSpec, VaultLayout::Flat] {
                            let config = VaultConfig {
                                endpoint: match port {
                                    Some(port) => format!("https://{}:{}", host, port),
                                    None => format!("https://{}", host),
                                },
                                mount: mount.to_string(),
                                path: path.map(|path: &str| path.to_string()),
                                kv_version,
                                auth,
                                layout,
                                ..VaultConfig::default()
                            };
                            let uri = VaultProvider::new(config.clone()).uri();
                            let url = ProviderUrl::parse(&uri).unwrap();
                            let again = VaultConfig::try_from(&url, &Environment::empty()).unwrap();
                            assert_eq!(format!("{:?}", again), format!("{:?}", config), "{}", uri);
                        }
                    }
                }
            }
        }
    }
}

#[test]
fn plain_parts_are_taken_apart_as_they_are() {
    let url = ProviderUrl::parse("vault://a.b-1:80//Kv_2/-/x/?k=v&k=w&K-_9=0").unwrap();
    assert_eq!(url.scheme, "vault");
    assert_eq!(url.username, "");
    assert_eq!(url.host.as_deref(), Some("a.b-1"));
    assert_eq!(url.port, Some(80));
    assert_eq!(url.path, "//Kv_2/-/x/");
    let pairs: Vec<(&str, &str)> =
        url.query.iter().map(|(name, value)| (name.as_str(), value.as_str())).collect();
    assert_eq!(pairs, vec![("k", "v"), ("k", "w"), ("K-_9", "0")]);
    let bare = ProviderUrl::parse("vault://h?k=v").unwrap();
    assert_eq!(bare.path, "");
    assert_eq!(bare.port, None);
}
