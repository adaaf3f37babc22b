//! What holds of the places where secrets are kept, and of what is kept there.
use vstd::prelude::*;
use vstd::utf8::encode_utf8;

use crate::config::{AuthMethod, ConfigView, KvVersion, VaultLayout};
use crate::http::{header_name, header_text};
use crate::json::{json_member, json_text, JsonView};
use crate::laws::{is_segment, lemma_first_piece, lemma_same_prefix, slash_free};
use crate::provider::{
    api_headers, api_url, document_path, document_url, kv_data, login_url, stored_secret,
    updated_fields, uri_of, uri_parameters, write_body, NO_KEY, NO_PROFILE, NO_PROJECT,
};
use crate::provider_url::{parameter_texts, query_text};
use crate::text::{joined, segments, without_outer_slashes, without_prefixes};
use crate::text_laws::slashes_part_the_segments;

verus! {

/// The URL of a document is that of the server, the mount and its path, with
/// `data` in between for version 2 of the engine. So documents with different
/// paths have different URLs.
pub proof fn documents_are_under_the_mount(
    config: ConfigView,
    project: Seq<char>,
    profile: Seq<char>,
    key: Seq<char>,
)
    ensures
        document_url(config, project, profile, key) is Ok <==> document_path(
            config,
            project,
            profile,
            key,
        ) is Ok,
        document_url(config, project, profile, key) is Ok ==> {
            let url = document_url(config, project, profile, key)->Ok_0;
            let path = document_path(config, project, profile, key)->Ok_0;
            &&& config.kv_version == KvVersion::V2 ==> url == config.endpoint + "/v1/"@
                + config.mount + "/data/"@ + path
            &&& config.kv_version == KvVersion::V1 ==> url == config.endpoint + "/v1/"@
                + config.mount + "/"@ + path
        },
{
}

proof fn lemma_segment(text: Seq<char>)
    requires
        is_segment(text),
    ensures
        segments(text) == seq![text],
{
    slashes_part_the_segments(seq![], text);
}

proof fn lemma_two_segments(before: Seq<char>, segment: Seq<char>)
    requires
        is_segment(segment),
    ensures
        segments(before + "/"@ + segment) == segments(before).push(segment),
{
    reveal_strlit("/");
    slashes_part_the_segments(before, segment);
    assert(before + "/"@ + segment =~= before.push('/') + segment);
    lemma_segment(segment);
    assert(segments(before) + seq![segment] =~= segments(before).push(segment));
}

/// The path of a document names what is in it, segment by segment: `secretspec`,
/// the project, the profile, and in the layout with one entry per key the key. A
/// configured path stands in place of all of them in the flat layout.
pub proof fn paths_name_project_profile_and_key(
    config: ConfigView,
    project: Seq<char>,
    profile: Seq<char>,
    key: Seq<char>,
)
    requires
        is_segment(project),
        is_segment(profile),
        is_segment(key),
    ensures
        document_path(config, project, profile, key) is Ok,
        ({
            let path = document_path(config, project, profile, key)->Ok_0;
            &&& config.layout == VaultLayout::SecretSpec ==> segments(path) == seq![
                "secretspec"@,
                project,
                profile,
                key,
            ]
            &&& config.layout == VaultLayout::Flat && config.path is None ==> segments(path)
                == seq!["secretspec"@, project, profile]
            &&& config.layout == VaultLayout::Flat && config.path is Some ==> path
                == config.path->0
        }),
{
    reveal_strlit("secretspec");
    reveal_strlit("secretspec/");
    reveal_strlit("/");
    let root = "secretspec"@;
    assert(is_segment(root));
    lemma_segment(root);
    lemma_two_segments(root, project);
    lemma_two_segments(root + "/"@ + project, profile);
    lemma_two_segments(root + "/"@ + project + "/"@ + profile, key);
    let profile_path = root + "/"@ + project + "/"@ + profile;
    assert("secretspec/"@ =~= root + "/"@);
    assert("secretspec/"@ + project + "/"@ + profile =~= profile_path);
    assert("secretspec/"@ + project + "/"@ + profile + "/"@ + key =~= profile_path + "/"@ + key);
    assert(segments(profile_path) =~= seq!["secretspec"@, project, profile]);
    assert(segments(profile_path + "/"@ + key) =~= seq!["secretspec"@, project, profile, key]);
}

/// A document's path ends with its names, whatever is in them: with the key in
/// the layout with one entry per key, and with the profile in the flat one. In
/// front of the profile stands the project.
pub proof fn paths_end_with_their_names(
    config: ConfigView,
    project: Seq<char>,
    profile: Seq<char>,
    key: Seq<char>,
)
    requires
        project.len() > 0,
        profile.len() > 0,
        key.len() > 0,
    ensures
        config.layout == VaultLayout::SecretSpec ==> document_path(config, project, profile, key)
            == Ok::<Seq<char>, Seq<char>>(
            "secretspec/"@ + (project + "/"@ + (profile + "/"@ + key)),
        ),
        config.layout == VaultLayout::Flat && config.path is None ==> document_path(
            config,
            project,
            profile,
            key,
        ) == Ok::<Seq<char>, Seq<char>>("secretspec/"@ + (project + "/"@ + profile)),
{
    assert("secretspec/"@ + project + "/"@ + profile + "/"@ + key =~= "secretspec/"@ + (project
        + "/"@ + (profile + "/"@ + key)));
    assert("secretspec/"@ + project + "/"@ + profile =~= "secretspec/"@ + (project + "/"@
        + profile));
}

/// In the flat layout without a configured path, the documents of different
/// profiles and of different projects are separate, as long as the names of
/// projects have no slash. The key makes no difference.
pub proof fn flat_documents_are_separate(
    config: ConfigView,
    project: Seq<char>,
    profile: Seq<char>,
    key: Seq<char>,
    other_project: Seq<char>,
    other_profile: Seq<char>,
    other_key: Seq<char>,
)
    requires
        config.layout == VaultLayout::Flat,
        config.path is None,
        slash_free(project),
        slash_free(other_project),
        document_url(config, project, profile, key) is Ok,
        document_url(config, project, profile, key) == document_url(
            config,
            other_project,
            other_profile,
            other_key,
        ),
    ensures
        project == other_project,
        profile == other_profile,
{
    let path = document_path(config, project, profile, key)->Ok_0;
    let other = document_path(config, other_project, other_profile, other_key)->Ok_0;
    let prefix = match config.kv_version {
        KvVersion::V2 => config.endpoint + "/v1/"@ + config.mount + "/data/"@,
        KvVersion::V1 => config.endpoint + "/v1/"@ + config.mount + "/"@,
    };
    assert(api_url(config, path) == prefix + path);
    assert(api_url(config, other) == prefix + other);
    lemma_same_prefix(prefix, path, other);
    assert(path =~= "secretspec/"@ + (project + "/"@ + profile));
    assert(other =~= "secretspec/"@ + (other_project + "/"@ + other_profile));
    lemma_same_prefix(
        "secretspec/"@,
        project + "/"@ + profile,
        other_project + "/"@ + other_profile,
    );
    lemma_first_piece(project, profile, other_project, other_profile);
}

/// A document is refused only for want of a name that it is found by, and the
/// message says which: the project, the profile, or in the layout with one entry
/// per key the key. A configured flat document needs none of them.
pub proof fn names_are_needed(
    config: ConfigView,
    project: Seq<char>,
    profile: Seq<char>,
    key: Seq<char>,
)
    ensures
        ({
            let url = document_url(config, project, profile, key);
            let configured = config.layout == VaultLayout::Flat && config.path is Some;
            let needs_key = config.layout == VaultLayout::SecretSpec;
            &&& url is Err <==> !configured && (project.len() == 0 || profile.len() == 0
                || needs_key && key.len() == 0)
            &&& url is Err && project.len() == 0 ==> url->Err_0 == NO_PROJECT@
            &&& url is Err && project.len() > 0 && profile.len() == 0 ==> url->Err_0
                == NO_PROFILE@
            &&& url is Err && project.len() > 0 && profile.len() > 0 ==> url->Err_0 == NO_KEY@
        }),
{
}

/// A login goes to the backend that the configuration names, and without a name
/// to the one at the default mount.
pub proof fn logins_go_to_the_backend(config: ConfigView, default_mount: Seq<char>)
    ensures
        config.auth_mount is Some ==> login_url(config, default_mount) == config.endpoint
            + "/v1/auth/"@ + without_outer_slashes(config.auth_mount->0) + "/login"@,
        config.auth_mount is None ==> login_url(config, default_mount) == config.endpoint
            + "/v1/auth/"@ + without_outer_slashes(default_mount) + "/login"@,
{
}

/// Whether headers are the token and, where there is one, the namespace, each
/// once and as its UTF-8 bytes, and nothing else.
pub open spec fn are_token_and_namespace(
    headers: Map<Seq<char>, Seq<Seq<u8>>>,
    token: Seq<char>,
    namespace: Option<Seq<char>>,
) -> bool {
    &&& forall|name: Seq<char>| #[trigger]
        headers.contains_key(name) <==> name == "x-vault-token"@ || namespace is Some && name
            == "x-vault-namespace"@
    &&& headers["x-vault-token"@] == seq![encode_utf8(token)]
    &&& namespace is Some ==> headers["x-vault-namespace"@] == seq![encode_utf8(namespace->0)]
}

pub(crate) proof fn lemma_header_names()
    ensures
        header_name("X-Vault-Token"@) == "x-vault-token"@,
        header_name("X-Vault-Namespace"@) == "x-vault-namespace"@,
        "x-vault-token"@ != "x-vault-namespace"@,
{
    reveal_strlit("X-Vault-Token");
    reveal_strlit("X-Vault-Namespace");
    reveal_strlit("x-vault-token");
    reveal_strlit("x-vault-namespace");
    assert(header_name("X-Vault-Token"@) =~= "x-vault-token"@);
    assert(header_name("X-Vault-Namespace"@) =~= "x-vault-namespace"@);
    assert("x-vault-token"@.len() == 13 && "x-vault-namespace"@.len() == 17);
}

/// The headers of a request carry the token and the namespace and nothing else.
/// There are some if and only if both can stand in a header, and the message says
/// which of them cannot.
pub proof fn headers_carry_token_and_namespace(token: Seq<char>, namespace: Option<Seq<char>>)
    ensures
        api_headers(token, namespace) is Ok <==> header_text(token) && (namespace is Some
            ==> header_text(namespace->0)),
        api_headers(token, namespace) is Ok ==> are_token_and_namespace(
            api_headers(token, namespace)->Ok_0,
            token,
            namespace,
        ),
        !header_text(token) ==> api_headers(token, namespace)->Err_0 == "Invalid token value: "@
            + "failed to parse header value"@,
        header_text(token) && namespace is Some && !header_text(namespace->0) ==> api_headers(
            token,
            namespace,
        )->Err_0 == "Invalid namespace value: "@ + "failed to parse header value"@,
{
    lemma_header_names();
}

/// Headers that carry the same token and namespace, and nothing else, are the
/// same.
pub(crate) proof fn lemma_same_headers_by_content(
    token: Seq<char>,
    namespace: Option<Seq<char>>,
    headers: Map<Seq<char>, Seq<Seq<u8>>>,
)
    requires
        api_headers(token, namespace) is Ok,
        are_token_and_namespace(headers, token, namespace),
    ensures
        api_headers(token, namespace) == Ok::<Map<Seq<char>, Seq<Seq<u8>>>, Seq<char>>(headers),
{
    headers_carry_token_and_namespace(token, namespace);
    lemma_header_names();
    let made = api_headers(token, namespace)->Ok_0;
    assert forall|name: Seq<char>| #[trigger] made.contains_key(name) == headers.contains_key(
        name,
    ) by {}
    assert forall|name: Seq<char>| made.contains_key(name) implies #[trigger] made[name]
        == headers[name] by {}
    assert(made =~= headers);
}

/// The member of a member.
pub open spec fn member_of_member(
    document: JsonView,
    outer: Seq<char>,
    inner: Seq<char>,
) -> Option<JsonView> {
    match json_member(document, outer) {
        Some(member) => json_member(member, inner),
        None => None,
    }
}

/// Where the reply to a read holds the stored fields: at `data.data` for version
/// 2 of the engine, at `data` for version 1.
pub open spec fn stored_at(version: KvVersion, reply: JsonView) -> Option<JsonView> {
    if version == KvVersion::V2 {
        member_of_member(reply, "data"@, "data"@)
    } else {
        json_member(reply, "data"@)
    }
}

/// A secret is read from where the engine keeps it, and from the field that is
/// its own: `value` in the key's own entry, the key in a flat document. It is
/// there if and only if that field is a text.
pub proof fn secret_is_the_text_of_its_field(
    config: ConfigView,
    key: Seq<char>,
    reply: JsonView,
    secret: Seq<char>,
)
    ensures
        ({
            let field = if config.layout == VaultLayout::Flat {
                key
            } else {
                "value"@
            };
            stored_secret(config, key, reply) == Some(secret) <==> stored_at(
                config.kv_version,
                reply,
            ) is Some && json_member(stored_at(config.kv_version, reply)->0, field) == Some(
                JsonView::Text(secret),
            )
        }),
{
}

/// The stored fields are those of the object that the engine keeps, all of them;
/// there are none where it keeps no object.
pub proof fn stored_fields_are_those_of_the_object(version: KvVersion, reply: JsonView)
    ensures
        kv_data(version, reply) is Some <==> stored_at(version, reply) is Some && stored_at(
            version,
            reply,
        )->0 is Object,
        kv_data(version, reply) is Some ==> stored_at(version, reply) == Some(
            JsonView::Object(kv_data(version, reply)->0),
        ),
{
}

/// A member of a document is a field of an object, and a text is that of a
/// string.
pub proof fn members_are_fields(
    fields: Map<Seq<char>, JsonView>,
    name: Seq<char>,
    text: Seq<char>,
    document: JsonView,
)
    ensures
        json_member(JsonView::Object(fields), name) is Some <==> fields.contains_key(name),
        fields.contains_key(name) ==> json_member(JsonView::Object(fields), name) == Some(
            fields[name],
        ),
        !(document is Object) ==> json_member(document, name) is None,
        json_text(JsonView::Text(text)) == Some(text),
        !(document is Text) ==> json_text(document) is None,
{
}

/// Whether a document to write holds some fields and nothing else: under `data`
/// for version 2 of the engine, by themselves for version 1.
pub open spec fn holds(
    version: KvVersion,
    document: JsonView,
    fields: Map<Seq<char>, JsonView>,
) -> bool {
    if version == KvVersion::V2 {
        &&& json_member(document, "data"@) == Some(JsonView::Object(fields))
        &&& forall|name: Seq<char>| name != "data"@ ==> #[trigger] json_member(document, name) is None
    } else {
        document == JsonView::Object(fields)
    }
}

/// A document that is written holds the fields that are to be stored and nothing
/// else.
pub proof fn written_document_holds_the_fields(version: KvVersion, fields: Map<Seq<char>, JsonView>)
    ensures
        holds(version, write_body(version, fields), fields),
{
}

/// Only one document holds some fields and nothing else.
pub(crate) proof fn lemma_holds_is_exact(
    version: KvVersion,
    document: JsonView,
    fields: Map<Seq<char>, JsonView>,
)
    requires
        holds(version, document, fields),
    ensures
        document == write_body(version, fields),
{
    if version == KvVersion::V2 {
        let outer = document->Object_0;
        let made = write_body(version, fields)->Object_0;
        assert forall|name: Seq<char>| #[trigger] outer.contains_key(name) == made.contains_key(
            name,
        ) by {
            if name != "data"@ {
                assert(json_member(document, name) is None);
            }
        }
        assert(outer =~= made);
    }
}

/// Whether some fields are those that there were, with a secret put in: in a flat
/// document under its key, with every other field as it was; in the key's own
/// entry under `value`, and by itself.
pub open spec fn has_secret_put_in(
    layout: VaultLayout,
    before: Map<Seq<char>, JsonView>,
    key: Seq<char>,
    value: Seq<char>,
    after: Map<Seq<char>, JsonView>,
) -> bool {
    let own = if layout == VaultLayout::Flat {
        key
    } else {
        "value"@
    };
    &&& after.contains_key(own) && after[own] == JsonView::Text(value)
    &&& forall|name: Seq<char>|
        name != own ==> {
            &&& #[trigger] after.contains_key(name) <==> layout == VaultLayout::Flat
                && before.contains_key(name)
            &&& after.contains_key(name) ==> after[name] == before[name]
        }
}

/// Storing a secret changes the field that is its own, and no other.
pub proof fn storing_changes_one_field(
    layout: VaultLayout,
    before: Map<Seq<char>, JsonView>,
    key: Seq<char>,
    value: Seq<char>,
)
    ensures
        has_secret_put_in(
            layout,
            before,
            key,
            value,
            updated_fields(layout, before, key, value),
        ),
{
}

/// Only one collection of fields has the secret put in and no other change.
pub(crate) proof fn lemma_put_in_is_exact(
    layout: VaultLayout,
    before: Map<Seq<char>, JsonView>,
    key: Seq<char>,
    value: Seq<char>,
    after: Map<Seq<char>, JsonView>,
)
    requires
        has_secret_put_in(layout, before, key, value, after),
    ensures
        after == updated_fields(layout, before, key, value),
{
    let made = updated_fields(layout, before, key, value);
    storing_changes_one_field(layout, before, key, value);
    assert forall|name: Seq<char>| #[trigger] after.contains_key(name) == made.contains_key(
        name,
    ) by {
        let _ = made.contains_key(name);
    }
    assert(after =~= made);
}

/// The provider's own URI shows where the secrets are: the address without its
/// scheme, and the mount with the path behind it, unless that is the default
/// mount with none. Then come the parameters that differ from the defaults, and
/// no others: not the namespace, nor how the provider logs in with a JWT.
pub proof fn uri_shows_the_place(config: ConfigView)
    ensures
        ({
            let host = without_prefixes(without_prefixes(config.endpoint, "https://"@), "http://"@);
            let path = if config.path is Some {
                "/"@ + config.mount + "/"@ + config.path->0
            } else if config.mount == "secret"@ {
                seq![]
            } else {
                "/"@ + config.mount
            };
            let flat = config.layout == VaultLayout::Flat;
            let first = config.kv_version == KvVersion::V1;
            let approle = config.auth == AuthMethod::AppRole;
            let query = match (flat, first, approle) {
                (false, false, false) => ""@,
                (true, false, false) => "?layout=flat"@,
                (false, true, false) => "?kv=1"@,
                (false, false, true) => "?auth=approle"@,
                (true, true, false) => "?layout=flat&kv=1"@,
                (true, false, true) => "?layout=flat&auth=approle"@,
                (false, true, true) => "?kv=1&auth=approle"@,
                (true, true, true) => "?layout=flat&kv=1&auth=approle"@,
            };
            uri_of(config) == "vault://"@ + host + path + query
        }),
{
    reveal_strlit("");
    reveal_strlit("?");
    reveal_strlit("&");
    reveal_strlit("=");
    reveal_strlit("layout");
    reveal_strlit("flat");
    reveal_strlit("kv");
    reveal_strlit("1");
    reveal_strlit("auth");
    reveal_strlit("approle");
    reveal_strlit("?layout=flat");
    reveal_strlit("?kv=1");
    reveal_strlit("?auth=approle");
    reveal_strlit("?layout=flat&kv=1");
    reveal_strlit("?layout=flat&auth=approle");
    reveal_strlit("?kv=1&auth=approle");
    reveal_strlit("?layout=flat&kv=1&auth=approle");
    let flat = config.layout == VaultLayout::Flat;
    let first = config.kv_version == KvVersion::V1;
    let approle = config.auth == AuthMethod::AppRole;
    let texts = parameter_texts(uri_parameters(config));
    let layout_text = "layout"@ + "="@ + "flat"@;
    let kv_text = "kv"@ + "="@ + "1"@;
    let auth_text = "auth"@ + "="@ + "approle"@;
    reveal_with_fuel(joined, 4);
    match (flat, first, approle) {
        (false, false, false) => {
            assert(query_text(uri_parameters(config)) =~= ""@);
        },
        (true, false, false) => {
            assert(texts =~= seq![layout_text]);
            assert(query_text(uri_parameters(config)) =~= "?layout=flat"@);
        },
        (false, true, false) => {
            assert(texts =~= seq![kv_text]);
            assert(query_text(uri_parameters(config)) =~= "?kv=1"@);
        },
        (false, false, true) => {
            assert(texts =~= seq![auth_text]);
            assert(query_text(uri_parameters(config)) =~= "?auth=approle"@);
        },
        (true, true, false) => {
            assert(texts =~= seq![layout_text, kv_text]);
            assert(texts.drop_last() =~= seq![layout_text]);
            assert(query_text(uri_parameters(config)) =~= "?layout=flat&kv=1"@);
        },
        (true, false, true) => {
            assert(texts =~= seq![layout_text, auth_text]);
            assert(texts.drop_last() =~= seq![layout_text]);
            assert(query_text(uri_parameters(config)) =~= "?layout=flat&auth=approle"@);
        },
        (false, true, true) => {
            assert(texts =~= seq![kv_text, auth_text]);
            assert(texts.drop_last() =~= seq![kv_text]);
            assert(query_text(uri_parameters(config)) =~= "?kv=1&auth=approle"@);
        },
        (true, true, true) => {
            assert(texts =~= seq![layout_text, kv_text, auth_text]);
            assert(texts.drop_last() =~= seq![layout_text, kv_text]);
            assert(texts.drop_last().drop_last() =~= seq![layout_text]);
            assert(query_text(uri_parameters(config)) =~= "?layout=flat&kv=1&auth=approle"@);
        },
    }
}

} // verus!
