//! What profiles are made of: those that are filled in, set up, added or preferred.
use crate::baijimu_cli::WorkspaceView;
use crate::credential::auth;
use crate::credential::config;
use crate::credential::contract::{
    AuthProfileKind, CredentialMetadataView, CredentialProfileView,
};
use crate::credential::files::FileReadView;
use crate::credential::identity;
use crate::credential::identity::ORIGINAL_PROFILE_ID;
use crate::credential::loading;
use crate::credential::operations;
use crate::credential::profile_laws;
use crate::credential::profiles;
use crate::credential::recognition;
use crate::credential::settings_laws;
use crate::credential::shown_laws;
use crate::credential::store::{CredentialStoreView, Stored};
use crate::credential::switch_laws;
use crate::json_compat;
use crate::product_config::ProductConfigView;
use vstd::prelude::*;

verus! {

/// What is filled in where a profile leaves it out, and nothing else: the environment of production; an
/// identity from the environment, the user, the client and the workspace; the name of the workspace, or
/// that of the kept login for a personal profile; and the shared state directory. A personal profile is
/// of no workspace.
pub proof fn only_gaps_are_filled_in(p: CredentialProfileView, home: Seq<char>)
    ensures
        ({
            let q = profiles::normalized(p, home);
            let personal = p.kind == AuthProfileKind::Personal;
            &&& p.environment.len() > 0 ==> q.environment == p.environment
            &&& p.environment.len() == 0 ==> q.environment == "prod"@
            &&& p.profile_id.len() > 0 ==> q.profile_id == p.profile_id
            &&& p.profile_id.len() == 0 ==> q.profile_id == identity::identity(
                q.environment,
                p.user_id,
                p.client_id,
                p.workspace_id,
            )
            &&& p.name.len() > 0 ==> q.name == p.name
            &&& p.name.len() == 0 && !personal ==> q.name == p.workspace_name
            &&& p.name.len() == 0 && personal ==> q.name == "安装前授权备份"@
            &&& p.codex_home.len() > 0 ==> q.codex_home == p.codex_home
            &&& p.codex_home.len() == 0 ==> q.codex_home == home
            &&& personal ==> q.workspace_id == 0
            &&& !personal ==> q.workspace_id == p.workspace_id
            &&& q.kind == p.kind
            &&& q.workspace_name == p.workspace_name
            &&& q.model == p.model
            &&& q.user_id == p.user_id
            &&& q.client_id == p.client_id
            &&& q.activated_at_epoch_seconds == p.activated_at_epoch_seconds
            &&& q.credential_status == p.credential_status
        }),
{
}

/// Of the profiles of a workspace that were put in effect at the same time, none of them the active one,
/// the last in the list is preferred.
pub proof fn last_of_equals_is_preferred(
    all: Seq<CredentialProfileView>,
    active: Option<Seq<char>>,
    workspace: u64,
    last: CredentialProfileView,
)
    requires
        profile_laws::belongs_to(last, workspace),
        profiles::preferred(all, active, workspace) matches Some(found) ==> {
            &&& active == Some(found.profile_id) <==> active == Some(last.profile_id)
            &&& found.activated_at_epoch_seconds <= last.activated_at_epoch_seconds
        },
    ensures
        profiles::preferred(all.push(last), active, workspace) == Some(last),
{
    assert(all.push(last).drop_last() =~= all);
}

/// What a workspace is set up with: its preferred profile, as it is recorded but for the name of the
/// workspace and the state directory; or a new one, with the environment, the default model, the name of
/// the workspace and an identity of its own, that was never in effect.
pub proof fn set_up_profile_is_the_recorded_one(
    t: CredentialStoreView,
    m: CredentialMetadataView,
    workspace_id: u64,
    workspace: WorkspaceView,
    environment: Seq<char>,
    product: ProductConfigView,
)
    ensures
        ({
            let q = operations::workspace_profile(
                t,
                m,
                workspace_id,
                workspace,
                environment,
                product,
            );
            let best = profiles::preferred(m.profiles, m.active_profile_id, workspace_id);
            &&& best matches Some(p) ==> {
                &&& q.profile_id == p.profile_id
                &&& q.kind == p.kind
                &&& q.name == p.name
                &&& q.environment == p.environment
                &&& q.user_id == p.user_id
                &&& q.client_id == p.client_id
                &&& q.workspace_id == p.workspace_id
                &&& q.model == p.model
                &&& q.activated_at_epoch_seconds == p.activated_at_epoch_seconds
                &&& q.credential_status == p.credential_status
            }
            &&& best is None ==> {
                &&& q.profile_id == identity::identity(environment, None, None, workspace_id)
                &&& q.kind == AuthProfileKind::Baijimu
                &&& q.name == workspace.name
                &&& q.environment == environment
                &&& q.user_id is None
                &&& q.client_id is None
                &&& q.workspace_id == workspace_id
                &&& q.model == product.default_model
                &&& q.activated_at_epoch_seconds == 0
            }
            &&& q.workspace_name == workspace.name
            &&& q.codex_home == t.shared_home.text
        }),
{
}

/// The identity of a workspace profile is made of the environment, the user, the client and the workspace,
/// in this order, and of zero and the word for this machine where user and client are not known.
pub proof fn identity_names_its_parts(
    environment: Seq<char>,
    user: u64,
    client: Seq<char>,
    workspace: u64,
)
    ensures
        identity::identity(environment, Some(user), Some(client), workspace) == identity::segment(
            environment,
        ) + ":user-"@ + crate::text::decimal(user as nat) + ":client-"@ + identity::segment(client)
            + ":workspace-"@ + crate::text::decimal(workspace as nat),
        identity::identity(environment, None, Some(client), workspace) == identity::identity(
            environment,
            Some(0),
            Some(client),
            workspace,
        ),
        identity::identity(environment, Some(user), None, workspace) == identity::identity(
            environment,
            Some(user),
            Some("local"@),
            workspace,
        ),
{
}

/// What the personal profile that is added says: it is the kept login, of this machine, of no workspace,
/// user or client, never in effect, and lies in the shared state directory. Its status says whether the
/// shared login file holds a login.
pub proof fn added_profile_is_personal(
    s: CredentialStoreView,
    m: CredentialMetadataView,
    product: ProductConfigView,
)
    ensures
        ({
            let q = recognition::personal_profile(
                "安装前授权备份"@,
                product.default_model,
                s.shared_home.text,
                recognition::found_status(s.shared_auth),
            );
            &&& q.profile_id == ORIGINAL_PROFILE_ID@
            &&& q.kind == AuthProfileKind::Personal
            &&& q.environment == "local"@
            &&& q.user_id is None && q.client_id is None
            &&& q.workspace_id == 0 && q.workspace_name.len() == 0
            &&& q.activated_at_epoch_seconds == 0
            &&& q.codex_home == s.shared_home.text
            &&& q.model == product.default_model
            &&& shown_laws::login_is_there(s, AuthProfileKind::Personal) ==> q.credential_status
                == "configured"@
            &&& s.shared_auth is Content && !shown_laws::login_is_there(s, AuthProfileKind::Personal)
                ==> q.credential_status == "invalid"@
            &&& !(s.shared_auth is Content) ==> q.credential_status == "external"@
        }),
{
    if let FileReadView::Content(live) = s.shared_auth {
        switch_laws::usable_logins_hold_a_login(live, AuthProfileKind::Personal);
    }
}

/// Keeping the login that was found stores the shared login file byte for byte and the settings of the
/// configuration file for the personal profile, and nothing else.
pub proof fn found_login_is_stored_with_its_settings(
    s: CredentialStoreView,
    item: Option<Seq<char>>,
    value: Seq<char>,
)
    requires
        config::config_entries(s.shared_config) is Ok,
    ensures
        ({
            let t = recognition::original_stored(s, item);
            let key = identity::short_key(ORIGINAL_PROFILE_ID@);
            let entries = config::config_entries(s.shared_config)->Ok_0;
            &&& s.shared_auth is Content ==> t.profile_auth == s.profile_auth.insert(key, s.shared_auth)
            &&& !(s.shared_auth is Content) ==> t.profile_auth == s.profile_auth
            &&& t.profile_config.contains_key(key) && (t.profile_config[key] matches Stored::Value(
                kept,
            ) && (kept.model == Some(value) <==> settings_laws::has_text(
                entries,
                seq!["model"@],
                value,
            )) && (kept.model_provider == Some(value) <==> settings_laws::has_text(
                entries,
                seq!["model_provider"@],
                value,
            )) && (kept.forced_login_method == Some(value) <==> settings_laws::has_text(
                entries,
                seq!["forced_login_method"@],
                value,
            )) && (kept.cli_auth_credentials_store == Some(value) <==> settings_laws::has_text(
                entries,
                seq!["cli_auth_credentials_store"@],
                value,
            )) && kept.router_provider_item == item)
            &&& forall|other: Seq<char>|
                other != key ==> (#[trigger] t.profile_config.contains_key(other)
                    <==> s.profile_config.contains_key(other)) && t.profile_config[other]
                    == s.profile_config[other]
            &&& t == (CredentialStoreView {
                profile_auth: t.profile_auth,
                profile_config: t.profile_config,
                journal: t.journal,
                ..s
            })
        }),
{
    settings_laws::taken_settings_are_the_files(
        config::config_entries(s.shared_config)->Ok_0,
        item,
        value,
    );
}

/// Settings that are stored for a personal profile are not replaced: those of a ChatGPT login are stored
/// only where there are none.
pub proof fn stored_settings_are_not_replaced(
    s: CredentialStoreView,
    m: CredentialMetadataView,
    at: int,
)
    requires
        0 <= at < m.profiles.len(),
        m.profiles[at].kind == AuthProfileKind::Personal,
        forall|j: int| 0 <= j < at ==> (#[trigger] m.profiles[j]).kind != AuthProfileKind::Personal,
    ensures
        ({
            let t = recognition::chatgpt_stored(s, m);
            let key = identity::short_key(m.profiles[at].profile_id);
            let stored = s.profile_config.contains_key(key) && !(s.profile_config[key] is Missing);
            &&& stored ==> t == s
            &&& !stored ==> t.profile_config.contains_key(key) && (
            t.profile_config[key] matches Stored::Value(kept) && kept.forced_login_method == Some(
                "chatgpt"@,
            ) && kept.model is None && kept.model_provider is None
                && kept.cli_auth_credentials_store is None && kept.router_provider_item is None)
            &&& t.profile_auth == s.profile_auth
            &&& t.shared_auth == s.shared_auth
            &&& t.shared_config == s.shared_config
        }),
{
    let q = profiles::of_kind(AuthProfileKind::Personal);
    profiles::first_where_at(m.profiles, q, at);
}

/// Where the noted user-level setting comes from is noted with it.
pub proof fn source_of_the_setting_is_noted(s: CredentialStoreView, m: CredentialMetadataView)
    requires
        !m.original_codex_home_state.captured,
    ensures
        ({
            let noted = loading::home_captured(s, m).original_codex_home_state;
            let managed = s.external_home is Some && loading::is_managed(s, s.external_home->0);
            &&& managed ==> noted.capture_source == "inferred-default-before-managed-pointer"@
            &&& !managed ==> noted.capture_source == "user-environment"@
        }),
{
}

/// Moving a profile to the shared state directory changes only that, and nothing where it is there.
pub proof fn moved_profiles_are_the_same(s: CredentialStoreView, p: CredentialProfileView)
    ensures
        ({
            let q = loading::rehomed(s, p);
            let there = p.codex_home == s.shared_home.text || (s.previous_homes.contains_key(
                p.codex_home,
            ) && s.previous_homes[p.codex_home].path.components == s.shared_home.components);
            &&& there ==> q == p
            &&& !there ==> q == (CredentialProfileView { codex_home: s.shared_home.text, ..p })
        }),
{
}

/// What a login file for a credential says: the credential under its name and that it is a key, and no
/// other string.
pub proof fn written_login_holds_the_credential(bytes: Seq<u8>, credential: Seq<char>)
    ensures
        auth::workspace_login(bytes, credential) <==> {
            let read = json_compat::json_read(json_compat::without_bom(bytes));
            &&& read is Some
            &&& read->0.contains_key(seq!["OPENAI_API_KEY"@]) && read->0[seq!["OPENAI_API_KEY"@]]
                == credential
            &&& read->0.contains_key(seq!["auth_mode"@]) && read->0[seq!["auth_mode"@]] == "apikey"@
            &&& forall|path: Seq<Seq<char>>| #[trigger]
                read->0.contains_key(path) ==> path == seq!["OPENAI_API_KEY"@] || path == seq![
                    "auth_mode"@,
                ]
        },
{
    reveal_strlit("OPENAI_API_KEY");
    reveal_strlit("auth_mode");
    assert("OPENAI_API_KEY"@.len() == 14);
    assert("auth_mode"@.len() == 9);
    let a = seq!["OPENAI_API_KEY"@];
    let b = seq!["auth_mode"@];
    assert(a[0] != b[0]);
    let read = json_compat::json_read(json_compat::without_bom(bytes));
    let wanted = json_compat::no_texts().insert(a, credential).insert(b, "apikey"@);
    if read is Some && read->0.contains_key(a) && read->0[a] == credential && read->0.contains_key(b)
        && read->0[b] == "apikey"@ && (forall|path: Seq<Seq<char>>| #[trigger]
        read->0.contains_key(path) ==> path == a || path == b) {
        assert(read->0 =~= wanted);
    }
}

} // verus!
