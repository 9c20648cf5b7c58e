//! What is shown of authorizations, in terms of the files and the record.
use crate::credential::config;
use crate::credential::contract::{
    AuthProfileKind, CredentialMetadataView, CredentialProfileView, WorkspaceOption,
    WorkspaceOptionView,
};
use crate::credential::files::FileReadView;
use crate::credential::identity;
use crate::credential::profile_laws;
use crate::credential::profiles;
use crate::credential::state;
use crate::credential::state::DiscoveryView;
use crate::credential::store::{CredentialStoreView, Stored};
use crate::credential::switch_laws;
use crate::ids;
use crate::product_config::ProductConfigView;
use crate::ranking;
use crate::text;
use crate::toml_document::TomlEntry;
use vstd::prelude::*;

verus! {

/// Whether the entries of a configuration file are those of the router: the model, the provider, the
/// login by a key in a file, and the provider with its address, its interface and its login.
pub open spec fn is_the_routers(
    entries: Map<Seq<Seq<char>>, TomlEntry>,
    product: ProductConfigView,
) -> bool {
    let providers = seq!["model_providers"@];
    let provider = seq!["model_providers"@, product.router_provider];
    &&& entries.contains_key(seq!["model"@]) && entries[seq!["model"@]] == TomlEntry::Text(
        product.default_model,
    )
    &&& entries.contains_key(seq!["model_provider"@]) && entries[seq!["model_provider"@]]
        == TomlEntry::Text(product.router_provider)
    &&& entries.contains_key(seq!["cli_auth_credentials_store"@])
        && entries[seq!["cli_auth_credentials_store"@]] == TomlEntry::Text("file"@)
    &&& entries.contains_key(seq!["forced_login_method"@]) && entries[seq!["forced_login_method"@]]
        == TomlEntry::Text("api"@)
    &&& entries.contains_key(providers) && entries[providers] == TomlEntry::Table
    &&& entries.contains_key(provider) && entries[provider] == TomlEntry::Table
    &&& entries.contains_key(provider.push("base_url"@)) && entries[provider.push("base_url"@)]
        == TomlEntry::Text(product.router_base_url)
    &&& entries.contains_key(provider.push("wire_api"@)) && entries[provider.push("wire_api"@)]
        == TomlEntry::Text("responses"@)
    &&& entries.contains_key(provider.push("requires_openai_auth"@))
        && entries[provider.push("requires_openai_auth"@)] == TomlEntry::Flag(true)
}

/// A configuration file is ready for a workspace exactly where it is a document whose entries are
/// those of the router.
pub proof fn ready_settings_are_the_routers(file: FileReadView, product: ProductConfigView)
    ensures
        config::config_ready(file, product) <==> (config::config_entries(file) matches Ok(entries)
            && is_the_routers(entries, product)),
{
    let provider = seq!["model_providers"@, product.router_provider];
    assert(provider.push("base_url"@) =~= config::provider_key(product, "base_url"@));
    assert(provider.push("wire_api"@) =~= config::provider_key(product, "wire_api"@));
    assert(provider.push("requires_openai_auth"@) =~= config::provider_key(
        product,
        "requires_openai_auth"@,
    ));
}

/// Whether the shared login file is one that a profile of the kind can use.
pub open spec fn login_is_there(t: CredentialStoreView, kind: AuthProfileKind) -> bool {
    t.shared_auth matches FileReadView::Content(live) && switch_laws::logs_in(live, kind)
}

/// Whether the settings that are stored for a profile keep its login outside of the login file.
pub open spec fn login_is_elsewhere(t: CredentialStoreView, id: Seq<char>) -> bool {
    let key = identity::short_key(id);
    t.profile_config.contains_key(key) && (t.profile_config[key] matches Stored::Value(snapshot) && (
    snapshot.cli_auth_credentials_store == Some("keyring"@) || snapshot.cli_auth_credentials_store
        == Some("auto"@)))
}

/// What is shown of the profile in effect. It is configured exactly where the shared login file is
/// one that it can use and, for a workspace profile, the configuration file is the router's; or where
/// it is personal and its login is kept outside of the file. Its status says which of these it was,
/// and that a login is needed where a personal one is not configured.
pub proof fn shown_profile_in_effect_works(
    t: CredentialStoreView,
    m: CredentialMetadataView,
    discovery: DiscoveryView,
    product: ProductConfigView,
    auth_path: Seq<char>,
    config_path: Seq<char>,
    at: int,
)
    requires
        ({
            let shown = state::shown_state(t, m, discovery, product, auth_path, config_path);
            m.active_profile_id is Some && switch_laws::stands_first(
                shown.profiles,
                m.active_profile_id->0,
                at,
            )
        }),
    ensures
        ({
            let shown = state::shown_state(t, m, discovery, product, auth_path, config_path);
            let listed = shown.profiles[at];
            let personal = listed.kind == AuthProfileKind::Personal;
            let live = login_is_there(t, listed.kind);
            let ready = config::config_entries(t.shared_config) matches Ok(entries)
                && is_the_routers(entries, product);
            let works = if personal {
                live || login_is_elsewhere(t, listed.profile_id)
            } else {
                live && ready
            };
            &&& shown.codex_configured == works
            &&& shown.credential_status == if works {
                if live {
                    "verified"@
                } else {
                    "external"@
                }
            } else if personal {
                "login_required"@
            } else {
                "not_configured"@
            }
            &&& shown.active_profile == Some(
                CredentialProfileView {
                    credential_status: if works || personal {
                        shown.credential_status
                    } else {
                        listed.credential_status
                    },
                    ..listed
                },
            )
            &&& shown.active_workspace_id == if personal {
                None
            } else {
                Some(listed.workspace_id)
            }
        }),
{
    let shown = state::shown_state(t, m, discovery, product, auth_path, config_path);
    let listed = shown.profiles[at];
    switch_laws::first_is_found(shown.profiles, m.active_profile_id->0, at);
    if let FileReadView::Content(live) = t.shared_auth {
        switch_laws::usable_logins_hold_a_login(live, AuthProfileKind::Personal);
        switch_laws::usable_logins_hold_a_login(live, AuthProfileKind::Baijimu);
    }
    ready_settings_are_the_routers(t.shared_config, product);
}

/// Where no profile is in effect, none is shown as such, and nothing is configured.
pub proof fn nothing_in_effect_is_not_configured(
    t: CredentialStoreView,
    m: CredentialMetadataView,
    discovery: DiscoveryView,
    product: ProductConfigView,
    auth_path: Seq<char>,
    config_path: Seq<char>,
)
    requires
        ({
            let shown = state::shown_state(t, m, discovery, product, auth_path, config_path);
            m.active_profile_id matches Some(id) ==> forall|i: int|
                0 <= i < shown.profiles.len() ==> (#[trigger] shown.profiles[i]).profile_id != id
        }),
    ensures
        ({
            let shown = state::shown_state(t, m, discovery, product, auth_path, config_path);
            &&& shown.active_profile is None
            &&& shown.active_workspace_id is None
            &&& !shown.codex_configured
            &&& shown.credential_status == "not_configured"@
        }),
{
    let shown = state::shown_state(t, m, discovery, product, auth_path, config_path);
    if let Some(id) = m.active_profile_id {
        profiles::first_where_none(shown.profiles, profiles::with_id(id));
    }
}

/// What is shown of every profile: who it is as the record has it, where its identity is filled in;
/// the shared state directory; and of its login: that it is in effect, for a personal one in effect
/// whose login is the shared one, else whether the stored one is of use to it, or what there is
/// instead.
pub proof fn shown_profiles_are_the_recorded(
    t: CredentialStoreView,
    m: CredentialMetadataView,
    discovery: DiscoveryView,
    product: ProductConfigView,
    auth_path: Seq<char>,
    config_path: Seq<char>,
    i: int,
)
    requires
        0 <= i < m.profiles.len(),
    ensures
        ({
            let shown = state::shown_state(t, m, discovery, product, auth_path, config_path);
            let profile = shown.profiles[i];
            let recorded = m.profiles[i];
            let personal = recorded.kind == AuthProfileKind::Personal;
            let key = identity::short_key(profile.profile_id);
            let file = if t.profile_auth.contains_key(key) {
                t.profile_auth[key]
            } else {
                FileReadView::Missing
            };
            &&& shown.profiles.len() == m.profiles.len()
            &&& recorded.profile_id.len() > 0 ==> profile.profile_id == recorded.profile_id
            &&& profile.kind == recorded.kind
            &&& profile.workspace_id == if personal {
                0
            } else {
                recorded.workspace_id
            }
            &&& profile.user_id == recorded.user_id
            &&& profile.client_id == recorded.client_id
            &&& profile.model == recorded.model
            &&& profile.activated_at_epoch_seconds == recorded.activated_at_epoch_seconds
            &&& profile.codex_home == t.shared_home.text
            &&& personal && recorded.name.len() > 0 ==> profile.name == recorded.name
            &&& profile.credential_status == if personal && m.active_profile_id == Some(
                profile.profile_id,
            ) && login_is_there(t, AuthProfileKind::Personal) {
                "verified"@
            } else {
                match file {
                    FileReadView::Content(bytes) => if switch_laws::logs_in(bytes, recorded.kind) {
                        "configured"@
                    } else {
                        "invalid"@
                    },
                    FileReadView::Unreadable => "invalid"@,
                    FileReadView::Missing => if personal && login_is_elsewhere(
                        t,
                        profile.profile_id,
                    ) {
                        "external"@
                    } else if personal {
                        "login_required"@
                    } else {
                        "missing"@
                    },
                }
            }
        }),
{
    let shown = state::shown_state(t, m, discovery, product, auth_path, config_path);
    let profile = shown.profiles[i];
    let key = identity::short_key(profile.profile_id);
    if let FileReadView::Content(live) = t.shared_auth {
        switch_laws::usable_logins_hold_a_login(live, AuthProfileKind::Personal);
    }
    if let FileReadView::Content(bytes) = t.profile_auth[key] {
        switch_laws::usable_logins_hold_a_login(bytes, m.profiles[i].kind);
    }
}

/// Whether the workspace is one that was discovered, where the device is authorized.
pub open spec fn was_discovered(discovery: DiscoveryView, id: u64) -> bool {
    &&& discovery.status matches Ok(known)
    &&& known.authenticated
    &&& discovery.workspaces matches Some(Ok(list))
    &&& exists|i: int| 0 <= i < list.len() && (#[trigger] list[i]).id == id
}

/// Whether the workspace is among those that the device is authorized for.
pub open spec fn is_authorized(discovery: DiscoveryView, id: u64) -> bool {
    discovery.status matches Ok(known) && exists|i: int|
        0 <= i < known.workspace_ids.len() && #[trigger] known.workspace_ids[i] == id
}

/// Whether the workspace has a profile.
pub open spec fn has_a_profile(m: CredentialMetadataView, id: u64) -> bool {
    exists|i: int|
        0 <= i < m.profiles.len() && profile_laws::belongs_to(#[trigger] m.profiles[i], id)
}

/// The options before they are sorted.
proof fn options_are_listed(
    t: CredentialStoreView,
    m: CredentialMetadataView,
    discovery: DiscoveryView,
) -> (list: Seq<u64>)
    ensures
        ({
            let options = state::merged(
                t,
                m,
                state::authorized_ids(discovery),
                state::discovered(discovery),
            );
            &&& list.len() == options.len()
            &&& forall|i: int| 0 <= i < list.len() ==> #[trigger] options[i] == state::option_for(
                t,
                m,
                state::authorized_ids(discovery),
                state::discovered(discovery),
                list[i],
            )
            &&& ids::ascending(list)
            &&& forall|id: u64| #[trigger]
                list.contains(id) <==> was_discovered(discovery, id) || is_authorized(
                    discovery,
                    id,
                ) || has_a_profile(m, id)
        }),
{
    let authorized = state::authorized_ids(discovery);
    let found = state::discovered(discovery);
    let set = state::option_ids(authorized, found, m.profiles);
    let list = ids::listing(set);
    ids::every_set_is_listed(set);
    assert forall|id: u64| #[trigger]
        list.contains(id) <==> was_discovered(discovery, id) || is_authorized(discovery, id)
            || has_a_profile(m, id) by {
        assert(list.contains(id) <==> set.contains(id));
        assert(state::is_discovered(found, id) <==> was_discovered(discovery, id));
        assert(authorized.contains(id) <==> is_authorized(discovery, id)) by {
            if is_authorized(discovery, id) {
                let k = choose|k: int|
                    0 <= k < authorized.len() && #[trigger] discovery.status->Ok_0.workspace_ids[k]
                        == id;
                assert(authorized[k] == id);
            }
            if authorized.contains(id) {
                let k = choose|k: int| 0 <= k < authorized.len() && authorized[k] == id;
                assert(discovery.status->Ok_0.workspace_ids[k] == id);
            }
        }
        assert(state::has_profile(m.profiles, id) <==> has_a_profile(m, id)) by {
            if has_a_profile(m, id) {
                let k = choose|k: int|
                    0 <= k < m.profiles.len() && profile_laws::belongs_to(
                        #[trigger] m.profiles[k],
                        id,
                    );
                assert(profiles::of_workspace(id)(m.profiles[k]));
            }
            if state::has_profile(m.profiles, id) {
                let k = choose|k: int|
                    0 <= k < m.profiles.len() && profiles::of_workspace(id)(
                        #[trigger] m.profiles[k],
                    );
                assert(profile_laws::belongs_to(m.profiles[k], id));
            }
        }
    }
    list
}

/// Which workspaces can be chosen: exactly those that were discovered, that the device is authorized
/// for, or that have a profile, each once, in the order of their names.
pub proof fn every_known_workspace_can_be_chosen(
    t: CredentialStoreView,
    m: CredentialMetadataView,
    discovery: DiscoveryView,
    product: ProductConfigView,
    auth_path: Seq<char>,
    config_path: Seq<char>,
)
    ensures
        ({
            let options = state::shown_state(
                t,
                m,
                discovery,
                product,
                auth_path,
                config_path,
            ).workspaces;
            &&& forall|id: u64|
                (exists|i: int| 0 <= i < options.len() && (#[trigger] options[i]).workspace_id == id)
                    <==> #[trigger] was_discovered(discovery, id) || is_authorized(discovery, id)
                    || has_a_profile(m, id)
            &&& forall|i: int, j: int|
                0 <= i < j < options.len() ==> (#[trigger] options[i]).workspace_id != (
                #[trigger] options[j]).workspace_id && text::text_leq(
                    options[i].name,
                    options[j].name,
                )
        }),
{
    let base = state::merged(
        t,
        m,
        state::authorized_ids(discovery),
        state::discovered(discovery),
    );
    let options = ranking::arranged::<WorkspaceOption>(base);
    assert(options == state::shown_state(
        t,
        m,
        discovery,
        product,
        auth_path,
        config_path,
    ).workspaces);
    let list = options_are_listed(t, m, discovery);
    profiles::workspaces_are_ranked();
    ranking::arranged_is_sorted::<WorkspaceOption>(base);
    options_are_those(base, options);
    assert forall|id: u64|
        (exists|i: int| 0 <= i < options.len() && (#[trigger] options[i]).workspace_id == id)
            <==> #[trigger] was_discovered(discovery, id) || is_authorized(discovery, id)
            || has_a_profile(m, id) by {
        if exists|i: int| 0 <= i < options.len() && (#[trigger] options[i]).workspace_id == id {
            let i = choose|i: int|
                0 <= i < options.len() && (#[trigger] options[i]).workspace_id == id;
            assert(options.contains(options[i]));
            assert(base.contains(options[i]));
            let k = choose|k: int| 0 <= k < base.len() && base[k] == options[i];
            assert(list[k] == id);
            assert(list.contains(id));
        }
        if list.contains(id) {
            let k = choose|k: int| 0 <= k < list.len() && list[k] == id;
            assert(base[k].workspace_id == id);
            assert(base.contains(base[k]));
            assert(options.contains(base[k]));
            let i = choose|i: int| 0 <= i < options.len() && options[i] == base[k];
            assert(options[i].workspace_id == id);
        }
        assert(list.contains(id) <==> was_discovered(discovery, id) || is_authorized(discovery, id)
            || has_a_profile(m, id));
    }
    assert(base.no_duplicates()) by {
        assert forall|i: int, j: int|
            0 <= i < base.len() && 0 <= j < base.len() && i != j implies base[i] != base[j] by {
            assert(base[i].workspace_id == list[i]);
            assert(base[j].workspace_id == list[j]);
        }
    }
    base.lemma_multiset_has_no_duplicates();
    options.lemma_multiset_has_no_duplicates_conv();
    assert forall|i: int, j: int| 0 <= i < j < options.len() implies (
    #[trigger] options[i]).workspace_id != (#[trigger] options[j]).workspace_id && text::text_leq(
        options[i].name,
        options[j].name,
    ) by {
        assert(<WorkspaceOption as ranking::Ranked>::precedes(options[i], options[j]));
        assert(options.contains(options[i]) && options.contains(options[j]));
        let x = choose|x: int| 0 <= x < base.len() && base[x] == options[i];
        let y = choose|y: int| 0 <= y < base.len() && base[y] == options[j];
        assert(base[x].workspace_id == list[x]);
        assert(base[y].workspace_id == list[y]);
        if list[x] == list[y] {
            assert(x == y);
        }
    }
}

/// Sorting keeps which options there are.
proof fn options_are_those(base: Seq<WorkspaceOptionView>, options: Seq<WorkspaceOptionView>)
    requires
        options.to_multiset() == base.to_multiset(),
    ensures
        forall|x: WorkspaceOptionView| #[trigger] options.contains(x) <==> base.contains(x),
{
    assert forall|x: WorkspaceOptionView| #[trigger] options.contains(x) <==> base.contains(x) by {
        vstd::seq_lib::to_multiset_contains(options, x);
        vstd::seq_lib::to_multiset_contains(base, x);
    }
}

/// What is shown of a workspace that can be chosen: it is authorized where the device is and the
/// workspaces could be discovered; it is configured exactly where one of its profiles has a stored
/// key; its name is that of the first discovered one, else that of its first profile, else its
/// number; and its users are those of its profiles, in ascending order.
pub proof fn shown_workspaces_tell_what_is_known(
    t: CredentialStoreView,
    m: CredentialMetadataView,
    discovery: DiscoveryView,
    product: ProductConfigView,
    auth_path: Seq<char>,
    config_path: Seq<char>,
    i: int,
)
    requires
        0 <= i < state::shown_state(
            t,
            m,
            discovery,
            product,
            auth_path,
            config_path,
        ).workspaces.len(),
    ensures
        ({
            let option = state::shown_state(
                t,
                m,
                discovery,
                product,
                auth_path,
                config_path,
            ).workspaces[i];
            let id = option.workspace_id;
            let found = discovery.status is Ok && discovery.status->Ok_0.authenticated && (
            discovery.workspaces matches Some(Ok(_)));
            let list = discovery.workspaces->0->Ok_0;
            &&& option.authorized == (found && is_authorized(discovery, id))
            &&& option.configured == exists|k: int|
                0 <= k < m.profiles.len() && profile_laws::belongs_to(#[trigger] m.profiles[k], id)
                    && ({
                    let key = identity::short_key(m.profiles[k].profile_id);
                    t.profile_auth.contains_key(key) && (t.profile_auth[key] matches FileReadView::Content(
                        bytes,
                    ) && switch_laws::says(bytes, seq!["OPENAI_API_KEY"@]))
                })
            &&& forall|k: int|
                found && 0 <= k < list.len() && (#[trigger] list[k]).id == id && (forall|j: int|
                    0 <= j < k ==> (#[trigger] list[j]).id != id) ==> option.name == list[k].name
            &&& forall|k: int|
                !was_discovered(discovery, id) && 0 <= k < m.profiles.len()
                    && profile_laws::belongs_to(#[trigger] m.profiles[k], id) && (forall|j: int|
                    0 <= j < k ==> !profile_laws::belongs_to(#[trigger] m.profiles[j], id))
                    ==> option.name == m.profiles[k].workspace_name
            &&& !was_discovered(discovery, id) && !has_a_profile(m, id) ==> option.name
                == "工作区 "@ + text::decimal(id as nat)
            &&& ids::ascending(option.user_ids)
            &&& forall|user: u64|
                option.user_ids.contains(user) <==> exists|k: int|
                    0 <= k < m.profiles.len() && profile_laws::belongs_to(#[trigger] m.profiles[k], id)
                        && m.profiles[k].user_id == Some(user)
        }),
{
    let authorized = state::authorized_ids(discovery);
    let seen = state::discovered(discovery);
    let base = state::merged(t, m, authorized, seen);
    let options = ranking::arranged::<WorkspaceOption>(base);
    let numbers = options_are_listed(t, m, discovery);
    profiles::workspaces_are_ranked();
    ranking::arranged_is_sorted::<WorkspaceOption>(base);
    options_are_those(base, options);
    let option = options[i];
    assert(options.contains(option));
    let at = choose|k: int| 0 <= k < base.len() && base[k] == option;
    let id = numbers[at];
    assert(option == state::option_for(t, m, authorized, seen, id));
    profile_laws::ready_workspaces_have_a_key(t, m, id);
    assert(authorized.contains(id) <==> is_authorized(discovery, id)) by {
        if is_authorized(discovery, id) {
            let k = choose|k: int|
                0 <= k < authorized.len() && #[trigger] discovery.status->Ok_0.workspace_ids[k]
                    == id;
            assert(authorized[k] == id);
        }
        if authorized.contains(id) {
            let k = choose|k: int| 0 <= k < authorized.len() && authorized[k] == id;
            assert(discovery.status->Ok_0.workspace_ids[k] == id);
        }
    }
    if let Some(list) = seen {
        assert forall|k: int|
            0 <= k < list.len() && (#[trigger] list[k]).id == id && (forall|j: int|
                0 <= j < k ==> (#[trigger] list[j]).id != id) implies option.name == list[k].name by {
            profiles::first_where_at(list, state::is_workspace(id), k);
        }
        if !was_discovered(discovery, id) {
            profiles::first_where_none(list, state::is_workspace(id));
        }
    }
    assert forall|k: int|
        !was_discovered(discovery, id) && 0 <= k < m.profiles.len() && profile_laws::belongs_to(
            #[trigger] m.profiles[k],
            id,
        ) && (forall|j: int|
            0 <= j < k ==> !profile_laws::belongs_to(
                #[trigger] m.profiles[j],
                id,
            )) implies option.name == m.profiles[k].workspace_name by {
        profiles::first_where_at(m.profiles, profiles::of_workspace(id), k);
    }
    if !has_a_profile(m, id) {
        profiles::first_where_none(m.profiles, profiles::of_workspace(id));
    }
    let users = state::user_set(m.profiles, id);
    ids::every_set_is_listed(users);
    assert forall|user: u64|
        option.user_ids.contains(user) <==> exists|k: int|
            0 <= k < m.profiles.len() && profile_laws::belongs_to(#[trigger] m.profiles[k], id)
                && m.profiles[k].user_id == Some(user) by {
        assert(option.user_ids.contains(user) <==> users.contains(user));
        if users.contains(user) {
            let k = choose|k: int|
                0 <= k < m.profiles.len() && profiles::of_workspace(id)(#[trigger] m.profiles[k])
                    && m.profiles[k].user_id == Some(user);
            assert(profile_laws::belongs_to(m.profiles[k], id));
        }
        if exists|k: int|
            0 <= k < m.profiles.len() && profile_laws::belongs_to(#[trigger] m.profiles[k], id)
                && m.profiles[k].user_id == Some(user) {
            let k = choose|k: int|
                0 <= k < m.profiles.len() && profile_laws::belongs_to(#[trigger] m.profiles[k], id)
                    && m.profiles[k].user_id == Some(user);
            assert(profiles::of_workspace(id)(m.profiles[k]));
        }
    }
}

/// The rest of what is shown: the mode of the record, the workspace that the platform client names,
/// the directories and paths, and a warning exactly where the status or, on an authorized device, the
/// workspaces could not be had.
pub proof fn shown_rest_is_taken_over(
    t: CredentialStoreView,
    m: CredentialMetadataView,
    discovery: DiscoveryView,
    product: ProductConfigView,
    auth_path: Seq<char>,
    config_path: Seq<char>,
)
    ensures
        ({
            let shown = state::shown_state(t, m, discovery, product, auth_path, config_path);
            &&& shown.active_mode == m.active_mode
            &&& shown.current_workspace_id == match discovery.status {
                Ok(known) => known.current_workspace_id,
                Err(_) => None,
            }
            &&& shown.original_codex_home == t.shared_home.text
            &&& shown.active_codex_home == t.shared_home.text
            &&& shown.external_codex_home is Some <==> t.external_home is Some
            &&& shown.codex_auth_path == auth_path
            &&& shown.codex_config_path == config_path
            &&& shown.original_codex_home_state == m.original_codex_home_state
            &&& shown.discovery_warning is Some <==> discovery.status is Err || (
            discovery.status->Ok_0.authenticated && (discovery.workspaces matches Some(Err(_))))
        }),
{
}

/// A workspace profile is shown under the name of its workspace, which is that of the workspace among
/// those that can be chosen.
pub proof fn shown_profiles_bear_the_name_of_their_workspace(
    t: CredentialStoreView,
    m: CredentialMetadataView,
    discovery: DiscoveryView,
    product: ProductConfigView,
    auth_path: Seq<char>,
    config_path: Seq<char>,
    i: int,
)
    requires
        0 <= i < m.profiles.len(),
        m.profiles[i].kind == AuthProfileKind::Baijimu,
    ensures
        ({
            let shown = state::shown_state(t, m, discovery, product, auth_path, config_path);
            let profile = shown.profiles[i];
            exists|k: int|
                0 <= k < shown.workspaces.len() && (#[trigger] shown.workspaces[k]).workspace_id
                    == m.profiles[i].workspace_id && profile.name == shown.workspaces[k].name
                    && profile.workspace_name == shown.workspaces[k].name
        }),
{
    let id = m.profiles[i].workspace_id;
    let base = state::merged(
        t,
        m,
        state::authorized_ids(discovery),
        state::discovered(discovery),
    );
    let options = ranking::arranged::<WorkspaceOption>(base);
    let list = options_are_listed(t, m, discovery);
    assert(profile_laws::belongs_to(m.profiles[i], id));
    assert(has_a_profile(m, id));
    assert(list.contains(id));
    let at = choose|at: int| 0 <= at < list.len() && list[at] == id;
    let p = state::is_option(id);
    assert(p(base[at]));
    let first = at_first(base, p, at);
    profiles::first_where_at(base, p, first);
    let found = profiles::first_where(base, p)->0;
    profiles::workspaces_are_ranked();
    ranking::arranged_is_sorted::<WorkspaceOption>(base);
    options_are_those(base, options);
    profiles::first_where_is_found(base, p);
    assert(base.contains(found));
    assert(options.contains(found));
    let k = choose|k: int| 0 <= k < options.len() && options[k] == found;
    let shown = state::shown_state(t, m, discovery, product, auth_path, config_path);
    assert(shown.workspaces == options);
    assert(shown.workspaces[k].workspace_id == id);
}

/// There is a first place where a predicate holds, where it holds at all.
proof fn at_first<T>(s: Seq<T>, p: spec_fn(T) -> bool, k: int) -> (at: int)
    requires
        0 <= k < s.len(),
        p(s[k]),
    ensures
        0 <= at <= k,
        p(s[at]),
        forall|j: int| 0 <= j < at ==> !p(#[trigger] s[j]),
    decreases k,
{
    if exists|j: int| 0 <= j < k && p(#[trigger] s[j]) {
        let j = choose|j: int| 0 <= j < k && p(#[trigger] s[j]);
        at_first(s, p, j)
    } else {
        k
    }
}

} // verus!
