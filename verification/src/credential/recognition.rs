//! Recognizing the authorization that the shared files hold.
use crate::credential::auth;
use crate::credential::config;
use crate::credential::contract;
use crate::credential::contract::{
    AuthMode, AuthProfileKind, CredentialMetadata, CredentialMetadataView, CredentialProfile,
    CredentialProfileView,
};
use crate::credential::errors;
use crate::credential::errors::{CredentialError, FileRole};
use crate::credential::files::{FileRead, FileReadView};
use crate::credential::identity;
use crate::credential::identity::ORIGINAL_PROFILE_ID;
use crate::credential::profiles;
use crate::credential::store;
use crate::credential::store::{CredentialStore, CredentialStoreView, FileWrite, FileWriteView, Stored};
use crate::duplicate::{copy_bytes, same_bytes};
use crate::product_config::{ProductConfig, ProductConfigView};
use crate::text;
use crate::toml_document as toml;
use vstd::prelude::*;

verus! {

/// The key under which the files of a profile are stored.
pub open spec fn key_of(profile: CredentialProfileView) -> Seq<char> {
    identity::short_key(profile.profile_id)
}

/// Whether the stored login file of the workspace profile is the given one, or holds the same key.
pub open spec fn archives(
    s: CredentialStoreView,
    profile: CredentialProfileView,
    live: Seq<u8>,
) -> bool {
    profile.kind == AuthProfileKind::Baijimu && match store::profile_auth_of(s, key_of(profile)) {
        FileReadView::Content(archived) => archived == live || (auth::api_key(archived) is Some
            && auth::api_key(archived) == auth::api_key(live)),
        _ => false,
    }
}

/// Whether the given login file is that of a workspace profile.
pub open spec fn is_archived(
    s: CredentialStoreView,
    all: Seq<CredentialProfileView>,
    live: Seq<u8>,
) -> bool {
    exists|i: int| 0 <= i < all.len() && archives(s, #[trigger] all[i], live)
}

/// Whether two optional texts are the same.
pub(crate) fn same_option(a: &Option<String>, b: &Option<String>) -> (res: bool)
    ensures
        res == (text::opt_view(*a) == text::opt_view(*b)),
{
    match (a, b) {
        (Some(x), Some(y)) => text::same(x.as_str(), y.as_str()),
        (None, None) => true,
        _ => false,
    }
}

/// Whether the given login file is that of a workspace profile.
fn find_archived(
    credentials: &CredentialStore,
    all: &Vec<CredentialProfile>,
    live: &Vec<u8>,
) -> (res: bool)
    ensures
        res == is_archived(credentials.deep_view(), all.deep_view(), live@),
{
    let ghost s = credentials.deep_view();
    let ghost views = all.deep_view();
    let live_key = auth::read_codex_api_key_from_bytes(live);
    let mut i: usize = 0;
    while i < all.len()
        invariant
            i <= all.len(),
            s == credentials.deep_view(),
            views == all.deep_view(),
            text::opt_view(live_key) == auth::api_key(live@),
            forall|j: int| 0 <= j < i ==> !archives(s, #[trigger] views[j], live@),
        decreases all.len() - i,
    {
        let profile = &all[i];
        if profile.kind == AuthProfileKind::Baijimu {
            let key = identity::profile_short_key(profile.profile_id.as_str());
            if let FileRead::Content(archived) = credentials.profile_auth_file(key.as_str()) {
                let archived_key = auth::read_codex_api_key_from_bytes(archived);
                if same_bytes(archived, live) || (archived_key.is_some() && same_option(
                    &archived_key,
                    &live_key,
                )) {
                    assert(archives(s, views[i as int], live@));
                    return true;
                }
            }
        }
        assert(!archives(s, views[i as int], live@));
        i = i + 1;
    }
    false
}

/// The profile that holds the authorization found at installation.
pub open spec fn personal_profile(
    name: Seq<char>,
    model: Seq<char>,
    home: Seq<char>,
    status: Seq<char>,
) -> CredentialProfileView {
    CredentialProfileView {
        profile_id: ORIGINAL_PROFILE_ID@,
        kind: AuthProfileKind::Personal,
        name,
        environment: "local"@,
        user_id: None,
        client_id: None,
        workspace_id: 0,
        workspace_name: seq![],
        model,
        activated_at_epoch_seconds: 0,
        codex_home: home,
        credential_status: status,
    }
}

/// The profile that holds the authorization found at installation.
fn new_personal_profile(
    name: &str,
    credentials: &CredentialStore,
    product: &ProductConfig,
    status: &str,
) -> (res: CredentialProfile)
    ensures
        res.deep_view() == personal_profile(
            name@,
            product.default_model@,
            credentials.deep_view().shared_home.text,
            status@,
        ),
{
    CredentialProfile {
        profile_id: ORIGINAL_PROFILE_ID.to_string(),
        kind: AuthProfileKind::Personal,
        name: name.to_string(),
        environment: "local".to_string(),
        user_id: None,
        client_id: None,
        workspace_id: 0,
        workspace_name: String::new(),
        model: product.default_model.clone(),
        activated_at_epoch_seconds: 0,
        codex_home: credentials.shared_home.text.clone(),
        credential_status: status.to_string(),
    }
}

/// What is said of the login file found at installation.
pub open spec fn found_status(live: FileReadView) -> Seq<char> {
    match live {
        FileReadView::Content(bytes) => if auth::configured(bytes) {
            "configured"@
        } else {
            "invalid"@
        },
        _ => "external"@,
    }
}

/// Whether the shared files hold an authorization that belongs to no profile yet: there is no
/// personal profile, both files can be read, and there is a login file that is not that of a
/// workspace profile, or a store outside of it.
pub open spec fn finds_original(s: CredentialStoreView, m: CredentialMetadataView) -> bool {
    &&& profiles::first_where(m.profiles, profiles::of_kind(AuthProfileKind::Personal)) is None
    &&& s.shared_auth != FileReadView::Unreadable
    &&& config::config_entries(s.shared_config) is Ok
    &&& match s.shared_auth {
        FileReadView::Content(live) => !is_archived(s, m.profiles, live),
        _ => config::external_store(
            toml::text_entry(
                config::config_entries(s.shared_config)->Ok_0,
                config::top("cli_auth_credentials_store"@),
            ),
        ),
    }
}

/// The error that stands in the way of looking at the shared files.
pub open spec fn shared_files_error(s: CredentialStoreView) -> Option<CredentialError> {
    if s.shared_auth == FileReadView::Unreadable {
        Some(CredentialError::Unreadable(FileRole::SharedAuth))
    } else {
        match config::config_entries(s.shared_config) {
            Ok(_) => None,
            Err(fault) => Some(errors::config_error(fault)),
        }
    }
}

/// The store with the authorization found at installation kept for its profile.
pub open spec fn original_stored(
    s: CredentialStoreView,
    item: Option<Seq<char>>,
) -> CredentialStoreView {
    let key = identity::short_key(ORIGINAL_PROFILE_ID@);
    let kept = match s.shared_auth {
        FileReadView::Content(live) => store::written(s, FileWriteView::ProfileAuth(key, live)),
        _ => s,
    };
    store::written(
        kept,
        FileWriteView::ProfileConfig(
            key,
            config::snapshot_with(config::config_entries(s.shared_config)->Ok_0, item),
        ),
    )
}

/// The record with the profile of the authorization found at installation, in effect.
pub open spec fn original_recorded(
    s: CredentialStoreView,
    m: CredentialMetadataView,
    product: ProductConfigView,
) -> CredentialMetadataView {
    CredentialMetadataView {
        profiles: profiles::sorted(
            m.profiles.push(
                personal_profile(
                    "安装前授权备份"@,
                    product.default_model,
                    s.shared_home.text,
                    found_status(s.shared_auth),
                ),
            ),
        ),
        active_mode: AuthMode::Chatgpt,
        active_profile_id: Some(ORIGINAL_PROFILE_ID@),
        active_workspace_id: None,
        ..m
    }
}

/// Keeps the authorization that the shared files hold for a personal profile of its own, where it
/// belongs to no profile yet, and records that profile as the one in effect. The shared files are
/// only read. Says whether that was done.
pub fn capture_original_auth_profile(
    credentials: &mut CredentialStore,
    metadata: &mut CredentialMetadata,
    product: &ProductConfig,
) -> (res: Result<bool, CredentialError>)
    ensures
        match res {
            Ok(true) => finds_original(old(credentials).deep_view(), old(metadata).deep_view())
                && final(metadata).deep_view() == original_recorded(
                old(credentials).deep_view(),
                old(metadata).deep_view(),
                product.deep_view(),
            ) && exists|item: Option<Seq<char>>| #[trigger]
                config::item_fits(
                    item,
                    config::config_entries(old(credentials).deep_view().shared_config)->Ok_0,
                    product.deep_view(),
                ) && final(credentials).deep_view() == original_stored(
                    old(credentials).deep_view(),
                    item,
                ),
            Ok(false) => !finds_original(old(credentials).deep_view(), old(metadata).deep_view())
                && (profiles::first_where(
                old(metadata).deep_view().profiles,
                profiles::of_kind(AuthProfileKind::Personal),
            ) is Some || shared_files_error(old(credentials).deep_view()) is None)
                && final(credentials).deep_view() == old(credentials).deep_view() && final(metadata).deep_view() == old(metadata).deep_view(),
            Err(error) => profiles::first_where(
                old(metadata).deep_view().profiles,
                profiles::of_kind(AuthProfileKind::Personal),
            ) is None && shared_files_error(old(credentials).deep_view()) == Some(error) && final(credentials).deep_view() == old(credentials).deep_view() && final(metadata).deep_view() == old(metadata).deep_view(),
        },
{
    if profiles::find_kind(&metadata.profiles, AuthProfileKind::Personal).is_some() {
        return Ok(false);
    }
    let live = match &credentials.shared_auth {
        FileRead::Missing => None,
        FileRead::Unreadable => {
            return Err(CredentialError::Unreadable(FileRole::SharedAuth));
        },
        FileRead::Content(bytes) => Some(copy_bytes(bytes)),
    };
    let snapshot = match config::capture_auth_config(&credentials.shared_config, product) {
        Ok(snapshot) => snapshot,
        Err(fault) => {
            return Err(errors::read_config_error(fault));
        },
    };
    let status = match &live {
        None => {
            if !config::uses_external_store(&snapshot.cli_auth_credentials_store) {
                return Ok(false);
            }
            "external"
        },
        Some(bytes) => {
            if find_archived(credentials, &metadata.profiles, bytes) {
                return Ok(false);
            }
            if auth::holds_login(bytes) {
                "configured"
            } else {
                "invalid"
            }
        },
    };
    let profile = new_personal_profile("安装前授权备份", credentials, product, status);
    let key = identity::profile_short_key(ORIGINAL_PROFILE_ID);
    if let Some(bytes) = live {
        credentials.write(FileWrite::ProfileAuth(key.clone(), bytes));
    }
    let ghost item = snapshot.deep_view().router_provider_item;
    assert(config::item_fits(
        item,
        config::config_entries(old(credentials).deep_view().shared_config)->Ok_0,
        product.deep_view(),
    ));
    credentials.write(FileWrite::ProfileConfig(key, snapshot));
    let ghost listed = metadata.profiles.deep_view();
    let ghost added = profile.deep_view();
    metadata.profiles.push(profile);
    assert(metadata.profiles.deep_view() =~= listed.push(added));
    metadata.active_mode = AuthMode::Chatgpt;
    metadata.active_profile_id = Some(ORIGINAL_PROFILE_ID.to_string());
    metadata.active_workspace_id = None;
    profiles::sort_profiles(&mut metadata.profiles);
    Ok(true)
}

/// Whether something has to be written so that there is a personal profile with settings.
pub open spec fn lacks_chatgpt(s: CredentialStoreView, m: CredentialMetadataView) -> bool {
    match profiles::first_where(m.profiles, profiles::of_kind(AuthProfileKind::Personal)) {
        Some(profile) => store::profile_config_of(s, key_of(profile)) is Missing,
        None => true,
    }
}

/// The store with settings for the personal profile.
pub open spec fn chatgpt_stored(
    s: CredentialStoreView,
    m: CredentialMetadataView,
) -> CredentialStoreView {
    let key = match profiles::first_where(
        m.profiles,
        profiles::of_kind(AuthProfileKind::Personal),
    ) {
        Some(profile) => key_of(profile),
        None => identity::short_key(ORIGINAL_PROFILE_ID@),
    };
    if lacks_chatgpt(s, m) {
        store::written(s, FileWriteView::ProfileConfig(key, config::chatgpt_login()))
    } else {
        s
    }
}

/// The record with a personal profile.
pub open spec fn chatgpt_recorded(
    s: CredentialStoreView,
    m: CredentialMetadataView,
    product: ProductConfigView,
) -> CredentialMetadataView {
    match profiles::first_where(m.profiles, profiles::of_kind(AuthProfileKind::Personal)) {
        Some(_) => m,
        None => CredentialMetadataView {
            profiles: profiles::sorted(
                m.profiles.push(
                    personal_profile(
                        "ChatGPT 登录"@,
                        product.default_model,
                        s.shared_home.text,
                        "login_required"@,
                    ),
                ),
            ),
            ..m
        },
    }
}

/// Makes sure that there is a personal profile with settings, and says whether there was not.
pub fn ensure_chatgpt_profile(
    credentials: &mut CredentialStore,
    metadata: &mut CredentialMetadata,
    product: &ProductConfig,
) -> (res: bool)
    ensures
        res == lacks_chatgpt(old(credentials).deep_view(), old(metadata).deep_view()),
        final(credentials).deep_view() == chatgpt_stored(
            old(credentials).deep_view(),
            old(metadata).deep_view(),
        ),
        final(metadata).deep_view() == chatgpt_recorded(
            old(credentials).deep_view(),
            old(metadata).deep_view(),
            product.deep_view(),
        ),
{
    if let Some(profile) = profiles::find_kind(&metadata.profiles, AuthProfileKind::Personal) {
        let key = identity::profile_short_key(profile.profile_id.as_str());
        let missing = match credentials.profile_config_file(key.as_str()) {
            Stored::Missing => true,
            _ => false,
        };
        if missing {
            credentials.write(FileWrite::ProfileConfig(key, config::chatgpt_login_config()));
        }
        return missing;
    }
    let profile = new_personal_profile("ChatGPT 登录", credentials, product, "login_required");
    let key = identity::profile_short_key(ORIGINAL_PROFILE_ID);
    credentials.write(FileWrite::ProfileConfig(key, config::chatgpt_login_config()));
    let ghost listed = metadata.profiles.deep_view();
    let ghost added = profile.deep_view();
    metadata.profiles.push(profile);
    assert(metadata.profiles.deep_view() =~= listed.push(added));
    profiles::sort_profiles(&mut metadata.profiles);
    true
}

/// Being a workspace profile whose stored login file holds the key.
pub open spec fn holding_key(s: CredentialStoreView, key: Seq<char>) -> spec_fn(
    CredentialProfileView,
) -> bool {
    |profile: CredentialProfileView|
        profile.kind == AuthProfileKind::Baijimu && match store::profile_auth_of(
            s,
            key_of(profile),
        ) {
            FileReadView::Content(archived) => auth::api_key(archived) == Some(key),
            _ => false,
        }
}

/// The workspace profile whose key the shared login file holds.
pub open spec fn live_workspace(
    s: CredentialStoreView,
    m: CredentialMetadataView,
) -> Option<CredentialProfileView> {
    match s.shared_auth {
        FileReadView::Content(live) => match auth::api_key(live) {
            Some(key) => profiles::first_where(m.profiles, holding_key(s, key)),
            None => None,
        },
        _ => None,
    }
}

/// Whether the shared files speak of a personal login.
pub open spec fn live_personal(s: CredentialStoreView, m: CredentialMetadataView) -> bool {
    let entries = config::config_entries(s.shared_config)->Ok_0;
    ||| live_workspace(s, m) is None && match s.shared_auth {
        FileReadView::Content(live) => auth::configured(live),
        _ => false,
    }
    ||| toml::text_entry(entries, config::top("forced_login_method"@)) == Some("chatgpt"@)
    ||| config::external_store(
        toml::text_entry(entries, config::top("cli_auth_credentials_store"@)),
    )
}

/// The profile that the shared files are recognized as: the workspace profile whose key they hold,
/// where the configuration is complete for it; else the personal profile, where they speak of a
/// personal login.
pub open spec fn recognized(
    s: CredentialStoreView,
    m: CredentialMetadataView,
    product: ProductConfigView,
) -> Option<CredentialProfileView> {
    if live_workspace(s, m) is Some && config::config_ready(s.shared_config, product) {
        live_workspace(s, m)
    } else if live_personal(s, m) {
        profiles::first_where(m.profiles, profiles::of_kind(AuthProfileKind::Personal))
    } else {
        None
    }
}

/// The record with the profile in effect.
pub open spec fn selecting(
    m: CredentialMetadataView,
    profile: CredentialProfileView,
) -> CredentialMetadataView {
    CredentialMetadataView {
        active_mode: contract::mode_of(profile.kind),
        active_workspace_id: if profile.kind == AuthProfileKind::Baijimu {
            Some(profile.workspace_id)
        } else {
            None
        },
        active_profile_id: Some(profile.profile_id),
        ..m
    }
}

/// Whether the record names another profile than the shared files are recognized as.
pub open spec fn selection_changes(
    s: CredentialStoreView,
    m: CredentialMetadataView,
    product: ProductConfigView,
) -> bool {
    match recognized(s, m, product) {
        Some(profile) => m.active_profile_id != Some(profile.profile_id),
        None => false,
    }
}

/// The record with the profile in effect that the shared files are recognized as. Its kind and
/// workspace are those of the first profile with that identity.
pub open spec fn reconciled(
    s: CredentialStoreView,
    m: CredentialMetadataView,
    product: ProductConfigView,
) -> CredentialMetadataView {
    if selection_changes(s, m, product) {
        selecting(
            m,
            profiles::first_where(
                m.profiles,
                profiles::with_id(recognized(s, m, product)->0.profile_id),
            )->0,
        )
    } else {
        m
    }
}

/// The first workspace profile whose stored login file holds the key.
fn find_holding_key<'a>(
    credentials: &CredentialStore,
    all: &'a Vec<CredentialProfile>,
    key: &String,
) -> (res: Option<&'a CredentialProfile>)
    ensures
        match res {
            Some(profile) => profiles::first_where(
                all.deep_view(),
                holding_key(credentials.deep_view(), key@),
            ) == Some(profile.deep_view()),
            None => profiles::first_where(
                all.deep_view(),
                holding_key(credentials.deep_view(), key@),
            ) is None,
        },
{
    let ghost views = all.deep_view();
    let ghost p = holding_key(credentials.deep_view(), key@);
    let mut i: usize = 0;
    while i < all.len()
        invariant
            i <= all.len(),
            views == all.deep_view(),
            p == holding_key(credentials.deep_view(), key@),
            forall|j: int| 0 <= j < i ==> !p(#[trigger] views[j]),
        decreases all.len() - i,
    {
        let profile = &all[i];
        let mut holds = false;
        if profile.kind == AuthProfileKind::Baijimu {
            let short = identity::profile_short_key(profile.profile_id.as_str());
            if let FileRead::Content(archived) = credentials.profile_auth_file(short.as_str()) {
                if let Some(found) = auth::read_codex_api_key_from_bytes(archived) {
                    holds = text::same(found.as_str(), key.as_str());
                }
            }
        }
        assert(holds == p(views[i as int]));
        if holds {
            proof {
                profiles::first_where_at(views, p, i as int);
            }
            return Some(profile);
        }
        i = i + 1;
    }
    proof {
        profiles::first_where_none(views, p);
    }
    None
}

/// Records the profile that the shared files are recognized as, and says whether the record named
/// another one. The shared files are only read.
pub fn reconcile_active_profile_from_shared_home(
    credentials: &CredentialStore,
    metadata: &mut CredentialMetadata,
    product: &ProductConfig,
) -> (res: Result<bool, CredentialError>)
    ensures
        match res {
            Ok(changed) => shared_files_error(credentials.deep_view()) is None && changed
                == selection_changes(
                credentials.deep_view(),
                old(metadata).deep_view(),
                product.deep_view(),
            ) && final(metadata).deep_view() == reconciled(
                credentials.deep_view(),
                old(metadata).deep_view(),
                product.deep_view(),
            ),
            Err(error) => shared_files_error(credentials.deep_view()) == Some(error) && final(metadata).deep_view() == old(metadata).deep_view(),
        },
{
    let ghost s = credentials.deep_view();
    let ghost m = metadata.deep_view();
    let live = match &credentials.shared_auth {
        FileRead::Missing => None,
        FileRead::Unreadable => {
            return Err(CredentialError::Unreadable(FileRole::SharedAuth));
        },
        FileRead::Content(bytes) => Some(bytes),
    };
    let snapshot = match config::capture_auth_config(&credentials.shared_config, product) {
        Ok(snapshot) => snapshot,
        Err(fault) => {
            return Err(errors::read_config_error(fault));
        },
    };
    let workspace = match live {
        Some(bytes) => {
            match auth::read_codex_api_key_from_bytes(bytes) {
                Some(key) => find_holding_key(credentials, &metadata.profiles, &key),
                None => None,
            }
        },
        None => None,
    };
    let holds_login = match live {
        Some(bytes) => auth::holds_login(bytes),
        None => false,
    };
    let personal_config = (match &snapshot.forced_login_method {
        Some(method) => text::same(method.as_str(), "chatgpt"),
        None => false,
    }) || config::uses_external_store(&snapshot.cli_auth_credentials_store);
    let found = if workspace.is_some() && config::managed_config_ready(
        &credentials.shared_config,
        product,
    ) {
        workspace
    } else if (holds_login && workspace.is_none()) || personal_config {
        profiles::find_kind(&metadata.profiles, AuthProfileKind::Personal)
    } else {
        None
    };
    assert(match found {
        Some(profile) => recognized(s, m, product.deep_view()) == Some(profile.deep_view()),
        None => recognized(s, m, product.deep_view()) is None,
    });
    let target = match found {
        Some(profile) => profile.profile_id.clone(),
        None => {
            return Ok(false);
        },
    };
    if profiles::is_active(&metadata.active_profile_id, target.as_str()) {
        return Ok(false);
    }
    proof {
        recognized_is_listed(s, m, product.deep_view());
    }
    let (kind, workspace_id) = match profiles::find_profile(&metadata.profiles, target.as_str()) {
        Some(profile) => (profile.kind, profile.workspace_id),
        None => {
            return Err(CredentialError::LiveProfileGone);
        },
    };
    metadata.active_mode = contract::auth_mode(kind);
    metadata.active_workspace_id = if kind == AuthProfileKind::Baijimu {
        Some(workspace_id)
    } else {
        None
    };
    let ghost chosen = profiles::first_where(m.profiles, profiles::with_id(target@))->0;
    proof {
        profiles::first_where_is_found(m.profiles, profiles::with_id(target@));
        assert(m.active_profile_id != Some(target@));
        assert(selection_changes(s, m, product.deep_view()));
    }
    metadata.active_profile_id = Some(target);
    assert(metadata.deep_view() == selecting(m, chosen));
    Ok(true)
}

/// The profile that the shared files are recognized as is among the profiles.
pub proof fn recognized_is_listed(
    s: CredentialStoreView,
    m: CredentialMetadataView,
    product: ProductConfigView,
)
    requires
        recognized(s, m, product) is Some,
    ensures
        m.profiles.contains(recognized(s, m, product)->0),
        profiles::first_where(
            m.profiles,
            profiles::with_id(recognized(s, m, product)->0.profile_id),
        ) is Some,
{
    let found = recognized(s, m, product)->0;
    if live_workspace(s, m) is Some && config::config_ready(s.shared_config, product) {
        let key = auth::api_key(s.shared_auth->Content_0)->0;
        profiles::first_where_is_found(m.profiles, holding_key(s, key));
    } else {
        profiles::first_where_is_found(m.profiles, profiles::of_kind(AuthProfileKind::Personal));
    }
    let p = profiles::with_id(found.profile_id);
    if profiles::first_where(m.profiles, p) is None {
        let i = choose|i: int| 0 <= i < m.profiles.len() && m.profiles[i] == found;
        nothing_found_nowhere(m.profiles, p, i);
    }
}

/// Where nothing is found, the predicate holds of no value.
proof fn nothing_found_nowhere<T>(s: Seq<T>, p: spec_fn(T) -> bool, i: int)
    requires
        0 <= i < s.len(),
        profiles::first_where(s, p) is None,
    ensures
        !p(s[i]),
    decreases s.len(),
{
    if i < s.len() - 1 {
        nothing_found_nowhere(s.drop_last(), p, i);
    }
}

} // verus!
