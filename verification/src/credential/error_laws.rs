//! Which error each obstacle is told as.
use crate::baijimu_cli::{AuthStatusView, WorkspaceView};
use crate::credential::activation;
use crate::credential::auth;
use crate::credential::config;
use crate::credential::config::ConfigFault;
use crate::credential::contract::{
    AuthProfileKind, CredentialMetadataView, CredentialProfileView,
};
use crate::credential::errors::{CredentialError, FileRole};
use crate::credential::files::FileReadView;
use crate::credential::identity;
use crate::credential::loading;
use crate::credential::loading_laws;
use crate::credential::metadata;
use crate::credential::operations;
use crate::credential::profile_laws;
use crate::credential::profiles;
use crate::credential::recognition;
use crate::credential::settings_laws;
use crate::credential::store::CredentialStoreView;
use crate::credential::switch_laws;
use crate::json_compat;
use crate::product_config::ProductConfigView;
use vstd::prelude::*;

verus! {

/// Why a workspace is not authorized: it has no number; the status is not known; the status is not that of
/// an authorized device or does not name it; or it was not confirmed. The first of these that holds is
/// told.
pub proof fn unauthorized_workspaces_say_why(
    workspace_id: u64,
    status: Option<AuthStatusView>,
    workspace: Option<WorkspaceView>,
)
    ensures
        ({
            let result = operations::authorized(workspace_id, status, workspace);
            let named = status is Some && status->0.authenticated && (exists|i: int|
                0 <= i < status->0.workspace_ids.len() && #[trigger] status->0.workspace_ids[i]
                    == workspace_id);
            &&& workspace_id == 0 ==> result is Err && result->Err_0
                == CredentialError::WorkspaceIdZero
            &&& workspace_id > 0 && status is None ==> result is Err && result->Err_0
                == CredentialError::AuthStatusUnavailable
            &&& workspace_id > 0 && status is Some && !named ==> result is Err && result->Err_0
                == CredentialError::WorkspaceNotAuthorized
            &&& workspace_id > 0 && named && workspace is None ==> result is Err && result->Err_0
                == CredentialError::WorkspaceUnconfirmed
            &&& workspace_id > 0 && named && workspace is Some ==> result is Ok && result->Ok_0
                == workspace->0
        }),
{
    if status is Some && status->0.workspace_ids.contains(workspace_id) {
        let ids = status->0.workspace_ids;
        let i = choose|i: int| 0 <= i < ids.len() && ids[i] == workspace_id;
        assert(ids[i] == workspace_id);
    }
}

/// Whether the bytes are a JSON document.
pub open spec fn is_document(bytes: Seq<u8>) -> bool {
    json_compat::json_read(json_compat::without_bom(bytes)) is Some
}

/// Why there is no key for the route of a workspace: it has no profile; or the stored login file of the
/// preferred one cannot be read, is no document, or holds no key.
pub proof fn missing_route_keys_say_why(
    t: CredentialStoreView,
    m: CredentialMetadataView,
    workspace: u64,
)
    ensures
        ({
            let result = operations::router_credential(t, m, workspace);
            let best = profiles::preferred(m.profiles, m.active_profile_id, workspace);
            let key = identity::short_key(best->0.profile_id);
            let file = if t.profile_auth.contains_key(key) {
                t.profile_auth[key]
            } else {
                FileReadView::Missing
            };
            &&& best is None ==> result is Err && result->Err_0
                == CredentialError::CredentialProfileMissing
            &&& best is Some && file is Unreadable ==> result is Err && result->Err_0
                == CredentialError::Unreadable(FileRole::ProfileAuth)
            &&& best is Some && file is Missing ==> result is Err && result->Err_0
                == CredentialError::ApiKeyMissing
            &&& best is Some ==> (file matches FileReadView::Content(bytes) ==> {
                &&& !is_document(bytes) ==> result is Err && result->Err_0
                    == CredentialError::Invalid(FileRole::ProfileAuth)
                &&& is_document(bytes) && !switch_laws::says(bytes, seq!["OPENAI_API_KEY"@])
                    ==> result is Err && result->Err_0 == CredentialError::ApiKeyMissing
                &&& switch_laws::says(bytes, seq!["OPENAI_API_KEY"@]) ==> result is Ok
            })
        }),
{
    let best = profiles::preferred(m.profiles, m.active_profile_id, workspace);
    let key = identity::short_key(best->0.profile_id);
    if let FileReadView::Content(bytes) = t.profile_auth[key] {
        switch_laws::usable_logins_hold_a_login(bytes, AuthProfileKind::Baijimu);
    }
}

/// Why no key is found when a workspace is set up. Of a workspace with a profile: its stored login file is
/// damaged, or holds no key. Of one without: a login file in the way cannot be read or is no document; or
/// none was issued.
pub proof fn set_up_without_a_key_says_why(
    file: FileReadView,
    fresh: bool,
    issued: Option<Seq<char>>,
)
    ensures
        ({
            let result = operations::settled_credential(file, fresh, issued);
            let damaged = file is Unreadable || (file is Content && !is_document(file->Content_0));
            let holds = file is Content && switch_laws::says(
                file->Content_0,
                seq!["OPENAI_API_KEY"@],
            );
            &&& holds ==> result is Ok
            &&& damaged && !fresh ==> result is Err && result->Err_0
                == CredentialError::InitializedAuthDamaged
            &&& !damaged && !holds && !fresh ==> result is Err && result->Err_0
                == CredentialError::InitializedAuthMissing
            &&& file is Unreadable && fresh ==> result is Err && result->Err_0
                == CredentialError::Unreadable(FileRole::ProfileAuth)
            &&& damaged && file is Content && fresh ==> result is Err && result->Err_0
                == CredentialError::Invalid(FileRole::ProfileAuth)
            &&& !damaged && !holds && fresh && issued is None ==> result is Err && result->Err_0
                == CredentialError::CredentialNotIssued
            &&& !damaged && !holds && fresh && issued is Some ==> result is Ok && result->Ok_0
                == issued->0
        }),
{
    if let FileReadView::Content(bytes) = file {
        switch_laws::usable_logins_hold_a_login(bytes, AuthProfileKind::Baijimu);
    }
}

/// Why a profile cannot be prepared: it is not recorded, or it is a workspace profile whose stored login
/// file is missing or cannot be read.
pub proof fn unprepared_profiles_say_why(
    t: CredentialStoreView,
    m: CredentialMetadataView,
    id: Seq<char>,
    at: int,
)
    requires
        switch_laws::stands_first(m.profiles, id, at),
    ensures
        ({
            let result = operations::preparation(t, m, id);
            let key = identity::short_key(id);
            let workspace = m.profiles[at].kind == AuthProfileKind::Baijimu;
            let stored = t.profile_auth.contains_key(key);
            &&& workspace && (!stored || t.profile_auth[key] is Missing) ==> result is Err
                && result->Err_0 == CredentialError::ProfileAuthMissing
            &&& workspace && stored && t.profile_auth[key] is Unreadable ==> result is Err
                && result->Err_0 == CredentialError::ProfileUnreadable
            &&& !workspace || (stored && t.profile_auth[key] is Content) ==> result is Ok
                && result->Ok_0 == m.profiles[at]
        }),
{
    switch_laws::first_is_found(m.profiles, id, at);
}

/// Why a new credential cannot be prepared: the workspace has no profile, or none was issued.
pub proof fn unprepared_credentials_say_why(
    m: CredentialMetadataView,
    workspace: u64,
    issued: Option<Seq<char>>,
)
    ensures
        ({
            let result = operations::reauthorization(m, workspace, issued);
            let known = exists|i: int|
                0 <= i < m.profiles.len() && profile_laws::belongs_to(
                    #[trigger] m.profiles[i],
                    workspace,
                );
            &&& !known ==> result is Err && result->Err_0 == CredentialError::WorkspaceNotInitialized
            &&& known && issued is None ==> result is Err && result->Err_0
                == CredentialError::CredentialNotReissued
            &&& known && issued is Some ==> result is Ok && result->Ok_0.1 == issued->0
        }),
{
    profile_laws::preferred_profile_is_the_best(m.profiles, m.active_profile_id, workspace);
}

/// Which shared file stands in the way: the login file first where it cannot be read, else the
/// configuration file where it cannot be read as text or is no document.
pub proof fn unreadable_shared_files_are_named(s: CredentialStoreView)
    ensures
        ({
            let found = recognition::shared_files_error(s);
            let before = activation::snapshot_error(s);
            let entries = config::config_entries(s.shared_config);
            &&& s.shared_auth is Unreadable ==> found == Some(
                CredentialError::Unreadable(FileRole::SharedAuth),
            ) && before == found
            &&& !(s.shared_auth is Unreadable) && s.shared_config is Unreadable ==> found == Some(
                CredentialError::Unreadable(FileRole::SharedConfig),
            ) && before == found
            &&& !(s.shared_auth is Unreadable) && entries is Err && entries->Err_0
                == ConfigFault::Invalid ==> found == Some(
                CredentialError::Invalid(FileRole::SharedConfig),
            )
            &&& !(s.shared_auth is Unreadable) && entries is Ok ==> found is None
            &&& !(s.shared_auth is Unreadable) && !(s.shared_config is Unreadable) ==> before is None
        }),
{
}

/// Which record stands in the way: the one in its place where it cannot be read or is none, and the one at
/// its old place only where there is none in its place.
pub proof fn unreadable_records_are_named(
    s: CredentialStoreView,
    product: ProductConfigView,
    item: Option<Seq<char>>,
)
    ensures
        ({
            let (t, loaded) = metadata::loaded(s, product, item);
            &&& s.metadata is Unreadable ==> t == s && loaded is Err && loaded->Err_0
                == CredentialError::Unreadable(FileRole::Metadata)
            &&& s.metadata is Invalid ==> t == s && loaded is Err && loaded->Err_0
                == CredentialError::Invalid(FileRole::Metadata)
            &&& s.metadata is Missing && s.legacy_metadata is Unreadable ==> t == s && loaded is Err
                && loaded->Err_0 == CredentialError::Unreadable(FileRole::LegacyMetadata)
            &&& s.metadata is Missing && s.legacy_metadata is Invalid ==> t == s && loaded is Err
                && loaded->Err_0 == CredentialError::Invalid(FileRole::LegacyMetadata)
        }),
{
}

/// Which login file stands in the way of moving one: that at the old place where it cannot be read, or
/// that of the state directory; and none for a personal profile or one whose login file is stored.
pub proof fn unmoved_logins_say_why(s: CredentialStoreView, profile: CredentialProfileView)
    ensures
        ({
            let result = loading::migration_bytes(s, profile);
            let key = identity::short_key(profile.profile_id);
            let stored = s.profile_auth.contains_key(key) && !(s.profile_auth[key] is Missing);
            let old = if s.legacy_profile_auth.contains_key(key) {
                s.legacy_profile_auth[key]
            } else {
                FileReadView::Missing
            };
            let own = if profile.codex_home == s.shared_home.text || (s.previous_homes.contains_key(
                profile.codex_home,
            ) && s.previous_homes[profile.codex_home].path.components == s.shared_home.components) {
                s.shared_auth
            } else if s.previous_homes.contains_key(profile.codex_home) {
                s.previous_homes[profile.codex_home].auth
            } else {
                FileReadView::Missing
            };
            let needed = profile.kind == AuthProfileKind::Baijimu && !stored;
            &&& !needed ==> result is Ok && result->Ok_0 is None
            &&& needed && old is Unreadable ==> result is Err && result->Err_0
                == CredentialError::Unreadable(FileRole::LegacyProfileAuth)
            &&& needed && !(old is Unreadable) && own is Unreadable ==> result is Err && result->Err_0
                == CredentialError::Unreadable(FileRole::PreviousHomeAuth)
            &&& needed && old is Content && !(own is Unreadable) ==> result is Ok && result->Ok_0
                == Some(old->Content_0)
            &&& needed && old is Missing && own is Content ==> result is Ok && result->Ok_0 == Some(
                own->Content_0,
            )
            &&& needed && old is Missing && own is Missing ==> result is Ok && result->Ok_0 is None
        }),
{
}

/// When a login that was there before counts as one to be kept: no profile is personal, the shared files
/// can be read, and the shared login file is no workspace's; where there is none, only where the
/// configuration keeps logins outside of the file.
pub proof fn only_foreign_logins_are_kept(s: CredentialStoreView, m: CredentialMetadataView)
    requires
        !(s.shared_auth is Unreadable),
        config::config_entries(s.shared_config) is Ok,
        loading_laws::no_personal(m.profiles),
    ensures
        ({
            let entries = config::config_entries(s.shared_config)->Ok_0;
            let place = seq!["cli_auth_credentials_store"@];
            let outside = settings_laws::has_text(entries, place, "keyring"@) || settings_laws::has_text(
                entries,
                place,
                "auto"@,
            );
            &&& s.shared_auth is Missing ==> (recognition::finds_original(s, m) <==> outside)
            &&& s.shared_auth matches FileReadView::Content(live) ==> (recognition::finds_original(
                s,
                m,
            ) <==> forall|i: int|
                0 <= i < m.profiles.len() ==> !#[trigger] is_workspaces(s, m.profiles[i], live))
        }),
{
    let q = profiles::of_kind(AuthProfileKind::Personal);
    assert forall|i: int| 0 <= i < m.profiles.len() implies !q(#[trigger] m.profiles[i]) by {
        assert(m.profiles[i].kind != AuthProfileKind::Personal);
    }
    profiles::first_where_none(m.profiles, q);
    if let FileReadView::Content(live) = s.shared_auth {
        assert forall|i: int| 0 <= i < m.profiles.len() implies (recognition::archives(
            s,
            m.profiles[i],
            live,
        ) <==> #[trigger] is_workspaces(s, m.profiles[i], live)) by {}
        if recognition::is_archived(s, m.profiles, live) {
            let i = choose|i: int|
                0 <= i < m.profiles.len() && recognition::archives(s, #[trigger] m.profiles[i], live);
            assert(is_workspaces(s, m.profiles[i], live));
        }
        if exists|i: int| 0 <= i < m.profiles.len() && #[trigger] is_workspaces(s, m.profiles[i], live) {
            let i = choose|i: int|
                0 <= i < m.profiles.len() && #[trigger] is_workspaces(s, m.profiles[i], live);
            assert(recognition::archives(s, m.profiles[i], live));
        }
    }
}

/// Whether the login file is that of the workspace profile: the stored one, or one with its key.
pub open spec fn is_workspaces(
    s: CredentialStoreView,
    profile: CredentialProfileView,
    live: Seq<u8>,
) -> bool {
    let key = identity::short_key(profile.profile_id);
    &&& profile.kind == AuthProfileKind::Baijimu
    &&& s.profile_auth.contains_key(key)
    &&& s.profile_auth[key] is Content
    &&& s.profile_auth[key]->Content_0 == live || (auth::api_key(live) is Some && auth::api_key(
        s.profile_auth[key]->Content_0,
    ) == auth::api_key(live))
}

} // verus!
