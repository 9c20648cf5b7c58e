//! Reading the record of profiles: migration of older records, and recognition of what is in
//! effect.
use crate::codex_path;
use crate::codex_path::{CodexPath, CodexPathView};
use crate::credential::auth;
use crate::credential::contract::{
    AuthMode, AuthProfileKind, CredentialMetadata, CredentialMetadataView, CredentialProfile,
    CredentialProfileView, OriginalCodexHomeState, OriginalCodexHomeStateView,
};
use crate::credential::contract;
use crate::credential::errors;
use crate::credential::errors::{CredentialError, FileRole};
use crate::credential::files::{FileRead, FileReadView};
use crate::credential::identity;
use crate::credential::profiles;
use crate::credential::store;
use crate::credential::store::{CredentialStore, CredentialStoreView, FileWrite, FileWriteView};
use crate::duplicate::{copy_bytes, Duplicate};
use crate::product_config::ProductConfig;
use crate::text;
use vstd::prelude::*;

verus! {

/// The version of the record of profiles.
pub const METADATA_VERSION: u32 = 12;

/// The version from which on profiles carry the default model.
pub const DEFAULT_MODEL_METADATA_VERSION: u32 = 12;

/// The record of an installation that has none.
pub open spec fn no_metadata() -> CredentialMetadataView {
    CredentialMetadataView {
        version: METADATA_VERSION,
        profiles: seq![],
        active_mode: AuthMode::Chatgpt,
        active_profile_id: None,
        active_workspace_id: None,
        original_codex_home_state: OriginalCodexHomeStateView {
            captured: false,
            value: None,
            capture_source: seq![],
        },
        legacy_global_codex_home_restored_at_epoch_seconds: None,
        legacy_shared_auth_acl_cleanup_required: false,
        legacy_shared_auth_acl_revoked_at_epoch_seconds: None,
    }
}

impl CredentialMetadata {
    /// The record of an installation that has none.
    pub fn new() -> (res: Self)
        ensures
            res.deep_view() == no_metadata(),
    {
        let res = CredentialMetadata {
            version: METADATA_VERSION,
            profiles: Vec::new(),
            active_mode: AuthMode::Chatgpt,
            active_profile_id: None,
            active_workspace_id: None,
            original_codex_home_state: OriginalCodexHomeState {
                captured: false,
                value: None,
                capture_source: String::new(),
            },
            legacy_global_codex_home_restored_at_epoch_seconds: None,
            legacy_shared_auth_acl_cleanup_required: false,
            legacy_shared_auth_acl_revoked_at_epoch_seconds: None,
        };
        assert(res.profiles.deep_view() =~= seq![]);
        res
    }
}

/// The model of a profile replaced.
pub open spec fn with_model(
    profile: CredentialProfileView,
    model: Seq<char>,
) -> CredentialProfileView {
    CredentialProfileView { model, ..profile }
}

/// The record with the default model in every profile, where it is of a version that lacked it.
pub open spec fn models_migrated(
    m: CredentialMetadataView,
    previous: u32,
    model: Seq<char>,
) -> CredentialMetadataView {
    if previous >= DEFAULT_MODEL_METADATA_VERSION {
        m
    } else {
        CredentialMetadataView {
            profiles: m.profiles.map_values(|profile: CredentialProfileView| with_model(profile, model)),
            ..m
        }
    }
}

/// Whether a profile gets another model by that.
pub open spec fn models_change(
    m: CredentialMetadataView,
    previous: u32,
    model: Seq<char>,
) -> bool {
    previous < DEFAULT_MODEL_METADATA_VERSION && exists|i: int|
        0 <= i < m.profiles.len() && (#[trigger] m.profiles[i]).model != model
}

/// Puts the default model into every profile of a record that is of a version that lacked it, and
/// says whether a profile got another model.
pub fn migrate_profile_default_models(
    metadata: &mut CredentialMetadata,
    previous_version: u32,
    product: &ProductConfig,
) -> (res: bool)
    ensures
        final(metadata).deep_view() == models_migrated(
            old(metadata).deep_view(),
            previous_version,
            product.default_model@,
        ),
        res == models_change(
            old(metadata).deep_view(),
            previous_version,
            product.default_model@,
        ),
{
    if previous_version >= DEFAULT_MODEL_METADATA_VERSION {
        return false;
    }
    let ghost before = metadata.deep_view();
    let ghost all = metadata.profiles.deep_view();
    let mut changed: bool = false;
    let mut profiles: Vec<CredentialProfile> = Vec::new();
    let mut i: usize = 0;
    while i < metadata.profiles.len()
        invariant
            i <= metadata.profiles.len(),
            all == metadata.profiles.deep_view(),
            profiles.len() == i,
            forall|j: int|
                0 <= j < i ==> (#[trigger] profiles@[j]).deep_view() == with_model(
                    all[j],
                    product.default_model@,
                ),
            changed == exists|j: int|
                0 <= j < i && (#[trigger] all[j]).model != product.default_model@,
        decreases metadata.profiles.len() - i,
    {
        let mut profile = metadata.profiles[i].duplicate();
        if !text::same(profile.model.as_str(), product.default_model.as_str()) {
            profile.model = product.default_model.clone();
            changed = true;
            assert(all[i as int].model != product.default_model@);
        }
        profiles.push(profile);
        i = i + 1;
    }
    metadata.profiles = profiles;
    assert(metadata.profiles.deep_view() =~= models_migrated(
        before,
        previous_version,
        product.default_model@,
    ).profiles);
    changed
}

/// Whether the recorded state directory is the shared one.
pub open spec fn is_shared_home(s: CredentialStoreView, home: Seq<char>) -> bool {
    home == s.shared_home.text || (s.previous_homes.contains_key(home)
        && s.previous_homes[home].path.components == s.shared_home.components)
}

/// The login file in the recorded state directory.
pub open spec fn home_auth(s: CredentialStoreView, home: Seq<char>) -> FileReadView {
    if is_shared_home(s, home) {
        s.shared_auth
    } else if s.previous_homes.contains_key(home) {
        s.previous_homes[home].auth
    } else {
        FileReadView::Missing
    }
}

impl CredentialStore {
    /// Whether the recorded state directory is the shared one.
    pub fn is_shared(&self, home: &str) -> (res: bool)
        ensures
            res == is_shared_home(self.deep_view(), home@),
    {
        if text::same(home, self.shared_home.text.as_str()) {
            return true;
        }
        match self.previous_homes.get(home) {
            Some(previous) => previous.path.same_as(&self.shared_home),
            None => false,
        }
    }

    /// The login file in the recorded state directory.
    fn auth_in_home(&self, home: &str) -> (res: &FileRead)
        ensures
            res.deep_view() == home_auth(self.deep_view(), home@),
    {
        if self.is_shared(home) {
            return &self.shared_auth;
        }
        match self.previous_homes.get(home) {
            Some(previous) => &previous.auth,
            None => &FileRead::Missing,
        }
    }
}

/// The login file that a profile without a stored one is to get: that at the old place, else that
/// of its state directory.
pub open spec fn migration_bytes(
    s: CredentialStoreView,
    profile: CredentialProfileView,
) -> Result<Option<Seq<u8>>, CredentialError> {
    let key = identity::short_key(profile.profile_id);
    if profile.kind != AuthProfileKind::Baijimu || store::profile_auth_of(s, key)
        != FileReadView::Missing {
        Ok(None)
    } else {
        match (store::legacy_auth_of(s, key), home_auth(s, profile.codex_home)) {
            (FileReadView::Unreadable, _) => Err(
                CredentialError::Unreadable(FileRole::LegacyProfileAuth),
            ),
            (_, FileReadView::Unreadable) => Err(
                CredentialError::Unreadable(FileRole::PreviousHomeAuth),
            ),
            (FileReadView::Content(bytes), _) => Ok(Some(bytes)),
            (FileReadView::Missing, FileReadView::Content(bytes)) => Ok(Some(bytes)),
            (FileReadView::Missing, FileReadView::Missing) => Ok(None),
        }
    }
}

/// The login file that a profile without a stored one is to get.
fn find_migration_bytes(credentials: &CredentialStore, profile: &CredentialProfile) -> (res: Result<
    Option<Vec<u8>>,
    CredentialError,
>)
    ensures
        match res {
            Ok(None) => migration_bytes(credentials.deep_view(), profile.deep_view()) == Ok::<
                Option<Seq<u8>>,
                CredentialError,
            >(None),
            Ok(Some(bytes)) => migration_bytes(credentials.deep_view(), profile.deep_view()) == Ok::<
                Option<Seq<u8>>,
                CredentialError,
            >(Some(bytes@)),
            Err(error) => migration_bytes(credentials.deep_view(), profile.deep_view()) == Err::<
                Option<Seq<u8>>,
                CredentialError,
            >(error),
        },
{
    let key = identity::profile_short_key(profile.profile_id.as_str());
    if profile.kind != AuthProfileKind::Baijimu {
        return Ok(None);
    }
    match credentials.profile_auth_file(key.as_str()) {
        FileRead::Missing => {},
        _ => {
            return Ok(None);
        },
    }
    let legacy = credentials.legacy_auth_file(key.as_str());
    let home = credentials.auth_in_home(profile.codex_home.as_str());
    match legacy {
        FileRead::Unreadable => Err(CredentialError::Unreadable(FileRole::LegacyProfileAuth)),
        FileRead::Content(bytes) => {
            match home {
                FileRead::Unreadable => Err(CredentialError::Unreadable(FileRole::PreviousHomeAuth)),
                _ => Ok(Some(copy_bytes(bytes))),
            }
        },
        FileRead::Missing => {
            match home {
                FileRead::Unreadable => Err(CredentialError::Unreadable(FileRole::PreviousHomeAuth)),
                FileRead::Content(bytes) => Ok(Some(copy_bytes(bytes))),
                FileRead::Missing => Ok(None),
            }
        },
    }
}

/// The store after every profile got its login file, in the order of the list; where one cannot be
/// read, those before it got theirs.
pub open spec fn logins_migrated(
    s: CredentialStoreView,
    all: Seq<CredentialProfileView>,
) -> (CredentialStoreView, Option<CredentialError>)
    decreases all.len(),
{
    if all.len() == 0 {
        (s, None)
    } else {
        let (t, stopped) = logins_migrated(s, all.drop_last());
        if stopped is Some {
            (t, stopped)
        } else {
            match migration_bytes(t, all.last()) {
                Err(error) => (t, Some(error)),
                Ok(None) => (t, None),
                Ok(Some(bytes)) => (
                    store::written(
                        t,
                        FileWriteView::ProfileAuth(
                            identity::short_key(all.last().profile_id),
                            bytes,
                        ),
                    ),
                    None,
                ),
            }
        }
    }
}

/// How many profiles come before the first whose login file cannot be read.
pub open spec fn migrated_count(s: CredentialStoreView, all: Seq<CredentialProfileView>) -> int
    decreases all.len(),
{
    if all.len() == 0 {
        0
    } else if logins_migrated(s, all).1 is None {
        all.len() as int
    } else {
        migrated_count(s, all.drop_last())
    }
}

/// A failure stays the outcome however many profiles follow.
proof fn logins_stay_stopped(s: CredentialStoreView, all: Seq<CredentialProfileView>, k: int)
    requires
        0 <= k <= all.len(),
        logins_migrated(s, all.take(k)).1 is Some,
    ensures
        logins_migrated(s, all) == logins_migrated(s, all.take(k)),
        migrated_count(s, all) == migrated_count(s, all.take(k)),
    decreases all.len(),
{
    if k < all.len() {
        assert(all.drop_last().take(k) =~= all.take(k));
        logins_stay_stopped(s, all.drop_last(), k);
    } else {
        assert(all.take(k) =~= all);
    }
}

/// The profile with the shared state directory.
pub open spec fn rehomed(
    s: CredentialStoreView,
    profile: CredentialProfileView,
) -> CredentialProfileView {
    if is_shared_home(s, profile.codex_home) {
        profile
    } else {
        CredentialProfileView { codex_home: s.shared_home.text, ..profile }
    }
}

/// Every profile with the shared state directory.
pub open spec fn all_rehomed(
    s: CredentialStoreView,
    all: Seq<CredentialProfileView>,
) -> Seq<CredentialProfileView> {
    all.map_values(|profile: CredentialProfileView| rehomed(s, profile))
}

/// The profiles with the shared state directory in the first of them.
pub open spec fn first_rehomed(
    s: CredentialStoreView,
    all: Seq<CredentialProfileView>,
    count: int,
) -> Seq<CredentialProfileView> {
    all_rehomed(s, all.take(count)) + all.skip(count)
}

/// Whether a profile has another state directory.
pub open spec fn homes_change(s: CredentialStoreView, all: Seq<CredentialProfileView>) -> bool {
    exists|i: int| 0 <= i < all.len() && !is_shared_home(s, (#[trigger] all[i]).codex_home)
}

/// Gives every workspace profile without a stored login file the one from its old place, and every
/// profile the shared state directory. What old state directories hold stays where it is. Says
/// whether a profile had another state directory. Where a login file cannot be read, the profiles
/// before it are done.
pub fn migrate_profiles_to_shared_home(
    credentials: &mut CredentialStore,
    metadata: &mut CredentialMetadata,
) -> (res: Result<bool, CredentialError>)
    ensures
        final(credentials).deep_view() == logins_migrated(
            old(credentials).deep_view(),
            old(metadata).deep_view().profiles,
        ).0,
        match res {
            Ok(changed) => logins_migrated(
                old(credentials).deep_view(),
                old(metadata).deep_view().profiles,
            ).1 is None && changed == homes_change(
                old(credentials).deep_view(),
                old(metadata).deep_view().profiles,
            ) && final(metadata).deep_view() == (CredentialMetadataView {
                profiles: all_rehomed(
                    old(credentials).deep_view(),
                    old(metadata).deep_view().profiles,
                ),
                ..old(metadata).deep_view()
            }),
            Err(error) => logins_migrated(
                old(credentials).deep_view(),
                old(metadata).deep_view().profiles,
            ).1 == Some(error) && final(metadata).deep_view() == (CredentialMetadataView {
                profiles: first_rehomed(
                    old(credentials).deep_view(),
                    old(metadata).deep_view().profiles,
                    migrated_count(
                        old(credentials).deep_view(),
                        old(metadata).deep_view().profiles,
                    ),
                ),
                ..old(metadata).deep_view()
            }),
        },
{
    let ghost s = credentials.deep_view();
    let ghost before = metadata.deep_view();
    let ghost all = metadata.profiles.deep_view();
    let mut changed: bool = false;
    let mut i: usize = 0;
    assert(all.take(0) =~= seq![]);
    assert(first_rehomed(s, all, 0) =~= all);
    while i < metadata.profiles.len()
        invariant
            i <= metadata.profiles.len(),
            metadata.profiles.len() == all.len(),
            s == old(credentials).deep_view(),
            before == old(metadata).deep_view(),
            all == before.profiles,
            metadata.deep_view() == (CredentialMetadataView {
                profiles: first_rehomed(s, all, i as int),
                ..before
            }),
            logins_migrated(s, all.take(i as int)) == (
                credentials.deep_view(),
                None::<CredentialError>,
            ),
            changed == exists|j: int|
                0 <= j < i && !is_shared_home(s, (#[trigger] all[j]).codex_home),
        decreases metadata.profiles.len() - i,
    {
        proof {
            assert(all.take(i + 1).drop_last() =~= all.take(i as int));
            assert(all.take(i + 1).last() == all[i as int]);
            assert(metadata.profiles.deep_view()[i as int] == all[i as int]);
            migration_keeps_homes(s, all.take(i as int));
        }
        let mut profile = metadata.profiles[i].duplicate();
        match find_migration_bytes(credentials, &profile) {
            Ok(Some(bytes)) => {
                let key = identity::profile_short_key(profile.profile_id.as_str());
                credentials.write(FileWrite::ProfileAuth(key, bytes));
            },
            Ok(None) => {},
            Err(error) => {
                proof {
                    logins_stay_stopped(s, all, i + 1);
                    assert(migrated_count(s, all.take(i as int)) == i);
                    assert(migrated_count(s, all.take(i + 1)) == i);
                }
                return Err(error);
            },
        }
        proof {
            migration_keeps_homes(s, all.take(i + 1));
        }
        if !credentials.is_shared(profile.codex_home.as_str()) {
            profile.codex_home = credentials.shared_home.text.clone();
            changed = true;
            assert(!is_shared_home(s, all[i as int].codex_home));
        }
        let ghost list = metadata.profiles.deep_view();
        let ghost moved = profile.deep_view();
        metadata.profiles[i] = profile;
        proof {
            assert(metadata.profiles.deep_view() =~= list.update(i as int, moved));
            assert(moved == rehomed(s, all[i as int]));
            assert(list.update(i as int, moved) =~= first_rehomed(s, all, i + 1));
        }
        i = i + 1;
    }
    assert(all.take(i as int) =~= all);
    assert(first_rehomed(s, all, i as int) =~= all_rehomed(s, all));
    Ok(changed)
}

/// Migrating login files changes nothing but stored login files and the journal.
pub proof fn migration_keeps_homes(s: CredentialStoreView, all: Seq<CredentialProfileView>)
    ensures
        ({
            let t = logins_migrated(s, all).0;
            &&& t == CredentialStoreView {
                profile_auth: t.profile_auth,
                journal: t.journal,
                ..s
            }
            &&& forall|home: Seq<char>| #[trigger]
                is_shared_home(t, home) == is_shared_home(s, home)
        }),
    decreases all.len(),
{
    if all.len() > 0 {
        migration_keeps_homes(s, all.drop_last());
    }
}

/// The record with the profile selected that the first version named by its workspace.
pub open spec fn first_selection(
    m: CredentialMetadataView,
    previous: u32,
) -> CredentialMetadataView {
    if previous < 2 && m.active_profile_id is None {
        match m.active_workspace_id {
            Some(workspace) => match profiles::first_where(
                m.profiles,
                profiles::with_workspace(workspace),
            ) {
                Some(profile) => CredentialMetadataView {
                    active_profile_id: Some(profile.profile_id),
                    active_mode: AuthMode::Baijimu,
                    ..m
                },
                None => m,
            },
            None => m,
        }
    } else {
        m
    }
}

/// Selects the profile that the first version named by its workspace.
pub fn select_first_version(metadata: &mut CredentialMetadata, previous_version: u32)
    ensures
        final(metadata).deep_view() == first_selection(
            old(metadata).deep_view(),
            previous_version,
        ),
{
    if previous_version < 2 && metadata.active_profile_id.is_none() {
        if let Some(workspace) = metadata.active_workspace_id {
            let selected = match profiles::find_workspace(&metadata.profiles, workspace) {
                Some(profile) => Some(profile.profile_id.clone()),
                None => None,
            };
            if selected.is_some() {
                metadata.active_profile_id = selected;
                metadata.active_mode = AuthMode::Baijimu;
            }
        }
    }
}

/// Whether the path lies in a directory of managed state directories.
pub open spec fn is_managed(s: CredentialStoreView, path: CodexPathView) -> bool {
    codex_path::lies_under(path, s.legacy_managed_root) || codex_path::lies_under(
        path,
        s.managed_root,
    )
}

/// The record with the user-level setting noted, where it was not noted before.
pub open spec fn home_captured(
    s: CredentialStoreView,
    m: CredentialMetadataView,
) -> CredentialMetadataView {
    if m.original_codex_home_state.captured {
        m
    } else {
        CredentialMetadataView {
            original_codex_home_state: match s.external_home {
                Some(path) => if is_managed(s, path) {
                    OriginalCodexHomeStateView {
                        captured: true,
                        value: None,
                        capture_source: "inferred-default-before-managed-pointer"@,
                    }
                } else {
                    OriginalCodexHomeStateView {
                        captured: true,
                        value: Some(path.text),
                        capture_source: "user-environment"@,
                    }
                },
                None => OriginalCodexHomeStateView {
                    captured: true,
                    value: None,
                    capture_source: "user-environment"@,
                },
            },
            ..m
        }
    }
}

impl CredentialStore {
    /// Whether the path lies in a directory of managed state directories.
    pub fn is_managed_codex_home(&self, path: &CodexPath) -> (res: bool)
        ensures
            res == is_managed(self.deep_view(), path.deep_view()),
    {
        path.starts_with(&self.legacy_managed_root) || path.starts_with(&self.managed_root)
    }
}

/// Notes the user-level setting, and says whether it was not noted before. A setting that points
/// into a directory of managed state directories is noted as unset.
pub fn capture_original_codex_home(
    credentials: &CredentialStore,
    metadata: &mut CredentialMetadata,
) -> (res: bool)
    ensures
        final(metadata).deep_view() == home_captured(
            credentials.deep_view(),
            old(metadata).deep_view(),
        ),
        res == !old(metadata).deep_view().original_codex_home_state.captured,
{
    if metadata.original_codex_home_state.captured {
        return false;
    }
    metadata.original_codex_home_state =
    match &credentials.external_home {
        Some(path) => {
            if credentials.is_managed_codex_home(path) {
                OriginalCodexHomeState {
                    captured: true,
                    value: None,
                    capture_source: "inferred-default-before-managed-pointer".to_string(),
                }
            } else {
                OriginalCodexHomeState {
                    captured: true,
                    value: Some(path.text.clone()),
                    capture_source: "user-environment".to_string(),
                }
            }
        },
        None => OriginalCodexHomeState {
            captured: true,
            value: None,
            capture_source: "user-environment".to_string(),
        },
    };
    true
}

} // verus!
