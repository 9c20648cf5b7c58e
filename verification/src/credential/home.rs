//! The state directory that is the user's own.
use super::contract::{
    CodexHomeOwnership, CodexHomeOwnershipView, CredentialProfile, CredentialProfileView,
};
use super::files::{FileRead, FileReadView};
use super::loading;
use super::ownership;
use super::store::{CredentialStore, CredentialStoreView, Stored};
use crate::codex_path::{CodexPath, CodexPathView};
use crate::codex_workspace::{LegacyCodexWorkspaceCandidate, LegacyCodexWorkspaceCandidateView};
use crate::duplicate::Duplicate;
use crate::json_compat;
use crate::text;
use vstd::prelude::*;

verus! {

/// The setting that a record of profiles noted, where it can be read.
pub open spec fn noted_home(file: FileReadView) -> Option<Seq<char>> {
    match file {
        FileReadView::Content(bytes) => match json_compat::json_read(
            json_compat::without_bom(bytes),
        ) {
            Some(texts) => json_compat::text_at(texts, seq!["originalCodexHomeState"@, "value"@]),
            None => None,
        },
        _ => None,
    }
}

/// The setting that a record of profiles noted, where it can be read.
pub fn captured_home_text(file: &FileRead) -> (res: Option<String>)
    ensures
        text::opt_view(res) == noted_home(file.deep_view()),
{
    match file {
        FileRead::Content(bytes) => match json_compat::from_slice(bytes.as_slice()) {
            Ok(value) => json_compat::text_below(&value, "originalCodexHomeState", "value"),
            Err(_) => None,
        },
        _ => None,
    }
}

/// The first of the paths that is not managed, if there is one.
pub open spec fn first_own(
    credentials: CredentialStoreView,
    paths: Seq<CodexPathView>,
) -> Option<CodexPathView>
    decreases paths.len(),
{
    if paths.len() == 0 {
        None
    } else if !loading::is_managed(credentials, paths[0]) {
        Some(paths[0])
    } else {
        first_own(credentials, paths.skip(1))
    }
}

/// The first of the noted settings that is not managed.
fn captured_original_codex_home(credentials: &CredentialStore, noted: &Vec<CodexPath>) -> (res:
    Option<CodexPath>)
    ensures
        res.deep_view() == first_own(credentials.deep_view(), noted.deep_view()),
{
    let ghost all = noted.deep_view();
    assert(all.skip(0) =~= all);
    let mut i: usize = 0;
    while i < noted.len()
        invariant
            i <= noted.len(),
            all == noted.deep_view(),
            first_own(credentials.deep_view(), all) == first_own(
                credentials.deep_view(),
                all.skip(i as int),
            ),
        decreases noted.len() - i,
    {
        assert(all.skip(i as int)[0] == noted@[i as int].deep_view());
        assert(all.skip(i as int).skip(1) =~= all.skip(i + 1));
        if !credentials.is_managed_codex_home(&noted[i]) {
            return Some(noted[i].duplicate());
        }
        i = i + 1;
    }
    None
}

/// The user's own state directory: the one that is set, unless it is managed; then the first that
/// was noted and is not managed; or else the usual one.
pub open spec fn original_home(
    credentials: CredentialStoreView,
    noted: Seq<CodexPathView>,
    usual: CodexPathView,
) -> CodexPathView {
    match credentials.external_home {
        Some(current) => if !loading::is_managed(credentials, current) {
            current
        } else {
            match first_own(credentials, noted) {
                Some(path) => path,
                None => usual,
            }
        },
        None => usual,
    }
}

/// The user's own state directory. `noted` holds the settings that the records of profiles noted,
/// the newer record first.
pub fn default_original_codex_home(
    credentials: &CredentialStore,
    noted: &Vec<CodexPath>,
    usual: &CodexPath,
) -> (res: CodexPath)
    ensures
        res.deep_view() == original_home(
            credentials.deep_view(),
            noted.deep_view(),
            usual.deep_view(),
        ),
{
    match &credentials.external_home {
        Some(current) => {
            if !credentials.is_managed_codex_home(current) {
                current.duplicate()
            } else {
                match captured_original_codex_home(credentials, noted) {
                    Some(path) => path,
                    None => usual.duplicate(),
                }
            }
        },
        None => usual.duplicate(),
    }
}

/// The first path that is not managed is not managed.
proof fn first_own_is_own(
    credentials: CredentialStoreView,
    paths: Seq<CodexPathView>,
)
    ensures
        first_own(credentials, paths) matches Some(path) ==> !loading::is_managed(
            credentials,
            path,
        ),
    decreases paths.len(),
{
    if paths.len() > 0 {
        first_own_is_own(credentials, paths.skip(1));
    }
}

/// The user's own state directory is never a managed one, as long as the usual one is not.
pub proof fn original_home_is_never_managed(
    credentials: CredentialStoreView,
    noted: Seq<CodexPathView>,
    usual: CodexPathView,
)
    requires
        !loading::is_managed(credentials, usual),
    ensures
        !loading::is_managed(credentials, original_home(credentials, noted, usual)),
{
    first_own_is_own(credentials, noted);
}

/// The profiles of the record, or of the one at its old place where there is none.
pub open spec fn recorded_profiles(credentials: CredentialStoreView) -> Seq<CredentialProfileView> {
    match (credentials.metadata, credentials.legacy_metadata) {
        (Stored::Value(metadata), _) => metadata.profiles,
        (_, Stored::Value(metadata)) => metadata.profiles,
        _ => seq![],
    }
}

/// The profiles of the record, or of the one at its old place where there is none.
pub fn list_recorded_profiles(credentials: &CredentialStore) -> (res: Vec<CredentialProfile>)
    ensures
        res.deep_view() == recorded_profiles(credentials.deep_view()),
{
    match (&credentials.metadata, &credentials.legacy_metadata) {
        (Stored::Value(metadata), _) => metadata.profiles.duplicate(),
        (_, Stored::Value(metadata)) => metadata.profiles.duplicate(),
        _ => {
            let none: Vec<CredentialProfile> = Vec::new();
            assert(none.deep_view() =~= seq![]);
            none
        },
    }
}

/// The workspace that the state directory of a profile becomes: one where the directory is managed
/// and bears a marker that is supported.
pub open spec fn workspace_candidate(
    credentials: CredentialStoreView,
    profile: CredentialProfileView,
    home: CodexPathView,
    marker: Stored<CodexHomeOwnershipView>,
) -> Option<LegacyCodexWorkspaceCandidateView> {
    if !loading::is_managed(credentials, home) {
        None
    } else {
        match ownership::valid_ownership(marker) {
            Ok(Some(found)) => Some(
                LegacyCodexWorkspaceCandidateView {
                    profile_id: profile.profile_id,
                    workspace_name: profile.workspace_name,
                    codex_home: profile.codex_home,
                    initialized_at_epoch_seconds: found.initialized_at_epoch_seconds,
                },
            ),
            _ => None,
        }
    }
}

/// The workspace that the state directory of a profile becomes, if it does.
pub fn legacy_workspace_candidate(
    credentials: &CredentialStore,
    profile: &CredentialProfile,
    home: &CodexPath,
    marker: &Stored<CodexHomeOwnership>,
) -> (res: Option<LegacyCodexWorkspaceCandidate>)
    ensures
        res.deep_view() == workspace_candidate(
            credentials.deep_view(),
            profile.deep_view(),
            home.deep_view(),
            marker.deep_view(),
        ),
{
    if !credentials.is_managed_codex_home(home) {
        return None;
    }
    match ownership::read_valid_ownership(marker) {
        Ok(Some(found)) => Some(
            LegacyCodexWorkspaceCandidate {
                profile_id: profile.profile_id.clone(),
                workspace_name: profile.workspace_name.clone(),
                codex_home: profile.codex_home.clone(),
                initialized_at_epoch_seconds: found.initialized_at_epoch_seconds,
            },
        ),
        _ => None,
    }
}

} // verus!
