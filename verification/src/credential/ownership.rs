//! The marker that says who manages the shared state directory.
use crate::credential::contract::{CodexHomeOwnership, CodexHomeOwnershipView};
use crate::credential::errors::{CredentialError, FileRole};
use crate::credential::store;
use crate::credential::store::{CredentialStore, CredentialStoreView, FileWrite, FileWriteView, Stored};
use crate::duplicate::Duplicate;
use crate::text;
use vstd::prelude::*;

verus! {

/// The version of the marker.
pub const OWNERSHIP_SCHEMA_VERSION: u32 = 3;

/// The version that bound the directory to a profile.
pub const BOUND_OWNERSHIP_SCHEMA_VERSION: u32 = 2;

/// The first version of the marker.
pub const LEGACY_OWNERSHIP_SCHEMA_VERSION: u32 = 1;

/// Who manages the directory.
pub const OWNERSHIP_OWNER: &'static str = "baijimu-codex-desktop";

/// Who managed it under the former name.
pub const LEGACY_OWNERSHIP_OWNER: &'static str = "baijimu-connector-codex";

/// The login file.
pub const OWNED_AUTH_FILE: &'static str = "auth.json";

/// The configuration file.
pub const OWNED_CONFIG_FILE: &'static str = "config.toml";

/// Whether the text is a key of a profile: twenty-four hexadecimal digits.
pub open spec fn is_profile_key(key: Seq<char>) -> bool {
    key.len() == 24 && forall|i: int| 0 <= i < key.len() ==> text::hex_digit(#[trigger] key[i])
}

/// Whether the text is a key of a profile.
fn check_profile_key(key: &str) -> (res: bool)
    ensures
        res == is_profile_key(key@),
{
    let chars = text::chars_of(key);
    if chars.len() != 24 {
        return false;
    }
    let mut i: usize = 0;
    while i < chars.len()
        invariant
            i <= chars.len(),
            chars@ == key@,
            forall|j: int| 0 <= j < i ==> text::hex_digit(#[trigger] key@[j]),
        decreases chars.len() - i,
    {
        if !text::is_hex_digit(chars[i]) {
            assert(!text::hex_digit(key@[i as int]));
            return false;
        }
        i = i + 1;
    }
    true
}

/// The files that are managed.
pub open spec fn managed_files() -> Seq<Seq<char>> {
    seq![OWNED_AUTH_FILE@, OWNED_CONFIG_FILE@]
}

/// Whether the files are those that are managed.
fn are_managed_files(files: &Vec<String>) -> (res: bool)
    ensures
        res == (files.deep_view() == managed_files()),
{
    if files.len() != 2 {
        assert(files.deep_view().len() != managed_files().len());
        return false;
    }
    let res = text::same(files[0].as_str(), OWNED_AUTH_FILE) && text::same(
        files[1].as_str(),
        OWNED_CONFIG_FILE,
    );
    proof {
        let found = files.deep_view();
        assert(found[0] == files@[0]@);
        assert(found[1] == files@[1]@);
        if res {
            assert(found =~= managed_files());
        } else {
            assert(found[0] != managed_files()[0] || found[1] != managed_files()[1]);
        }
    }
    res
}

/// Whether the marker is one that this version supports.
pub open spec fn supported(marker: CodexHomeOwnershipView) -> bool {
    &&& marker.owner == OWNERSHIP_OWNER@ || marker.owner == LEGACY_OWNERSHIP_OWNER@
    &&& marker.managed_files == managed_files()
    &&& if marker.schema_version == BOUND_OWNERSHIP_SCHEMA_VERSION {
        marker.profile_key matches Some(key) && is_profile_key(key)
    } else {
        (marker.schema_version == OWNERSHIP_SCHEMA_VERSION || marker.schema_version
            == LEGACY_OWNERSHIP_SCHEMA_VERSION) && marker.profile_key is None
    }
}

/// Whether the marker is one that this version supports.
pub fn is_supported(marker: &CodexHomeOwnership) -> (res: bool)
    ensures
        res == supported(marker.deep_view()),
{
    let owner = marker.owner.as_str();
    if !text::same(owner, OWNERSHIP_OWNER) && !text::same(owner, LEGACY_OWNERSHIP_OWNER) {
        return false;
    }
    if !are_managed_files(&marker.managed_files) {
        return false;
    }
    if marker.schema_version == BOUND_OWNERSHIP_SCHEMA_VERSION {
        match &marker.profile_key {
            Some(key) => check_profile_key(key.as_str()),
            None => false,
        }
    } else {
        (marker.schema_version == OWNERSHIP_SCHEMA_VERSION || marker.schema_version
            == LEGACY_OWNERSHIP_SCHEMA_VERSION) && marker.profile_key.is_none()
    }
}

/// The marker that is found, which may be missing but has to be supported.
pub open spec fn valid_ownership(file: Stored<CodexHomeOwnershipView>) -> Result<
    Option<CodexHomeOwnershipView>,
    CredentialError,
> {
    match file {
        Stored::Missing => Ok(None),
        Stored::Unreadable => Err(CredentialError::Unreadable(FileRole::Ownership)),
        Stored::Invalid => Err(CredentialError::Invalid(FileRole::Ownership)),
        Stored::Value(marker) => if supported(marker) {
            Ok(Some(marker))
        } else {
            Err(CredentialError::OwnershipUnsupported)
        },
    }
}

/// The marker that is found, which may be missing but has to be supported.
pub fn read_valid_ownership(file: &Stored<CodexHomeOwnership>) -> (res: Result<
    Option<CodexHomeOwnership>,
    CredentialError,
>)
    ensures
        match res {
            Ok(found) => valid_ownership(file.deep_view()) == Ok::<
                Option<CodexHomeOwnershipView>,
                CredentialError,
            >(found.deep_view()),
            Err(error) => valid_ownership(file.deep_view()) == Err::<
                Option<CodexHomeOwnershipView>,
                CredentialError,
            >(error),
        },
{
    match file {
        Stored::Missing => Ok(None),
        Stored::Unreadable => Err(CredentialError::Unreadable(FileRole::Ownership)),
        Stored::Invalid => Err(CredentialError::Invalid(FileRole::Ownership)),
        Stored::Value(marker) => {
            if is_supported(marker) {
                Ok(Some(marker.duplicate()))
            } else {
                Err(CredentialError::OwnershipUnsupported)
            }
        },
    }
}

/// The marker of this version.
pub open spec fn new_marker(now: u64) -> CodexHomeOwnershipView {
    CodexHomeOwnershipView {
        schema_version: OWNERSHIP_SCHEMA_VERSION,
        owner: OWNERSHIP_OWNER@,
        initialized_at_epoch_seconds: now,
        managed_files: managed_files(),
        profile_key: None,
    }
}

/// Whether the directory carries a marker of this version already.
pub open spec fn is_owned(file: Stored<CodexHomeOwnershipView>) -> bool {
    file matches Stored::Value(marker) && marker.schema_version == OWNERSHIP_SCHEMA_VERSION
        && marker.owner == OWNERSHIP_OWNER@ && marker.managed_files == managed_files()
        && marker.profile_key is None
}

/// The store with a marker of this version, and without a reservation where the marker had to be
/// written.
pub open spec fn ownership_committed(s: CredentialStoreView, now: u64) -> CredentialStoreView {
    if is_owned(s.ownership) {
        s
    } else {
        let marked = store::written(s, FileWriteView::Ownership(new_marker(now)));
        if s.reservation {
            store::written(marked, FileWriteView::RemoveReservation)
        } else {
            marked
        }
    }
}

/// Makes sure that the shared state directory carries a marker of this version.
pub fn commit_shared_home_ownership(credentials: &mut CredentialStore, now: u64)
    ensures
        final(credentials).deep_view() == ownership_committed(old(credentials).deep_view(), now),
{
    let owned = match &credentials.ownership {
        Stored::Value(marker) => marker.schema_version == OWNERSHIP_SCHEMA_VERSION && text::same(
            marker.owner.as_str(),
            OWNERSHIP_OWNER,
        ) && are_managed_files(&marker.managed_files) && marker.profile_key.is_none(),
        _ => false,
    };
    if owned {
        return;
    }
    let mut files: Vec<String> = Vec::new();
    files.push(OWNED_AUTH_FILE.to_string());
    files.push(OWNED_CONFIG_FILE.to_string());
    assert(files.deep_view() =~= managed_files());
    credentials.write(
        FileWrite::Ownership(
            CodexHomeOwnership {
                schema_version: OWNERSHIP_SCHEMA_VERSION,
                owner: OWNERSHIP_OWNER.to_string(),
                initialized_at_epoch_seconds: now,
                managed_files: files,
                profile_key: None,
            },
        ),
    );
    if credentials.reservation {
        credentials.write(FileWrite::RemoveReservation);
    }
}

/// After the marker was committed, it is read back as a supported one of this version that binds
/// the directory to no profile.
pub proof fn committed_ownership_is_valid(s: CredentialStoreView, now: u64)
    ensures
        is_owned(ownership_committed(s, now).ownership),
        valid_ownership(ownership_committed(s, now).ownership) matches Ok(Some(marker))
            && marker.schema_version == OWNERSHIP_SCHEMA_VERSION && marker.profile_key is None,
{
}

} // verus!
