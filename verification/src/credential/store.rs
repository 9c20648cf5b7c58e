//! Everything on disk that authorizations are made of, and the writes that change it.
use crate::codex_path::{CodexPath, CodexPathView};
use crate::credential::contract::{
    AuthConfigSnapshot, AuthConfigSnapshotView, CodexHomeOwnership, CodexHomeOwnershipView,
    CredentialMetadata, CredentialMetadataView,
};
use crate::credential::files::{FileRead, FileReadView};
use crate::duplicate::{copy_bytes, Duplicate};
use crate::text_map::TextMap;
use vstd::prelude::*;

verus! {

/// What reading a file that holds a value gives.
#[derive(Debug)]
pub enum Stored<T> {
    /// There is no such file.
    Missing,
    /// The file is there but cannot be read.
    Unreadable,
    /// The file does not hold such a value.
    Invalid,
    /// The value.
    Value(T),
}

impl<T: DeepView> DeepView for Stored<T> {
    type V = Stored<T::V>;

    open spec fn deep_view(&self) -> Stored<T::V> {
        match self {
            Stored::Missing => Stored::Missing,
            Stored::Unreadable => Stored::Unreadable,
            Stored::Invalid => Stored::Invalid,
            Stored::Value(value) => Stored::Value(value.deep_view()),
        }
    }
}

impl<T: Duplicate> Duplicate for Stored<T> {
    fn duplicate(&self) -> (res: Self) {
        match self {
            Stored::Missing => Stored::Missing,
            Stored::Unreadable => Stored::Unreadable,
            Stored::Invalid => Stored::Invalid,
            Stored::Value(value) => Stored::Value(value.duplicate()),
        }
    }
}

/// A state directory that a profile was kept in before: its path and its login file.
#[derive(Debug)]
pub struct PreviousHome {
    /// The path of the directory.
    pub path: CodexPath,
    /// The login file in it.
    pub auth: FileRead,
}

/// The view of `PreviousHome`.
pub struct PreviousHomeView {
    pub path: CodexPathView,
    pub auth: FileReadView,
}

impl DeepView for PreviousHome {
    type V = PreviousHomeView;

    open spec fn deep_view(&self) -> PreviousHomeView {
        PreviousHomeView { path: self.path.deep_view(), auth: self.auth.deep_view() }
    }
}

/// One write to the disk.
#[derive(Debug)]
pub enum FileWrite {
    /// The record of profiles is replaced.
    Metadata(CredentialMetadata),
    /// The record of profiles at its old place is removed.
    RemoveLegacyMetadata,
    /// The shared login file is replaced.
    SharedAuth(Vec<u8>),
    /// The shared login file is removed.
    RemoveSharedAuth,
    /// The shared configuration file is replaced.
    SharedConfig(Vec<u8>),
    /// The shared configuration file is removed.
    RemoveSharedConfig,
    /// The stored login file of a profile is replaced.
    ProfileAuth(String, Vec<u8>),
    /// The stored settings of a profile are replaced.
    ProfileConfig(String, AuthConfigSnapshot),
    /// The marker of the shared state directory is replaced.
    Ownership(CodexHomeOwnership),
    /// The reservation of the shared state directory is removed.
    RemoveReservation,
}

/// The view of `FileWrite`.
pub enum FileWriteView {
    Metadata(CredentialMetadataView),
    RemoveLegacyMetadata,
    SharedAuth(Seq<u8>),
    RemoveSharedAuth,
    SharedConfig(Seq<u8>),
    RemoveSharedConfig,
    ProfileAuth(Seq<char>, Seq<u8>),
    ProfileConfig(Seq<char>, AuthConfigSnapshotView),
    Ownership(CodexHomeOwnershipView),
    RemoveReservation,
}

impl DeepView for FileWrite {
    type V = FileWriteView;

    open spec fn deep_view(&self) -> FileWriteView {
        match self {
            FileWrite::Metadata(metadata) => FileWriteView::Metadata(metadata.deep_view()),
            FileWrite::RemoveLegacyMetadata => FileWriteView::RemoveLegacyMetadata,
            FileWrite::SharedAuth(bytes) => FileWriteView::SharedAuth(bytes@),
            FileWrite::RemoveSharedAuth => FileWriteView::RemoveSharedAuth,
            FileWrite::SharedConfig(bytes) => FileWriteView::SharedConfig(bytes@),
            FileWrite::RemoveSharedConfig => FileWriteView::RemoveSharedConfig,
            FileWrite::ProfileAuth(key, bytes) => FileWriteView::ProfileAuth(key@, bytes@),
            FileWrite::ProfileConfig(key, snapshot) => FileWriteView::ProfileConfig(
                key@,
                snapshot.deep_view(),
            ),
            FileWrite::Ownership(marker) => FileWriteView::Ownership(marker.deep_view()),
            FileWrite::RemoveReservation => FileWriteView::RemoveReservation,
        }
    }
}

/// What is on disk, together with the writes made so far.
#[derive(Debug)]
pub struct CredentialStore {
    /// The shared state directory.
    pub shared_home: CodexPath,
    /// The state directory that the user-level setting names.
    pub external_home: Option<CodexPath>,
    /// The directory that managed state directories are kept in.
    pub managed_root: CodexPath,
    /// The directory that they were kept in before.
    pub legacy_managed_root: CodexPath,
    /// The record of profiles.
    pub metadata: Stored<CredentialMetadata>,
    /// The record of profiles at its old place.
    pub legacy_metadata: Stored<CredentialMetadata>,
    /// The shared login file.
    pub shared_auth: FileRead,
    /// The shared configuration file.
    pub shared_config: FileRead,
    /// The marker of the shared state directory.
    pub ownership: Stored<CodexHomeOwnership>,
    /// Whether the shared state directory is reserved.
    pub reservation: bool,
    /// The stored login files of the profiles, by their keys.
    pub profile_auth: TextMap<FileRead>,
    /// The stored settings of the profiles, by their keys.
    pub profile_config: TextMap<Stored<AuthConfigSnapshot>>,
    /// The stored login files at their old place, by the keys of the profiles.
    pub legacy_profile_auth: TextMap<FileRead>,
    /// The state directories that profiles were kept in before, by their paths as recorded.
    pub previous_homes: TextMap<PreviousHome>,
    /// The writes made so far, in order.
    pub journal: Vec<FileWrite>,
}

/// The view of `CredentialStore`.
pub struct CredentialStoreView {
    pub shared_home: CodexPathView,
    pub external_home: Option<CodexPathView>,
    pub managed_root: CodexPathView,
    pub legacy_managed_root: CodexPathView,
    pub metadata: Stored<CredentialMetadataView>,
    pub legacy_metadata: Stored<CredentialMetadataView>,
    pub shared_auth: FileReadView,
    pub shared_config: FileReadView,
    pub ownership: Stored<CodexHomeOwnershipView>,
    pub reservation: bool,
    pub profile_auth: Map<Seq<char>, FileReadView>,
    pub profile_config: Map<Seq<char>, Stored<AuthConfigSnapshotView>>,
    pub legacy_profile_auth: Map<Seq<char>, FileReadView>,
    pub previous_homes: Map<Seq<char>, PreviousHomeView>,
    pub journal: Seq<FileWriteView>,
}

impl DeepView for CredentialStore {
    type V = CredentialStoreView;

    open spec fn deep_view(&self) -> CredentialStoreView {
        CredentialStoreView {
            shared_home: self.shared_home.deep_view(),
            external_home: self.external_home.deep_view(),
            managed_root: self.managed_root.deep_view(),
            legacy_managed_root: self.legacy_managed_root.deep_view(),
            metadata: self.metadata.deep_view(),
            legacy_metadata: self.legacy_metadata.deep_view(),
            shared_auth: self.shared_auth.deep_view(),
            shared_config: self.shared_config.deep_view(),
            ownership: self.ownership.deep_view(),
            reservation: self.reservation,
            profile_auth: self.profile_auth.deep_view(),
            profile_config: self.profile_config.deep_view(),
            legacy_profile_auth: self.legacy_profile_auth.deep_view(),
            previous_homes: self.previous_homes.deep_view(),
            journal: self.journal.deep_view(),
        }
    }
}

/// What is on disk once the write has been made. The journal is not part of the disk.
pub open spec fn applied(s: CredentialStoreView, write: FileWriteView) -> CredentialStoreView {
    match write {
        FileWriteView::Metadata(metadata) => CredentialStoreView {
            metadata: Stored::Value(metadata),
            ..s
        },
        FileWriteView::RemoveLegacyMetadata => CredentialStoreView {
            legacy_metadata: Stored::Missing,
            ..s
        },
        FileWriteView::SharedAuth(bytes) => CredentialStoreView {
            shared_auth: FileReadView::Content(bytes),
            ..s
        },
        FileWriteView::RemoveSharedAuth => CredentialStoreView {
            shared_auth: FileReadView::Missing,
            ..s
        },
        FileWriteView::SharedConfig(bytes) => CredentialStoreView {
            shared_config: FileReadView::Content(bytes),
            ..s
        },
        FileWriteView::RemoveSharedConfig => CredentialStoreView {
            shared_config: FileReadView::Missing,
            ..s
        },
        FileWriteView::ProfileAuth(key, bytes) => CredentialStoreView {
            profile_auth: s.profile_auth.insert(key, FileReadView::Content(bytes)),
            ..s
        },
        FileWriteView::ProfileConfig(key, snapshot) => CredentialStoreView {
            profile_config: s.profile_config.insert(key, Stored::Value(snapshot)),
            ..s
        },
        FileWriteView::Ownership(marker) => CredentialStoreView {
            ownership: Stored::Value(marker),
            ..s
        },
        FileWriteView::RemoveReservation => CredentialStoreView { reservation: false, ..s },
    }
}

/// The store after a write: the disk as the write leaves it, and the write at the end of the
/// journal.
pub open spec fn written(s: CredentialStoreView, write: FileWriteView) -> CredentialStoreView {
    CredentialStoreView { journal: s.journal.push(write), ..applied(s, write) }
}

/// The disk after a list of writes.
pub open spec fn replayed(s: CredentialStoreView, writes: Seq<FileWriteView>) -> CredentialStoreView
    decreases writes.len(),
{
    if writes.len() == 0 {
        s
    } else {
        applied(replayed(s, writes.drop_last()), writes.last())
    }
}

/// The stored login file of the profile with the key.
pub open spec fn profile_auth_of(s: CredentialStoreView, key: Seq<char>) -> FileReadView {
    if s.profile_auth.contains_key(key) {
        s.profile_auth[key]
    } else {
        FileReadView::Missing
    }
}

/// The stored settings of the profile with the key.
pub open spec fn profile_config_of(
    s: CredentialStoreView,
    key: Seq<char>,
) -> Stored<AuthConfigSnapshotView> {
    if s.profile_config.contains_key(key) {
        s.profile_config[key]
    } else {
        Stored::Missing
    }
}

/// The login file at its old place of the profile with the key.
pub open spec fn legacy_auth_of(s: CredentialStoreView, key: Seq<char>) -> FileReadView {
    if s.legacy_profile_auth.contains_key(key) {
        s.legacy_profile_auth[key]
    } else {
        FileReadView::Missing
    }
}

impl CredentialStore {
    /// Makes a write.
    pub fn write(&mut self, write: FileWrite)
        ensures
            final(self).deep_view() == written(old(self).deep_view(), write.deep_view()),
    {
        let ghost before = self.deep_view();
        let ghost made = write.deep_view();
        match &write {
            FileWrite::Metadata(metadata) => {
                self.metadata = Stored::Value(metadata.duplicate());
            },
            FileWrite::RemoveLegacyMetadata => {
                self.legacy_metadata = Stored::Missing;
            },
            FileWrite::SharedAuth(bytes) => {
                self.shared_auth = FileRead::Content(copy_bytes(bytes));
            },
            FileWrite::RemoveSharedAuth => {
                self.shared_auth = FileRead::Missing;
            },
            FileWrite::SharedConfig(bytes) => {
                self.shared_config = FileRead::Content(copy_bytes(bytes));
            },
            FileWrite::RemoveSharedConfig => {
                self.shared_config = FileRead::Missing;
            },
            FileWrite::ProfileAuth(key, bytes) => {
                self.profile_auth.put(key.clone(), FileRead::Content(copy_bytes(bytes)));
            },
            FileWrite::ProfileConfig(key, snapshot) => {
                self.profile_config.put(key.clone(), Stored::Value(snapshot.duplicate()));
            },
            FileWrite::Ownership(marker) => {
                self.ownership = Stored::Value(marker.duplicate());
            },
            FileWrite::RemoveReservation => {
                self.reservation = false;
            },
        }
        self.journal.push(write);
        assert(self.journal.deep_view() =~= before.journal.push(made));
    }

    /// The stored login file of the profile with the key.
    pub fn profile_auth_file(&self, key: &str) -> (res: &FileRead)
        ensures
            res.deep_view() == profile_auth_of(self.deep_view(), key@),
    {
        match self.profile_auth.get(key) {
            Some(file) => file,
            None => &FileRead::Missing,
        }
    }

    /// The login file at its old place of the profile with the key.
    pub fn legacy_auth_file(&self, key: &str) -> (res: &FileRead)
        ensures
            res.deep_view() == legacy_auth_of(self.deep_view(), key@),
    {
        match self.legacy_profile_auth.get(key) {
            Some(file) => file,
            None => &FileRead::Missing,
        }
    }

    /// The stored settings of the profile with the key.
    pub fn profile_config_file(&self, key: &str) -> (res: &Stored<AuthConfigSnapshot>)
        ensures
            res.deep_view() == profile_config_of(self.deep_view(), key@),
    {
        match self.profile_config.get(key) {
            Some(file) => file,
            None => &Stored::Missing,
        }
    }
}

} // verus!
