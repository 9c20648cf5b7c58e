//! What a write does, and what it leaves alone.
use crate::credential::contract::{
    AuthConfigSnapshotView, CodexHomeOwnershipView, CredentialMetadataView,
};
use crate::credential::files::FileReadView;
use crate::credential::store;
use crate::credential::store::{CredentialStoreView, FileWriteView, Stored};
use vstd::prelude::*;

verus! {

/// What is written is read back, and nothing else is changed by it: of the files of profiles only the one
/// with the key, and of the others only the one that is written or removed. Every write is noted last in
/// the journal.
pub proof fn writes_change_one_file(
    s: CredentialStoreView,
    key: Seq<char>,
    bytes: Seq<u8>,
    snapshot: AuthConfigSnapshotView,
    record: CredentialMetadataView,
    marker: CodexHomeOwnershipView,
)
    ensures
        store::written(s, FileWriteView::SharedAuth(bytes)) == (CredentialStoreView {
            shared_auth: FileReadView::Content(bytes),
            journal: s.journal.push(FileWriteView::SharedAuth(bytes)),
            ..s
        }),
        store::written(s, FileWriteView::RemoveSharedAuth) == (CredentialStoreView {
            shared_auth: FileReadView::Missing,
            journal: s.journal.push(FileWriteView::RemoveSharedAuth),
            ..s
        }),
        store::written(s, FileWriteView::SharedConfig(bytes)) == (CredentialStoreView {
            shared_config: FileReadView::Content(bytes),
            journal: s.journal.push(FileWriteView::SharedConfig(bytes)),
            ..s
        }),
        store::written(s, FileWriteView::RemoveSharedConfig) == (CredentialStoreView {
            shared_config: FileReadView::Missing,
            journal: s.journal.push(FileWriteView::RemoveSharedConfig),
            ..s
        }),
        store::written(s, FileWriteView::ProfileAuth(key, bytes)) == (CredentialStoreView {
            profile_auth: s.profile_auth.insert(key, FileReadView::Content(bytes)),
            journal: s.journal.push(FileWriteView::ProfileAuth(key, bytes)),
            ..s
        }),
        store::written(s, FileWriteView::ProfileConfig(key, snapshot)) == (CredentialStoreView {
            profile_config: s.profile_config.insert(key, Stored::Value(snapshot)),
            journal: s.journal.push(FileWriteView::ProfileConfig(key, snapshot)),
            ..s
        }),
        store::written(s, FileWriteView::Metadata(record)) == (CredentialStoreView {
            metadata: Stored::Value(record),
            journal: s.journal.push(FileWriteView::Metadata(record)),
            ..s
        }),
        store::written(s, FileWriteView::RemoveLegacyMetadata) == (CredentialStoreView {
            legacy_metadata: Stored::Missing,
            journal: s.journal.push(FileWriteView::RemoveLegacyMetadata),
            ..s
        }),
        store::written(s, FileWriteView::Ownership(marker)) == (CredentialStoreView {
            ownership: Stored::Value(marker),
            journal: s.journal.push(FileWriteView::Ownership(marker)),
            ..s
        }),
        store::written(s, FileWriteView::RemoveReservation) == (CredentialStoreView {
            reservation: false,
            journal: s.journal.push(FileWriteView::RemoveReservation),
            ..s
        }),
{
}

/// A file of a profile that is not there counts as missing, and one that is there as what it is.
pub proof fn files_of_profiles_are_found_by_their_key(s: CredentialStoreView, key: Seq<char>)
    ensures
        s.profile_auth.contains_key(key) ==> store::profile_auth_of(s, key) == s.profile_auth[key],
        !s.profile_auth.contains_key(key) ==> store::profile_auth_of(s, key) is Missing,
        s.profile_config.contains_key(key) ==> store::profile_config_of(s, key)
            == s.profile_config[key],
        !s.profile_config.contains_key(key) ==> store::profile_config_of(s, key) is Missing,
        s.legacy_profile_auth.contains_key(key) ==> store::legacy_auth_of(s, key)
            == s.legacy_profile_auth[key],
        !s.legacy_profile_auth.contains_key(key) ==> store::legacy_auth_of(s, key) is Missing,
{
}

} // verus!
