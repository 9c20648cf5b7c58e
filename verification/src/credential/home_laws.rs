//! Whose a state directory is, and which one is the user's own.
use crate::codex_path;
use crate::codex_path::CodexPathView;
use crate::credential::contract::{CodexHomeOwnershipView, CredentialProfileView};
use crate::credential::errors::CredentialError;
use crate::credential::files::FileReadView;
use crate::credential::home;
use crate::credential::identity;
use crate::credential::loading;
use crate::credential::ownership;
use crate::credential::store::{CredentialStoreView, Stored};
use crate::json_compat;
use crate::text;
use vstd::prelude::*;

verus! {

/// Whether the path has the components of the root and perhaps more behind them.
pub open spec fn goes_on_from(path: CodexPathView, root: CodexPathView) -> bool {
    path.components.len() >= root.components.len() && forall|i: int|
        0 <= i < root.components.len() ==> #[trigger] path.components[i] == root.components[i]
}

/// A directory is managed exactly where it lies at or below one of the two managed roots.
pub proof fn managed_homes_lie_under_a_root(s: CredentialStoreView, path: CodexPathView)
    ensures
        loading::is_managed(s, path) <==> goes_on_from(path, s.managed_root) || goes_on_from(
            path,
            s.legacy_managed_root,
        ),
{
    under_is_going_on(path, s.managed_root);
    under_is_going_on(path, s.legacy_managed_root);
}

/// To lie under a root is to go on from it.
proof fn under_is_going_on(path: CodexPathView, root: CodexPathView)
    ensures
        codex_path::lies_under(path, root) <==> goes_on_from(path, root),
{
    let n = root.components.len() as int;
    if n <= path.components.len() {
        if path.components.take(n) == root.components {
            assert forall|i: int| 0 <= i < n implies #[trigger] path.components[i]
                == root.components[i] by {
                assert(path.components.take(n)[i] == root.components[i]);
            }
        }
        if goes_on_from(path, root) {
            assert(path.components.take(n) =~= root.components);
        }
    }
}

/// The user's own directory: the one that is set, where it is not managed; where it is, the first that
/// was noted and is not managed, or the usual one where there is none; and the usual one where none is
/// set.
pub proof fn own_home_is_the_set_one(
    s: CredentialStoreView,
    noted: Seq<CodexPathView>,
    usual: CodexPathView,
    at: int,
)
    ensures
        ({
            let own = home::original_home(s, noted, usual);
            &&& s.external_home is None ==> own == usual
            &&& s.external_home matches Some(current) ==> {
                &&& !loading::is_managed(s, current) ==> own == current
                &&& loading::is_managed(s, current) && 0 <= at < noted.len() && !loading::is_managed(
                    s,
                    noted[at],
                ) && (forall|i: int| 0 <= i < at ==> loading::is_managed(s, #[trigger] noted[i]))
                    ==> own == noted[at]
                &&& loading::is_managed(s, current) && (forall|i: int|
                    0 <= i < noted.len() ==> loading::is_managed(s, #[trigger] noted[i])) ==> own
                    == usual
            }
        }),
{
    if 0 <= at < noted.len() && !loading::is_managed(s, noted[at]) && (forall|i: int|
        0 <= i < at ==> loading::is_managed(s, #[trigger] noted[i])) {
        first_own_is_first(s, noted, at);
    }
    if forall|i: int| 0 <= i < noted.len() ==> loading::is_managed(s, #[trigger] noted[i]) {
        no_own(s, noted);
    }
}

/// The first that is not managed is found.
proof fn first_own_is_first(s: CredentialStoreView, paths: Seq<CodexPathView>, at: int)
    requires
        0 <= at < paths.len(),
        !loading::is_managed(s, paths[at]),
        forall|i: int| 0 <= i < at ==> loading::is_managed(s, #[trigger] paths[i]),
    ensures
        home::first_own(s, paths) == Some(paths[at]),
    decreases at,
{
    if at > 0 {
        assert(loading::is_managed(s, paths[0]));
        let rest = paths.skip(1);
        assert forall|i: int| 0 <= i < at - 1 implies loading::is_managed(s, #[trigger] rest[i]) by {
            assert(rest[i] == paths[i + 1]);
        }
        first_own_is_first(s, rest, at - 1);
    }
}

/// Where all are managed none is found.
proof fn no_own(s: CredentialStoreView, paths: Seq<CodexPathView>)
    requires
        forall|i: int| 0 <= i < paths.len() ==> loading::is_managed(s, #[trigger] paths[i]),
    ensures
        home::first_own(s, paths) is None,
    decreases paths.len(),
{
    if paths.len() > 0 {
        assert(loading::is_managed(s, paths[0]));
        let rest = paths.skip(1);
        assert forall|i: int| 0 <= i < rest.len() implies loading::is_managed(s, #[trigger] rest[i]) by {
            assert(rest[i] == paths[i + 1]);
        }
        no_own(s, rest);
    }
}

/// What a record noted of the setting is what stands there under its name, a leading byte order mark or
/// not.
pub proof fn noted_home_is_read(bytes: Seq<u8>, texts: Map<Seq<Seq<char>>, Seq<char>>)
    requires
        json_compat::json_read(bytes) == Some(texts),
        !(bytes.len() >= 3 && bytes[0] == 0xef && bytes[1] == 0xbb && bytes[2] == 0xbf),
    ensures
        ({
            let path = seq!["originalCodexHomeState"@, "value"@];
            let marked = seq![0xefu8, 0xbbu8, 0xbfu8] + bytes;
            &&& texts.contains_key(path) ==> home::noted_home(FileReadView::Content(bytes)) == Some(
                texts[path],
            ) && home::noted_home(FileReadView::Content(marked)) == Some(texts[path])
            &&& !texts.contains_key(path) ==> home::noted_home(FileReadView::Content(bytes)) is None
        }),
{
    let marked = seq![0xefu8, 0xbbu8, 0xbfu8] + bytes;
    assert(marked.skip(3) =~= bytes);
}

/// Whether the marker is of this program, under its name or its former one, and names the two files that
/// it manages.
pub open spec fn is_of_this_program(marker: CodexHomeOwnershipView) -> bool {
    &&& marker.owner == "baijimu-codex-desktop"@ || marker.owner == "baijimu-connector-codex"@
    &&& marker.managed_files.len() == 2
    &&& marker.managed_files[0] == "auth.json"@
    &&& marker.managed_files[1] == "config.toml"@
}

/// Which markers are accepted: those of this program that bind the directory to no profile, in the first
/// version or the third, and those that bind it to a key of a profile in the second. A missing marker is
/// no error, and every other one is.
pub proof fn markers_of_this_program_are_accepted(marker: CodexHomeOwnershipView)
    ensures
        ({
            let result = ownership::valid_ownership(Stored::Value(marker));
            let unbound = (marker.schema_version == 1 || marker.schema_version == 3)
                && marker.profile_key is None;
            let bound = marker.schema_version == 2 && marker.profile_key is Some
                && marker.profile_key->0.len() == 24 && (forall|i: int|
                0 <= i < 24 ==> text::hex_digit(#[trigger] marker.profile_key->0[i]));
            &&& result is Ok <==> is_of_this_program(marker) && (unbound || bound)
            &&& result is Ok ==> result->Ok_0 == Some(marker)
            &&& result is Err ==> result->Err_0 == CredentialError::OwnershipUnsupported
            &&& ownership::valid_ownership(Stored::Missing) == Ok::<
                Option<CodexHomeOwnershipView>,
                CredentialError,
            >(None)
            &&& ownership::valid_ownership(Stored::Invalid) is Err
            &&& ownership::valid_ownership(Stored::Unreadable) is Err
        }),
{
    let files = marker.managed_files;
    if files.len() == 2 && files[0] == "auth.json"@ && files[1] == "config.toml"@ {
        assert(files =~= ownership::managed_files());
    }
    assert(ownership::managed_files()[0] == "auth.json"@);
    assert(ownership::managed_files()[1] == "config.toml"@);
}

/// Committing the marker: one of this version stays as it is, with everything else; else one of this
/// version is written with the time, and the reservation goes. No other file changes.
pub proof fn committing_marks_the_directory(s: CredentialStoreView, now: u64)
    ensures
        ({
            let t = ownership::ownership_committed(s, now);
            let owned = s.ownership matches Stored::Value(marker) && marker.schema_version == 3
                && marker.owner == "baijimu-codex-desktop"@ && marker.profile_key is None
                && marker.managed_files == seq!["auth.json"@, "config.toml"@];
            &&& owned ==> t == s
            &&& !owned ==> !t.reservation
            &&& !owned ==> (t.ownership matches Stored::Value(marker)
                && marker.initialized_at_epoch_seconds == now && marker.schema_version == 3
                && marker.owner == "baijimu-codex-desktop"@ && marker.profile_key is None
                && marker.managed_files == seq!["auth.json"@, "config.toml"@])
            &&& t == (CredentialStoreView {
                ownership: t.ownership,
                reservation: t.reservation,
                journal: t.journal,
                ..s
            })
        }),
{
}

/// Which directories become workspaces: the managed ones with a marker that is accepted, with the name
/// and the directory of the profile and the time of the marker.
pub proof fn marked_homes_become_workspaces(
    s: CredentialStoreView,
    profile: CredentialProfileView,
    path: CodexPathView,
    marker: Stored<CodexHomeOwnershipView>,
)
    ensures
        ({
            let found = home::workspace_candidate(s, profile, path, marker);
            let accepted = ownership::valid_ownership(marker);
            &&& found is Some <==> loading::is_managed(s, path) && marker is Value && accepted is Ok
            &&& found is Some ==> found->0.profile_id == profile.profile_id
                && found->0.workspace_name == profile.workspace_name && found->0.codex_home
                == profile.codex_home && found->0.initialized_at_epoch_seconds
                == marker->Value_0.initialized_at_epoch_seconds
        }),
{
}

/// The profiles that are looked at are those of the record, and of the old one only where the record
/// holds none.
pub proof fn newer_record_counts(s: CredentialStoreView)
    ensures
        ({
            let found = home::recorded_profiles(s);
            &&& s.metadata is Value ==> found == s.metadata->Value_0.profiles
            &&& !(s.metadata is Value) && s.legacy_metadata is Value ==> found
                == s.legacy_metadata->Value_0.profiles
            &&& !(s.metadata is Value) && !(s.legacy_metadata is Value) ==> found.len() == 0
        }),
{
}

/// How a text becomes part of an identity: letters, digits, dashes and underscores stay, everything else
/// becomes an underscore, and the empty text becomes the word for the usual one.
pub proof fn segments_are_plain(value: Seq<char>, i: int)
    ensures
        value.len() == 0 ==> identity::segment(value) == "default"@,
        value.len() > 0 ==> identity::segment(value).len() == value.len(),
        0 <= i < value.len() && (text::alphanumeric(value[i]) || value[i] == '-' || value[i] == '_')
            ==> identity::segment(value)[i] == value[i],
        0 <= i < value.len() && !(text::alphanumeric(value[i]) || value[i] == '-' || value[i] == '_')
            ==> identity::segment(value)[i] == '_',
{
}

} // verus!
