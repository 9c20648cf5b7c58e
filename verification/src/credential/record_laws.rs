//! What the record notes besides the profiles, and how a setup is completed with it.
use crate::credential::activation;
use crate::credential::activation::SwitchTexts;
use crate::credential::contract::{AuthMode, CredentialMetadataView, CredentialProfileView};
use crate::credential::errors::CredentialError;
use crate::credential::home_laws;
use crate::credential::loading;
use crate::credential::metadata;
use crate::credential::operations;
use crate::credential::store::{CredentialStoreView, Stored};
use crate::legacy_auth_cleanup;
use crate::product_config::ProductConfigView;
use vstd::prelude::*;

verus! {

/// Which record is loaded: the one in its place; the one at its old place only where there is none in its
/// place, and that one is then removed; and an empty one where there is none at all.
pub proof fn record_in_its_place_counts(
    s: CredentialStoreView,
    product: ProductConfigView,
    item: Option<Seq<char>>,
)
    requires
        metadata::loaded(s, product, item).1 is Ok,
    ensures
        ({
            let found = metadata::source(s)->Ok_0.0;
            let t = metadata::loaded(s, product, item).0;
            &&& s.metadata is Value ==> found == s.metadata->Value_0 && t.legacy_metadata
                == s.legacy_metadata
            &&& s.metadata is Missing && s.legacy_metadata is Value ==> found
                == s.legacy_metadata->Value_0 && t.legacy_metadata is Missing
            &&& s.metadata is Missing && s.legacy_metadata is Missing ==> found.profiles.len() == 0
                && found.active_profile_id is None && found.active_workspace_id is None
                && found.active_mode == AuthMode::Chatgpt
        }),
{
    let (found, origin) = metadata::source(s)->Ok_0;
    let a = metadata::modelled(s, found, origin, product);
    loading::migration_keeps_homes(s, a.profiles);
}

/// What a loaded record notes: it has the current version, and the times at which things were put back
/// stay. Access rules are to be taken back where that was noted, or where the record is older and they
/// were not.
pub proof fn loaded_record_keeps_its_notes(
    s: CredentialStoreView,
    product: ProductConfigView,
    item: Option<Seq<char>>,
)
    requires
        metadata::loaded(s, product, item).1 is Ok,
    ensures
        ({
            let found = metadata::source(s)->Ok_0.0;
            let m = metadata::loaded(s, product, item).1->Ok_0;
            let recorded = s.metadata is Value || s.legacy_metadata is Value;
            &&& m.version == 12
            &&& m.legacy_global_codex_home_restored_at_epoch_seconds
                == found.legacy_global_codex_home_restored_at_epoch_seconds
            &&& m.legacy_shared_auth_acl_revoked_at_epoch_seconds
                == found.legacy_shared_auth_acl_revoked_at_epoch_seconds
            &&& m.legacy_shared_auth_acl_cleanup_required <==> recorded
                && found.legacy_shared_auth_acl_cleanup_required || (recorded && found.version < 12
                && found.legacy_shared_auth_acl_revoked_at_epoch_seconds is None)
            &&& m.original_codex_home_state.captured
            &&& found.original_codex_home_state.captured ==> m.original_codex_home_state
                == found.original_codex_home_state
        }),
{
}

/// Taking the rules back is noted with its time, and changes nothing else in the record.
pub proof fn taken_back_rules_are_noted(m: CredentialMetadataView, now: u64)
    ensures
        ({
            let after = legacy_auth_cleanup::revoked(m, now);
            &&& !after.legacy_shared_auth_acl_cleanup_required
            &&& after.legacy_shared_auth_acl_revoked_at_epoch_seconds == Some(now)
            &&& after.profiles == m.profiles
            &&& after.active_profile_id == m.active_profile_id
            &&& after.active_mode == m.active_mode
            &&& after.active_workspace_id == m.active_workspace_id
            &&& after.version == m.version
            &&& after.original_codex_home_state == m.original_codex_home_state
            &&& after.legacy_global_codex_home_restored_at_epoch_seconds
                == m.legacy_global_codex_home_restored_at_epoch_seconds
        }),
{
}

/// What is told of the user-level setting: it is to be put back exactly where it points into a managed
/// directory, and can be where the value from before is noted.
pub proof fn setting_into_a_managed_home_is_put_back(
    s: CredentialStoreView,
    m: CredentialMetadataView,
)
    ensures
        ({
            let told = operations::legacy_home_state(s, m);
            let managed = s.external_home is Some && (home_laws::goes_on_from(
                s.external_home->0,
                s.managed_root,
            ) || home_laws::goes_on_from(s.external_home->0, s.legacy_managed_root));
            &&& told.restore_required <==> managed
            &&& told.can_restore <==> managed && m.original_codex_home_state.captured
            &&& s.external_home is Some ==> told.current_value == Some(s.external_home->0.text)
            &&& s.external_home is None ==> told.current_value is None
            &&& told.restore_value == m.original_codex_home_state.value
            &&& told.restored_at_epoch_seconds
                == m.legacy_global_codex_home_restored_at_epoch_seconds
        }),
{
    if s.external_home is Some {
        home_laws::managed_homes_lie_under_a_root(s, s.external_home->0);
    }
}

/// When the setup of a workspace is complete: its profile was put in effect, where that is asked for, and
/// the record that is loaded then has a stored key for the workspace. Where it is not asked for, nothing
/// is put in effect.
pub proof fn completed_setup_has_a_key(
    s: CredentialStoreView,
    profile: CredentialProfileView,
    auto: bool,
    now: u64,
    product: ProductConfigView,
    item: Option<Seq<char>>,
    texts: SwitchTexts,
    again: Option<Seq<char>>,
)
    ensures
        ({
            let (end, result) = operations::setup_outcome(
                s,
                profile,
                auto,
                now,
                product,
                item,
                texts,
                again,
            );
            let switched = operations::activation_outcome(
                s,
                profile.profile_id,
                now,
                product,
                item,
                texts,
            );
            let before = if auto {
                switched.0
            } else {
                s
            };
            let (t, loaded) = metadata::loaded(before, product, again);
            let ready = loaded is Ok && operations::workspace_ready(
                t,
                loaded->Ok_0,
                profile.workspace_id,
            );
            &&& auto && switched.1 is Err ==> end == switched.0 && result is Err && result->Err_0
                == switched.1->Err_0
            &&& !auto || switched.1 is Ok ==> end == t && (result is Ok <==> ready)
            &&& (!auto || switched.1 is Ok) && !ready ==> result->Err_0
                == CredentialError::SetupIncomplete
        }),
{
}

/// A loaded record is stored as it was loaded wherever it says something new: it stays as it was found only
/// where that one is of the current version, names the same profile with the same mode and workspace, has
/// as many profiles with the same models, all in the shared state directory, and notes the same.
pub proof fn changed_record_is_stored(
    s: CredentialStoreView,
    product: ProductConfigView,
    item: Option<Seq<char>>,
)
    requires
        metadata::loaded(s, product, item).1 is Ok,
    ensures
        ({
            let (t, loaded) = metadata::loaded(s, product, item);
            let m = loaded->Ok_0;
            t.metadata == Stored::Value(m) || (s.metadata is Value && t.metadata == s.metadata && ({
                let found = s.metadata->Value_0;
                &&& found.version >= 12
                &&& m.active_profile_id == found.active_profile_id
                &&& m.active_mode == found.active_mode
                &&& m.active_workspace_id == found.active_workspace_id
                &&& m.original_codex_home_state == found.original_codex_home_state
                &&& m.profiles.len() == found.profiles.len()
                &&& forall|i: int|
                    0 <= i < m.profiles.len() ==> (#[trigger] m.profiles[i]).model
                        == found.profiles[i].model && (found.profiles[i].codex_home.len() > 0
                        ==> m.profiles[i].codex_home == found.profiles[i].codex_home)
            }))
        }),
{
    let (found, origin) = metadata::source(s)->Ok_0;
    let a = metadata::modelled(s, found, origin, product);
    let l = loading::logins_migrated(s, a.profiles).0;
    let b = metadata::updated(s, found, origin, product);
    loading::migration_keeps_homes(s, a.profiles);
    let m = metadata::loaded(s, product, item).1->Ok_0;
    if !metadata::update_changes(s, found, origin, product) && !metadata::recognition_changes(
        l,
        b,
        product,
        item,
    ) {
        assert forall|i: int| 0 <= i < a.profiles.len() implies loading::rehomed(
            s,
            #[trigger] a.profiles[i],
        ) == a.profiles[i] by {
            assert(loading::is_shared_home(s, a.profiles[i].codex_home));
        }
        assert(b.profiles =~= a.profiles);
        assert(m.profiles == b.profiles);
    }
}

/// A record that is taken as that of another profile in effect differs in nothing else.
pub proof fn only_the_profile_in_effect_is_exchanged(
    m: CredentialMetadataView,
    id: Option<Seq<char>>,
)
    ensures
        activation::belonging_to(m, id) == (CredentialMetadataView { active_profile_id: id, ..m }),
{
}

} // verus!
