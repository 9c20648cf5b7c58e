//! Switching to a workspace and back to the personal login.
use crate::credential::activation;
use crate::credential::activation::SwitchTexts;
use crate::credential::auth;
use crate::credential::config;
use crate::credential::config_laws;
use crate::credential::contract::{
    AuthConfigSnapshotView, AuthMode, AuthProfileKind, CredentialMetadataView,
    CredentialProfileView,
};
use crate::credential::files::FileReadView;
use crate::credential::laws;
use crate::credential::loading;
use crate::credential::metadata;
use crate::credential::metadata::Origin;
use crate::credential::operations;
use crate::credential::profiles;
use crate::credential::recognition;
use crate::credential::reloading;
use crate::credential::store;
use crate::credential::store::{CredentialStoreView, Stored};
use crate::product_config::ProductConfigView;
use vstd::prelude::*;

verus! {

/// Loading changes no login file and no settings that are stored, once there is a personal profile.
pub proof fn loading_keeps_what_is_stored(
    s: CredentialStoreView,
    product: ProductConfigView,
    item: Option<Seq<char>>,
    key: Seq<char>,
)
    requires
        metadata::source(s) matches Ok((found, origin)) && metadata::has_personal(
            metadata::updated(s, found, origin, product),
        ),
    ensures
        !(store::profile_auth_of(s, key) is Missing) ==> store::profile_auth_of(
            metadata::loaded(s, product, item).0,
            key,
        ) == store::profile_auth_of(s, key),
        !(store::profile_config_of(s, key) is Missing) ==> store::profile_config_of(
            metadata::loaded(s, product, item).0,
            key,
        ) == store::profile_config_of(s, key),
{
    let (found, origin) = metadata::source(s)->Ok_0;
    reloading::migration_keeps_what_is_stored(
        s,
        metadata::modelled(s, found, origin, product).profiles,
        key,
    );
}

/// The record that a switch writes needs no update when it is loaded again: its profiles stay as
/// they are.
proof fn recorded_is_up_to_date(
    s: CredentialStoreView,
    other: Seq<char>,
    now: u64,
    product: ProductConfigView,
    item: Option<Seq<char>>,
    texts: SwitchTexts,
)
    requires
        operations::activation_outcome(s, other, now, product, item, texts).1 is Ok,
    ensures
        ({
            let (t, there) = operations::activation_outcome(s, other, now, product, item, texts);
            let recorded = there->Ok_0;
            &&& metadata::source(t) == Ok::<
                (CredentialMetadataView, Origin),
                crate::credential::errors::CredentialError,
            >((recorded, Origin::Present))
            &&& metadata::modelled(t, recorded, Origin::Present, product) == recorded
            &&& metadata::updated(t, recorded, Origin::Present, product) == recorded
            &&& recorded.version == loading::METADATA_VERSION
        }),
{
    let (l, loaded) = metadata::loaded(s, product, item);
    let m = loaded->Ok_0;
    let (t, there) = operations::activation_outcome(s, other, now, product, item, texts);
    let recorded = there->Ok_0;
    let profile = profiles::first_where(m.profiles, profiles::with_id(other))->0;
    laws::loaded_record_is_current(s, product, item);
    laws::loading_keeps_shared_files(s, product, item);
    reloading::loaded_profiles_share_the_home(s, product, item);
    laws::switch_puts_profile_in_effect(l, m, other, now, product, texts);
    assert(laws::same_surroundings(l, t));
    reloading::same_homes(s, t);
    assert(reloading::all_in_place(t, recorded.profiles)) by {
        assert forall|i: int| 0 <= i < recorded.profiles.len() implies reloading::in_place(
            t,
            #[trigger] recorded.profiles[i],
        ) by {
            assert(reloading::in_place(s, m.profiles[i]));
            assert(recorded.profiles[i] == activation::stamped(m.profiles[i], profile, now));
        }
    }
    reloading::in_place_stays(t, recorded.profiles);
}

/// A profile of the list, with the time noted.
proof fn stamped_is_listed(
    m: CredentialMetadataView,
    profile: CredentialProfileView,
    now: u64,
    listed: CredentialProfileView,
)
    requires
        activation::activated(m, profile, now).profiles.contains(listed),
    ensures
        exists|i: int|
            0 <= i < m.profiles.len() && (#[trigger] m.profiles[i]).profile_id == listed.profile_id
                && m.profiles[i].kind == listed.kind,
{
    let after = activation::activated(m, profile, now).profiles;
    let i = choose|i: int| 0 <= i < after.len() && after[i] == listed;
    assert(after[i] == activation::stamped(m.profiles[i], profile, now));
    assert(m.profiles[i].profile_id == listed.profile_id);
}

/// The profile that is in effect when the record is loaded after a switch to a workspace profile has
/// the identity of a workspace profile.
proof fn workspace_is_recognized(
    s: CredentialStoreView,
    other: Seq<char>,
    now: u64,
    product: ProductConfigView,
    item: Option<Seq<char>>,
    texts: SwitchTexts,
    again: Option<Seq<char>>,
)
    requires
        operations::activation_texts_possible(s, other, product, item, texts),
        operations::activation_outcome(s, other, now, product, item, texts).1 is Ok,
        ({
            let m = metadata::loaded(s, product, item).1->Ok_0;
            profiles::first_where(m.profiles, profiles::with_id(other))->0.kind
                == AuthProfileKind::Baijimu && metadata::has_personal(m) && (
            activation::active_profile(m) matches Some(active) ==> recognition::key_of(active)
                != recognition::key_of(
                profiles::first_where(m.profiles, profiles::with_id(other))->0,
            ))
        }),
        metadata::loaded(
            operations::activation_outcome(s, other, now, product, item, texts).0,
            product,
            again,
        ).1 is Ok,
    ensures
        ({
            let m = metadata::loaded(s, product, item).1->Ok_0;
            let (t, there) = operations::activation_outcome(s, other, now, product, item, texts);
            let n = metadata::loaded(t, product, again).1->Ok_0;
            &&& n.profiles == there->Ok_0.profiles
            &&& metadata::has_personal(there->Ok_0)
            &&& activation::active_profile(n) matches Some(active) && exists|i: int|
                0 <= i < m.profiles.len() && (#[trigger] m.profiles[i]).profile_id
                    == active.profile_id && m.profiles[i].kind == AuthProfileKind::Baijimu
        }),
{
    let (l, loaded) = metadata::loaded(s, product, item);
    let m = loaded->Ok_0;
    let (t, there) = operations::activation_outcome(s, other, now, product, item, texts);
    let recorded = there->Ok_0;
    let profile = profiles::first_where(m.profiles, profiles::with_id(other))->0;
    profiles::first_where_is_found(m.profiles, profiles::with_id(other));
    recorded_is_up_to_date(s, other, now, product, item, texts);
    laws::switch_puts_profile_in_effect(l, m, other, now, product, texts);
    laws::workspace_switch_is_complete(l, m, other, now, product, texts);
    laws::loading_keeps_shared_files(t, product, again);
    personal_is_still_there(m, profile, now);
    let key = recognition::key_of(profile);
    let bytes = t.shared_auth->Content_0;
    laws::switch_touches_only_its_own(l, m, other, now, product, texts, key);
    reloading::migration_keeps_what_is_stored(t, recorded.profiles, key);
    loading::migration_keeps_homes(t, recorded.profiles);
    let moved = loading::logins_migrated(t, recorded.profiles).0;
    let v = recognition::chatgpt_stored(moved, recorded);
    assert(metadata::recognized_store(moved, recorded, product, again) == v);
    let n = metadata::loaded(t, product, again).1->Ok_0;
    assert(n == metadata::current(recognition::reconciled(v, recorded, product)));
    activation::activation_keeps_identities(m, profile, now, other);
    let held = activation::stamped(profile, profile, now);
    profiles::first_where_is_found(recorded.profiles, profiles::with_id(other));
    assert(recorded.profiles.contains(held));
    let at = choose|i: int| 0 <= i < recorded.profiles.len() && recorded.profiles[i] == held;
    let holding = recognition::holding_key(v, auth::api_key(bytes)->0);
    assert(holding(held));
    laws::found_where_it_holds(recorded.profiles, holding, at);
    let live = profiles::first_where(recorded.profiles, holding)->0;
    assert(recognition::recognized(v, recorded, product) == Some(live));
    profiles::first_where_is_found(recorded.profiles, holding);
    stamped_is_listed(m, profile, now, live);
    if recognition::selection_changes(v, recorded, product) {
        recognition::recognized_is_listed(v, recorded, product);
        profiles::first_where_is_found(recorded.profiles, profiles::with_id(live.profile_id));
        assert(activation::active_profile(n)->0.profile_id == live.profile_id);
    } else {
        assert(activation::active_profile(n)->0.profile_id == live.profile_id);
    }
}

/// Recording an activation keeps whether there is a personal profile.
proof fn personal_is_still_there(
    m: CredentialMetadataView,
    profile: CredentialProfileView,
    now: u64,
)
    requires
        metadata::has_personal(m),
    ensures
        metadata::has_personal(activation::activated(m, profile, now)),
{
    let p = profiles::of_kind(AuthProfileKind::Personal);
    let after = activation::activated(m, profile, now).profiles;
    profiles::first_where_is_found(m.profiles, p);
    let found = profiles::first_where(m.profiles, p)->0;
    let i = choose|i: int| 0 <= i < m.profiles.len() && m.profiles[i] == found;
    assert(after[i] == activation::stamped(m.profiles[i], profile, now));
    laws::found_where_it_holds(after, p, i);
}

/// A switch from a personal profile to a workspace profile keeps the settings of the shared
/// configuration file for the personal one and puts those of a workspace in their place.
proof fn switching_away_keeps_the_settings(
    s: CredentialStoreView,
    m: CredentialMetadataView,
    other: Seq<char>,
    now: u64,
    product: ProductConfigView,
    texts: SwitchTexts,
)
    requires
        activation::outcome_texts_possible(s, m, other, product, texts),
        activation::switch_outcome(s, m, other, now, product, texts).1 is Ok,
        profiles::first_where(m.profiles, profiles::with_id(other))->0.kind
            == AuthProfileKind::Baijimu,
        activation::active_profile(m) matches Some(personal) && personal.kind
            == AuthProfileKind::Personal,
    ensures
        ({
            let t = activation::switch_outcome(s, m, other, now, product, texts).0;
            let entries = config::config_entries(s.shared_config)->Ok_0;
            let snapshot = config::snapshot_with(entries, texts.item);
            &&& config::config_entries(s.shared_config) is Ok
            &&& store::profile_config_of(
                t,
                recognition::key_of(activation::active_profile(m)->0),
            ) == Stored::Value(snapshot)
            &&& config::captures(snapshot, entries, product)
            &&& config::workspace_content(s.shared_config, product, texts.content)
            &&& t.shared_config == FileReadView::Content(texts.content)
        }),
{
    let workspace = profiles::first_where(m.profiles, profiles::with_id(other))->0;
    laws::checkpoint_keeps_shared_files(s, m, texts.item);
    let login = activation::login_phase(s, m, workspace, texts.item);
    assert(login.shared_config == s.shared_config);
    assert(activation::content_fits(login, workspace, product, texts.content));
}

/// A switch to a personal profile puts its stored settings into the shared configuration file.
proof fn switching_back_restores_the_settings(
    s: CredentialStoreView,
    m: CredentialMetadataView,
    id: Seq<char>,
    now: u64,
    product: ProductConfigView,
    texts: SwitchTexts,
    snapshot: AuthConfigSnapshotView,
)
    requires
        activation::outcome_texts_possible(s, m, id, product, texts),
        activation::switch_outcome(s, m, id, now, product, texts).1 is Ok,
        ({
            let target = profiles::first_where(m.profiles, profiles::with_id(id))->0;
            let key = recognition::key_of(target);
            &&& target.kind == AuthProfileKind::Personal
            &&& store::profile_config_of(s, key) == Stored::Value(snapshot)
            &&& activation::active_profile(m) matches Some(active) ==> recognition::key_of(active)
                != key
        }),
    ensures
        config::restored_content(s.shared_config, snapshot, product, texts.content),
        activation::switch_outcome(s, m, id, now, product, texts).0.shared_config
            == FileReadView::Content(texts.content),
{
    let target = profiles::first_where(m.profiles, profiles::with_id(id))->0;
    let key = recognition::key_of(target);
    laws::checkpoint_keeps_shared_files(s, m, texts.item);
    laws::checkpoint_touches_one_key(s, m, texts.item, key);
    let login = activation::login_phase(s, m, target, texts.item);
    assert(login.shared_config == s.shared_config);
    assert(store::profile_config_of(login, key) == Stored::Value(snapshot));
    assert(activation::content_fits(login, target, product, texts.content));
}

/// A switch stores nothing for a profile whose login file is the shared one already.
proof fn shared_login_stays_stored(
    s: CredentialStoreView,
    m: CredentialMetadataView,
    id: Seq<char>,
    now: u64,
    product: ProductConfigView,
    texts: SwitchTexts,
    key: Seq<char>,
)
    requires
        activation::switch_outcome(s, m, id, now, product, texts).1 is Ok,
        store::profile_auth_of(s, key) == s.shared_auth,
    ensures
        store::profile_auth_of(
            activation::switch_outcome(s, m, id, now, product, texts).0,
            key,
        ) == store::profile_auth_of(s, key),
{
}

/// Whether no workspace profile of the record has what is stored under the same key as the profile.
pub open spec fn own_key(m: CredentialMetadataView, profile: CredentialProfileView) -> bool {
    forall|i: int|
        0 <= i < m.profiles.len() && (#[trigger] m.profiles[i]).kind == AuthProfileKind::Baijimu
            ==> recognition::key_of(m.profiles[i]) != recognition::key_of(profile)
}

/// Putting a workspace profile in effect while a personal one is, and then the personal one again,
/// brings back what was there: the login file byte for byte; of the configuration file the settings
/// that go with the authorization, the routing provider and every other value; and the personal
/// profile in effect. The key of the workspace profile stays stored. A configuration file that could
/// not be read as a document in the end is left out.
pub proof fn switching_there_and_back_restores_everything(
    s: CredentialStoreView,
    other: Seq<char>,
    now: u64,
    later: u64,
    product: ProductConfigView,
    item: Option<Seq<char>>,
    texts: SwitchTexts,
    again: Option<Seq<char>>,
    more: SwitchTexts,
)
    requires
        ({
            let loaded = metadata::loaded(s, product, item).1;
            let (t, there) = operations::activation_outcome(s, other, now, product, item, texts);
            &&& loaded matches Ok(m)
            &&& activation::active_profile(m) matches Some(personal)
            &&& personal.kind == AuthProfileKind::Personal
            &&& own_key(m, personal)
            &&& profiles::first_where(m.profiles, profiles::with_id(other)) matches Some(workspace)
            &&& workspace.kind == AuthProfileKind::Baijimu
            &&& operations::activation_texts_possible(s, other, product, item, texts)
            &&& there is Ok
            &&& operations::activation_texts_possible(
                t,
                personal.profile_id,
                product,
                again,
                more,
            )
            &&& operations::activation_outcome(
                t,
                personal.profile_id,
                later,
                product,
                again,
                more,
            ).1 is Ok
            &&& config::readable(more.content)
        }),
    ensures
        ({
            let (l, loaded) = metadata::loaded(s, product, item);
            let m = loaded->Ok_0;
            let personal = activation::active_profile(m)->0;
            let workspace = profiles::first_where(m.profiles, profiles::with_id(other))->0;
            let t = operations::activation_outcome(s, other, now, product, item, texts).0;
            let (u, back) = operations::activation_outcome(
                t,
                personal.profile_id,
                later,
                product,
                again,
                more,
            );
            &&& s.shared_auth is Content ==> u.shared_auth == s.shared_auth
            &&& config::config_entries(s.shared_config) is Ok
            &&& config::config_entries(u.shared_config) is Ok
            &&& config_laws::same_settings(
                config::config_entries(s.shared_config)->Ok_0,
                config::config_entries(u.shared_config)->Ok_0,
                product,
            )
            &&& store::profile_auth_of(u, recognition::key_of(workspace))
                == store::profile_auth_of(l, recognition::key_of(workspace))
            &&& u.metadata == Stored::Value(back->Ok_0)
            &&& back->Ok_0.active_profile_id == Some(personal.profile_id)
            &&& back->Ok_0.active_mode == AuthMode::Chatgpt
        }),
{
    let (l, loaded) = metadata::loaded(s, product, item);
    let m = loaded->Ok_0;
    let personal = activation::active_profile(m)->0;
    let workspace = profiles::first_where(m.profiles, profiles::with_id(other))->0;
    let key = recognition::key_of(personal);
    let (t, there) = operations::activation_outcome(s, other, now, product, item, texts);
    let recorded = there->Ok_0;
    laws::loading_keeps_shared_files(s, product, item);
    laws::loaded_record_is_current(s, product, item);
    laws::switch_puts_profile_in_effect(l, m, other, now, product, texts);
    profiles::first_where_is_found(m.profiles, profiles::with_id(m.active_profile_id->0));
    profiles::first_where_is_found(m.profiles, profiles::with_id(other));
    assert(recognition::key_of(workspace) != key) by {
        let i = choose|i: int| 0 <= i < m.profiles.len() && m.profiles[i] == workspace;
        assert(m.profiles[i].kind == AuthProfileKind::Baijimu);
    }
    switching_away_keeps_the_settings(l, m, other, now, product, texts);
    laws::switch_touches_only_its_own(
        l,
        m,
        other,
        now,
        product,
        texts,
        recognition::key_of(workspace),
    );
    let snapshot = config::snapshot_with(
        config::config_entries(s.shared_config)->Ok_0,
        texts.item,
    );
    let (r, reloaded) = metadata::loaded(t, product, again);
    let n = reloaded->Ok_0;
    recorded_is_up_to_date(s, other, now, product, item, texts);
    workspace_is_recognized(s, other, now, product, item, texts, again);
    loading_keeps_what_is_stored(t, product, again, key);
    loading_keeps_what_is_stored(t, product, again, recognition::key_of(workspace));
    laws::loading_keeps_shared_files(t, product, again);
    activation::activation_keeps_identities(m, workspace, now, personal.profile_id);
    let active = activation::active_profile(n)->0;
    assert(recognition::key_of(active) != key) by {
        let i = choose|i: int|
            0 <= i < m.profiles.len() && (#[trigger] m.profiles[i]).profile_id
                == active.profile_id && m.profiles[i].kind == AuthProfileKind::Baijimu;
        assert(recognition::key_of(m.profiles[i]) != key);
    }
    laws::switch_puts_profile_in_effect(r, n, personal.profile_id, later, product, more);
    switching_back_restores_the_settings(
        r,
        n,
        personal.profile_id,
        later,
        product,
        more,
        snapshot,
    );
    shared_login_stays_stored(
        r,
        n,
        personal.profile_id,
        later,
        product,
        more,
        recognition::key_of(workspace),
    );
    if let FileReadView::Content(live) = s.shared_auth {
        laws::switch_keeps_what_was_in_effect(l, m, other, now, product, texts, live);
    }
    config_laws::settings_come_back(
        s.shared_config,
        texts.content,
        more.content,
        snapshot,
        product,
    );
}

} // verus!
