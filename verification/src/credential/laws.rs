//! What holds of all operations on authorizations.
use crate::baijimu_cli::{AuthStatusView, WorkspaceView};
use crate::credential::activation;
use crate::credential::activation::SwitchTexts;
use crate::credential::auth;
use crate::credential::config;
use crate::credential::config_laws;
use crate::credential::contract;
use crate::credential::contract::{
    AuthProfileKind, CredentialMetadataView, CredentialProfileView,
};
use crate::credential::files::FileReadView;
use crate::credential::loading;
use crate::credential::metadata;
use crate::credential::operations;
use crate::credential::ownership;
use crate::credential::profiles;
use crate::credential::recognition;
use crate::credential::store;
use crate::credential::store::{CredentialStoreView, FileWriteView, Stored};
use crate::product_config::ProductConfigView;
use crate::text;
use vstd::prelude::*;

verus! {

/// Whether the files that the desktop application itself uses are the same: the shared login file,
/// the shared configuration file and the marker of the directory.
pub open spec fn same_shared_files(s: CredentialStoreView, t: CredentialStoreView) -> bool {
    &&& t.shared_auth == s.shared_auth
    &&& t.shared_config == s.shared_config
    &&& t.ownership == s.ownership
    &&& t.reservation == s.reservation
}

/// Whether everything is the same that no operation ever writes: where things are, and what earlier
/// versions left behind.
pub open spec fn same_surroundings(s: CredentialStoreView, t: CredentialStoreView) -> bool {
    &&& t.shared_home == s.shared_home
    &&& t.external_home == s.external_home
    &&& t.managed_root == s.managed_root
    &&& t.legacy_managed_root == s.legacy_managed_root
    &&& t.legacy_profile_auth == s.legacy_profile_auth
    &&& t.previous_homes == s.previous_homes
}

/// Loading the record only reads the shared files, whatever it migrates, and leaves what earlier
/// versions left behind where it is.
pub proof fn loading_keeps_shared_files(
    s: CredentialStoreView,
    product: ProductConfigView,
    item: Option<Seq<char>>,
)
    ensures
        same_shared_files(s, metadata::loaded(s, product, item).0),
        same_surroundings(s, metadata::loaded(s, product, item).0),
{
    if let Ok((found, origin)) = metadata::source(s) {
        let all = metadata::modelled(s, found, origin, product).profiles;
        loading::migration_keeps_homes(s, all);
    }
}

/// A loaded record is of the current version and names a personal profile, so that a ChatGPT login
/// can always be chosen.
pub proof fn loaded_record_is_current(
    s: CredentialStoreView,
    product: ProductConfigView,
    item: Option<Seq<char>>,
)
    requires
        metadata::loaded(s, product, item).1 is Ok,
    ensures
        ({
            let m = metadata::loaded(s, product, item).1->Ok_0;
            &&& m.version == loading::METADATA_VERSION
            &&& metadata::has_personal(m)
            &&& m.original_codex_home_state.captured
        }),
{
    let (found, origin) = metadata::source(s)->Ok_0;
    let t = loading::logins_migrated(s, metadata::modelled(s, found, origin, product).profiles).0;
    let b = metadata::updated(s, found, origin, product);
    let (u, c) = metadata::with_original(t, b, product, item);
    let d = recognition::chatgpt_recorded(u, c, product);
    if recognition::finds_original(t, b) {
        personal_is_found(
            b.profiles,
            recognition::personal_profile(
                "安装前授权备份"@,
                product.default_model,
                t.shared_home.text,
                recognition::found_status(t.shared_auth),
            ),
        );
    } else if !metadata::has_personal(c) {
        personal_is_found(
            c.profiles,
            recognition::personal_profile(
                "ChatGPT 登录"@,
                product.default_model,
                u.shared_home.text,
                "login_required"@,
            ),
        );
    }
    assert(metadata::has_personal(d));
}

/// A personal profile that was added is found, and no other where there was none.
pub proof fn personal_is_found(
    all: Seq<CredentialProfileView>,
    added: CredentialProfileView,
)
    requires
        added.kind == AuthProfileKind::Personal,
    ensures
        profiles::first_where(
            profiles::sorted(all.push(added)),
            profiles::of_kind(AuthProfileKind::Personal),
        ) is Some,
        profiles::first_where(all, profiles::of_kind(AuthProfileKind::Personal)) is None
            ==> profiles::first_where(
            profiles::sorted(all.push(added)),
            profiles::of_kind(AuthProfileKind::Personal),
        ) == Some(added),
{
    let p = profiles::of_kind(AuthProfileKind::Personal);
    let list = all.push(added);
    let after = profiles::sorted(list);
    sorting_keeps_members(list);
    assert(list[list.len() - 1] == added);
    assert(list.contains(added));
    assert(after.contains(added));
    let i = choose|i: int| 0 <= i < after.len() && after[i] == added;
    if profiles::first_where(after, p) is None {
        found_where_it_holds(after, p, i);
    }
    if profiles::first_where(all, p) is None {
        profiles::first_where_is_found(after, p);
        let found = profiles::first_where(after, p)->0;
        assert(list.contains(found));
        let k = choose|k: int| 0 <= k < list.len() && list[k] == found;
        if k < all.len() {
            found_where_it_holds(all, p, k);
        }
    }
}

/// Where the predicate holds of a value, something is found.
pub proof fn found_where_it_holds<T>(s: Seq<T>, p: spec_fn(T) -> bool, i: int)
    requires
        0 <= i < s.len(),
        p(s[i]),
    ensures
        profiles::first_where(s, p) is Some,
    decreases s.len(),
{
    if i < s.len() - 1 {
        found_where_it_holds(s.drop_last(), p, i);
    }
}

/// Sorting profiles keeps which profiles there are.
pub proof fn sorting_keeps_members(all: Seq<CredentialProfileView>)
    ensures
        forall|profile: CredentialProfileView| #[trigger]
            profiles::sorted(all).contains(profile) <==> all.contains(profile),
        profiles::sorted(all).len() == all.len(),
{
    profiles::profiles_are_ranked();
    crate::ranking::arranged_is_sorted::<contract::CredentialProfile>(all);
    let after = profiles::sorted(all);
    assert forall|profile: CredentialProfileView| #[trigger] after.contains(profile)
        <==> all.contains(profile) by {
        vstd::seq_lib::to_multiset_contains(after, profile);
        vstd::seq_lib::to_multiset_contains(all, profile);
    }
    after.to_multiset_ensures();
    all.to_multiset_ensures();
}

/// The disk of a store, without the journal.
pub open spec fn disk(s: CredentialStoreView) -> CredentialStoreView {
    CredentialStoreView { journal: seq![], ..s }
}

/// Whether the second store is the first after exactly the writes that its journal adds.
pub open spec fn journaled(s: CredentialStoreView, t: CredentialStoreView) -> bool {
    &&& s.journal.len() <= t.journal.len()
    &&& t.journal.take(s.journal.len() as int) == s.journal
    &&& disk(t) == store::replayed(disk(s), t.journal.skip(s.journal.len() as int))
}

/// A store is itself after no writes.
pub proof fn journal_begins(s: CredentialStoreView)
    ensures
        journaled(s, s),
{
    assert(s.journal.take(s.journal.len() as int) =~= s.journal);
    assert(s.journal.skip(s.journal.len() as int) =~= seq![]);
}

/// A write is added to the journal.
pub proof fn journal_goes_on(
    s: CredentialStoreView,
    t: CredentialStoreView,
    write: FileWriteView,
)
    requires
        journaled(s, t),
    ensures
        journaled(s, store::written(t, write)),
{
    let u = store::written(t, write);
    let k = s.journal.len() as int;
    assert(u.journal.take(k) =~= t.journal.take(k));
    assert(u.journal.skip(k) =~= t.journal.skip(k).push(write));
    assert(u.journal.skip(k).drop_last() =~= t.journal.skip(k));
    assert(disk(u) == store::applied(disk(t), write));
}

/// Migrating login files is journaled.
proof fn migration_is_journaled(s: CredentialStoreView, all: Seq<CredentialProfileView>)
    ensures
        journaled(s, loading::logins_migrated(s, all).0),
    decreases all.len(),
{
    if all.len() == 0 {
        journal_begins(s);
    } else {
        migration_is_journaled(s, all.drop_last());
        let (t, stopped) = loading::logins_migrated(s, all.drop_last());
        if stopped is None {
            if let Ok(Some(bytes)) = loading::migration_bytes(t, all.last()) {
                journal_goes_on(
                    s,
                    t,
                    FileWriteView::ProfileAuth(recognition::key_of(all.last()), bytes),
                );
            }
        }
    }
}

/// Recognizing what is in effect is journaled.
proof fn recognition_is_journaled(
    s: CredentialStoreView,
    t: CredentialStoreView,
    b: CredentialMetadataView,
    product: ProductConfigView,
    item: Option<Seq<char>>,
)
    requires
        journaled(s, t),
    ensures
        journaled(s, metadata::recognized_store(t, b, product, item)),
{
    let (u, c) = metadata::with_original(t, b, product, item);
    let key = crate::credential::identity::short_key(
        crate::credential::identity::ORIGINAL_PROFILE_ID@,
    );
    if recognition::finds_original(t, b) {
        let snapshot = FileWriteView::ProfileConfig(
            key,
            config::snapshot_with(config::config_entries(t.shared_config)->Ok_0, item),
        );
        match t.shared_auth {
            FileReadView::Content(live) => {
                journal_goes_on(s, t, FileWriteView::ProfileAuth(key, live));
                journal_goes_on(
                    s,
                    store::written(t, FileWriteView::ProfileAuth(key, live)),
                    snapshot,
                );
            },
            _ => {
                journal_goes_on(s, t, snapshot);
            },
        }
    }
    assert(journaled(s, u));
    if recognition::lacks_chatgpt(u, c) {
        let at = match profiles::first_where(
            c.profiles,
            profiles::of_kind(AuthProfileKind::Personal),
        ) {
            Some(profile) => recognition::key_of(profile),
            None => key,
        };
        journal_goes_on(s, u, FileWriteView::ProfileConfig(at, config::chatgpt_login()));
    }
}

/// Loading the record changes the disk by exactly the writes that it journals, in their order.
pub proof fn loading_is_journaled(
    s: CredentialStoreView,
    product: ProductConfigView,
    item: Option<Seq<char>>,
)
    ensures
        journaled(s, metadata::loaded(s, product, item).0),
{
    match metadata::source(s) {
        Err(_) => {
            journal_begins(s);
        },
        Ok((found, origin)) => {
            let all = metadata::modelled(s, found, origin, product).profiles;
            let t = loading::logins_migrated(s, all).0;
            let b = metadata::updated(s, found, origin, product);
            migration_is_journaled(s, all);
            recognition_is_journaled(s, t, b, product, item);
            let v = metadata::recognized_store(t, b, product, item);
            let f = metadata::current(metadata::recognized_record(t, b, product, item));
            journal_goes_on(s, v, FileWriteView::Metadata(f));
            let w = if metadata::update_changes(s, found, origin, product)
                || metadata::recognition_changes(t, b, product, item) {
                store::written(v, FileWriteView::Metadata(f))
            } else {
                v
            };
            journal_goes_on(s, w, FileWriteView::RemoveLegacyMetadata);
        },
    }
}

/// Keeping what is in effect is journaled.
proof fn checkpoint_is_journaled(
    s: CredentialStoreView,
    t: CredentialStoreView,
    m: CredentialMetadataView,
    item: Option<Seq<char>>,
)
    requires
        journaled(s, t),
    ensures
        journaled(s, activation::checkpointed(t, m, item).0),
{
    if let Some(active) = activation::active_profile(m) {
        let key = recognition::key_of(active);
        if let FileReadView::Content(live) = t.shared_auth {
            journal_goes_on(s, t, FileWriteView::ProfileAuth(key, live));
        }
        assert(journaled(s, activation::login_kept(t, active)));
        if let Ok(entries) = config::config_entries(t.shared_config) {
            journal_goes_on(
                s,
                activation::login_kept(t, active),
                FileWriteView::ProfileConfig(key, config::snapshot_with(entries, item)),
            );
        }
    }
}

/// Putting the shared files and the record back is journaled.
proof fn undo_is_journaled(
    s: CredentialStoreView,
    t: CredentialStoreView,
    login: FileReadView,
    settings: FileReadView,
    m: CredentialMetadataView,
)
    requires
        journaled(s, t),
    ensures
        journaled(s, activation::undone(t, login, settings, m)),
{
    let a = match login {
        FileReadView::Content(bytes) => store::written(t, FileWriteView::SharedAuth(bytes)),
        _ => if t.shared_auth is Missing {
            t
        } else {
            store::written(t, FileWriteView::RemoveSharedAuth)
        },
    };
    match login {
        FileReadView::Content(bytes) => {
            journal_goes_on(s, t, FileWriteView::SharedAuth(bytes));
        },
        _ => {
            journal_goes_on(s, t, FileWriteView::RemoveSharedAuth);
        },
    }
    let b = match settings {
        FileReadView::Content(bytes) => store::written(a, FileWriteView::SharedConfig(bytes)),
        _ => if a.shared_config is Missing {
            a
        } else {
            store::written(a, FileWriteView::RemoveSharedConfig)
        },
    };
    match settings {
        FileReadView::Content(bytes) => {
            journal_goes_on(s, a, FileWriteView::SharedConfig(bytes));
        },
        _ => {
            journal_goes_on(s, a, FileWriteView::RemoveSharedConfig);
        },
    }
    journal_goes_on(s, b, FileWriteView::Metadata(m));
}

/// Putting a profile in effect changes the disk by exactly the writes that it journals, in their
/// order, also where the switch fails and is undone.
pub proof fn activation_is_journaled(
    s: CredentialStoreView,
    id: Seq<char>,
    now: u64,
    product: ProductConfigView,
    item: Option<Seq<char>>,
    texts: SwitchTexts,
)
    ensures
        journaled(s, operations::activation_outcome(s, id, now, product, item, texts).0),
{
    loading_is_journaled(s, product, item);
    if let (t, Ok(m)) = metadata::loaded(s, product, item) {
        if activation::target_error(t, m, id) is None {
            let profile = profiles::first_where(m.profiles, profiles::with_id(id))->0;
            checkpoint_is_journaled(s, t, m, texts.item);
            let kept = activation::checkpointed(t, m, texts.item).0;
            let login = activation::login_phase(t, m, profile, texts.item);
            match store::profile_auth_of(t, recognition::key_of(profile)) {
                FileReadView::Content(bytes) => {
                    journal_goes_on(s, kept, FileWriteView::SharedAuth(bytes));
                },
                _ => {
                    journal_goes_on(s, kept, FileWriteView::RemoveSharedAuth);
                },
            }
            assert(journaled(s, login));
            journal_goes_on(s, login, FileWriteView::SharedConfig(texts.content));
            let set = activation::settings_switched(login, profile, texts.content);
            journal_goes_on(s, set, FileWriteView::Ownership(ownership::new_marker(now)));
            let marked = store::written(set, FileWriteView::Ownership(ownership::new_marker(now)));
            journal_goes_on(s, marked, FileWriteView::RemoveReservation);
            let owned = ownership::ownership_committed(set, now);
            journal_goes_on(
                s,
                owned,
                FileWriteView::Metadata(activation::activated(m, profile, now)),
            );
            let end = activation::switched(t, m, profile, now, product, texts).0;
            assert(journaled(s, end));
            undo_is_journaled(s, end, t.shared_auth, t.shared_config, m);
        }
    }
}

/// Undoing a switch brings the shared files and the record back to what they were, wherever the
/// switch stopped.
pub proof fn undoing_restores(
    s: CredentialStoreView,
    login: FileReadView,
    settings: FileReadView,
    m: CredentialMetadataView,
)
    requires
        !(login is Unreadable),
        !(settings is Unreadable),
    ensures
        activation::undone(s, login, settings, m).shared_auth == login,
        activation::undone(s, login, settings, m).shared_config == settings,
        activation::undone(s, login, settings, m).metadata == Stored::Value(m),
{
}

/// A switch that is broken off after any number of its writes can still be undone: the shared files
/// and the record come back to what they were.
pub proof fn interrupted_switch_can_be_undone(
    s: CredentialStoreView,
    writes: Seq<FileWriteView>,
    m: CredentialMetadataView,
)
    requires
        activation::snapshot_error(s) is None,
    ensures
        ({
            let stopped = store::replayed(s, writes);
            let back = activation::undone(stopped, s.shared_auth, s.shared_config, m);
            &&& back.shared_auth == s.shared_auth
            &&& back.shared_config == s.shared_config
            &&& back.metadata == Stored::Value(m)
        }),
{
    undoing_restores(store::replayed(s, writes), s.shared_auth, s.shared_config, m);
}

/// A switch that fails leaves the shared files and the record as they were.
pub proof fn failed_switch_changes_nothing_shared(
    s: CredentialStoreView,
    m: CredentialMetadataView,
    id: Seq<char>,
    now: u64,
    product: ProductConfigView,
    texts: SwitchTexts,
)
    requires
        activation::switch_outcome(s, m, id, now, product, texts).1 is Err,
        s.metadata == Stored::Value(m),
    ensures
        ({
            let t = activation::switch_outcome(s, m, id, now, product, texts).0;
            same_shared_files(s, t) && t.metadata == s.metadata
        }),
{
    if activation::target_error(s, m, id) is None {
        let profile = profiles::first_where(m.profiles, profiles::with_id(id))->0;
        let end = activation::switched(s, m, profile, now, product, texts).0;
        undoing_restores(end, s.shared_auth, s.shared_config, m);
    }
}

/// Rolling back a switch that succeeded brings the shared files and the record back to what they
/// were.
pub proof fn rolled_back_switch_restores(
    s: CredentialStoreView,
    m: CredentialMetadataView,
    id: Seq<char>,
    now: u64,
    product: ProductConfigView,
    texts: SwitchTexts,
)
    requires
        activation::switch_outcome(s, m, id, now, product, texts).1 is Ok,
    ensures
        ({
            let t = activation::switch_outcome(s, m, id, now, product, texts).0;
            let back = activation::undone(t, s.shared_auth, s.shared_config, m);
            &&& back.shared_auth == s.shared_auth
            &&& back.shared_config == s.shared_config
            &&& back.metadata == Stored::Value(m)
        }),
{
    let t = activation::switch_outcome(s, m, id, now, product, texts).0;
    undoing_restores(t, s.shared_auth, s.shared_config, m);
}

/// What a switch that succeeds leaves: the stored login file of the profile is the shared one, the
/// record names the profile with its kind and workspace, and the directory carries the marker.
pub proof fn switch_puts_profile_in_effect(
    s: CredentialStoreView,
    m: CredentialMetadataView,
    id: Seq<char>,
    now: u64,
    product: ProductConfigView,
    texts: SwitchTexts,
)
    requires
        activation::switch_outcome(s, m, id, now, product, texts).1 is Ok,
    ensures
        ({
            let profile = profiles::first_where(m.profiles, profiles::with_id(id))->0;
            let (t, outcome) = activation::switch_outcome(s, m, id, now, product, texts);
            let recorded = outcome->Ok_0;
            &&& t.shared_auth == store::profile_auth_of(s, recognition::key_of(profile))
            &&& t.shared_config == FileReadView::Content(texts.content)
            &&& t.metadata == Stored::Value(recorded)
            &&& recorded.active_profile_id == Some(id)
            &&& recorded.active_mode == contract::mode_of(profile.kind)
            &&& recorded.active_workspace_id == (if profile.kind == AuthProfileKind::Baijimu {
                Some(profile.workspace_id)
            } else {
                None
            })
            &&& ownership::is_owned(t.ownership)
        }),
{
    let profile = profiles::first_where(m.profiles, profiles::with_id(id))->0;
    profiles::first_where_is_found(m.profiles, profiles::with_id(id));
    let login = activation::login_phase(s, m, profile, texts.item);
    checkpoint_keeps_shared_files(s, m, texts.item);
    ownership::committed_ownership_is_valid(
        activation::settings_switched(login, profile, texts.content),
        now,
    );
}

/// Keeping what is in effect only reads the shared files.
pub proof fn checkpoint_keeps_shared_files(
    s: CredentialStoreView,
    m: CredentialMetadataView,
    item: Option<Seq<char>>,
)
    ensures
        same_shared_files(s, activation::checkpointed(s, m, item).0),
        same_surroundings(s, activation::checkpointed(s, m, item).0),
        activation::checkpointed(s, m, item).0.metadata == s.metadata,
{
}

/// After a switch to a workspace profile the desktop application is configured for it: the shared
/// login file holds its key, and the shared configuration file is complete whenever it can be read as
/// a document.
pub proof fn workspace_switch_is_complete(
    s: CredentialStoreView,
    m: CredentialMetadataView,
    id: Seq<char>,
    now: u64,
    product: ProductConfigView,
    texts: SwitchTexts,
)
    requires
        activation::outcome_texts_possible(s, m, id, product, texts),
        activation::switch_outcome(s, m, id, now, product, texts).1 is Ok,
        profiles::first_where(m.profiles, profiles::with_id(id))->0.kind == AuthProfileKind::Baijimu,
    ensures
        ({
            let t = activation::switch_outcome(s, m, id, now, product, texts).0;
            &&& t.shared_auth matches FileReadView::Content(live) && auth::api_key(live) is Some
            &&& config::readable(texts.content) ==> config::config_ready(t.shared_config, product)
        }),
{
    switch_puts_profile_in_effect(s, m, id, now, product, texts);
    let profile = profiles::first_where(m.profiles, profiles::with_id(id))->0;
    let login = activation::login_phase(s, m, profile, texts.item);
    let entries = config::config_entries(login.shared_config)->Ok_0;
    if config::readable(texts.content) {
        config_laws::written_workspace_settings_are_ready(entries, product, texts.content);
    }
}

/// Whether what is stored under the key, and everything that no switch ever writes, is the same.
pub open spec fn untouched(
    s: CredentialStoreView,
    t: CredentialStoreView,
    key: Seq<char>,
) -> bool {
    &&& same_surroundings(s, t)
    &&& t.legacy_metadata == s.legacy_metadata
    &&& store::profile_auth_of(t, key) == store::profile_auth_of(s, key)
    &&& store::profile_config_of(t, key) == store::profile_config_of(s, key)
}

/// Keeping what is in effect touches nothing under another key.
pub proof fn checkpoint_touches_one_key(
    s: CredentialStoreView,
    m: CredentialMetadataView,
    item: Option<Seq<char>>,
    key: Seq<char>,
)
    requires
        activation::active_profile(m) matches Some(active) ==> key != recognition::key_of(active),
    ensures
        untouched(s, activation::checkpointed(s, m, item).0, key),
{
    if let Some(active) = activation::active_profile(m) {
        assert(untouched(s, activation::login_kept(s, active), key));
    }
}

/// Undoing a switch touches nothing under any key.
proof fn undo_touches_no_key(
    s: CredentialStoreView,
    t: CredentialStoreView,
    login: FileReadView,
    settings: FileReadView,
    m: CredentialMetadataView,
    key: Seq<char>,
)
    requires
        untouched(s, t, key),
    ensures
        untouched(s, activation::undone(t, login, settings, m), key),
{
}

/// A switch touches nothing but the shared files, the record, and what is stored for the profile
/// that was in effect.
pub proof fn switch_touches_only_its_own(
    s: CredentialStoreView,
    m: CredentialMetadataView,
    id: Seq<char>,
    now: u64,
    product: ProductConfigView,
    texts: SwitchTexts,
    key: Seq<char>,
)
    requires
        activation::active_profile(m) matches Some(active) ==> key != recognition::key_of(active),
    ensures
        untouched(s, activation::switch_outcome(s, m, id, now, product, texts).0, key),
{
    if activation::target_error(s, m, id) is None {
        let profile = profiles::first_where(m.profiles, profiles::with_id(id))->0;
        checkpoint_touches_one_key(s, m, texts.item, key);
        let login = activation::login_phase(s, m, profile, texts.item);
        assert(untouched(s, login, key));
        let set = activation::settings_switched(login, profile, texts.content);
        assert(untouched(s, set, key));
        let owned = ownership::ownership_committed(set, now);
        assert(untouched(s, owned, key));
        let end = activation::switched(s, m, profile, now, product, texts).0;
        assert(untouched(s, end, key));
        undo_touches_no_key(s, end, s.shared_auth, s.shared_config, m, key);
    }
}

/// A login file that is the shared one already is not written again by a switch.
pub proof fn same_login_is_not_written_again(s: CredentialStoreView)
    requires
        !(s.shared_auth is Unreadable),
    ensures
        activation::login_switched(s, s.shared_auth) == s,
{
}

/// What is in effect is kept before it is replaced: after a switch away from a personal profile its
/// stored login file is the one that was shared.
pub proof fn switch_keeps_what_was_in_effect(
    s: CredentialStoreView,
    m: CredentialMetadataView,
    id: Seq<char>,
    now: u64,
    product: ProductConfigView,
    texts: SwitchTexts,
    live: Seq<u8>,
)
    requires
        activation::switch_outcome(s, m, id, now, product, texts).1 is Ok,
        activation::active_profile(m) is Some,
        s.shared_auth == FileReadView::Content(live),
    ensures
        store::profile_auth_of(
            activation::switch_outcome(s, m, id, now, product, texts).0,
            recognition::key_of(activation::active_profile(m)->0),
        ) == FileReadView::Content(live),
{
}

/// Switching to another profile and back brings the login file back, byte for byte.
pub proof fn switching_there_and_back_restores_the_login(
    s: CredentialStoreView,
    m: CredentialMetadataView,
    other: Seq<char>,
    now: u64,
    later: u64,
    product: ProductConfigView,
    texts: SwitchTexts,
    more: SwitchTexts,
    live: Seq<u8>,
)
    requires
        s.shared_auth == FileReadView::Content(live),
        activation::active_profile(m) matches Some(active)
            && activation::switch_outcome(s, m, other, now, product, texts).1 is Ok
            && recognition::key_of(active) != recognition::key_of(
            profiles::first_where(m.profiles, profiles::with_id(other))->0,
        ) && ({
            let (t, there) = activation::switch_outcome(s, m, other, now, product, texts);
            activation::switch_outcome(
                t,
                there->Ok_0,
                active.profile_id,
                later,
                product,
                more,
            ).1 is Ok
        }),
    ensures
        ({
            let active = activation::active_profile(m)->0;
            let (t, there) = activation::switch_outcome(s, m, other, now, product, texts);
            let (u, _back) = activation::switch_outcome(
                t,
                there->Ok_0,
                active.profile_id,
                later,
                product,
                more,
            );
            u.shared_auth == s.shared_auth
        }),
{
    let active = activation::active_profile(m)->0;
    let target = profiles::first_where(m.profiles, profiles::with_id(other))->0;
    let (t, there) = activation::switch_outcome(s, m, other, now, product, texts);
    let recorded = there->Ok_0;
    switch_keeps_what_was_in_effect(s, m, other, now, product, texts, live);
    switch_puts_profile_in_effect(
        t,
        recorded,
        active.profile_id,
        later,
        product,
        more,
    );
    activation::activation_keeps_identities(m, target, now, active.profile_id);
    profiles::first_where_is_found(m.profiles, profiles::with_id(m.active_profile_id->0));
    assert(active.profile_id == m.active_profile_id->0);
}

/// Setting up the profile of a workspace only reads the shared files.
pub proof fn initialization_keeps_shared_files(
    s: CredentialStoreView,
    workspace_id: u64,
    status: Option<AuthStatusView>,
    workspace: Option<WorkspaceView>,
    issued: Option<Seq<char>>,
    product: ProductConfigView,
    item: Option<Seq<char>>,
    login: Seq<u8>,
)
    ensures
        same_shared_files(
            s,
            operations::initialization_outcome(
                s,
                workspace_id,
                status,
                workspace,
                issued,
                product,
                item,
                login,
            ).0,
        ),
{
    loading_keeps_shared_files(s, product, item);
}

/// A stored credential is used again: setting up a workspace whose profile has one issues and
/// stores none.
pub proof fn stored_credential_is_used_again(
    t: CredentialStoreView,
    m: CredentialMetadataView,
    workspace_id: u64,
    workspace: WorkspaceView,
    environment: Seq<char>,
    issued: Option<Seq<char>>,
    product: ProductConfigView,
    login: Seq<u8>,
    credential: Seq<char>,
)
    requires
        auth::known_api_key(
            store::profile_auth_of(
                t,
                recognition::key_of(
                    operations::workspace_profile(
                        t,
                        m,
                        workspace_id,
                        workspace,
                        environment,
                        product,
                    ),
                ),
            ),
        ) == Some(credential),
    ensures
        ({
            let (u, outcome) = operations::initialization(
                t,
                m,
                workspace_id,
                workspace,
                environment,
                issued,
                product,
                login,
            );
            &&& u.profile_auth == t.profile_auth
            &&& outcome matches Ok((_, given)) && given == credential
        }),
{
}

/// A new credential for a profile that is not in effect leaves the shared files as they are.
pub proof fn inactive_reauthorization_keeps_shared_files(
    t: CredentialStoreView,
    m: CredentialMetadataView,
    profile: CredentialProfileView,
    credential: Seq<char>,
    login: Seq<u8>,
)
    requires
        m.active_profile_id != Some(profile.profile_id),
    ensures
        same_shared_files(t, operations::reauthorized(t, m, profile, credential, login).0),
{
}

/// A new credential for the profile in effect is the one that the shared login file holds
/// afterwards, and the configuration stays as it is.
pub proof fn active_reauthorization_updates_the_login(
    t: CredentialStoreView,
    m: CredentialMetadataView,
    profile: CredentialProfileView,
    credential: Seq<char>,
    login: Seq<u8>,
)
    requires
        m.active_profile_id == Some(profile.profile_id),
        auth::workspace_login(login, credential),
        !text::blank(credential),
        text::trimmed(credential) == credential,
        operations::reauthorized(t, m, profile, credential, login).1 is Ok,
    ensures
        ({
            let u = operations::reauthorized(t, m, profile, credential, login).0;
            &&& auth::known_api_key(u.shared_auth) == Some(credential)
            &&& auth::known_api_key(
                store::profile_auth_of(u, recognition::key_of(profile)),
            ) == Some(credential)
            &&& u.shared_config == t.shared_config
        }),
{
    auth::written_login_is_read_back(login, credential);
}

/// A credential that the shared login file already holds is not written to it again.
pub proof fn same_credential_is_not_written_again(
    t: CredentialStoreView,
    m: CredentialMetadataView,
    profile: CredentialProfileView,
    credential: Seq<char>,
    login: Seq<u8>,
)
    requires
        auth::known_api_key(t.shared_auth) == Some(credential),
    ensures
        same_shared_files(t, operations::reauthorized(t, m, profile, credential, login).0),
{
}

} // verus!
