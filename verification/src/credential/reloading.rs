//! Loading the record again.
use crate::credential::auth;
use crate::credential::config;
use crate::credential::contract::{
    AuthMode, AuthProfileKind, CredentialMetadataView, CredentialProfileView,
};
use crate::credential::files::FileReadView;
use crate::credential::identity;
use crate::credential::laws;
use crate::credential::loading;
use crate::credential::metadata;
use crate::credential::metadata::Origin;
use crate::credential::profiles;
use crate::credential::recognition;
use crate::credential::store;
use crate::credential::store::CredentialStoreView;
use crate::product_config::ProductConfigView;
use crate::text;
use vstd::prelude::*;

verus! {

/// Whether loading has nothing to fill in or to move for the profile.
pub open spec fn in_place(s: CredentialStoreView, profile: CredentialProfileView) -> bool {
    profiles::normalized(profile, s.shared_home.text) == profile && loading::is_shared_home(
        s,
        profile.codex_home,
    )
}

/// Whether loading has nothing to fill in or to move for any profile.
pub open spec fn all_in_place(s: CredentialStoreView, all: Seq<CredentialProfileView>) -> bool {
    forall|i: int| 0 <= i < all.len() ==> in_place(s, #[trigger] all[i])
}

/// A profile that was filled in and moved is in place.
proof fn filled_in_is_in_place(
    s: CredentialStoreView,
    profile: CredentialProfileView,
    model: Seq<char>,
)
    ensures
        in_place(s, loading::rehomed(s, profiles::normalized(profile, s.shared_home.text))),
        in_place(
            s,
            loading::rehomed(
                s,
                loading::with_model(profiles::normalized(profile, s.shared_home.text), model),
            ),
        ),
{
    reveal_strlit("prod");
    reveal_strlit("安装前授权备份");
    reveal_strlit(":user-");
    let filled = profiles::normalized(profile, s.shared_home.text);
    assert(filled.environment.len() > 0);
    assert(filled.profile_id.len() > 0);
}

/// The personal profile that loading adds is in place.
proof fn added_is_in_place(
    s: CredentialStoreView,
    name: Seq<char>,
    model: Seq<char>,
    status: Seq<char>,
)
    requires
        name.len() > 0,
    ensures
        in_place(
            s,
            recognition::personal_profile(name, model, s.shared_home.text, status),
        ),
{
    reveal_strlit("local");
    reveal_strlit("personal:installation-backup");
    assert(identity::ORIGINAL_PROFILE_ID@ == "personal:installation-backup"@);
}

/// The profiles of an updated record are in place.
pub proof fn updated_is_in_place(
    s: CredentialStoreView,
    m: CredentialMetadataView,
    origin: Origin,
    product: ProductConfigView,
)
    ensures
        all_in_place(s, metadata::updated(s, m, origin, product).profiles),
{
    let b = metadata::updated(s, m, origin, product).profiles;
    assert forall|i: int| 0 <= i < b.len() implies in_place(s, #[trigger] b[i]) by {
        filled_in_is_in_place(s, m.profiles[i], product.default_model);
    }
}

/// Adding a profile that is in place leaves all in place.
proof fn adding_keeps_in_place(
    s: CredentialStoreView,
    all: Seq<CredentialProfileView>,
    added: CredentialProfileView,
)
    requires
        all_in_place(s, all),
        in_place(s, added),
    ensures
        all_in_place(s, profiles::sorted(all.push(added))),
{
    let list = all.push(added);
    let after = profiles::sorted(list);
    laws::sorting_keeps_members(list);
    assert forall|i: int| 0 <= i < after.len() implies in_place(s, #[trigger] after[i]) by {
        assert(after.contains(after[i]));
        assert(list.contains(after[i]));
        let k = choose|k: int| 0 <= k < list.len() && list[k] == after[i];
        if k < all.len() {
            assert(in_place(s, all[k]));
        }
    }
}

/// Profiles that are in place stay as they are.
pub proof fn in_place_stays(s: CredentialStoreView, all: Seq<CredentialProfileView>)
    requires
        all_in_place(s, all),
    ensures
        profiles::all_normalized(all, s.shared_home.text) == all,
        loading::all_rehomed(s, all) == all,
        !loading::homes_change(s, all),
{
    assert forall|i: int| 0 <= i < all.len() implies profiles::normalized(
        #[trigger] all[i],
        s.shared_home.text,
    ) == all[i] && loading::rehomed(s, all[i]) == all[i] by {
        assert(in_place(s, all[i]));
    }
    assert(profiles::all_normalized(all, s.shared_home.text) =~= all);
    assert(loading::all_rehomed(s, all) =~= all);
}

/// Where every profile has its login file, or can get none, none is migrated.
proof fn nothing_to_migrate(s: CredentialStoreView, all: Seq<CredentialProfileView>)
    requires
        forall|i: int|
            0 <= i < all.len() ==> loading::migration_bytes(s, #[trigger] all[i]) == Ok::<
                Option<Seq<u8>>,
                crate::credential::errors::CredentialError,
            >(None),
    ensures
        loading::logins_migrated(s, all) == (
            s,
            None::<crate::credential::errors::CredentialError>,
        ),
    decreases all.len(),
{
    if all.len() > 0 {
        nothing_to_migrate(s, all.drop_last());
        assert(all[all.len() - 1] == all.last());
    }
}

/// Migration takes no login file away.
proof fn migration_takes_nothing(
    s: CredentialStoreView,
    all: Seq<CredentialProfileView>,
    key: Seq<char>,
)
    requires
        store::profile_auth_of(loading::logins_migrated(s, all).0, key) is Missing,
    ensures
        store::profile_auth_of(s, key) is Missing,
    decreases all.len(),
{
    if all.len() > 0 {
        migration_takes_nothing(s, all.drop_last(), key);
    }
}

/// Migrating login files changes none that is stored, and no settings.
pub proof fn migration_keeps_what_is_stored(
    s: CredentialStoreView,
    all: Seq<CredentialProfileView>,
    key: Seq<char>,
)
    ensures
        !(store::profile_auth_of(s, key) is Missing) ==> store::profile_auth_of(
            loading::logins_migrated(s, all).0,
            key,
        ) == store::profile_auth_of(s, key),
        store::profile_config_of(loading::logins_migrated(s, all).0, key)
            == store::profile_config_of(s, key),
    decreases all.len(),
{
    if all.len() > 0 {
        migration_keeps_what_is_stored(s, all.drop_last(), key);
    }
}

/// A workspace profile that has no login file after migration has none at its old places.
proof fn nothing_left_behind(
    s: CredentialStoreView,
    all: Seq<CredentialProfileView>,
    i: int,
)
    requires
        0 <= i < all.len(),
        all[i].kind == AuthProfileKind::Baijimu,
        loading::logins_migrated(s, all).1 is None,
        store::profile_auth_of(
            loading::logins_migrated(s, all).0,
            recognition::key_of(all[i]),
        ) is Missing,
    ensures
        store::legacy_auth_of(s, recognition::key_of(all[i])) is Missing,
        loading::home_auth(s, all[i].codex_home) is Missing,
    decreases all.len(),
{
    let before = all.drop_last();
    let t = loading::logins_migrated(s, before).0;
    loading::migration_keeps_homes(s, before);
    if i < all.len() - 1 {
        nothing_left_behind(s, before, i);
    }
}

/// Stores with the same surroundings agree on which directory is the shared one.
pub proof fn same_homes(s: CredentialStoreView, t: CredentialStoreView)
    requires
        laws::same_surroundings(s, t),
    ensures
        forall|home: Seq<char>| #[trigger]
            loading::is_shared_home(t, home) == loading::is_shared_home(s, home),
        forall|all: Seq<CredentialProfileView>| #[trigger]
            loading::all_rehomed(t, all) == loading::all_rehomed(s, all),
        forall|m: CredentialMetadataView| #[trigger]
            loading::home_captured(t, m) == loading::home_captured(s, m),
{
    assert forall|all: Seq<CredentialProfileView>| #[trigger]
        loading::all_rehomed(t, all) == loading::all_rehomed(s, all) by {
        assert(loading::all_rehomed(t, all) =~= loading::all_rehomed(s, all));
    }
}

/// The record that recognition ends with: its profiles are in place, one of them is personal and
/// has settings, and another recognition changes nothing.
pub proof fn recognition_is_settled(
    t: CredentialStoreView,
    b: CredentialMetadataView,
    product: ProductConfigView,
    item: Option<Seq<char>>,
)
    requires
        all_in_place(t, b.profiles),
    ensures
        ({
            let v = metadata::recognized_store(t, b, product, item);
            let m = metadata::current(metadata::recognized_record(t, b, product, item));
            &&& all_in_place(t, m.profiles)
            &&& metadata::has_personal(m)
            &&& !recognition::lacks_chatgpt(v, m)
            &&& !recognition::selection_changes(v, m, product)
        }),
{
    reveal_strlit("安装前授权备份");
    reveal_strlit("ChatGPT 登录");
    let (u, c) = metadata::with_original(t, b, product, item);
    let v = recognition::chatgpt_stored(u, c);
    let d = recognition::chatgpt_recorded(u, c, product);
    let m = metadata::current(recognition::reconciled(v, d, product));
    if recognition::finds_original(t, b) {
        let added = recognition::personal_profile(
            "安装前授权备份"@,
            product.default_model,
            t.shared_home.text,
            recognition::found_status(t.shared_auth),
        );
        added_is_in_place(
            t,
            "安装前授权备份"@,
            product.default_model,
            recognition::found_status(t.shared_auth),
        );
        adding_keeps_in_place(t, b.profiles, added);
        laws::personal_is_found(b.profiles, added);
    }
    assert(all_in_place(t, c.profiles));
    if !metadata::has_personal(c) {
        let added = recognition::personal_profile(
            "ChatGPT 登录"@,
            product.default_model,
            u.shared_home.text,
            "login_required"@,
        );
        added_is_in_place(t, "ChatGPT 登录"@, product.default_model, "login_required"@);
        adding_keeps_in_place(t, c.profiles, added);
        laws::personal_is_found(c.profiles, added);
    }
    assert(m.profiles == d.profiles);
    assert(metadata::has_personal(d));
    assert(recognition::recognized(v, m, product) == recognition::recognized(v, d, product));
    if recognition::selection_changes(v, d, product) {
        recognition::recognized_is_listed(v, d, product);
        let id = recognition::recognized(v, d, product)->0.profile_id;
        profiles::first_where_is_found(d.profiles, profiles::with_id(id));
    }
}

/// What recognition looks at is the same in stores that differ only in the record.
pub proof fn recognition_ignores_the_record(
    v: CredentialStoreView,
    t: CredentialStoreView,
    m: CredentialMetadataView,
    product: ProductConfigView,
)
    requires
        t == (CredentialStoreView {
            metadata: t.metadata,
            legacy_metadata: t.legacy_metadata,
            journal: t.journal,
            ..v
        }),
    ensures
        recognition::recognized(t, m, product) == recognition::recognized(v, m, product),
        recognition::lacks_chatgpt(t, m) == recognition::lacks_chatgpt(v, m),
{
    if let FileReadView::Content(live) = v.shared_auth {
        if let Some(key) = crate::credential::auth::api_key(live) {
            assert(recognition::holding_key(t, key) =~= recognition::holding_key(v, key));
        }
    }
}

/// Loading again, after a load that succeeded, gives the same record and writes nothing. It is left
/// out only where a workspace profile has no login file while there is a shared one: such a profile
/// takes the shared one at the next load.
pub proof fn reloading_changes_nothing(
    s: CredentialStoreView,
    product: ProductConfigView,
    item: Option<Seq<char>>,
    again: Option<Seq<char>>,
)
    requires
        ({
            let (t, loaded) = metadata::loaded(s, product, item);
            loaded matches Ok(m) && forall|i: int|
                0 <= i < m.profiles.len() && (#[trigger] m.profiles[i]).kind
                    == AuthProfileKind::Baijimu ==> !(store::profile_auth_of(
                    t,
                    recognition::key_of(m.profiles[i]),
                ) is Missing) || t.shared_auth is Missing
        }),
    ensures
        ({
            let (t, loaded) = metadata::loaded(s, product, item);
            metadata::loaded(t, product, again) == (t, loaded)
        }),
{
    let (t, loaded) = metadata::loaded(s, product, item);
    let m = loaded->Ok_0;
    let (found, origin) = metadata::source(s)->Ok_0;
    let a = metadata::modelled(s, found, origin, product);
    let l = loading::logins_migrated(s, a.profiles).0;
    let b = metadata::updated(s, found, origin, product);
    let v = metadata::recognized_store(l, b, product, item);
    loading::migration_keeps_homes(s, a.profiles);
    laws::loading_keeps_shared_files(s, product, item);
    laws::loaded_record_is_current(s, product, item);
    updated_is_in_place(s, found, origin, product);
    same_homes(s, l);
    same_homes(s, t);
    assert(all_in_place(l, b.profiles)) by {
        assert forall|i: int| 0 <= i < b.profiles.len() implies in_place(
            l,
            #[trigger] b.profiles[i],
        ) by {
            assert(in_place(s, b.profiles[i]));
        }
    }
    recognition_is_settled(l, b, product, item);
    assert(all_in_place(t, m.profiles)) by {
        assert forall|i: int| 0 <= i < m.profiles.len() implies in_place(
            t,
            #[trigger] m.profiles[i],
        ) by {
            assert(in_place(l, m.profiles[i]));
        }
    }
    in_place_stays(t, m.profiles);
    recognition_ignores_the_record(v, t, m, product);
    logins_are_settled(s, product, item);
    nothing_to_migrate(t, m.profiles);
    if metadata::update_changes(s, found, origin, product) || metadata::recognition_changes(
        l,
        b,
        product,
        item,
    ) {
        assert(metadata::source(t) == Ok::<
            (CredentialMetadataView, Origin),
            crate::credential::errors::CredentialError,
        >((m, Origin::Present)));
        assert(metadata::completed(t, m, Origin::Present) == m);
        assert(metadata::modelled(t, m, Origin::Present, product) == m);
        assert(metadata::updated(t, m, Origin::Present, product) == m);
        assert(!metadata::update_changes(t, m, Origin::Present, product));
        assert(metadata::with_original(t, m, product, again) == (t, m));
        assert(!metadata::recognition_changes(t, m, product, again));
        assert(metadata::recognized_store(t, m, product, again) == t);
        assert(metadata::recognized_record(t, m, product, again) == m);
    } else {
        assert(t == l);
        assert(metadata::source(t) == metadata::source(s));
        assert(metadata::modelled(t, found, origin, product) == a);
        assert(metadata::updated(t, found, origin, product) == b);
        in_place_unmoved(s, a.profiles);
        assert(b.profiles == a.profiles);
        assert(m.profiles == a.profiles);
        assert(metadata::with_original(t, b, product, again) == (t, b));
    }
}

/// Every profile of a loaded record is complete and lies in the shared state directory.
pub proof fn loaded_profiles_share_the_home(
    s: CredentialStoreView,
    product: ProductConfigView,
    item: Option<Seq<char>>,
)
    requires
        metadata::loaded(s, product, item).1 is Ok,
    ensures
        all_in_place(s, metadata::loaded(s, product, item).1->Ok_0.profiles),
{
    let m = metadata::loaded(s, product, item).1->Ok_0;
    let (found, origin) = metadata::source(s)->Ok_0;
    let a = metadata::modelled(s, found, origin, product);
    let l = loading::logins_migrated(s, a.profiles).0;
    let b = metadata::updated(s, found, origin, product);
    loading::migration_keeps_homes(s, a.profiles);
    updated_is_in_place(s, found, origin, product);
    same_homes(s, l);
    assert(all_in_place(l, b.profiles)) by {
        assert forall|i: int| 0 <= i < b.profiles.len() implies in_place(
            l,
            #[trigger] b.profiles[i],
        ) by {
            assert(in_place(s, b.profiles[i]));
        }
    }
    recognition_is_settled(l, b, product, item);
    assert forall|i: int| 0 <= i < m.profiles.len() implies in_place(
        s,
        #[trigger] m.profiles[i],
    ) by {
        assert(in_place(l, m.profiles[i]));
    }
}

/// Loading leaves no login file behind: a recorded workspace profile that has none stored afterwards
/// had none at its old place and none in its state directory.
pub proof fn loading_leaves_no_login_behind(
    s: CredentialStoreView,
    product: ProductConfigView,
    item: Option<Seq<char>>,
    i: int,
)
    requires
        metadata::loaded(s, product, item).1 is Ok,
        0 <= i < metadata::source(s)->Ok_0.0.profiles.len(),
        ({
            let found = metadata::source(s)->Ok_0.0.profiles[i];
            let profile = profiles::normalized(found, s.shared_home.text);
            profile.kind == AuthProfileKind::Baijimu && store::profile_auth_of(
                metadata::loaded(s, product, item).0,
                recognition::key_of(profile),
            ) is Missing
        }),
    ensures
        ({
            let found = metadata::source(s)->Ok_0.0.profiles[i];
            let profile = profiles::normalized(found, s.shared_home.text);
            &&& store::legacy_auth_of(s, recognition::key_of(profile)) is Missing
            &&& loading::home_auth(s, profile.codex_home) is Missing
        }),
{
    let (found, origin) = metadata::source(s)->Ok_0;
    let a = metadata::modelled(s, found, origin, product);
    let l = loading::logins_migrated(s, a.profiles).0;
    let b = metadata::updated(s, found, origin, product);
    let profile = profiles::normalized(found.profiles[i], s.shared_home.text);
    assert(a.profiles[i].profile_id == profile.profile_id);
    recognition_takes_nothing(l, b, product, item, recognition::key_of(profile));
    nothing_left_behind(s, a.profiles, i);
}

/// Where no profile has another directory, moving them changes none.
proof fn in_place_unmoved(s: CredentialStoreView, all: Seq<CredentialProfileView>)
    ensures
        !loading::homes_change(s, all) ==> loading::all_rehomed(s, all) == all,
{
    if !loading::homes_change(s, all) {
        assert forall|i: int| 0 <= i < all.len() implies loading::rehomed(s, #[trigger] all[i])
            == all[i] by {}
        assert(loading::all_rehomed(s, all) =~= all);
    }
}

/// After a load, every workspace profile has its login file or can get none.
proof fn logins_are_settled(
    s: CredentialStoreView,
    product: ProductConfigView,
    item: Option<Seq<char>>,
)
    requires
        ({
            let (t, loaded) = metadata::loaded(s, product, item);
            loaded matches Ok(m) && forall|i: int|
                0 <= i < m.profiles.len() && (#[trigger] m.profiles[i]).kind
                    == AuthProfileKind::Baijimu ==> !(store::profile_auth_of(
                    t,
                    recognition::key_of(m.profiles[i]),
                ) is Missing) || t.shared_auth is Missing
        }),
    ensures
        ({
            let (t, loaded) = metadata::loaded(s, product, item);
            forall|i: int|
                0 <= i < loaded->Ok_0.profiles.len() ==> loading::migration_bytes(
                    t,
                    #[trigger] loaded->Ok_0.profiles[i],
                ) == Ok::<Option<Seq<u8>>, crate::credential::errors::CredentialError>(None)
        }),
{
    let (t, loaded) = metadata::loaded(s, product, item);
    let m = loaded->Ok_0;
    let (found, origin) = metadata::source(s)->Ok_0;
    let a = metadata::modelled(s, found, origin, product);
    let l = loading::logins_migrated(s, a.profiles).0;
    let b = metadata::updated(s, found, origin, product);
    loading::migration_keeps_homes(s, a.profiles);
    laws::loading_keeps_shared_files(s, product, item);
    updated_is_in_place(s, found, origin, product);
    same_homes(s, l);
    same_homes(s, t);
    assert(all_in_place(l, b.profiles)) by {
        assert forall|i: int| 0 <= i < b.profiles.len() implies in_place(
            l,
            #[trigger] b.profiles[i],
        ) by {
            assert(in_place(s, b.profiles[i]));
        }
    }
    recognition_is_settled(l, b, product, item);
    assert forall|i: int| 0 <= i < m.profiles.len() implies loading::migration_bytes(
        t,
        #[trigger] m.profiles[i],
    ) == Ok::<Option<Seq<u8>>, crate::credential::errors::CredentialError>(None) by {
        let profile = m.profiles[i];
        let key = recognition::key_of(profile);
        assert(in_place(l, profile));
        assert(loading::is_shared_home(t, profile.codex_home));
        if profile.kind == AuthProfileKind::Baijimu && store::profile_auth_of(t, key) is Missing {
            workspace_profiles_are_kept(l, b, product, item, profile);
            let k = choose|k: int| 0 <= k < b.profiles.len() && b.profiles[k] == profile;
            assert(a.profiles[k].profile_id == profile.profile_id);
            assert(a.profiles[k].kind == profile.kind);
            recognition_takes_nothing(l, b, product, item, key);
            nothing_left_behind(s, a.profiles, k);
        }
    }
}

/// The workspace profiles after recognition are those from before.
proof fn workspace_profiles_are_kept(
    t: CredentialStoreView,
    b: CredentialMetadataView,
    product: ProductConfigView,
    item: Option<Seq<char>>,
    profile: CredentialProfileView,
)
    requires
        profile.kind == AuthProfileKind::Baijimu,
        metadata::recognized_record(t, b, product, item).profiles.contains(profile),
    ensures
        b.profiles.contains(profile),
{
    let (u, c) = metadata::with_original(t, b, product, item);
    let d = recognition::chatgpt_recorded(u, c, product);
    assert(d.profiles.contains(profile));
    if !metadata::has_personal(c) {
        let list = c.profiles.push(
            recognition::personal_profile(
                "ChatGPT 登录"@,
                product.default_model,
                u.shared_home.text,
                "login_required"@,
            ),
        );
        laws::sorting_keeps_members(list);
        assert(list.contains(profile));
        let k = choose|k: int| 0 <= k < list.len() && list[k] == profile;
        assert(c.profiles[k] == profile);
    }
    assert(c.profiles.contains(profile));
    if recognition::finds_original(t, b) {
        let list = b.profiles.push(
            recognition::personal_profile(
                "安装前授权备份"@,
                product.default_model,
                t.shared_home.text,
                recognition::found_status(t.shared_auth),
            ),
        );
        laws::sorting_keeps_members(list);
        assert(list.contains(profile));
        let k = choose|k: int| 0 <= k < list.len() && list[k] == profile;
        assert(b.profiles[k] == profile);
    }
}

/// Recognition takes no login file away.
proof fn recognition_takes_nothing(
    t: CredentialStoreView,
    b: CredentialMetadataView,
    product: ProductConfigView,
    item: Option<Seq<char>>,
    key: Seq<char>,
)
    requires
        store::profile_auth_of(
            metadata::recognized_store(t, b, product, item),
            key,
        ) is Missing,
    ensures
        store::profile_auth_of(t, key) is Missing,
{
}

/// Whether no identity belongs to profiles of both kinds.
pub open spec fn one_kind_each(m: CredentialMetadataView) -> bool {
    forall|i: int, j: int|
        0 <= i < m.profiles.len() && 0 <= j < m.profiles.len() && (
        #[trigger] m.profiles[i]).profile_id == (#[trigger] m.profiles[j]).profile_id
            ==> m.profiles[i].kind == m.profiles[j].kind
}

/// Whether the profile has a login file, or takes the shared one without that changing what is in
/// effect: there is no shared one, or it holds no key, or the configuration is not complete for a
/// workspace, or a workspace is in effect already.
pub open spec fn settled_login(
    t: CredentialStoreView,
    m: CredentialMetadataView,
    product: ProductConfigView,
    profile: CredentialProfileView,
) -> bool {
    ||| profile.kind != AuthProfileKind::Baijimu
    ||| !(store::profile_auth_of(t, recognition::key_of(profile)) is Missing)
    ||| match t.shared_auth {
        FileReadView::Content(live) => auth::api_key(live) is None,
        _ => true,
    }
    ||| !config::config_ready(t.shared_config, product)
    ||| m.active_mode == AuthMode::Baijimu && one_kind_each(m)
}

/// Nothing is found where a weaker predicate finds nothing.
proof fn nothing_found_either<T>(s: Seq<T>, p: spec_fn(T) -> bool, weaker: spec_fn(T) -> bool)
    requires
        forall|x: T| #[trigger] p(x) ==> weaker(x),
        profiles::first_where(s, weaker) is None,
    ensures
        profiles::first_where(s, p) is None,
{
    if profiles::first_where(s, p) is Some {
        profiles::first_where_is_found(s, p);
        let found = profiles::first_where(s, p)->0;
        let i = choose|i: int| 0 <= i < s.len() && s[i] == found;
        laws::found_where_it_holds(s, weaker, i);
    }
}

/// More stored login files keep the mode, where the profiles that get one are settled.
proof fn more_logins_keep_the_mode(
    v: CredentialStoreView,
    w: CredentialStoreView,
    m: CredentialMetadataView,
    product: ProductConfigView,
)
    requires
        !recognition::selection_changes(v, m, product),
        w.shared_auth == v.shared_auth,
        w.shared_config == v.shared_config,
        forall|key: Seq<char>|
            !(#[trigger] store::profile_auth_of(v, key) is Missing) ==> store::profile_auth_of(
                w,
                key,
            ) == store::profile_auth_of(v, key),
        match v.shared_auth {
            FileReadView::Content(live) => auth::api_key(live) is None,
            _ => true,
        } || !config::config_ready(v.shared_config, product) || m.active_mode == AuthMode::Baijimu
            && one_kind_each(m),
    ensures
        recognition::reconciled(w, m, product).active_mode == m.active_mode,
{
    let key = match v.shared_auth {
        FileReadView::Content(live) => auth::api_key(live),
        _ => None,
    };
    if let Some(held) = key {
        let before = recognition::holding_key(v, held);
        let after = recognition::holding_key(w, held);
        assert forall|x: CredentialProfileView| #[trigger] before(x) implies after(x) by {
            assert(!(store::profile_auth_of(v, recognition::key_of(x)) is Missing));
        }
        if profiles::first_where(m.profiles, after) is None {
            nothing_found_either(m.profiles, before, after);
        } else if config::config_ready(v.shared_config, product) {
            profiles::first_where_is_found(m.profiles, after);
            let live = profiles::first_where(m.profiles, after)->0;
            if recognition::selection_changes(w, m, product) {
                recognition::recognized_is_listed(w, m, product);
                let p = profiles::with_id(live.profile_id);
                profiles::first_where_is_found(m.profiles, p);
                let first = profiles::first_where(m.profiles, p)->0;
                let i = choose|i: int| 0 <= i < m.profiles.len() && m.profiles[i] == first;
                let j = choose|j: int| 0 <= j < m.profiles.len() && m.profiles[j] == live;
                assert(m.profiles[i].kind == m.profiles[j].kind);
            }
        }
    }
}

/// Loading the record twice gives the same mode. It is left out only where the second load gives a
/// workspace profile without a login file the shared one, and with it the key that makes it the one
/// in effect.
pub proof fn reloading_keeps_the_mode(
    s: CredentialStoreView,
    product: ProductConfigView,
    item: Option<Seq<char>>,
    again: Option<Seq<char>>,
)
    requires
        ({
            let (t, loaded) = metadata::loaded(s, product, item);
            &&& loaded matches Ok(m)
            &&& forall|i: int|
                0 <= i < m.profiles.len() ==> settled_login(t, m, product, #[trigger] m.profiles[i])
            &&& metadata::loaded(t, product, again).1 is Ok
        }),
    ensures
        ({
            let (t, loaded) = metadata::loaded(s, product, item);
            metadata::loaded(t, product, again).1->Ok_0.active_mode == loaded->Ok_0.active_mode
        }),
{
    let (t, loaded) = metadata::loaded(s, product, item);
    let m = loaded->Ok_0;
    let missing = exists|i: int|
        0 <= i < m.profiles.len() && (#[trigger] m.profiles[i]).kind == AuthProfileKind::Baijimu
            && store::profile_auth_of(t, recognition::key_of(m.profiles[i])) is Missing
            && !(t.shared_auth is Missing);
    if !missing {
        reloading_changes_nothing(s, product, item, again);
    } else {
        let at = choose|i: int|
            0 <= i < m.profiles.len() && (#[trigger] m.profiles[i]).kind
                == AuthProfileKind::Baijimu && store::profile_auth_of(
                t,
                recognition::key_of(m.profiles[i]),
            ) is Missing && !(t.shared_auth is Missing);
        assert(settled_login(t, m, product, m.profiles[at]));
        let (found, origin) = metadata::source(s)->Ok_0;
        let a = metadata::modelled(s, found, origin, product);
        let l = loading::logins_migrated(s, a.profiles).0;
        let b = metadata::updated(s, found, origin, product);
        let v = metadata::recognized_store(l, b, product, item);
        loading::migration_keeps_homes(s, a.profiles);
        laws::loading_keeps_shared_files(s, product, item);
        laws::loaded_record_is_current(s, product, item);
        loaded_profiles_share_the_home(s, product, item);
        updated_is_in_place(s, found, origin, product);
        same_homes(s, l);
        same_homes(s, t);
        assert(all_in_place(l, b.profiles)) by {
            assert forall|i: int| 0 <= i < b.profiles.len() implies in_place(
                l,
                #[trigger] b.profiles[i],
            ) by {
                assert(in_place(s, b.profiles[i]));
            }
        }
        recognition_is_settled(l, b, product, item);
        assert(all_in_place(t, m.profiles)) by {
            assert forall|i: int| 0 <= i < m.profiles.len() implies in_place(
                t,
                #[trigger] m.profiles[i],
            ) by {
                assert(in_place(s, m.profiles[i]));
            }
        }
        in_place_stays(t, m.profiles);
        recognition_ignores_the_record(v, t, m, product);
        assert(metadata::source(t) is Ok);
        let (next, from) = metadata::source(t)->Ok_0;
        let c = metadata::modelled(t, next, from, product);
        let d = metadata::updated(t, next, from, product);
        if metadata::update_changes(s, found, origin, product) || metadata::recognition_changes(
            l,
            b,
            product,
            item,
        ) {
            assert(next == m && from == Origin::Present);
            assert(c == m);
            assert(d == m);
        } else {
            assert(t == l);
            assert(c == a);
            assert(d == b);
            in_place_unmoved(s, a.profiles);
        }
        assert(d.profiles == m.profiles);
        assert(d.active_mode == m.active_mode);
        assert(d.active_profile_id == m.active_profile_id);
        let w = loading::logins_migrated(t, c.profiles).0;
        loading::migration_keeps_homes(t, c.profiles);
        assert forall|key: Seq<char>|
            !(#[trigger] store::profile_auth_of(t, key) is Missing) implies store::profile_auth_of(
            w,
            key,
        ) == store::profile_auth_of(t, key) by {
            migration_keeps_what_is_stored(t, c.profiles, key);
        }
        if let Some(personal) = profiles::first_where(
            d.profiles,
            profiles::of_kind(AuthProfileKind::Personal),
        ) {
            migration_keeps_what_is_stored(t, c.profiles, recognition::key_of(personal));
        }
        assert(metadata::recognized_store(w, d, product, again) == w);
        assert(recognition::recognized(t, d, product) == recognition::recognized(t, m, product));
        more_logins_keep_the_mode(t, w, d, product);
    }
}

} // verus!
