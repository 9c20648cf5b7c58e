//! When the record loads, what it then holds, and which profile it names as in effect.
use crate::credential::auth;
use crate::credential::config;
use crate::credential::contract::{
    AuthMode, AuthProfileKind, CredentialMetadataView, CredentialProfileView,
};
use crate::credential::files::FileReadView;
use crate::credential::identity;
use crate::credential::identity::ORIGINAL_PROFILE_ID;
use crate::credential::laws;
use crate::credential::loading;
use crate::credential::metadata;
use crate::credential::metadata::Origin;
use crate::credential::profiles;
use crate::credential::recognition;
use crate::credential::reloading;
use crate::credential::shown_laws;
use crate::credential::store::CredentialStoreView;
use crate::credential::switch_laws;
use crate::product_config::ProductConfigView;
use crate::toml_document as toml;
use vstd::prelude::*;

verus! {

/// Whether the profile at this place is the first workspace profile whose stored login file holds the
/// key.
pub open spec fn holds_the_key(
    s: CredentialStoreView,
    all: Seq<CredentialProfileView>,
    key: Seq<char>,
    at: int,
) -> bool {
    let place = identity::short_key(all[at].profile_id);
    &&& 0 <= at < all.len()
    &&& all[at].kind == AuthProfileKind::Baijimu
    &&& s.profile_auth.contains_key(place)
    &&& s.profile_auth[place] matches FileReadView::Content(archived)
    &&& auth::api_key(archived) == Some(key)
}

/// Whether the shared files speak of a personal login, other than by their key: the configuration
/// asks for a ChatGPT login, or keeps logins outside of the file.
pub open spec fn asks_for_personal(file: FileReadView) -> bool {
    let entries = config::config_entries(file)->Ok_0;
    let store = toml::text_entry(entries, seq!["cli_auth_credentials_store"@]);
    ||| toml::text_entry(entries, seq!["forced_login_method"@]) == Some("chatgpt"@)
    ||| store == Some("keyring"@)
    ||| store == Some("auto"@)
}

/// Whether the shared login file holds a key that a workspace profile holds.
pub open spec fn key_is_held(s: CredentialStoreView, all: Seq<CredentialProfileView>) -> bool {
    s.shared_auth matches FileReadView::Content(live) && auth::api_key(live) is Some && exists|i: int|
        #[trigger] holds_the_key(s, all, auth::api_key(live)->0, i)
}

/// Whether the shared files speak of a personal login: a login that is no workspace's, or settings
/// that ask for one.
pub open spec fn speaks_of_personal(s: CredentialStoreView, all: Seq<CredentialProfileView>) -> bool {
    (!key_is_held(s, all) && shown_laws::login_is_there(s, AuthProfileKind::Personal))
        || asks_for_personal(s.shared_config)
}

/// Whether the shared configuration file is the router's.
pub open spec fn router_is_set(s: CredentialStoreView, product: ProductConfigView) -> bool {
    shown_laws::is_the_routers(config::config_entries(s.shared_config)->Ok_0, product)
}

/// Where the shared login file holds the key of workspace profiles, and the configuration file is the
/// router's, the first of those profiles is recognized, whatever else the files say.
pub proof fn key_in_use_is_recognized(
    s: CredentialStoreView,
    m: CredentialMetadataView,
    product: ProductConfigView,
    live: Seq<u8>,
    at: int,
)
    requires
        config::config_entries(s.shared_config) is Ok,
        router_is_set(s, product),
        s.shared_auth == FileReadView::Content(live),
        auth::api_key(live) is Some,
        holds_the_key(s, m.profiles, auth::api_key(live)->0, at),
        forall|j: int|
            0 <= j < at ==> !#[trigger] holds_the_key(s, m.profiles, auth::api_key(live)->0, j),
    ensures
        recognition::recognized(s, m, product) == Some(m.profiles[at]),
{
    let p = recognition::holding_key(s, auth::api_key(live)->0);
    shown_laws::ready_settings_are_the_routers(s.shared_config, product);
    assert forall|j: int| 0 <= j < at implies !p(#[trigger] m.profiles[j]) by {
        assert(!holds_the_key(s, m.profiles, auth::api_key(live)->0, j));
    }
    profiles::first_where_at(m.profiles, p, at);
}

/// Where no such profile can be recognized and the shared files speak of a personal login, the first
/// personal profile is.
pub proof fn personal_login_is_recognized(
    s: CredentialStoreView,
    m: CredentialMetadataView,
    product: ProductConfigView,
    at: int,
)
    requires
        config::config_entries(s.shared_config) is Ok,
        !key_is_held(s, m.profiles) || !router_is_set(s, product),
        speaks_of_personal(s, m.profiles),
        0 <= at < m.profiles.len(),
        m.profiles[at].kind == AuthProfileKind::Personal,
        forall|j: int| 0 <= j < at ==> (#[trigger] m.profiles[j]).kind != AuthProfileKind::Personal,
    ensures
        recognition::recognized(s, m, product) == Some(m.profiles[at]),
{
    let q = profiles::of_kind(AuthProfileKind::Personal);
    evidence_is_in_the_files(s, m, product);
    profiles::first_where_at(m.profiles, q, at);
}

/// Nothing else is recognized.
pub proof fn nothing_else_is_recognized(
    s: CredentialStoreView,
    m: CredentialMetadataView,
    product: ProductConfigView,
)
    requires
        config::config_entries(s.shared_config) is Ok,
        !key_is_held(s, m.profiles) || !router_is_set(s, product),
        !speaks_of_personal(s, m.profiles) || (forall|i: int|
            0 <= i < m.profiles.len() ==> (#[trigger] m.profiles[i]).kind
                != AuthProfileKind::Personal),
    ensures
        recognition::recognized(s, m, product) is None,
{
    let q = profiles::of_kind(AuthProfileKind::Personal);
    evidence_is_in_the_files(s, m, product);
    if speaks_of_personal(s, m.profiles) {
        profiles::first_where_none(m.profiles, q);
    }
}

/// What is taken for a workspace and for a personal login.
proof fn evidence_is_in_the_files(
    s: CredentialStoreView,
    m: CredentialMetadataView,
    product: ProductConfigView,
)
    requires
        config::config_entries(s.shared_config) is Ok,
    ensures
        recognition::live_workspace(s, m) is Some <==> key_is_held(s, m.profiles),
        config::config_ready(s.shared_config, product) <==> router_is_set(s, product),
        recognition::live_personal(s, m) <==> speaks_of_personal(s, m.profiles),
{
    let all = m.profiles;
    shown_laws::ready_settings_are_the_routers(s.shared_config, product);
    if let FileReadView::Content(live) = s.shared_auth {
        switch_laws::usable_logins_hold_a_login(live, AuthProfileKind::Personal);
        if let Some(wanted) = auth::api_key(live) {
            let p = recognition::holding_key(s, wanted);
            if exists|i: int| #[trigger] holds_the_key(s, all, wanted, i) {
                let k = choose|k: int| #[trigger] holds_the_key(s, all, wanted, k);
                assert(p(all[k]));
                laws::found_where_it_holds(all, p, k);
            } else {
                assert forall|i: int| 0 <= i < all.len() implies !p(#[trigger] all[i]) by {
                    assert(!holds_the_key(s, all, wanted, i));
                }
                profiles::first_where_none(all, p);
            }
        }
    }
}

/// A loaded record names the profile that the shared files are recognized as, where they are
/// recognized as one.
pub proof fn loaded_record_names_what_is_in_effect(
    s: CredentialStoreView,
    product: ProductConfigView,
    item: Option<Seq<char>>,
)
    requires
        metadata::loaded(s, product, item).1 is Ok,
    ensures
        ({
            let (t, loaded) = metadata::loaded(s, product, item);
            let m = loaded->Ok_0;
            recognition::recognized(t, m, product) matches Some(profile) ==> m.active_profile_id
                == Some(profile.profile_id)
        }),
{
    let (t, loaded) = metadata::loaded(s, product, item);
    let m = loaded->Ok_0;
    let (found, origin) = metadata::source(s)->Ok_0;
    let a = metadata::modelled(s, found, origin, product);
    let l = loading::logins_migrated(s, a.profiles).0;
    let b = metadata::updated(s, found, origin, product);
    let v = metadata::recognized_store(l, b, product, item);
    loading::migration_keeps_homes(s, a.profiles);
    reloading::updated_is_in_place(s, found, origin, product);
    reloading::same_homes(s, l);
    assert(reloading::all_in_place(l, b.profiles)) by {
        assert forall|i: int| 0 <= i < b.profiles.len() implies reloading::in_place(
            l,
            #[trigger] b.profiles[i],
        ) by {
            assert(reloading::in_place(s, b.profiles[i]));
        }
    }
    reloading::recognition_is_settled(l, b, product, item);
    reloading::recognition_ignores_the_record(v, t, m, product);
}

/// A record that names another profile than before names that one with its mode, and a workspace only
/// for a workspace profile: those of the first profile with the identity. Nothing else in the record
/// changes by that.
pub proof fn newly_named_profile_brings_its_mode(
    s: CredentialStoreView,
    m: CredentialMetadataView,
    product: ProductConfigView,
    at: int,
)
    requires
        recognition::recognized(s, m, product) matches Some(found) && m.active_profile_id != Some(
            found.profile_id,
        ) && switch_laws::stands_first(m.profiles, found.profile_id, at),
    ensures
        ({
            let found = recognition::recognized(s, m, product)->0;
            let r = recognition::reconciled(s, m, product);
            let workspace = m.profiles[at].kind == AuthProfileKind::Baijimu;
            &&& r.active_profile_id == Some(found.profile_id)
            &&& workspace ==> r.active_mode == AuthMode::Baijimu && r.active_workspace_id == Some(
                m.profiles[at].workspace_id,
            )
            &&& !workspace ==> r.active_mode == AuthMode::Chatgpt && r.active_workspace_id is None
            &&& r == (CredentialMetadataView {
                active_mode: r.active_mode,
                active_profile_id: r.active_profile_id,
                active_workspace_id: r.active_workspace_id,
                ..m
            })
        }),
{
    switch_laws::first_is_found(
        m.profiles,
        recognition::recognized(s, m, product)->0.profile_id,
        at,
    );
}

/// A record that names the recognized profile already, or where none is recognized, stays as it is.
pub proof fn named_profile_stays(
    s: CredentialStoreView,
    m: CredentialMetadataView,
    product: ProductConfigView,
)
    requires
        recognition::recognized(s, m, product) matches Some(found) ==> m.active_profile_id == Some(
            found.profile_id,
        ),
    ensures
        recognition::reconciled(s, m, product) == m,
{
}

/// When the record loads: where it, or the one at its old place, can be read or there is none; no
/// login file that is to be moved is unreadable; the shared login file can be read, or is missing; and
/// the configuration file is a document, or is missing.
pub proof fn record_loads_whenever_it_can(
    s: CredentialStoreView,
    product: ProductConfigView,
    item: Option<Seq<char>>,
)
    ensures
        ({
            let loaded = metadata::loaded(s, product, item).1;
            let recorded = s.metadata is Value || (s.metadata is Missing && (s.legacy_metadata is Value
                || s.legacy_metadata is Missing));
            let nothing_unreadable = (forall|key: Seq<char>|
                s.legacy_profile_auth.contains_key(key)
                    ==> !(#[trigger] s.legacy_profile_auth[key] is Unreadable)) && (forall|
                home: Seq<char>,
            |
                s.previous_homes.contains_key(home) ==> !((
                #[trigger] s.previous_homes[home]).auth is Unreadable));
            &&& loaded is Ok ==> recorded && !(s.shared_auth is Unreadable) && config::config_entries(
                s.shared_config,
            ) is Ok
            &&& recorded && nothing_unreadable && !(s.shared_auth is Unreadable)
                && config::config_entries(s.shared_config) is Ok ==> loaded is Ok
        }),
{
    if let Ok((found, origin)) = metadata::source(s) {
        let all = metadata::modelled(s, found, origin, product).profiles;
        if (forall|key: Seq<char>|
            s.legacy_profile_auth.contains_key(key)
                ==> !(#[trigger] s.legacy_profile_auth[key] is Unreadable)) && (forall|
            home: Seq<char>,
        |
            s.previous_homes.contains_key(home) ==> !((
            #[trigger] s.previous_homes[home]).auth is Unreadable)) && !(
        s.shared_auth is Unreadable) {
            nothing_stops_moving(s, all);
        }
    }
}

/// Where every file can be read, every login file is moved.
proof fn nothing_stops_moving(s: CredentialStoreView, all: Seq<CredentialProfileView>)
    requires
        forall|key: Seq<char>|
            s.legacy_profile_auth.contains_key(key)
                ==> !(#[trigger] s.legacy_profile_auth[key] is Unreadable),
        forall|home: Seq<char>|
            s.previous_homes.contains_key(home) ==> !((
            #[trigger] s.previous_homes[home]).auth is Unreadable),
        !(s.shared_auth is Unreadable),
    ensures
        loading::logins_migrated(s, all).1 is None,
    decreases all.len(),
{
    if all.len() > 0 {
        nothing_stops_moving(s, all.drop_last());
        loading::migration_keeps_homes(s, all.drop_last());
    }
}

/// Why the record does not load: it cannot be read or does not hold one, a login file that is to be
/// moved or a shared file cannot be read, or the configuration file is no document. Then the shared
/// files and the record are as they were.
pub proof fn unloaded_record_says_why(
    s: CredentialStoreView,
    product: ProductConfigView,
    item: Option<Seq<char>>,
)
    requires
        metadata::loaded(s, product, item).1 is Err,
    ensures
        ({
            let (t, loaded) = metadata::loaded(s, product, item);
            &&& loaded->Err_0 is Unreadable || loaded->Err_0 is Invalid
            &&& t.metadata == s.metadata
            &&& t.legacy_metadata == s.legacy_metadata
            &&& t.shared_auth == s.shared_auth
            &&& t.shared_config == s.shared_config
        }),
{
    laws::loading_keeps_shared_files(s, product, item);
    if let Ok((found, origin)) = metadata::source(s) {
        let all = metadata::modelled(s, found, origin, product).profiles;
        loading::migration_keeps_homes(s, all);
        stopped_by_an_unreadable_file(s, all);
    }
}

/// Moving login files stops only at one that cannot be read.
proof fn stopped_by_an_unreadable_file(s: CredentialStoreView, all: Seq<CredentialProfileView>)
    ensures
        loading::logins_migrated(s, all).1 matches Some(error) ==> error is Unreadable,
    decreases all.len(),
{
    if all.len() > 0 {
        stopped_by_an_unreadable_file(s, all.drop_last());
    }
}

/// Whether the second profile is the first as loading leaves it: the same but for fields that were
/// empty, the state directory and, from an old record, the model.
pub open spec fn same_profile(a: CredentialProfileView, b: CredentialProfileView) -> bool {
    &&& a.profile_id.len() > 0 ==> b.profile_id == a.profile_id
    &&& b.kind == a.kind
    &&& a.kind == AuthProfileKind::Baijimu ==> b.workspace_id == a.workspace_id
    &&& b.workspace_name == a.workspace_name
    &&& a.name.len() > 0 ==> b.name == a.name
    &&& a.environment.len() > 0 ==> b.environment == a.environment
    &&& b.user_id == a.user_id
    &&& b.client_id == a.client_id
    &&& b.activated_at_epoch_seconds == a.activated_at_epoch_seconds
    &&& b.credential_status == a.credential_status
}

/// The profiles of a record that is brought up to date are those that were found, each at its place.
proof fn updated_profiles_are_the_found(
    s: CredentialStoreView,
    found: CredentialMetadataView,
    origin: Origin,
    product: ProductConfigView,
)
    ensures
        ({
            let b = metadata::updated(s, found, origin, product);
            &&& b.profiles.len() == found.profiles.len()
            &&& forall|i: int|
                0 <= i < b.profiles.len() ==> same_profile(
                    found.profiles[i],
                    #[trigger] b.profiles[i],
                ) && b.profiles[i].model == if found.version < 12 {
                    product.default_model
                } else {
                    found.profiles[i].model
                }
        }),
{
}

/// Whether none of the profiles is personal.
pub open spec fn no_personal(all: Seq<CredentialProfileView>) -> bool {
    forall|i: int| 0 <= i < all.len() ==> (#[trigger] all[i]).kind != AuthProfileKind::Personal
}

/// What loading adds to the profiles: the personal one, where there is none.
proof fn loading_adds_one_at_most(
    s: CredentialStoreView,
    product: ProductConfigView,
    item: Option<Seq<char>>,
) -> (added: CredentialProfileView)
    requires
        metadata::loaded(s, product, item).1 is Ok,
    ensures
        ({
            let (found, origin) = metadata::source(s)->Ok_0;
            let before = metadata::updated(s, found, origin, product).profiles;
            let after = metadata::loaded(s, product, item).1->Ok_0.profiles;
            &&& added.kind == AuthProfileKind::Personal
            &&& added.profile_id == ORIGINAL_PROFILE_ID@
            &&& after.len() == before.len() + if no_personal(before) {
                1int
            } else {
                0
            }
            &&& forall|x: CredentialProfileView| #[trigger]
                after.contains(x) <==> before.contains(x) || (no_personal(before) && x == added)
        }),
{
    let (found, origin) = metadata::source(s)->Ok_0;
    let a = metadata::modelled(s, found, origin, product);
    let l = loading::logins_migrated(s, a.profiles).0;
    let b = metadata::updated(s, found, origin, product);
    let (u, c) = metadata::with_original(l, b, product, item);
    let q = profiles::of_kind(AuthProfileKind::Personal);
    let m = metadata::loaded(s, product, item).1->Ok_0;
    assert(m.profiles == recognition::chatgpt_recorded(u, c, product).profiles);
    let none = no_personal(b.profiles);
    if none {
        assert forall|i: int| 0 <= i < b.profiles.len() implies !q(#[trigger] b.profiles[i]) by {
            assert(b.profiles[i].kind != AuthProfileKind::Personal);
        }
        profiles::first_where_none(b.profiles, q);
    } else {
        let i = choose|i: int|
            0 <= i < b.profiles.len() && (#[trigger] b.profiles[i]).kind
                == AuthProfileKind::Personal;
        assert(q(b.profiles[i]));
        laws::found_where_it_holds(b.profiles, q, i);
    }
    let added = if recognition::finds_original(l, b) {
        recognition::personal_profile(
            "安装前授权备份"@,
            product.default_model,
            l.shared_home.text,
            recognition::found_status(l.shared_auth),
        )
    } else {
        recognition::personal_profile(
            "ChatGPT 登录"@,
            product.default_model,
            u.shared_home.text,
            "login_required"@,
        )
    };
    let list = b.profiles.push(added);
    if none {
        if recognition::finds_original(l, b) {
            laws::personal_is_found(b.profiles, added);
        }
        assert(m.profiles == profiles::sorted(list));
        laws::sorting_keeps_members(list);
        assert forall|x: CredentialProfileView| #[trigger] m.profiles.contains(x) implies (
        b.profiles.contains(x) || x == added) by {
            assert(list.contains(x));
            let k = choose|k: int| 0 <= k < list.len() && list[k] == x;
            if k < b.profiles.len() {
                assert(b.profiles[k] == x);
            }
        }
        assert forall|x: CredentialProfileView| b.profiles.contains(x) || x == added implies
            #[trigger] m.profiles.contains(x) by {
            if b.profiles.contains(x) {
                let k = choose|k: int| 0 <= k < b.profiles.len() && b.profiles[k] == x;
                assert(list[k] == x);
            } else {
                assert(list[list.len() - 1] == added);
            }
            assert(list.contains(x));
        }
    } else {
        assert(m.profiles == b.profiles);
    }
    added
}

/// Loading loses no profile and adds none but a personal one: every profile that was found is in the
/// loaded record, with the model that it had, or the default one where the record is older; every
/// loaded profile is one that was found, or the personal one that loading adds, which it does only
/// where none was found.
pub proof fn loading_keeps_the_profiles(
    s: CredentialStoreView,
    product: ProductConfigView,
    item: Option<Seq<char>>,
)
    requires
        metadata::loaded(s, product, item).1 is Ok,
    ensures
        ({
            let found = metadata::source(s)->Ok_0.0;
            let m = metadata::loaded(s, product, item).1->Ok_0;
            let none = forall|i: int|
                0 <= i < found.profiles.len() ==> (#[trigger] found.profiles[i]).kind
                    != AuthProfileKind::Personal;
            &&& m.profiles.len() == found.profiles.len() + if none {
                1int
            } else {
                0
            }
            &&& forall|i: int|
                0 <= i < found.profiles.len() ==> exists|j: int|
                    0 <= j < m.profiles.len() && same_profile(
                        #[trigger] found.profiles[i],
                        #[trigger] m.profiles[j],
                    ) && m.profiles[j].model == if found.version < 12 {
                        product.default_model
                    } else {
                        found.profiles[i].model
                    }
            &&& forall|j: int|
                0 <= j < m.profiles.len() ==> (exists|i: int|
                    0 <= i < found.profiles.len() && same_profile(
                        #[trigger] found.profiles[i],
                        #[trigger] m.profiles[j],
                    )) || (none && m.profiles[j].kind == AuthProfileKind::Personal
                    && m.profiles[j].profile_id == ORIGINAL_PROFILE_ID@)
        }),
{
    let (found, origin) = metadata::source(s)->Ok_0;
    let b = metadata::updated(s, found, origin, product);
    let m = metadata::loaded(s, product, item).1->Ok_0;
    updated_profiles_are_the_found(s, found, origin, product);
    let added = loading_adds_one_at_most(s, product, item);
    let none = forall|i: int|
        0 <= i < found.profiles.len() ==> (#[trigger] found.profiles[i]).kind
            != AuthProfileKind::Personal;
    assert(none <==> no_personal(b.profiles)) by {
        if no_personal(b.profiles) {
            assert forall|i: int| 0 <= i < found.profiles.len() implies (
            #[trigger] found.profiles[i]).kind != AuthProfileKind::Personal by {
                assert(same_profile(found.profiles[i], b.profiles[i]));
            }
        } else {
            let i = choose|i: int|
                0 <= i < b.profiles.len() && (#[trigger] b.profiles[i]).kind
                    == AuthProfileKind::Personal;
            assert(found.profiles[i].kind == AuthProfileKind::Personal);
        }
    }
    assert forall|i: int| 0 <= i < found.profiles.len() implies exists|j: int|
        0 <= j < m.profiles.len() && same_profile(
            #[trigger] found.profiles[i],
            #[trigger] m.profiles[j],
        ) && m.profiles[j].model == if found.version < 12 {
            product.default_model
        } else {
            found.profiles[i].model
        } by {
        assert(b.profiles.contains(b.profiles[i]));
        assert(m.profiles.contains(b.profiles[i]));
        let j = choose|j: int| 0 <= j < m.profiles.len() && m.profiles[j] == b.profiles[i];
        assert(same_profile(found.profiles[i], m.profiles[j]));
    }
    assert forall|j: int| 0 <= j < m.profiles.len() implies (exists|i: int|
        0 <= i < found.profiles.len() && same_profile(
            #[trigger] found.profiles[i],
            #[trigger] m.profiles[j],
        )) || (none && m.profiles[j].kind == AuthProfileKind::Personal && m.profiles[j].profile_id
        == ORIGINAL_PROFILE_ID@) by {
        assert(m.profiles.contains(m.profiles[j]));
        if b.profiles.contains(m.profiles[j]) {
            let i = choose|i: int| 0 <= i < b.profiles.len() && b.profiles[i] == m.profiles[j];
            assert(same_profile(found.profiles[i], m.profiles[j]));
        }
    }
}

/// A login that was there before and is no workspace's is kept: where no personal profile was found,
/// and the shared login file is neither the stored one of a workspace profile nor holds its key, it
/// is stored for the personal profile that loading adds, and that profile is the one in effect unless
/// the shared files are recognized as another.
pub proof fn login_found_at_installation_is_kept(
    s: CredentialStoreView,
    product: ProductConfigView,
    item: Option<Seq<char>>,
    live: Seq<u8>,
)
    requires
        metadata::loaded(s, product, item).1 is Ok,
        s.shared_auth == FileReadView::Content(live),
        ({
            let (found, origin) = metadata::source(s)->Ok_0;
            let a = metadata::modelled(s, found, origin, product);
            let l = loading::logins_migrated(s, a.profiles).0;
            forall|i: int|
                0 <= i < a.profiles.len() ==> (#[trigger] a.profiles[i]).kind
                    == AuthProfileKind::Baijimu && ({
                    let place = identity::short_key(a.profiles[i].profile_id);
                    l.profile_auth.contains_key(place) ==> (
                    l.profile_auth[place] matches FileReadView::Content(archived) ==> archived
                        != live && (auth::api_key(archived) is None || auth::api_key(archived)
                        != auth::api_key(live)))
                })
        }),
    ensures
        ({
            let (t, loaded) = metadata::loaded(s, product, item);
            let m = loaded->Ok_0;
            let key = identity::short_key(ORIGINAL_PROFILE_ID@);
            &&& t.profile_auth.contains_key(key) && t.profile_auth[key] == FileReadView::Content(live)
            &&& t.profile_config.contains_key(key) && t.profile_config[key] is Value
            &&& exists|i: int|
                0 <= i < m.profiles.len() && (#[trigger] m.profiles[i]).kind
                    == AuthProfileKind::Personal && m.profiles[i].profile_id
                    == ORIGINAL_PROFILE_ID@
            &&& recognition::recognized(t, m, product) is None ==> m.active_profile_id == Some(
                ORIGINAL_PROFILE_ID@,
            ) && m.active_mode == AuthMode::Chatgpt
        }),
{
    let (found, origin) = metadata::source(s)->Ok_0;
    let a = metadata::modelled(s, found, origin, product);
    let l = loading::logins_migrated(s, a.profiles).0;
    let b = metadata::updated(s, found, origin, product);
    let (t, loaded) = metadata::loaded(s, product, item);
    let m = loaded->Ok_0;
    let q = profiles::of_kind(AuthProfileKind::Personal);
    loading::migration_keeps_homes(s, a.profiles);
    assert(b.profiles.len() == a.profiles.len());
    assert forall|i: int| 0 <= i < b.profiles.len() implies !q(#[trigger] b.profiles[i])
        && !recognition::archives(l, b.profiles[i], live) by {
        assert(a.profiles[i].kind == AuthProfileKind::Baijimu);
        assert(b.profiles[i].profile_id == a.profiles[i].profile_id);
        assert(b.profiles[i].kind == a.profiles[i].kind);
    }
    profiles::first_where_none(b.profiles, q);
    assert(!recognition::is_archived(l, b.profiles, live));
    assert(recognition::finds_original(l, b));
    let added = recognition::personal_profile(
        "安装前授权备份"@,
        product.default_model,
        l.shared_home.text,
        recognition::found_status(l.shared_auth),
    );
    let list = b.profiles.push(added);
    laws::personal_is_found(b.profiles, added);
    laws::sorting_keeps_members(list);
    assert(list[list.len() - 1] == added);
    assert(list.contains(added));
    assert(m.profiles == profiles::sorted(list));
    assert(m.profiles.contains(added));
    let k = choose|k: int| 0 <= k < m.profiles.len() && m.profiles[k] == added;
    assert(m.profiles[k].kind == AuthProfileKind::Personal);
    let (u, c) = metadata::with_original(l, b, product, item);
    let v = metadata::recognized_store(l, b, product, item);
    let d = recognition::chatgpt_recorded(u, c, product);
    assert(d == c);
    assert(recognition::recognized(v, m, product) == recognition::recognized(v, d, product));
    reloading::recognition_ignores_the_record(v, t, m, product);
}

/// A personal profile can always be chosen: the first one of a loaded record has stored settings.
pub proof fn personal_profile_has_settings(
    s: CredentialStoreView,
    product: ProductConfigView,
    item: Option<Seq<char>>,
)
    requires
        metadata::loaded(s, product, item).1 is Ok,
    ensures
        ({
            let (t, loaded) = metadata::loaded(s, product, item);
            let m = loaded->Ok_0;
            exists|i: int|
                0 <= i < m.profiles.len() && (#[trigger] m.profiles[i]).kind
                    == AuthProfileKind::Personal && ({
                    let key = identity::short_key(m.profiles[i].profile_id);
                    t.profile_config.contains_key(key) && !(t.profile_config[key] is Missing)
                })
        }),
{
    let (t, loaded) = metadata::loaded(s, product, item);
    let m = loaded->Ok_0;
    let (found, origin) = metadata::source(s)->Ok_0;
    let a = metadata::modelled(s, found, origin, product);
    let l = loading::logins_migrated(s, a.profiles).0;
    let b = metadata::updated(s, found, origin, product);
    let v = metadata::recognized_store(l, b, product, item);
    loading::migration_keeps_homes(s, a.profiles);
    laws::loaded_record_is_current(s, product, item);
    reloading::updated_is_in_place(s, found, origin, product);
    reloading::same_homes(s, l);
    assert(reloading::all_in_place(l, b.profiles)) by {
        assert forall|i: int| 0 <= i < b.profiles.len() implies reloading::in_place(
            l,
            #[trigger] b.profiles[i],
        ) by {
            assert(reloading::in_place(s, b.profiles[i]));
        }
    }
    reloading::recognition_is_settled(l, b, product, item);
    reloading::recognition_ignores_the_record(v, t, m, product);
    let q = profiles::of_kind(AuthProfileKind::Personal);
    profiles::first_where_is_found(m.profiles, q);
    let profile = profiles::first_where(m.profiles, q)->0;
    let i = choose|i: int| 0 <= i < m.profiles.len() && m.profiles[i] == profile;
    assert(m.profiles[i].kind == AuthProfileKind::Personal);
}

/// A workspace profile without a stored login file gets the one from its old place, or else that of
/// its state directory, byte for byte; one that is stored stays.
pub proof fn logins_are_moved_to_their_place(
    s: CredentialStoreView,
    all: Seq<CredentialProfileView>,
    i: int,
)
    requires
        0 <= i < all.len(),
        all[i].kind == AuthProfileKind::Baijimu,
        loading::logins_migrated(s, all).1 is None,
        forall|j: int|
            0 <= j < i ==> identity::short_key((#[trigger] all[j]).profile_id)
                != identity::short_key(all[i].profile_id),
    ensures
        ({
            let t = loading::logins_migrated(s, all).0;
            let key = identity::short_key(all[i].profile_id);
            let stored = s.profile_auth.contains_key(key) && !(s.profile_auth[key] is Missing);
            let legacy = if s.legacy_profile_auth.contains_key(key) {
                s.legacy_profile_auth[key]
            } else {
                FileReadView::Missing
            };
            let shared = all[i].codex_home == s.shared_home.text;
            &&& stored ==> t.profile_auth.contains_key(key) && t.profile_auth[key]
                == s.profile_auth[key]
            &&& !stored && legacy is Content ==> t.profile_auth.contains_key(key)
                && t.profile_auth[key] == legacy
            &&& !stored && legacy is Missing && shared && s.shared_auth is Content
                ==> t.profile_auth.contains_key(key) && t.profile_auth[key] == s.shared_auth
            &&& !stored && legacy is Missing && !shared && s.previous_homes.contains_key(
                all[i].codex_home,
            ) && s.previous_homes[all[i].codex_home].path.components != s.shared_home.components
                && s.previous_homes[all[i].codex_home].auth is Content
                ==> t.profile_auth.contains_key(key) && t.profile_auth[key]
                == s.previous_homes[all[i].codex_home].auth
        }),
    decreases all.len(),
{
    let front = all.drop_last();
    let key = identity::short_key(all[i].profile_id);
    loading::migration_keeps_homes(s, front);
    if i < all.len() - 1 {
        assert forall|j: int| 0 <= j < i implies identity::short_key((#[trigger] front[j]).profile_id)
            != identity::short_key(front[i].profile_id) by {
            assert(front[j] == all[j]);
        }
        logins_are_moved_to_their_place(s, front, i);
    } else {
        assert forall|j: int| 0 <= j < front.len() implies identity::short_key(
            (#[trigger] front[j]).profile_id,
        ) != key by {
            assert(front[j] == all[j]);
        }
        others_do_not_touch(s, front, key);
    }
}

/// Moving login files of profiles with other keys does not touch what is stored under a key.
proof fn others_do_not_touch(
    s: CredentialStoreView,
    all: Seq<CredentialProfileView>,
    key: Seq<char>,
)
    requires
        forall|j: int|
            0 <= j < all.len() ==> identity::short_key((#[trigger] all[j]).profile_id) != key,
    ensures
        loading::logins_migrated(s, all).0.profile_auth.contains_key(key)
            == s.profile_auth.contains_key(key),
        loading::logins_migrated(s, all).0.profile_auth[key] == s.profile_auth[key],
    decreases all.len(),
{
    if all.len() > 0 {
        let front = all.drop_last();
        assert forall|j: int| 0 <= j < front.len() implies identity::short_key(
            (#[trigger] front[j]).profile_id,
        ) != key by {
            assert(front[j] == all[j]);
        }
        others_do_not_touch(s, front, key);
        assert(all[all.len() - 1] == all.last());
    }
}

/// What a loaded record notes of the user-level setting: what was noted before stays; else a setting
/// that points to a directory of its own is noted, and one into a managed directory, or none, is noted
/// as unset.
pub proof fn user_level_setting_is_noted_once(s: CredentialStoreView, m: CredentialMetadataView)
    ensures
        ({
            let after = loading::home_captured(s, m);
            &&& after.original_codex_home_state.captured
            &&& m.original_codex_home_state.captured ==> after == m
            &&& !m.original_codex_home_state.captured ==> after.original_codex_home_state.value
                == match s.external_home {
                Some(path) => if (s.managed_root.components.len() <= path.components.len()
                    && path.components.take(s.managed_root.components.len() as int)
                    == s.managed_root.components) || (s.legacy_managed_root.components.len()
                    <= path.components.len() && path.components.take(
                    s.legacy_managed_root.components.len() as int,
                ) == s.legacy_managed_root.components) {
                    None
                } else {
                    Some(path.text)
                },
                None => None,
            }
            &&& after == (CredentialMetadataView {
                original_codex_home_state: after.original_codex_home_state,
                ..m
            })
        }),
{
}

/// A profile that the first version named by its workspace only is named by its identity: the first
/// profile with that workspace. Nothing else is changed, and nothing at all in a later record or in
/// one that names a profile.
pub proof fn first_version_is_understood(m: CredentialMetadataView, previous: u32)
    ensures
        ({
            let after = loading::first_selection(m, previous);
            let asks = previous < 2 && m.active_profile_id is None && m.active_workspace_id is Some;
            let named = exists|i: int|
                0 <= i < m.profiles.len() && Some((#[trigger] m.profiles[i]).workspace_id)
                    == m.active_workspace_id;
            &&& !(asks && named) ==> after == m
            &&& asks && named ==> after.active_mode == AuthMode::Baijimu && (exists|i: int|
                0 <= i < m.profiles.len() && after.active_profile_id == Some(
                    (#[trigger] m.profiles[i]).profile_id,
                ) && Some(m.profiles[i].workspace_id) == m.active_workspace_id)
            &&& after == (CredentialMetadataView {
                active_profile_id: after.active_profile_id,
                active_mode: after.active_mode,
                ..m
            })
        }),
{
    if let Some(workspace) = m.active_workspace_id {
        let p = profiles::with_workspace(workspace);
        if exists|i: int|
            0 <= i < m.profiles.len() && Some((#[trigger] m.profiles[i]).workspace_id)
                == m.active_workspace_id {
            let i = choose|i: int|
                0 <= i < m.profiles.len() && Some((#[trigger] m.profiles[i]).workspace_id)
                    == m.active_workspace_id;
            assert(p(m.profiles[i]));
            laws::found_where_it_holds(m.profiles, p, i);
            profiles::first_where_is_found(m.profiles, p);
            let found = profiles::first_where(m.profiles, p)->0;
            let k = choose|k: int| 0 <= k < m.profiles.len() && m.profiles[k] == found;
            assert(m.profiles[k].workspace_id == workspace);
        } else {
            profiles::first_where_none(m.profiles, p);
        }
    }
}

} // verus!
