//! When a profile can be put in effect, and what that leaves, in terms of the files and the record.
use crate::credential::activation;
use crate::credential::activation::SwitchTexts;
use crate::credential::auth;
use crate::credential::config;
use crate::credential::contract::{
    AuthMode, AuthProfileKind, CredentialMetadataView, CredentialProfileView,
};
use crate::credential::errors::{CredentialError, FileRole, SwitchFault};
use crate::credential::files::FileReadView;
use crate::credential::identity;
use crate::credential::laws;
use crate::credential::operations;
use crate::credential::profiles;
use crate::credential::store::{CredentialStoreView, Stored};
use crate::json_compat;
use crate::product_config::ProductConfigView;
use crate::text;
use crate::toml_document as toml;
use vstd::prelude::*;

verus! {

/// Whether the first profile with the identity is at this place.
pub open spec fn stands_first(
    all: Seq<CredentialProfileView>,
    id: Seq<char>,
    at: int,
) -> bool {
    &&& 0 <= at < all.len()
    &&& all[at].profile_id == id
    &&& forall|j: int| 0 <= j < at ==> (#[trigger] all[j]).profile_id != id
}

/// The profile at the first place of its identity is the one that is found by it.
pub proof fn first_is_found(all: Seq<CredentialProfileView>, id: Seq<char>, at: int)
    requires
        stands_first(all, id, at),
    ensures
        profiles::first_where(all, profiles::with_id(id)) == Some(all[at]),
{
    profiles::first_where_at(all, profiles::with_id(id), at);
}

/// Where an identity is in the list, there is a first place of it.
pub proof fn some_stands_first(all: Seq<CredentialProfileView>, id: Seq<char>) -> (at: int)
    requires
        exists|i: int| 0 <= i < all.len() && (#[trigger] all[i]).profile_id == id,
    ensures
        stands_first(all, id, at),
    decreases all.len(),
{
    let i = choose|i: int| 0 <= i < all.len() && (#[trigger] all[i]).profile_id == id;
    let front = all.drop_last();
    if exists|k: int| 0 <= k < front.len() && (#[trigger] front[k]).profile_id == id {
        let at = some_stands_first(front, id);
        assert forall|j: int| 0 <= j < at implies (#[trigger] all[j]).profile_id != id by {
            assert(front[j] == all[j]);
        }
        at
    } else {
        assert forall|j: int| 0 <= j < all.len() - 1 implies (#[trigger] all[j]).profile_id
            != id by {
            assert(front[j] == all[j]);
        }
        all.len() - 1
    }
}

/// Whether the bytes are a JSON document with a string at the path that is more than white space.
pub open spec fn says(bytes: Seq<u8>, path: Seq<Seq<char>>) -> bool {
    json_compat::json_read(json_compat::without_bom(bytes)) matches Some(texts)
        && texts.contains_key(path) && exists|i: int|
        0 <= i < texts[path].len() && !text::white_space(#[trigger] texts[path][i])
}

/// Whether the bytes are a login file that a profile of the kind can use: one with a key, or, for a
/// personal profile, one with a key or an access token.
pub open spec fn logs_in(bytes: Seq<u8>, kind: AuthProfileKind) -> bool {
    ||| says(bytes, seq!["OPENAI_API_KEY"@])
    ||| kind == AuthProfileKind::Personal && says(bytes, seq!["tokens"@, "access_token"@])
}

/// A login file is of use to a workspace profile exactly where it holds a key, and to a personal one
/// exactly where it holds a key or an access token.
pub proof fn usable_logins_hold_a_login(bytes: Seq<u8>, kind: AuthProfileKind)
    ensures
        auth::usable(bytes, kind) == logs_in(bytes, kind),
        auth::api_key(bytes) is Some <==> says(bytes, seq!["OPENAI_API_KEY"@]),
        auth::configured(bytes) == logs_in(bytes, AuthProfileKind::Personal),
{
    if let Some(texts) = json_compat::json_read(json_compat::without_bom(bytes)) {
        text::blank_is_white(texts[seq!["OPENAI_API_KEY"@]]);
        text::blank_is_white(texts[seq!["tokens"@, "access_token"@]]);
    }
}

/// The key that is read from a login file is the string under its name, without white space around
/// it.
pub proof fn key_is_the_trimmed_string(bytes: Seq<u8>)
    requires
        says(bytes, seq!["OPENAI_API_KEY"@]),
    ensures
        auth::api_key(bytes) == Some(
            text::trimmed(
                json_compat::json_read(json_compat::without_bom(bytes))->0[seq!["OPENAI_API_KEY"@]],
            ),
        ),
{
    usable_logins_hold_a_login(bytes, AuthProfileKind::Baijimu);
}

/// Whether what the shared login file holds can be kept for the profile in effect: for a workspace
/// profile it is there and holds the stored key, for a personal one it holds a login or is missing.
pub open spec fn login_is_own(s: CredentialStoreView, active: CredentialProfileView) -> bool {
    let key = identity::short_key(active.profile_id);
    match s.shared_auth {
        FileReadView::Unreadable => false,
        FileReadView::Missing => active.kind == AuthProfileKind::Personal,
        FileReadView::Content(live) => match active.kind {
            AuthProfileKind::Personal => logs_in(live, AuthProfileKind::Personal),
            AuthProfileKind::Baijimu => logs_in(live, AuthProfileKind::Baijimu)
                && s.profile_auth.contains_key(key) && (s.profile_auth[key] matches FileReadView::Content(
                archived,
            ) && auth::api_key(archived) == auth::api_key(live)),
        },
    }
}

/// Whether the stored settings of a personal profile can be put back: they were stored, and a
/// provider kept with them is a document that holds it.
pub open spec fn settings_can_be_put_back(
    provider: Option<Seq<char>>,
    product: ProductConfigView,
) -> bool {
    provider matches Some(kept) ==> (toml::toml_read(kept) matches Some(entries)
        && entries.contains_key(seq!["model_providers"@, product.router_provider]))
}

/// When a switch succeeds: exactly where the stored login file of the profile is of use to it (a
/// personal profile may have none), both shared files can be read, what is in effect is that of the
/// profile in effect, the configuration file is a document, and, for a personal profile, there are
/// settings to put back. Which profile is in effect makes no other difference.
#[verifier::rlimit(40)]
pub proof fn switch_succeeds_whenever_it_can(
    s: CredentialStoreView,
    m: CredentialMetadataView,
    id: Seq<char>,
    now: u64,
    product: ProductConfigView,
    texts: SwitchTexts,
    at: int,
)
    requires
        stands_first(m.profiles, id, at),
    ensures
        activation::switch_outcome(s, m, id, now, product, texts).1 is Ok <==> ({
            let key = identity::short_key(id);
            let kind = m.profiles[at].kind;
            &&& if s.profile_auth.contains_key(key) && !(s.profile_auth[key] is Missing) {
                s.profile_auth[key] matches FileReadView::Content(bytes) && logs_in(bytes, kind)
            } else {
                kind == AuthProfileKind::Personal
            }
            &&& !(s.shared_auth is Unreadable)
            &&& !(s.shared_config is Unreadable)
            &&& config::config_entries(s.shared_config) is Ok
            &&& forall|i: int|
                m.active_profile_id is Some && #[trigger] stands_first(
                    m.profiles,
                    m.active_profile_id->0,
                    i,
                ) ==> login_is_own(s, m.profiles[i])
            &&& kind == AuthProfileKind::Personal ==> if exists|i: int|
                m.active_profile_id is Some && #[trigger] stands_first(
                    m.profiles,
                    m.active_profile_id->0,
                    i,
                ) && m.profiles[i].kind == AuthProfileKind::Personal && identity::short_key(
                    m.profiles[i].profile_id,
                ) == key {
                settings_can_be_put_back(texts.item, product)
            } else {
                s.profile_config.contains_key(key) && (s.profile_config[key] matches Stored::Value(
                    snapshot,
                ) && settings_can_be_put_back(snapshot.router_provider_item, product))
            }
        }),
{
    let all = m.profiles;
    let profile = all[at];
    let key = identity::short_key(id);
    first_is_found(all, id, at);
    if let FileReadView::Content(bytes) = s.profile_auth[key] {
        usable_logins_hold_a_login(bytes, profile.kind);
    }
    laws::checkpoint_keeps_shared_files(s, m, texts.item);
    if let FileReadView::Content(live) = s.shared_auth {
        usable_logins_hold_a_login(live, AuthProfileKind::Personal);
        usable_logins_hold_a_login(live, AuthProfileKind::Baijimu);
    }
    if let Some(current) = m.active_profile_id {
        if profiles::first_where(all, profiles::with_id(current)) is Some {
            profiles::first_where_is_found(all, profiles::with_id(current));
            let found = profiles::first_where(all, profiles::with_id(current))->0;
            let k = choose|k: int| 0 <= k < all.len() && all[k] == found;
            assert(all[k].profile_id == current);
            let i = some_stands_first(all, current);
            first_is_found(all, current, i);
            assert forall|j: int| #[trigger] stands_first(all, current, j) implies j == i by {
                if j < i {
                    assert(all[j].profile_id != current);
                }
                if i < j {
                    assert(all[i].profile_id != current);
                }
            }
            assert(activation::active_profile(m) == Some(all[i]));
            assert(stands_first(all, current, i));
            assert((activation::login_fault(s, all[i]) is None) == login_is_own(s, all[i]));
        } else {
            assert forall|j: int| !#[trigger] stands_first(all, current, j) by {
                if stands_first(all, current, j) {
                    first_is_found(all, current, j);
                }
            }
        }
    }
}

/// Why a switch does not succeed, and what it then leaves: there is no such profile, or its stored
/// login file cannot be read or is of no use to it, or a shared file cannot be read, and nothing is
/// touched; or the switch stopped on its way, and the shared files are what they were.
pub proof fn refused_switch_says_why(
    s: CredentialStoreView,
    m: CredentialMetadataView,
    id: Seq<char>,
    now: u64,
    product: ProductConfigView,
    texts: SwitchTexts,
)
    ensures
        ({
            let (t, outcome) = activation::switch_outcome(s, m, id, now, product, texts);
            let key = identity::short_key(id);
            &&& outcome == Err::<CredentialMetadataView, CredentialError>(
                CredentialError::PreparedProfileGone,
            ) <==> forall|i: int|
                0 <= i < m.profiles.len() ==> (#[trigger] m.profiles[i]).profile_id != id
            &&& forall|at: int| #[trigger]
                stands_first(m.profiles, id, at) ==> (outcome == Err::<
                    CredentialMetadataView,
                    CredentialError,
                >(CredentialError::ProfileContentInvalid) <==> if s.profile_auth.contains_key(key)
                    && !(s.profile_auth[key] is Missing) {
                    s.profile_auth[key] matches FileReadView::Content(bytes) && !logs_in(
                        bytes,
                        m.profiles[at].kind,
                    )
                } else {
                    m.profiles[at].kind == AuthProfileKind::Baijimu
                })
            &&& outcome is Err && !(outcome->Err_0 is SwitchFailed) ==> t == s
            &&& outcome is Err ==> t.shared_auth == s.shared_auth && t.shared_config
                == s.shared_config
        }),
{
    let all = m.profiles;
    let (t, outcome) = activation::switch_outcome(s, m, id, now, product, texts);
    let key = identity::short_key(id);
    if exists|i: int| 0 <= i < all.len() && (#[trigger] all[i]).profile_id == id {
        let at = some_stands_first(all, id);
        first_is_found(all, id, at);
        if let FileReadView::Content(bytes) = s.profile_auth[key] {
            usable_logins_hold_a_login(bytes, all[at].kind);
        }
        assert forall|j: int| #[trigger] stands_first(all, id, j) implies j == at by {
            if j < at {
                assert(all[j].profile_id != id);
            }
            if at < j {
                assert(all[at].profile_id != id);
            }
        }
    } else {
        profiles::first_where_none(all, profiles::with_id(id));
    }
    if activation::target_error(s, m, id) is None {
        let profile = profiles::first_where(all, profiles::with_id(id))->0;
        let end = activation::switched(s, m, profile, now, product, texts).0;
        if outcome is Err {
            laws::undoing_restores(end, s.shared_auth, s.shared_config, m);
        }
    }
}

/// What a switch that succeeds leaves of the shared files and the record: the login file stored for
/// the profile is the shared one; the record names the profile, a workspace of its own only for a
/// workspace profile, and the time on the profile; everything else in it is as it was.
pub proof fn switched_record_names_the_profile(
    s: CredentialStoreView,
    m: CredentialMetadataView,
    id: Seq<char>,
    now: u64,
    product: ProductConfigView,
    texts: SwitchTexts,
    at: int,
)
    requires
        stands_first(m.profiles, id, at),
        activation::switch_outcome(s, m, id, now, product, texts).1 is Ok,
    ensures
        ({
            let (t, outcome) = activation::switch_outcome(s, m, id, now, product, texts);
            let r = outcome->Ok_0;
            let key = identity::short_key(id);
            let workspace = m.profiles[at].kind == AuthProfileKind::Baijimu;
            &&& t.shared_auth == if s.profile_auth.contains_key(key) {
                s.profile_auth[key]
            } else {
                FileReadView::Missing
            }
            &&& t.metadata == Stored::Value(r)
            &&& r.active_profile_id == Some(id)
            &&& workspace ==> r.active_mode == AuthMode::Baijimu && r.active_workspace_id == Some(
                m.profiles[at].workspace_id,
            )
            &&& !workspace ==> r.active_mode == AuthMode::Chatgpt && r.active_workspace_id is None
            &&& r.profiles.len() == m.profiles.len()
            &&& forall|i: int|
                0 <= i < m.profiles.len() ==> #[trigger] r.profiles[i] == if m.profiles[i].profile_id
                    == id {
                    CredentialProfileView { activated_at_epoch_seconds: now, ..m.profiles[i] }
                } else {
                    m.profiles[i]
                }
            &&& r == (CredentialMetadataView {
                profiles: r.profiles,
                active_mode: r.active_mode,
                active_profile_id: r.active_profile_id,
                active_workspace_id: r.active_workspace_id,
                ..m
            })
        }),
{
    first_is_found(m.profiles, id, at);
    laws::switch_puts_profile_in_effect(s, m, id, now, product, texts);
}

/// What was in effect is kept for its profile before another takes its place: the shared login file
/// byte for byte, and for a personal profile the four settings at the top of the configuration file.
pub proof fn switched_away_profile_is_kept(
    s: CredentialStoreView,
    m: CredentialMetadataView,
    id: Seq<char>,
    now: u64,
    product: ProductConfigView,
    texts: SwitchTexts,
    active: int,
)
    requires
        m.active_profile_id is Some,
        stands_first(m.profiles, m.active_profile_id->0, active),
        activation::switch_outcome(s, m, id, now, product, texts).1 is Ok,
    ensures
        ({
            let t = activation::switch_outcome(s, m, id, now, product, texts).0;
            let key = identity::short_key(m.active_profile_id->0);
            let entries = config::config_entries(s.shared_config)->Ok_0;
            &&& s.shared_auth is Content ==> t.profile_auth.contains_key(key)
                && t.profile_auth[key] == s.shared_auth
            &&& s.shared_auth is Missing ==> t.profile_auth == s.profile_auth
            &&& forall|other: Seq<char>|
                other != key ==> (#[trigger] t.profile_auth.contains_key(other)
                    == s.profile_auth.contains_key(other) && t.profile_auth[other]
                    == s.profile_auth[other])
            &&& m.profiles[active].kind == AuthProfileKind::Baijimu ==> t.profile_config
                == s.profile_config
            &&& m.profiles[active].kind == AuthProfileKind::Personal
                ==> t.profile_config.contains_key(key) && (t.profile_config[key] matches Stored::Value(
                kept,
            ) && kept.model == toml::text_entry(entries, seq!["model"@]) && kept.model_provider
                == toml::text_entry(entries, seq!["model_provider"@]) && kept.forced_login_method
                == toml::text_entry(entries, seq!["forced_login_method"@])
                && kept.cli_auth_credentials_store == toml::text_entry(
                entries,
                seq!["cli_auth_credentials_store"@],
            ) && kept.router_provider_item == texts.item)
        }),
{
    first_is_found(m.profiles, m.active_profile_id->0, active);
}

/// Without a profile in effect, nothing is kept for any.
pub proof fn switch_from_nothing_keeps_nothing(
    s: CredentialStoreView,
    m: CredentialMetadataView,
    id: Seq<char>,
    now: u64,
    product: ProductConfigView,
    texts: SwitchTexts,
)
    requires
        m.active_profile_id is None,
    ensures
        ({
            let t = activation::switch_outcome(s, m, id, now, product, texts).0;
            t.profile_auth == s.profile_auth && t.profile_config == s.profile_config
        }),
{
}

/// The record that a switch starts from is the loaded one, so that a profile that the loaded record
/// names, with a login file of use to it, is put in effect from any other.
pub proof fn activation_is_a_switch_of_the_loaded_record(
    s: CredentialStoreView,
    id: Seq<char>,
    now: u64,
    product: ProductConfigView,
    item: Option<Seq<char>>,
    texts: SwitchTexts,
)
    ensures
        ({
            let (l, loaded) = crate::credential::metadata::loaded(s, product, item);
            let (t, outcome) = operations::activation_outcome(s, id, now, product, item, texts);
            match loaded {
                Err(error) => t == l && outcome == Err::<CredentialMetadataView, CredentialError>(
                    error,
                ),
                Ok(m) => (t, outcome) == activation::switch_outcome(l, m, id, now, product, texts),
            }
        }),
{
}

/// A switch that failed is undone, and one that succeeded can be: the shared files and the record
/// are then those from before, whatever they were.
pub proof fn undone_switch_is_undone(
    s: CredentialStoreView,
    t: CredentialStoreView,
    m: CredentialMetadataView,
)
    requires
        !(s.shared_auth is Unreadable),
        !(s.shared_config is Unreadable),
    ensures
        ({
            let back = activation::undone(t, s.shared_auth, s.shared_config, m);
            &&& back.shared_auth == s.shared_auth
            &&& back.shared_config == s.shared_config
            &&& back.metadata == Stored::Value(m)
            &&& back.profile_auth == t.profile_auth
            &&& back.profile_config == t.profile_config
            &&& back.ownership == t.ownership
        }),
{
    laws::undoing_restores(t, s.shared_auth, s.shared_config, m);
}

/// When a profile can be prepared for a switch: it is recorded, and a workspace profile has a stored
/// login file that can be read. The profile is the recorded one.
pub proof fn recorded_profiles_can_be_prepared(
    t: CredentialStoreView,
    m: CredentialMetadataView,
    id: Seq<char>,
    at: int,
)
    requires
        stands_first(m.profiles, id, at),
    ensures
        ({
            let key = identity::short_key(id);
            let prepared = operations::preparation(t, m, id);
            &&& prepared is Ok <==> m.profiles[at].kind == AuthProfileKind::Personal || (
            t.profile_auth.contains_key(key) && t.profile_auth[key] is Content)
            &&& prepared matches Ok(profile) ==> profile == m.profiles[at]
        }),
{
    first_is_found(m.profiles, id, at);
}

/// A profile that is not recorded cannot be prepared.
pub proof fn unrecorded_profiles_are_refused(
    t: CredentialStoreView,
    m: CredentialMetadataView,
    id: Seq<char>,
)
    requires
        forall|i: int| 0 <= i < m.profiles.len() ==> (#[trigger] m.profiles[i]).profile_id != id,
    ensures
        operations::preparation(t, m, id) == Err::<CredentialProfileView, CredentialError>(
            CredentialError::ProfileNotFound,
        ),
{
    profiles::first_where_none(m.profiles, profiles::with_id(id));
}

/// Why a switch stopped on its way. Of a workspace profile in effect: its login is gone, is of no use to
/// it, is not stored, cannot be read, or is another than the stored one. Of a personal one: what is there
/// is no login.
pub proof fn login_that_cannot_be_kept_says_why(
    s: CredentialStoreView,
    active: CredentialProfileView,
)
    ensures
        ({
            let fault = activation::login_fault(s, active);
            let workspace = active.kind == AuthProfileKind::Baijimu;
            let key = identity::short_key(active.profile_id);
            let file = if s.profile_auth.contains_key(key) {
                s.profile_auth[key]
            } else {
                FileReadView::Missing
            };
            &&& s.shared_auth is Unreadable ==> fault == Some(
                SwitchFault::Unreadable(FileRole::SharedAuth),
            )
            &&& s.shared_auth is Missing && workspace ==> fault == Some(SwitchFault::LiveAuthMissing)
            &&& s.shared_auth is Missing && !workspace ==> fault is None
            &&& s.shared_auth matches FileReadView::Content(live) ==> {
                &&& !logs_in(live, active.kind) ==> fault == Some(SwitchFault::LiveAuthKindMismatch)
                &&& logs_in(live, active.kind) && !workspace ==> fault is None
                &&& logs_in(live, active.kind) && workspace ==> {
                    &&& file is Missing ==> fault == Some(SwitchFault::ActiveBackupMissing)
                    &&& file is Unreadable ==> fault == Some(
                        SwitchFault::Unreadable(FileRole::ProfileAuth),
                    )
                    &&& file matches FileReadView::Content(kept) ==> {
                        &&& auth::api_key(kept) != auth::api_key(live) ==> fault == Some(
                            SwitchFault::LiveAuthMismatch,
                        )
                        &&& auth::api_key(kept) == auth::api_key(live) ==> fault is None
                    }
                }
            }
        }),
{
    if let FileReadView::Content(live) = s.shared_auth {
        usable_logins_hold_a_login(live, active.kind);
    }
}

/// Why the settings of a profile cannot be put in: the configuration file cannot be read or is no
/// document; the settings of a personal profile are not stored, cannot be read or are none; or the
/// provider that is stored with them is no document or does not hold it.
pub proof fn settings_that_cannot_be_put_in_say_why(
    s: CredentialStoreView,
    profile: CredentialProfileView,
    product: ProductConfigView,
)
    ensures
        ({
            let result = activation::settings_for(s, profile, product);
            let personal = profile.kind == AuthProfileKind::Personal;
            let key = identity::short_key(profile.profile_id);
            let entries = config::config_entries(s.shared_config);
            let stored = s.profile_config.contains_key(key);
            let kept = s.profile_config[key];
            let readable = !personal || (stored && kept is Value);
            &&& personal && (!stored || kept is Missing || kept is Unreadable) ==> result is Err
                && result->Err_0 == SwitchFault::Unreadable(FileRole::ProfileConfig)
            &&& personal && stored && kept is Invalid ==> result is Err && result->Err_0
                == SwitchFault::Invalid(FileRole::ProfileConfig)
            &&& readable && entries is Err && s.shared_config is Unreadable ==> result is Err
                && result->Err_0 == SwitchFault::Unreadable(FileRole::SharedConfig)
            &&& readable && entries is Err && entries->Err_0 == config::ConfigFault::Invalid
                ==> result is Err && result->Err_0 == SwitchFault::Invalid(FileRole::SharedConfig)
            &&& !personal && entries is Ok ==> result is Ok
            &&& personal && readable && entries is Ok ==> {
                let provider = kept->Value_0.router_provider_item;
                &&& settings_can_be_put_back(provider, product) <==> result is Ok
                &&& provider is Some && toml::toml_read(provider->0) is None ==> result->Err_0
                    == SwitchFault::ProviderInvalid
                &&& provider is Some && toml::toml_read(provider->0) is Some
                    && !settings_can_be_put_back(provider, product) ==> result->Err_0
                    == SwitchFault::ProviderMissing
            }
        }),
{
}

} // verus!
