//! Putting a profile in effect: what was in effect is kept, the shared files are switched, and the
//! switch can be undone.
use crate::credential::auth;
use crate::credential::config;
use crate::credential::config::Entries;
use crate::credential::contract;
use crate::credential::contract::{
    AuthProfileKind, CredentialMetadata, CredentialMetadataView, CredentialProfile,
    CredentialProfileView,
};
use crate::credential::errors;
use crate::credential::errors::{CredentialError, FileRole, SwitchFault};
use crate::credential::files::{FileRead, FileReadView};
use crate::credential::identity;
use crate::credential::metadata;
use crate::credential::ownership;
use crate::credential::profiles;
use crate::credential::recognition;
use crate::credential::store;
use crate::credential::store::{CredentialStore, CredentialStoreView, FileWrite, FileWriteView, Stored};
use crate::duplicate::{copy_bytes, same_bytes, Duplicate};
use crate::product_config::{ProductConfig, ProductConfigView};
use crate::text;
use vstd::prelude::*;

verus! {

/// The profile that the record names as the one in effect.
pub open spec fn active_profile(m: CredentialMetadataView) -> Option<CredentialProfileView> {
    match m.active_profile_id {
        Some(id) => profiles::first_where(m.profiles, profiles::with_id(id)),
        None => None,
    }
}

/// What stands in the way of keeping the shared login file for the profile in effect.
pub open spec fn login_fault(
    s: CredentialStoreView,
    active: CredentialProfileView,
) -> Option<SwitchFault> {
    let workspace = active.kind == AuthProfileKind::Baijimu;
    match s.shared_auth {
        FileReadView::Unreadable => Some(SwitchFault::Unreadable(FileRole::SharedAuth)),
        FileReadView::Missing => if workspace {
            Some(SwitchFault::LiveAuthMissing)
        } else {
            None
        },
        FileReadView::Content(live) => if !auth::usable(live, active.kind) {
            Some(SwitchFault::LiveAuthKindMismatch)
        } else if !workspace {
            None
        } else {
            match store::profile_auth_of(s, recognition::key_of(active)) {
                FileReadView::Unreadable => Some(SwitchFault::Unreadable(FileRole::ProfileAuth)),
                FileReadView::Missing => Some(SwitchFault::ActiveBackupMissing),
                FileReadView::Content(archived) => if auth::api_key(archived) != auth::api_key(
                    live,
                ) {
                    Some(SwitchFault::LiveAuthMismatch)
                } else {
                    None
                },
            }
        },
    }
}

/// The store with the shared login file kept for the profile in effect.
pub open spec fn login_kept(
    s: CredentialStoreView,
    active: CredentialProfileView,
) -> CredentialStoreView {
    match s.shared_auth {
        FileReadView::Content(live) => store::written(
            s,
            FileWriteView::ProfileAuth(recognition::key_of(active), live),
        ),
        _ => s,
    }
}

/// The store with what is in effect kept for its profile, or what stood in the way. `item` is the
/// text for the routing provider that is kept with a personal profile.
pub open spec fn checkpointed(
    s: CredentialStoreView,
    m: CredentialMetadataView,
    item: Option<Seq<char>>,
) -> (CredentialStoreView, Option<SwitchFault>) {
    match active_profile(m) {
        None => (s, None),
        Some(active) => if login_fault(s, active) is Some {
            (s, login_fault(s, active))
        } else if active.kind == AuthProfileKind::Baijimu {
            (login_kept(s, active), None)
        } else {
            match config::config_entries(s.shared_config) {
                Err(fault) => (login_kept(s, active), Some(errors::config_switch_fault(fault))),
                Ok(entries) => (
                    store::written(
                        login_kept(s, active),
                        FileWriteView::ProfileConfig(
                            recognition::key_of(active),
                            config::snapshot_with(entries, item),
                        ),
                    ),
                    None,
                ),
            }
        },
    }
}

/// Whether keeping what is in effect includes settings.
pub open spec fn keeps_settings(s: CredentialStoreView, m: CredentialMetadataView) -> bool {
    active_profile(m) matches Some(active) && active.kind == AuthProfileKind::Personal
        && login_fault(s, active) is None && config::config_entries(s.shared_config) is Ok
}

/// The outcome of a step as an option.
pub open spec fn fault_of<T>(res: Result<T, SwitchFault>) -> Option<SwitchFault> {
    match res {
        Ok(_) => None,
        Err(fault) => Some(fault),
    }
}

/// Keeps what is in effect for its profile: the shared login file, and for a personal profile the
/// settings. A login file that is not that of the profile is not kept.
pub fn checkpoint_active_profile(
    credentials: &mut CredentialStore,
    metadata: &CredentialMetadata,
    product: &ProductConfig,
) -> (res: Result<(), SwitchFault>)
    ensures
        exists|item: Option<Seq<char>>|
            #![trigger checkpointed(old(credentials).deep_view(), metadata.deep_view(), item)]
            (keeps_settings(old(credentials).deep_view(), metadata.deep_view())
                ==> config::item_fits(
                item,
                config::config_entries(old(credentials).deep_view().shared_config)->Ok_0,
                product.deep_view(),
            )) && checkpointed(old(credentials).deep_view(), metadata.deep_view(), item) == (
                final(credentials).deep_view(),
                fault_of(res),
            ),
{
    let ghost s = credentials.deep_view();
    let ghost m = metadata.deep_view();
    let ghost none: Option<Seq<char>> = None;
    let active = match &metadata.active_profile_id {
        Some(id) => profiles::find_profile(&metadata.profiles, id.as_str()),
        None => None,
    };
    let active = match active {
        Some(active) => active,
        None => {
            assert(checkpointed(s, m, none) == (s, None::<SwitchFault>));
            return Ok(());
        },
    };
    let key = identity::profile_short_key(active.profile_id.as_str());
    let live = match &credentials.shared_auth {
        FileRead::Unreadable => {
            assert(checkpointed(s, m, none).0 == s);
            return Err(SwitchFault::Unreadable(FileRole::SharedAuth));
        },
        FileRead::Missing => {
            if active.kind == AuthProfileKind::Baijimu {
                assert(checkpointed(s, m, none).0 == s);
                return Err(SwitchFault::LiveAuthMissing);
            }
            None
        },
        FileRead::Content(live) => {
            if !auth::auth_is_usable_for_profile(live, active.kind) {
                assert(checkpointed(s, m, none).0 == s);
                return Err(SwitchFault::LiveAuthKindMismatch);
            }
            if active.kind == AuthProfileKind::Baijimu {
                match credentials.profile_auth_file(key.as_str()) {
                    FileRead::Unreadable => {
                        assert(checkpointed(s, m, none).0 == s);
                        return Err(SwitchFault::Unreadable(FileRole::ProfileAuth));
                    },
                    FileRead::Missing => {
                        assert(checkpointed(s, m, none).0 == s);
                        return Err(SwitchFault::ActiveBackupMissing);
                    },
                    FileRead::Content(archived) => {
                        if !recognition::same_option(
                            &auth::read_codex_api_key_from_bytes(archived),
                            &auth::read_codex_api_key_from_bytes(live),
                        ) {
                            assert(checkpointed(s, m, none).0 == s);
                            return Err(SwitchFault::LiveAuthMismatch);
                        }
                    },
                }
            }
            Some(copy_bytes(live))
        },
    };
    assert(login_fault(s, active.deep_view()) is None);
    if let Some(bytes) = live {
        credentials.write(FileWrite::ProfileAuth(key.clone(), bytes));
    }
    assert(credentials.deep_view() == login_kept(s, active.deep_view()));
    if active.kind == AuthProfileKind::Personal {
        match config::capture_auth_config(&credentials.shared_config, product) {
            Ok(snapshot) => {
                let ghost item = snapshot.deep_view().router_provider_item;
                credentials.write(FileWrite::ProfileConfig(key, snapshot));
                assert(checkpointed(s, m, item) == (credentials.deep_view(), None::<SwitchFault>));
            },
            Err(fault) => {
                assert(checkpointed(s, m, none).0 == credentials.deep_view());
                return Err(errors::switch_fault(fault));
            },
        }
    } else {
        assert(checkpointed(s, m, none) == (credentials.deep_view(), None::<SwitchFault>));
    }
    Ok(())
}

/// The store with the stored login file of a profile as the shared one, or with no shared one
/// where none is stored. A shared one that is the same already is not written.
pub open spec fn login_switched(
    s: CredentialStoreView,
    target: FileReadView,
) -> CredentialStoreView {
    match target {
        FileReadView::Content(bytes) => if s.shared_auth == target {
            s
        } else {
            store::written(s, FileWriteView::SharedAuth(bytes))
        },
        _ => if s.shared_auth is Missing {
            s
        } else {
            store::written(s, FileWriteView::RemoveSharedAuth)
        },
    }
}

/// The settings that the shared configuration file is to hold for the profile.
pub open spec fn settings_for(
    s: CredentialStoreView,
    profile: CredentialProfileView,
    product: ProductConfigView,
) -> Result<Entries, SwitchFault> {
    match profile.kind {
        AuthProfileKind::Baijimu => match config::config_entries(s.shared_config) {
            Ok(entries) => Ok(config::workspace_entries(entries, product)),
            Err(fault) => Err(errors::config_switch_fault(fault)),
        },
        AuthProfileKind::Personal => match store::profile_config_of(
            s,
            recognition::key_of(profile),
        ) {
            Stored::Missing | Stored::Unreadable => Err(
                SwitchFault::Unreadable(FileRole::ProfileConfig),
            ),
            Stored::Invalid => Err(SwitchFault::Invalid(FileRole::ProfileConfig)),
            Stored::Value(snapshot) => match config::restored_config(
                s.shared_config,
                snapshot,
                product,
            ) {
                Ok(entries) => Ok(entries),
                Err(fault) => Err(errors::config_switch_fault(fault)),
            },
        },
    }
}

/// The store with the content of the shared configuration file replaced. For a workspace profile
/// the file is not written where its content stays the same.
pub open spec fn settings_switched(
    s: CredentialStoreView,
    profile: CredentialProfileView,
    content: Seq<u8>,
) -> CredentialStoreView {
    if profile.kind == AuthProfileKind::Baijimu && s.shared_config == FileReadView::Content(
        content,
    ) {
        s
    } else {
        store::written(s, FileWriteView::SharedConfig(content))
    }
}

/// Whether the content is one that the shared configuration file gets for the profile.
pub open spec fn content_fits(
    s: CredentialStoreView,
    profile: CredentialProfileView,
    product: ProductConfigView,
    content: Seq<u8>,
) -> bool {
    match profile.kind {
        AuthProfileKind::Baijimu => config::workspace_content(s.shared_config, product, content),
        AuthProfileKind::Personal => store::profile_config_of(
            s,
            recognition::key_of(profile),
        ) matches Stored::Value(snapshot) && config::restored_content(
            s.shared_config,
            snapshot,
            product,
            content,
        ),
    }
}

/// The store with the settings of the shared configuration file replaced by those of the profile, or
/// what stood in the way.
pub open spec fn settings_step(
    s: CredentialStoreView,
    profile: CredentialProfileView,
    product: ProductConfigView,
    content: Seq<u8>,
) -> (CredentialStoreView, Option<SwitchFault>) {
    match settings_for(s, profile, product) {
        Err(fault) => (s, Some(fault)),
        Ok(_) => (settings_switched(s, profile, content), None),
    }
}

/// Replaces the settings of the shared configuration file by those of the profile.
fn switch_settings(
    credentials: &mut CredentialStore,
    profile: &CredentialProfile,
    product: &ProductConfig,
) -> (res: Result<(), SwitchFault>)
    ensures
        exists|content: Seq<u8>|
            #![trigger settings_step(old(credentials).deep_view(), profile.deep_view(), product.deep_view(), content)]
            (settings_for(
                old(credentials).deep_view(),
                profile.deep_view(),
                product.deep_view(),
            ) is Ok ==> content_fits(
                old(credentials).deep_view(),
                profile.deep_view(),
                product.deep_view(),
                content,
            )) && settings_step(
                old(credentials).deep_view(),
                profile.deep_view(),
                product.deep_view(),
                content,
            ) == (final(credentials).deep_view(), fault_of(res)),
{
    let ghost s = credentials.deep_view();
    let ghost p = profile.deep_view();
    let ghost pr = product.deep_view();
    let ghost nothing: Seq<u8> = seq![];
    match profile.kind {
        AuthProfileKind::Baijimu => {
            match config::ensure_workspace_config(&credentials.shared_config, product) {
                Ok(content) => {
                    let ghost bytes = content@;
                    let unchanged = match &credentials.shared_config {
                        FileRead::Content(current) => same_bytes(current, &content),
                        _ => false,
                    };
                    if !unchanged {
                        credentials.write(FileWrite::SharedConfig(content));
                    }
                    assert(credentials.deep_view() == settings_switched(s, p, bytes));
                    assert(content_fits(s, p, pr, bytes));
                    assert(settings_step(s, p, pr, bytes) == (
                        credentials.deep_view(),
                        None::<SwitchFault>,
                    ));
                    Ok(())
                },
                Err(fault) => {
                    assert(settings_step(s, p, pr, nothing).0 == s);
                    Err(errors::switch_fault(fault))
                },
            }
        },
        AuthProfileKind::Personal => {
            let key = identity::profile_short_key(profile.profile_id.as_str());
            let content = match credentials.profile_config_file(key.as_str()) {
                Stored::Missing => {
                    assert(settings_step(s, p, pr, nothing).0 == s);
                    return Err(SwitchFault::Unreadable(FileRole::ProfileConfig));
                },
                Stored::Unreadable => {
                    assert(settings_step(s, p, pr, nothing).0 == s);
                    return Err(SwitchFault::Unreadable(FileRole::ProfileConfig));
                },
                Stored::Invalid => {
                    assert(settings_step(s, p, pr, nothing).0 == s);
                    return Err(SwitchFault::Invalid(FileRole::ProfileConfig));
                },
                Stored::Value(snapshot) => {
                    match config::apply_auth_config(
                        &credentials.shared_config,
                        snapshot,
                        product,
                    ) {
                        Ok(content) => content,
                        Err(fault) => {
                            assert(settings_step(s, p, pr, nothing).0 == s);
                            return Err(errors::switch_fault(fault));
                        },
                    }
                },
            };
            let ghost bytes = content@;
            credentials.write(FileWrite::SharedConfig(content));
            assert(credentials.deep_view() == settings_switched(s, p, bytes));
            assert(content_fits(s, p, pr, bytes));
            assert(settings_step(s, p, pr, bytes) == (credentials.deep_view(), None::<SwitchFault>));
            Ok(())
        },
    }
}

/// The record with the profile in effect from now on.
pub open spec fn activated(
    m: CredentialMetadataView,
    profile: CredentialProfileView,
    now: u64,
) -> CredentialMetadataView {
    CredentialMetadataView {
        profiles: m.profiles.map_values(|other: CredentialProfileView| stamped(other, profile, now)),
        ..recognition::selecting(m, profile)
    }
}

/// A profile with the time noted, where it has the identity of the one put in effect.
pub open spec fn stamped(
    other: CredentialProfileView,
    profile: CredentialProfileView,
    now: u64,
) -> CredentialProfileView {
    if other.profile_id == profile.profile_id {
        CredentialProfileView { activated_at_epoch_seconds: now, ..other }
    } else {
        other
    }
}

/// Records the profile as the one in effect from now on.
fn record_activation(metadata: &mut CredentialMetadata, profile: &CredentialProfile, now: u64)
    ensures
        final(metadata).deep_view() == activated(
            old(metadata).deep_view(),
            profile.deep_view(),
            now,
        ),
{
    let ghost m = metadata.deep_view();
    let ghost all = metadata.profiles.deep_view();
    let ghost p = profile.deep_view();
    let mut list: Vec<CredentialProfile> = Vec::new();
    let mut i: usize = 0;
    while i < metadata.profiles.len()
        invariant
            i <= metadata.profiles.len(),
            all == metadata.profiles.deep_view(),
            p == profile.deep_view(),
            list.len() == i,
            forall|j: int|
                0 <= j < i ==> (#[trigger] list@[j]).deep_view() == stamped(all[j], p, now),
        decreases metadata.profiles.len() - i,
    {
        let mut current = metadata.profiles[i].duplicate();
        if text::same(current.profile_id.as_str(), profile.profile_id.as_str()) {
            current.activated_at_epoch_seconds = now;
        }
        list.push(current);
        i = i + 1;
    }
    metadata.profiles = list;
    assert(metadata.profiles.deep_view() =~= activated(m, p, now).profiles);
    metadata.active_mode = contract::auth_mode(profile.kind);
    metadata.active_profile_id = Some(profile.profile_id.clone());
    metadata.active_workspace_id = if profile.kind == AuthProfileKind::Baijimu {
        Some(profile.workspace_id)
    } else {
        None
    };
}

/// The texts that a switch writes and that its outcome is not fixed without: the text kept for the
/// routing provider, and the content of the shared configuration file.
pub struct SwitchTexts {
    pub item: Option<Seq<char>>,
    pub content: Seq<u8>,
}

/// The store once what was in effect is kept and the shared login file is switched.
pub open spec fn login_phase(
    s: CredentialStoreView,
    m: CredentialMetadataView,
    profile: CredentialProfileView,
    item: Option<Seq<char>>,
) -> CredentialStoreView {
    login_switched(
        checkpointed(s, m, item).0,
        store::profile_auth_of(s, recognition::key_of(profile)),
    )
}

/// Whether the texts are ones that a switch may write.
pub open spec fn texts_possible(
    s: CredentialStoreView,
    m: CredentialMetadataView,
    profile: CredentialProfileView,
    product: ProductConfigView,
    texts: SwitchTexts,
) -> bool {
    &&& keeps_settings(s, m) ==> config::item_fits(
        texts.item,
        config::config_entries(s.shared_config)->Ok_0,
        product,
    )
    &&& (checkpointed(s, m, texts.item).1 is None && settings_for(
        login_phase(s, m, profile, texts.item),
        profile,
        product,
    ) is Ok) ==> content_fits(
        login_phase(s, m, profile, texts.item),
        profile,
        product,
        texts.content,
    )
}

/// The store and the record once the profile is in effect; or the store where the switch stopped,
/// and why.
pub open spec fn switched(
    s: CredentialStoreView,
    m: CredentialMetadataView,
    profile: CredentialProfileView,
    now: u64,
    product: ProductConfigView,
    texts: SwitchTexts,
) -> (CredentialStoreView, Result<CredentialMetadataView, SwitchFault>) {
    let (kept, fault) = checkpointed(s, m, texts.item);
    let login = login_phase(s, m, profile, texts.item);
    if fault is Some {
        (kept, Err(fault->0))
    } else {
        match settings_step(login, profile, product, texts.content) {
            (stopped, Some(other)) => (stopped, Err(other)),
            (settled, None) => (
                store::written(
                    ownership::ownership_committed(settled, now),
                    FileWriteView::Metadata(activated(m, profile, now)),
                ),
                Ok(activated(m, profile, now)),
            ),
        }
    }
}

/// The store with the shared files and the record put back.
pub open spec fn undone(
    s: CredentialStoreView,
    login: FileReadView,
    settings: FileReadView,
    m: CredentialMetadataView,
) -> CredentialStoreView {
    let a = match login {
        FileReadView::Content(bytes) => store::written(s, FileWriteView::SharedAuth(bytes)),
        _ => if s.shared_auth is Missing {
            s
        } else {
            store::written(s, FileWriteView::RemoveSharedAuth)
        },
    };
    let b = match settings {
        FileReadView::Content(bytes) => store::written(a, FileWriteView::SharedConfig(bytes)),
        _ => if a.shared_config is Missing {
            a
        } else {
            store::written(a, FileWriteView::RemoveSharedConfig)
        },
    };
    store::written(b, FileWriteView::Metadata(m))
}

/// Puts the shared files and the record back.
fn undo(
    credentials: &mut CredentialStore,
    login: FileRead,
    settings: FileRead,
    metadata: &CredentialMetadata,
)
    ensures
        final(credentials).deep_view() == undone(
            old(credentials).deep_view(),
            login.deep_view(),
            settings.deep_view(),
            metadata.deep_view(),
        ),
{
    match login {
        FileRead::Content(bytes) => credentials.write(FileWrite::SharedAuth(bytes)),
        _ => {
            let missing = match &credentials.shared_auth {
                FileRead::Missing => true,
                _ => false,
            };
            if !missing {
                credentials.write(FileWrite::RemoveSharedAuth);
            }
        },
    }
    match settings {
        FileRead::Content(bytes) => credentials.write(FileWrite::SharedConfig(bytes)),
        _ => {
            let missing = match &credentials.shared_config {
                FileRead::Missing => true,
                _ => false,
            };
            if !missing {
                credentials.write(FileWrite::RemoveSharedConfig);
            }
        },
    }
    metadata::save_metadata(credentials, metadata);
}

/// A switch that was made and can still be undone.
#[derive(Debug)]
pub struct ActivationTransaction {
    previous_metadata: CredentialMetadata,
    previous_auth: FileRead,
    previous_config: FileRead,
    profile: CredentialProfile,
}

impl ActivationTransaction {
    /// The profile that was put in effect.
    pub closed spec fn activated_profile(self) -> CredentialProfileView {
        self.profile.deep_view()
    }

    /// The record from before the switch.
    pub closed spec fn metadata_before(self) -> CredentialMetadataView {
        self.previous_metadata.deep_view()
    }

    /// The shared login file from before the switch.
    pub closed spec fn login_before(self) -> FileReadView {
        self.previous_auth.deep_view()
    }

    /// The shared configuration file from before the switch.
    pub closed spec fn settings_before(self) -> FileReadView {
        self.previous_config.deep_view()
    }

    /// Keeps the switch and gives the profile that was put in effect.
    pub fn commit(self) -> (res: CredentialProfile)
        ensures
            res.deep_view() == self.activated_profile(),
    {
        self.profile
    }

    /// Undoes the switch: the shared files and the record are put back.
    pub fn rollback(self, credentials: &mut CredentialStore)
        ensures
            final(credentials).deep_view() == undone(
                old(credentials).deep_view(),
                self.login_before(),
                self.settings_before(),
                self.metadata_before(),
            ),
    {
        let ActivationTransaction { previous_metadata, previous_auth, previous_config, profile } =
            self;
        undo(credentials, previous_auth, previous_config, &previous_metadata);
    }
}

/// What forbids putting a profile in effect before anything is touched.
pub open spec fn target_error(
    s: CredentialStoreView,
    m: CredentialMetadataView,
    id: Seq<char>,
) -> Option<CredentialError> {
    match profiles::first_where(m.profiles, profiles::with_id(id)) {
        None => Some(CredentialError::PreparedProfileGone),
        Some(profile) => match store::profile_auth_of(s, recognition::key_of(profile)) {
            FileReadView::Unreadable => Some(CredentialError::Unreadable(FileRole::ProfileAuth)),
            FileReadView::Missing => if profile.kind == AuthProfileKind::Baijimu {
                Some(CredentialError::ProfileContentInvalid)
            } else {
                snapshot_error(s)
            },
            FileReadView::Content(bytes) => if auth::usable(bytes, profile.kind) {
                snapshot_error(s)
            } else {
                Some(CredentialError::ProfileContentInvalid)
            },
        },
    }
}

/// What forbids noting the shared files for a later undo.
pub open spec fn snapshot_error(s: CredentialStoreView) -> Option<CredentialError> {
    if s.shared_auth is Unreadable {
        Some(CredentialError::Unreadable(FileRole::SharedAuth))
    } else if s.shared_config is Unreadable {
        Some(CredentialError::Unreadable(FileRole::SharedConfig))
    } else {
        None
    }
}

/// The outcome of putting a profile in effect, given the record as it was loaded.
pub open spec fn switch_outcome(
    s: CredentialStoreView,
    m: CredentialMetadataView,
    id: Seq<char>,
    now: u64,
    product: ProductConfigView,
    texts: SwitchTexts,
) -> (CredentialStoreView, Result<CredentialMetadataView, CredentialError>) {
    if target_error(s, m, id) is Some {
        (s, Err(target_error(s, m, id)->0))
    } else {
        let profile = profiles::first_where(m.profiles, profiles::with_id(id))->0;
        match switched(s, m, profile, now, product, texts) {
            (end, Ok(recorded)) => (end, Ok(recorded)),
            (end, Err(fault)) => (
                undone(end, s.shared_auth, s.shared_config, m),
                Err(CredentialError::SwitchFailed(fault)),
            ),
        }
    }
}

/// Whether the texts are ones that putting the profile in effect may write.
pub open spec fn outcome_texts_possible(
    s: CredentialStoreView,
    m: CredentialMetadataView,
    id: Seq<char>,
    product: ProductConfigView,
    texts: SwitchTexts,
) -> bool {
    target_error(s, m, id) is None ==> texts_possible(
        s,
        m,
        profiles::first_where(m.profiles, profiles::with_id(id))->0,
        product,
        texts,
    )
}

/// Whether the result says what the record does: on success the transaction holds the profile as
/// recorded, and everything that undoing needs.
pub open spec fn transaction_fits(
    res: Result<ActivationTransaction, CredentialError>,
    outcome: Result<CredentialMetadataView, CredentialError>,
    s: CredentialStoreView,
    m: CredentialMetadataView,
    id: Seq<char>,
) -> bool {
    match (res, outcome) {
        (Ok(transaction), Ok(recorded)) => {
            &&& profiles::first_where(recorded.profiles, profiles::with_id(id)) == Some(
                transaction.activated_profile(),
            )
            &&& transaction.metadata_before() == m
            &&& transaction.login_before() == s.shared_auth
            &&& transaction.settings_before() == s.shared_config
        },
        (Err(error), Err(expected)) => error == expected,
        _ => false,
    }
}

/// The switch itself, once it is known that it may begin.
fn perform_switch(
    credentials: &mut CredentialStore,
    previous: &CredentialMetadata,
    profile: &CredentialProfile,
    now: u64,
    product: &ProductConfig,
) -> (res: Result<CredentialMetadata, SwitchFault>)
    requires
        !(store::profile_auth_of(
            old(credentials).deep_view(),
            recognition::key_of(profile.deep_view()),
        ) is Unreadable),
    ensures
        exists|texts: SwitchTexts|
            #![trigger texts_possible(old(credentials).deep_view(), previous.deep_view(), profile.deep_view(), product.deep_view(), texts)]
            texts_possible(
                old(credentials).deep_view(),
                previous.deep_view(),
                profile.deep_view(),
                product.deep_view(),
                texts,
            ) && ({
                let outcome = switched(
                    old(credentials).deep_view(),
                    previous.deep_view(),
                    profile.deep_view(),
                    now,
                    product.deep_view(),
                    texts,
                );
                outcome.0 == final(credentials).deep_view() && match res {
                    Ok(recorded) => outcome.1 == Ok::<CredentialMetadataView, SwitchFault>(
                        recorded.deep_view(),
                    ),
                    Err(fault) => outcome.1 == Err::<CredentialMetadataView, SwitchFault>(fault),
                }
            }),
{
    let ghost s = credentials.deep_view();
    let ghost m = previous.deep_view();
    let ghost p = profile.deep_view();
    let ghost pr = product.deep_view();
    let key = identity::profile_short_key(profile.profile_id.as_str());
    let target = credentials.profile_auth_file(key.as_str()).duplicate();
    let kept = checkpoint_active_profile(credentials, previous, product);
    let ghost item = choose|item: Option<Seq<char>>|
        #![trigger checkpointed(s, m, item)]
        (keeps_settings(s, m) ==> config::item_fits(
            item,
            config::config_entries(s.shared_config)->Ok_0,
            pr,
        )) && checkpointed(s, m, item) == (credentials.deep_view(), fault_of(kept));
    if let Err(fault) = kept {
        proof {
            let texts = SwitchTexts { item, content: seq![] };
            assert(texts_possible(s, m, p, pr, texts));
        }
        return Err(fault);
    }
    match target {
        FileRead::Content(bytes) => {
            let unchanged = match &credentials.shared_auth {
                FileRead::Content(current) => same_bytes(current, &bytes),
                _ => false,
            };
            if !unchanged {
                credentials.write(FileWrite::SharedAuth(bytes));
            }
        },
        _ => {
            let missing = match &credentials.shared_auth {
                FileRead::Missing => true,
                _ => false,
            };
            if !missing {
                credentials.write(FileWrite::RemoveSharedAuth);
            }
        },
    }
    let ghost login = credentials.deep_view();
    assert(login == login_phase(s, m, p, item));
    let switched_settings = switch_settings(credentials, profile, product);
    let ghost content = choose|content: Seq<u8>|
        #![trigger settings_step(login, p, pr, content)]
        (settings_for(login, p, pr) is Ok ==> content_fits(login, p, pr, content))
            && settings_step(login, p, pr, content) == (
            credentials.deep_view(),
            fault_of(switched_settings),
        );
    if let Err(fault) = switched_settings {
        proof {
            let texts = SwitchTexts { item, content };
            assert(texts_possible(s, m, p, pr, texts));
        }
        return Err(fault);
    }
    ownership::commit_shared_home_ownership(credentials, now);
    let mut recorded = previous.duplicate();
    record_activation(&mut recorded, profile, now);
    metadata::save_metadata(credentials, &recorded);
    proof {
        let texts = SwitchTexts { item, content };
        assert(texts_possible(s, m, p, pr, texts));
    }
    Ok(recorded)
}

/// Puts a profile in effect, given the record as it was loaded. On failure the shared files and
/// the record are put back.
pub fn activate_loaded_profile(
    credentials: &mut CredentialStore,
    previous: CredentialMetadata,
    prepared: &CredentialProfile,
    now: u64,
    product: &ProductConfig,
) -> (res: Result<ActivationTransaction, CredentialError>)
    ensures
        exists|texts: SwitchTexts|
            #![trigger outcome_texts_possible(old(credentials).deep_view(), previous.deep_view(), prepared.profile_id@, product.deep_view(), texts)]
            outcome_texts_possible(
                old(credentials).deep_view(),
                previous.deep_view(),
                prepared.profile_id@,
                product.deep_view(),
                texts,
            ) && ({
                let outcome = switch_outcome(
                    old(credentials).deep_view(),
                    previous.deep_view(),
                    prepared.profile_id@,
                    now,
                    product.deep_view(),
                    texts,
                );
                outcome.0 == final(credentials).deep_view() && transaction_fits(
                    res,
                    outcome.1,
                    old(credentials).deep_view(),
                    previous.deep_view(),
                    prepared.profile_id@,
                )
            }),
{
    let ghost s = credentials.deep_view();
    let ghost m = previous.deep_view();
    let ghost id = prepared.profile_id@;
    let ghost pr = product.deep_view();
    let ghost none = SwitchTexts { item: None, content: seq![] };
    let profile = match profiles::find_profile(&previous.profiles, prepared.profile_id.as_str()) {
        Some(found) => found.duplicate(),
        None => {
            assert(outcome_texts_possible(s, m, id, pr, none));
            return Err(CredentialError::PreparedProfileGone);
        },
    };
    let key = identity::profile_short_key(profile.profile_id.as_str());
    match credentials.profile_auth_file(key.as_str()) {
        FileRead::Unreadable => {
            assert(outcome_texts_possible(s, m, id, pr, none));
            return Err(CredentialError::Unreadable(FileRole::ProfileAuth));
        },
        FileRead::Missing => {
            if profile.kind == AuthProfileKind::Baijimu {
                assert(outcome_texts_possible(s, m, id, pr, none));
                return Err(CredentialError::ProfileContentInvalid);
            }
        },
        FileRead::Content(bytes) => {
            if !auth::auth_is_usable_for_profile(bytes, profile.kind) {
                assert(outcome_texts_possible(s, m, id, pr, none));
                return Err(CredentialError::ProfileContentInvalid);
            }
        },
    }
    let previous_auth = credentials.shared_auth.duplicate();
    let previous_config = credentials.shared_config.duplicate();
    if let FileRead::Unreadable = previous_auth {
        assert(outcome_texts_possible(s, m, id, pr, none));
        return Err(CredentialError::Unreadable(FileRole::SharedAuth));
    }
    if let FileRead::Unreadable = previous_config {
        assert(outcome_texts_possible(s, m, id, pr, none));
        return Err(CredentialError::Unreadable(FileRole::SharedConfig));
    }
    assert(target_error(s, m, id) is None);
    match perform_switch(credentials, &previous, &profile, now, product) {
        Err(fault) => {
            let ghost stopped = credentials.deep_view();
            let ghost texts = choose|texts: SwitchTexts|
                #![trigger texts_possible(s, m, profile.deep_view(), pr, texts)]
                texts_possible(s, m, profile.deep_view(), pr, texts) && switched(
                    s,
                    m,
                    profile.deep_view(),
                    now,
                    pr,
                    texts,
                ) == (stopped, Err::<CredentialMetadataView, SwitchFault>(fault));
            undo(credentials, previous_auth, previous_config, &previous);
            assert(outcome_texts_possible(s, m, id, pr, texts));
            Err(CredentialError::SwitchFailed(fault))
        },
        Ok(recorded) => {
            let ghost texts = choose|texts: SwitchTexts|
                #![trigger texts_possible(s, m, profile.deep_view(), pr, texts)]
                texts_possible(s, m, profile.deep_view(), pr, texts) && switched(
                    s,
                    m,
                    profile.deep_view(),
                    now,
                    pr,
                    texts,
                ) == (
                    credentials.deep_view(),
                    Ok::<CredentialMetadataView, SwitchFault>(recorded.deep_view()),
                );
            proof {
                activation_keeps_identities(m, profile.deep_view(), now, id);
                assert(outcome_texts_possible(s, m, id, pr, texts));
            }
            match profiles::find_profile(&recorded.profiles, prepared.profile_id.as_str()) {
                Some(active) => Ok(
                    ActivationTransaction {
                        profile: active.duplicate(),
                        previous_metadata: previous,
                        previous_auth,
                        previous_config,
                    },
                ),
                None => Err(CredentialError::PreparedProfileGone),
            }
        },
    }
}

/// The record with the profile selected that a state directory belongs to.
pub open spec fn belonging_to(
    m: CredentialMetadataView,
    checkpoint: Option<Seq<char>>,
) -> CredentialMetadataView {
    CredentialMetadataView { active_profile_id: checkpoint, ..m }
}

/// Puts a profile in effect in the shared state directory, which belongs to the profile `checkpoint`
/// or to none: what the directory holds is first stored for that one. On failure the shared files
/// are put back.
pub fn apply_profile_to_home(
    credentials: &mut CredentialStore,
    metadata: CredentialMetadata,
    prepared: &CredentialProfile,
    checkpoint: &Option<String>,
    now: u64,
    product: &ProductConfig,
) -> (res: Result<ActivationTransaction, CredentialError>)
    ensures
        exists|texts: SwitchTexts|
            #![trigger outcome_texts_possible(old(credentials).deep_view(), belonging_to(metadata.deep_view(), text::opt_view(*checkpoint)), prepared.profile_id@, product.deep_view(), texts)]
            outcome_texts_possible(
                old(credentials).deep_view(),
                belonging_to(metadata.deep_view(), text::opt_view(*checkpoint)),
                prepared.profile_id@,
                product.deep_view(),
                texts,
            ) && ({
                let outcome = switch_outcome(
                    old(credentials).deep_view(),
                    belonging_to(metadata.deep_view(), text::opt_view(*checkpoint)),
                    prepared.profile_id@,
                    now,
                    product.deep_view(),
                    texts,
                );
                outcome.0 == final(credentials).deep_view() && transaction_fits(
                    res,
                    outcome.1,
                    old(credentials).deep_view(),
                    belonging_to(metadata.deep_view(), text::opt_view(*checkpoint)),
                    prepared.profile_id@,
                )
            }),
{
    let mut previous = metadata;
    previous.active_profile_id = checkpoint.duplicate();
    activate_loaded_profile(credentials, previous, prepared, now, product)
}

/// Recording an activation keeps who is found by which identity.
pub proof fn activation_keeps_identities(
    m: CredentialMetadataView,
    profile: CredentialProfileView,
    now: u64,
    id: Seq<char>,
)
    ensures
        match profiles::first_where(m.profiles, profiles::with_id(id)) {
            Some(found) => profiles::first_where(
                activated(m, profile, now).profiles,
                profiles::with_id(id),
            ) == Some(stamped(found, profile, now)),
            None => profiles::first_where(
                activated(m, profile, now).profiles,
                profiles::with_id(id),
            ) is None,
        },
{
    stamping_keeps_identities(m.profiles, profile, now, id);
}

/// Noting a time keeps who is found by which identity.
proof fn stamping_keeps_identities(
    all: Seq<CredentialProfileView>,
    profile: CredentialProfileView,
    now: u64,
    id: Seq<char>,
)
    ensures
        match profiles::first_where(all, profiles::with_id(id)) {
            Some(found) => profiles::first_where(
                all.map_values(|other: CredentialProfileView| stamped(other, profile, now)),
                profiles::with_id(id),
            ) == Some(stamped(found, profile, now)),
            None => profiles::first_where(
                all.map_values(|other: CredentialProfileView| stamped(other, profile, now)),
                profiles::with_id(id),
            ) is None,
        },
    decreases all.len(),
{
    if all.len() > 0 {
        stamping_keeps_identities(all.drop_last(), profile, now, id);
        let f = |other: CredentialProfileView| stamped(other, profile, now);
        assert(all.map_values(f).drop_last() =~= all.drop_last().map_values(f));
    }
}

} // verus!
