//! The record of profiles, read, brought up to date and written back.
use crate::credential::contract::{AuthProfileKind, CredentialMetadata, CredentialMetadataView};
use crate::credential::config;
use crate::credential::errors::{CredentialError, FileRole};
use crate::credential::loading;
use crate::credential::loading::{
    capture_original_codex_home, migrate_profile_default_models, migrate_profiles_to_shared_home,
    METADATA_VERSION,
};
use crate::credential::profiles;
use crate::credential::recognition;
use crate::credential::recognition::{
    capture_original_auth_profile, ensure_chatgpt_profile,
    reconcile_active_profile_from_shared_home,
};
use crate::credential::store;
use crate::credential::store::{CredentialStore, CredentialStoreView, FileWrite, FileWriteView, Stored};
use crate::duplicate::Duplicate;
use crate::product_config::{ProductConfig, ProductConfigView};
use vstd::prelude::*;

verus! {

/// Where the record of profiles was found.
#[derive(Debug, Clone, Copy, PartialEq, Eq, Structural)]
pub enum Origin {
    /// At its place.
    Present,
    /// At its old place.
    Legacy,
    /// Nowhere.
    Absent,
}

/// The record as it is found, and where.
pub open spec fn source(s: CredentialStoreView) -> Result<
    (CredentialMetadataView, Origin),
    CredentialError,
> {
    match s.metadata {
        Stored::Unreadable => Err(CredentialError::Unreadable(FileRole::Metadata)),
        Stored::Invalid => Err(CredentialError::Invalid(FileRole::Metadata)),
        Stored::Value(metadata) => Ok((metadata, Origin::Present)),
        Stored::Missing => match s.legacy_metadata {
            Stored::Unreadable => Err(CredentialError::Unreadable(FileRole::LegacyMetadata)),
            Stored::Invalid => Err(CredentialError::Invalid(FileRole::LegacyMetadata)),
            Stored::Value(metadata) => Ok((metadata, Origin::Legacy)),
            Stored::Missing => Ok((loading::no_metadata(), Origin::Absent)),
        },
    }
}

/// The record as it is found, and where.
fn find_source(credentials: &CredentialStore) -> (res: Result<
    (CredentialMetadata, Origin),
    CredentialError,
>)
    ensures
        match res {
            Ok((metadata, origin)) => source(credentials.deep_view()) == Ok::<
                (CredentialMetadataView, Origin),
                CredentialError,
            >((metadata.deep_view(), origin)),
            Err(error) => source(credentials.deep_view()) == Err::<
                (CredentialMetadataView, Origin),
                CredentialError,
            >(error),
        },
{
    match &credentials.metadata {
        Stored::Unreadable => Err(CredentialError::Unreadable(FileRole::Metadata)),
        Stored::Invalid => Err(CredentialError::Invalid(FileRole::Metadata)),
        Stored::Value(metadata) => Ok((metadata.duplicate(), Origin::Present)),
        Stored::Missing => {
            match &credentials.legacy_metadata {
                Stored::Unreadable => Err(CredentialError::Unreadable(FileRole::LegacyMetadata)),
                Stored::Invalid => Err(CredentialError::Invalid(FileRole::LegacyMetadata)),
                Stored::Value(metadata) => Ok((metadata.duplicate(), Origin::Legacy)),
                Stored::Missing => Ok((CredentialMetadata::new(), Origin::Absent)),
            }
        },
    }
}

/// The record with the note that access rules of an old version remain to be revoked, where it was
/// written by an old version and they were not revoked yet.
pub open spec fn cleanup_noted(
    m: CredentialMetadataView,
    origin: Origin,
) -> CredentialMetadataView {
    if origin != Origin::Absent && m.version < METADATA_VERSION
        && m.legacy_shared_auth_acl_revoked_at_epoch_seconds is None {
        CredentialMetadataView { legacy_shared_auth_acl_cleanup_required: true, ..m }
    } else {
        m
    }
}

/// The record with every profile complete.
pub open spec fn completed(
    s: CredentialStoreView,
    m: CredentialMetadataView,
    origin: Origin,
) -> CredentialMetadataView {
    CredentialMetadataView {
        profiles: profiles::all_normalized(m.profiles, s.shared_home.text),
        ..cleanup_noted(m, origin)
    }
}

/// The record with every profile complete and configured with the default model.
pub open spec fn modelled(
    s: CredentialStoreView,
    m: CredentialMetadataView,
    origin: Origin,
    product: ProductConfigView,
) -> CredentialMetadataView {
    loading::models_migrated(completed(s, m, origin), m.version, product.default_model)
}

/// The record with the shared state directory in every profile, the selection of the first version
/// and the note of the user-level setting.
pub open spec fn settled(
    s: CredentialStoreView,
    m: CredentialMetadataView,
    previous: u32,
) -> CredentialMetadataView {
    loading::home_captured(
        s,
        loading::first_selection(
            CredentialMetadataView { profiles: loading::all_rehomed(s, m.profiles), ..m },
            previous,
        ),
    )
}

/// The store and the record after the authorization found at installation was kept, where there is
/// one.
pub open spec fn with_original(
    s: CredentialStoreView,
    m: CredentialMetadataView,
    product: ProductConfigView,
    item: Option<Seq<char>>,
) -> (CredentialStoreView, CredentialMetadataView) {
    if recognition::finds_original(s, m) {
        (recognition::original_stored(s, item), recognition::original_recorded(s, m, product))
    } else {
        (s, m)
    }
}

/// The record in its current version.
pub open spec fn current(m: CredentialMetadataView) -> CredentialMetadataView {
    CredentialMetadataView { version: METADATA_VERSION, ..m }
}

/// Whether bringing the profiles up to date changes the record.
pub open spec fn update_changes(
    s: CredentialStoreView,
    m: CredentialMetadataView,
    origin: Origin,
    product: ProductConfigView,
) -> bool {
    ||| origin != Origin::Present
    ||| m.version < METADATA_VERSION
    ||| loading::models_change(completed(s, m, origin), m.version, product.default_model)
    ||| loading::homes_change(s, modelled(s, m, origin, product).profiles)
    ||| !m.original_codex_home_state.captured
}

/// The record with its profiles brought up to date.
pub open spec fn updated(
    s: CredentialStoreView,
    m: CredentialMetadataView,
    origin: Origin,
    product: ProductConfigView,
) -> CredentialMetadataView {
    settled(s, modelled(s, m, origin, product), m.version)
}

/// Whether recognizing what is in effect changes the record.
pub open spec fn recognition_changes(
    t: CredentialStoreView,
    b: CredentialMetadataView,
    product: ProductConfigView,
    item: Option<Seq<char>>,
) -> bool {
    let (u, c) = with_original(t, b, product, item);
    ||| recognition::finds_original(t, b)
    ||| recognition::lacks_chatgpt(u, c)
    ||| recognition::selection_changes(
        recognition::chatgpt_stored(u, c),
        recognition::chatgpt_recorded(u, c, product),
        product,
    )
}

/// The store once what is in effect was recognized.
pub open spec fn recognized_store(
    t: CredentialStoreView,
    b: CredentialMetadataView,
    product: ProductConfigView,
    item: Option<Seq<char>>,
) -> CredentialStoreView {
    let (u, c) = with_original(t, b, product, item);
    recognition::chatgpt_stored(u, c)
}

/// The record once what is in effect was recognized.
pub open spec fn recognized_record(
    t: CredentialStoreView,
    b: CredentialMetadataView,
    product: ProductConfigView,
    item: Option<Seq<char>>,
) -> CredentialMetadataView {
    let (u, c) = with_original(t, b, product, item);
    recognition::reconciled(
        recognition::chatgpt_stored(u, c),
        recognition::chatgpt_recorded(u, c, product),
        product,
    )
}

/// The store and the record after the record was read and brought up to date, or the error that
/// stood in the way. `item` is the text for the routing provider that is kept with the
/// authorization found at installation.
pub open spec fn loaded(
    s: CredentialStoreView,
    product: ProductConfigView,
    item: Option<Seq<char>>,
) -> (CredentialStoreView, Result<CredentialMetadataView, CredentialError>) {
    match source(s) {
        Err(error) => (s, Err(error)),
        Ok((found, origin)) => {
            let (t, stopped) = loading::logins_migrated(
                s,
                modelled(s, found, origin, product).profiles,
            );
            let b = updated(s, found, origin, product);
            let v = recognized_store(t, b, product, item);
            let f = current(recognized_record(t, b, product, item));
            let w = if update_changes(s, found, origin, product) || recognition_changes(
                t,
                b,
                product,
                item,
            ) {
                store::written(v, FileWriteView::Metadata(f))
            } else {
                v
            };
            if stopped is Some {
                (t, Err(stopped->0))
            } else if recognition::shared_files_error(s) is Some {
                if has_personal(b) {
                    (v, Err(recognition::shared_files_error(s)->0))
                } else {
                    (t, Err(recognition::shared_files_error(s)->0))
                }
            } else if origin == Origin::Legacy {
                (store::written(w, FileWriteView::RemoveLegacyMetadata), Ok(f))
            } else {
                (w, Ok(f))
            }
        },
    }
}

/// Whether there is a personal profile.
pub open spec fn has_personal(m: CredentialMetadataView) -> bool {
    profiles::first_where(m.profiles, profiles::of_kind(AuthProfileKind::Personal)) is Some
}

/// Whether the shared files hold an authorization that loading keeps for a profile of its own.
pub open spec fn keeps_original(s: CredentialStoreView, product: ProductConfigView) -> bool {
    source(s) matches Ok((found, origin)) && loading::logins_migrated(
        s,
        modelled(s, found, origin, product).profiles,
    ).1 is None && recognition::finds_original(
        loading::logins_migrated(s, modelled(s, found, origin, product).profiles).0,
        updated(s, found, origin, product),
    )
}

/// Whether the text is one that loading may keep for the routing provider.
pub open spec fn item_possible(
    s: CredentialStoreView,
    product: ProductConfigView,
    item: Option<Seq<char>>,
) -> bool {
    keeps_original(s, product) ==> config::item_fits(
        item,
        config::config_entries(s.shared_config)->Ok_0,
        product,
    )
}

/// The record of a result.
pub open spec fn result_view(res: Result<CredentialMetadata, CredentialError>) -> Result<
    CredentialMetadataView,
    CredentialError,
> {
    match res {
        Ok(metadata) => Ok(metadata.deep_view()),
        Err(error) => Err(error),
    }
}

/// Writes the record of profiles.
pub fn save_metadata(credentials: &mut CredentialStore, metadata: &CredentialMetadata)
    ensures
        final(credentials).deep_view() == store::written(
            old(credentials).deep_view(),
            FileWriteView::Metadata(metadata.deep_view()),
        ),
{
    credentials.write(FileWrite::Metadata(metadata.duplicate()));
}

/// A record that is being brought up to date.
struct Update {
    metadata: CredentialMetadata,
    origin: Origin,
    changed: bool,
}

/// Finds the record and brings its profiles up to date.
fn update_profiles(credentials: &mut CredentialStore, product: &ProductConfig) -> (res: Result<
    Update,
    CredentialError,
>)
    ensures
        ({
            let s = old(credentials).deep_view();
            let p = product.deep_view();
            match source(s) {
                Err(expected) => res == Err::<Update, CredentialError>(expected) && final(credentials).deep_view() == s,
                Ok((found, origin)) => {
                    let (t, stopped) = loading::logins_migrated(
                        s,
                        modelled(s, found, origin, p).profiles,
                    );
                    &&& final(credentials).deep_view() == t
                    &&& match res {
                        Err(error) => stopped == Some(error),
                        Ok(update) => stopped is None && update.metadata.deep_view() == updated(
                            s,
                            found,
                            origin,
                            p,
                        ) && update.origin == origin && update.changed == update_changes(
                            s,
                            found,
                            origin,
                            p,
                        ),
                    }
                },
            }
        }),
{
    let ghost s = credentials.deep_view();
    let (mut metadata, origin) = find_source(credentials)?;
    let ghost found = metadata.deep_view();
    let previous_version = metadata.version;
    if origin != Origin::Absent && previous_version < METADATA_VERSION
        && metadata.legacy_shared_auth_acl_revoked_at_epoch_seconds.is_none() {
        metadata.legacy_shared_auth_acl_cleanup_required = true;
    }
    let home = credentials.shared_home.text.clone();
    profiles::normalize_profiles(&mut metadata.profiles, home.as_str());
    assert(metadata.deep_view() == completed(s, found, origin));
    let models_migrated = migrate_profile_default_models(&mut metadata, previous_version, product);
    let ghost a = metadata.deep_view();
    proof {
        loading::migration_keeps_homes(s, a.profiles);
    }
    let homes_migrated = migrate_profiles_to_shared_home(credentials, &mut metadata)?;
    loading::select_first_version(&mut metadata, previous_version);
    let baseline_captured = capture_original_codex_home(credentials, &mut metadata);
    assert(metadata.deep_view() == settled(s, a, found.version));
    Ok(
        Update {
            metadata,
            origin,
            changed: origin != Origin::Present || previous_version < METADATA_VERSION
                || models_migrated || homes_migrated || baseline_captured,
        },
    )
}

/// Recognizes what is in effect, and says whether that changes the record.
fn recognize(
    credentials: &mut CredentialStore,
    metadata: &mut CredentialMetadata,
    product: &ProductConfig,
) -> (res: Result<bool, CredentialError>)
    ensures
        exists|item: Option<Seq<char>>|
            #![trigger recognized_store(old(credentials).deep_view(), old(metadata).deep_view(), product.deep_view(), item)]
            ({
                let t = old(credentials).deep_view();
                let b = old(metadata).deep_view();
                let p = product.deep_view();
                &&& recognition::finds_original(t, b) ==> config::item_fits(
                    item,
                    config::config_entries(t.shared_config)->Ok_0,
                    p,
                )
                &&& match res {
                    Ok(changed) => recognition::shared_files_error(t) is None && final(credentials).deep_view() == recognized_store(t, b, p, item) && final(metadata).deep_view() == recognized_record(t, b, p, item) && changed
                        == recognition_changes(t, b, p, item),
                    Err(error) => recognition::shared_files_error(t) == Some(error) && final(credentials).deep_view() == (if has_personal(b) {
                        recognized_store(t, b, p, item)
                    } else {
                        t
                    }),
                }
            }),
{
    let ghost t = credentials.deep_view();
    let ghost b = metadata.deep_view();
    let ghost p = product.deep_view();
    let original_captured = match capture_original_auth_profile(credentials, metadata, product) {
        Ok(changed) => changed,
        Err(error) => {
            let ghost v = recognized_store(t, b, p, None);
            return Err(error);
        },
    };
    let ghost item: Option<Seq<char>> = if original_captured {
        choose|item: Option<Seq<char>>| #[trigger]
            config::item_fits(item, config::config_entries(t.shared_config)->Ok_0, p)
                && credentials.deep_view() == recognition::original_stored(t, item)
    } else {
        None
    };
    let ghost u = credentials.deep_view();
    let ghost c = metadata.deep_view();
    assert((u, c) == with_original(t, b, p, item));
    let chatgpt_added = ensure_chatgpt_profile(credentials, metadata, product);
    let ghost v = recognized_store(t, b, p, item);
    assert(credentials.deep_view() == v);
    assert(recognition::shared_files_error(v) == recognition::shared_files_error(t));
    match reconcile_active_profile_from_shared_home(credentials, metadata, product) {
        Ok(changed) => Ok(original_captured || chatgpt_added || changed),
        Err(error) => Err(error),
    }
}

/// Reads the record of profiles, brings it up to date with what is on disk, and writes it back
/// where it changed. The shared files are only read.
pub fn load_metadata(credentials: &mut CredentialStore, product: &ProductConfig) -> (res: Result<
    CredentialMetadata,
    CredentialError,
>)
    ensures
        exists|item: Option<Seq<char>>|
            #![trigger item_possible(old(credentials).deep_view(), product.deep_view(), item)]
            item_possible(old(credentials).deep_view(), product.deep_view(), item) && loaded(
                old(credentials).deep_view(),
                product.deep_view(),
                item,
            ) == (final(credentials).deep_view(), result_view(res)),
{
    let ghost s = credentials.deep_view();
    let ghost p = product.deep_view();
    let update = match update_profiles(credentials, product) {
        Ok(update) => update,
        Err(error) => {
            assert(item_possible(s, p, None));
            return Err(error);
        },
    };
    let Update { mut metadata, origin, changed: profiles_changed } = update;
    let ghost t = credentials.deep_view();
    let ghost b = metadata.deep_view();
    proof {
        loading::migration_keeps_homes(s, modelled(s, source(s)->Ok_0.0, origin, p).profiles);
        assert(recognition::shared_files_error(t) == recognition::shared_files_error(s));
    }
    let outcome = recognize(credentials, &mut metadata, product);
    let ghost item = choose|item: Option<Seq<char>>|
        #![trigger recognized_store(t, b, p, item)]
        {
            &&& recognition::finds_original(t, b) ==> config::item_fits(
                item,
                config::config_entries(t.shared_config)->Ok_0,
                p,
            )
            &&& match outcome {
                Ok(changed) => recognition::shared_files_error(t) is None && credentials.deep_view()
                    == recognized_store(t, b, p, item) && metadata.deep_view() == recognized_record(
                    t,
                    b,
                    p,
                    item,
                ) && changed == recognition_changes(t, b, p, item),
                Err(error) => recognition::shared_files_error(t) == Some(error)
                    && credentials.deep_view() == (if has_personal(b) {
                    recognized_store(t, b, p, item)
                } else {
                    t
                }),
            }
        };
    assert(item_possible(s, p, item));
    let recognition_changed = match outcome {
        Ok(changed) => changed,
        Err(error) => {
            return Err(error);
        },
    };
    metadata.version = METADATA_VERSION;
    assert(metadata.deep_view() == current(recognized_record(t, b, p, item)));
    if profiles_changed || recognition_changed {
        save_metadata(credentials, &metadata);
    }
    if origin == Origin::Legacy {
        credentials.write(FileWrite::RemoveLegacyMetadata);
    }
    Ok(metadata)
}

} // verus!
