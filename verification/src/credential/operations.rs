//! The operations on authorizations.
use crate::baijimu_cli::{AuthStatus, AuthStatusView, Workspace, WorkspaceView};
use crate::credential::activation;
use crate::credential::activation::{
    activate_loaded_profile, ActivationTransaction, SwitchTexts,
};
use crate::credential::auth;
use crate::credential::contract::{
    AuthProfileKind, CredentialMetadata, CredentialMetadataView, CredentialProfile,
    CredentialProfileView, LegacyGlobalCodexHomeState, LegacyGlobalCodexHomeStateView,
    PreparedWorkspaceProfile, PreparedWorkspaceReauthorization,
};
use crate::credential::errors;
use crate::credential::errors::{CredentialError, FileRole};
use crate::credential::files::{FileRead, FileReadView};
use crate::credential::identity;
use crate::credential::loading;
use crate::credential::metadata;
use crate::credential::metadata::{load_metadata, save_metadata};
use crate::credential::profiles;
use crate::credential::recognition;
use crate::credential::store;
use crate::credential::store::{CredentialStore, CredentialStoreView, FileWrite, FileWriteView};
use crate::duplicate::{copy_bytes, Duplicate};
use crate::ids;
use crate::product_config::{ProductConfig, ProductConfigView};
use crate::text;
use vstd::prelude::*;

verus! {

/// The outcome of putting a profile in effect.
pub open spec fn activation_outcome(
    s: CredentialStoreView,
    id: Seq<char>,
    now: u64,
    product: ProductConfigView,
    item: Option<Seq<char>>,
    texts: SwitchTexts,
) -> (CredentialStoreView, Result<CredentialMetadataView, CredentialError>) {
    match metadata::loaded(s, product, item) {
        (t, Err(error)) => (t, Err(error)),
        (t, Ok(m)) => activation::switch_outcome(t, m, id, now, product, texts),
    }
}

/// Whether the texts are ones that putting the profile in effect may write.
pub open spec fn activation_texts_possible(
    s: CredentialStoreView,
    id: Seq<char>,
    product: ProductConfigView,
    item: Option<Seq<char>>,
    texts: SwitchTexts,
) -> bool {
    &&& metadata::item_possible(s, product, item)
    &&& metadata::loaded(s, product, item) matches (t, Ok(m))
        ==> activation::outcome_texts_possible(t, m, id, product, texts)
}

/// Whether the result says what the outcome does.
pub open spec fn activation_fits(
    res: Result<ActivationTransaction, CredentialError>,
    s: CredentialStoreView,
    id: Seq<char>,
    now: u64,
    product: ProductConfigView,
    item: Option<Seq<char>>,
    texts: SwitchTexts,
) -> bool {
    match metadata::loaded(s, product, item) {
        (_, Err(error)) => res == Err::<ActivationTransaction, CredentialError>(error),
        (t, Ok(m)) => activation::transaction_fits(
            res,
            activation_outcome(s, id, now, product, item, texts).1,
            t,
            m,
            id,
        ),
    }
}

/// Puts a profile in effect: what was in effect is kept for its profile, the shared files are
/// switched and the record is updated. On failure the shared files and the record are put back.
pub fn activate_prepared_profile(
    credentials: &mut CredentialStore,
    prepared: &CredentialProfile,
    now: u64,
    product: &ProductConfig,
) -> (res: Result<ActivationTransaction, CredentialError>)
    ensures
        exists|item: Option<Seq<char>>, texts: SwitchTexts|
            #![trigger activation_texts_possible(old(credentials).deep_view(), prepared.profile_id@, product.deep_view(), item, texts)]
            activation_texts_possible(
                old(credentials).deep_view(),
                prepared.profile_id@,
                product.deep_view(),
                item,
                texts,
            ) && activation_outcome(
                old(credentials).deep_view(),
                prepared.profile_id@,
                now,
                product.deep_view(),
                item,
                texts,
            ).0 == final(credentials).deep_view() && activation_fits(
                res,
                old(credentials).deep_view(),
                prepared.profile_id@,
                now,
                product.deep_view(),
                item,
                texts,
            ),
{
    let ghost s = credentials.deep_view();
    let ghost p = product.deep_view();
    let ghost id = prepared.profile_id@;
    let loaded = load_metadata(credentials, product);
    let ghost item = choose|item: Option<Seq<char>>|
        #![trigger metadata::item_possible(s, p, item)]
        metadata::item_possible(s, p, item) && metadata::loaded(s, p, item) == (
            credentials.deep_view(),
            metadata::result_view(loaded),
        );
    match loaded {
        Err(error) => {
            proof {
                let texts = SwitchTexts { item: None, content: seq![] };
                assert(activation_texts_possible(s, id, p, item, texts));
            }
            Err(error)
        },
        Ok(previous) => {
            let ghost t = credentials.deep_view();
            let ghost m = previous.deep_view();
            let res = activate_loaded_profile(credentials, previous, prepared, now, product);
            proof {
                let texts = choose|texts: SwitchTexts|
                    #![trigger activation::outcome_texts_possible(t, m, id, p, texts)]
                    activation::outcome_texts_possible(t, m, id, p, texts) && ({
                        let outcome = activation::switch_outcome(t, m, id, now, p, texts);
                        outcome.0 == credentials.deep_view() && activation::transaction_fits(
                            res,
                            outcome.1,
                            t,
                            m,
                            id,
                        )
                    });
                assert(activation_texts_possible(s, id, p, item, texts));
            }
            res
        },
    }
}

/// The profile that can be put in effect, or why it cannot.
pub open spec fn preparation(
    t: CredentialStoreView,
    m: CredentialMetadataView,
    id: Seq<char>,
) -> Result<CredentialProfileView, CredentialError> {
    match profiles::first_where(m.profiles, profiles::with_id(id)) {
        None => Err(CredentialError::ProfileNotFound),
        Some(profile) => if profile.kind == AuthProfileKind::Baijimu {
            match store::profile_auth_of(t, recognition::key_of(profile)) {
                FileReadView::Unreadable => Err(CredentialError::ProfileUnreadable),
                FileReadView::Missing => Err(CredentialError::ProfileAuthMissing),
                FileReadView::Content(_) => Ok(profile),
            }
        } else {
            Ok(profile)
        },
    }
}

/// The profile of a result.
pub open spec fn profile_result(res: Result<CredentialProfile, CredentialError>) -> Result<
    CredentialProfileView,
    CredentialError,
> {
    match res {
        Ok(profile) => Ok(profile.deep_view()),
        Err(error) => Err(error),
    }
}

/// Finds a profile that can be put in effect.
pub fn prepare_profile_activation(
    credentials: &mut CredentialStore,
    profile_id: &str,
    product: &ProductConfig,
) -> (res: Result<CredentialProfile, CredentialError>)
    ensures
        text::blank(profile_id@) ==> res == Err::<CredentialProfile, CredentialError>(
            CredentialError::EmptyProfileId,
        ) && final(credentials).deep_view() == old(credentials).deep_view(),
        !text::blank(profile_id@) ==> exists|item: Option<Seq<char>>|
            #![trigger metadata::item_possible(old(credentials).deep_view(), product.deep_view(), item)]
            metadata::item_possible(old(credentials).deep_view(), product.deep_view(), item)
                && ({
                let (t, loaded) = metadata::loaded(
                    old(credentials).deep_view(),
                    product.deep_view(),
                    item,
                );
                final(credentials).deep_view() == t && profile_result(res) == match loaded {
                    Err(error) => Err(error),
                    Ok(m) => preparation(t, m, profile_id@),
                }
            }),
{
    if text::is_blank(profile_id) {
        return Err(CredentialError::EmptyProfileId);
    }
    let m = load_metadata(credentials, product)?;
    let profile = match profiles::find_profile(&m.profiles, profile_id) {
        Some(profile) => profile.duplicate(),
        None => {
            return Err(CredentialError::ProfileNotFound);
        },
    };
    if profile.kind == AuthProfileKind::Baijimu {
        let key = identity::profile_short_key(profile.profile_id.as_str());
        match credentials.profile_auth_file(key.as_str()) {
            FileRead::Unreadable => {
                return Err(CredentialError::ProfileUnreadable);
            },
            FileRead::Missing => {
                return Err(CredentialError::ProfileAuthMissing);
            },
            FileRead::Content(_) => {},
        }
    }
    Ok(profile)
}

/// Whether a workspace that was set up may be put in effect without asking: nothing is in effect
/// yet, and there was no login before.
pub fn should_auto_activate_workspace(metadata: &CredentialMetadata, original_login: bool) -> (res:
    bool)
    ensures
        res == (metadata.deep_view().active_profile_id is None && !original_login),
{
    metadata.active_profile_id.is_none() && !original_login
}

/// Whether a workspace that was set up is put in effect: nothing is in effect yet.
pub fn should_auto_activate_workspace_after_setup(
    credentials: &mut CredentialStore,
    product: &ProductConfig,
) -> (res: Result<bool, CredentialError>)
    ensures
        exists|item: Option<Seq<char>>|
            #![trigger metadata::item_possible(old(credentials).deep_view(), product.deep_view(), item)]
            metadata::item_possible(old(credentials).deep_view(), product.deep_view(), item)
                && ({
                let (t, loaded) = metadata::loaded(
                    old(credentials).deep_view(),
                    product.deep_view(),
                    item,
                );
                final(credentials).deep_view() == t && res == match loaded {
                    Err(error) => Err(error),
                    Ok(m) => Ok(m.active_profile_id is None),
                }
            }),
{
    let m = load_metadata(credentials, product)?;
    Ok(m.active_profile_id.is_none())
}

/// Whether the profile is one of the workspace with a stored key.
pub open spec fn ready_profile(
    t: CredentialStoreView,
    profile: CredentialProfileView,
    workspace: u64,
) -> bool {
    profiles::of_workspace(workspace)(profile) && auth::known_api_key(
        store::profile_auth_of(t, recognition::key_of(profile)),
    ) is Some
}

/// Whether a profile of the workspace has a stored key.
pub open spec fn workspace_ready(
    t: CredentialStoreView,
    m: CredentialMetadataView,
    workspace: u64,
) -> bool {
    exists|i: int|
        0 <= i < m.profiles.len() && ready_profile(t, #[trigger] m.profiles[i], workspace)
}

/// Whether a profile of the workspace has a stored key.
pub fn find_ready(
    credentials: &CredentialStore,
    all: &Vec<CredentialProfile>,
    workspace: u64,
) -> (res: bool)
    ensures
        res == exists|i: int|
            0 <= i < all.deep_view().len() && ready_profile(
                credentials.deep_view(),
                #[trigger] all.deep_view()[i],
                workspace,
            ),
{
    let ghost t = credentials.deep_view();
    let ghost views = all.deep_view();
    let mut i: usize = 0;
    while i < all.len()
        invariant
            i <= all.len(),
            t == credentials.deep_view(),
            views == all.deep_view(),
            forall|j: int| 0 <= j < i ==> !ready_profile(t, #[trigger] views[j], workspace),
        decreases all.len() - i,
    {
        let profile = &all[i];
        if profile.kind == AuthProfileKind::Baijimu && profile.workspace_id == workspace {
            let key = identity::profile_short_key(profile.profile_id.as_str());
            if auth::find_api_key(credentials.profile_auth_file(key.as_str())).is_some() {
                assert(ready_profile(t, views[i as int], workspace));
                return true;
            }
        }
        assert(!ready_profile(t, views[i as int], workspace));
        i = i + 1;
    }
    false
}

/// Whether a profile of the workspace has a stored key. A record that cannot be read has none.
pub fn codex_ready_for_workspace(
    credentials: &mut CredentialStore,
    workspace_id: u64,
    product: &ProductConfig,
) -> (res: bool)
    ensures
        exists|item: Option<Seq<char>>|
            #![trigger metadata::item_possible(old(credentials).deep_view(), product.deep_view(), item)]
            metadata::item_possible(old(credentials).deep_view(), product.deep_view(), item)
                && ({
                let (t, loaded) = metadata::loaded(
                    old(credentials).deep_view(),
                    product.deep_view(),
                    item,
                );
                final(credentials).deep_view() == t && res == (loaded matches Ok(m)
                    && workspace_ready(t, m, workspace_id))
            }),
{
    match load_metadata(credentials, product) {
        Ok(m) => find_ready(credentials, &m.profiles, workspace_id),
        Err(_) => false,
    }
}

/// The key of the preferred profile of the workspace, or why there is none.
pub open spec fn router_credential(
    t: CredentialStoreView,
    m: CredentialMetadataView,
    workspace: u64,
) -> Result<Seq<char>, CredentialError> {
    match profiles::preferred(m.profiles, m.active_profile_id, workspace) {
        None => Err(CredentialError::CredentialProfileMissing),
        Some(profile) => match auth::stored_api_key(
            store::profile_auth_of(t, recognition::key_of(profile)),
        ) {
            Err(fault) => Err(errors::auth_error(FileRole::ProfileAuth, fault)),
            Ok(None) => Err(CredentialError::ApiKeyMissing),
            Ok(Some(key)) => Ok(key),
        },
    }
}

/// The text of a result.
pub open spec fn text_result(res: Result<String, CredentialError>) -> Result<
    Seq<char>,
    CredentialError,
> {
    match res {
        Ok(found) => Ok(found@),
        Err(error) => Err(error),
    }
}

/// The key of the preferred profile of the workspace.
pub fn router_credential_for_workspace(
    credentials: &mut CredentialStore,
    workspace_id: u64,
    product: &ProductConfig,
) -> (res: Result<String, CredentialError>)
    ensures
        exists|item: Option<Seq<char>>|
            #![trigger metadata::item_possible(old(credentials).deep_view(), product.deep_view(), item)]
            metadata::item_possible(old(credentials).deep_view(), product.deep_view(), item)
                && ({
                let (t, loaded) = metadata::loaded(
                    old(credentials).deep_view(),
                    product.deep_view(),
                    item,
                );
                final(credentials).deep_view() == t && text_result(res) == match loaded {
                    Err(error) => Err(error),
                    Ok(m) => router_credential(t, m, workspace_id),
                }
            }),
{
    let m = load_metadata(credentials, product)?;
    let profile = match profiles::select_workspace_profile(
        &m.profiles,
        &m.active_profile_id,
        workspace_id,
    ) {
        Some(profile) => profile,
        None => {
            return Err(CredentialError::CredentialProfileMissing);
        },
    };
    let key = identity::profile_short_key(profile.profile_id.as_str());
    match auth::read_codex_api_key(credentials.profile_auth_file(key.as_str())) {
        Ok(Some(found)) => Ok(found),
        Ok(None) => Err(CredentialError::ApiKeyMissing),
        Err(fault) => Err(errors::login_error(FileRole::ProfileAuth, fault)),
    }
}

/// The workspace that the device is authorized for, or why it is not. A status or a workspace that
/// the platform client did not give is missing.
pub open spec fn authorized(
    workspace_id: u64,
    status: Option<AuthStatusView>,
    workspace: Option<WorkspaceView>,
) -> Result<WorkspaceView, CredentialError> {
    if workspace_id == 0 {
        Err(CredentialError::WorkspaceIdZero)
    } else {
        match status {
            None => Err(CredentialError::AuthStatusUnavailable),
            Some(known) => if !known.authenticated || !known.workspace_ids.contains(workspace_id) {
                Err(CredentialError::WorkspaceNotAuthorized)
            } else {
                match workspace {
                    None => Err(CredentialError::WorkspaceUnconfirmed),
                    Some(found) => Ok(found),
                }
            },
        }
    }
}

/// The workspace that the device is authorized for.
pub fn authorized_workspace(
    workspace_id: u64,
    status: &Option<AuthStatus>,
    workspace: &Option<Workspace>,
) -> (res: Result<Workspace, CredentialError>)
    ensures
        match res {
            Ok(found) => authorized(workspace_id, status.deep_view(), workspace.deep_view()) == Ok::<
                WorkspaceView,
                CredentialError,
            >(found.deep_view()),
            Err(error) => authorized(workspace_id, status.deep_view(), workspace.deep_view())
                == Err::<WorkspaceView, CredentialError>(error),
        },
{
    if workspace_id == 0 {
        return Err(CredentialError::WorkspaceIdZero);
    }
    match status {
        None => Err(CredentialError::AuthStatusUnavailable),
        Some(known) => {
            assert(known.workspace_ids.deep_view() =~= known.workspace_ids@);
            if !known.authenticated || !ids::contains_id(&known.workspace_ids, workspace_id) {
                return Err(CredentialError::WorkspaceNotAuthorized);
            }
            match workspace {
                None => Err(CredentialError::WorkspaceUnconfirmed),
                Some(found) => Ok(found.duplicate()),
            }
        },
    }
}

/// The profile of a workspace that is being set up: the preferred one it has, or a new one.
pub open spec fn workspace_profile(
    t: CredentialStoreView,
    m: CredentialMetadataView,
    workspace_id: u64,
    workspace: WorkspaceView,
    environment: Seq<char>,
    product: ProductConfigView,
) -> CredentialProfileView {
    match profiles::preferred(m.profiles, m.active_profile_id, workspace_id) {
        Some(profile) => CredentialProfileView {
            workspace_name: workspace.name,
            codex_home: t.shared_home.text,
            ..profile
        },
        None => CredentialProfileView {
            profile_id: identity::identity(environment, None, None, workspace_id),
            kind: AuthProfileKind::Baijimu,
            name: workspace.name,
            environment,
            user_id: None,
            client_id: None,
            workspace_id,
            workspace_name: workspace.name,
            model: product.default_model,
            activated_at_epoch_seconds: 0,
            codex_home: t.shared_home.text,
            credential_status: "verified"@,
        },
    }
}

/// The profile of a workspace that is being set up.
fn make_workspace_profile(
    credentials: &CredentialStore,
    m: &CredentialMetadata,
    workspace_id: u64,
    workspace: &Workspace,
    environment: &str,
    product: &ProductConfig,
) -> (res: (CredentialProfile, bool))
    ensures
        res.0.deep_view() == workspace_profile(
            credentials.deep_view(),
            m.deep_view(),
            workspace_id,
            workspace.deep_view(),
            environment@,
            product.deep_view(),
        ),
        res.1 == (profiles::preferred(
            m.deep_view().profiles,
            m.deep_view().active_profile_id,
            workspace_id,
        ) is Some),
{
    match profiles::select_workspace_profile(&m.profiles, &m.active_profile_id, workspace_id) {
        Some(found) => {
            let mut profile = found.duplicate();
            profile.workspace_name = workspace.name.clone();
            profile.codex_home = credentials.shared_home.text.clone();
            (profile, true)
        },
        None => {
            let none: Option<String> = None;
            (
                CredentialProfile {
                    profile_id: identity::profile_id(environment, None, &none, workspace_id),
                    kind: AuthProfileKind::Baijimu,
                    name: workspace.name.clone(),
                    environment: environment.to_string(),
                    user_id: None,
                    client_id: None,
                    workspace_id,
                    workspace_name: workspace.name.clone(),
                    model: product.default_model.clone(),
                    activated_at_epoch_seconds: 0,
                    codex_home: credentials.shared_home.text.clone(),
                    credential_status: "verified".to_string(),
                },
                false,
            )
        },
    }
}

/// What a workspace profile that is being set up has for a credential.
#[derive(Debug)]
pub enum InitialCredential {
    /// The stored one.
    Stored(String),
    /// None yet: one may be issued.
    ToIssue,
}

/// What a workspace profile that is being set up has for a credential, or why it may not be set up
/// like this. A profile that was set up before never gets a new credential this way.
pub open spec fn initial_credential(
    file: FileReadView,
    may_issue: bool,
) -> Result<Option<Seq<char>>, CredentialError> {
    match auth::stored_api_key(file) {
        Ok(Some(key)) => Ok(Some(key)),
        Ok(None) => if may_issue {
            Ok(None)
        } else {
            Err(CredentialError::InitializedAuthMissing)
        },
        Err(fault) => if may_issue {
            Err(errors::auth_error(FileRole::ProfileAuth, fault))
        } else {
            Err(CredentialError::InitializedAuthDamaged)
        },
    }
}

/// What a workspace profile that is being set up has for a credential.
pub fn find_initial_credential(file: &FileRead, may_issue: bool) -> (res: Result<
    InitialCredential,
    CredentialError,
>)
    ensures
        match res {
            Ok(InitialCredential::Stored(key)) => initial_credential(file.deep_view(), may_issue)
                == Ok::<Option<Seq<char>>, CredentialError>(Some(key@)),
            Ok(InitialCredential::ToIssue) => initial_credential(file.deep_view(), may_issue)
                == Ok::<Option<Seq<char>>, CredentialError>(None),
            Err(error) => initial_credential(file.deep_view(), may_issue) == Err::<
                Option<Seq<char>>,
                CredentialError,
            >(error),
        },
{
    match auth::read_codex_api_key(file) {
        Ok(Some(key)) => Ok(InitialCredential::Stored(key)),
        Ok(None) => {
            if may_issue {
                Ok(InitialCredential::ToIssue)
            } else {
                Err(CredentialError::InitializedAuthMissing)
            }
        },
        Err(fault) => {
            if may_issue {
                Err(errors::login_error(FileRole::ProfileAuth, fault))
            } else {
                Err(CredentialError::InitializedAuthDamaged)
            }
        },
    }
}

/// The credential that setting up a workspace profile ends with, or why it stops. A credential that
/// was not issued is missing.
pub open spec fn settled_credential(
    file: FileReadView,
    may_issue: bool,
    issued: Option<Seq<char>>,
) -> Result<Seq<char>, CredentialError> {
    match initial_credential(file, may_issue) {
        Err(error) => Err(error),
        Ok(Some(key)) => Ok(key),
        Ok(None) => match issued {
            Some(credential) => Ok(credential),
            None => Err(CredentialError::CredentialNotIssued),
        },
    }
}

/// The store once the login file of a workspace profile that is being set up is stored. The one
/// that is there stays as it is; `login` is the content of a new one.
pub open spec fn initial_files(
    t: CredentialStoreView,
    key: Seq<char>,
    may_issue: bool,
    issued: Option<Seq<char>>,
    login: Seq<u8>,
) -> CredentialStoreView {
    let file = store::profile_auth_of(t, key);
    if initial_credential(file, may_issue) == Ok::<Option<Seq<char>>, CredentialError>(None)
        && issued is Some {
        store::written(t, FileWriteView::ProfileAuth(key, login))
    } else {
        t
    }
}

/// Stores the login file of a workspace profile that is being set up, and gives its credential.
/// The shared files are not touched.
pub fn initialize_workspace_files(
    credentials: &mut CredentialStore,
    profile: &CredentialProfile,
    may_issue_initial_credential: bool,
    issued: &Option<String>,
) -> (res: Result<String, CredentialError>)
    ensures
        text_result(res) == settled_credential(
            store::profile_auth_of(
                old(credentials).deep_view(),
                recognition::key_of(profile.deep_view()),
            ),
            may_issue_initial_credential,
            text::opt_view(*issued),
        ),
        exists|login: Seq<u8>|
            #![trigger initial_files(old(credentials).deep_view(), recognition::key_of(profile.deep_view()), may_issue_initial_credential, text::opt_view(*issued), login)]
            (issued is Some ==> auth::workspace_login(login, issued->0@)) && final(credentials).deep_view() == initial_files(
                old(credentials).deep_view(),
                recognition::key_of(profile.deep_view()),
                may_issue_initial_credential,
                text::opt_view(*issued),
                login,
            ),
{
    let ghost t = credentials.deep_view();
    let ghost k = recognition::key_of(profile.deep_view());
    let ghost given = text::opt_view(*issued);
    let login = match issued {
        Some(credential) => auth::workspace_auth(credential.as_str()),
        None => Vec::new(),
    };
    let key = identity::profile_short_key(profile.profile_id.as_str());
    let found = find_initial_credential(
        credentials.profile_auth_file(key.as_str()),
        may_issue_initial_credential,
    );
    let ghost bytes = login@;
    let ghost after = initial_files(t, k, may_issue_initial_credential, given, bytes);
    match found {
        Err(error) => Err(error),
        Ok(InitialCredential::Stored(stored)) => Ok(stored),
        Ok(InitialCredential::ToIssue) => {
            match issued {
                Some(credential) => {
                    credentials.write(FileWrite::ProfileAuth(key, login));
                    Ok(credential.clone())
                },
                None => Err(CredentialError::CredentialNotIssued),
            }
        },
    }
}

/// The profile with the status of a credential that is in order.
pub open spec fn verified(profile: CredentialProfileView) -> CredentialProfileView {
    CredentialProfileView { credential_status: "verified"@, ..profile }
}

/// The record with the profile in place of the one with its identity.
pub open spec fn with_profile(
    m: CredentialMetadataView,
    profile: CredentialProfileView,
) -> CredentialMetadataView {
    CredentialMetadataView { profiles: profiles::replaced(m.profiles, profile), ..m }
}

/// The outcome of setting up the profile of a workspace, given the record as it was loaded.
pub open spec fn initialization(
    t: CredentialStoreView,
    m: CredentialMetadataView,
    workspace_id: u64,
    workspace: WorkspaceView,
    environment: Seq<char>,
    issued: Option<Seq<char>>,
    product: ProductConfigView,
    login: Seq<u8>,
) -> (CredentialStoreView, Result<(CredentialProfileView, Seq<char>), CredentialError>) {
    let fresh = profiles::preferred(m.profiles, m.active_profile_id, workspace_id) is None;
    let profile = workspace_profile(t, m, workspace_id, workspace, environment, product);
    let key = recognition::key_of(profile);
    let stored = initial_files(t, key, fresh, issued, login);
    match settled_credential(store::profile_auth_of(t, key), fresh, issued) {
        Err(error) => (stored, Err(error)),
        Ok(credential) => (
            store::written(stored, FileWriteView::Metadata(with_profile(m, verified(profile)))),
            Ok((verified(profile), credential)),
        ),
    }
}

/// The outcome of setting up the profile of a workspace.
pub open spec fn initialization_outcome(
    s: CredentialStoreView,
    workspace_id: u64,
    status: Option<AuthStatusView>,
    workspace: Option<WorkspaceView>,
    issued: Option<Seq<char>>,
    product: ProductConfigView,
    item: Option<Seq<char>>,
    login: Seq<u8>,
) -> (CredentialStoreView, Result<(CredentialProfileView, Seq<char>), CredentialError>) {
    match authorized(workspace_id, status, workspace) {
        Err(error) => (s, Err(error)),
        Ok(found) => match metadata::loaded(s, product, item) {
            (t, Err(error)) => (t, Err(error)),
            (t, Ok(m)) => initialization(
                t,
                m,
                workspace_id,
                found,
                status->0.base_url,
                issued,
                product,
                login,
            ),
        },
    }
}

/// The profile and the credential of a result.
pub open spec fn prepared_result(
    res: Result<PreparedWorkspaceProfile, CredentialError>,
) -> Result<(CredentialProfileView, Seq<char>), CredentialError> {
    match res {
        Ok(prepared) => Ok((prepared.profile.deep_view(), prepared.credential@)),
        Err(error) => Err(error),
    }
}

/// Whether the texts are ones that setting up the profile of a workspace may write.
pub open spec fn login_possible(
    s: CredentialStoreView,
    product: ProductConfigView,
    item: Option<Seq<char>>,
    issued: Option<Seq<char>>,
    login: Seq<u8>,
) -> bool {
    metadata::item_possible(s, product, item) && (issued matches Some(credential)
        ==> auth::workspace_login(login, credential))
}

/// Sets up the profile of a workspace that the device is authorized for. A stored credential is
/// used again; where there is none, the issued one is stored, but only for a profile that is new.
/// The shared files are not touched.
pub fn initialize_workspace_profile(
    credentials: &mut CredentialStore,
    workspace_id: u64,
    status: &Option<AuthStatus>,
    workspace: &Option<Workspace>,
    issued: &Option<String>,
    product: &ProductConfig,
) -> (res: Result<PreparedWorkspaceProfile, CredentialError>)
    ensures
        authorized(workspace_id, status.deep_view(), workspace.deep_view()) matches Err(error)
            ==> res == Err::<PreparedWorkspaceProfile, CredentialError>(error) && final(credentials).deep_view() == old(credentials).deep_view(),
        authorized(workspace_id, status.deep_view(), workspace.deep_view()) is Ok
            ==> exists|item: Option<Seq<char>>, login: Seq<u8>|
            #![trigger login_possible(old(credentials).deep_view(), product.deep_view(), item, text::opt_view(*issued), login)]
            login_possible(
                old(credentials).deep_view(),
                product.deep_view(),
                item,
                text::opt_view(*issued),
                login,
            ) && initialization_outcome(
                old(credentials).deep_view(),
                workspace_id,
                status.deep_view(),
                workspace.deep_view(),
                text::opt_view(*issued),
                product.deep_view(),
                item,
                login,
            ) == (final(credentials).deep_view(), prepared_result(res)),
{
    let ghost s = credentials.deep_view();
    let ghost p = product.deep_view();
    let ghost given = text::opt_view(*issued);
    let found = authorized_workspace(workspace_id, status, workspace)?;
    let environment = match status {
        Some(known) => known.base_url.clone(),
        None => {
            return Err(CredentialError::AuthStatusUnavailable);
        },
    };
    let loaded = load_metadata(credentials, product);
    let ghost item = choose|item: Option<Seq<char>>|
        #![trigger metadata::item_possible(s, p, item)]
        metadata::item_possible(s, p, item) && metadata::loaded(s, p, item) == (
            credentials.deep_view(),
            metadata::result_view(loaded),
        );
    let mut m = match loaded {
        Ok(m) => m,
        Err(error) => {
            let witness = match issued {
                Some(credential) => auth::workspace_auth(credential.as_str()),
                None => Vec::new(),
            };
            assert(login_possible(s, p, item, given, witness@));
            return Err(error);
        },
    };
    let ghost t = credentials.deep_view();
    let ghost before = m.deep_view();
    let (mut profile, preexisting) = make_workspace_profile(
        credentials,
        &m,
        workspace_id,
        &found,
        environment.as_str(),
        product,
    );
    let ghost made = profile.deep_view();
    let fresh = !preexisting;
    let outcome = initialize_workspace_files(credentials, &profile, fresh, issued);
    let ghost login = choose|login: Seq<u8>|
        #![trigger initial_files(t, recognition::key_of(made), fresh, given, login)]
        (issued is Some ==> auth::workspace_login(login, issued->0@)) && credentials.deep_view()
            == initial_files(t, recognition::key_of(made), fresh, given, login);
    assert(login_possible(s, p, item, given, login));
    let credential = match outcome {
        Ok(credential) => credential,
        Err(error) => {
            return Err(error);
        },
    };
    profile.credential_status = "verified".to_string();
    profiles::replace_profile(&mut m.profiles, &profile);
    assert(m.deep_view() == with_profile(before, verified(made)));
    save_metadata(credentials, &m);
    Ok(PreparedWorkspaceProfile { profile, credential })
}

/// The profile that gets a new credential, or why none does. A credential that was not issued is
/// missing.
pub open spec fn reauthorization(
    m: CredentialMetadataView,
    workspace_id: u64,
    issued: Option<Seq<char>>,
) -> Result<(CredentialProfileView, Seq<char>), CredentialError> {
    match profiles::preferred(m.profiles, m.active_profile_id, workspace_id) {
        None => Err(CredentialError::WorkspaceNotInitialized),
        Some(profile) => match issued {
            None => Err(CredentialError::CredentialNotReissued),
            Some(credential) => Ok((profile, credential)),
        },
    }
}

/// The profile and the new credential of a result.
pub open spec fn reauthorization_result(
    res: Result<PreparedWorkspaceReauthorization, CredentialError>,
) -> Result<(CredentialProfileView, Seq<char>), CredentialError> {
    match res {
        Ok(prepared) => Ok((prepared.profile.deep_view(), prepared.credential@)),
        Err(error) => Err(error),
    }
}

/// Finds the profile of a workspace that the device is authorized for and that has one, for the
/// credential that was newly issued. Nothing is stored yet.
pub fn prepare_workspace_reauthorization(
    credentials: &mut CredentialStore,
    workspace_id: u64,
    status: &Option<AuthStatus>,
    workspace: &Option<Workspace>,
    issued: &Option<String>,
    product: &ProductConfig,
) -> (res: Result<PreparedWorkspaceReauthorization, CredentialError>)
    ensures
        authorized(workspace_id, status.deep_view(), workspace.deep_view()) matches Err(error)
            ==> res == Err::<PreparedWorkspaceReauthorization, CredentialError>(error) && final(credentials).deep_view() == old(credentials).deep_view(),
        authorized(workspace_id, status.deep_view(), workspace.deep_view()) is Ok
            ==> exists|item: Option<Seq<char>>|
            #![trigger metadata::item_possible(old(credentials).deep_view(), product.deep_view(), item)]
            metadata::item_possible(old(credentials).deep_view(), product.deep_view(), item)
                && ({
                let (t, loaded) = metadata::loaded(
                    old(credentials).deep_view(),
                    product.deep_view(),
                    item,
                );
                final(credentials).deep_view() == t && reauthorization_result(res) == match loaded {
                    Err(error) => Err(error),
                    Ok(m) => reauthorization(m, workspace_id, text::opt_view(*issued)),
                }
            }),
{
    let _found = authorized_workspace(workspace_id, status, workspace)?;
    let m = load_metadata(credentials, product)?;
    let profile = match profiles::select_workspace_profile(
        &m.profiles,
        &m.active_profile_id,
        workspace_id,
    ) {
        Some(profile) => profile.duplicate(),
        None => {
            return Err(CredentialError::WorkspaceNotInitialized);
        },
    };
    match issued {
        Some(credential) => Ok(
            PreparedWorkspaceReauthorization { profile, credential: credential.clone() },
        ),
        None => Err(CredentialError::CredentialNotReissued),
    }
}

/// The store with the shared login file that of the credential. It is not written where it holds
/// the credential already.
pub open spec fn login_synced(
    t: CredentialStoreView,
    credential: Seq<char>,
    login: Seq<u8>,
) -> CredentialStoreView {
    if auth::stored_api_key(t.shared_auth) == Ok::<Option<Seq<char>>, auth::AuthFault>(
        Some(credential),
    ) {
        t
    } else {
        store::written(t, FileWriteView::SharedAuth(login))
    }
}

/// The outcome of storing a new credential, given the record as it was loaded.
pub open spec fn reauthorized(
    t: CredentialStoreView,
    m: CredentialMetadataView,
    profile: CredentialProfileView,
    credential: Seq<char>,
    login: Seq<u8>,
) -> (CredentialStoreView, Result<CredentialProfileView, CredentialError>) {
    let stored = store::written(
        t,
        FileWriteView::ProfileAuth(recognition::key_of(profile), login),
    );
    let active = m.active_profile_id == Some(profile.profile_id);
    match auth::stored_api_key(t.shared_auth) {
        Err(fault) if active => (
            stored,
            Err(errors::auth_error(FileRole::SharedAuth, fault)),
        ),
        _ => (
            store::written(
                if active {
                    login_synced(stored, credential, login)
                } else {
                    stored
                },
                FileWriteView::Metadata(with_profile(m, verified(profile))),
            ),
            Ok(verified(profile)),
        ),
    }
}

/// The outcome of storing a new credential.
pub open spec fn reauthorization_outcome(
    s: CredentialStoreView,
    profile: CredentialProfileView,
    credential: Seq<char>,
    product: ProductConfigView,
    item: Option<Seq<char>>,
    login: Seq<u8>,
) -> (CredentialStoreView, Result<CredentialProfileView, CredentialError>) {
    match metadata::loaded(s, product, item) {
        (t, Err(error)) => (t, Err(error)),
        (t, Ok(m)) => reauthorized(t, m, profile, credential, login),
    }
}

/// Stores a new credential for its profile. Where the profile is the one in effect, the shared
/// login file is replaced too; otherwise the shared files are not touched.
pub fn commit_workspace_reauthorization(
    credentials: &mut CredentialStore,
    prepared: PreparedWorkspaceReauthorization,
    product: &ProductConfig,
) -> (res: Result<CredentialProfile, CredentialError>)
    ensures
        exists|item: Option<Seq<char>>, login: Seq<u8>|
            #![trigger login_possible(old(credentials).deep_view(), product.deep_view(), item, Some(prepared.credential@), login)]
            login_possible(
                old(credentials).deep_view(),
                product.deep_view(),
                item,
                Some(prepared.credential@),
                login,
            ) && reauthorization_outcome(
                old(credentials).deep_view(),
                prepared.profile.deep_view(),
                prepared.credential@,
                product.deep_view(),
                item,
                login,
            ) == (final(credentials).deep_view(), profile_result(res)),
{
    let ghost s = credentials.deep_view();
    let ghost p = product.deep_view();
    let ghost c = prepared.credential@;
    let login = auth::workspace_auth(prepared.credential.as_str());
    let ghost bytes = login@;
    let loaded = load_metadata(credentials, product);
    let ghost item = choose|item: Option<Seq<char>>|
        #![trigger metadata::item_possible(s, p, item)]
        metadata::item_possible(s, p, item) && metadata::loaded(s, p, item) == (
            credentials.deep_view(),
            metadata::result_view(loaded),
        );
    assert(login_possible(s, p, item, Some(c), bytes));
    let mut m = match loaded {
        Ok(m) => m,
        Err(error) => {
            return Err(error);
        },
    };
    let ghost before = m.deep_view();
    let mut profile = prepared.profile;
    let ghost given = profile.deep_view();
    let key = identity::profile_short_key(profile.profile_id.as_str());
    credentials.write(FileWrite::ProfileAuth(key, copy_bytes(&login)));
    if profiles::is_active(&m.active_profile_id, profile.profile_id.as_str()) {
        match auth::read_codex_api_key(&credentials.shared_auth) {
            Err(fault) => {
                return Err(errors::login_error(FileRole::SharedAuth, fault));
            },
            Ok(current) => {
                if !profiles::is_active(&current, prepared.credential.as_str()) {
                    credentials.write(FileWrite::SharedAuth(login));
                }
            },
        }
    }
    profile.credential_status = "verified".to_string();
    profiles::replace_profile(&mut m.profiles, &profile);
    assert(m.deep_view() == with_profile(before, verified(given)));
    save_metadata(credentials, &m);
    Ok(profile)
}

/// The state of the user-level setting.
pub open spec fn legacy_home_state(
    s: CredentialStoreView,
    m: CredentialMetadataView,
) -> LegacyGlobalCodexHomeStateView {
    let required = s.external_home matches Some(path) && loading::is_managed(s, path);
    LegacyGlobalCodexHomeStateView {
        restore_required: required,
        can_restore: required && m.original_codex_home_state.captured,
        current_value: match s.external_home {
            Some(path) => Some(path.text),
            None => None,
        },
        restore_value: m.original_codex_home_state.value,
        restored_at_epoch_seconds: m.legacy_global_codex_home_restored_at_epoch_seconds,
    }
}

/// The state of the user-level setting.
pub fn legacy_global_codex_home_state(
    credentials: &CredentialStore,
    metadata: &CredentialMetadata,
) -> (res: LegacyGlobalCodexHomeState)
    ensures
        res.deep_view() == legacy_home_state(credentials.deep_view(), metadata.deep_view()),
{
    let restore_required = match &credentials.external_home {
        Some(path) => credentials.is_managed_codex_home(path),
        None => false,
    };
    LegacyGlobalCodexHomeState {
        restore_required,
        can_restore: restore_required && metadata.original_codex_home_state.captured,
        current_value: match &credentials.external_home {
            Some(path) => Some(path.text.clone()),
            None => None,
        },
        restore_value: metadata.original_codex_home_state.value.duplicate(),
        restored_at_epoch_seconds: metadata.legacy_global_codex_home_restored_at_epoch_seconds,
    }
}

/// What has to be done about the user-level setting.
#[derive(Debug)]
pub enum LegacyRestore {
    /// Nothing: it does not point into a managed directory.
    NotRequired,
    /// It is to be put back to this value, or unset; then the record is to be completed.
    Restore(Option<String>, CredentialMetadata),
}

/// Decides what has to be done about the user-level setting. One that points into a managed
/// directory is put back only where the value from before is known.
pub fn restore_legacy_global_codex_home(
    credentials: &mut CredentialStore,
    product: &ProductConfig,
) -> (res: Result<LegacyRestore, CredentialError>)
    ensures
        exists|item: Option<Seq<char>>|
            #![trigger metadata::item_possible(old(credentials).deep_view(), product.deep_view(), item)]
            metadata::item_possible(old(credentials).deep_view(), product.deep_view(), item)
                && ({
                let (t, loaded) = metadata::loaded(
                    old(credentials).deep_view(),
                    product.deep_view(),
                    item,
                );
                final(credentials).deep_view() == t && match loaded {
                    Err(error) => res == Err::<LegacyRestore, CredentialError>(error),
                    Ok(m) => if !legacy_home_state(t, m).restore_required {
                        res == Ok::<LegacyRestore, CredentialError>(LegacyRestore::NotRequired)
                    } else if !legacy_home_state(t, m).can_restore {
                        res == Err::<LegacyRestore, CredentialError>(
                            CredentialError::RestoreNotProven,
                        )
                    } else {
                        res matches Ok(LegacyRestore::Restore(value, record)) && text::opt_view(
                            value,
                        ) == m.original_codex_home_state.value && record.deep_view() == m
                    },
                }
            }),
{
    let m = load_metadata(credentials, product)?;
    let state = legacy_global_codex_home_state(credentials, &m);
    if !state.restore_required {
        return Ok(LegacyRestore::NotRequired);
    }
    if !state.can_restore {
        return Err(CredentialError::RestoreNotProven);
    }
    let value = m.original_codex_home_state.value.duplicate();
    Ok(LegacyRestore::Restore(value, m))
}

/// Records that the user-level setting was put back.
pub fn record_legacy_global_codex_home_restored(
    credentials: &mut CredentialStore,
    metadata: CredentialMetadata,
    now: u64,
)
    ensures
        final(credentials).deep_view() == store::written(
            old(credentials).deep_view(),
            FileWriteView::Metadata(
                (CredentialMetadataView {
                    legacy_global_codex_home_restored_at_epoch_seconds: Some(now),
                    ..metadata.deep_view()
                }),
            ),
        ),
{
    let mut recorded = metadata;
    recorded.legacy_global_codex_home_restored_at_epoch_seconds = Some(now);
    save_metadata(credentials, &recorded);
}

/// Completes the setup of a workspace: puts its profile in effect where that is asked for, and
/// makes sure that it has a stored key.
pub fn finalize_workspace_setup(
    credentials: &mut CredentialStore,
    profile: &CredentialProfile,
    auto_activate: bool,
    now: u64,
    product: &ProductConfig,
) -> (res: Result<(), CredentialError>)
    ensures
        exists|item: Option<Seq<char>>, texts: SwitchTexts, again: Option<Seq<char>>|
            #![trigger setup_texts_possible(old(credentials).deep_view(), profile.deep_view(), auto_activate, now, product.deep_view(), item, texts, again)]
            setup_texts_possible(
                old(credentials).deep_view(),
                profile.deep_view(),
                auto_activate,
                now,
                product.deep_view(),
                item,
                texts,
                again,
            ) && setup_outcome(
                old(credentials).deep_view(),
                profile.deep_view(),
                auto_activate,
                now,
                product.deep_view(),
                item,
                texts,
                again,
            ) == (final(credentials).deep_view(), res),
{
    let ghost s = credentials.deep_view();
    let ghost p = product.deep_view();
    let ghost pr = profile.deep_view();
    let ghost mut item: Option<Seq<char>> = None;
    let ghost mut texts = SwitchTexts { item: None, content: seq![] };
    if auto_activate {
        let activated = activate_prepared_profile(credentials, profile, now, product);
        proof {
            let (a, b) = choose|a: Option<Seq<char>>, b: SwitchTexts|
                #![trigger activation_texts_possible(s, pr.profile_id, p, a, b)]
                activation_texts_possible(s, pr.profile_id, p, a, b) && activation_outcome(
                    s,
                    pr.profile_id,
                    now,
                    p,
                    a,
                    b,
                ).0 == credentials.deep_view() && activation_fits(
                    activated,
                    s,
                    pr.profile_id,
                    now,
                    p,
                    a,
                    b,
                );
            item = a;
            texts = b;
        }
        match activated {
            Ok(transaction) => {
                let _active = transaction.commit();
            },
            Err(error) => {
                proof {
                    assert(setup_texts_possible(s, pr, auto_activate, now, p, item, texts, None));
                }
                return Err(error);
            },
        }
    }
    let ghost t = credentials.deep_view();
    assert(t == setup_switched(s, pr, auto_activate, now, p, item, texts).0);
    let ready = codex_ready_for_workspace(credentials, profile.workspace_id, product);
    proof {
        let again = choose|again: Option<Seq<char>>|
            #![trigger metadata::item_possible(t, p, again)]
            metadata::item_possible(t, p, again) && ({
                let (u, loaded) = metadata::loaded(t, p, again);
                credentials.deep_view() == u && ready == (loaded matches Ok(m) && workspace_ready(
                    u,
                    m,
                    profile.workspace_id,
                ))
            });
        assert(setup_texts_possible(s, pr, auto_activate, now, p, item, texts, again));
    }
    if !ready {
        return Err(CredentialError::SetupIncomplete);
    }
    Ok(())
}

/// The store after the profile was put in effect, where that is asked for, and what stood in the
/// way.
pub open spec fn setup_switched(
    s: CredentialStoreView,
    profile: CredentialProfileView,
    auto_activate: bool,
    now: u64,
    product: ProductConfigView,
    item: Option<Seq<char>>,
    texts: SwitchTexts,
) -> (CredentialStoreView, Option<CredentialError>) {
    if auto_activate {
        match activation_outcome(s, profile.profile_id, now, product, item, texts) {
            (t, Ok(_)) => (t, None),
            (t, Err(error)) => (t, Some(error)),
        }
    } else {
        (s, None)
    }
}

/// The outcome of completing the setup of a workspace.
pub open spec fn setup_outcome(
    s: CredentialStoreView,
    profile: CredentialProfileView,
    auto_activate: bool,
    now: u64,
    product: ProductConfigView,
    item: Option<Seq<char>>,
    texts: SwitchTexts,
    again: Option<Seq<char>>,
) -> (CredentialStoreView, Result<(), CredentialError>) {
    match setup_switched(s, profile, auto_activate, now, product, item, texts) {
        (t, Some(error)) => (t, Err(error)),
        (t, None) => {
            let (u, loaded) = metadata::loaded(t, product, again);
            if loaded matches Ok(m) && workspace_ready(u, m, profile.workspace_id) {
                (u, Ok(()))
            } else {
                (u, Err(CredentialError::SetupIncomplete))
            }
        },
    }
}

/// Whether the texts are ones that completing the setup of a workspace may write.
pub open spec fn setup_texts_possible(
    s: CredentialStoreView,
    profile: CredentialProfileView,
    auto_activate: bool,
    now: u64,
    product: ProductConfigView,
    item: Option<Seq<char>>,
    texts: SwitchTexts,
    again: Option<Seq<char>>,
) -> bool {
    &&& auto_activate ==> activation_texts_possible(s, profile.profile_id, product, item, texts)
    &&& setup_switched(s, profile, auto_activate, now, product, item, texts) matches (t, None)
        ==> metadata::item_possible(t, product, again)
}

} // verus!
