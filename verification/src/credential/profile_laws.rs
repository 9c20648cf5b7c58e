//! What setting up a workspace and giving it a new credential do to the record and the stored logins.
use crate::baijimu_cli::{AuthStatusView, WorkspaceView};
use crate::credential::auth;
use crate::credential::contract::{
    AuthProfileKind, CredentialMetadataView, CredentialProfile, CredentialProfileView,
};
use crate::credential::errors::CredentialError;
use crate::credential::files::FileReadView;
use crate::credential::identity;
use crate::credential::metadata;
use crate::credential::operations;
use crate::credential::profiles;
use crate::credential::store::{CredentialStoreView, Stored};
use crate::credential::switch_laws;
use crate::json_compat;
use crate::product_config::ProductConfigView;
use crate::ranking;
use crate::text;
use vstd::prelude::*;

verus! {

/// How often a value is in what is kept of a list: as often as in the list, or never.
proof fn kept_counts<T>(s: Seq<T>, keep: spec_fn(T) -> bool, x: T)
    ensures
        s.filter(keep).to_multiset().count(x) == if keep(x) {
            s.to_multiset().count(x)
        } else {
            0
        },
    decreases s.len(),
{
    broadcast use vstd::seq_lib::group_to_multiset_ensures;

    reveal(Seq::filter);
    if s.len() > 0 {
        kept_counts(s.drop_last(), keep, x);
        assert(s =~= s.drop_last().push(s.last()));
    }
}

/// Putting a profile in place of those with its identity keeps every other profile as it is and as
/// often as it is there, leaves the profile once, and sorts personal profiles first and each kind by
/// name.
pub proof fn replacing_keeps_the_others(
    all: Seq<CredentialProfileView>,
    profile: CredentialProfileView,
)
    ensures
        ({
            let after = profiles::replaced(all, profile);
            &&& forall|x: CredentialProfileView| #[trigger]
                after.to_multiset().count(x) == (if x.profile_id != profile.profile_id {
                    all.to_multiset().count(x)
                } else {
                    0
                }) + (if x == profile {
                    1nat
                } else {
                    0
                })
            &&& forall|x: CredentialProfileView| #[trigger]
                after.contains(x) <==> x == profile || (x.profile_id != profile.profile_id
                    && all.contains(x))
            &&& forall|i: int, j: int|
                0 <= i < j < after.len() ==> !((#[trigger] after[i]).kind
                    == AuthProfileKind::Baijimu && (#[trigger] after[j]).kind
                    == AuthProfileKind::Personal) && (after[i].kind == after[j].kind
                    ==> text::text_leq(after[i].name, after[j].name))
        }),
{
    let keep = profiles::without_id(profile.profile_id);
    let list = all.filter(keep).push(profile);
    let after = profiles::replaced(all, profile);
    profiles::profiles_are_ranked();
    ranking::arranged_is_sorted::<CredentialProfile>(list);
    assert forall|x: CredentialProfileView| #[trigger]
        after.to_multiset().count(x) == (if x.profile_id != profile.profile_id {
            all.to_multiset().count(x)
        } else {
            0
        }) + (if x == profile {
            1nat
        } else {
            0
        }) by {
        broadcast use vstd::seq_lib::group_to_multiset_ensures;

        kept_counts(all, keep, x);
    }
    assert forall|x: CredentialProfileView| #[trigger] after.contains(x) <==> x == profile || (
    x.profile_id != profile.profile_id && all.contains(x)) by {
        vstd::seq_lib::to_multiset_contains(after, x);
        vstd::seq_lib::to_multiset_contains(all, x);
        assert(after.to_multiset().count(x) > 0 <==> after.contains(x));
    }
    assert forall|i: int, j: int| 0 <= i < j < after.len() implies !((#[trigger] after[i]).kind
        == AuthProfileKind::Baijimu && (#[trigger] after[j]).kind == AuthProfileKind::Personal) && (
    after[i].kind == after[j].kind ==> text::text_leq(after[i].name, after[j].name)) by {
        assert(<CredentialProfile as ranking::Ranked>::precedes(after[i], after[j]));
        text::text_leq_total(after[i].name, after[i].name);
    }
}

/// Whether the profile is one of the workspace.
pub open spec fn belongs_to(profile: CredentialProfileView, workspace: u64) -> bool {
    profile.kind == AuthProfileKind::Baijimu && profile.workspace_id == workspace
}

/// The preferred profile of a workspace: there is one exactly where the workspace has a profile; it
/// is one of them; it is the active one where that is one of them; and else none of them was put in
/// effect later.
pub proof fn preferred_profile_is_the_best(
    all: Seq<CredentialProfileView>,
    active: Option<Seq<char>>,
    workspace: u64,
)
    ensures
        ({
            let best = profiles::preferred(all, active, workspace);
            &&& best is Some <==> exists|i: int|
                0 <= i < all.len() && belongs_to(#[trigger] all[i], workspace)
            &&& best matches Some(found) ==> {
                &&& all.contains(found)
                &&& belongs_to(found, workspace)
                &&& forall|i: int|
                    0 <= i < all.len() && belongs_to(#[trigger] all[i], workspace) ==> if active
                        == Some(found.profile_id) {
                        active == Some(all[i].profile_id) ==> all[i].activated_at_epoch_seconds
                            <= found.activated_at_epoch_seconds
                    } else {
                        active != Some(all[i].profile_id) && all[i].activated_at_epoch_seconds
                            <= found.activated_at_epoch_seconds
                    }
            }
        }),
    decreases all.len(),
{
    if all.len() > 0 {
        let front = all.drop_last();
        preferred_profile_is_the_best(front, active, workspace);
        assert forall|i: int| 0 <= i < all.len() - 1 implies #[trigger] all[i] == front[i] by {}
        let best = profiles::preferred(front, active, workspace);
        if best is Some {
            let k = choose|k: int| 0 <= k < front.len() && front[k] == best->0;
            assert(all[k] == best->0);
            assert(belongs_to(all[k], workspace));
        }
        assert(all[all.len() - 1] == all.last());
        if exists|i: int| 0 <= i < all.len() && belongs_to(#[trigger] all[i], workspace) {
            let i = choose|i: int| 0 <= i < all.len() && belongs_to(#[trigger] all[i], workspace);
            if i < all.len() - 1 {
                assert(belongs_to(front[i], workspace));
            }
        }
    }
}

/// A workspace is authorized exactly where it has a number, the platform client gave a status of an
/// authorized device that names it, and confirmed it; it is the confirmed one. Nothing else counts.
pub proof fn authorized_workspaces_are_named(
    workspace_id: u64,
    status: Option<AuthStatusView>,
    workspace: Option<WorkspaceView>,
)
    ensures
        operations::authorized(workspace_id, status, workspace) is Ok <==> workspace_id > 0
            && status is Some && status->0.authenticated && (exists|i: int|
            0 <= i < status->0.workspace_ids.len() && #[trigger] status->0.workspace_ids[i]
                == workspace_id) && workspace is Some,
        operations::authorized(workspace_id, status, workspace) matches Ok(found) ==> workspace
            == Some(found),
{
    if let Some(known) = status {
        assert(known.workspace_ids.contains(workspace_id) <==> exists|i: int|
            0 <= i < known.workspace_ids.len() && #[trigger] known.workspace_ids[i]
                == workspace_id);
    }
}

/// The string under the name of the key in a login file.
pub open spec fn key_string(bytes: Seq<u8>) -> Seq<char> {
    json_compat::json_read(json_compat::without_bom(bytes))->0[seq!["OPENAI_API_KEY"@]]
}

/// When setting up an authorized workspace succeeds, given the record as it was loaded, and what it
/// gives. A key that is stored for the profile of the workspace is given as it is. Only a workspace
/// without a profile may get an issued one, and only where no login file of its profile is in the
/// way; then that one is given.
pub proof fn set_up_workspace_has_a_key(
    t: CredentialStoreView,
    m: CredentialMetadataView,
    workspace_id: u64,
    workspace: WorkspaceView,
    environment: Seq<char>,
    issued: Option<Seq<char>>,
    product: ProductConfigView,
    login: Seq<u8>,
)
    ensures
        ({
            let (u, outcome) = operations::initialization(
                t,
                m,
                workspace_id,
                workspace,
                environment,
                issued,
                product,
                login,
            );
            let known = exists|i: int|
                0 <= i < m.profiles.len() && belongs_to(#[trigger] m.profiles[i], workspace_id);
            let id = if known {
                profiles::preferred(m.profiles, m.active_profile_id, workspace_id)->0.profile_id
            } else {
                identity::identity(environment, None, None, workspace_id)
            };
            let key = identity::short_key(id);
            let file = if t.profile_auth.contains_key(key) {
                t.profile_auth[key]
            } else {
                FileReadView::Missing
            };
            let stored = file is Content && switch_laws::says(
                file->Content_0,
                seq!["OPENAI_API_KEY"@],
            );
            let vacant = file is Missing || (file is Content && !stored && json_compat::json_read(
                json_compat::without_bom(file->Content_0),
            ) is Some);
            &&& outcome is Ok <==> stored || (!known && vacant && issued is Some)
            &&& stored ==> outcome->Ok_0.1 == text::trimmed(key_string(file->Content_0))
                && u.profile_auth == t.profile_auth
            &&& outcome is Ok && !stored ==> Some(outcome->Ok_0.1) == issued && u.profile_auth
                == t.profile_auth.insert(key, FileReadView::Content(login))
            &&& outcome is Err ==> u == t
            &&& outcome matches Ok((prepared, _)) ==> prepared.profile_id == id
            &&& !known && vacant && issued is None ==> outcome == Err::<
                (CredentialProfileView, Seq<char>),
                CredentialError,
            >(CredentialError::CredentialNotIssued)
        }),
{
    let known = exists|i: int|
        0 <= i < m.profiles.len() && belongs_to(#[trigger] m.profiles[i], workspace_id);
    preferred_profile_is_the_best(m.profiles, m.active_profile_id, workspace_id);
    let id = if known {
        profiles::preferred(m.profiles, m.active_profile_id, workspace_id)->0.profile_id
    } else {
        identity::identity(environment, None, None, workspace_id)
    };
    let key = identity::short_key(id);
    if let FileReadView::Content(bytes) = t.profile_auth[key] {
        switch_laws::usable_logins_hold_a_login(bytes, AuthProfileKind::Baijimu);
        if switch_laws::says(bytes, seq!["OPENAI_API_KEY"@]) {
            switch_laws::key_is_the_trimmed_string(bytes);
        }
    }
}

/// What setting up a workspace leaves of the record: the prepared profile is one of the workspace,
/// named after it, lies in the shared state directory and is in order; every recorded profile with
/// another identity is still there, unchanged and as often; nothing else is added; and the rest of
/// the record is as it was.
pub proof fn set_up_workspace_joins_the_record(
    t: CredentialStoreView,
    m: CredentialMetadataView,
    workspace_id: u64,
    workspace: WorkspaceView,
    environment: Seq<char>,
    issued: Option<Seq<char>>,
    product: ProductConfigView,
    login: Seq<u8>,
)
    requires
        operations::initialization(
            t,
            m,
            workspace_id,
            workspace,
            environment,
            issued,
            product,
            login,
        ).1 is Ok,
    ensures
        ({
            let (u, outcome) = operations::initialization(
                t,
                m,
                workspace_id,
                workspace,
                environment,
                issued,
                product,
                login,
            );
            let prepared = outcome->Ok_0.0;
            &&& u.metadata matches Stored::Value(r)
            &&& r == (CredentialMetadataView { profiles: r.profiles, ..m })
            &&& forall|x: CredentialProfileView| #[trigger]
                r.profiles.to_multiset().count(x) == (if x.profile_id != prepared.profile_id {
                    m.profiles.to_multiset().count(x)
                } else {
                    0
                }) + (if x == prepared {
                    1nat
                } else {
                    0
                })
            &&& forall|i: int|
                0 <= i < m.profiles.len() && m.profiles[i].profile_id != prepared.profile_id
                    ==> r.profiles.contains(#[trigger] m.profiles[i])
            &&& r.profiles.contains(prepared)
            &&& belongs_to(prepared, workspace_id)
            &&& prepared.workspace_name == workspace.name
            &&& prepared.codex_home == t.shared_home.text
            &&& prepared.credential_status == "verified"@
            &&& u == (CredentialStoreView {
                metadata: u.metadata,
                profile_auth: u.profile_auth,
                journal: u.journal,
                ..t
            })
        }),
{
    let (u, outcome) = operations::initialization(
        t,
        m,
        workspace_id,
        workspace,
        environment,
        issued,
        product,
        login,
    );
    let prepared = outcome->Ok_0.0;
    preferred_profile_is_the_best(m.profiles, m.active_profile_id, workspace_id);
    replacing_keeps_the_others(m.profiles, prepared);
    assert forall|i: int|
        0 <= i < m.profiles.len() && m.profiles[i].profile_id
            != prepared.profile_id implies profiles::replaced(m.profiles, prepared).contains(
        #[trigger] m.profiles[i],
    ) by {
        assert(m.profiles.contains(m.profiles[i]));
    }
}

/// Setting up a workspace begins with its authorization and with the loaded record: an unauthorized
/// one leaves everything as it is, and a record that does not load is the error.
pub proof fn set_up_needs_an_authorization(
    s: CredentialStoreView,
    workspace_id: u64,
    status: Option<AuthStatusView>,
    workspace: Option<WorkspaceView>,
    issued: Option<Seq<char>>,
    product: ProductConfigView,
    item: Option<Seq<char>>,
    login: Seq<u8>,
)
    ensures
        ({
            let (u, outcome) = operations::initialization_outcome(
                s,
                workspace_id,
                status,
                workspace,
                issued,
                product,
                item,
                login,
            );
            let (t, loaded) = metadata::loaded(s, product, item);
            if operations::authorized(workspace_id, status, workspace) is Err {
                u == s && outcome is Err
            } else {
                match loaded {
                    Err(error) => u == t && outcome == Err::<
                        (CredentialProfileView, Seq<char>),
                        CredentialError,
                    >(error),
                    Ok(m) => (u, outcome) == operations::initialization(
                        t,
                        m,
                        workspace_id,
                        workspace->0,
                        status->0.base_url,
                        issued,
                        product,
                        login,
                    ),
                }
            }
        }),
{
    authorized_workspaces_are_named(workspace_id, status, workspace);
}

/// A workspace that was set up is ready from then on, and so is every other that was: its key is the
/// one that is found for it.
pub proof fn set_up_workspace_is_ready(
    t: CredentialStoreView,
    m: CredentialMetadataView,
    workspace_id: u64,
    workspace: WorkspaceView,
    environment: Seq<char>,
    issued: Option<Seq<char>>,
    product: ProductConfigView,
    login: Seq<u8>,
    other: u64,
)
    requires
        issued matches Some(credential) ==> auth::workspace_login(login, credential)
            && !text::blank(credential),
        operations::initialization(
            t,
            m,
            workspace_id,
            workspace,
            environment,
            issued,
            product,
            login,
        ).1 is Ok,
    ensures
        ({
            let u = operations::initialization(
                t,
                m,
                workspace_id,
                workspace,
                environment,
                issued,
                product,
                login,
            ).0;
            let r = u.metadata->Value_0;
            &&& operations::workspace_ready(u, r, workspace_id)
            &&& other != workspace_id && operations::workspace_ready(t, m, other) && (forall|i: int|
                0 <= i < m.profiles.len() && belongs_to(#[trigger] m.profiles[i], other)
                    ==> m.profiles[i].profile_id != identity::identity(
                    environment,
                    None,
                    None,
                    workspace_id,
                ) && (forall|k: int|
                    0 <= k < m.profiles.len() && belongs_to(
                        #[trigger] m.profiles[k],
                        workspace_id,
                    ) ==> m.profiles[k].profile_id != m.profiles[i].profile_id))
                ==> operations::workspace_ready(u, r, other)
        }),
{
    let (u, outcome) = operations::initialization(
        t,
        m,
        workspace_id,
        workspace,
        environment,
        issued,
        product,
        login,
    );
    let prepared = outcome->Ok_0.0;
    let r = u.metadata->Value_0;
    set_up_workspace_joins_the_record(
        t,
        m,
        workspace_id,
        workspace,
        environment,
        issued,
        product,
        login,
    );
    set_up_workspace_has_a_key(
        t,
        m,
        workspace_id,
        workspace,
        environment,
        issued,
        product,
        login,
    );
    preferred_profile_is_the_best(m.profiles, m.active_profile_id, workspace_id);
    if let Some(credential) = issued {
        auth::written_login_is_read_back(login, credential);
    }
    let key = identity::short_key(prepared.profile_id);
    if let FileReadView::Content(bytes) = t.profile_auth[key] {
        switch_laws::usable_logins_hold_a_login(bytes, AuthProfileKind::Baijimu);
    }
    let i = choose|i: int| 0 <= i < r.profiles.len() && r.profiles[i] == prepared;
    assert(operations::ready_profile(u, r.profiles[i], workspace_id));
    if operations::workspace_ready(t, m, other) {
        let k = choose|k: int|
            0 <= k < m.profiles.len() && operations::ready_profile(
                t,
                #[trigger] m.profiles[k],
                other,
            );
        let profile = m.profiles[k];
        if profile.profile_id != prepared.profile_id {
            assert(r.profiles.contains(profile));
            let x = choose|x: int| 0 <= x < r.profiles.len() && r.profiles[x] == profile;
            assert(operations::ready_profile(u, r.profiles[x], other));
        } else if profiles::preferred(m.profiles, m.active_profile_id, workspace_id) is Some {
            let found = profiles::preferred(m.profiles, m.active_profile_id, workspace_id)->0;
            let y = choose|y: int| 0 <= y < m.profiles.len() && m.profiles[y] == found;
            assert(belongs_to(m.profiles[y], workspace_id));
        }
    }
}

/// A workspace is ready exactly where one of its profiles has a stored login file with a key.
pub proof fn ready_workspaces_have_a_key(
    t: CredentialStoreView,
    m: CredentialMetadataView,
    workspace: u64,
)
    ensures
        operations::workspace_ready(t, m, workspace) <==> exists|i: int|
            0 <= i < m.profiles.len() && belongs_to(#[trigger] m.profiles[i], workspace) && ({
                let key = identity::short_key(m.profiles[i].profile_id);
                t.profile_auth.contains_key(key) && (t.profile_auth[key] matches FileReadView::Content(
                    bytes,
                ) && switch_laws::says(bytes, seq!["OPENAI_API_KEY"@]))
            }),
{
    assert forall|i: int| 0 <= i < m.profiles.len() implies operations::ready_profile(
        t,
        #[trigger] m.profiles[i],
        workspace,
    ) == (belongs_to(m.profiles[i], workspace) && ({
        let key = identity::short_key(m.profiles[i].profile_id);
        t.profile_auth.contains_key(key) && (t.profile_auth[key] matches FileReadView::Content(bytes)
            && switch_laws::says(bytes, seq!["OPENAI_API_KEY"@]))
    })) by {
        let key = identity::short_key(m.profiles[i].profile_id);
        if let FileReadView::Content(bytes) = t.profile_auth[key] {
            switch_laws::usable_logins_hold_a_login(bytes, AuthProfileKind::Baijimu);
        }
    }
}

/// The key for the route of a workspace is that of its preferred profile; there is one exactly where
/// that profile has a stored login file with a key.
pub proof fn route_key_is_the_preferred_one(
    t: CredentialStoreView,
    m: CredentialMetadataView,
    workspace: u64,
)
    ensures
        ({
            let best = profiles::preferred(m.profiles, m.active_profile_id, workspace);
            let key = identity::short_key(best->0.profile_id);
            let found = operations::router_credential(t, m, workspace);
            &&& found is Ok <==> best is Some && t.profile_auth.contains_key(key) && (
            t.profile_auth[key] matches FileReadView::Content(bytes) && switch_laws::says(
                bytes,
                seq!["OPENAI_API_KEY"@],
            ))
            &&& found matches Ok(credential) ==> credential == text::trimmed(
                key_string(t.profile_auth[key]->Content_0),
            )
            &&& best is None ==> found == Err::<Seq<char>, CredentialError>(
                CredentialError::CredentialProfileMissing,
            )
        }),
{
    let best = profiles::preferred(m.profiles, m.active_profile_id, workspace);
    let key = identity::short_key(best->0.profile_id);
    if let FileReadView::Content(bytes) = t.profile_auth[key] {
        switch_laws::usable_logins_hold_a_login(bytes, AuthProfileKind::Baijimu);
        if switch_laws::says(bytes, seq!["OPENAI_API_KEY"@]) {
            switch_laws::key_is_the_trimmed_string(bytes);
        }
    }
}

/// A new credential can be prepared exactly for a workspace that has a profile, once one was issued:
/// for the preferred profile, and the issued one.
pub proof fn initialized_workspaces_can_be_reauthorized(
    m: CredentialMetadataView,
    workspace_id: u64,
    issued: Option<Seq<char>>,
)
    ensures
        ({
            let prepared = operations::reauthorization(m, workspace_id, issued);
            &&& prepared is Ok <==> issued is Some && exists|i: int|
                0 <= i < m.profiles.len() && belongs_to(#[trigger] m.profiles[i], workspace_id)
            &&& prepared matches Ok((profile, credential)) ==> issued == Some(credential)
                && m.profiles.contains(profile) && belongs_to(profile, workspace_id)
                && profiles::preferred(m.profiles, m.active_profile_id, workspace_id) == Some(
                profile,
            )
        }),
{
    preferred_profile_is_the_best(m.profiles, m.active_profile_id, workspace_id);
}

/// What a new credential leaves: its login file is the stored one of the profile; every other stored
/// login file, and every recorded profile with another identity, is as it was; the profile is
/// recorded as in order; and it fails only for the profile in effect, where the shared login file
/// gives no answer.
pub proof fn new_credential_is_stored(
    t: CredentialStoreView,
    m: CredentialMetadataView,
    profile: CredentialProfileView,
    credential: Seq<char>,
    login: Seq<u8>,
)
    ensures
        ({
            let (u, outcome) = operations::reauthorized(t, m, profile, credential, login);
            let active = m.active_profile_id == Some(profile.profile_id);
            &&& u.profile_auth == t.profile_auth.insert(
                identity::short_key(profile.profile_id),
                FileReadView::Content(login),
            )
            &&& u.profile_config == t.profile_config
            &&& u.shared_config == t.shared_config
            &&& outcome is Ok <==> !active || match t.shared_auth {
                FileReadView::Missing => true,
                FileReadView::Unreadable => false,
                FileReadView::Content(live) => json_compat::json_read(
                    json_compat::without_bom(live),
                ) is Some,
            }
            &&& outcome is Err ==> u.metadata == t.metadata && u.shared_auth == t.shared_auth
            &&& !active ==> u.shared_auth == t.shared_auth
            &&& outcome is Ok && active ==> u.shared_auth == FileReadView::Content(login) || (
            u.shared_auth == t.shared_auth && (t.shared_auth matches FileReadView::Content(live)
                && auth::api_key(live) == Some(credential)))
            &&& outcome matches Ok(given) ==> {
                &&& given == (CredentialProfileView { credential_status: "verified"@, ..profile })
                &&& u.metadata matches Stored::Value(r)
                &&& r == (CredentialMetadataView { profiles: r.profiles, ..m })
                &&& forall|x: CredentialProfileView| #[trigger]
                    r.profiles.to_multiset().count(x) == (if x.profile_id != profile.profile_id {
                        m.profiles.to_multiset().count(x)
                    } else {
                        0
                    }) + (if x == given {
                        1nat
                    } else {
                        0
                    })
            }
        }),
{
    replacing_keeps_the_others(
        m.profiles,
        CredentialProfileView { credential_status: "verified"@, ..profile },
    );
}

} // verus!
