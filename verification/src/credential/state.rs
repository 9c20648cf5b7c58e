//! What is shown about authorizations.
use crate::baijimu_cli::{AuthStatus, AuthStatusView, Workspace, WorkspaceView};
use crate::credential::auth;
use crate::credential::config;
use crate::credential::contract::{
    AuthProfileKind, CredentialManagerState, CredentialManagerStateView, CredentialMetadata,
    CredentialMetadataView, CredentialProfile, CredentialProfileView, WorkspaceOption,
    WorkspaceOptionView,
};
use crate::credential::errors::CredentialError;
use crate::credential::files::{FileRead, FileReadView};
use crate::credential::identity;
use crate::credential::laws;
use crate::credential::metadata;
use crate::credential::metadata::load_metadata;
use crate::credential::operations;
use crate::credential::profiles;
use crate::credential::recognition;
use crate::credential::reloading;
use crate::credential::store;
use crate::credential::store::{CredentialStore, CredentialStoreView, Stored};
use crate::duplicate::Duplicate;
use crate::ids;
use crate::product_config::{ProductConfig, ProductConfigView};
use crate::ranking;
use crate::text;
use vstd::prelude::*;

verus! {

/// What the platform client answers about this device and its workspaces.
#[derive(Debug)]
pub struct Discovery {
    /// The authorization status, or why there is none.
    pub status: Result<AuthStatus, String>,
    /// The workspaces, or why there are none; nothing where they were not asked for.
    pub workspaces: Option<Result<Vec<Workspace>, String>>,
}

/// The view of `Discovery`.
pub struct DiscoveryView {
    pub status: Result<AuthStatusView, Seq<char>>,
    pub workspaces: Option<Result<Seq<WorkspaceView>, Seq<char>>>,
}

impl DeepView for Discovery {
    type V = DiscoveryView;

    open spec fn deep_view(&self) -> DiscoveryView {
        DiscoveryView {
            status: match self.status {
                Ok(status) => Ok(status.deep_view()),
                Err(why) => Err(why@),
            },
            workspaces: match self.workspaces {
                None => None,
                Some(Ok(list)) => Some(Ok(list.deep_view())),
                Some(Err(why)) => Some(Err(why@)),
            },
        }
    }
}

/// The workspaces that the device is authorized for.
pub open spec fn authorized_ids(discovery: DiscoveryView) -> Seq<u64> {
    match discovery.status {
        Ok(status) => status.workspace_ids,
        Err(_) => seq![],
    }
}

/// The workspaces that were discovered. They count only for an authorized device.
pub open spec fn discovered(discovery: DiscoveryView) -> Option<Seq<WorkspaceView>> {
    match (discovery.status, discovery.workspaces) {
        (Ok(status), Some(Ok(list))) => if status.authenticated {
            Some(list)
        } else {
            None
        },
        _ => None,
    }
}

/// What is said where workspaces could not be discovered.
pub open spec fn warning(discovery: DiscoveryView) -> Option<Seq<char>> {
    match discovery.status {
        Err(why) => Some(why),
        Ok(status) => match discovery.workspaces {
            Some(Err(why)) => if status.authenticated {
                Some("暂时无法通过 baijimu CLI 读取工作区："@ + why)
            } else {
                None
            },
            _ => None,
        },
    }
}

/// Being the workspace.
pub open spec fn is_workspace(id: u64) -> spec_fn(WorkspaceView) -> bool {
    |workspace: WorkspaceView| workspace.id == id
}

/// Whether the workspace is among those discovered.
pub open spec fn is_discovered(found: Option<Seq<WorkspaceView>>, id: u64) -> bool {
    match found {
        Some(list) => is_listed(list, id),
        None => false,
    }
}

/// Whether the workspace is in the list.
pub open spec fn is_listed(list: Seq<WorkspaceView>, id: u64) -> bool {
    exists|i: int| 0 <= i < list.len() && (#[trigger] list[i]).id == id
}

/// Whether there is a profile of the workspace.
pub open spec fn has_profile(all: Seq<CredentialProfileView>, id: u64) -> bool {
    exists|i: int| 0 <= i < all.len() && profiles::of_workspace(id)(#[trigger] all[i])
}

/// The workspaces that can be chosen: those discovered, those that the device is authorized for,
/// and those that have a profile.
pub open spec fn option_ids(
    authorized: Seq<u64>,
    found: Option<Seq<WorkspaceView>>,
    all: Seq<CredentialProfileView>,
) -> Set<u64> {
    Set::new(
        |id: u64| is_discovered(found, id) || authorized.contains(id) || has_profile(all, id),
    )
}

/// The name that is shown for a workspace: the one discovered, else that of its first profile,
/// else its number.
pub open spec fn option_name(
    found: Option<Seq<WorkspaceView>>,
    all: Seq<CredentialProfileView>,
    id: u64,
) -> Seq<char> {
    let discovered_name = match found {
        Some(list) => match profiles::first_where(list, is_workspace(id)) {
            Some(workspace) => Some(workspace.name),
            None => None,
        },
        None => None,
    };
    match discovered_name {
        Some(name) => name,
        None => match profiles::first_where(all, profiles::of_workspace(id)) {
            Some(profile) => profile.workspace_name,
            None => "工作区 "@ + text::decimal(id as nat),
        },
    }
}

/// The users whose profiles belong to the workspace.
pub open spec fn user_set(all: Seq<CredentialProfileView>, id: u64) -> Set<u64> {
    Set::new(
        |user: u64|
            exists|i: int|
                0 <= i < all.len() && profiles::of_workspace(id)(#[trigger] all[i])
                    && all[i].user_id == Some(user),
    )
}

/// What is shown of a workspace that can be chosen.
pub open spec fn option_for(
    t: CredentialStoreView,
    m: CredentialMetadataView,
    authorized: Seq<u64>,
    found: Option<Seq<WorkspaceView>>,
    id: u64,
) -> WorkspaceOptionView {
    WorkspaceOptionView {
        workspace_id: id,
        name: option_name(found, m.profiles, id),
        authorized: found is Some && authorized.contains(id),
        configured: operations::workspace_ready(t, m, id),
        user_ids: ids::listing(user_set(m.profiles, id)),
    }
}

/// The workspaces that can be chosen, in ascending order.
pub open spec fn merged(
    t: CredentialStoreView,
    m: CredentialMetadataView,
    authorized: Seq<u64>,
    found: Option<Seq<WorkspaceView>>,
) -> Seq<WorkspaceOptionView> {
    ids::listing(option_ids(authorized, found, m.profiles)).map_values(
        |id: u64| option_for(t, m, authorized, found, id),
    )
}

/// The numbers of the discovered workspaces, in ascending order.
fn collect_discovered(found: Option<&Vec<Workspace>>) -> (res: Vec<u64>)
    ensures
        ids::ascending(res@),
        forall|id: u64| #[trigger]
            res@.contains(id) <==> is_discovered(
                match found {
                    Some(list) => Some(list.deep_view()),
                    None => None,
                },
                id,
            ),
{
    let mut out: Vec<u64> = Vec::new();
    let list = match found {
        Some(list) => list,
        None => {
            return out;
        },
    };
    let mut i: usize = 0;
    while i < list.len()
        invariant
            i <= list.len(),
            ids::ascending(out@),
            forall|id: u64| #[trigger]
                out@.contains(id) <==> exists|j: int|
                    0 <= j < i && (#[trigger] list.deep_view()[j]).id == id,
        decreases list.len() - i,
    {
        insert_known(&mut out, list, i);
        i = i + 1;
    }
    proof {
        let views = list.deep_view();
        assert(views.len() == i);
        assert forall|id: u64| #[trigger] out@.contains(id) <==> is_discovered(Some(views), id) by {
            assert(is_listed(views, id) <==> exists|j: int|
                0 <= j < i && (#[trigger] views[j]).id == id);
        }
    }
    out
}

/// The numbers of the workspaces that can be chosen, in ascending order.
fn collect_ids(
    authorized: &Vec<u64>,
    found: Option<&Vec<Workspace>>,
    all: &Vec<CredentialProfile>,
) -> (res: Vec<u64>)
    ensures
        res@ == ids::listing(
            option_ids(
                authorized@,
                match found {
                    Some(list) => Some(list.deep_view()),
                    None => None,
                },
                all.deep_view(),
            ),
        ),
        ids::lists(
            res@,
            option_ids(
                authorized@,
                match found {
                    Some(list) => Some(list.deep_view()),
                    None => None,
                },
                all.deep_view(),
            ),
        ),
{
    let ghost views = all.deep_view();
    let ghost seen = match found {
        Some(list) => Some(list.deep_view()),
        None => None,
    };
    let mut out = collect_discovered(found);
    let mut k: usize = 0;
    while k < authorized.len()
        invariant
            k <= authorized.len(),
            ids::ascending(out@),
            forall|id: u64| #[trigger]
                out@.contains(id) <==> is_discovered(seen, id) || authorized@.take(
                    k as int,
                ).contains(id),
        decreases authorized.len() - k,
    {
        let ghost before = authorized@.take(k as int);
        ids::insert_id(&mut out, authorized[k]);
        proof {
            let after = authorized@.take(k + 1);
            assert(after =~= before.push(authorized@[k as int]));
            assert forall|id: u64| after.contains(id) <==> before.contains(id) || id
                == authorized@[k as int] by {
                if before.contains(id) {
                    let j = choose|j: int| 0 <= j < before.len() && before[j] == id;
                    assert(after[j] == id);
                }
                if id == authorized@[k as int] {
                    assert(after[k as int] == id);
                }
            }
        }
        k = k + 1;
    }
    assert(authorized@.take(k as int) =~= authorized@);
    let mut p: usize = 0;
    while p < all.len()
        invariant
            p <= all.len(),
            views == all.deep_view(),
            ids::ascending(out@),
            forall|id: u64| #[trigger]
                out@.contains(id) <==> is_discovered(seen, id) || authorized@.contains(id) || exists|
                    j: int,
                |
                    0 <= j < p && profiles::of_workspace(id)(#[trigger] views[j]),
        decreases all.len() - p,
    {
        let ghost before = out@;
        if all[p].kind == AuthProfileKind::Baijimu {
            ids::insert_id(&mut out, all[p].workspace_id);
        }
        proof {
            assert forall|id: u64| #[trigger] out@.contains(id) <==> is_discovered(seen, id)
                || authorized@.contains(id) || exists|j: int|
                0 <= j < p + 1 && profiles::of_workspace(id)(#[trigger] views[j]) by {
                assert(before.contains(id) <==> is_discovered(seen, id) || authorized@.contains(id)
                    || exists|j: int|
                    0 <= j < p && profiles::of_workspace(id)(#[trigger] views[j]));
                if profiles::of_workspace(id)(views[p as int]) {
                    assert(out@.contains(id));
                }
            }
        }
        p = p + 1;
    }
    proof {
        ids::lists_the_listing(out@, option_ids(authorized@, seen, views));
    }
    out
}

/// Adds the number of the next discovered workspace.
fn insert_known(out: &mut Vec<u64>, list: &Vec<Workspace>, i: usize)
    requires
        i < list.len(),
        ids::ascending(old(out)@),
        forall|id: u64| #[trigger]
            old(out)@.contains(id) <==> exists|j: int|
                0 <= j < i && (#[trigger] list.deep_view()[j]).id == id,
    ensures
        ids::ascending(final(out)@),
        forall|id: u64| #[trigger]
            final(out)@.contains(id) <==> exists|j: int|
                0 <= j < i + 1 && (#[trigger] list.deep_view()[j]).id == id,
{
    let ghost before = out@;
    let ghost views = list.deep_view();
    assert(views[i as int].id == list@[i as int].id);
    ids::insert_id(out, list[i].id);
    proof {
        assert forall|id: u64| #[trigger] out@.contains(id) <==> exists|j: int|
            0 <= j < i + 1 && (#[trigger] views[j]).id == id by {
            assert(before.contains(id) <==> exists|j: int|
                0 <= j < i && (#[trigger] views[j]).id == id);
            if views[i as int].id == id {
                assert(out@.contains(id));
            }
        }
    }
}

/// The first workspace with the number.
fn find_workspace(list: &Vec<Workspace>, id: u64) -> (res: Option<&Workspace>)
    ensures
        match res {
            Some(workspace) => profiles::first_where(list.deep_view(), is_workspace(id)) == Some(
                workspace.deep_view(),
            ),
            None => profiles::first_where(list.deep_view(), is_workspace(id)) is None,
        },
{
    let ghost views = list.deep_view();
    let ghost p = is_workspace(id);
    let mut i: usize = 0;
    while i < list.len()
        invariant
            i <= list.len(),
            views == list.deep_view(),
            p == is_workspace(id),
            forall|j: int| 0 <= j < i ==> !p(#[trigger] views[j]),
        decreases list.len() - i,
    {
        if list[i].id == id {
            proof {
                profiles::first_where_at(views, p, i as int);
            }
            return Some(&list[i]);
        }
        assert(!p(views[i as int]));
        i = i + 1;
    }
    proof {
        profiles::first_where_none(views, p);
    }
    None
}

/// The first profile of the workspace.
fn find_workspace_profile(all: &Vec<CredentialProfile>, id: u64) -> (res: Option<
    &CredentialProfile,
>)
    ensures
        match res {
            Some(profile) => profiles::first_where(all.deep_view(), profiles::of_workspace(id))
                == Some(profile.deep_view()),
            None => profiles::first_where(all.deep_view(), profiles::of_workspace(id)) is None,
        },
{
    let ghost views = all.deep_view();
    let ghost p = profiles::of_workspace(id);
    let mut i: usize = 0;
    while i < all.len()
        invariant
            i <= all.len(),
            views == all.deep_view(),
            p == profiles::of_workspace(id),
            forall|j: int| 0 <= j < i ==> !p(#[trigger] views[j]),
        decreases all.len() - i,
    {
        if all[i].kind == AuthProfileKind::Baijimu && all[i].workspace_id == id {
            proof {
                profiles::first_where_at(views, p, i as int);
            }
            return Some(&all[i]);
        }
        assert(!p(views[i as int]));
        i = i + 1;
    }
    proof {
        profiles::first_where_none(views, p);
    }
    None
}

/// The users whose profiles belong to the workspace, in ascending order.
fn collect_users(all: &Vec<CredentialProfile>, id: u64) -> (res: Vec<u64>)
    ensures
        res@ == ids::listing(user_set(all.deep_view(), id)),
        ids::lists(res@, user_set(all.deep_view(), id)),
{
    let ghost views = all.deep_view();
    let mut out: Vec<u64> = Vec::new();
    let mut i: usize = 0;
    while i < all.len()
        invariant
            i <= all.len(),
            views == all.deep_view(),
            ids::ascending(out@),
            forall|user: u64| #[trigger]
                out@.contains(user) <==> exists|j: int|
                    0 <= j < i && profiles::of_workspace(id)(#[trigger] views[j])
                        && views[j].user_id == Some(user),
        decreases all.len() - i,
    {
        let ghost before = out@;
        let profile = &all[i];
        if profile.kind == AuthProfileKind::Baijimu && profile.workspace_id == id {
            if let Some(user) = profile.user_id {
                ids::insert_id(&mut out, user);
            }
        }
        proof {
            assert forall|user: u64| #[trigger] out@.contains(user) <==> exists|j: int|
                0 <= j < i + 1 && profiles::of_workspace(id)(#[trigger] views[j])
                    && views[j].user_id == Some(user) by {
                assert(before.contains(user) <==> exists|j: int|
                    0 <= j < i && profiles::of_workspace(id)(#[trigger] views[j])
                        && views[j].user_id == Some(user));
                if profiles::of_workspace(id)(views[i as int]) && views[i as int].user_id == Some(
                    user,
                ) {
                    assert(out@.contains(user));
                }
            }
        }
        i = i + 1;
    }
    proof {
        ids::lists_the_listing(out@, user_set(views, id));
    }
    out
}

/// The workspaces that can be chosen, in ascending order.
pub fn merge_workspace_options(
    credentials: &CredentialStore,
    metadata: &CredentialMetadata,
    authorized: &Vec<u64>,
    found: Option<&Vec<Workspace>>,
) -> (res: Vec<WorkspaceOption>)
    ensures
        res.deep_view() == merged(
            credentials.deep_view(),
            metadata.deep_view(),
            authorized@,
            match found {
                Some(list) => Some(list.deep_view()),
                None => None,
            },
        ),
{
    let ghost t = credentials.deep_view();
    let ghost m = metadata.deep_view();
    let ghost seen = match found {
        Some(list) => Some(list.deep_view()),
        None => None,
    };
    let numbers = collect_ids(authorized, found, &metadata.profiles);
    let mut out: Vec<WorkspaceOption> = Vec::new();
    let mut i: usize = 0;
    while i < numbers.len()
        invariant
            i <= numbers.len(),
            t == credentials.deep_view(),
            m == metadata.deep_view(),
            seen == match found {
                Some(list) => Some(list.deep_view()),
                None => None,
            },
            out.len() == i,
            forall|j: int|
                0 <= j < i ==> (#[trigger] out@[j]).deep_view() == option_for(
                    t,
                    m,
                    authorized@,
                    seen,
                    numbers@[j],
                ),
        decreases numbers.len() - i,
    {
        let id = numbers[i];
        let discovered_name = match found {
            Some(list) => {
                match find_workspace(list, id) {
                    Some(workspace) => Some(workspace.name.clone()),
                    None => None,
                }
            },
            None => None,
        };
        let name = match discovered_name {
            Some(name) => name,
            None => {
                match find_workspace_profile(&metadata.profiles, id) {
                    Some(profile) => profile.workspace_name.clone(),
                    None => {
                        let mut made = "工作区 ".to_string();
                        made.append(text::decimal_text(id).as_str());
                        made
                    },
                }
            },
        };
        let user_ids = collect_users(&metadata.profiles, id);
        assert(user_ids.deep_view() =~= user_ids@);
        out.push(
            WorkspaceOption {
                workspace_id: id,
                name,
                authorized: found.is_some() && ids::contains_id(authorized, id),
                configured: operations::find_ready(credentials, &metadata.profiles, id),
                user_ids,
            },
        );
        i = i + 1;
    }
    assert(out.deep_view() =~= merged(t, m, authorized@, seen));
    out
}

/// Whether the personal profile keeps its login outside of the login file.
pub open spec fn keeps_login_outside(t: CredentialStoreView, profile: CredentialProfileView) -> bool {
    profile.kind == AuthProfileKind::Personal && match store::profile_config_of(
        t,
        recognition::key_of(profile),
    ) {
        Stored::Value(snapshot) => config::external_store(snapshot.cli_auth_credentials_store),
        _ => false,
    }
}

/// Whether the personal profile keeps its login outside of the login file.
pub fn personal_uses_external_store(
    credentials: &CredentialStore,
    profile: &CredentialProfile,
) -> (res: bool)
    ensures
        res == keeps_login_outside(credentials.deep_view(), profile.deep_view()),
{
    if profile.kind != AuthProfileKind::Personal {
        return false;
    }
    let key = identity::profile_short_key(profile.profile_id.as_str());
    match credentials.profile_config_file(key.as_str()) {
        Stored::Value(snapshot) => config::uses_external_store(
            &snapshot.cli_auth_credentials_store,
        ),
        _ => false,
    }
}

/// What is said of the stored login file of a profile.
pub open spec fn stored_status(t: CredentialStoreView, profile: CredentialProfileView) -> Seq<
    char,
> {
    match store::profile_auth_of(t, recognition::key_of(profile)) {
        FileReadView::Content(bytes) => if auth::usable(bytes, profile.kind) {
            "configured"@
        } else {
            "invalid"@
        },
        FileReadView::Unreadable => "invalid"@,
        FileReadView::Missing => if keeps_login_outside(t, profile) {
            "external"@
        } else if profile.kind == AuthProfileKind::Personal {
            "login_required"@
        } else {
            "missing"@
        },
    }
}

/// Whether the shared login file is of use to a profile of the kind.
pub open spec fn live_usable(t: CredentialStoreView, kind: AuthProfileKind) -> bool {
    t.shared_auth matches FileReadView::Content(live) && auth::usable(live, kind)
}

/// What is said of the credential of a profile: for the personal profile in effect, the shared
/// login file counts.
pub open spec fn shown_status(
    t: CredentialStoreView,
    active: Option<Seq<char>>,
    profile: CredentialProfileView,
) -> Seq<char> {
    if active == Some(profile.profile_id) && profile.kind == AuthProfileKind::Personal
        && live_usable(t, profile.kind) {
        "verified"@
    } else {
        stored_status(t, profile)
    }
}

/// Being the option of the workspace.
pub open spec fn is_option(id: u64) -> spec_fn(WorkspaceOptionView) -> bool {
    |option: WorkspaceOptionView| option.workspace_id == id
}

/// The profile with the name of its workspace.
pub open spec fn named_after(
    profile: CredentialProfileView,
    options: Seq<WorkspaceOptionView>,
) -> CredentialProfileView {
    if profile.kind == AuthProfileKind::Baijimu {
        match profiles::first_where(options, is_option(profile.workspace_id)) {
            Some(option) => CredentialProfileView {
                workspace_name: option.name,
                name: option.name,
                ..profile
            },
            None => profile,
        }
    } else {
        profile
    }
}

/// What is shown of a profile.
pub open spec fn shown_profile(
    t: CredentialStoreView,
    active: Option<Seq<char>>,
    options: Seq<WorkspaceOptionView>,
    profile: CredentialProfileView,
) -> CredentialProfileView {
    let known = named_after(profiles::normalized(profile, t.shared_home.text), options);
    CredentialProfileView {
        codex_home: t.shared_home.text,
        credential_status: shown_status(t, active, known),
        ..known
    }
}

/// What is shown of every profile.
pub open spec fn shown_profiles(
    t: CredentialStoreView,
    active: Option<Seq<char>>,
    options: Seq<WorkspaceOptionView>,
    all: Seq<CredentialProfileView>,
) -> Seq<CredentialProfileView> {
    all.map_values(|profile: CredentialProfileView| shown_profile(t, active, options, profile))
}

/// The first option of the workspace.
fn find_option(options: &Vec<WorkspaceOption>, id: u64) -> (res: Option<&WorkspaceOption>)
    ensures
        match res {
            Some(option) => profiles::first_where(options.deep_view(), is_option(id)) == Some(
                option.deep_view(),
            ),
            None => profiles::first_where(options.deep_view(), is_option(id)) is None,
        },
{
    let ghost views = options.deep_view();
    let ghost p = is_option(id);
    let mut i: usize = 0;
    while i < options.len()
        invariant
            i <= options.len(),
            views == options.deep_view(),
            p == is_option(id),
            forall|j: int| 0 <= j < i ==> !p(#[trigger] views[j]),
        decreases options.len() - i,
    {
        if options[i].workspace_id == id {
            proof {
                profiles::first_where_at(views, p, i as int);
            }
            return Some(&options[i]);
        }
        assert(!p(views[i as int]));
        i = i + 1;
    }
    proof {
        profiles::first_where_none(views, p);
    }
    None
}

/// Whether the shared login file is of use to a profile of the kind.
fn is_live_usable(credentials: &CredentialStore, kind: AuthProfileKind) -> (res: bool)
    ensures
        res == live_usable(credentials.deep_view(), kind),
{
    match &credentials.shared_auth {
        FileRead::Content(live) => auth::auth_is_usable_for_profile(live, kind),
        _ => false,
    }
}

/// What is said of the stored login file of a profile.
fn find_stored_status(credentials: &CredentialStore, profile: &CredentialProfile) -> (res: String)
    ensures
        res@ == stored_status(credentials.deep_view(), profile.deep_view()),
{
    let key = identity::profile_short_key(profile.profile_id.as_str());
    match credentials.profile_auth_file(key.as_str()) {
        FileRead::Content(bytes) => {
            if auth::auth_is_usable_for_profile(bytes, profile.kind) {
                "configured".to_string()
            } else {
                "invalid".to_string()
            }
        },
        FileRead::Unreadable => "invalid".to_string(),
        FileRead::Missing => {
            if personal_uses_external_store(credentials, profile) {
                "external".to_string()
            } else if profile.kind == AuthProfileKind::Personal {
                "login_required".to_string()
            } else {
                "missing".to_string()
            }
        },
    }
}

/// What is shown of every profile.
fn show_profiles(
    credentials: &CredentialStore,
    metadata: &CredentialMetadata,
    options: &Vec<WorkspaceOption>,
) -> (res: Vec<CredentialProfile>)
    ensures
        res.deep_view() == shown_profiles(
            credentials.deep_view(),
            metadata.deep_view().active_profile_id,
            options.deep_view(),
            metadata.deep_view().profiles,
        ),
{
    let ghost t = credentials.deep_view();
    let ghost active = metadata.deep_view().active_profile_id;
    let ghost choices = options.deep_view();
    let ghost all = metadata.profiles.deep_view();
    let mut out: Vec<CredentialProfile> = Vec::new();
    let mut i: usize = 0;
    while i < metadata.profiles.len()
        invariant
            i <= metadata.profiles.len(),
            t == credentials.deep_view(),
            active == metadata.deep_view().active_profile_id,
            choices == options.deep_view(),
            all == metadata.profiles.deep_view(),
            out.len() == i,
            forall|j: int|
                0 <= j < i ==> (#[trigger] out@[j]).deep_view() == shown_profile(
                    t,
                    active,
                    choices,
                    all[j],
                ),
        decreases metadata.profiles.len() - i,
    {
        let mut profile = metadata.profiles[i].duplicate();
        profiles::normalize_profile(&mut profile, credentials.shared_home.text.as_str());
        if profile.kind == AuthProfileKind::Baijimu {
            if let Some(option) = find_option(options, profile.workspace_id) {
                profile.workspace_name = option.name.clone();
                profile.name = option.name.clone();
            }
        }
        assert(profile.deep_view() == named_after(
            profiles::normalized(all[i as int], t.shared_home.text),
            choices,
        ));
        let status = if profiles::is_active(
            &metadata.active_profile_id,
            profile.profile_id.as_str(),
        ) && profile.kind == AuthProfileKind::Personal && is_live_usable(
            credentials,
            profile.kind,
        ) {
            "verified".to_string()
        } else {
            find_stored_status(credentials, &profile)
        };
        profile.codex_home = credentials.shared_home.text.clone();
        profile.credential_status = status;
        out.push(profile);
        i = i + 1;
    }
    assert(out.deep_view() =~= shown_profiles(t, active, choices, all));
    out
}

/// Whether the profile in effect is usable as it stands.
pub open spec fn is_configured(
    t: CredentialStoreView,
    profile: CredentialProfileView,
    product: ProductConfigView,
) -> bool {
    match profile.kind {
        AuthProfileKind::Personal => live_usable(t, profile.kind) || keeps_login_outside(
            t,
            profile,
        ),
        AuthProfileKind::Baijimu => live_usable(t, profile.kind) && config::config_ready(
            t.shared_config,
            product,
        ),
    }
}

/// What is said of the credential of the profile in effect, where anything is.
pub open spec fn active_status(
    t: CredentialStoreView,
    profile: CredentialProfileView,
    product: ProductConfigView,
) -> Option<Seq<char>> {
    if is_configured(t, profile, product) {
        Some(
            if live_usable(t, profile.kind) {
                "verified"@
            } else {
                "external"@
            },
        )
    } else if profile.kind == AuthProfileKind::Personal {
        Some("login_required"@)
    } else {
        None
    }
}

/// The profile in effect as it is shown.
pub open spec fn shown_active(
    t: CredentialStoreView,
    m: CredentialMetadataView,
    shown: Seq<CredentialProfileView>,
    product: ProductConfigView,
) -> Option<CredentialProfileView> {
    match m.active_profile_id {
        None => None,
        Some(id) => match profiles::first_where(shown, profiles::with_id(id)) {
            None => None,
            Some(profile) => Some(
                match active_status(t, profile, product) {
                    Some(status) => CredentialProfileView { credential_status: status, ..profile },
                    None => profile,
                },
            ),
        },
    }
}

/// Everything that is shown, given the record as it was loaded.
pub open spec fn shown_state(
    t: CredentialStoreView,
    m: CredentialMetadataView,
    discovery: DiscoveryView,
    product: ProductConfigView,
    auth_path: Seq<char>,
    config_path: Seq<char>,
) -> CredentialManagerStateView {
    let options = merged(t, m, authorized_ids(discovery), discovered(discovery));
    let shown = shown_profiles(t, m.active_profile_id, options, m.profiles);
    let active = shown_active(t, m, shown, product);
    let status = match active {
        Some(profile) => active_status(t, profile, product),
        None => None,
    };
    CredentialManagerStateView {
        active_mode: m.active_mode,
        current_workspace_id: match discovery.status {
            Ok(known) => known.current_workspace_id,
            Err(_) => None,
        },
        active_workspace_id: match active {
            Some(profile) => if profile.kind == AuthProfileKind::Baijimu {
                Some(profile.workspace_id)
            } else {
                None
            },
            None => None,
        },
        codex_configured: active matches Some(profile) && is_configured(t, profile, product),
        credential_status: match status {
            Some(found) => found,
            None => "not_configured"@,
        },
        active_profile: active,
        profiles: shown,
        workspaces: ranking::arranged::<WorkspaceOption>(options),
        discovery_warning: warning(discovery),
        original_codex_home_state: m.original_codex_home_state,
        original_codex_home: t.shared_home.text,
        active_codex_home: t.shared_home.text,
        external_codex_home: match t.external_home {
            Some(path) => Some(path.text),
            None => None,
        },
        legacy_global_codex_home: operations::legacy_home_state(t, m),
        codex_auth_path: auth_path,
        codex_config_path: config_path,
    }
}

/// What is said where workspaces could not be discovered.
fn find_warning(discovery: &Discovery) -> (res: Option<String>)
    ensures
        text::opt_view(res) == warning(discovery.deep_view()),
{
    match &discovery.status {
        Err(why) => Some(why.clone()),
        Ok(status) => {
            match &discovery.workspaces {
                Some(Err(why)) => {
                    if status.authenticated {
                        let mut out = "暂时无法通过 baijimu CLI 读取工作区：".to_string();
                        out.append(why.as_str());
                        Some(out)
                    } else {
                        None
                    }
                },
                _ => None,
            }
        },
    }
}

/// The profile in effect as it is shown, whether it is usable as it stands, and the status of the
/// credential in effect.
fn show_active(
    credentials: &CredentialStore,
    metadata: &CredentialMetadata,
    shown: &Vec<CredentialProfile>,
    product: &ProductConfig,
) -> (res: (Option<CredentialProfile>, bool, String))
    ensures
        res.0.deep_view() == shown_active(
            credentials.deep_view(),
            metadata.deep_view(),
            shown.deep_view(),
            product.deep_view(),
        ),
        res.1 == (res.0.deep_view() matches Some(profile) && is_configured(
            credentials.deep_view(),
            profile,
            product.deep_view(),
        )),
        res.2@ == match res.0.deep_view() {
            Some(profile) => match active_status(
                credentials.deep_view(),
                profile,
                product.deep_view(),
            ) {
                Some(found) => found,
                None => "not_configured"@,
            },
            None => "not_configured"@,
        },
{
    let found = match &metadata.active_profile_id {
        Some(id) => profiles::find_profile(shown, id.as_str()),
        None => None,
    };
    let mut profile = match found {
        Some(profile) => profile.duplicate(),
        None => {
            return (None, false, "not_configured".to_string());
        },
    };
    let live = is_live_usable(credentials, profile.kind);
    let configured = match profile.kind {
        AuthProfileKind::Personal => live || personal_uses_external_store(credentials, &profile),
        AuthProfileKind::Baijimu => live && config::managed_config_ready(
            &credentials.shared_config,
            product,
        ),
    };
    if configured {
        let status = if live {
            "verified".to_string()
        } else {
            "external".to_string()
        };
        profile.credential_status = status.clone();
        (Some(profile), true, status)
    } else if profile.kind == AuthProfileKind::Personal {
        profile.credential_status = "login_required".to_string();
        (Some(profile), false, "login_required".to_string())
    } else {
        (Some(profile), false, "not_configured".to_string())
    }
}

/// Gathers everything that is shown, given the record as it was loaded. The shared files are only
/// read.
pub fn show_state(
    credentials: &CredentialStore,
    metadata: &CredentialMetadata,
    discovery: &Discovery,
    product: &ProductConfig,
    auth_path: &str,
    config_path: &str,
) -> (res: CredentialManagerState)
    ensures
        res.deep_view() == shown_state(
            credentials.deep_view(),
            metadata.deep_view(),
            discovery.deep_view(),
            product.deep_view(),
            auth_path@,
            config_path@,
        ),
{
    let none: Vec<u64> = Vec::new();
    let authorized: &Vec<u64> = match &discovery.status {
        Ok(status) => &status.workspace_ids,
        Err(_) => &none,
    };
    proof {
        assert(authorized.deep_view() =~= authorized@);
        assert(authorized@ =~= authorized_ids(discovery.deep_view()));
    }
    let found: Option<&Vec<Workspace>> = match (&discovery.status, &discovery.workspaces) {
        (Ok(status), Some(Ok(list))) => {
            if status.authenticated {
                Some(list)
            } else {
                None
            }
        },
        _ => None,
    };
    let mut workspaces = merge_workspace_options(credentials, metadata, authorized, found);
    let shown = show_profiles(credentials, metadata, &workspaces);
    let (active_profile, codex_configured, credential_status) = show_active(
        credentials,
        metadata,
        &shown,
        product,
    );
    ranking::sort(&mut workspaces);
    let active_workspace_id = match &active_profile {
        Some(profile) => {
            if profile.kind == AuthProfileKind::Baijimu {
                Some(profile.workspace_id)
            } else {
                None
            }
        },
        None => None,
    };
    CredentialManagerState {
        active_mode: metadata.active_mode,
        current_workspace_id: match &discovery.status {
            Ok(status) => status.current_workspace_id,
            Err(_) => None,
        },
        active_workspace_id,
        codex_configured,
        credential_status,
        active_profile,
        profiles: shown,
        workspaces,
        discovery_warning: find_warning(discovery),
        original_codex_home_state: metadata.original_codex_home_state.duplicate(),
        original_codex_home: credentials.shared_home.text.clone(),
        active_codex_home: credentials.shared_home.text.clone(),
        external_codex_home: match &credentials.external_home {
            Some(path) => Some(path.text.clone()),
            None => None,
        },
        legacy_global_codex_home: operations::legacy_global_codex_home_state(credentials, metadata),
        codex_auth_path: auth_path.to_string(),
        codex_config_path: config_path.to_string(),
    }
}

/// Everything that is shown about authorizations. The shared files are only read.
pub fn state(
    credentials: &mut CredentialStore,
    discovery: &Discovery,
    product: &ProductConfig,
    auth_path: &str,
    config_path: &str,
) -> (res: Result<CredentialManagerState, CredentialError>)
    ensures
        exists|item: Option<Seq<char>>|
            #![trigger metadata::item_possible(old(credentials).deep_view(), product.deep_view(), item)]
            metadata::item_possible(old(credentials).deep_view(), product.deep_view(), item)
                && ({
                let (t, loaded) = metadata::loaded(
                    old(credentials).deep_view(),
                    product.deep_view(),
                    item,
                );
                final(credentials).deep_view() == t && match (loaded, res) {
                    (Err(expected), Err(error)) => error == expected,
                    (Ok(m), Ok(shown)) => shown.deep_view() == shown_state(
                        t,
                        m,
                        discovery.deep_view(),
                        product.deep_view(),
                        auth_path@,
                        config_path@,
                    ),
                    _ => false,
                }
            }),
        laws::same_shared_files(old(credentials).deep_view(), final(credentials).deep_view()),
        laws::same_surroundings(old(credentials).deep_view(), final(credentials).deep_view()),
{
    let ghost s = credentials.deep_view();
    let ghost p = product.deep_view();
    let loaded = load_metadata(credentials, product);
    proof {
        let item = choose|item: Option<Seq<char>>|
            #![trigger metadata::item_possible(s, p, item)]
            metadata::item_possible(s, p, item) && metadata::loaded(s, p, item) == (
                credentials.deep_view(),
                metadata::result_view(loaded),
            );
        laws::loading_keeps_shared_files(s, p, item);
    }
    let m = loaded?;
    Ok(show_state(credentials, &m, discovery, product, auth_path, config_path))
}

/// What is shown twice in a row, whatever workspaces are discovered either time, has the same mode.
/// It is left out only where the second time a workspace profile without a login file takes the
/// shared one, and with it the key that makes it the one in effect.
pub proof fn shown_mode_stays(
    s: CredentialStoreView,
    product: ProductConfigView,
    item: Option<Seq<char>>,
    discovery: DiscoveryView,
    again: Option<Seq<char>>,
    later: DiscoveryView,
    auth_path: Seq<char>,
    config_path: Seq<char>,
)
    requires
        ({
            let (t, loaded) = metadata::loaded(s, product, item);
            &&& loaded matches Ok(m)
            &&& forall|i: int|
                0 <= i < m.profiles.len() ==> reloading::settled_login(
                    t,
                    m,
                    product,
                    #[trigger] m.profiles[i],
                )
            &&& metadata::loaded(t, product, again).1 is Ok
        }),
    ensures
        ({
            let (t, loaded) = metadata::loaded(s, product, item);
            let (u, reloaded) = metadata::loaded(t, product, again);
            shown_state(t, loaded->Ok_0, discovery, product, auth_path, config_path).active_mode
                == shown_state(
                u,
                reloaded->Ok_0,
                later,
                product,
                auth_path,
                config_path,
            ).active_mode
        }),
{
    reloading::reloading_keeps_the_mode(s, product, item, again);
}

} // verus!
