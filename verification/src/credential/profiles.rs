//! Lists of profiles: how they are searched, ordered and replaced.
use crate::credential::contract::{
    AuthProfileKind, CredentialProfile, CredentialProfileView, WorkspaceOption, WorkspaceOptionView,
};
use crate::credential::identity;
use crate::duplicate::Duplicate;
use crate::ranking;
use crate::ranking::Ranked;
use crate::text;
use vstd::prelude::*;

verus! {

/// The first value of the list that the predicate holds of.
pub open spec fn first_where<T>(s: Seq<T>, p: spec_fn(T) -> bool) -> Option<T>
    decreases s.len(),
{
    if s.len() == 0 {
        None
    } else {
        match first_where(s.drop_last(), p) {
            Some(found) => Some(found),
            None => if p(s.last()) {
                Some(s.last())
            } else {
                None
            },
        }
    }
}

/// Where the first value that the predicate holds of is.
pub proof fn first_where_at<T>(s: Seq<T>, p: spec_fn(T) -> bool, at: int)
    requires
        0 <= at < s.len(),
        p(s[at]),
        forall|j: int| 0 <= j < at ==> !p(#[trigger] s[j]),
    ensures
        first_where(s, p) == Some(s[at]),
    decreases s.len(),
{
    if at < s.len() - 1 {
        first_where_at(s.drop_last(), p, at);
    } else {
        first_where_none(s.drop_last(), p);
    }
}

/// Nothing is found where the predicate holds of no value.
pub proof fn first_where_none<T>(s: Seq<T>, p: spec_fn(T) -> bool)
    requires
        forall|j: int| 0 <= j < s.len() ==> !p(#[trigger] s[j]),
    ensures
        first_where(s, p) is None,
    decreases s.len(),
{
    if s.len() > 0 {
        first_where_none(s.drop_last(), p);
    }
}

/// What is found is in the list, and the predicate holds of it.
pub proof fn first_where_is_found<T>(s: Seq<T>, p: spec_fn(T) -> bool)
    requires
        first_where(s, p) is Some,
    ensures
        p(first_where(s, p)->0),
        s.contains(first_where(s, p)->0),
    decreases s.len(),
{
    if first_where(s.drop_last(), p) is Some {
        first_where_is_found(s.drop_last(), p);
        let found = first_where(s, p)->0;
        let i = choose|i: int| 0 <= i < s.drop_last().len() && s.drop_last()[i] == found;
        assert(s[i] == found);
    } else {
        assert(s[s.len() - 1] == s.last());
    }
}

/// Having the identity.
pub open spec fn with_id(id: Seq<char>) -> spec_fn(CredentialProfileView) -> bool {
    |profile: CredentialProfileView| profile.profile_id == id
}

/// Being of the kind.
pub open spec fn of_kind(kind: AuthProfileKind) -> spec_fn(CredentialProfileView) -> bool {
    |profile: CredentialProfileView| profile.kind == kind
}

/// Having the workspace.
pub open spec fn with_workspace(workspace: u64) -> spec_fn(CredentialProfileView) -> bool {
    |profile: CredentialProfileView| profile.workspace_id == workspace
}

/// Being a profile of the workspace.
pub open spec fn of_workspace(workspace: u64) -> spec_fn(CredentialProfileView) -> bool {
    |profile: CredentialProfileView|
        profile.kind == AuthProfileKind::Baijimu && profile.workspace_id == workspace
}

/// The first profile with the identity.
pub fn find_profile<'a>(profiles: &'a Vec<CredentialProfile>, id: &str) -> (res: Option<
    &'a CredentialProfile,
>)
    ensures
        match res {
            Some(profile) => first_where(profiles.deep_view(), with_id(id@)) == Some(
                profile.deep_view(),
            ),
            None => first_where(profiles.deep_view(), with_id(id@)) is None,
        },
{
    let ghost all = profiles.deep_view();
    let ghost p = with_id(id@);
    let mut i: usize = 0;
    while i < profiles.len()
        invariant
            i <= profiles.len(),
            all == profiles.deep_view(),
            p == with_id(id@),
            forall|j: int| 0 <= j < i ==> !p(#[trigger] all[j]),
        decreases profiles.len() - i,
    {
        if text::same(profiles[i].profile_id.as_str(), id) {
            proof {
                first_where_at(all, p, i as int);
            }
            return Some(&profiles[i]);
        }
        assert(!p(all[i as int]));
        i = i + 1;
    }
    proof {
        first_where_none(all, p);
    }
    None
}

/// The first profile of the kind.
pub fn find_kind<'a>(profiles: &'a Vec<CredentialProfile>, kind: AuthProfileKind) -> (res: Option<
    &'a CredentialProfile,
>)
    ensures
        match res {
            Some(profile) => first_where(profiles.deep_view(), of_kind(kind)) == Some(
                profile.deep_view(),
            ),
            None => first_where(profiles.deep_view(), of_kind(kind)) is None,
        },
{
    let ghost all = profiles.deep_view();
    let ghost p = of_kind(kind);
    let mut i: usize = 0;
    while i < profiles.len()
        invariant
            i <= profiles.len(),
            all == profiles.deep_view(),
            p == of_kind(kind),
            forall|j: int| 0 <= j < i ==> !p(#[trigger] all[j]),
        decreases profiles.len() - i,
    {
        if profiles[i].kind == kind {
            proof {
                first_where_at(all, p, i as int);
            }
            return Some(&profiles[i]);
        }
        assert(!p(all[i as int]));
        i = i + 1;
    }
    proof {
        first_where_none(all, p);
    }
    None
}

/// The first profile with the workspace, whatever its kind.
pub fn find_workspace<'a>(profiles: &'a Vec<CredentialProfile>, workspace: u64) -> (res: Option<
    &'a CredentialProfile,
>)
    ensures
        match res {
            Some(profile) => first_where(profiles.deep_view(), with_workspace(workspace)) == Some(
                profile.deep_view(),
            ),
            None => first_where(profiles.deep_view(), with_workspace(workspace)) is None,
        },
{
    let ghost all = profiles.deep_view();
    let ghost p = with_workspace(workspace);
    let mut i: usize = 0;
    while i < profiles.len()
        invariant
            i <= profiles.len(),
            all == profiles.deep_view(),
            p == with_workspace(workspace),
            forall|j: int| 0 <= j < i ==> !p(#[trigger] all[j]),
        decreases profiles.len() - i,
    {
        if profiles[i].workspace_id == workspace {
            proof {
                first_where_at(all, p, i as int);
            }
            return Some(&profiles[i]);
        }
        assert(!p(all[i as int]));
        i = i + 1;
    }
    proof {
        first_where_none(all, p);
    }
    None
}

/// Personal profiles come first; within a kind, profiles are ordered by name and then identity.
pub open spec fn profile_precedes(a: CredentialProfileView, b: CredentialProfileView) -> bool {
    if a.kind != b.kind {
        a.kind == AuthProfileKind::Personal
    } else if a.name != b.name {
        text::text_leq(a.name, b.name)
    } else {
        text::text_leq(a.profile_id, b.profile_id)
    }
}

impl Ranked for CredentialProfile {
    open spec fn precedes(a: CredentialProfileView, b: CredentialProfileView) -> bool {
        profile_precedes(a, b)
    }

    fn may_precede(&self, other: &Self) -> (res: bool) {
        if self.kind != other.kind {
            self.kind == AuthProfileKind::Personal
        } else if !text::same(self.name.as_str(), other.name.as_str()) {
            text::leq(self.name.as_str(), other.name.as_str())
        } else {
            text::leq(self.profile_id.as_str(), other.profile_id.as_str())
        }
    }
}

impl Ranked for WorkspaceOption {
    open spec fn precedes(a: WorkspaceOptionView, b: WorkspaceOptionView) -> bool {
        text::text_leq(a.name, b.name)
    }

    fn may_precede(&self, other: &Self) -> (res: bool) {
        text::leq(self.name.as_str(), other.name.as_str())
    }
}

/// The order of profiles is total and transitive.
pub proof fn profiles_are_ranked()
    ensures
        ranking::ranks::<CredentialProfile>(),
{
    assert forall|a: CredentialProfileView, b: CredentialProfileView| #[trigger]
        <CredentialProfile as Ranked>::precedes(a, b) || <CredentialProfile as Ranked>::precedes(
            b,
            a,
        ) by {
        text::text_leq_total(a.name, b.name);
        text::text_leq_total(a.profile_id, b.profile_id);
    }
    assert forall|a: CredentialProfileView, b: CredentialProfileView, c: CredentialProfileView|
        #![trigger <CredentialProfile as Ranked>::precedes(a, b), <CredentialProfile as Ranked>::precedes(b, c)]
        <CredentialProfile as Ranked>::precedes(a, b) && <CredentialProfile as Ranked>::precedes(
            b,
            c,
        ) implies <CredentialProfile as Ranked>::precedes(a, c) by {
        if a.kind == b.kind && b.kind == c.kind {
            if a.name != b.name && b.name != c.name {
                text::text_leq_transitive(a.name, b.name, c.name);
                if a.name == c.name {
                    text::text_leq_antisymmetric(a.name, b.name);
                }
            }
            if a.name == b.name && b.name == c.name {
                text::text_leq_transitive(a.profile_id, b.profile_id, c.profile_id);
            }
        }
    }
}

/// The order of workspaces is total and transitive.
pub proof fn workspaces_are_ranked()
    ensures
        ranking::ranks::<WorkspaceOption>(),
{
    assert forall|a: WorkspaceOptionView, b: WorkspaceOptionView| #[trigger]
        <WorkspaceOption as Ranked>::precedes(a, b) || <WorkspaceOption as Ranked>::precedes(
            b,
            a,
        ) by {
        text::text_leq_total(a.name, b.name);
    }
    assert forall|a: WorkspaceOptionView, b: WorkspaceOptionView, c: WorkspaceOptionView|
        #![trigger <WorkspaceOption as Ranked>::precedes(a, b), <WorkspaceOption as Ranked>::precedes(b, c)]
        <WorkspaceOption as Ranked>::precedes(a, b) && <WorkspaceOption as Ranked>::precedes(
            b,
            c,
        ) implies <WorkspaceOption as Ranked>::precedes(a, c) by {
        text::text_leq_transitive(a.name, b.name, c.name);
    }
}

/// The profiles in their order.
pub open spec fn sorted(profiles: Seq<CredentialProfileView>) -> Seq<CredentialProfileView> {
    ranking::arranged::<CredentialProfile>(profiles)
}

/// Puts the profiles in their order.
pub fn sort_profiles(profiles: &mut Vec<CredentialProfile>)
    ensures
        final(profiles).deep_view() == sorted(old(profiles).deep_view()),
{
    ranking::sort(profiles);
}

/// Having another identity.
pub open spec fn without_id(id: Seq<char>) -> spec_fn(CredentialProfileView) -> bool {
    |profile: CredentialProfileView| profile.profile_id != id
}

/// The profiles with this one in place of all with its identity, in their order.
pub open spec fn replaced(
    profiles: Seq<CredentialProfileView>,
    profile: CredentialProfileView,
) -> Seq<CredentialProfileView> {
    sorted(profiles.filter(without_id(profile.profile_id)).push(profile))
}

/// Puts a profile in place of all with its identity.
pub fn replace_profile(profiles: &mut Vec<CredentialProfile>, profile: &CredentialProfile)
    ensures
        final(profiles).deep_view() == replaced(old(profiles).deep_view(), profile.deep_view()),
{
    let ghost all = profiles.deep_view();
    let ghost keep = without_id(profile.profile_id@);
    let mut kept: Vec<CredentialProfile> = Vec::new();
    let mut i: usize = 0;
    assert(all.take(0).filter(keep) =~= Seq::empty()) by {
        reveal(Seq::filter);
    }
    assert(kept.deep_view() =~= all.take(0).filter(keep));
    while i < profiles.len()
        invariant
            i <= profiles.len(),
            all == profiles.deep_view(),
            keep == without_id(profile.profile_id@),
            kept.deep_view() == all.take(i as int).filter(keep),
        decreases profiles.len() - i,
    {
        let ghost before = kept.deep_view();
        assert(all.take(i + 1).drop_last() =~= all.take(i as int));
        assert(all.take(i + 1).last() == all[i as int]);
        assert(all.take(i + 1).filter(keep) == if keep(all[i as int]) {
            before.push(all[i as int])
        } else {
            before
        }) by {
            reveal(Seq::filter);
        }
        if !text::same(profiles[i].profile_id.as_str(), profile.profile_id.as_str()) {
            kept.push(profiles[i].duplicate());
            assert(kept.deep_view() =~= before.push(all[i as int]));
        }
        i = i + 1;
    }
    assert(all.take(i as int) =~= all);
    let ghost before = kept.deep_view();
    kept.push(profile.duplicate());
    assert(kept.deep_view() =~= before.push(profile.deep_view()));
    sort_profiles(&mut kept);
    std::mem::swap(profiles, &mut kept);
}

/// The profile with its empty fields filled in.
pub open spec fn normalized(
    profile: CredentialProfileView,
    home: Seq<char>,
) -> CredentialProfileView {
    let environment = if profile.environment.len() == 0 {
        "prod"@
    } else {
        profile.environment
    };
    let id = if profile.profile_id.len() == 0 {
        identity::identity(environment, profile.user_id, profile.client_id, profile.workspace_id)
    } else {
        profile.profile_id
    };
    let personal = profile.kind == AuthProfileKind::Personal;
    CredentialProfileView {
        profile_id: id,
        environment,
        workspace_id: if personal {
            0
        } else {
            profile.workspace_id
        },
        name: if profile.name.len() > 0 {
            profile.name
        } else if personal {
            "安装前授权备份"@
        } else {
            profile.workspace_name
        },
        codex_home: if profile.codex_home.len() == 0 {
            home
        } else {
            profile.codex_home
        },
        ..profile
    }
}

/// Fills in the empty fields of a profile.
pub fn normalize_profile(profile: &mut CredentialProfile, home: &str)
    ensures
        final(profile).deep_view() == normalized(old(profile).deep_view(), home@),
{
    if profile.environment.as_str().is_empty() {
        profile.environment = identity::default_environment();
    }
    if profile.profile_id.as_str().is_empty() {
        profile.profile_id = identity::profile_id(
            profile.environment.as_str(),
            profile.user_id,
            &profile.client_id,
            profile.workspace_id,
        );
    }
    if profile.kind == AuthProfileKind::Personal {
        profile.workspace_id = 0;
        if profile.name.as_str().is_empty() {
            profile.name = "安装前授权备份".to_string();
        }
    } else if profile.name.as_str().is_empty() {
        profile.name = profile.workspace_name.clone();
    }
    if profile.codex_home.as_str().is_empty() {
        profile.codex_home = home.to_string();
    }
}

/// Every profile with its empty fields filled in.
pub open spec fn all_normalized(
    profiles: Seq<CredentialProfileView>,
    home: Seq<char>,
) -> Seq<CredentialProfileView> {
    profiles.map_values(|profile: CredentialProfileView| normalized(profile, home))
}

/// Fills in the empty fields of every profile.
pub fn normalize_profiles(profiles: &mut Vec<CredentialProfile>, home: &str)
    ensures
        final(profiles).deep_view() == all_normalized(old(profiles).deep_view(), home@),
{
    let ghost all = profiles.deep_view();
    let mut i: usize = 0;
    while i < profiles.len()
        invariant
            i <= profiles.len(),
            profiles.len() == all.len(),
            forall|j: int|
                0 <= j < i ==> (#[trigger] profiles@[j]).deep_view() == normalized(all[j], home@),
            forall|j: int| i <= j < all.len() ==> (#[trigger] profiles@[j]).deep_view() == all[j],
        decreases profiles.len() - i,
    {
        let mut profile = profiles[i].duplicate();
        normalize_profile(&mut profile, home);
        profiles[i] = profile;
        i = i + 1;
    }
    assert(profiles.deep_view() =~= all_normalized(all, home@));
}

/// The profile of the workspace that is preferred: the active one, else the one put in effect
/// last; the later in the list where that does not decide.
pub open spec fn preferred(
    profiles: Seq<CredentialProfileView>,
    active: Option<Seq<char>>,
    workspace: u64,
) -> Option<CredentialProfileView>
    decreases profiles.len(),
{
    if profiles.len() == 0 {
        None
    } else {
        let best = preferred(profiles.drop_last(), active, workspace);
        let last = profiles.last();
        if !of_workspace(workspace)(last) {
            best
        } else {
            match best {
                None => Some(last),
                Some(found) => if outranks(found, last, active) {
                    best
                } else {
                    Some(last)
                },
            }
        }
    }
}

/// Whether the first profile is preferred to a later one.
pub open spec fn outranks(
    a: CredentialProfileView,
    b: CredentialProfileView,
    active: Option<Seq<char>>,
) -> bool {
    let a_active = active == Some(a.profile_id);
    let b_active = active == Some(b.profile_id);
    if a_active != b_active {
        a_active
    } else {
        a.activated_at_epoch_seconds > b.activated_at_epoch_seconds
    }
}

/// Whether the profile is the active one.
pub fn is_active(active: &Option<String>, id: &str) -> (res: bool)
    ensures
        res == (text::opt_view(*active) == Some(id@)),
{
    match active {
        Some(found) => text::same(found.as_str(), id),
        None => false,
    }
}

/// The profile of the workspace that is preferred.
pub fn select_workspace_profile<'a>(
    profiles: &'a Vec<CredentialProfile>,
    active: &Option<String>,
    workspace: u64,
) -> (res: Option<&'a CredentialProfile>)
    ensures
        match res {
            Some(profile) => preferred(profiles.deep_view(), text::opt_view(*active), workspace)
                == Some(profile.deep_view()),
            None => preferred(profiles.deep_view(), text::opt_view(*active), workspace) is None,
        },
{
    let ghost all = profiles.deep_view();
    let ghost act = text::opt_view(*active);
    let mut best: Option<usize> = None;
    let mut i: usize = 0;
    while i < profiles.len()
        invariant
            i <= profiles.len(),
            all == profiles.deep_view(),
            act == text::opt_view(*active),
            match best {
                Some(at) => at < i && preferred(all.take(i as int), act, workspace) == Some(
                    all[at as int],
                ),
                None => preferred(all.take(i as int), act, workspace) is None,
            },
        decreases profiles.len() - i,
    {
        let profile = &profiles[i];
        assert(all.take(i + 1).drop_last() =~= all.take(i as int));
        if profile.kind == AuthProfileKind::Baijimu && profile.workspace_id == workspace {
            let keep = match best {
                None => false,
                Some(at) => {
                    let found = &profiles[at];
                    let found_active = is_active(active, found.profile_id.as_str());
                    let profile_active = is_active(active, profile.profile_id.as_str());
                    if found_active != profile_active {
                        found_active
                    } else {
                        found.activated_at_epoch_seconds > profile.activated_at_epoch_seconds
                    }
                },
            };
            if !keep {
                best = Some(i);
            }
        }
        i = i + 1;
    }
    assert(all.take(i as int) =~= all);
    match best {
        Some(at) => Some(&profiles[at]),
        None => None,
    }
}

} // verus!
