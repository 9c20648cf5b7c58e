//! What holds of the catalog of Codex workspaces.
use crate::codex_workspace;
use crate::codex_workspace::{
    CatalogStoreView, CodexWorkspace, CodexWorkspaceView, LegacyCodexWorkspaceCandidateView,
    WorkspaceCatalogView, WorkspaceErrorView,
};
use crate::credential::store::Stored;
use crate::ranking;
use crate::text;
use vstd::prelude::*;

verus! {

/// Sorting workspaces keeps which workspaces there are.
pub proof fn sorting_keeps_members(all: Seq<CodexWorkspaceView>)
    ensures
        forall|workspace: CodexWorkspaceView| #[trigger]
            codex_workspace::sorted(all).contains(workspace) <==> all.contains(workspace),
        codex_workspace::sorted(all).len() == all.len(),
        codex_workspace::sorted(all).to_multiset() == all.to_multiset(),
        ranking::ordered::<CodexWorkspace>(codex_workspace::sorted(all)),
{
    codex_workspace::workspaces_are_ranked();
    ranking::arranged_is_sorted::<CodexWorkspace>(all);
    let after = codex_workspace::sorted(all);
    assert forall|workspace: CodexWorkspaceView| #[trigger] after.contains(workspace)
        <==> all.contains(workspace) by {
        vstd::seq_lib::to_multiset_contains(after, workspace);
        vstd::seq_lib::to_multiset_contains(all, workspace);
    }
    after.to_multiset_ensures();
    all.to_multiset_ensures();
}

/// A workspace of the list has a position.
proof fn member_has_position(all: Seq<CodexWorkspaceView>, workspace: CodexWorkspaceView)
    requires
        all.contains(workspace),
    ensures
        codex_workspace::position(all, workspace.workspace_id) is Some,
{
    codex_workspace::position_is_right(all, workspace.workspace_id);
    let i = choose|i: int| 0 <= i < all.len() && all[i] == workspace;
    assert(all[i].workspace_id == workspace.workspace_id);
}

/// A sorted list has workspaces of the same identities.
proof fn sorting_keeps_positions(all: Seq<CodexWorkspaceView>, id: Seq<char>)
    ensures
        codex_workspace::position(codex_workspace::sorted(all), id) is Some
            <==> codex_workspace::position(all, id) is Some,
{
    let after = codex_workspace::sorted(all);
    sorting_keeps_members(all);
    codex_workspace::position_is_right(all, id);
    codex_workspace::position_is_right(after, id);
    if let Some(at) = codex_workspace::position(all, id) {
        assert(all.contains(all[at]));
        assert(after.contains(all[at]));
        member_has_position(after, all[at]);
    }
    if let Some(at) = codex_workspace::position(after, id) {
        assert(after.contains(after[at]));
        assert(all.contains(after[at]));
        member_has_position(all, after[at]);
    }
}

/// A catalog that is as it has to be has the default workspace at its directory, names an active
/// workspace that is there, is sorted, and still holds every other workspace.
pub proof fn normalized_catalog_is_complete(
    catalog: WorkspaceCatalogView,
    home: Seq<char>,
    profile: Option<Seq<char>>,
    candidates: Seq<LegacyCodexWorkspaceCandidateView>,
    now: u64,
)
    requires
        codex_workspace::normalized(catalog, home, profile, candidates, now) is Ok,
    ensures
        ({
            let after = codex_workspace::normalized(catalog, home, profile, candidates, now)->Ok_0;
            &&& exists|workspace: CodexWorkspaceView| #[trigger]
                after.workspaces.contains(workspace) && workspace.workspace_id
                    == codex_workspace::DEFAULT_WORKSPACE_ID@ && workspace.codex_home == home
                    && workspace.is_default
            &&& codex_workspace::position(after.workspaces, after.active_workspace_id) is Some
            &&& ranking::ordered::<CodexWorkspace>(after.workspaces)
            &&& forall|workspace: CodexWorkspaceView| #[trigger]
                catalog.workspaces.contains(workspace) && workspace.workspace_id
                    != codex_workspace::DEFAULT_WORKSPACE_ID@ ==> after.workspaces.contains(
                    workspace,
                )
        }),
{
    let base = codex_workspace::with_default(catalog.workspaces, home, profile, now);
    let all = codex_workspace::with_imported(base, candidates)->Ok_0;
    let after = codex_workspace::normalized(catalog, home, profile, candidates, now)->Ok_0;
    codex_workspace::importing_adds(base, candidates);
    sorting_keeps_members(all);
    codex_workspace::position_is_right(
        catalog.workspaces,
        codex_workspace::DEFAULT_WORKSPACE_ID@,
    );
    let at = match codex_workspace::position(
        catalog.workspaces,
        codex_workspace::DEFAULT_WORKSPACE_ID@,
    ) {
        Some(at) => at,
        None => catalog.workspaces.len() as int,
    };
    let fixed = base[at];
    assert(all.take(base.len() as int)[at] == fixed);
    assert(all[at] == fixed);
    assert(all.contains(fixed));
    assert(after.workspaces.contains(fixed));
    member_has_position(all, fixed);
    sorting_keeps_positions(all, after.active_workspace_id);
    assert forall|workspace: CodexWorkspaceView| #[trigger]
        catalog.workspaces.contains(workspace) && workspace.workspace_id
            != codex_workspace::DEFAULT_WORKSPACE_ID@ implies after.workspaces.contains(
        workspace,
    ) by {
        let i = choose|i: int|
            0 <= i < catalog.workspaces.len() && catalog.workspaces[i] == workspace;
        assert(base[i] == workspace);
        assert(all.take(base.len() as int)[i] == workspace);
        assert(all[i] == workspace);
        assert(all.contains(workspace));
    }
}

/// Where every directory has a workspace, none is taken over.
proof fn known_homes_are_not_imported(
    all: Seq<CodexWorkspaceView>,
    candidates: Seq<LegacyCodexWorkspaceCandidateView>,
)
    requires
        forall|i: int|
            0 <= i < candidates.len() ==> codex_workspace::has_home(
                all,
                (#[trigger] candidates[i]).codex_home,
            ),
    ensures
        codex_workspace::with_imported(all, candidates) == Ok::<
            Seq<CodexWorkspaceView>,
            WorkspaceErrorView,
        >(all),
    decreases candidates.len(),
{
    if candidates.len() > 0 {
        known_homes_are_not_imported(all, candidates.drop_last());
        assert(candidates[candidates.len() - 1] == candidates.last());
    }
}

/// A directory that a longer list begins with is in the longer list.
proof fn home_stays(
    all: Seq<CodexWorkspaceView>,
    more: Seq<CodexWorkspaceView>,
    home: Seq<char>,
)
    requires
        all.len() <= more.len(),
        more.take(all.len() as int) == all,
        codex_workspace::has_home(all, home),
    ensures
        codex_workspace::has_home(more, home),
{
    let i = choose|i: int| 0 <= i < all.len() && (#[trigger] all[i]).codex_home == home;
    assert(more.take(all.len() as int)[i] == all[i]);
    assert(more[i].codex_home == home);
}

/// After directories were taken over, each has a workspace.
pub proof fn imported_homes_are_known(
    all: Seq<CodexWorkspaceView>,
    candidates: Seq<LegacyCodexWorkspaceCandidateView>,
)
    requires
        codex_workspace::with_imported(all, candidates) is Ok,
    ensures
        forall|i: int|
            0 <= i < candidates.len() ==> codex_workspace::has_home(
                codex_workspace::with_imported(all, candidates)->Ok_0,
                (#[trigger] candidates[i]).codex_home,
            ),
    decreases candidates.len(),
{
    if candidates.len() > 0 {
        let front = candidates.drop_last();
        let before = codex_workspace::with_imported(all, front)->Ok_0;
        let after = codex_workspace::with_imported(all, candidates)->Ok_0;
        imported_homes_are_known(all, front);
        assert(before.len() <= after.len() && after.take(before.len() as int) =~= before);
        assert forall|i: int| 0 <= i < candidates.len() implies codex_workspace::has_home(
            after,
            (#[trigger] candidates[i]).codex_home,
        ) by {
            if i < front.len() {
                assert(front[i] == candidates[i]);
                home_stays(before, after, candidates[i].codex_home);
            } else if !codex_workspace::has_home(before, candidates[i].codex_home) {
                assert(after[before.len() as int].codex_home == candidates[i].codex_home);
            }
        }
    }
}

/// Taking the same directories over again adds nothing.
pub proof fn importing_again_adds_nothing(
    all: Seq<CodexWorkspaceView>,
    candidates: Seq<LegacyCodexWorkspaceCandidateView>,
)
    requires
        codex_workspace::with_imported(all, candidates) is Ok,
    ensures
        codex_workspace::with_imported(
            codex_workspace::with_imported(all, candidates)->Ok_0,
            candidates,
        ) == codex_workspace::with_imported(all, candidates),
{
    imported_homes_are_known(all, candidates);
    known_homes_are_not_imported(
        codex_workspace::with_imported(all, candidates)->Ok_0,
        candidates,
    );
}

/// Whether no two workspaces have the same identity.
pub open spec fn distinct(all: Seq<CodexWorkspaceView>) -> bool {
    forall|i: int, j: int|
        0 <= i < j < all.len() ==> (#[trigger] all[i]).workspace_id != (#[trigger] all[j]).workspace_id
}

/// Taking directories over keeps identities distinct.
proof fn importing_keeps_distinct(
    all: Seq<CodexWorkspaceView>,
    candidates: Seq<LegacyCodexWorkspaceCandidateView>,
)
    requires
        distinct(all),
        codex_workspace::with_imported(all, candidates) is Ok,
    ensures
        distinct(codex_workspace::with_imported(all, candidates)->Ok_0),
    decreases candidates.len(),
{
    if candidates.len() > 0 {
        importing_keeps_distinct(all, candidates.drop_last());
        let before = codex_workspace::with_imported(all, candidates.drop_last())->Ok_0;
        let candidate = candidates.last();
        let id = codex_workspace::imported_id(candidate.profile_id, candidate.codex_home);
        codex_workspace::position_is_right(before, id);
    }
}

/// Among distinct identities a workspace is found by its own.
proof fn distinct_is_found(all: Seq<CodexWorkspaceView>, i: int)
    requires
        distinct(all),
        0 <= i < all.len(),
    ensures
        codex_workspace::position(all, all[i].workspace_id) == Some(i),
{
    codex_workspace::position_at(all, all[i].workspace_id, i);
}

/// Sorting keeps identities distinct.
proof fn sorting_keeps_distinct(all: Seq<CodexWorkspaceView>)
    requires
        distinct(all),
    ensures
        distinct(codex_workspace::sorted(all)),
{
    let after = codex_workspace::sorted(all);
    sorting_keeps_members(all);
    assert(all.no_duplicates()) by {
        assert forall|i: int, j: int|
            0 <= i < all.len() && 0 <= j < all.len() && i != j implies all[i] != all[j] by {
            if i < j {
                assert(all[i].workspace_id != all[j].workspace_id);
            } else {
                assert(all[j].workspace_id != all[i].workspace_id);
            }
        }
    }
    all.lemma_multiset_has_no_duplicates();
    after.lemma_multiset_has_no_duplicates_conv();
    assert forall|i: int, j: int| 0 <= i < j < after.len() implies (
    #[trigger] after[i]).workspace_id != (#[trigger] after[j]).workspace_id by {
        if after[i].workspace_id == after[j].workspace_id {
            assert(after.contains(after[i]));
            assert(after.contains(after[j]));
            assert(all.contains(after[i]));
            assert(all.contains(after[j]));
            let x = choose|x: int| 0 <= x < all.len() && all[x] == after[i];
            let y = choose|y: int| 0 <= y < all.len() && all[y] == after[j];
            distinct_is_found(all, x);
            distinct_is_found(all, y);
            assert(x == y);
            assert(after[i] == after[j]);
        }
    }
}

/// Whether at most one workspace has the identity of the default one.
pub open spec fn one_default(all: Seq<CodexWorkspaceView>) -> bool {
    forall|i: int, j: int|
        0 <= i < j < all.len() ==> (#[trigger] all[i]).workspace_id
            != codex_workspace::DEFAULT_WORKSPACE_ID@ || (#[trigger] all[j]).workspace_id
            != codex_workspace::DEFAULT_WORKSPACE_ID@
}

/// Whether the workspaces need no change: the default one is there as it has to be, and every
/// directory has a workspace.
pub open spec fn complete(
    all: Seq<CodexWorkspaceView>,
    home: Seq<char>,
    profile: Option<Seq<char>>,
    candidates: Seq<LegacyCodexWorkspaceCandidateView>,
) -> bool {
    &&& codex_workspace::position(all, codex_workspace::DEFAULT_WORKSPACE_ID@) matches Some(at)
    &&& codex_workspace::as_default(all[at], home, profile) == all[at]
    &&& forall|i: int|
        0 <= i < candidates.len() ==> codex_workspace::has_home(
            all,
            (#[trigger] candidates[i]).codex_home,
        )
}

/// Workspaces that need no change get none.
proof fn complete_stays(
    all: Seq<CodexWorkspaceView>,
    home: Seq<char>,
    profile: Option<Seq<char>>,
    candidates: Seq<LegacyCodexWorkspaceCandidateView>,
    now: u64,
)
    requires
        complete(all, home, profile, candidates),
    ensures
        codex_workspace::with_default(all, home, profile, now) == all,
        !codex_workspace::default_changes(all, home, profile),
        codex_workspace::with_imported(all, candidates) == Ok::<
            Seq<CodexWorkspaceView>,
            WorkspaceErrorView,
        >(all),
{
    codex_workspace::position_is_right(all, codex_workspace::DEFAULT_WORKSPACE_ID@);
    assert(codex_workspace::with_default(all, home, profile, now) =~= all);
    known_homes_are_not_imported(all, candidates);
}

/// Taking directories over leaves the default workspace the only one of its identity.
proof fn importing_keeps_one_default(
    all: Seq<CodexWorkspaceView>,
    candidates: Seq<LegacyCodexWorkspaceCandidateView>,
)
    requires
        one_default(all),
        codex_workspace::position(all, codex_workspace::DEFAULT_WORKSPACE_ID@) is Some,
        codex_workspace::with_imported(all, candidates) is Ok,
    ensures
        one_default(codex_workspace::with_imported(all, candidates)->Ok_0),
        codex_workspace::position(
            codex_workspace::with_imported(all, candidates)->Ok_0,
            codex_workspace::DEFAULT_WORKSPACE_ID@,
        ) is Some,
    decreases candidates.len(),
{
    if candidates.len() > 0 {
        importing_keeps_one_default(all, candidates.drop_last());
        let before = codex_workspace::with_imported(all, candidates.drop_last())->Ok_0;
        let after = codex_workspace::with_imported(all, candidates)->Ok_0;
        let candidate = candidates.last();
        let id = codex_workspace::imported_id(candidate.profile_id, candidate.codex_home);
        codex_workspace::position_is_right(before, id);
        codex_workspace::position_is_right(before, codex_workspace::DEFAULT_WORKSPACE_ID@);
        if after.len() > before.len() {
            assert(after.drop_last() =~= before);
        }
    }
}

/// A catalog that is as it has to be holds workspaces that need no change.
proof fn normalized_is_complete(
    catalog: WorkspaceCatalogView,
    home: Seq<char>,
    profile: Option<Seq<char>>,
    candidates: Seq<LegacyCodexWorkspaceCandidateView>,
    now: u64,
)
    requires
        one_default(catalog.workspaces),
        codex_workspace::normalized(catalog, home, profile, candidates, now) is Ok,
    ensures
        complete(
            codex_workspace::normalized(
                catalog,
                home,
                profile,
                candidates,
                now,
            )->Ok_0.workspaces,
            home,
            profile,
            candidates,
        ),
{
    let id = codex_workspace::DEFAULT_WORKSPACE_ID@;
    let base = codex_workspace::with_default(catalog.workspaces, home, profile, now);
    let all = codex_workspace::with_imported(base, candidates)->Ok_0;
    let after = codex_workspace::normalized(catalog, home, profile, candidates, now)->Ok_0;
    let list = after.workspaces;
    codex_workspace::position_is_right(catalog.workspaces, id);
    let at = match codex_workspace::position(catalog.workspaces, id) {
        Some(at) => at,
        None => catalog.workspaces.len() as int,
    };
    let fixed = base[at];
    assert(base.contains(fixed));
    member_has_position(base, fixed);
    assert(one_default(base));
    codex_workspace::importing_adds(base, candidates);
    importing_keeps_one_default(base, candidates);
    sorting_keeps_members(all);
    assert(all.take(base.len() as int)[at] == fixed);
    assert(all[at] == fixed);
    assert(all.contains(fixed));
    assert(list.contains(fixed));
    member_has_position(list, fixed);
    codex_workspace::position_is_right(list, id);
    let k = codex_workspace::position(list, id)->0;
    assert(list.contains(list[k]));
    assert(all.contains(list[k]));
    let x = choose|x: int| 0 <= x < all.len() && all[x] == list[k];
    assert(x == at) by {
        if x < at {
            assert(all[x].workspace_id == id && all[at].workspace_id == id);
        }
        if at < x {
            assert(all[at].workspace_id == id && all[x].workspace_id == id);
        }
    }
    assert(list[k] == fixed);
    imported_homes_are_known(base, candidates);
    assert forall|i: int| 0 <= i < candidates.len() implies codex_workspace::has_home(
        list,
        (#[trigger] candidates[i]).codex_home,
    ) by {
        let h = candidates[i].codex_home;
        assert(codex_workspace::has_home(all, h));
        let x = choose|x: int| 0 <= x < all.len() && (#[trigger] all[x]).codex_home == h;
        assert(all.contains(all[x]));
        assert(list.contains(all[x]));
        let y = choose|y: int| 0 <= y < list.len() && list[y] == all[x];
        assert(list[y].codex_home == h);
    }
}

/// A catalog that is as it has to be stays so: making it so again, at any time, changes nothing.
/// Two workspaces of the identity of the default one are left out: which of them comes first may
/// change.
pub proof fn normalizing_again_changes_nothing(
    catalog: WorkspaceCatalogView,
    home: Seq<char>,
    profile: Option<Seq<char>>,
    candidates: Seq<LegacyCodexWorkspaceCandidateView>,
    now: u64,
    later: u64,
)
    requires
        one_default(catalog.workspaces),
        codex_workspace::normalized(catalog, home, profile, candidates, now) is Ok,
    ensures
        ({
            let after = codex_workspace::normalized(catalog, home, profile, candidates, now)->Ok_0;
            &&& codex_workspace::normalized(after, home, profile, candidates, later) == Ok::<
                WorkspaceCatalogView,
                WorkspaceErrorView,
            >(after)
            &&& !codex_workspace::normalizing_changes(after, home, profile, candidates, later)
        }),
{
    let after = codex_workspace::normalized(catalog, home, profile, candidates, now)->Ok_0;
    normalized_catalog_is_complete(catalog, home, profile, candidates, now);
    normalized_is_complete(catalog, home, profile, candidates, now);
    complete_stays(after.workspaces, home, profile, candidates, later);
    codex_workspace::workspaces_are_ranked();
    ranking::arranged_keeps_order::<CodexWorkspace>(after.workspaces);
}

/// Where a catalog cannot be as it has to be, no workspace is lost: each is still at its place, and
/// only the default one may have changed. One of another version is not touched at all.
pub proof fn failed_normalization_loses_nothing(
    catalog: WorkspaceCatalogView,
    home: Seq<char>,
    profile: Option<Seq<char>>,
    candidates: Seq<LegacyCodexWorkspaceCandidateView>,
    now: u64,
)
    requires
        codex_workspace::normalized(catalog, home, profile, candidates, now) is Err,
    ensures
        ({
            let after = codex_workspace::half_normalized(catalog, home, profile, candidates, now);
            &&& catalog.schema_version != codex_workspace::CATALOG_SCHEMA_VERSION ==> after
                == catalog
            &&& after.schema_version == catalog.schema_version
            &&& after.active_workspace_id == catalog.active_workspace_id
            &&& catalog.workspaces.len() <= after.workspaces.len()
            &&& forall|i: int|
                0 <= i < catalog.workspaces.len() ==> #[trigger] after.workspaces[i]
                    == catalog.workspaces[i] || catalog.workspaces[i].workspace_id
                    == codex_workspace::DEFAULT_WORKSPACE_ID@ && after.workspaces[i]
                    == codex_workspace::as_default(catalog.workspaces[i], home, profile)
        }),
{
    let base = codex_workspace::with_default(catalog.workspaces, home, profile, now);
    let after = codex_workspace::half_normalized(catalog, home, profile, candidates, now);
    codex_workspace::taking_over_adds(base, candidates);
    codex_workspace::position_is_right(catalog.workspaces, codex_workspace::DEFAULT_WORKSPACE_ID@);
    if catalog.schema_version == codex_workspace::CATALOG_SCHEMA_VERSION {
        assert forall|i: int| 0 <= i < catalog.workspaces.len() implies #[trigger] after.workspaces[i]
            == base[i] by {
            assert(after.workspaces.take(base.len() as int)[i] == base[i]);
        }
    }
}

/// What making a workspace the active one does: it succeeds exactly where the catalog has that
/// workspace with an authorization profile; then that workspace, with the time noted, is the active
/// one from then on, and every other stays as it was. Where it fails, the catalog stays as it was
/// loaded.
pub proof fn activated_workspace_is_active(
    s: CatalogStoreView,
    id: Seq<char>,
    now: u64,
    later: u64,
)
    requires
        codex_workspace::found(s) matches Ok(catalog) ==> distinct(catalog.workspaces),
    ensures
        ({
            let (l, before) = codex_workspace::loaded(s, None, now);
            let (t, res) = codex_workspace::activated(s, id, now);
            let (u, after) = codex_workspace::loaded(t, None, later);
            &&& res is Ok <==> (before is Ok && exists|i: int|
                0 <= i < before->Ok_0.workspaces.len() && (
                #[trigger] before->Ok_0.workspaces[i]).workspace_id == id
                    && before->Ok_0.workspaces[i].auth_profile_id is Some)
            &&& res is Err ==> t == l
            &&& res matches Ok(workspace) ==> {
                &&& after is Ok
                &&& after->Ok_0.active_workspace_id == id
                &&& codex_workspace::looked_up(
                    after->Ok_0,
                    after->Ok_0.active_workspace_id,
                    WorkspaceErrorView::ActiveMissing,
                ) == Ok::<CodexWorkspaceView, WorkspaceErrorView>(workspace)
                &&& exists|i: int|
                    0 <= i < before->Ok_0.workspaces.len() && (
                    #[trigger] before->Ok_0.workspaces[i]).workspace_id == id && workspace == (
                    CodexWorkspaceView {
                        updated_at_epoch_seconds: now,
                        ..before->Ok_0.workspaces[i]
                    })
                &&& forall|other: CodexWorkspaceView|
                    other.workspace_id != id ==> (#[trigger] after->Ok_0.workspaces.contains(other)
                        <==> before->Ok_0.workspaces.contains(other))
            }
        }),
{
    let (l, before) = codex_workspace::loaded(s, None, now);
    let (t, res) = codex_workspace::activated(s, id, now);
    if before is Ok {
        let catalog = codex_workspace::found(s)->Ok_0;
        let c = before->Ok_0;
        normalizing_keeps_distinct(catalog, s.default_home, None, s.candidates, now);
        codex_workspace::position_is_right(c.workspaces, id);
        if let Some(at) = codex_workspace::position(c.workspaces, id) {
            assert forall|i: int|
                0 <= i < c.workspaces.len() && (#[trigger] c.workspaces[i]).workspace_id
                    == id implies i == at by {
                distinct_is_found(c.workspaces, i);
            }
            if res is Ok {
                activation_is_kept(s, id, now, later);
            }
        }
    }
}

/// Identities that were distinct stay distinct in the catalog as it has to be.
proof fn normalizing_keeps_distinct(
    catalog: WorkspaceCatalogView,
    home: Seq<char>,
    profile: Option<Seq<char>>,
    candidates: Seq<LegacyCodexWorkspaceCandidateView>,
    now: u64,
)
    requires
        distinct(catalog.workspaces),
        codex_workspace::normalized(catalog, home, profile, candidates, now) is Ok,
    ensures
        distinct(
            codex_workspace::normalized(catalog, home, profile, candidates, now)->Ok_0.workspaces,
        ),
{
    let base = codex_workspace::with_default(catalog.workspaces, home, profile, now);
    codex_workspace::position_is_right(catalog.workspaces, codex_workspace::DEFAULT_WORKSPACE_ID@);
    assert(distinct(base));
    importing_keeps_distinct(base, candidates);
    sorting_keeps_distinct(codex_workspace::with_imported(base, candidates)->Ok_0);
}

/// A workspace that was made the active one is it when the catalog is loaded again.
proof fn activation_is_kept(s: CatalogStoreView, id: Seq<char>, now: u64, later: u64)
    requires
        codex_workspace::found(s) matches Ok(catalog) && distinct(catalog.workspaces),
        codex_workspace::activated(s, id, now).1 is Ok,
    ensures
        ({
            let before = codex_workspace::loaded(s, None, now).1->Ok_0;
            let (t, res) = codex_workspace::activated(s, id, now);
            let after = codex_workspace::loaded(t, None, later).1;
            &&& after is Ok
            &&& after->Ok_0.active_workspace_id == id
            &&& codex_workspace::looked_up(
                after->Ok_0,
                id,
                WorkspaceErrorView::ActiveMissing,
            ) == Ok::<CodexWorkspaceView, WorkspaceErrorView>(res->Ok_0)
            &&& forall|other: CodexWorkspaceView|
                other.workspace_id != id ==> (#[trigger] after->Ok_0.workspaces.contains(other)
                    <==> before.workspaces.contains(other))
        }),
{
    let catalog = codex_workspace::found(s)->Ok_0;
    let c = codex_workspace::loaded(s, None, now).1->Ok_0;
    let (t, res) = codex_workspace::activated(s, id, now);
    let touched = res->Ok_0;
    let home = s.default_home;
    let default = codex_workspace::DEFAULT_WORKSPACE_ID@;
    normalizing_keeps_distinct(catalog, home, None, s.candidates, now);
    assert(one_default(catalog.workspaces));
    normalized_is_complete(catalog, home, None, s.candidates, now);
    codex_workspace::position_is_right(c.workspaces, id);
    codex_workspace::position_is_right(c.workspaces, default);
    let at = codex_workspace::position(c.workspaces, id)->0;
    let k = codex_workspace::position(c.workspaces, default)->0;
    let list = c.workspaces.update(at, touched);
    assert forall|i: int| 0 <= i < list.len() implies (#[trigger] list[i]).workspace_id
        == c.workspaces[i].workspace_id && list[i].codex_home == c.workspaces[i].codex_home by {}
    assert(distinct(list)) by {
        assert forall|i: int, j: int| 0 <= i < j < list.len() implies (
        #[trigger] list[i]).workspace_id != (#[trigger] list[j]).workspace_id by {
            assert(c.workspaces[i].workspace_id != c.workspaces[j].workspace_id);
        }
    }
    distinct_is_found(list, k);
    distinct_is_found(list, at);
    assert forall|i: int| 0 <= i < s.candidates.len() implies codex_workspace::has_home(
        list,
        (#[trigger] s.candidates[i]).codex_home,
    ) by {
        let h = s.candidates[i].codex_home;
        let x = choose|x: int|
            0 <= x < c.workspaces.len() && (#[trigger] c.workspaces[x]).codex_home == h;
        assert(list[x].codex_home == h);
    }
    complete_stays(list, home, None, s.candidates, later);
    let after = codex_workspace::loaded(t, None, later).1->Ok_0;
    assert(after.workspaces == codex_workspace::sorted(list));
    sorting_keeps_members(list);
    sorting_keeps_distinct(list);
    assert(list.contains(list[at]));
    assert(after.workspaces.contains(touched));
    let y = choose|y: int| 0 <= y < after.workspaces.len() && after.workspaces[y] == touched;
    distinct_is_found(after.workspaces, y);
    assert forall|other: CodexWorkspaceView|
        other.workspace_id != id implies (#[trigger] after.workspaces.contains(other)
            <==> c.workspaces.contains(other)) by {
        if list.contains(other) {
            let i = choose|i: int| 0 <= i < list.len() && list[i] == other;
            assert(c.workspaces[i] == other);
        }
        if c.workspaces.contains(other) {
            let i = choose|i: int| 0 <= i < c.workspaces.len() && c.workspaces[i] == other;
            assert(list[i] == other);
            assert(list.contains(other));
        }
    }
}

/// Taking a new workspace out again brings the catalog back to what it was.
pub proof fn rolling_back_a_new_workspace_restores(
    s: CatalogStoreView,
    id: Seq<char>,
    name: Seq<char>,
    home: Seq<char>,
    profile: Seq<char>,
    now: u64,
)
    requires
        codex_workspace::created(s, id, name, home, profile, now).1 is Ok,
    ensures
        ({
            let t = codex_workspace::created(s, id, name, home, profile, now).0;
            let before = codex_workspace::loaded(s, None, now).1->Ok_0;
            codex_workspace::discarded(t, id).stored == Stored::Value(before)
        }),
{
    let before = codex_workspace::loaded(s, None, now).1->Ok_0;
    let all = before.workspaces;
    let keep = codex_workspace::without_id(id);
    let added = codex_workspace::new_workspace(id, text::trimmed(name), home, profile, now);
    codex_workspace::position_is_right(all, id);
    assert(all.push(added).drop_last() =~= all);
    nothing_filtered(all, keep);
    assert(all.push(added).filter(keep) == all) by {
        reveal(Seq::filter);
    }
}

/// A filter that lets everything pass changes nothing.
proof fn nothing_filtered<T>(all: Seq<T>, keep: spec_fn(T) -> bool)
    requires
        forall|i: int| 0 <= i < all.len() ==> keep(#[trigger] all[i]),
    ensures
        all.filter(keep) == all,
    decreases all.len(),
{
    reveal(Seq::filter);
    if all.len() > 0 {
        nothing_filtered(all.drop_last(), keep);
        assert(keep(all[all.len() - 1]));
        assert(all.drop_last().push(all.last()) =~= all);
    } else {
        assert(all.filter(keep) =~= all);
    }
}

/// Switching the authorization profile of a workspace back brings the catalog back to what it was.
pub proof fn rolling_back_a_switch_restores(
    catalog: WorkspaceCatalogView,
    s: CatalogStoreView,
    id: Seq<char>,
    profile: Seq<char>,
    now: u64,
)
    requires
        codex_workspace::position(catalog.workspaces, id) is Some,
    ensures
        ({
            let at = codex_workspace::position(catalog.workspaces, id)->0;
            let t = codex_workspace::saved(
                s,
                codex_workspace::catalog_with_profile(catalog, at, Some(profile), now),
            );
            codex_workspace::switched_back(
                t,
                id,
                catalog.workspaces[at].auth_profile_id,
                catalog.workspaces[at].updated_at_epoch_seconds,
            ).stored == Stored::Value(catalog)
        }),
{
    let all = catalog.workspaces;
    codex_workspace::position_is_right(all, id);
    let at = codex_workspace::position(all, id)->0;
    let changed = codex_workspace::catalog_with_profile(
        catalog,
        at,
        Some(profile),
        now,
    ).workspaces;
    assert forall|j: int| 0 <= j < at implies (#[trigger] changed[j]).workspace_id != id by {
        assert(all[j].workspace_id != id);
    }
    codex_workspace::position_at(changed, id, at);
    assert(changed.update(at, all[at]) =~= all);
}

/// What is shown of the catalog: exactly one of the shown names is that of the active workspace, a
/// workspace is marked exactly where its identity is that one, and all else is that of the catalog
/// as it is once it is as it has to be.
pub proof fn shown_catalog_marks_the_active_one(
    s: CatalogStoreView,
    profile: Option<Seq<char>>,
    now: u64,
)
    requires
        codex_workspace::shown(s, profile, now) is Ok,
    ensures
        ({
            let shown = codex_workspace::shown(s, profile, now)->Ok_0;
            let loaded = codex_workspace::loaded(s, profile, now).1;
            &&& loaded matches Ok(first)
            &&& codex_workspace::normalized(
                first,
                s.default_home,
                profile,
                s.candidates,
                now,
            ) matches Ok(catalog)
            &&& shown.active_workspace_id == catalog.active_workspace_id
            &&& shown.workspaces.len() == catalog.workspaces.len()
            &&& forall|i: int|
                0 <= i < shown.workspaces.len() ==> (#[trigger] shown.workspaces[i]).active == (
                shown.workspaces[i].workspace_id == shown.active_workspace_id)
                    && shown.workspaces[i] == (CodexWorkspaceView {
                    active: shown.workspaces[i].active,
                    ..catalog.workspaces[i]
                })
            &&& exists|i: int|
                0 <= i < shown.workspaces.len() && (#[trigger] shown.workspaces[i]).active
        }),
{
    let first = codex_workspace::loaded(s, profile, now).1->Ok_0;
    let shown = codex_workspace::shown(s, profile, now)->Ok_0;
    normalized_catalog_is_complete(first, s.default_home, profile, s.candidates, now);
    let catalog = codex_workspace::normalized(
        first,
        s.default_home,
        profile,
        s.candidates,
        now,
    )->Ok_0;
    codex_workspace::position_is_right(catalog.workspaces, catalog.active_workspace_id);
    let at = codex_workspace::position(catalog.workspaces, catalog.active_workspace_id)->0;
    assert(shown.workspaces[at].active);
}

/// What is shown is what was loaded: with at most one entry of the default identity, showing the
/// catalog succeeds exactly where loading it does, names the same active workspace and has the same
/// workspaces, but for the mark.
pub proof fn shown_catalog_is_the_loaded_one(
    s: CatalogStoreView,
    profile: Option<Seq<char>>,
    now: u64,
)
    requires
        codex_workspace::found(s) matches Ok(catalog) ==> one_default(catalog.workspaces),
    ensures
        ({
            let shown = codex_workspace::shown(s, profile, now);
            let loaded = codex_workspace::loaded(s, profile, now).1;
            &&& shown is Ok <==> loaded is Ok
            &&& loaded matches Ok(catalog) ==> {
                &&& shown->Ok_0.active_workspace_id == catalog.active_workspace_id
                &&& shown->Ok_0.workspaces.len() == catalog.workspaces.len()
                &&& forall|i: int|
                    0 <= i < catalog.workspaces.len() ==> #[trigger] shown->Ok_0.workspaces[i] == (
                    CodexWorkspaceView {
                        active: catalog.workspaces[i].workspace_id == catalog.active_workspace_id,
                        ..catalog.workspaces[i]
                    })
            }
        }),
{
    if codex_workspace::loaded(s, profile, now).1 is Ok {
        let catalog = codex_workspace::found(s)->Ok_0;
        normalizing_again_changes_nothing(
            catalog,
            s.default_home,
            profile,
            s.candidates,
            now,
            now,
        );
    }
}

/// When a catalog loads: where it can be read or is missing, is of this version, and no directory to
/// be taken over would get the identity of another workspace. What is loaded is stored only where
/// that changes something.
pub proof fn catalog_loads_whenever_it_can(
    s: CatalogStoreView,
    profile: Option<Seq<char>>,
    now: u64,
)
    ensures
        ({
            let (t, loaded) = codex_workspace::loaded(s, profile, now);
            &&& s.stored is Unreadable ==> loaded == Err::<WorkspaceCatalogView, WorkspaceErrorView>(
                WorkspaceErrorView::Unreadable,
            )
            &&& s.stored is Invalid ==> loaded == Err::<WorkspaceCatalogView, WorkspaceErrorView>(
                WorkspaceErrorView::Invalid,
            )
            &&& s.candidates.len() == 0 ==> (loaded is Ok <==> s.stored is Missing || (
            s.stored matches Stored::Value(catalog) && catalog.schema_version
                == codex_workspace::CATALOG_SCHEMA_VERSION))
            &&& loaded is Err ==> t == s
            &&& t.default_home == s.default_home && t.candidates == s.candidates
            &&& loaded is Ok ==> t == s || (t.stored == Stored::Value(loaded->Ok_0) && t.unsaved)
            &&& s.stored is Missing && loaded is Ok ==> t.stored == Stored::Value(loaded->Ok_0)
                && t.unsaved
            &&& s.stored is Value && loaded is Ok && t == s ==> loaded->Ok_0.active_workspace_id
                == s.stored->Value_0.active_workspace_id && loaded->Ok_0.workspaces.len()
                == s.stored->Value_0.workspaces.len()
        }),
{
    if let Ok(catalog) = codex_workspace::found(s) {
        let base = codex_workspace::with_default(
            catalog.workspaces,
            s.default_home,
            profile,
            now,
        );
        codex_workspace::position_is_right(
            catalog.workspaces,
            codex_workspace::DEFAULT_WORKSPACE_ID@,
        );
        if codex_workspace::loaded(s, profile, now).1 is Ok {
            codex_workspace::importing_adds(base, s.candidates);
            sorting_keeps_members(codex_workspace::with_imported(base, s.candidates)->Ok_0);
        }
    }
}

/// What a catalog that is as it has to be holds, and nothing more: each workspace that is not the
/// default one is as it was before, or was taken over; the default one keeps its name and its times,
/// lies in the given directory, and has the given authorization profile, or its own where none is
/// given. The active workspace stays, where there is one.
pub proof fn normalized_catalog_holds_nothing_else(
    catalog: WorkspaceCatalogView,
    home: Seq<char>,
    profile: Option<Seq<char>>,
    candidates: Seq<LegacyCodexWorkspaceCandidateView>,
    now: u64,
    i: int,
)
    requires
        codex_workspace::normalized(catalog, home, profile, candidates, now) is Ok,
        0 <= i < codex_workspace::normalized(
            catalog,
            home,
            profile,
            candidates,
            now,
        )->Ok_0.workspaces.len(),
    ensures
        ({
            let after = codex_workspace::normalized(catalog, home, profile, candidates, now)->Ok_0;
            let held = after.workspaces[i];
            let default = codex_workspace::DEFAULT_WORKSPACE_ID@;
            ||| catalog.workspaces.contains(held)
            ||| held.workspace_id == default && held.codex_home == home && held.is_default
                && !held.imported && (profile is Some ==> held.auth_profile_id == profile) && ((
            exists|k: int|
                0 <= k < catalog.workspaces.len() && (
                #[trigger] catalog.workspaces[k]).workspace_id == default && held.name
                    == catalog.workspaces[k].name && held.created_at_epoch_seconds
                    == catalog.workspaces[k].created_at_epoch_seconds
                    && held.updated_at_epoch_seconds
                    == catalog.workspaces[k].updated_at_epoch_seconds && (profile is None
                    ==> held.auth_profile_id == catalog.workspaces[k].auth_profile_id)) || (
            forall|k: int|
                0 <= k < catalog.workspaces.len() ==> (
                #[trigger] catalog.workspaces[k]).workspace_id != default))
            ||| exists|k: int|
                0 <= k < candidates.len() && held.codex_home == (
                #[trigger] candidates[k]).codex_home && held.auth_profile_id == Some(
                    candidates[k].profile_id,
                ) && held.name == candidates[k].workspace_name && held.imported && !held.is_default
                    && held.created_at_epoch_seconds == candidates[k].initialized_at_epoch_seconds
        }),
{
    let default = codex_workspace::DEFAULT_WORKSPACE_ID@;
    let base = codex_workspace::with_default(catalog.workspaces, home, profile, now);
    let all = codex_workspace::with_imported(base, candidates)->Ok_0;
    let after = codex_workspace::normalized(catalog, home, profile, candidates, now)->Ok_0;
    let held = after.workspaces[i];
    sorting_keeps_members(all);
    assert(after.workspaces.contains(held));
    assert(all.contains(held));
    codex_workspace::position_is_right(catalog.workspaces, default);
    if base.contains(held) {
        let k = choose|k: int| 0 <= k < base.len() && base[k] == held;
        if k < catalog.workspaces.len() && catalog.workspaces[k] == held {
            assert(catalog.workspaces.contains(held));
        } else if k < catalog.workspaces.len() {
            assert(catalog.workspaces[k].workspace_id == default);
        }
    } else {
        imported_come_from_candidates(base, candidates, held);
    }
}

/// A workspace that taking directories over added is one of those directories.
pub proof fn imported_come_from_candidates(
    all: Seq<CodexWorkspaceView>,
    candidates: Seq<LegacyCodexWorkspaceCandidateView>,
    held: CodexWorkspaceView,
)
    requires
        codex_workspace::with_imported(all, candidates) is Ok,
        codex_workspace::with_imported(all, candidates)->Ok_0.contains(held),
        !all.contains(held),
    ensures
        exists|k: int|
            0 <= k < candidates.len() && held.codex_home == (#[trigger] candidates[k]).codex_home
                && held.auth_profile_id == Some(candidates[k].profile_id) && held.name
                == candidates[k].workspace_name && held.imported && !held.is_default
                && held.created_at_epoch_seconds == candidates[k].initialized_at_epoch_seconds,
    decreases candidates.len(),
{
    if candidates.len() > 0 {
        let front = candidates.drop_last();
        let before = codex_workspace::with_imported(all, front)->Ok_0;
        let after = codex_workspace::with_imported(all, candidates)->Ok_0;
        let x = choose|x: int| 0 <= x < after.len() && after[x] == held;
        if x < before.len() {
            assert(before[x] == held);
            assert(before.contains(held));
            imported_come_from_candidates(all, front, held);
            let k = choose|k: int|
                0 <= k < front.len() && held.codex_home == (#[trigger] front[k]).codex_home
                    && held.auth_profile_id == Some(front[k].profile_id) && held.name
                    == front[k].workspace_name && held.imported && !held.is_default
                    && held.created_at_epoch_seconds == front[k].initialized_at_epoch_seconds;
            assert(candidates[k] == front[k]);
        } else {
            assert(candidates[candidates.len() - 1] == candidates.last());
        }
    }
}

/// The active workspace of a catalog stays the active one where the catalog has it.
pub proof fn active_workspace_stays(
    catalog: WorkspaceCatalogView,
    home: Seq<char>,
    profile: Option<Seq<char>>,
    candidates: Seq<LegacyCodexWorkspaceCandidateView>,
    now: u64,
)
    requires
        codex_workspace::normalized(catalog, home, profile, candidates, now) is Ok,
    ensures
        ({
            let after = codex_workspace::normalized(catalog, home, profile, candidates, now)->Ok_0;
            &&& after.schema_version == codex_workspace::CATALOG_SCHEMA_VERSION
            &&& (exists|i: int|
                0 <= i < catalog.workspaces.len() && (
                #[trigger] catalog.workspaces[i]).workspace_id == catalog.active_workspace_id)
                ==> after.active_workspace_id == catalog.active_workspace_id
            &&& after.active_workspace_id == catalog.active_workspace_id
                || after.active_workspace_id == codex_workspace::DEFAULT_WORKSPACE_ID@
        }),
{
    let base = codex_workspace::with_default(catalog.workspaces, home, profile, now);
    let all = codex_workspace::with_imported(base, candidates)->Ok_0;
    codex_workspace::position_is_right(
        catalog.workspaces,
        codex_workspace::DEFAULT_WORKSPACE_ID@,
    );
    codex_workspace::importing_adds(base, candidates);
    if exists|i: int|
        0 <= i < catalog.workspaces.len() && (#[trigger] catalog.workspaces[i]).workspace_id
            == catalog.active_workspace_id {
        let i = choose|i: int|
            0 <= i < catalog.workspaces.len() && (#[trigger] catalog.workspaces[i]).workspace_id
                == catalog.active_workspace_id;
        assert(base[i].workspace_id == catalog.active_workspace_id);
        assert(all.take(base.len() as int)[i] == base[i]);
        assert(all[i] == base[i]);
        assert(all.contains(all[i]));
        member_has_position(all, all[i]);
    }
}

/// Which names a workspace may have: those that hold more than white space, at most eighty characters
/// without the white space around them, and no control character.
pub proof fn allowed_names_are_short_and_plain(name: Seq<char>)
    ensures
        codex_workspace::name_fault(name) is None <==> (exists|i: int|
            0 <= i < name.len() && !text::white_space(#[trigger] name[i])) && text::trimmed(
            name,
        ).len() <= 80 && forall|i: int|
            0 <= i < text::trimmed(name).len() ==> !text::control(#[trigger] text::trimmed(name)[i]),
{
    text::blank_is_white(name);
}

/// When a workspace can be added, and what that does: the name is allowed, the catalog loads, no
/// workspace has the name, upper and lower case taken as the same, and none has the identity. Then
/// the catalog is the loaded one with the new workspace behind the others; the active one stays.
/// Otherwise the catalog is as it was loaded, or not even that where the name is not allowed.
pub proof fn new_workspace_joins_the_catalog(
    s: CatalogStoreView,
    id: Seq<char>,
    name: Seq<char>,
    home: Seq<char>,
    profile: Seq<char>,
    now: u64,
)
    ensures
        ({
            let (l, loaded) = codex_workspace::loaded(s, None, now);
            let (t, outcome) = codex_workspace::created(s, id, name, home, profile, now);
            let plain = text::trimmed(name);
            &&& outcome is Ok <==> codex_workspace::name_fault(name) is None && loaded is Ok && (
            forall|i: int|
                0 <= i < loaded->Ok_0.workspaces.len() ==> (
                #[trigger] loaded->Ok_0.workspaces[i]).workspace_id != id
                    && codex_workspace::lower_case(loaded->Ok_0.workspaces[i].name)
                    != codex_workspace::lower_case(plain))
            &&& outcome is Err ==> t == l || t == s
            &&& outcome matches Ok(made) ==> {
                &&& made.workspace_id == id
                &&& made.name == plain
                &&& made.codex_home == home
                &&& made.auth_profile_id == Some(profile)
                &&& made.created_at_epoch_seconds == now
                &&& made.updated_at_epoch_seconds == now
                &&& !made.active && !made.is_default && !made.imported
                &&& t.stored matches Stored::Value(catalog)
                &&& t.unsaved
                &&& catalog.active_workspace_id == loaded->Ok_0.active_workspace_id
                &&& catalog.schema_version == loaded->Ok_0.schema_version
                &&& catalog.workspaces == loaded->Ok_0.workspaces.push(made)
            }
        }),
{
    let loaded = codex_workspace::loaded(s, None, now).1;
    if let Ok(catalog) = loaded {
        codex_workspace::position_is_right(catalog.workspaces, id);
    }
}

/// Which workspaces an authorization profile is written to anew: the directories are those of the
/// workspaces that have it, each as often as it is theirs.
pub proof fn refreshed_homes_have_the_profile(all: Seq<CodexWorkspaceView>, profile: Seq<char>)
    ensures
        forall|home: Seq<char>| #[trigger]
            codex_workspace::homes_with(all, profile).contains(home) <==> exists|i: int|
                0 <= i < all.len() && (#[trigger] all[i]).codex_home == home
                    && all[i].auth_profile_id == Some(profile),
        codex_workspace::homes_with(all, profile).len() <= all.len(),
    decreases all.len(),
{
    let homes = codex_workspace::homes_with(all, profile);
    if all.len() > 0 {
        let front = all.drop_last();
        let before = codex_workspace::homes_with(front, profile);
        refreshed_homes_have_the_profile(front, profile);
        assert forall|home: Seq<char>| #[trigger] homes.contains(home) <==> exists|i: int|
            0 <= i < all.len() && (#[trigger] all[i]).codex_home == home && all[i].auth_profile_id
                == Some(profile) by {
            if homes.contains(home) {
                let k = choose|k: int| 0 <= k < homes.len() && homes[k] == home;
                if k < before.len() {
                    assert(before[k] == home);
                    assert(before.contains(home));
                    let i = choose|i: int|
                        0 <= i < front.len() && (#[trigger] front[i]).codex_home == home
                            && front[i].auth_profile_id == Some(profile);
                    assert(all[i] == front[i]);
                } else {
                    assert(all[all.len() - 1].codex_home == home);
                }
            }
            if exists|i: int|
                0 <= i < all.len() && (#[trigger] all[i]).codex_home == home
                    && all[i].auth_profile_id == Some(profile) {
                let i = choose|i: int|
                    0 <= i < all.len() && (#[trigger] all[i]).codex_home == home
                        && all[i].auth_profile_id == Some(profile);
                if i < front.len() {
                    assert(front[i] == all[i]);
                    assert(before.contains(home));
                    let k = choose|k: int| 0 <= k < before.len() && before[k] == home;
                    assert(homes[k] == home);
                } else {
                    assert(homes[homes.len() - 1] == home);
                }
            }
        }
    }
}

/// Choosing another authorization profile for a workspace changes that profile and the time, of that
/// workspace, and nothing else in the catalog.
pub proof fn chosen_profile_changes_one_workspace(
    catalog: WorkspaceCatalogView,
    at: int,
    profile: Option<Seq<char>>,
    updated: u64,
)
    requires
        0 <= at < catalog.workspaces.len(),
    ensures
        ({
            let after = codex_workspace::catalog_with_profile(catalog, at, profile, updated);
            &&& after.schema_version == catalog.schema_version
            &&& after.active_workspace_id == catalog.active_workspace_id
            &&& after.workspaces.len() == catalog.workspaces.len()
            &&& forall|i: int|
                0 <= i < catalog.workspaces.len() && i != at ==> #[trigger] after.workspaces[i]
                    == catalog.workspaces[i]
            &&& after.workspaces[at].auth_profile_id == profile
            &&& after.workspaces[at].updated_at_epoch_seconds == updated
            &&& after.workspaces[at] == (CodexWorkspaceView {
                auth_profile_id: profile,
                updated_at_epoch_seconds: updated,
                ..catalog.workspaces[at]
            })
        }),
{
}

/// Identities that are drawn as bytes are different for different bytes, twice as long, and written
/// with the digits from 0 to 9 and from a to f.
pub proof fn drawn_identities_are_hexadecimal(bytes: Seq<u8>)
    ensures
        codex_workspace::hex_text(bytes).len() == 2 * bytes.len(),
        forall|i: int|
            0 <= i < codex_workspace::hex_text(bytes).len() ==> crate::digest::lower_hex(
                #[trigger] codex_workspace::hex_text(bytes)[i],
            ),
    decreases bytes.len(),
{
    if bytes.len() > 0 {
        drawn_identities_are_hexadecimal(bytes.drop_last());
        let last = bytes.last();
        assert(last / 16 < 16 && last % 16 < 16);
        hex_digit_is_one((last / 16) as u8);
        hex_digit_is_one((last % 16) as u8);
    }
}

/// A hexadecimal digit is one of those from 0 to 9 and from a to f.
proof fn hex_digit_is_one(d: u8)
    requires
        d < 16,
    ensures
        crate::digest::lower_hex(codex_workspace::hex_char(d)),
{
}

/// Taking one more directory over: nothing where a workspace has it already; a conflict where its identity
/// is that of another workspace; and else a workspace more, with the name and the profile of the
/// directory, that is as old as its marker and was never in effect.
pub proof fn one_directory_more(
    all: Seq<CodexWorkspaceView>,
    candidates: Seq<LegacyCodexWorkspaceCandidateView>,
    more: LegacyCodexWorkspaceCandidateView,
)
    requires
        codex_workspace::with_imported(all, candidates) is Ok,
    ensures
        ({
            let before = codex_workspace::with_imported(all, candidates)->Ok_0;
            let after = codex_workspace::with_imported(all, candidates.push(more));
            let id = codex_workspace::imported_id(more.profile_id, more.codex_home);
            let known = exists|i: int|
                0 <= i < before.len() && (#[trigger] before[i]).codex_home == more.codex_home;
            let taken = exists|i: int|
                0 <= i < before.len() && (#[trigger] before[i]).workspace_id == id;
            &&& known ==> after == Ok::<Seq<CodexWorkspaceView>, WorkspaceErrorView>(before)
            &&& !known && taken ==> after == Err::<Seq<CodexWorkspaceView>, WorkspaceErrorView>(
                WorkspaceErrorView::ImportConflict(more.codex_home),
            )
            &&& !known && !taken ==> after == Ok::<Seq<CodexWorkspaceView>, WorkspaceErrorView>(
                before.push(
                    CodexWorkspaceView {
                        workspace_id: id,
                        name: more.workspace_name,
                        codex_home: more.codex_home,
                        auth_profile_id: Some(more.profile_id),
                        created_at_epoch_seconds: more.initialized_at_epoch_seconds,
                        updated_at_epoch_seconds: more.initialized_at_epoch_seconds,
                        active: false,
                        is_default: false,
                        imported: true,
                    },
                ),
            )
        }),
{
    assert(candidates.push(more).drop_last() =~= candidates);
    let before = codex_workspace::with_imported(all, candidates)->Ok_0;
    codex_workspace::position_is_right(
        before,
        codex_workspace::imported_id(more.profile_id, more.codex_home),
    );
}

/// A catalog without the usual workspace gets one: at the usual directory, with the given profile, made
/// now.
pub proof fn usual_workspace_is_made(
    all: Seq<CodexWorkspaceView>,
    home: Seq<char>,
    profile: Option<Seq<char>>,
    now: u64,
)
    requires
        forall|i: int|
            0 <= i < all.len() ==> (#[trigger] all[i]).workspace_id
                != codex_workspace::DEFAULT_WORKSPACE_ID@,
    ensures
        codex_workspace::with_default(all, home, profile, now) == all.push(
            CodexWorkspaceView {
                workspace_id: codex_workspace::DEFAULT_WORKSPACE_ID@,
                name: "默认工作区"@,
                codex_home: home,
                auth_profile_id: profile,
                created_at_epoch_seconds: now,
                updated_at_epoch_seconds: now,
                active: false,
                is_default: true,
                imported: false,
            },
        ),
{
    codex_workspace::position_is_right(all, codex_workspace::DEFAULT_WORKSPACE_ID@);
}

/// A workspace is looked up by its identity: the first that has it is found, and where none has it that is
/// the error.
pub proof fn workspaces_are_looked_up_by_identity(
    catalog: WorkspaceCatalogView,
    id: Seq<char>,
    missing: WorkspaceErrorView,
    at: int,
)
    ensures
        ({
            let result = codex_workspace::looked_up(catalog, id, missing);
            let all = catalog.workspaces;
            &&& 0 <= at < all.len() && all[at].workspace_id == id && (forall|j: int|
                0 <= j < at ==> (#[trigger] all[j]).workspace_id != id) ==> result == Ok::<
                CodexWorkspaceView,
                WorkspaceErrorView,
            >(all[at])
            &&& (forall|j: int| 0 <= j < all.len() ==> (#[trigger] all[j]).workspace_id != id)
                ==> result == Err::<CodexWorkspaceView, WorkspaceErrorView>(missing)
        }),
{
    let all = catalog.workspaces;
    codex_workspace::position_is_right(all, id);
    if 0 <= at < all.len() && all[at].workspace_id == id && (forall|j: int|
        0 <= j < at ==> (#[trigger] all[j]).workspace_id != id) {
        codex_workspace::position_at(all, id, at);
    }
}

/// The directory of a workspace lies below the root in a directory of its identity, under a name of its
/// own.
pub proof fn homes_lie_in_directories_of_their_own(root: Seq<char>, id: Seq<char>, separator: char)
    requires
        root.len() > 0,
        root.last() != separator,
        id.len() > 0,
        id.last() != separator,
    ensures
        codex_workspace::home_in(root, id, separator) == root.push(separator) + id.push(separator)
            + "codex-home"@,
{
    let inner = root.push(separator) + id;
    assert(inner.last() == id.last());
    assert(inner.push(separator) =~= root.push(separator) + id.push(separator));
}

/// Writing the catalog stores it, marks it as not yet kept, and changes nothing else.
pub proof fn written_catalog_is_to_be_kept(s: CatalogStoreView, catalog: WorkspaceCatalogView)
    ensures
        codex_workspace::saved(s, catalog) == (CatalogStoreView {
            stored: Stored::Value(catalog),
            unsaved: true,
            ..s
        }),
{
}

/// Taking a workspace out of the catalog takes out every one of its identity and no other, and changes
/// nothing else; a catalog that cannot be read is left alone.
pub proof fn only_the_workspace_is_taken_out(
    s: CatalogStoreView,
    id: Seq<char>,
    other: CodexWorkspaceView,
)
    ensures
        ({
            let t = codex_workspace::discarded(s, id);
            &&& s.stored is Value ==> t.stored is Value && t.unsaved && ({
                let before = s.stored->Value_0;
                let after = t.stored->Value_0;
                &&& after.workspaces.contains(other) <==> before.workspaces.contains(other)
                    && other.workspace_id != id
                &&& after.active_workspace_id == before.active_workspace_id
                &&& after.schema_version == before.schema_version
            })
            &&& !(s.stored is Value) ==> t == s
            &&& t.default_home == s.default_home && t.candidates == s.candidates
        }),
{
    if s.stored is Value {
        let all = s.stored->Value_0.workspaces;
        let p = codex_workspace::without_id(id);
        let kept = all.filter(p);
        if all.contains(other) && other.workspace_id != id {
            let i = choose|i: int| 0 <= i < all.len() && all[i] == other;
            assert(p(all[i]));
            all.lemma_filter_contains(p, i);
        }
        if kept.contains(other) {
            let i = choose|i: int| 0 <= i < kept.len() && kept[i] == other;
            all.lemma_filter_pred(p, i);
            all.lemma_filter_contains_rev(p, other);
        }
    }
}

} // verus!
