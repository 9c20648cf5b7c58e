//! What the answers of the platform's command line are taken for.
use crate::baijimu_cli;
use crate::baijimu_cli::{
    AuthStatusContractView, CliErrorView, ListingProgress, LlmCredentialContractView,
    WorkspaceContractView, WorkspaceListContractView, WorkspaceView,
};
use crate::ids;
use crate::text;
use vstd::prelude::*;

verus! {

/// Whether the text holds more than white space.
pub open spec fn says_something(s: Seq<char>) -> bool {
    exists|i: int| 0 <= i < s.len() && !text::white_space(#[trigger] s[i])
}

/// A text that holds more than white space is not blank.
proof fn something_is_not_blank(s: Seq<char>)
    ensures
        says_something(s) <==> !text::blank(s),
{
    text::blank_is_white(s);
}

/// Which authorization status is accepted, and what is then known: an authenticated one names a
/// workspace, the address says something, and no workspace is number zero. The workspaces are the
/// named ones, each once and in ascending order; the address loses the white space around it; number
/// zero is no current workspace.
pub proof fn accepted_status_says_what_was_answered(contract: AuthStatusContractView)
    ensures
        ({
            let result = baijimu_cli::checked_status(contract);
            &&& result is Ok <==> (contract.authenticated ==> contract.workspace_ids.len() > 0)
                && says_something(contract.base_url) && (forall|i: int|
                0 <= i < contract.workspace_ids.len() ==> #[trigger] contract.workspace_ids[i] > 0)
            &&& result is Ok ==> ({
                let status = result->Ok_0;
                &&& status.authenticated == contract.authenticated
                &&& status.base_url == text::trimmed(contract.base_url)
                &&& forall|id: u64| #[trigger]
                    status.workspace_ids.contains(id) <==> contract.workspace_ids.contains(id)
                &&& forall|i: int, j: int|
                    0 <= i < j < status.workspace_ids.len() ==> #[trigger] status.workspace_ids[i]
                        < #[trigger] status.workspace_ids[j]
                &&& contract.current_workspace_id is None ==> status.current_workspace_id is None
                &&& forall|id: u64|
                    contract.current_workspace_id == Some(id) ==> status.current_workspace_id
                        == #[trigger] positive(id)
            })
        }),
{
    something_is_not_blank(contract.base_url);
    ids::every_set_is_listed(contract.workspace_ids.to_set());
    if contract.workspace_ids.contains(0u64) {
        let i = choose|i: int|
            0 <= i < contract.workspace_ids.len() && contract.workspace_ids[i] == 0;
        assert(contract.workspace_ids[i] == 0);
    }
    if exists|i: int| 0 <= i < contract.workspace_ids.len() && !(#[trigger] contract.workspace_ids[i] > 0) {
        let i = choose|i: int|
            0 <= i < contract.workspace_ids.len() && !(#[trigger] contract.workspace_ids[i] > 0);
        assert(contract.workspace_ids.contains(0u64));
    }
    if let Ok(status) = baijimu_cli::checked_status(contract) {
        assert forall|id: u64| #[trigger] status.workspace_ids.contains(id)
            <==> contract.workspace_ids.contains(id) by {
            assert(contract.workspace_ids.to_set().contains(id)
                <==> contract.workspace_ids.contains(id));
        }
    }
}

/// The number, unless it is zero.
pub open spec fn positive(id: u64) -> Option<u64> {
    if id == 0 {
        None
    } else {
        Some(id)
    }
}

/// Whether the items of a page can be relied on: none is number zero, and each has a name.
pub open spec fn items_are_sound(items: Seq<WorkspaceContractView>) -> bool {
    forall|i: int|
        0 <= i < items.len() ==> (#[trigger] items[i]).id != 0 && says_something(items[i].name)
}

/// Whether the item at this place is the last with its number.
pub open spec fn is_last(items: Seq<WorkspaceContractView>, i: int) -> bool {
    0 <= i < items.len() && forall|j: int| i < j < items.len() ==> (#[trigger] items[j]).id != items[i].id
}

/// The items of a page are taken over exactly where all of them are sound: each workspace gets the
/// name that it was given last, without the white space around it, and those that the page does not
/// name keep theirs.
pub proof fn last_name_counts(names: Map<u64, Seq<char>>, items: Seq<WorkspaceContractView>)
    ensures
        ({
            let result = baijimu_cli::names_with(names, items);
            &&& result is Ok <==> items_are_sound(items)
            &&& result is Ok ==> ({
                let after = result->Ok_0;
                &&& forall|i: int| #[trigger]
                    is_last(items, i) ==> after.contains_key(items[i].id) && after[items[i].id]
                        == text::trimmed(items[i].name)
                &&& forall|i: int|
                    0 <= i < items.len() ==> after.contains_key((#[trigger] items[i]).id)
                &&& forall|id: u64|
                    (forall|i: int| 0 <= i < items.len() ==> (#[trigger] items[i]).id != id)
                        ==> (#[trigger] after.contains_key(id) <==> names.contains_key(id)) && (
                    names.contains_key(id) ==> after[id] == names[id])
            })
        }),
    decreases items.len(),
{
    if items.len() > 0 {
        let front = items.drop_last();
        let n = items.len() - 1;
        last_name_counts(names, front);
        something_is_not_blank(items.last().name);
        assert(items_are_sound(items) <==> items_are_sound(front) && items[n].id != 0
            && says_something(items[n].name)) by {
            if items_are_sound(items) {
                assert forall|i: int| 0 <= i < front.len() implies (#[trigger] front[i]).id != 0
                    && says_something(front[i].name) by {
                    assert(front[i] == items[i]);
                }
            }
            if items_are_sound(front) && items[n].id != 0 && says_something(items[n].name) {
                assert forall|i: int| 0 <= i < items.len() implies (#[trigger] items[i]).id != 0
                    && says_something(items[i].name) by {
                    if i < n {
                        assert(front[i] == items[i]);
                    }
                }
            }
        }
        if let Ok(after) = baijimu_cli::names_with(names, items) {
            let before = baijimu_cli::names_with(names, front)->Ok_0;
            assert forall|i: int| #[trigger] is_last(items, i) implies after.contains_key(items[i].id)
                && after[items[i].id] == text::trimmed(items[i].name) by {
                if i < n {
                    assert(items[n].id != items[i].id);
                    assert(is_last(front, i)) by {
                        assert forall|j: int| i < j < front.len() implies (#[trigger] front[j]).id
                            != front[i].id by {
                            assert(items[j].id != items[i].id);
                        }
                    }
                }
            }
            assert forall|i: int| 0 <= i < items.len() implies after.contains_key(
                (#[trigger] items[i]).id,
            ) by {
                if i < n {
                    assert(front[i] == items[i]);
                }
            }
            assert forall|id: u64|
                (forall|i: int| 0 <= i < items.len() ==> (#[trigger] items[i]).id != id) implies (
            #[trigger] after.contains_key(id) <==> names.contains_key(id)) && (names.contains_key(id)
                ==> after[id] == names[id]) by {
                assert(items[n].id != id);
                assert forall|i: int| 0 <= i < front.len() implies (#[trigger] front[i]).id != id by {
                    assert(front[i] == items[i]);
                }
                assert(before.contains_key(id) <==> names.contains_key(id));
            }
        }
    }
}

/// Whether the page names the workspace.
pub open spec fn page_names(page: WorkspaceListContractView, id: u64) -> bool {
    exists|i: int| 0 <= i < page.data.list.len() && (#[trigger] page.data.list[i]).id == id
}

/// Whether one of the pages names the workspace.
pub open spec fn some_page_names(pages: Seq<WorkspaceListContractView>, id: u64) -> bool {
    exists|k: int| 0 <= k < pages.len() && #[trigger] page_names(pages[k], id)
}

/// Whether every page can be relied on: it reports no error, its items are sound, and the current
/// workspace is that of the page before, where that one had any.
pub open spec fn pages_are_sound(pages: Seq<WorkspaceListContractView>) -> bool {
    &&& forall|k: int|
        0 <= k < pages.len() ==> (#[trigger] pages[k]).error_code == "0"@ && items_are_sound(
            pages[k].data.list,
        )
    &&& forall|k: int|
        1 <= k < pages.len() && pages[k - 1].current_workspace_id is Some ==> (
        #[trigger] pages[k]).current_workspace_id == pages[k - 1].current_workspace_id
}

/// Whether more pages were announced behind each of these.
pub open spec fn more_follow(pages: Seq<WorkspaceListContractView>) -> bool {
    forall|k: int| 0 <= k < pages.len() ==> (#[trigger] pages[k]).data.total_pages > k + 1
}

/// The workspaces of all pages are listed: as long as every page announces a further one, listing goes
/// on, and it has the workspaces of the pages so far, and no others.
proof fn listing_goes_on(pages: Seq<WorkspaceListContractView>)
    requires
        pages_are_sound(pages),
        more_follow(pages),
    ensures
        baijimu_cli::pages_received(pages) matches Ok(progress) && !progress.done
            && progress.expected == if pages.len() == 0 {
            None
        } else {
            pages.last().current_workspace_id
        } && (forall|id: u64| #[trigger]
            progress.names.contains_key(id) <==> exists|k: int|
                0 <= k < pages.len() && #[trigger] page_names(pages[k], id)),
    decreases pages.len(),
{
    if pages.len() > 0 {
        let front = pages.drop_last();
        let n = pages.len() - 1;
        front_is_sound(pages);
        assert(more_follow(front)) by {
            assert forall|k: int| 0 <= k < front.len() implies (#[trigger] front[k]).data.total_pages
                > k + 1 by {
                assert(front[k] == pages[k]);
            }
        }
        listing_goes_on(front);
        page_is_added(pages);
        assert(pages[n].data.total_pages > n + 1);
    }
}

/// The pages before the last one are sound.
proof fn front_is_sound(pages: Seq<WorkspaceListContractView>)
    requires
        pages.len() > 0,
        pages_are_sound(pages),
    ensures
        pages_are_sound(pages.drop_last()),
{
    let front = pages.drop_last();
    assert forall|k: int| 0 <= k < front.len() implies (#[trigger] front[k]).error_code == "0"@
        && items_are_sound(front[k].data.list) by {
        assert(front[k] == pages[k]);
    }
    assert forall|k: int|
        1 <= k < front.len() && front[k - 1].current_workspace_id is Some implies (
    #[trigger] front[k]).current_workspace_id == front[k - 1].current_workspace_id by {
        assert(front[k] == pages[k]);
        assert(front[k - 1] == pages[k - 1]);
    }
}

/// What one more page adds.
proof fn page_is_added(pages: Seq<WorkspaceListContractView>)
    requires
        pages.len() > 0,
        pages_are_sound(pages),
        baijimu_cli::pages_received(pages.drop_last()) matches Ok(progress) && !progress.done
            && progress.expected == if pages.len() == 1 {
            None
        } else {
            pages.drop_last().last().current_workspace_id
        } && (forall|id: u64| #[trigger]
            progress.names.contains_key(id) <==> exists|k: int|
                0 <= k < pages.len() - 1 && #[trigger] page_names(pages.drop_last()[k], id)),
    ensures
        baijimu_cli::pages_received(pages) matches Ok(progress) && progress.done == (pages.len()
            >= pages.last().data.total_pages) && progress.expected
            == pages.last().current_workspace_id && (forall|id: u64| #[trigger]
            progress.names.contains_key(id) <==> exists|k: int|
                0 <= k < pages.len() && #[trigger] page_names(pages[k], id)),
{
    let front = pages.drop_last();
    let n = pages.len() - 1;
    let before = baijimu_cli::pages_received(front)->Ok_0;
    let items = pages[n].data.list;
    last_name_counts(before.names, items);
    assert(items_are_sound(items));
    if n > 0 {
        assert(front.last() == pages[n - 1]);
        if pages[n - 1].current_workspace_id is Some {
            assert(pages[n].current_workspace_id == pages[n - 1].current_workspace_id);
        }
    }
    let after = baijimu_cli::names_with(before.names, items)->Ok_0;
    assert forall|id: u64| #[trigger] after.contains_key(id) <==> exists|k: int|
        0 <= k < pages.len() && #[trigger] page_names(pages[k], id) by {
        if page_names(pages[n], id) {
            let i = choose|i: int| 0 <= i < items.len() && (#[trigger] items[i]).id == id;
            assert(after.contains_key(items[i].id));
        } else {
            assert forall|i: int| 0 <= i < items.len() implies (#[trigger] items[i]).id != id by {}
            assert(after.contains_key(id) <==> before.names.contains_key(id));
            if before.names.contains_key(id) {
                let k = choose|k: int| 0 <= k < pages.len() - 1 && #[trigger] page_names(front[k], id);
                assert(page_names(pages[k], id));
            }
            if exists|k: int| 0 <= k < pages.len() && #[trigger] page_names(pages[k], id) {
                let k = choose|k: int| 0 <= k < pages.len() && #[trigger] page_names(pages[k], id);
                assert(k < n);
                assert(page_names(front[k], id));
            }
        }
    }
}

/// All workspaces are listed. Where every page is sound and all but the last announce a further one,
/// listing ends with the last page exactly where that one announces no further one. The list then
/// holds the workspaces that any of the pages names, and no others, each once and in ascending order.
pub proof fn every_workspace_is_listed(pages: Seq<WorkspaceListContractView>)
    requires
        pages.len() > 0,
        pages_are_sound(pages),
        more_follow(pages.drop_last()),
    ensures
        ({
            let result = baijimu_cli::pages_received(pages);
            &&& result is Ok
            &&& result->Ok_0.done <==> pages.last().data.total_pages <= pages.len()
            &&& ({
                let list = baijimu_cli::listed(result->Ok_0.names);
                &&& forall|i: int, j: int|
                    0 <= i < j < list.len() ==> (#[trigger] list[i]).id < (#[trigger] list[j]).id
                &&& forall|i: int|
                    0 <= i < list.len() ==> some_page_names(pages, (#[trigger] list[i]).id)
                &&& forall|id: u64| #[trigger]
                    some_page_names(pages, id) ==> exists|i: int|
                        0 <= i < list.len() && (#[trigger] list[i]).id == id
            })
        }),
{
    let front = pages.drop_last();
    front_is_sound(pages);
    listing_goes_on(front);
    page_is_added(pages);
    let names = baijimu_cli::pages_received(pages)->Ok_0.names;
    let list = baijimu_cli::listed(names);
    let found = ids::listing(names.dom());
    ids::every_set_is_listed(names.dom());
    assert forall|i: int| 0 <= i < list.len() implies some_page_names(
        pages,
        (#[trigger] list[i]).id,
    ) by {
        assert(found.contains(found[i]));
        assert(names.contains_key(found[i]));
    }
    assert forall|id: u64| #[trigger] some_page_names(pages, id) implies exists|i: int|
        0 <= i < list.len() && (#[trigger] list[i]).id == id by {
        assert(names.contains_key(id));
        assert(found.contains(id));
        let i = choose|i: int| 0 <= i < found.len() && found[i] == id;
        assert(list[i].id == id);
    }
    assert forall|i: int, j: int| 0 <= i < j < list.len() implies (#[trigger] list[i]).id < (
    #[trigger] list[j]).id by {
        assert(found[i] < found[j]);
    }
}

/// The listed names are those that were given: one that the last page names last.
pub proof fn listed_names_are_the_last_given(pages: Seq<WorkspaceListContractView>, at: int)
    requires
        pages.len() > 0,
        pages_are_sound(pages),
        more_follow(pages.drop_last()),
        is_last(pages.last().data.list, at),
    ensures
        ({
            let given = pages.last().data.list[at];
            let list = baijimu_cli::listed(baijimu_cli::pages_received(pages)->Ok_0.names);
            list.contains(WorkspaceView { id: given.id, name: text::trimmed(given.name) })
        }),
{
    let front = pages.drop_last();
    let n = pages.len() - 1;
    front_is_sound(pages);
    listing_goes_on(front);
    page_is_added(pages);
    let before = baijimu_cli::pages_received(front)->Ok_0;
    let items = pages[n].data.list;
    last_name_counts(before.names, items);
    let names = baijimu_cli::pages_received(pages)->Ok_0.names;
    let found = ids::listing(names.dom());
    ids::every_set_is_listed(names.dom());
    assert(names.contains_key(items[at].id));
    assert(found.contains(items[at].id));
    let i = choose|i: int| 0 <= i < found.len() && found[i] == items[at].id;
    assert(baijimu_cli::listed(names)[i] == (WorkspaceView {
        id: items[at].id,
        name: text::trimmed(items[at].name),
    }));
}

/// A page that reports an error, or names another current workspace than the page before, stops the
/// listing with that error.
pub proof fn unsound_page_stops_the_listing(pages: Seq<WorkspaceListContractView>)
    requires
        pages.len() > 0,
        pages_are_sound(pages.drop_last()),
        more_follow(pages.drop_last()),
    ensures
        ({
            let last = pages.last();
            let result = baijimu_cli::pages_received(pages);
            let changed = pages.len() > 1 && pages[pages.len() - 2].current_workspace_id is Some
                && last.current_workspace_id != pages[pages.len() - 2].current_workspace_id;
            &&& last.error_code != "0"@ ==> result is Err && result->Err_0 is PlatformFailed
            &&& last.error_code == "0"@ && changed ==> result == Err::<ListingProgress, CliErrorView>(
                CliErrorView::CurrentWorkspaceChanged,
            )
            &&& last.error_code == "0"@ && !changed && !items_are_sound(last.data.list)
                ==> result is Err
        }),
{
    let front = pages.drop_last();
    listing_goes_on(front);
    last_name_counts(baijimu_cli::pages_received(front)->Ok_0.names, pages.last().data.list);
    if pages.len() > 1 {
        assert(front.last() == pages[pages.len() - 2]);
    }
}

/// Which workspace is accepted as the one that was asked for: the one with that number and a name, in
/// an answer that reports no error.
pub proof fn accepted_workspace_was_asked_for(
    workspace_id: u64,
    code: Seq<char>,
    value: Option<Seq<char>>,
    data: WorkspaceContractView,
)
    ensures
        ({
            let result = baijimu_cli::checked_workspace(workspace_id, code, value, data);
            &&& result is Ok <==> data.id == workspace_id && workspace_id > 0 && code == "0"@
                && says_something(data.name)
            &&& result is Ok ==> result->Ok_0.id == workspace_id && result->Ok_0.name
                == text::trimmed(data.name)
            &&& workspace_id > 0 && code != "0"@ ==> result is Err && result->Err_0 is PlatformFailed
        }),
{
    something_is_not_blank(data.name);
}

/// Which credential is accepted: one that was created, for the workspace that was asked for and for no
/// project, and that says something.
pub proof fn accepted_credential_is_the_workspaces(
    workspace_id: u64,
    contract: LlmCredentialContractView,
)
    ensures
        ({
            let result = baijimu_cli::checked_credential(workspace_id, contract);
            &&& result is Ok <==> contract.created && contract.key_type == "llmCredential"@
                && contract.workspace_id == workspace_id && workspace_id > 0
                && contract.project_id is None && says_something(contract.credential)
            &&& result is Ok ==> result->Ok_0 == text::trimmed(contract.credential)
        }),
{
    something_is_not_blank(contract.credential);
}

} // verus!
