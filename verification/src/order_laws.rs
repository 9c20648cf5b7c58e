//! In which order things are listed.
use crate::codex_workspace;
use crate::codex_workspace::{CodexWorkspace, CodexWorkspaceView};
use crate::credential::contract::{
    AuthProfileKind, CredentialProfileView, WorkspaceOption, WorkspaceOptionView,
};
use crate::credential::profiles;
use crate::ranking;
use crate::text;
use vstd::prelude::*;

verus! {

/// Whether the first text comes before the second in a dictionary of code points: it is a beginning of
/// it, or smaller at the first difference.
pub open spec fn comes_before(a: Seq<char>, b: Seq<char>) -> bool {
    ||| a.len() <= b.len() && b.take(a.len() as int) == a
    ||| exists|k: int|
        0 <= k < a.len() && k < b.len() && a.take(k) == b.take(k) && #[trigger] a[k] < b[k]
}

/// Texts are compared as in a dictionary of code points.
pub proof fn texts_are_ordered_as_in_a_dictionary(a: Seq<char>, b: Seq<char>)
    ensures
        text::text_leq(a, b) <==> comes_before(a, b),
    decreases a.len(),
{
    if a.len() == 0 {
        assert(b.take(0) =~= a);
    } else if b.len() > 0 {
        let x = a.skip(1);
        let y = b.skip(1);
        texts_are_ordered_as_in_a_dictionary(x, y);
        if a[0] < b[0] {
            assert(a.take(0) =~= b.take(0));
            assert(a[0] < b[0]);
        }
        if a[0] == b[0] && comes_before(x, y) {
            if x.len() <= y.len() && y.take(x.len() as int) == x {
                assert(b.take(a.len() as int) =~= a) by {
                    assert forall|i: int| 0 <= i < a.len() implies b[i] == a[i] by {
                        if i > 0 {
                            assert(y.take(x.len() as int)[i - 1] == x[i - 1]);
                        }
                    }
                }
            } else {
                let k = choose|k: int|
                    0 <= k < x.len() && k < y.len() && x.take(k) == y.take(k) && #[trigger] x[k]
                        < y[k];
                assert(a[k + 1] < b[k + 1]);
                assert(a.take(k + 1) =~= b.take(k + 1)) by {
                    assert forall|i: int| 0 <= i < k + 1 implies a[i] == b[i] by {
                        if i > 0 {
                            assert(x.take(k)[i - 1] == y.take(k)[i - 1]);
                        }
                    }
                }
            }
        }
        if comes_before(a, b) {
            if a.len() <= b.len() && b.take(a.len() as int) == a {
                assert(b.take(a.len() as int)[0] == a[0]);
                assert(y.take(x.len() as int) =~= x) by {
                    assert forall|i: int| 0 <= i < x.len() implies y[i] == x[i] by {
                        assert(b.take(a.len() as int)[i + 1] == a[i + 1]);
                    }
                }
            } else {
                let k = choose|k: int|
                    0 <= k < a.len() && k < b.len() && a.take(k) == b.take(k) && #[trigger] a[k]
                        < b[k];
                if k > 0 {
                    assert(a.take(k)[0] == b.take(k)[0]);
                    assert(x[k - 1] < y[k - 1]);
                    assert(x.take(k - 1) =~= y.take(k - 1)) by {
                        assert forall|i: int| 0 <= i < k - 1 implies x[i] == y[i] by {
                            assert(a.take(k)[i + 1] == b.take(k)[i + 1]);
                        }
                    }
                }
            }
        }
    }
}

/// Sorted profiles: the personal ones first; among those of one kind by name; and among those of one
/// name by identity. They are the same profiles as before.
pub proof fn profiles_are_sorted_by_kind_and_name(all: Seq<CredentialProfileView>, i: int, j: int)
    requires
        0 <= i < j < all.len(),
    ensures
        ({
            let list = profiles::sorted(all);
            let a = list[i];
            let b = list[j];
            &&& list.to_multiset() == all.to_multiset()
            &&& list.len() == all.len()
            &&& b.kind == AuthProfileKind::Personal ==> a.kind == AuthProfileKind::Personal
            &&& a.kind == b.kind && a.name != b.name ==> comes_before(a.name, b.name)
            &&& a.kind == b.kind && a.name == b.name ==> comes_before(a.profile_id, b.profile_id)
        }),
{
    let list = profiles::sorted(all);
    profiles::profiles_are_ranked();
    ranking::arranged_is_sorted::<crate::credential::contract::CredentialProfile>(all);
    broadcast use vstd::seq_lib::group_to_multiset_ensures;

    assert(list.len() == list.to_multiset().len());
    assert(all.len() == all.to_multiset().len());
    assert(profiles::profile_precedes(list[i], list[j]));
    texts_are_ordered_as_in_a_dictionary(list[i].name, list[j].name);
    texts_are_ordered_as_in_a_dictionary(list[i].profile_id, list[j].profile_id);
}

/// Sorted workspaces: the usual one first, then the one that was changed last, and those that were
/// changed at the same time by name.
pub proof fn workspaces_are_sorted_by_age(all: Seq<CodexWorkspaceView>, i: int, j: int)
    requires
        0 <= i < j < all.len(),
    ensures
        ({
            let list = ranking::arranged::<CodexWorkspace>(all);
            let a = list[i];
            let b = list[j];
            &&& list.to_multiset() == all.to_multiset()
            &&& b.is_default ==> a.is_default
            &&& a.is_default == b.is_default ==> a.updated_at_epoch_seconds
                >= b.updated_at_epoch_seconds
            &&& a.is_default == b.is_default && a.updated_at_epoch_seconds
                == b.updated_at_epoch_seconds ==> comes_before(a.name, b.name)
        }),
{
    let list = ranking::arranged::<CodexWorkspace>(all);
    codex_workspace::workspaces_are_ranked();
    ranking::arranged_is_sorted::<CodexWorkspace>(all);
    broadcast use vstd::seq_lib::group_to_multiset_ensures;

    assert(list.len() == list.to_multiset().len());
    assert(all.len() == all.to_multiset().len());
    assert(codex_workspace::workspace_precedes(list[i], list[j]));
    texts_are_ordered_as_in_a_dictionary(list[i].name, list[j].name);
}

/// Sorted choices are by name, and are the same choices as before.
pub proof fn choices_are_sorted_by_name(all: Seq<WorkspaceOptionView>, i: int, j: int)
    requires
        0 <= i < j < all.len(),
    ensures
        ({
            let list = ranking::arranged::<WorkspaceOption>(all);
            &&& list.to_multiset() == all.to_multiset()
            &&& comes_before(list[i].name, list[j].name)
        }),
{
    let list = ranking::arranged::<WorkspaceOption>(all);
    profiles::workspaces_are_ranked();
    ranking::arranged_is_sorted::<WorkspaceOption>(all);
    broadcast use vstd::seq_lib::group_to_multiset_ensures;

    assert(list.len() == list.to_multiset().len());
    assert(all.len() == all.to_multiset().len());
    assert(text::text_leq(list[i].name, list[j].name));
    texts_are_ordered_as_in_a_dictionary(list[i].name, list[j].name);
}

} // verus!
