//! What child processes get to see of the environment.
use crate::text;
use vstd::prelude::*;

verus! {

/// Whether a variable of the environment is this program's own. Letters of either case count.
pub open spec fn is_private(name: Seq<char>) -> bool {
    let upper = text::upper(name);
    upper == "CODEX_HOME"@ || text::has_prefix(upper, "BAIJIMU_"@) || text::has_prefix(
        upper,
        "CODEX_CONNECTOR_"@,
    )
}

/// Whether a variable of the environment is this program's own.
pub fn is_connector_private_environment(name: &str) -> (res: bool)
    ensures
        res == is_private(name@),
{
    let upper = text::to_upper(name);
    text::same(upper.as_str(), "CODEX_HOME") || text::starts_with(upper.as_str(), "BAIJIMU_")
        || text::starts_with(upper.as_str(), "CODEX_CONNECTOR_")
}

/// The variables that are taken from a child process: those of this program, in order.
pub open spec fn private_names(names: Seq<Seq<char>>) -> Seq<Seq<char>> {
    names.filter(|name: Seq<char>| is_private(name))
}

/// The variables that are taken from a child process.
pub fn isolate_from_connector_environment(names: &Vec<String>) -> (res: Vec<String>)
    ensures
        res.deep_view() == private_names(names.deep_view()),
{
    let ghost all = names.deep_view();
    let ghost some = |name: Seq<char>| is_private(name);
    let mut out: Vec<String> = Vec::new();
    proof {
        reveal(Seq::filter);
        assert(out.deep_view() =~= all.take(0).filter(some));
    }
    let mut i: usize = 0;
    while i < names.len()
        invariant
            i <= names.len(),
            all == names.deep_view(),
            some == (|name: Seq<char>| is_private(name)),
            out.deep_view() == all.take(i as int).filter(some),
        decreases names.len() - i,
    {
        let ghost before = out.deep_view();
        proof {
            reveal(Seq::filter);
            assert(all.take(i + 1).drop_last() =~= all.take(i as int));
            assert(all.take(i + 1).last() == names@[i as int]@);
        }
        if is_connector_private_environment(names[i].as_str()) {
            out.push(names[i].clone());
            assert(out.deep_view() =~= before.push(names@[i as int]@));
        }
        i = i + 1;
    }
    assert(all.take(i as int) =~= all);
    out
}

/// A child process that loses these variables keeps every variable that is not this program's own,
/// and loses every one that is.
pub proof fn only_private_variables_are_taken(names: Seq<Seq<char>>, name: Seq<char>)
    requires
        names.contains(name),
    ensures
        private_names(names).contains(name) == is_private(name),
{
    let some = |name: Seq<char>| is_private(name);
    let taken = names.filter(some);
    if is_private(name) {
        let i = choose|i: int| 0 <= i < names.len() && names[i] == name;
        names.lemma_filter_contains(some, i);
    }
    if taken.contains(name) {
        let i = choose|i: int| 0 <= i < taken.len() && taken[i] == name;
        names.lemma_filter_pred(some, i);
    }
}

} // verus!
