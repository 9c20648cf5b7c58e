//! File paths as the platform splits them into components.
use crate::duplicate::Duplicate;
use crate::text;
use vstd::prelude::*;

verus! {

/// A path: what is shown of it, and its components.
#[derive(Debug)]
pub struct CodexPath {
    /// The path as it is shown.
    pub text: String,
    /// The components of the path, the root among them.
    pub components: Vec<String>,
}

/// The view of `CodexPath`: the same fields with their texts as characters.
pub struct CodexPathView {
    pub text: Seq<char>,
    pub components: Seq<Seq<char>>,
}

impl DeepView for CodexPath {
    type V = CodexPathView;

    open spec fn deep_view(&self) -> CodexPathView {
        CodexPathView {
            text: self.text@,
            components: self.components.deep_view(),
        }
    }
}

impl Duplicate for CodexPath {
    fn duplicate(&self) -> (res: Self) {
        CodexPath {
            text: self.text.duplicate(),
            components: self.components.duplicate(),
        }
    }
}

/// The text of a path with a component added.
pub open spec fn joined(base: Seq<char>, component: Seq<char>, separator: char) -> Seq<char> {
    if base.len() == 0 || base.last() == separator {
        base + component
    } else {
        base.push(separator) + component
    }
}

/// The text of a path with a component added.
pub fn join(base: &str, component: &str, separator: char) -> (res: String)
    ensures
        res@ == joined(base@, component@, separator),
{
    let mut chars = text::chars_of(base);
    if chars.len() > 0 && chars[chars.len() - 1] != separator {
        chars.push(separator);
    }
    let mut more = text::chars_of(component);
    chars.append(&mut more);
    assert(chars@.subrange(0, chars.len() as int) =~= joined(base@, component@, separator));
    text::text_of(&chars, 0, chars.len())
}

/// Whether the path lies at or below the root.
pub open spec fn lies_under(path: CodexPathView, root: CodexPathView) -> bool {
    root.components.len() <= path.components.len() && path.components.take(
        root.components.len() as int,
    ) == root.components
}

/// Whether the two texts of a list agree up to `count`.
fn same_components(a: &Vec<String>, b: &Vec<String>, count: usize) -> (res: bool)
    requires
        count <= a.len(),
        count <= b.len(),
    ensures
        res == (a.deep_view().take(count as int) == b.deep_view().take(count as int)),
{
    let ghost x = a.deep_view();
    let ghost y = b.deep_view();
    let mut i: usize = 0;
    while i < count
        invariant
            i <= count,
            count <= a.len(),
            count <= b.len(),
            x == a.deep_view(),
            y == b.deep_view(),
            forall|j: int| 0 <= j < i ==> x[j] == y[j],
        decreases count - i,
    {
        if !text::same(a[i].as_str(), b[i].as_str()) {
            assert(x.take(count as int)[i as int] != y.take(count as int)[i as int]);
            return false;
        }
        i = i + 1;
    }
    assert(x.take(count as int) =~= y.take(count as int));
    true
}

impl CodexPath {
    /// Whether the path lies at or below the root.
    pub fn starts_with(&self, root: &CodexPath) -> (res: bool)
        ensures
            res == lies_under(self.deep_view(), root.deep_view()),
    {
        let count: usize = root.components.len();
        if count > self.components.len() {
            return false;
        }
        let ghost whole = root.deep_view().components;
        assert(whole.take(count as int) =~= whole);
        same_components(&self.components, &root.components, count)
    }

    /// Whether both paths have the same components.
    pub fn same_as(&self, other: &CodexPath) -> (res: bool)
        ensures
            res == (self.deep_view().components == other.deep_view().components),
    {
        let count: usize = self.components.len();
        if count != other.components.len() {
            return false;
        }
        let ghost a = self.deep_view().components;
        let ghost b = other.deep_view().components;
        assert(a.take(count as int) =~= a);
        assert(b.take(count as int) =~= b);
        same_components(&self.components, &other.components, count)
    }
}

} // verus!
