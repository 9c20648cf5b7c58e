//! Variables of the environment of a program.
use crate::duplicate::Duplicate;
use vstd::prelude::*;

verus! {

/// A variable of the environment.
#[derive(Debug)]
pub struct EnvironmentVariable {
    /// The name.
    pub name: String,
    /// The value.
    pub value: String,
}

/// The view of `EnvironmentVariable`: the same fields with their texts as characters.
pub struct EnvironmentVariableView {
    pub name: Seq<char>,
    pub value: Seq<char>,
}

impl DeepView for EnvironmentVariable {
    type V = EnvironmentVariableView;

    open spec fn deep_view(&self) -> EnvironmentVariableView {
        EnvironmentVariableView {
            name: self.name@,
            value: self.value@,
        }
    }
}

impl Duplicate for EnvironmentVariable {
    fn duplicate(&self) -> (res: Self) {
        EnvironmentVariable {
            name: self.name.duplicate(),
            value: self.value.duplicate(),
        }
    }
}

/// A variable of the environment.
pub open spec fn variable(name: Seq<char>, value: Seq<char>) -> EnvironmentVariableView {
    EnvironmentVariableView { name, value }
}

/// A variable of the environment.
pub fn new_variable(name: &str, value: String) -> (res: EnvironmentVariable)
    ensures
        res.deep_view() == variable(name@, value@),
{
    EnvironmentVariable { name: name.to_string(), value }
}

} // verus!
