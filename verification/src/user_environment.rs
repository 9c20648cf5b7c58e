//! The user-level setting of the state directory.
use crate::codex_path::{CodexPath, CodexPathView};
use crate::duplicate::Duplicate;
use crate::text;
use vstd::prelude::*;

verus! {

/// The setting before and after it was restored.
#[derive(Debug)]
pub struct CodexHomeRestore {
    /// The setting before.
    pub previous: Option<CodexPath>,
    /// The setting after.
    pub current: Option<CodexPath>,
    /// Whether running programs were told of the change.
    pub environment_broadcast: bool,
}

/// What was set is not what is read afterwards.
#[derive(Debug)]
pub struct RestoreMismatch {
    /// What was set.
    pub expected: Option<CodexPath>,
    /// What is read.
    pub current: Option<CodexPath>,
}

/// Whether two settings are the same: both unset, or the same path.
pub open spec fn same_setting(a: Option<CodexPathView>, b: Option<CodexPathView>) -> bool {
    match (a, b) {
        (Some(a), Some(b)) => a.components == b.components,
        (None, None) => true,
        _ => false,
    }
}

/// A setting as it is shown.
pub open spec fn shown(value: Option<CodexPathView>) -> Seq<char> {
    match value {
        Some(path) => path.text,
        None => "<unset>"@,
    }
}

/// A setting as it is shown.
fn display_optional(value: &Option<CodexPath>) -> (res: String)
    ensures
        res@ == shown(value.deep_view()),
{
    match value {
        Some(path) => path.text.clone(),
        None => "<unset>".to_string(),
    }
}

impl RestoreMismatch {
    /// The message of the error.
    pub fn message(&self) -> (res: String)
        ensures
            res@ == "恢复用户级 CODEX_HOME 后回读不一致：期望 "@ + shown(self.expected.deep_view())
                + "，实际 "@ + shown(self.current.deep_view()),
    {
        let mut out = "恢复用户级 CODEX_HOME 后回读不一致：期望 ".to_string();
        out.append(display_optional(&self.expected).as_str());
        out.append("，实际 ");
        out.append(display_optional(&self.current).as_str());
        out
    }
}

/// The setting that is in effect where this is stored. In the registry of Windows a blank value is
/// no setting.
pub fn read_codex_home(stored: Option<CodexPath>, in_registry: bool) -> (res: Option<CodexPath>)
    ensures
        res.deep_view() == match stored.deep_view() {
            Some(path) => if in_registry && text::blank(path.text) {
                None
            } else {
                Some(path)
            },
            None => None,
        },
{
    match stored {
        Some(path) => if in_registry && text::is_blank(path.text.as_str()) {
            None
        } else {
            Some(path)
        },
        None => None,
    }
}

/// What came of restoring the setting: the setting was `previous`, `value` was written, and
/// `current` is read afterwards. It is an error if that is something else.
pub fn restore_codex_home(
    value: &Option<CodexPath>,
    previous: Option<CodexPath>,
    current: Option<CodexPath>,
) -> (res: Result<CodexHomeRestore, RestoreMismatch>)
    ensures
        match res {
            Ok(restored) => same_setting(current.deep_view(), value.deep_view())
                && restored.previous.deep_view() == previous.deep_view()
                && restored.current.deep_view() == current.deep_view()
                && !restored.environment_broadcast,
            Err(error) => !same_setting(current.deep_view(), value.deep_view())
                && error.expected.deep_view() == value.deep_view() && error.current.deep_view()
                == current.deep_view(),
        },
{
    let same = match (&current, value) {
        (Some(current), Some(value)) => current.same_as(value),
        (None, None) => true,
        _ => false,
    };
    if !same {
        return Err(RestoreMismatch { expected: value.duplicate(), current });
    }
    Ok(CodexHomeRestore { previous, current, environment_broadcast: false })
}

} // verus!
