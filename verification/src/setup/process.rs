//! How the programs that an installation runs end.
use super::compact_error;
use crate::duplicate::Duplicate;
use crate::text;
use vstd::prelude::*;

verus! {

/// How a program ended.
#[derive(Debug)]
pub struct ProcessEnd {
    /// Whether it ended well.
    pub success: bool,
    /// The code that it ended with, unless a signal ended it.
    pub exit: Option<i64>,
    /// What it wrote as errors.
    pub stderr: String,
}

/// The view of `ProcessEnd`: the same fields with their texts as characters.
pub struct ProcessEndView {
    pub success: bool,
    pub exit: Option<i64>,
    pub stderr: Seq<char>,
}

impl DeepView for ProcessEnd {
    type V = ProcessEndView;

    open spec fn deep_view(&self) -> ProcessEndView {
        ProcessEndView {
            success: self.success,
            exit: self.exit.deep_view(),
            stderr: self.stderr@,
        }
    }
}

impl Duplicate for ProcessEnd {
    fn duplicate(&self) -> (res: Self) {
        ProcessEnd {
            success: self.success,
            exit: self.exit.duplicate(),
            stderr: self.stderr.duplicate(),
        }
    }
}

/// The code as it is shown.
pub open spec fn exit_text(exit: Option<i64>) -> Seq<char> {
    match exit {
        None => "signal"@,
        Some(code) => if code < 0 {
            "-"@ + text::decimal((-code) as nat)
        } else {
            text::decimal(code as nat)
        },
    }
}

/// What is shown of what the program wrote as errors.
pub open spec fn shown_stderr(stderr: Seq<char>) -> Seq<char> {
    let line = super::compacted_error(stderr);
    if line.len() == 0 {
        "<empty>"@
    } else {
        line
    }
}

/// How the program ended, as it is shown.
pub open spec fn shown_end(end: ProcessEndView) -> Seq<char> {
    "（exit="@ + exit_text(end.exit) + "，stderr="@ + shown_stderr(end.stderr) + "）"@
}

/// The code as it is shown.
fn show_exit(exit: Option<i64>) -> (res: String)
    ensures
        res@ == exit_text(exit),
{
    match exit {
        None => "signal".to_string(),
        Some(code) => {
            if code < 0 {
                let size: u64 = if code == i64::MIN {
                    0x8000_0000_0000_0000
                } else {
                    (-code) as u64
                };
                let mut out = "-".to_string();
                out.append(text::decimal_text(size).as_str());
                out
            } else {
                text::decimal_text(code as u64)
            }
        },
    }
}

impl ProcessEnd {
    /// How the program ended, as it is shown.
    pub fn show(&self) -> (res: String)
        ensures
            res@ == shown_end(self.deep_view()),
    {
        let mut out = "（exit=".to_string();
        out.append(show_exit(self.exit).as_str());
        out.append("，stderr=");
        let line = compact_error(self.stderr.as_str());
        if line.as_str().is_empty() {
            out.append("<empty>");
        } else {
            out.append(line.as_str());
        }
        out.append("）");
        out
    }
}

} // verus!
