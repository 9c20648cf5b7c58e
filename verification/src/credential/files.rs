//! What reading a file gives.
use crate::duplicate::{copy_bytes, Duplicate};
use vstd::prelude::*;

verus! {

/// What reading a file gives.
#[derive(Debug)]
pub enum FileRead {
    /// There is no such file.
    Missing,
    /// The file is there but cannot be read.
    Unreadable,
    /// The content of the file.
    Content(Vec<u8>),
}

/// The view of `FileRead`.
pub enum FileReadView {
    Missing,
    Unreadable,
    Content(Seq<u8>),
}

impl DeepView for FileRead {
    type V = FileReadView;

    open spec fn deep_view(&self) -> FileReadView {
        match self {
            FileRead::Missing => FileReadView::Missing,
            FileRead::Unreadable => FileReadView::Unreadable,
            FileRead::Content(bytes) => FileReadView::Content(bytes@),
        }
    }
}

impl Duplicate for FileRead {
    fn duplicate(&self) -> (res: Self) {
        match self {
            FileRead::Missing => FileRead::Missing,
            FileRead::Unreadable => FileRead::Unreadable,
            FileRead::Content(bytes) => FileRead::Content(copy_bytes(bytes)),
        }
    }
}

/// `std::string::String::from_utf8`: the text that the bytes encode, where they are valid UTF-8.
#[verifier::external_body]
pub(crate) fn decode(bytes: &Vec<u8>) -> (res: Option<String>)
    ensures
        match res {
            Some(text) => vstd::utf8::valid_utf8(bytes@) && text@ == vstd::utf8::decode_utf8(bytes@),
            None => !vstd::utf8::valid_utf8(bytes@),
        },
{
    String::from_utf8(bytes.clone()).ok()
}

} // verus!
