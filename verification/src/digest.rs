//! The SHA-256 digest of a byte string as hexadecimal text.
use sha2::Digest;
use vstd::prelude::*;

verus! {

/// The lower-case hexadecimal digits of the SHA-256 digest of the bytes.
pub uninterp spec fn sha256_digits(bytes: Seq<u8>) -> Seq<char>;

/// The digits that `{:x}` writes.
pub open spec fn lower_hex(c: char) -> bool {
    crate::text::digit(c) || 0x61 <= c as u32 <= 0x66
}

/// `sha2::Sha256::digest`, written with `{:x}`: the 32 bytes of the digest as 64 lower-case
/// hexadecimal digits. `sha256_digits` names them.
#[verifier::external_body]
pub(crate) fn sha256_hex(bytes: &[u8]) -> (res: String)
    ensures
        res@ == sha256_digits(bytes@),
        res@.len() == 64,
        forall|i: int| 0 <= i < 64 ==> lower_hex(#[trigger] res@[i]),
{
    format!("{:x}", sha2::Sha256::digest(bytes))
}

} // verus!
