//! The login file: what it says, and when a profile can use it.
use crate::credential::contract::AuthProfileKind;
use crate::credential::files::{FileRead, FileReadView};
use crate::json_compat;
use crate::text;
use vstd::prelude::*;

verus! {

/// Why a login file gives no answer.
#[derive(Debug, Clone, Copy, PartialEq, Eq, Structural)]
pub enum AuthFault {
    /// The file cannot be read.
    Unreadable,
    /// The file is no JSON document.
    Invalid,
}

/// The strings of a login file, where it is a JSON document.
pub open spec fn auth_texts(bytes: Seq<u8>) -> Option<Map<Seq<Seq<char>>, Seq<char>>> {
    json_compat::json_read(json_compat::without_bom(bytes))
}

/// The text without surrounding white space, where anything is left of it.
pub open spec fn filled(value: Option<Seq<char>>) -> Option<Seq<char>> {
    match value {
        Some(found) => if text::blank(found) {
            None
        } else {
            Some(text::trimmed(found))
        },
        None => None,
    }
}

/// The API key that the login file holds.
pub open spec fn api_key(bytes: Seq<u8>) -> Option<Seq<char>> {
    match auth_texts(bytes) {
        Some(texts) => filled(json_compat::text_at(texts, seq!["OPENAI_API_KEY"@])),
        None => None,
    }
}

/// The access token that the login file holds.
pub open spec fn access_token(bytes: Seq<u8>) -> Option<Seq<char>> {
    match auth_texts(bytes) {
        Some(texts) => filled(json_compat::text_at(texts, seq!["tokens"@, "access_token"@])),
        None => None,
    }
}

/// Whether the login file holds a login at all.
pub open spec fn configured(bytes: Seq<u8>) -> bool {
    api_key(bytes) is Some || access_token(bytes) is Some
}

/// Whether a profile of this kind can use the login file.
pub open spec fn usable(bytes: Seq<u8>, kind: AuthProfileKind) -> bool {
    match kind {
        AuthProfileKind::Personal => configured(bytes),
        AuthProfileKind::Baijimu => api_key(bytes) is Some,
    }
}

/// The text without surrounding white space, where anything is left of it.
fn fill(value: Option<String>) -> (res: Option<String>)
    ensures
        text::opt_view(res) == filled(text::opt_view(value)),
{
    match value {
        Some(found) => {
            if text::is_blank(found.as_str()) {
                None
            } else {
                Some(text::trim(found.as_str()))
            }
        },
        None => None,
    }
}

/// The API key that the login file holds.
pub fn read_codex_api_key_from_bytes(bytes: &Vec<u8>) -> (res: Option<String>)
    ensures
        text::opt_view(res) == api_key(bytes@),
{
    match json_compat::from_slice(bytes.as_slice()) {
        Ok(value) => fill(json_compat::text_in(&value, "OPENAI_API_KEY")),
        Err(_) => None,
    }
}

/// What is known of a login file.
#[derive(Debug)]
pub struct AuthSummary {
    /// Whether it holds a login.
    pub configured: bool,
}

/// What is known of a login file. It has to be a JSON document.
pub fn auth_summary(bytes: &Vec<u8>) -> (res: Result<AuthSummary, AuthFault>)
    ensures
        match res {
            Ok(summary) => auth_texts(bytes@) is Some && summary.configured == configured(bytes@),
            Err(fault) => auth_texts(bytes@) is None && fault == AuthFault::Invalid,
        },
{
    match json_compat::from_slice(bytes.as_slice()) {
        Ok(value) => {
            let key = fill(json_compat::text_in(&value, "OPENAI_API_KEY"));
            let token = fill(json_compat::text_below(&value, "tokens", "access_token"));
            Ok(AuthSummary { configured: key.is_some() || token.is_some() })
        },
        Err(_) => Err(AuthFault::Invalid),
    }
}

/// Whether the login file holds a login.
pub fn holds_login(bytes: &Vec<u8>) -> (res: bool)
    ensures
        res == configured(bytes@),
{
    match auth_summary(bytes) {
        Ok(summary) => summary.configured,
        Err(_) => false,
    }
}

/// Whether a profile of this kind can use the login file.
pub fn auth_is_usable_for_profile(bytes: &Vec<u8>, kind: AuthProfileKind) -> (res: bool)
    ensures
        res == usable(bytes@, kind),
{
    match kind {
        AuthProfileKind::Personal => holds_login(bytes),
        AuthProfileKind::Baijimu => read_codex_api_key_from_bytes(bytes).is_some(),
    }
}

/// The API key of a login file, which may be missing but has to be readable.
pub open spec fn stored_api_key(file: FileReadView) -> Result<Option<Seq<char>>, AuthFault> {
    match file {
        FileReadView::Missing => Ok(None),
        FileReadView::Unreadable => Err(AuthFault::Unreadable),
        FileReadView::Content(bytes) => if auth_texts(bytes) is None {
            Err(AuthFault::Invalid)
        } else {
            Ok(api_key(bytes))
        },
    }
}

/// The API key of a login file where one is stored and can be read.
pub open spec fn known_api_key(file: FileReadView) -> Option<Seq<char>> {
    match stored_api_key(file) {
        Ok(key) => key,
        Err(_) => None,
    }
}

/// The API key of a login file, which may be missing but has to be readable.
pub fn read_codex_api_key(file: &FileRead) -> (res: Result<Option<String>, AuthFault>)
    ensures
        match res {
            Ok(key) => stored_api_key(file.deep_view()) == Ok::<Option<Seq<char>>, AuthFault>(
                text::opt_view(key),
            ),
            Err(fault) => stored_api_key(file.deep_view()) == Err::<Option<Seq<char>>, AuthFault>(
                fault,
            ),
        },
{
    match file {
        FileRead::Missing => Ok(None),
        FileRead::Unreadable => Err(AuthFault::Unreadable),
        FileRead::Content(bytes) => {
            match json_compat::from_slice(bytes.as_slice()) {
                Ok(_) => Ok(read_codex_api_key_from_bytes(bytes)),
                Err(_) => Err(AuthFault::Invalid),
            }
        },
    }
}

/// The API key of a login file where one is stored and can be read.
pub fn find_api_key(file: &FileRead) -> (res: Option<String>)
    ensures
        text::opt_view(res) == known_api_key(file.deep_view()),
{
    match read_codex_api_key(file) {
        Ok(key) => key,
        Err(_) => None,
    }
}

/// Whether the bytes are a login file for the credential and nothing more.
pub open spec fn workspace_login(bytes: Seq<u8>, credential: Seq<char>) -> bool {
    auth_texts(bytes) == Some(
        json_compat::no_texts().insert(seq!["OPENAI_API_KEY"@], credential).insert(
            seq!["auth_mode"@],
            "apikey"@,
        ),
    )
}

/// The login file of a workspace credential.
pub fn workspace_auth(credential: &str) -> (res: Vec<u8>)
    ensures
        workspace_login(res@, credential@),
{
    proof {
        reveal_strlit("OPENAI_API_KEY");
        reveal_strlit("auth_mode");
        assert("OPENAI_API_KEY"@.len() == 14);
        assert("auth_mode"@.len() == 9);
    }
    json_compat::two_texts("OPENAI_API_KEY", credential, "auth_mode", "apikey")
}

/// What is read from a login file that was written for a credential is that credential, without
/// surrounding white space.
pub proof fn written_login_is_read_back(bytes: Seq<u8>, credential: Seq<char>)
    requires
        workspace_login(bytes, credential),
        !text::blank(credential),
    ensures
        api_key(bytes) == Some(text::trimmed(credential)),
        stored_api_key(FileReadView::Content(bytes)) == Ok::<Option<Seq<char>>, AuthFault>(
            Some(text::trimmed(credential)),
        ),
        usable(bytes, AuthProfileKind::Baijimu),
        usable(bytes, AuthProfileKind::Personal),
{
    reveal_strlit("OPENAI_API_KEY");
    reveal_strlit("auth_mode");
    assert("OPENAI_API_KEY"@.len() == 14);
    assert("auth_mode"@.len() == 9);
    assert(seq!["OPENAI_API_KEY"@][0] != seq!["auth_mode"@][0]);
}

} // verus!
