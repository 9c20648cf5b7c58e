//! Reading and writing JSON documents that may begin with a byte order mark.
use vstd::prelude::*;

verus! {

/// A JSON value, seen through the strings that it holds.
#[verifier::external_type_specification]
#[verifier::external_body]
pub struct ExJsonValue(serde_json::Value);

/// Why a text is no JSON document.
#[verifier::external_type_specification]
#[verifier::external_body]
pub struct ExJsonError(serde_json::Error);

/// The members of a JSON object.
#[verifier::external_type_specification]
#[verifier::external_body]
#[verifier::reject_recursive_types(K)]
#[verifier::reject_recursive_types(V)]
pub struct ExJsonMap<K, V>(serde_json::Map<K, V>);

/// The strings of a JSON value, each under the member names that lead to it from the value. A value
/// that is a string itself holds that string under no name at all.
pub uninterp spec fn json_texts(value: serde_json::Value) -> Map<Seq<Seq<char>>, Seq<char>>;

/// The strings of the members of a JSON object, each under the member names that lead to it.
pub uninterp spec fn json_member_texts(
    members: serde_json::Map<String, serde_json::Value>,
) -> Map<Seq<Seq<char>>, Seq<char>>;

/// The members of a JSON object that are `true` or `false`.
pub uninterp spec fn json_member_flags(
    members: serde_json::Map<String, serde_json::Value>,
) -> Map<Seq<char>, bool>;

/// Whether no member of a JSON object is a list or an object.
pub uninterp spec fn json_members_are_flat(
    members: serde_json::Map<String, serde_json::Value>,
) -> bool;

/// What `serde_json::from_slice` makes of the bytes: the strings of the value that it reads, or
/// nothing where it reports an error.
pub uninterp spec fn json_read(bytes: Seq<u8>) -> Option<Map<Seq<Seq<char>>, Seq<char>>>;

/// What `serde_json::to_string` makes of a list of strings.
pub uninterp spec fn json_list_text(texts: Seq<Seq<char>>) -> Seq<char>;

/// No strings at all.
pub open spec fn no_texts() -> Map<Seq<Seq<char>>, Seq<char>> {
    Map::empty()
}

/// No `true` or `false` at all.
pub open spec fn no_flags() -> Map<Seq<char>, bool> {
    Map::empty()
}

/// The strings that are not reached through the member `name`.
pub open spec fn without_member(
    texts: Map<Seq<Seq<char>>, Seq<char>>,
    name: Seq<char>,
) -> Map<Seq<Seq<char>>, Seq<char>> {
    texts.restrict(
        Set::new(|path: Seq<Seq<char>>| texts.contains_key(path) && !(path.len() > 0 && path[0] == name)),
    )
}

/// The strings that are reached through the member `name`.
pub open spec fn below(
    texts: Map<Seq<Seq<char>>, Seq<char>>,
    name: Seq<char>,
) -> Map<Seq<Seq<char>>, Seq<char>> {
    Map::new(
        |path: Seq<Seq<char>>| texts.contains_key(seq![name] + path),
        |path: Seq<Seq<char>>| texts[seq![name] + path],
    )
}

/// The string under the given names, where there is one.
pub open spec fn text_at(
    texts: Map<Seq<Seq<char>>, Seq<char>>,
    path: Seq<Seq<char>>,
) -> Option<Seq<char>> {
    if texts.contains_key(path) {
        Some(texts[path])
    } else {
        None
    }
}

/// `serde_json::from_slice` for a `Value`: `json_read` names what it returns.
#[verifier::external_body]
fn parse(bytes: &[u8]) -> (res: Result<serde_json::Value, serde_json::Error>)
    ensures
        match res {
            Ok(value) => json_read(bytes@) == Some(json_texts(value)),
            Err(_) => json_read(bytes@) is None,
        },
{
    serde_json::from_slice::<serde_json::Value>(bytes)
}

/// `serde_json::Value::get` with a member name: the member of that name where the value is an
/// object that has one, and so nothing only where no string is reached through that name.
#[verifier::external_body]
fn member<'a>(value: &'a serde_json::Value, name: &str) -> (res: Option<&'a serde_json::Value>)
    ensures
        match res {
            Some(found) => json_texts(*found) == below(json_texts(*value), name@),
            None => below(json_texts(*value), name@) == no_texts(),
        },
{
    value.get(name)
}

/// `serde_json::Value::as_str`: the string that the value is, where it is one.
#[verifier::external_body]
fn as_text(value: &serde_json::Value) -> (res: Option<String>)
    ensures
        match res {
            Some(text) => text_at(json_texts(*value), seq![]) == Some(text@),
            None => text_at(json_texts(*value), seq![]) is None,
        },
{
    value.as_str().map(|text: &str| text.to_string())
}

/// `serde_json::Map::new`: an object without members.
#[verifier::external_body]
pub(crate) fn no_members() -> (res: serde_json::Map<String, serde_json::Value>)
    ensures
        json_member_texts(res) == no_texts(),
        json_member_flags(res) == no_flags(),
        json_members_are_flat(res),
{
    serde_json::Map::new()
}

/// `serde_json::Map::insert` with a string value: the string takes the place of what was under the
/// name, and nothing else changes.
#[verifier::external_body]
pub(crate) fn insert_text(
    members: &mut serde_json::Map<String, serde_json::Value>,
    name: &str,
    text: &str,
)
    ensures
        json_member_texts(*final(members)) == without_member(
            json_member_texts(*old(members)),
            name@,
        ).insert(seq![name@], text@),
        json_member_flags(*final(members)) == json_member_flags(*old(members)).remove(name@),
        json_members_are_flat(*old(members)) ==> json_members_are_flat(*final(members)),
{
    members.insert(name.to_string(), serde_json::Value::String(text.to_string()));
}

/// `serde_json::Map::insert` with `true` or `false`: it takes the place of what was under the name,
/// and nothing else changes.
#[verifier::external_body]
pub(crate) fn insert_flag(
    members: &mut serde_json::Map<String, serde_json::Value>,
    name: &str,
    flag: bool,
)
    ensures
        json_member_texts(*final(members)) == without_member(
            json_member_texts(*old(members)),
            name@,
        ),
        json_member_flags(*final(members)) == json_member_flags(*old(members)).insert(
            name@,
            flag,
        ),
        json_members_are_flat(*old(members)) ==> json_members_are_flat(*final(members)),
{
    members.insert(name.to_string(), serde_json::Value::Bool(flag));
}

/// `serde_json::Map::get`, read as a string: the string under the name, where there is one.
#[verifier::external_body]
pub(crate) fn member_text(
    members: &serde_json::Map<String, serde_json::Value>,
    name: &str,
) -> (res: Option<String>)
    ensures
        match res {
            Some(text) => text_at(json_member_texts(*members), seq![name@]) == Some(text@),
            None => text_at(json_member_texts(*members), seq![name@]) is None,
        },
{
    members.get(name).and_then(|value| value.as_str()).map(|text| text.to_string())
}

/// `serde_json::Map::get`, read as `true` or `false`: what is under the name, where it is one of
/// them.
#[verifier::external_body]
pub(crate) fn member_flag(
    members: &serde_json::Map<String, serde_json::Value>,
    name: &str,
) -> (res: Option<bool>)
    ensures
        match res {
            Some(flag) => json_member_flags(*members).contains_key(name@) && json_member_flags(
                *members,
            )[name@] == flag,
            None => !json_member_flags(*members).contains_key(name@),
        },
{
    members.get(name).and_then(|value| value.as_bool())
}

/// `serde_json::to_vec_pretty` for an object whose members are no lists or objects: it writes a
/// document that begins with a brace and from which the strings of the object are read back. Nothing
/// in an object of a `Value` makes it fail. An object that is nested too deeply is written but not
/// read back.
#[verifier::external_body]
fn to_pretty_bytes(members: serde_json::Map<String, serde_json::Value>) -> (res: Result<
    Vec<u8>,
    serde_json::Error,
>)
    requires
        json_members_are_flat(members),
    ensures
        res is Ok,
        json_read(res->Ok_0@) == Some(json_member_texts(members)),
        res->Ok_0@.len() > 0 && res->Ok_0@[0] == 0x7b,
{
    serde_json::to_vec_pretty(&serde_json::Value::Object(members))
}

/// `serde_json::to_string` for a list of strings: `json_list_text` names what it returns. Nothing in
/// a list of strings makes it fail.
#[verifier::external_body]
pub(crate) fn list_to_text(texts: &Vec<String>) -> (res: Result<String, serde_json::Error>)
    ensures
        res is Ok,
        res->Ok_0@ == json_list_text(texts.deep_view()),
{
    serde_json::to_string(texts)
}

/// The bytes after a leading UTF-8 byte order mark, or all of them where there is none.
pub open spec fn without_bom(bytes: Seq<u8>) -> Seq<u8> {
    if bytes.len() >= 3 && bytes[0] == 0xef && bytes[1] == 0xbb && bytes[2] == 0xbf {
        bytes.skip(3)
    } else {
        bytes
    }
}

/// The text after a leading byte order mark, or all of it where there is none.
pub open spec fn without_bom_char(text: Seq<char>) -> Seq<char> {
    if text.len() >= 1 && text[0] as u32 == 0xfeff {
        text.skip(1)
    } else {
        text
    }
}

/// The text after a leading byte order mark, or all of it where there is none.
pub fn strip_utf8_bom_str(text: &str) -> (res: String)
    ensures
        res@ == without_bom_char(text@),
{
    let chars = crate::text::chars_of(text);
    if chars.len() >= 1 && chars[0] as u32 == 0xfeff {
        assert(chars@.subrange(1, chars.len() as int) =~= text@.skip(1));
        crate::text::text_of(&chars, 1, chars.len())
    } else {
        assert(chars@.subrange(0, chars.len() as int) =~= text@);
        crate::text::text_of(&chars, 0, chars.len())
    }
}

/// The JSON value that the bytes hold after an optional byte order mark.
pub fn from_slice(bytes: &[u8]) -> (res: Result<serde_json::Value, serde_json::Error>)
    ensures
        match res {
            Ok(value) => json_read(without_bom(bytes@)) == Some(json_texts(value)),
            Err(_) => json_read(without_bom(bytes@)) is None,
        },
{
    if bytes.len() >= 3 && bytes[0] == 0xef && bytes[1] == 0xbb && bytes[2] == 0xbf {
        let rest = vstd::slice::slice_subrange(bytes, 3, bytes.len());
        assert(rest@ =~= bytes@.skip(3));
        parse(rest)
    } else {
        parse(bytes)
    }
}

/// The string under the member names, where the value holds one there.
pub fn text_in(value: &serde_json::Value, outer: &str) -> (res: Option<String>)
    ensures
        crate::text::opt_view(res) == text_at(json_texts(*value), seq![outer@]),
{
    assert(seq![outer@] + Seq::<Seq<char>>::empty() =~= seq![outer@]);
    match member(value, outer) {
        Some(found) => as_text(found),
        None => {
            assert(!below(json_texts(*value), outer@).contains_key(Seq::<Seq<char>>::empty()));
            None
        },
    }
}

/// The string under the two member names, where the value holds one there.
pub fn text_below(value: &serde_json::Value, outer: &str, inner: &str) -> (res: Option<String>)
    ensures
        crate::text::opt_view(res) == text_at(json_texts(*value), seq![outer@, inner@]),
{
    assert(seq![outer@] + seq![inner@] =~= seq![outer@, inner@]);
    match member(value, outer) {
        Some(found) => text_in(found, inner),
        None => {
            assert(!below(json_texts(*value), outer@).contains_key(seq![inner@]));
            None
        },
    }
}

/// A document with two string members of different names.
pub fn two_texts(first: &str, first_text: &str, second: &str, second_text: &str) -> (res: Vec<u8>)
    requires
        first@ != second@,
    ensures
        json_read(res@) == Some(
            no_texts().insert(seq![first@], first_text@).insert(
                seq![second@],
                second_text@,
            ),
        ),
        without_bom(res@) == res@,
{
    let mut members = no_members();
    let ghost none = no_texts();
    assert(without_member(none, first@) =~= none);
    insert_text(&mut members, first, first_text);
    let ghost one = none.insert(seq![first@], first_text@);
    assert(without_member(one, second@) =~= one) by {
        assert(seq![first@][0] == first@);
    }
    insert_text(&mut members, second, second_text);
    match to_pretty_bytes(members) {
        Ok(bytes) => bytes,
        Err(_) => Vec::new(),
    }
}

} // verus!
