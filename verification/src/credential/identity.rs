//! What profiles are found by.
use crate::digest;
use crate::text;
use vstd::prelude::*;

verus! {

/// The identity of the profile that holds the authorization found at installation.
pub const ORIGINAL_PROFILE_ID: &'static str = "personal:installation-backup";

/// The environment of profiles that name none.
pub fn default_environment() -> (res: String)
    ensures
        res@ == "prod"@,
{
    "prod".to_string()
}

/// A character of a path segment: letters, digits, `-` and `_` stay, anything else becomes `_`.
pub open spec fn segment_char(c: char) -> char {
    if text::alphanumeric(c) || c == '-' || c == '_' {
        c
    } else {
        '_'
    }
}

/// The text as a path segment.
pub open spec fn segment(value: Seq<char>) -> Seq<char> {
    if value.len() == 0 {
        "default"@
    } else {
        value.map_values(|c: char| segment_char(c))
    }
}

/// The text as a path segment.
pub fn sanitize_path_segment(value: &str) -> (res: String)
    ensures
        res@ == segment(value@),
{
    let chars = text::chars_of(value);
    if chars.len() == 0 {
        return "default".to_string();
    }
    let mut out = String::new();
    let mut i: usize = 0;
    while i < chars.len()
        invariant
            i <= chars.len(),
            chars@ == value@,
            out@ == value@.take(i as int).map_values(|c: char| segment_char(c)),
        decreases chars.len() - i,
    {
        let c = chars[i];
        if text::is_alphanumeric(c) || c == '-' || c == '_' {
            out.push(c);
        } else {
            out.push('_');
        }
        i = i + 1;
        assert(out@ =~= value@.take(i as int).map_values(|c: char| segment_char(c)));
    }
    assert(value@.take(i as int) =~= value@);
    out
}

/// The client in an identity.
pub open spec fn client_or_local(client: Option<Seq<char>>) -> Seq<char> {
    match client {
        Some(found) => found,
        None => "local"@,
    }
}

/// The user in an identity.
pub open spec fn user_or_zero(user: Option<u64>) -> nat {
    match user {
        Some(found) => found as nat,
        None => 0,
    }
}

/// The identity of a workspace profile.
pub open spec fn identity(
    environment: Seq<char>,
    user: Option<u64>,
    client: Option<Seq<char>>,
    workspace: u64,
) -> Seq<char> {
    segment(environment) + ":user-"@ + text::decimal(user_or_zero(user)) + ":client-"@ + segment(
        client_or_local(client),
    ) + ":workspace-"@ + text::decimal(workspace as nat)
}

/// The identity of a workspace profile.
pub fn profile_id(
    environment: &str,
    user_id: Option<u64>,
    client_id: &Option<String>,
    workspace_id: u64,
) -> (res: String)
    ensures
        res@ == identity(environment@, user_id, text::opt_view(*client_id), workspace_id),
{
    let mut out = sanitize_path_segment(environment);
    let user: u64 = match user_id {
        Some(found) => found,
        None => 0,
    };
    let client = match client_id {
        Some(found) => sanitize_path_segment(found.as_str()),
        None => sanitize_path_segment("local"),
    };
    out.append(":user-");
    out.append(text::decimal_text(user).as_str());
    out.append(":client-");
    out.append(client.as_str());
    out.append(":workspace-");
    out.append(text::decimal_text(workspace_id).as_str());
    out
}

/// The key under which the files of a profile are stored: it shows nothing of the identity.
pub open spec fn short_key(id: Seq<char>) -> Seq<char> {
    digest::sha256_digits(vstd::utf8::encode_utf8(id)).take(24)
}

/// The key under which the files of a profile are stored.
pub fn profile_short_key(profile_id: &str) -> (res: String)
    ensures
        res@ == short_key(profile_id@),
        res@.len() == 24,
        forall|i: int| 0 <= i < 24 ==> digest::lower_hex(#[trigger] res@[i]),
{
    let digits = digest::sha256_hex(profile_id.as_bytes());
    let chars = text::chars_of(digits.as_str());
    assert(chars@.subrange(0, 24) =~= chars@.take(24));
    text::text_of(&chars, 0, 24)
}

/// Whether no colon occurs in the text.
pub open spec fn no_colon(s: Seq<char>) -> bool {
    forall|i: int| 0 <= i < s.len() ==> #[trigger] s[i] != ':'
}

/// What stands before the first colon, and what stands behind it, are determined by the whole.
proof fn split_at_colon(a: Seq<char>, x: Seq<char>, b: Seq<char>, y: Seq<char>)
    requires
        no_colon(a),
        no_colon(b),
        a + seq![':'] + x == b + seq![':'] + y,
    ensures
        a == b,
        x == y,
{
    let s = a + seq![':'] + x;
    let t = b + seq![':'] + y;
    assert(s[a.len() as int] == ':');
    assert(t[b.len() as int] == ':');
    if a.len() < b.len() {
        assert(t[a.len() as int] == b[a.len() as int]);
    }
    if b.len() < a.len() {
        assert(s[b.len() as int] == a[b.len() as int]);
    }
    assert(a =~= s.take(a.len() as int));
    assert(b =~= t.take(b.len() as int));
    assert(x =~= s.skip((a.len() + 1) as int));
    assert(y =~= t.skip((b.len() + 1) as int));
}

/// Texts with the same beginning are the same when what follows it is.
proof fn same_after(p: Seq<char>, x: Seq<char>, y: Seq<char>)
    requires
        p + x == p + y,
    ensures
        x == y,
{
    assert(x =~= (p + x).skip(p.len() as int));
    assert(y =~= (p + y).skip(p.len() as int));
}

/// A path segment holds no colon.
proof fn segment_has_no_colon(value: Seq<char>)
    ensures
        no_colon(segment(value)),
{
    reveal_strlit("default");
}

/// The digits of a number hold no colon.
proof fn decimal_has_no_colon(n: nat)
    ensures
        no_colon(text::decimal(n)),
{
    text::decimal_denotes(n);
    assert forall|i: int| 0 <= i < text::decimal(n).len() implies #[trigger] text::decimal(n)[i]
        != ':' by {
        assert(text::digit(text::decimal(n)[i]));
    }
}

/// The parts of an identity, grouped from the right.
proof fn regroup(
    e: Seq<char>,
    p: Seq<char>,
    u: Seq<char>,
    q: Seq<char>,
    c: Seq<char>,
    r: Seq<char>,
    w: Seq<char>,
)
    ensures
        e + (seq![':'] + p) + u + (seq![':'] + q) + c + (seq![':'] + r) + w == e + seq![':'] + (p
            + (u + seq![':'] + (q + (c + seq![':'] + (r + w))))),
{
    let k = seq![':'];
    let x3 = r + w;
    let x2 = q + (c + k + x3);
    assert((k + r) + w =~= k + x3);
    assert(c + (k + x3) =~= c + k + x3);
    assert((k + q) + (c + k + x3) =~= k + x2);
    assert(u + (k + x2) =~= u + k + x2);
    assert((k + p) + (u + k + x2) =~= k + (p + (u + k + x2)));
    let whole = e + (k + p) + u + (k + q) + c + (k + r) + w;
    assert(whole =~= e + ((k + p) + (u + ((k + q) + (c + ((k + r) + w))))));
    assert(e + (k + (p + (u + k + x2))) =~= e + k + (p + (u + k + x2)));
}

/// Profile identities are scoped: two of them are the same only for the same environment, user,
/// client and workspace, the environments and clients taken as path segments.
pub proof fn identity_is_scoped(
    environment: Seq<char>,
    user: Option<u64>,
    client: Option<Seq<char>>,
    workspace: u64,
    other_environment: Seq<char>,
    other_user: Option<u64>,
    other_client: Option<Seq<char>>,
    other_workspace: u64,
)
    requires
        identity(environment, user, client, workspace) == identity(
            other_environment,
            other_user,
            other_client,
            other_workspace,
        ),
    ensures
        segment(environment) == segment(other_environment),
        user_or_zero(user) == user_or_zero(other_user),
        segment(client_or_local(client)) == segment(client_or_local(other_client)),
        workspace == other_workspace,
{
    let e1 = segment(environment);
    let e2 = segment(other_environment);
    let u1 = text::decimal(user_or_zero(user));
    let u2 = text::decimal(user_or_zero(other_user));
    let c1 = segment(client_or_local(client));
    let c2 = segment(client_or_local(other_client));
    let w1 = text::decimal(workspace as nat);
    let w2 = text::decimal(other_workspace as nat);
    reveal_strlit(":user-");
    reveal_strlit(":client-");
    reveal_strlit(":workspace-");
    let p = ":user-"@.skip(1);
    let q = ":client-"@.skip(1);
    let r = ":workspace-"@.skip(1);
    assert(":user-"@ =~= seq![':'] + p);
    assert(":client-"@ =~= seq![':'] + q);
    assert(":workspace-"@ =~= seq![':'] + r);
    let x3 = r + w1;
    let y3 = r + w2;
    let x2 = q + (c1 + seq![':'] + x3);
    let y2 = q + (c2 + seq![':'] + y3);
    let x1 = p + (u1 + seq![':'] + x2);
    let y1 = p + (u2 + seq![':'] + y2);
    regroup(e1, p, u1, q, c1, r, w1);
    regroup(e2, p, u2, q, c2, r, w2);
    segment_has_no_colon(environment);
    segment_has_no_colon(other_environment);
    split_at_colon(e1, x1, e2, y1);
    same_after(p, u1 + seq![':'] + x2, u2 + seq![':'] + y2);
    decimal_has_no_colon(user_or_zero(user));
    decimal_has_no_colon(user_or_zero(other_user));
    split_at_colon(u1, x2, u2, y2);
    same_after(q, c1 + seq![':'] + x3, c2 + seq![':'] + y3);
    segment_has_no_colon(client_or_local(client));
    segment_has_no_colon(client_or_local(other_client));
    split_at_colon(c1, x3, c2, y3);
    same_after(r, w1, w2);
    text::decimal_denotes(user_or_zero(user));
    text::decimal_denotes(user_or_zero(other_user));
    text::decimal_denotes(workspace as nat);
    text::decimal_denotes(other_workspace as nat);
}

} // verus!
