//! What is passed to other programs, and what is kept from them.
use crate::baijimu_laws;
use crate::child_process;
use crate::codex_path;
use crate::codex_path::CodexPathView;
use crate::product_config;
use crate::product_config::ProductConfigView;
use crate::setup::powershell;
use crate::setup::process;
use crate::setup::windows_laws;
use crate::text;
use crate::user_environment;
use vstd::prelude::*;

verus! {

/// Whether the two characters are the same but for the case of a letter.
pub open spec fn same_letter(a: char, b: char) -> bool {
    ||| a == b
    ||| 'a' <= a && a <= 'z' && b as u32 == a as u32 - 32
}

/// Whether the name begins with the capital letters, in either case.
pub open spec fn begins_like(name: Seq<char>, capitals: Seq<char>) -> bool {
    name.len() >= capitals.len() && forall|i: int|
        0 <= i < capitals.len() ==> same_letter(#[trigger] name[i], capitals[i])
}

/// One character, in upper case, is the capital one exactly where it is the same but for its case.
proof fn upper_is_same_letter(a: char, b: char)
    requires
        !('a' <= b && b <= 'z'),
    ensures
        text::upper_char(a) == b <==> same_letter(a, b),
{
}

/// A name in upper case begins with the capital letters exactly where it begins like them.
proof fn upper_begins_like(name: Seq<char>, capitals: Seq<char>)
    requires
        forall|i: int|
            0 <= i < capitals.len() ==> !('a' <= #[trigger] capitals[i] && capitals[i] <= 'z'),
    ensures
        text::has_prefix(text::upper(name), capitals) <==> begins_like(name, capitals),
{
    let n = capitals.len() as int;
    let upper = text::upper(name);
    if n <= name.len() {
        assert forall|i: int| 0 <= i < n implies (upper[i] == capitals[i] <==> same_letter(
            #[trigger] name[i],
            capitals[i],
        )) by {
            upper_is_same_letter(name[i], capitals[i]);
        }
        if upper.take(n) == capitals {
            assert forall|i: int| 0 <= i < n implies same_letter(#[trigger] name[i], capitals[i]) by {
                assert(upper.take(n)[i] == capitals[i]);
            }
        }
        if begins_like(name, capitals) {
            assert(upper.take(n) =~= capitals) by {
                assert forall|i: int| 0 <= i < n implies upper[i] == capitals[i] by {
                    assert(same_letter(name[i], capitals[i]));
                }
            }
        }
    }
}

/// Which variables are kept from other programs: the state directory, and those that begin with the name
/// of the platform or of this program, in either case of their letters. All others are passed.
pub proof fn private_variables_are_known_by_their_names(name: Seq<char>)
    ensures
        child_process::is_private(name) <==> (begins_like(name, "CODEX_HOME"@) && name.len() == 10)
            || begins_like(name, "BAIJIMU_"@) || begins_like(name, "CODEX_CONNECTOR_"@),
{
    reveal_strlit("CODEX_HOME");
    reveal_strlit("BAIJIMU_");
    reveal_strlit("CODEX_CONNECTOR_");
    upper_begins_like(name, "CODEX_HOME"@);
    upper_begins_like(name, "BAIJIMU_"@);
    upper_begins_like(name, "CODEX_CONNECTOR_"@);
    let upper = text::upper(name);
    assert("CODEX_HOME"@.len() == 10);
    if name.len() == 10 {
        assert(upper.take(10) =~= upper);
    }
}

/// Which settings of the product are sound, and which fault is named otherwise: the first in this order.
pub proof fn sound_settings_are_accepted(config: ProductConfigView)
    ensures
        product_config::fault(config) is None <==> {
            &&& config.schema_version == 2
            &&& baijimu_laws::says_something(config.default_model)
            &&& baijimu_laws::says_something(config.router_provider)
            &&& config.router_base_url.len() >= 8 && config.router_base_url.take(8) == "https://"@
            &&& baijimu_laws::says_something(config.windows_desktop_protocol)
            &&& config.windows_desktop_trusted_publishers.len() > 0
            &&& forall|i: int|
                0 <= i < config.windows_desktop_trusted_publishers.len()
                    ==> baijimu_laws::says_something(
                    #[trigger] config.windows_desktop_trusted_publishers[i],
                )
        },
{
    reveal_strlit("https://");
    filled(config.default_model);
    filled(config.router_provider);
    filled(config.windows_desktop_protocol);
    let all = config.windows_desktop_trusted_publishers;
    assert forall|i: int| 0 <= i < all.len() implies (baijimu_laws::says_something(
        #[trigger] all[i],
    ) <==> !text::blank(all[i])) by {
        filled(all[i]);
    }
}

/// A text that holds more than white space is not blank.
proof fn filled(s: Seq<char>)
    ensures
        baijimu_laws::says_something(s) <==> !text::blank(s),
{
    text::blank_is_white(s);
}

/// Two settings are the same where both are unset or both have the same components, and only there.
pub proof fn settings_are_compared_by_components(a: CodexPathView, b: CodexPathView)
    ensures
        user_environment::same_setting(Some(a), Some(b)) <==> a.components.len() == b.components.len()
            && forall|i: int|
            0 <= i < a.components.len() ==> #[trigger] a.components[i] == b.components[i],
        user_environment::same_setting(None, None),
        !user_environment::same_setting(Some(a), None),
        !user_environment::same_setting(None, Some(b)),
{
    if a.components.len() == b.components.len() && (forall|i: int|
        0 <= i < a.components.len() ==> #[trigger] a.components[i] == b.components[i]) {
        assert(a.components =~= b.components);
    }
}

/// A component is added to a path behind exactly one separator.
pub proof fn one_separator_is_between(base: Seq<char>, component: Seq<char>, separator: char)
    requires
        base.len() > 0,
    ensures
        base.last() != separator ==> codex_path::joined(base, component, separator) == base.push(
            separator,
        ) + component,
        codex_path::joined(base.push(separator), component, separator) == base.push(separator)
            + component,
        codex_path::joined(Seq::empty(), component, separator) == component,
{
    assert(Seq::<char>::empty() + component =~= component);
}

/// The six bits that a symbol of Base64 stands for.
pub open spec fn bits_of(c: char) -> int {
    if 'A' <= c && c <= 'Z' {
        c as int - 65
    } else if 'a' <= c && c <= 'z' {
        c as int - 97 + 26
    } else if '0' <= c && c <= '9' {
        c as int - 48 + 52
    } else if c == '+' {
        62
    } else {
        63
    }
}

/// A symbol stands for the bits that it was made of.
proof fn symbols_stand_for_their_bits(bits: int)
    requires
        0 <= bits < 64,
    ensures
        bits_of(powershell::symbol(bits)) == bits,
        powershell::symbol(bits) != '=',
{
}

/// The bytes can be read back from the symbols of Base64: each four symbols stand for three bytes, and
/// the last group is filled up to four with equals signs.
pub proof fn bytes_are_read_back(bytes: Seq<u8>)
    ensures
        ({
            let t = powershell::base64_text(bytes);
            &&& t.len() % 4 == 0
            &&& t.len() == (bytes.len() + 2) / 3 * 4
            &&& bytes.len() >= 3 ==> bits_of(t[0]) * 262144 + bits_of(t[1]) * 4096 + bits_of(t[2]) * 64
                + bits_of(t[3]) == bytes[0] as int * 65536 + bytes[1] as int * 256 + bytes[2] as int
            &&& bytes.len() >= 3 ==> t.skip(4) == powershell::base64_text(bytes.skip(3))
            &&& bytes.len() == 1 ==> bits_of(t[0]) * 64 + bits_of(t[1]) == bytes[0] as int * 16 && t[2]
                == '=' && t[3] == '='
            &&& bytes.len() == 2 ==> bits_of(t[0]) * 4096 + bits_of(t[1]) * 64 + bits_of(t[2]) == (
            bytes[0] as int * 256 + bytes[1] as int) * 4 && t[3] == '='
        }),
    decreases bytes.len(),
{
    let t = powershell::base64_text(bytes);
    if bytes.len() >= 3 {
        bytes_are_read_back(bytes.skip(3));
        group_is_read_back(bytes[0], bytes[1], bytes[2]);
        assert(t.skip(4) =~= powershell::base64_text(bytes.skip(3)));
    } else if bytes.len() == 2 {
        group_is_read_back(bytes[0], bytes[1], 0);
    } else if bytes.len() == 1 {
        group_is_read_back(bytes[0], 0, 0);
    }
}

/// Four symbols stand for three bytes.
proof fn group_is_read_back(a: u8, b: u8, c: u8)
    ensures
        ({
            let s = powershell::symbols(a, b, c);
            &&& s.len() == 4
            &&& bits_of(s[0]) * 262144 + bits_of(s[1]) * 4096 + bits_of(s[2]) * 64 + bits_of(s[3])
                == a as int * 65536 + b as int * 256 + c as int
            &&& c == 0 ==> bits_of(s[3]) == 0
            &&& b == 0 && c == 0 ==> bits_of(s[2]) == 0
        }),
{
    symbols_stand_for_their_bits(a as int / 4);
    symbols_stand_for_their_bits((a as int % 4) * 16 + b as int / 16);
    symbols_stand_for_their_bits((b as int % 16) * 4 + c as int / 64);
    symbols_stand_for_their_bits(c as int % 64);
}

/// The bytes of a text in UTF-16 are those of its characters one behind the other, the lower byte of each
/// unit first; a character beyond the first plane takes two units from which it can be read back.
pub proof fn characters_are_read_back(s: Seq<char>, c: char)
    ensures
        ({
            let b = powershell::char_bytes(c);
            let code = c as int;
            &&& powershell::utf16le(s.push(c)) == powershell::utf16le(s) + b
            &&& powershell::utf16le(Seq::empty()).len() == 0
            &&& code < 65536 ==> b.len() == 2 && b[0] as int + b[1] as int * 256 == code
            &&& code >= 65536 ==> b.len() == 4 && ({
                let high = b[0] as int + b[1] as int * 256;
                let low = b[2] as int + b[3] as int * 256;
                &&& 0xd800 <= high < 0xdc00
                &&& 0xdc00 <= low < 0xe000
                &&& (high - 0xd800) * 1024 + (low - 0xdc00) + 65536 == code
            })
        }),
{
    assert(s.push(c).drop_last() =~= s);
}

/// What the scripts for the desktop application, and the one that takes access rules back, are told, each
/// under its name.
pub proof fn scripts_are_told_under_names(
    protocol: Seq<char>,
    names: Seq<Seq<char>>,
    signers: Seq<Seq<char>>,
    auth_file: Seq<char>,
    homes: Seq<Seq<char>>,
)
    ensures
        ({
            let told = crate::desktop::windows::script_environment(protocol, names, signers);
            &&& windows_laws::gives(told, "CODEX_DESKTOP_PROTOCOL"@, protocol)
            &&& windows_laws::gives(
                told,
                "CODEX_DESKTOP_PROCESS_NAMES"@,
                text::joined(names, seq!['\n']),
            )
            &&& windows_laws::gives(
                told,
                "CODEX_DESKTOP_TRUSTED_SIGNER_SUBJECTS"@,
                text::joined(signers, seq!['\n']),
            )
        }),
        ({
            let told = crate::legacy_auth_cleanup::cleanup_environment(auth_file, homes);
            &&& windows_laws::gives(told, "CODEX_DESKTOP_LEGACY_AUTH_FILE"@, auth_file)
            &&& windows_laws::gives(
                told,
                "CODEX_DESKTOP_MANAGED_HOMES_JSON"@,
                crate::json_compat::json_list_text(homes),
            )
        }),
{
    reveal_strlit("\n");
    assert("\n"@ =~= seq!['\n']);
    reveal_strlit("CODEX_DESKTOP_PROTOCOL");
    reveal_strlit("CODEX_DESKTOP_PROCESS_NAMES");
    reveal_strlit("CODEX_DESKTOP_TRUSTED_SIGNER_SUBJECTS");
    reveal_strlit("CODEX_DESKTOP_LEGACY_AUTH_FILE");
    reveal_strlit("CODEX_DESKTOP_MANAGED_HOMES_JSON");
    assert("CODEX_DESKTOP_PROTOCOL"@.len() == 22);
    assert("CODEX_DESKTOP_PROCESS_NAMES"@.len() == 27);
    assert("CODEX_DESKTOP_TRUSTED_SIGNER_SUBJECTS"@.len() == 37);
    assert("CODEX_DESKTOP_LEGACY_AUTH_FILE"@.len() == 30);
    assert("CODEX_DESKTOP_MANAGED_HOMES_JSON"@.len() == 32);
    let a = crate::desktop::windows::script_environment(protocol, names, signers);
    let b = crate::legacy_auth_cleanup::cleanup_environment(auth_file, homes);
    assert(a.len() == 3 && b.len() == 2);
    assert(a[0].name == "CODEX_DESKTOP_PROTOCOL"@);
    assert(a[1].name == "CODEX_DESKTOP_PROCESS_NAMES"@);
    assert(a[2].name == "CODEX_DESKTOP_TRUSTED_SIGNER_SUBJECTS"@);
    assert(b[0].name == "CODEX_DESKTOP_LEGACY_AUTH_FILE"@);
    assert(b[1].name == "CODEX_DESKTOP_MANAGED_HOMES_JSON"@);
}

/// How the end of a program is told: the sign of its code stays, and one that was killed is told as such;
/// what it wrote as errors is told in one line, and that it wrote none where it did not.
pub proof fn end_of_a_program_is_told(code: i64, stderr: Seq<char>)
    ensures
        code >= 0 ==> process::exit_text(Some(code)) == text::decimal(code as nat),
        code < 0 ==> process::exit_text(Some(code)) == seq!['-'] + text::decimal((-code) as nat),
        process::exit_text(None) == "signal"@,
        text::compacted(stderr, 1000).len() > 0 ==> process::shown_stderr(stderr) == text::compacted(
            stderr,
            1000,
        ),
        text::compacted(stderr, 1000).len() == 0 ==> process::shown_stderr(stderr) == "<empty>"@,
{
    reveal_strlit("-");
    assert("-"@ =~= seq!['-']);
}

} // verus!
