//! How the installation script of Windows is handed to PowerShell.
use base64::engine::general_purpose::STANDARD;
use base64::Engine;
use vstd::prelude::*;

verus! {

/// The variable that names the script.
pub const WINDOWS_INSTALL_SCRIPT_ENV: &'static str = "CODEX_CONNECTOR_INSTALL_SCRIPT_PATH";

/// The command that runs the script and writes its output as UTF-8.
pub const WINDOWS_INSTALL_WRAPPER: &'static str = "$ErrorActionPreference = \"Stop\"\n[Console]::OutputEncoding = New-Object System.Text.UTF8Encoding($false)\n$OutputEncoding = [Console]::OutputEncoding\n& $env:CODEX_CONNECTOR_INSTALL_SCRIPT_PATH\n";

/// The symbol for six bits in Base64.
pub open spec fn symbol(bits: int) -> char {
    if bits < 26 {
        (0x41 + bits) as char
    } else if bits < 52 {
        (0x61 + bits - 26) as char
    } else if bits < 62 {
        (0x30 + bits - 52) as char
    } else if bits == 62 {
        '+'
    } else {
        '/'
    }
}

/// The symbols for three bytes in Base64.
pub open spec fn symbols(a: u8, b: u8, c: u8) -> Seq<char> {
    seq![
        symbol(a as int / 4),
        symbol((a as int % 4) * 16 + b as int / 16),
        symbol((b as int % 16) * 4 + c as int / 64),
        symbol(c as int % 64),
    ]
}

/// The bytes in Base64 with the standard alphabet and padding.
pub open spec fn base64_text(bytes: Seq<u8>) -> Seq<char>
    decreases bytes.len(),
{
    if bytes.len() == 0 {
        Seq::empty()
    } else if bytes.len() == 1 {
        symbols(bytes[0], 0, 0).take(2) + seq!['=', '=']
    } else if bytes.len() == 2 {
        symbols(bytes[0], bytes[1], 0).take(3) + seq!['=']
    } else {
        symbols(bytes[0], bytes[1], bytes[2]) + base64_text(bytes.skip(3))
    }
}

/// `Engine::encode` of `base64::engine::general_purpose::STANDARD`: the bytes in Base64 with the
/// standard alphabet, padded to groups of four symbols. It panics only where the length of the
/// result does not fit, which needs more bytes than a `Vec` can hold.
#[verifier::external_body]
fn encode_base64(bytes: &Vec<u8>) -> (res: String)
    ensures
        res@ == base64_text(bytes@),
{
    STANDARD.encode(bytes)
}

/// The units of a character in UTF-16.
pub open spec fn utf16_units(c: char) -> Seq<int> {
    let code = c as int;
    if code < 0x10000 {
        seq![code]
    } else {
        seq![0xd800 + (code - 0x10000) / 0x400, 0xdc00 + (code - 0x10000) % 0x400]
    }
}

/// The bytes of a unit, the lower first.
pub open spec fn unit_bytes(unit: int) -> Seq<u8> {
    seq![(unit % 256) as u8, (unit / 256) as u8]
}

/// The bytes of a character in UTF-16, each unit with the lower byte first.
pub open spec fn char_bytes(c: char) -> Seq<u8> {
    let units = utf16_units(c);
    if units.len() == 1 {
        unit_bytes(units[0])
    } else {
        unit_bytes(units[0]) + unit_bytes(units[1])
    }
}

/// The bytes of a text in UTF-16, each unit with the lower byte first.
pub open spec fn utf16le(s: Seq<char>) -> Seq<u8>
    decreases s.len(),
{
    if s.len() == 0 {
        Seq::empty()
    } else {
        utf16le(s.drop_last()) + char_bytes(s.last())
    }
}

/// Adds the bytes of a unit, the lower first.
fn push_unit(bytes: &mut Vec<u8>, unit: u32)
    requires
        unit < 0x10000,
    ensures
        final(bytes)@ == old(bytes)@ + unit_bytes(unit as int),
{
    let ghost before = bytes@;
    bytes.push((unit % 256) as u8);
    bytes.push((unit / 256) as u8);
    assert(bytes@ =~= before + unit_bytes(unit as int));
}

/// Adds the bytes of a character in UTF-16.
fn push_char(bytes: &mut Vec<u8>, c: char)
    ensures
        final(bytes)@ == old(bytes)@ + char_bytes(c),
{
    let ghost before = bytes@;
    let code: u32 = c as u32;
    if code < 0x10000 {
        push_unit(bytes, code);
    } else {
        push_unit(bytes, 0xd800 + (code - 0x10000) / 0x400);
        push_unit(bytes, 0xdc00 + (code - 0x10000) % 0x400);
    }
    assert(bytes@ =~= before + char_bytes(c));
}

/// The bytes of a text in UTF-16, each unit with the lower byte first.
fn encode_utf16le(script: &str) -> (res: Vec<u8>)
    ensures
        res@ == utf16le(script@),
{
    let chars = crate::text::chars_of(script);
    let mut bytes: Vec<u8> = Vec::new();
    let mut i: usize = 0;
    assert(bytes@ =~= utf16le(chars@.take(0)));
    while i < chars.len()
        invariant
            i <= chars.len(),
            chars@ == script@,
            bytes@ == utf16le(chars@.take(i as int)),
        decreases chars.len() - i,
    {
        assert(chars@.take(i + 1).drop_last() =~= chars@.take(i as int));
        push_char(&mut bytes, chars[i]);
        i = i + 1;
    }
    assert(chars@.take(i as int) =~= script@);
    bytes
}

/// A script in the form in which PowerShell takes it on its command line.
pub fn powershell_encoded_command(script: &str) -> (res: String)
    ensures
        res@ == base64_text(utf16le(script@)),
{
    let bytes = encode_utf16le(script);
    encode_base64(&bytes)
}

/// The arguments with which PowerShell runs the installation script.
pub open spec fn install_arguments_view() -> Seq<Seq<char>> {
    seq![
        "-NoProfile"@,
        "-NonInteractive"@,
        "-ExecutionPolicy"@,
        "Bypass"@,
        "-OutputFormat"@,
        "Text"@,
        "-EncodedCommand"@,
        base64_text(utf16le(WINDOWS_INSTALL_WRAPPER@)),
    ]
}

/// The arguments with which PowerShell runs the installation script.
pub fn install_arguments() -> (res: Vec<String>)
    ensures
        res.deep_view() == install_arguments_view(),
{
    let mut out: Vec<String> = Vec::new();
    out.push("-NoProfile".to_string());
    out.push("-NonInteractive".to_string());
    out.push("-ExecutionPolicy".to_string());
    out.push("Bypass".to_string());
    out.push("-OutputFormat".to_string());
    out.push("Text".to_string());
    out.push("-EncodedCommand".to_string());
    out.push(powershell_encoded_command(WINDOWS_INSTALL_WRAPPER));
    assert(out.deep_view() =~= install_arguments_view());
    out
}

/// The installation script as it is written to disk: with the mark by which PowerShell knows
/// UTF-8.
pub fn windows_install_script_bytes(source: &Vec<u8>) -> (res: Vec<u8>)
    ensures
        res@ == seq![0xefu8, 0xbbu8, 0xbfu8] + source@,
{
    let mut script: Vec<u8> = Vec::new();
    script.push(0xef);
    script.push(0xbb);
    script.push(0xbf);
    let mut rest = crate::duplicate::copy_bytes(source);
    script.append(&mut rest);
    assert(script@ =~= seq![0xefu8, 0xbbu8, 0xbfu8] + source@);
    script
}

} // verus!
