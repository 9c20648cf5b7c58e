//! How versions are read and compared.
use crate::cli_laws;
use crate::system_compatibility as system;
use crate::system_compatibility::CompatibilityErrorView;
use crate::text;
use crate::text_laws;
use vstd::prelude::*;

verus! {

/// Of two versions that begin alike, the one with the smaller number at the first difference is older,
/// whatever follows.
pub proof fn first_difference_decides(
    same: Seq<u64>,
    a: u64,
    b: u64,
    rest: Seq<u64>,
    others: Seq<u64>,
)
    ensures
        a < b ==> system::older(same.push(a) + rest, same.push(b) + others),
        a > b ==> !system::older(same.push(a) + rest, same.push(b) + others),
        !system::older(same, same),
{
    let x = same.push(a) + rest;
    let y = same.push(b) + others;
    let k = same.len() as int;
    assert forall|j: int| 0 <= j < k implies system::part(x, j) == system::part(y, j) by {}
    assert(system::part(x, k) == a);
    assert(system::part(y, k) == b);
    if a < b {
        assert(system::smaller_at(x, y, k));
    }
    if a > b {
        assert(system::smaller_at(y, x, k));
        system::never_both_older(y, x);
    }
    if system::older(same, same) {
        system::never_both_older(same, same);
    }
}

/// A version is older than one that goes on with numbers, unless these are zeros.
pub proof fn longer_versions_are_newer(a: Seq<u64>, zeros: nat, more: u64, rest: Seq<u64>)
    requires
        more > 0,
    ensures
        system::older(a, a + Seq::new(zeros, |i: int| 0u64).push(more) + rest),
        !system::older(a + Seq::new(zeros, |i: int| 0u64).push(more) + rest, a),
        !system::older(a, a + Seq::new(zeros, |i: int| 0u64)),
        !system::older(a + Seq::new(zeros, |i: int| 0u64), a),
{
    let longer = a + Seq::new(zeros, |i: int| 0u64).push(more) + rest;
    let padded = a + Seq::new(zeros, |i: int| 0u64);
    assert(system::smaller_at(a, longer, (a.len() + zeros) as int));
    system::never_both_older(a, longer);
    assert forall|k: int| k >= 0 implies system::part(a, k) == system::part(padded, k) by {}
}

/// The decimal digits of a number hold nothing but digits.
proof fn decimals_hold_digits(n: nat)
    ensures
        text_laws::lacks(text::decimal(n), '.'),
        text_laws::is_word(text::decimal(n)),
{
    cli_laws::decimals_are_numbers(n);
    let s = text::decimal(n);
    assert forall|i: int| 0 <= i < s.len() implies #[trigger] s[i] != '.' && !text::white_space(s[i]) by {
        assert(text::digit(s[i]));
    }
}

/// A text without white space at its ends is left as it is.
proof fn nothing_to_trim(s: Seq<char>)
    requires
        s.len() > 0,
        !text::white_space(s[0]),
        !text::white_space(s.last()),
    ensures
        text::trimmed(s) == s,
{
}

/// A version is read number by number: a decimal number is one, and a dot and a decimal number behind
/// a version add that number at its end. White space around it does not matter.
pub proof fn versions_are_numbers(s: Seq<char>, n: u64)
    ensures
        system::parsed(text::decimal(n as nat)) == Ok::<Seq<u64>, CompatibilityErrorView>(seq![n]),
        system::parsed(s) is Ok ==> system::parsed(
            text::trimmed(s).push('.') + text::decimal(n as nat),
        ) == Ok::<Seq<u64>, CompatibilityErrorView>(system::parsed(s)->Ok_0.push(n)),
{
    let digits = text::decimal(n as nat);
    cli_laws::decimals_are_numbers(n as nat);
    decimals_hold_digits(n as nat);
    assert(!text::white_space(digits[0]) && !text::white_space(digits[digits.len() - 1]));
    nothing_to_trim(digits);
    text_laws::pieces_follow_separators(text::trimmed(s), digits, '.');
    let number = |piece: Seq<char>| text::number(piece) as u64;
    assert(seq![digits].map_values(number) =~= seq![n]);
    if system::parsed(s) is Ok {
        let plain = text::trimmed(s);
        let whole = plain.push('.') + digits;
        let from = text::trimming_takes_white_space_only(s);
        assert(whole[0] == plain[0]);
        assert(whole.last() == digits.last());
        nothing_to_trim(whole);
        let pieces = text::split_on(plain, '.');
        let more = text::split_on(whole, '.');
        assert(more == pieces.push(digits));
        assert(system::numeric(more)) by {
            assert forall|i: int| 0 <= i < more.len() implies text::all_digits(#[trigger] more[i])
                && text::number(more[i]) <= u64::MAX by {
                if i < pieces.len() {
                    assert(more[i] == pieces[i]);
                }
            }
        }
        assert(more.map_values(number) =~= pieces.map_values(number).push(n));
    }
}

/// The application is allowed exactly where both versions are versions and the one of the system is not
/// older than what is asked; where it is, the error tells both as they were given.
pub proof fn recent_systems_are_supported(
    platform: Seq<char>,
    current: Seq<char>,
    minimum: Seq<char>,
    application: Seq<char>,
)
    ensures
        ({
            let fault = system::fault(platform, current, minimum, application);
            &&& fault is None <==> system::parsed(current) is Ok && system::parsed(minimum) is Ok
                && !system::older(system::parsed(current)->Ok_0, system::parsed(minimum)->Ok_0)
            &&& fault matches Some(CompatibilityErrorView::Unsupported(told)) ==> told.platform
                == platform && told.current_version == current && told.minimum_version == minimum
                && told.application == application && system::parsed(current) is Ok
                && system::parsed(minimum) is Ok && system::older(
                system::parsed(current)->Ok_0,
                system::parsed(minimum)->Ok_0,
            )
            &&& system::parsed(current) is Ok && system::parsed(minimum) is Ok && fault is Some
                ==> fault->0 is Unsupported
        }),
{
}

/// The version that a command tells is what it wrote, without the white space around it, where it ended
/// well and that is a version.
pub proof fn told_version_was_written(success: bool, output: Seq<char>, errors: Seq<char>)
    ensures
        ({
            let result = system::told_version(success, output, errors);
            &&& result is Ok <==> success && system::parsed(text::trimmed(output)) is Ok
            &&& result is Ok ==> result->Ok_0 == text::trimmed(output)
            &&& !success ==> result == Err::<Seq<char>, CompatibilityErrorView>(
                CompatibilityErrorView::Unread(text::trimmed(errors)),
            )
        }),
{
}

} // verus!
