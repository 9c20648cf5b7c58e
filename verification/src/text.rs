//! Character-level text operations, specified over sequences of characters.
use vstd::prelude::*;

verus! {

/// `String::push` appends the character to the end of the string.
pub assume_specification[ String::push ](s: &mut String, c: char)
    ensures
        final(s)@ == old(s)@.push(c),
;

/// The characters of the Unicode `White_Space` property.
pub open spec fn white_space(c: char) -> bool {
    let n = c as u32;
    ||| 0x9 <= n <= 0xd
    ||| n == 0x20
    ||| n == 0x85
    ||| n == 0xa0
    ||| n == 0x1680
    ||| 0x2000 <= n <= 0x200a
    ||| n == 0x2028
    ||| n == 0x2029
    ||| n == 0x202f
    ||| n == 0x205f
    ||| n == 0x3000
}

/// Whether `c` is white space.
pub fn is_white_space(c: char) -> (res: bool)
    ensures
        res == white_space(c),
{
    let n: u32 = c as u32;
    (0x9 <= n && n <= 0xd) || n == 0x20 || n == 0x85 || n == 0xa0 || n == 0x1680 || (0x2000 <= n
        && n <= 0x200a) || n == 0x2028 || n == 0x2029 || n == 0x202f || n == 0x205f || n == 0x3000
}

/// The control characters: the general category `Cc`.
pub open spec fn control(c: char) -> bool {
    c as u32 <= 0x1f || 0x7f <= c as u32 <= 0x9f
}

/// Whether `c` is a control character.
pub fn is_control(c: char) -> (res: bool)
    ensures
        res == control(c),
{
    let n: u32 = c as u32;
    n <= 0x1f || (0x7f <= n && n <= 0x9f)
}

/// The decimal digits `0` to `9`.
pub open spec fn digit(c: char) -> bool {
    0x30 <= c as u32 <= 0x39
}

/// Whether `c` is a decimal digit.
pub fn is_digit(c: char) -> (res: bool)
    ensures
        res == digit(c),
{
    let n: u32 = c as u32;
    0x30 <= n && n <= 0x39
}

/// The hexadecimal digits in either case.
pub open spec fn hex_digit(c: char) -> bool {
    digit(c) || 0x41 <= c as u32 <= 0x46 || 0x61 <= c as u32 <= 0x66
}

/// Whether `c` is a hexadecimal digit in either case.
pub fn is_hex_digit(c: char) -> (res: bool)
    ensures
        res == hex_digit(c),
{
    let n: u32 = c as u32;
    is_digit(c) || (0x41 <= n && n <= 0x46) || (0x61 <= n && n <= 0x66)
}

/// ASCII letters and digits.
pub open spec fn alphanumeric(c: char) -> bool {
    digit(c) || 0x41 <= c as u32 <= 0x5a || 0x61 <= c as u32 <= 0x7a
}

/// Whether `c` is an ASCII letter or digit.
pub fn is_alphanumeric(c: char) -> (res: bool)
    ensures
        res == alphanumeric(c),
{
    let n: u32 = c as u32;
    is_digit(c) || (0x41 <= n && n <= 0x5a) || (0x61 <= n && n <= 0x7a)
}

/// Whether two texts hold the same characters.
pub fn same(a: &str, b: &str) -> (res: bool)
    ensures
        res == (a@ == b@),
{
    let x = chars_of(a);
    let y = chars_of(b);
    if x.len() != y.len() {
        return false;
    }
    let mut i: usize = 0;
    while i < x.len()
        invariant
            i <= x.len(),
            x@ == a@,
            y@ == b@,
            x.len() == y.len(),
            a@.take(i as int) == b@.take(i as int),
        decreases x.len() - i,
    {
        if x[i] != y[i] {
            assert(a@[i as int] != b@[i as int]);
            return false;
        }
        i = i + 1;
        assert(a@.take(i as int) =~= a@.take(i - 1).push(a@[i - 1]));
        assert(b@.take(i as int) =~= b@.take(i - 1).push(b@[i - 1]));
    }
    assert(a@.take(i as int) =~= a@);
    assert(b@.take(i as int) =~= b@);
    true
}

/// The characters of a text.
pub fn chars_of(s: &str) -> (res: Vec<char>)
    ensures
        res@ == s@,
{
    let mut out: Vec<char> = Vec::new();
    for c in it: s.chars()
        invariant
            out@ == s@.take(it.index() as int),
            it.seq() == s@,
    {
        out.push(c);
    }
    out
}

/// The text made of `chars[from..to]`.
pub fn text_of(chars: &Vec<char>, from: usize, to: usize) -> (res: String)
    requires
        from <= to <= chars.len(),
    ensures
        res@ == chars@.subrange(from as int, to as int),
{
    let mut out = String::new();
    let mut i: usize = from;
    while i < to
        invariant
            from <= i <= to <= chars.len(),
            out@ == chars@.subrange(from as int, i as int),
        decreases to - i,
    {
        out.push(chars[i]);
        i = i + 1;
        assert(chars@.subrange(from as int, i as int) =~= chars@.subrange(
            from as int,
            i - 1,
        ).push(chars@[i - 1]));
    }
    out
}

/// The text without its leading white space.
pub open spec fn without_leading(s: Seq<char>) -> Seq<char>
    decreases s.len(),
{
    if s.len() > 0 && white_space(s[0]) {
        without_leading(s.skip(1))
    } else {
        s
    }
}

/// The text without its trailing white space.
pub open spec fn without_trailing(s: Seq<char>) -> Seq<char>
    decreases s.len(),
{
    if s.len() > 0 && white_space(s.last()) {
        without_trailing(s.drop_last())
    } else {
        s
    }
}

/// The text without leading and trailing white space.
pub open spec fn trimmed(s: Seq<char>) -> Seq<char> {
    without_trailing(without_leading(s))
}

/// Whether nothing but white space occurs in the text.
pub open spec fn blank(s: Seq<char>) -> bool {
    trimmed(s).len() == 0
}

/// What is left of a text without its leading white space is one of its ends, begins with no white
/// space, and only white space comes before it.
pub proof fn leading_is_white(s: Seq<char>)
    ensures
        ({
            let k = s.len() - without_leading(s).len();
            &&& 0 <= k <= s.len()
            &&& without_leading(s) == s.skip(k)
            &&& forall|i: int| 0 <= i < k ==> white_space(#[trigger] s[i])
            &&& k < s.len() ==> !white_space(s[k])
        }),
    decreases s.len(),
{
    if s.len() > 0 && white_space(s[0]) {
        leading_is_white(s.skip(1));
        let rest = s.skip(1);
        let k = s.len() - without_leading(s).len();
        assert(rest.skip(k - 1) =~= s.skip(k));
        assert forall|i: int| 0 <= i < k implies white_space(#[trigger] s[i]) by {
            if i > 0 {
                assert(rest[i - 1] == s[i]);
            }
        }
        if k < s.len() {
            assert(rest[k - 1] == s[k]);
        }
    } else {
        assert(s.skip(0) =~= s);
    }
}

/// What is left of a text without its trailing white space is one of its beginnings, ends with no
/// white space, and only white space comes behind it.
pub proof fn trailing_is_white(s: Seq<char>)
    ensures
        ({
            let n = without_trailing(s).len() as int;
            &&& 0 <= n <= s.len()
            &&& without_trailing(s) == s.take(n)
            &&& forall|i: int| n <= i < s.len() ==> white_space(#[trigger] s[i])
            &&& n > 0 ==> !white_space(s[n - 1])
        }),
    decreases s.len(),
{
    if s.len() > 0 && white_space(s.last()) {
        trailing_is_white(s.drop_last());
        let n = without_trailing(s).len() as int;
        assert(s.drop_last().take(n) =~= s.take(n));
        assert forall|i: int| n <= i < s.len() implies white_space(#[trigger] s[i]) by {
            if i < s.len() - 1 {
                assert(s.drop_last()[i] == s[i]);
            }
        }
        if n > 0 {
            assert(s.drop_last()[n - 1] == s[n - 1]);
        }
    } else {
        assert(s.take(s.len() as int) =~= s);
    }
}

/// A text is trimmed by taking away white space only, at its two ends, until none is left there.
pub proof fn trimming_takes_white_space_only(s: Seq<char>) -> (from: int)
    ensures
        0 <= from,
        from + trimmed(s).len() <= s.len(),
        trimmed(s) == s.subrange(from, from + trimmed(s).len()),
        forall|i: int| 0 <= i < from ==> white_space(#[trigger] s[i]),
        forall|i: int| from + trimmed(s).len() <= i < s.len() ==> white_space(#[trigger] s[i]),
        trimmed(s).len() > 0 ==> !white_space(trimmed(s)[0]) && !white_space(trimmed(s).last()),
{
    let mid = without_leading(s);
    let k = s.len() - mid.len();
    leading_is_white(s);
    trailing_is_white(mid);
    let n = trimmed(s).len() as int;
    assert(mid.take(n) =~= s.subrange(k, k + n));
    assert forall|i: int| k + n <= i < s.len() implies white_space(#[trigger] s[i]) by {
        assert(mid[i - k] == s[i]);
    }
    k
}

/// A text is blank exactly where every character of it is white space.
pub proof fn blank_is_white(s: Seq<char>)
    ensures
        blank(s) <==> forall|i: int| 0 <= i < s.len() ==> white_space(#[trigger] s[i]),
{
    let from = trimming_takes_white_space_only(s);
    if !blank(s) {
        assert(!white_space(trimmed(s)[0]));
        assert(s[from] == trimmed(s)[0]);
    }
}

/// The text without leading and trailing white space.
pub fn trim(s: &str) -> (res: String)
    ensures
        res@ == trimmed(s@),
{
    let chars = chars_of(s);
    let mut from: usize = 0;
    assert(s@.skip(0) =~= s@);
    while from < chars.len() && is_white_space(chars[from])
        invariant
            from <= chars.len(),
            chars@ == s@,
            without_leading(s@) == without_leading(s@.skip(from as int)),
        decreases chars.len() - from,
    {
        assert(s@.skip(from as int).skip(1) =~= s@.skip(from + 1));
        from = from + 1;
    }
    let ghost lead = s@.skip(from as int);
    assert(without_leading(s@) == lead);
    let mut to: usize = chars.len();
    assert(s@.subrange(from as int, to as int) =~= lead);
    while from < to && is_white_space(chars[to - 1])
        invariant
            from <= to <= chars.len(),
            chars@ == s@,
            without_trailing(lead) == without_trailing(s@.subrange(from as int, to as int)),
        decreases to,
    {
        assert(s@.subrange(from as int, to as int).drop_last() =~= s@.subrange(
            from as int,
            to - 1,
        ));
        to = to - 1;
    }
    text_of(&chars, from, to)
}

/// Whether nothing but white space occurs in the text.
pub fn is_blank(s: &str) -> (res: bool)
    ensures
        res == blank(s@),
{
    trim(s).as_str().is_empty()
}

/// Whether the text begins with the prefix.
pub open spec fn has_prefix(s: Seq<char>, prefix: Seq<char>) -> bool {
    prefix.len() <= s.len() && s.take(prefix.len() as int) == prefix
}

/// Whether the text ends with the suffix.
pub open spec fn has_suffix(s: Seq<char>, suffix: Seq<char>) -> bool {
    suffix.len() <= s.len() && s.skip(s.len() - suffix.len()) == suffix
}

/// Whether the needle stands at position `at` of the text.
pub open spec fn stands_at(s: Seq<char>, needle: Seq<char>, at: int) -> bool {
    0 <= at <= s.len() - needle.len() && s.subrange(at, at + needle.len()) == needle
}

/// Whether the needle stands somewhere in the text.
pub open spec fn holds(s: Seq<char>, needle: Seq<char>) -> bool {
    exists|at: int| stands_at(s, needle, at)
}

/// Whether `needle` stands at `at` in `chars`.
fn matches_at(chars: &Vec<char>, needle: &Vec<char>, at: usize) -> (res: bool)
    requires
        at + needle.len() <= chars.len(),
    ensures
        res == stands_at(chars@, needle@, at as int),
{
    let mut i: usize = 0;
    while i < needle.len()
        invariant
            i <= needle.len(),
            at + needle.len() <= chars.len(),
            forall|j: int| 0 <= j < i ==> chars@[at + j] == needle@[j],
        decreases needle.len() - i,
    {
        if chars[at + i] != needle[i] {
            assert(chars@.subrange(at as int, at + needle@.len())[i as int] != needle@[i as int]);
            return false;
        }
        i = i + 1;
    }
    assert(chars@.subrange(at as int, at + needle@.len()) =~= needle@);
    true
}

/// Whether the text begins with the prefix.
pub fn starts_with(s: &str, prefix: &str) -> (res: bool)
    ensures
        res == has_prefix(s@, prefix@),
{
    let chars = chars_of(s);
    let needle = chars_of(prefix);
    if needle.len() > chars.len() {
        return false;
    }
    assert(s@.subrange(0, prefix@.len() as int) =~= s@.take(prefix@.len() as int));
    matches_at(&chars, &needle, 0)
}

/// Whether the text ends with the suffix.
pub fn ends_with(s: &str, suffix: &str) -> (res: bool)
    ensures
        res == has_suffix(s@, suffix@),
{
    let chars = chars_of(s);
    let needle = chars_of(suffix);
    if needle.len() > chars.len() {
        return false;
    }
    let at: usize = chars.len() - needle.len();
    assert(s@.subrange(at as int, at + suffix@.len()) =~= s@.skip(s@.len() - suffix@.len()));
    matches_at(&chars, &needle, at)
}

/// Whether the needle stands somewhere in the text.
pub fn contains(s: &str, needle: &str) -> (res: bool)
    ensures
        res == holds(s@, needle@),
{
    let chars = chars_of(s);
    let wanted = chars_of(needle);
    if wanted.len() > chars.len() {
        return false;
    }
    let last: usize = chars.len() - wanted.len();
    let mut at: usize = 0;
    while at <= last
        invariant
            at <= last + 1,
            last == chars.len() - wanted.len(),
            chars@ == s@,
            wanted@ == needle@,
            forall|j: int| 0 <= j < at ==> !stands_at(s@, needle@, j),
        decreases last + 1 - at,
    {
        if matches_at(&chars, &wanted, at) {
            return true;
        }
        if at == last {
            return false;
        }
        at = at + 1;
    }
    false
}

/// The pieces of the text between the separators.
pub open spec fn split_on(s: Seq<char>, separator: char) -> Seq<Seq<char>>
    decreases s.len(),
{
    if s.len() == 0 {
        seq![Seq::<char>::empty()]
    } else {
        let before = split_on(s.drop_last(), separator);
        if s.last() == separator {
            before.push(Seq::<char>::empty())
        } else {
            before.drop_last().push(before.last().push(s.last()))
        }
    }
}

/// There is always at least one piece.
pub proof fn split_on_is_nonempty(s: Seq<char>, separator: char)
    ensures
        split_on(s, separator).len() >= 1,
    decreases s.len(),
{
    if s.len() > 0 {
        split_on_is_nonempty(s.drop_last(), separator);
    }
}

/// The characters of each text of a list.
pub open spec fn views(texts: Seq<String>) -> Seq<Seq<char>> {
    texts.map_values(|t: String| t@)
}

/// The pieces of the text between the separators.
pub fn split(s: &str, separator: char) -> (res: Vec<String>)
    ensures
        views(res@) == split_on(s@, separator),
        res.len() >= 1,
{
    let chars = chars_of(s);
    let mut pieces: Vec<String> = Vec::new();
    let mut current = String::new();
    let mut i: usize = 0;
    assert(views(pieces@).push(current@) =~= split_on(s@.take(0), separator));
    while i < chars.len()
        invariant
            i <= chars.len(),
            chars@ == s@,
            views(pieces@).push(current@) == split_on(s@.take(i as int), separator),
        decreases chars.len() - i,
    {
        let c = chars[i];
        let ghost done = views(pieces@).push(current@);
        assert(s@.take(i + 1).drop_last() =~= s@.take(i as int));
        if c == separator {
            pieces.push(current);
            current = String::new();
            assert(views(pieces@).push(current@) =~= done.push(Seq::<char>::empty()));
        } else {
            current.push(c);
            assert(views(pieces@).push(current@) =~= done.drop_last().push(done.last().push(c)));
        }
        i = i + 1;
    }
    assert(s@.take(i as int) =~= s@);
    let ghost done = views(pieces@).push(current@);
    pieces.push(current);
    assert(views(pieces@) =~= done);
    pieces
}

/// The words of the text: its longest runs without white space.
pub open spec fn words(s: Seq<char>) -> Seq<Seq<char>>
    decreases s.len(),
{
    if s.len() == 0 {
        Seq::empty()
    } else {
        let before = words(s.drop_last());
        if white_space(s.last()) {
            before
        } else if s.len() >= 2 && !white_space(s[s.len() - 2]) {
            before.drop_last().push(before.last().push(s.last()))
        } else {
            before.push(seq![s.last()])
        }
    }
}

/// The texts of a list with a separator between each two of them.
pub open spec fn joined(parts: Seq<Seq<char>>, separator: Seq<char>) -> Seq<char>
    decreases parts.len(),
{
    if parts.len() == 0 {
        Seq::empty()
    } else if parts.len() == 1 {
        parts[0]
    } else {
        joined(parts.drop_last(), separator) + separator + parts.last()
    }
}

/// The texts of a list with a separator between each two of them.
pub fn join(parts: &Vec<String>, separator: &str) -> (res: String)
    ensures
        res@ == joined(views(parts@), separator@),
{
    let mut out = String::new();
    let mut i: usize = 0;
    let ghost all = views(parts@);
    while i < parts.len()
        invariant
            i <= parts.len(),
            all == views(parts@),
            out@ == joined(all.take(i as int), separator@),
        decreases parts.len() - i,
    {
        assert(all.take(i + 1).drop_last() =~= all.take(i as int));
        if i > 0 {
            out.append(separator);
        }
        out.append(parts[i].as_str());
        i = i + 1;
        assert(out@ =~= joined(all.take(i as int), separator@));
    }
    assert(all.take(i as int) =~= all);
    out
}

/// At most the first `limit` characters of the text.
pub open spec fn clipped(s: Seq<char>, limit: nat) -> Seq<char> {
    if s.len() <= limit {
        s
    } else {
        s.take(limit as int)
    }
}

/// The words of a text with one blank between each two of them, cut off after `limit` characters.
pub open spec fn compacted(s: Seq<char>, limit: nat) -> Seq<char> {
    clipped(joined(words(s), seq![' ']), limit)
}

/// The words of the text.
pub fn split_words(s: &str) -> (res: Vec<String>)
    ensures
        views(res@) == words(s@),
{
    let chars = chars_of(s);
    let mut done: Vec<String> = Vec::new();
    let mut current = String::new();
    let mut open: bool = false;
    let mut i: usize = 0;
    assert(views(done@) =~= words(s@.take(0)));
    while i < chars.len()
        invariant
            i <= chars.len(),
            chars@ == s@,
            open == (i > 0 && !white_space(s@[i - 1])),
            open ==> words(s@.take(i as int)) == views(done@).push(current@),
            !open ==> words(s@.take(i as int)) == views(done@),
        decreases chars.len() - i,
    {
        let c = chars[i];
        let ghost before = words(s@.take(i as int));
        assert(s@.take(i + 1).drop_last() =~= s@.take(i as int));
        if is_white_space(c) {
            if open {
                done.push(current);
                current = String::new();
                assert(views(done@) =~= before);
            }
            open = false;
        } else if open {
            current.push(c);
            assert(views(done@).push(current@) =~= before.drop_last().push(before.last().push(c)));
        } else {
            current = String::new();
            current.push(c);
            open = true;
            assert(current@ =~= seq![c]);
            assert(views(done@).push(current@) =~= before.push(seq![c]));
        }
        i = i + 1;
    }
    assert(s@.take(i as int) =~= s@);
    if open {
        let ghost before = views(done@).push(current@);
        done.push(current);
        assert(views(done@) =~= before);
    }
    done
}

/// The words of a text with one blank between each two of them, cut off after `limit` characters.
pub fn compact(s: &str, limit: usize) -> (res: String)
    ensures
        res@ == compacted(s@, limit as nat),
{
    let found = split_words(s);
    proof {
        reveal_strlit(" ");
        assert(" "@ =~= seq![' ']);
    }
    let line = join(&found, " ");
    let chars = chars_of(line.as_str());
    if chars.len() <= limit {
        return line;
    }
    assert(chars@.subrange(0, limit as int) =~= chars@.take(limit as int));
    text_of(&chars, 0, limit)
}

/// The characters of an optional text.
pub open spec fn opt_view(text: Option<String>) -> Option<Seq<char>> {
    match text {
        Some(found) => Some(found@),
        None => None,
    }
}

/// The decimal digit of a number below ten.
pub open spec fn digit_char(d: nat) -> char {
    (0x30 + d) as char
}

/// The decimal digits of a number, without leading zeros.
pub open spec fn decimal(n: nat) -> Seq<char>
    decreases n,
{
    if n < 10 {
        seq![digit_char(n)]
    } else {
        decimal(n / 10).push(digit_char(n % 10))
    }
}

/// The decimal digits of a number, without leading zeros.
pub fn decimal_text(n: u64) -> (res: String)
    ensures
        res@ == decimal(n as nat),
    decreases n,
{
    let last: u8 = (n % 10) as u8;
    let digit: char = (0x30u8 + last) as char;
    if n < 10 {
        let mut out = String::new();
        out.push(digit);
        assert(out@ =~= seq![digit_char(n as nat)]);
        out
    } else {
        let mut out = decimal_text(n / 10);
        out.push(digit);
        out
    }
}

/// Whether the text is made of at least one decimal digit and nothing else.
pub open spec fn all_digits(s: Seq<char>) -> bool {
    s.len() > 0 && forall|i: int| 0 <= i < s.len() ==> digit(#[trigger] s[i])
}

/// The number that the decimal digits denote.
pub open spec fn number(s: Seq<char>) -> nat
    decreases s.len(),
{
    if s.len() == 0 {
        0
    } else {
        (number(s.drop_last()) * 10 + (s.last() as u32 - 0x30)) as nat
    }
}

/// Every further digit makes the number at least as large.
proof fn number_grows(s: Seq<char>, k: int)
    requires
        0 <= k <= s.len(),
        forall|i: int| 0 <= i < s.len() ==> digit(#[trigger] s[i]),
    ensures
        number(s.take(k)) <= number(s),
    decreases s.len() - k,
{
    if k < s.len() {
        number_grows(s, k + 1);
        assert(s.take(k + 1).drop_last() =~= s.take(k));
    } else {
        assert(s.take(k) =~= s);
    }
}

/// The number that a text of decimal digits denotes, where it is at most `limit`.
pub fn parse_digits(s: &str, limit: u64) -> (res: Option<u64>)
    ensures
        match res {
            Some(n) => all_digits(s@) && n == number(s@) && n <= limit,
            None => !all_digits(s@) || number(s@) > limit,
        },
{
    let chars = chars_of(s);
    assert(chars@.skip(0) =~= s@);
    parse_chars(&chars, 0, limit)
}

/// The number that the characters from `start` on denote, where it is at most `limit`.
fn parse_chars(chars: &Vec<char>, start: usize, limit: u64) -> (res: Option<u64>)
    requires
        start <= chars.len(),
    ensures
        match res {
            Some(n) => all_digits(chars@.skip(start as int)) && n == number(
                chars@.skip(start as int),
            ) && n <= limit,
            None => !all_digits(chars@.skip(start as int)) || number(chars@.skip(start as int))
                > limit,
        },
{
    let ghost s = chars@.skip(start as int);
    let mut i: usize = start;
    while i < chars.len()
        invariant
            start <= i <= chars.len(),
            s == chars@.skip(start as int),
            forall|j: int| 0 <= j < i - start ==> digit(#[trigger] s[j]),
        decreases chars.len() - i,
    {
        if !is_digit(chars[i]) {
            assert(!digit(s[i - start]));
            return None;
        }
        i = i + 1;
    }
    if start == chars.len() {
        return None;
    }
    let mut total: u64 = 0;
    let mut k: usize = start;
    assert(s.take(0) =~= Seq::<char>::empty());
    while k < chars.len()
        invariant
            start <= k <= chars.len(),
            s == chars@.skip(start as int),
            forall|j: int| 0 <= j < s.len() ==> digit(#[trigger] s[j]),
            total == number(s.take(k - start)),
            total <= limit,
        decreases chars.len() - k,
    {
        proof {
            number_grows(s, k - start + 1);
            assert(s.take(k - start + 1).drop_last() =~= s.take(k - start));
            assert(digit(s[k - start]));
        }
        let value: u64 = (chars[k] as u32 - 0x30) as u64;
        let next: u128 = total as u128 * 10 + value as u128;
        if next > limit as u128 {
            return None;
        }
        total = next as u64;
        k = k + 1;
    }
    assert(s.take(k - start) =~= s);
    Some(total)
}

/// The digits after an optional plus sign.
pub open spec fn without_plus(s: Seq<char>) -> Seq<char> {
    if s.len() > 0 && s[0] == '+' {
        s.skip(1)
    } else {
        s
    }
}

/// The number below 65536 that a text of an optional plus sign and decimal digits denotes.
pub fn parse_u16(s: &str) -> (res: Option<u16>)
    ensures
        match res {
            Some(n) => all_digits(without_plus(s@)) && n == number(without_plus(s@)),
            None => !all_digits(without_plus(s@)) || number(without_plus(s@)) > 65535,
        },
{
    let chars = chars_of(s);
    let start: usize = if chars.len() > 0 && chars[0] == '+' {
        1
    } else {
        0
    };
    assert(chars@.skip(start as int) =~= without_plus(s@));
    match parse_chars(&chars, start, 65535) {
        Some(n) => Some(n as u16),
        None => None,
    }
}

/// The upper-case form of an ASCII letter; any other character as it is.
pub open spec fn upper_char(c: char) -> char {
    if 0x61 <= c as u32 <= 0x7a {
        ((c as u32 - 0x20) as u32) as char
    } else {
        c
    }
}

/// The text with its ASCII letters in upper case.
pub open spec fn upper(s: Seq<char>) -> Seq<char> {
    s.map_values(|c: char| upper_char(c))
}

/// The upper-case form of an ASCII letter; any other character as it is.
pub fn to_upper_char(c: char) -> (res: char)
    ensures
        res == upper_char(c),
{
    let n: u32 = c as u32;
    if 0x61 <= n && n <= 0x7a {
        ((n - 0x20) as u8) as char
    } else {
        c
    }
}

/// The text with its ASCII letters in upper case.
pub fn to_upper(s: &str) -> (res: String)
    ensures
        res@ == upper(s@),
{
    let chars = chars_of(s);
    let mut out = String::new();
    let mut i: usize = 0;
    while i < chars.len()
        invariant
            i <= chars.len(),
            chars@ == s@,
            out@ == upper(s@.take(i as int)),
        decreases chars.len() - i,
    {
        out.push(to_upper_char(chars[i]));
        i = i + 1;
        assert(out@ =~= upper(s@.take(i as int)));
    }
    assert(s@.take(i as int) =~= s@);
    out
}

/// Whether the first text comes before the second, or is the same, when texts are ordered
/// character by character.
pub open spec fn text_leq(a: Seq<char>, b: Seq<char>) -> bool
    decreases a.len(),
{
    if a.len() == 0 {
        true
    } else if b.len() == 0 {
        false
    } else {
        a[0] < b[0] || (a[0] == b[0] && text_leq(a.skip(1), b.skip(1)))
    }
}

/// The order of texts is total.
pub proof fn text_leq_total(a: Seq<char>, b: Seq<char>)
    ensures
        text_leq(a, b) || text_leq(b, a),
    decreases a.len(),
{
    if a.len() > 0 && b.len() > 0 {
        text_leq_total(a.skip(1), b.skip(1));
    }
}

/// The order of texts is transitive.
pub proof fn text_leq_transitive(a: Seq<char>, b: Seq<char>, c: Seq<char>)
    requires
        text_leq(a, b),
        text_leq(b, c),
    ensures
        text_leq(a, c),
    decreases a.len(),
{
    if a.len() > 0 && b.len() > 0 && c.len() > 0 && a[0] == b[0] && b[0] == c[0] {
        text_leq_transitive(a.skip(1), b.skip(1), c.skip(1));
    }
}

/// Texts that are ordered both ways are the same.
pub proof fn text_leq_antisymmetric(a: Seq<char>, b: Seq<char>)
    requires
        text_leq(a, b),
        text_leq(b, a),
    ensures
        a == b,
    decreases a.len(),
{
    if a.len() > 0 && b.len() > 0 {
        text_leq_antisymmetric(a.skip(1), b.skip(1));
        assert(a =~= seq![a[0]] + a.skip(1));
        assert(b =~= seq![b[0]] + b.skip(1));
    } else {
        assert(a =~= b);
    }
}

/// Whether the first text comes before the second or is the same.
pub fn leq(a: &str, b: &str) -> (res: bool)
    ensures
        res == text_leq(a@, b@),
{
    let x = chars_of(a);
    let y = chars_of(b);
    let mut i: usize = 0;
    assert(a@.skip(0) =~= a@);
    assert(b@.skip(0) =~= b@);
    while i < x.len()
        invariant
            i <= x.len(),
            i <= y.len(),
            x@ == a@,
            y@ == b@,
            text_leq(a@, b@) == text_leq(a@.skip(i as int), b@.skip(i as int)),
        decreases x.len() - i,
    {
        if i >= y.len() {
            return false;
        }
        let c = x[i];
        let d = y[i];
        assert(a@.skip(i as int).skip(1) =~= a@.skip(i + 1));
        assert(b@.skip(i as int).skip(1) =~= b@.skip(i + 1));
        if c != d {
            return c < d;
        }
        i = i + 1;
    }
    true
}

/// The decimal digits of a number denote that number, and nothing but digits is among them.
pub proof fn decimal_denotes(n: nat)
    ensures
        all_digits(decimal(n)),
        number(decimal(n)) == n,
    decreases n,
{
    if n < 10 {
        assert(decimal(n).drop_last() =~= Seq::<char>::empty());
        assert(number(Seq::<char>::empty()) == 0);
        assert(decimal(n).last() == digit_char(n));
        assert(digit_char(n) as u32 == 0x30 + n);
    } else {
        decimal_denotes(n / 10);
        assert(decimal(n).drop_last() =~= decimal(n / 10));
        assert(decimal(n).last() == digit_char(n % 10));
        assert(digit_char(n % 10) as u32 == 0x30 + n % 10);
    }
}

} // verus!
