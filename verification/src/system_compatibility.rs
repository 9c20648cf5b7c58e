//! Whether the operating system is recent enough.
use crate::text;
use vstd::prelude::*;

verus! {

/// The code by which an operating system that is too old is known everywhere.
pub const ERROR_CODE_UNSUPPORTED_OS_VERSION: &'static str = "UNSUPPORTED_OS_VERSION";

/// An operating system that is too old for an application.
#[derive(Debug)]
pub struct UnsupportedOsVersion {
    platform: String,
    current_version: String,
    minimum_version: String,
    application: String,
}

/// The view of `UnsupportedOsVersion`.
pub struct UnsupportedOsVersionView {
    pub platform: Seq<char>,
    pub current_version: Seq<char>,
    pub minimum_version: Seq<char>,
    pub application: Seq<char>,
}

impl DeepView for UnsupportedOsVersion {
    type V = UnsupportedOsVersionView;

    closed spec fn deep_view(&self) -> UnsupportedOsVersionView {
        UnsupportedOsVersionView {
            platform: self.platform@,
            current_version: self.current_version@,
            minimum_version: self.minimum_version@,
            application: self.application@,
        }
    }
}

impl UnsupportedOsVersionView {
    /// The message of the error.
    pub open spec fn text(self) -> Seq<char> {
        ERROR_CODE_UNSUPPORTED_OS_VERSION@ + ": 当前 "@ + self.platform + " "@
            + self.current_version + " 低于 "@ + self.application + " 要求的最低系统版本 "@
            + self.minimum_version + "，请先升级操作系统"@
    }
}

impl UnsupportedOsVersion {
    /// The operating system.
    pub fn platform(&self) -> (res: &str)
        ensures
            res@ == self.deep_view().platform,
    {
        self.platform.as_str()
    }

    /// Its version.
    pub fn current_version(&self) -> (res: &str)
        ensures
            res@ == self.deep_view().current_version,
    {
        self.current_version.as_str()
    }

    /// The version that it would have to have at least.
    pub fn minimum_version(&self) -> (res: &str)
        ensures
            res@ == self.deep_view().minimum_version,
    {
        self.minimum_version.as_str()
    }

    /// The application that asks for it.
    pub fn application(&self) -> (res: &str)
        ensures
            res@ == self.deep_view().application,
    {
        self.application.as_str()
    }

    /// The message of the error.
    pub fn message(&self) -> (res: String)
        ensures
            res@ == self.deep_view().text(),
    {
        let mut out = ERROR_CODE_UNSUPPORTED_OS_VERSION.to_string();
        out.append(": 当前 ");
        out.append(self.platform.as_str());
        out.append(" ");
        out.append(self.current_version.as_str());
        out.append(" 低于 ");
        out.append(self.application.as_str());
        out.append(" 要求的最低系统版本 ");
        out.append(self.minimum_version.as_str());
        out.append("，请先升级操作系统");
        out
    }
}

/// What can be wrong with the version of an operating system.
#[derive(Debug)]
pub enum CompatibilityError {
    /// The version is blank.
    EmptyVersion,
    /// The version is not made of numbers with dots between them.
    InvalidVersion(String),
    /// The version is too old.
    Unsupported(UnsupportedOsVersion),
    /// The version cannot be read; why.
    Unread(String),
}

/// The view of `CompatibilityError`.
pub enum CompatibilityErrorView {
    EmptyVersion,
    InvalidVersion(Seq<char>),
    Unsupported(UnsupportedOsVersionView),
    Unread(Seq<char>),
}

impl DeepView for CompatibilityError {
    type V = CompatibilityErrorView;

    open spec fn deep_view(&self) -> CompatibilityErrorView {
        match self {
            CompatibilityError::EmptyVersion => CompatibilityErrorView::EmptyVersion,
            CompatibilityError::InvalidVersion(value) => CompatibilityErrorView::InvalidVersion(
                value@,
            ),
            CompatibilityError::Unsupported(error) => CompatibilityErrorView::Unsupported(
                error.deep_view(),
            ),
            CompatibilityError::Unread(reason) => CompatibilityErrorView::Unread(reason@),
        }
    }
}

impl CompatibilityErrorView {
    /// The message of the error.
    pub open spec fn text(self) -> Seq<char> {
        match self {
            CompatibilityErrorView::EmptyVersion => "系统版本不能为空"@,
            CompatibilityErrorView::InvalidVersion(value) => "系统版本格式无效："@ + value,
            CompatibilityErrorView::Unsupported(error) => error.text(),
            CompatibilityErrorView::Unread(reason) => "读取当前 macOS 版本失败："@ + reason,
        }
    }
}

impl CompatibilityError {
    /// The message of the error.
    pub fn message(&self) -> (res: String)
        ensures
            res@ == self.deep_view().text(),
    {
        match self {
            CompatibilityError::EmptyVersion => "系统版本不能为空".to_string(),
            CompatibilityError::InvalidVersion(value) => {
                let mut out = "系统版本格式无效：".to_string();
                out.append(value.as_str());
                out
            },
            CompatibilityError::Unsupported(error) => error.message(),
            CompatibilityError::Unread(reason) => {
                let mut out = "读取当前 macOS 版本失败：".to_string();
                out.append(reason.as_str());
                out
            },
        }
    }
}

/// Whether every piece of a version is a number that fits.
pub open spec fn numeric(pieces: Seq<Seq<char>>) -> bool {
    forall|i: int|
        0 <= i < pieces.len() ==> text::all_digits(#[trigger] pieces[i]) && text::number(pieces[i])
            <= u64::MAX
}

/// The numbers of a version, or what is wrong with it.
pub open spec fn parsed(value: Seq<char>) -> Result<Seq<u64>, CompatibilityErrorView> {
    let plain = text::trimmed(value);
    let pieces = text::split_on(plain, '.');
    if plain.len() == 0 {
        Err(CompatibilityErrorView::EmptyVersion)
    } else if !numeric(pieces) {
        Err(CompatibilityErrorView::InvalidVersion(plain))
    } else {
        Ok(pieces.map_values(|piece: Seq<char>| text::number(piece) as u64))
    }
}

/// The numbers of a version, or what is wrong with it.
fn parse(value: &str) -> (res: Result<Vec<u64>, CompatibilityError>)
    ensures
        match res {
            Ok(numbers) => parsed(value@) == Ok::<Seq<u64>, CompatibilityErrorView>(numbers@),
            Err(error) => parsed(value@) == Err::<Seq<u64>, CompatibilityErrorView>(
                error.deep_view(),
            ),
        },
{
    let plain = text::trim(value);
    if plain.as_str().is_empty() {
        return Err(CompatibilityError::EmptyVersion);
    }
    let pieces = text::split(plain.as_str(), '.');
    let ghost views = text::split_on(text::trimmed(value@), '.');
    let mut numbers: Vec<u64> = Vec::new();
    let mut i: usize = 0;
    while i < pieces.len()
        invariant
            i <= pieces.len(),
            plain@ == text::trimmed(value@),
            plain@.len() > 0,
            views == text::split_on(text::trimmed(value@), '.'),
            text::views(pieces@) == views,
            numbers.len() == i,
            forall|j: int|
                0 <= j < i ==> text::all_digits(#[trigger] views[j]) && text::number(views[j])
                    <= u64::MAX && numbers@[j] == text::number(views[j]),
        decreases pieces.len() - i,
    {
        assert(views[i as int] == pieces@[i as int]@);
        match text::parse_digits(pieces[i].as_str(), u64::MAX) {
            Some(number) => numbers.push(number),
            None => {
                assert(!numeric(views)) by {
                    assert(!(text::all_digits(views[i as int]) && text::number(views[i as int])
                        <= u64::MAX));
                }
                return Err(CompatibilityError::InvalidVersion(plain));
            },
        }
        i = i + 1;
    }
    assert(numbers@ =~= views.map_values(|piece: Seq<char>| text::number(piece) as u64));
    Ok(numbers)
}

/// A number of a version; versions go on with zeros.
pub open spec fn part(version: Seq<u64>, i: int) -> u64 {
    if 0 <= i < version.len() {
        version[i]
    } else {
        0
    }
}

/// Whether the versions first differ at the place, and the first is smaller there.
pub open spec fn smaller_at(a: Seq<u64>, b: Seq<u64>, k: int) -> bool {
    k >= 0 && part(a, k) < part(b, k) && forall|j: int| 0 <= j < k ==> part(a, j) == part(b, j)
}

/// Whether the first version is older: where they first differ, its number is smaller.
pub open spec fn older(a: Seq<u64>, b: Seq<u64>) -> bool {
    exists|k: int| smaller_at(a, b, k)
}

/// Whether the first version is older.
fn is_older(a: &Vec<u64>, b: &Vec<u64>) -> (res: bool)
    ensures
        res == older(a@, b@),
{
    let length: usize = if a.len() > b.len() {
        a.len()
    } else {
        b.len()
    };
    let mut i: usize = 0;
    while i < length
        invariant
            i <= length,
            length >= a.len(),
            length >= b.len(),
            forall|j: int| 0 <= j < i ==> part(a@, j) == part(b@, j),
        decreases length - i,
    {
        let x: u64 = if i < a.len() {
            a[i]
        } else {
            0
        };
        let y: u64 = if i < b.len() {
            b[i]
        } else {
            0
        };
        if x < y {
            assert(smaller_at(a@, b@, i as int));
            return true;
        }
        if y < x {
            proof {
                assert(smaller_at(b@, a@, i as int));
                never_both_older(b@, a@);
            }
            return false;
        }
        i = i + 1;
    }
    proof {
        if older(a@, b@) {
            let k = choose|k: int| smaller_at(a@, b@, k);
            assert(part(a@, k) < part(b@, k));
        }
    }
    false
}

/// Of two versions at most one is older.
pub proof fn never_both_older(a: Seq<u64>, b: Seq<u64>)
    ensures
        !(older(a, b) && older(b, a)),
{
    if older(a, b) && older(b, a) {
        let k = choose|k: int| smaller_at(a, b, k);
        let l = choose|l: int| smaller_at(b, a, l);
        if k < l {
            assert(part(b, k) == part(a, k));
        } else if l < k {
            assert(part(a, l) == part(b, l));
        }
    }
}

/// Being older is transitive.
pub proof fn older_is_transitive(a: Seq<u64>, b: Seq<u64>, c: Seq<u64>)
    requires
        older(a, b),
        older(b, c),
    ensures
        older(a, c),
{
    let k = choose|k: int| smaller_at(a, b, k);
    let l = choose|l: int| smaller_at(b, c, l);
    let m = if k < l {
        k
    } else {
        l
    };
    assert(smaller_at(a, c, m));
}

/// A version goes on with zeros: one more of them makes it neither older nor newer.
pub proof fn trailing_zeros_do_not_count(a: Seq<u64>, b: Seq<u64>)
    ensures
        older(a.push(0), b) == older(a, b),
        older(b, a.push(0)) == older(b, a),
{
    assert forall|k: int| part(a.push(0), k) == part(a, k) by {}
    if older(a.push(0), b) {
        let k = choose|k: int| smaller_at(a.push(0), b, k);
        assert forall|j: int| 0 <= j < k implies part(a, j) == part(b, j) by {
            assert(part(a.push(0), j) == part(b, j));
        }
        assert(smaller_at(a, b, k));
    }
    if older(a, b) {
        let k = choose|k: int| smaller_at(a, b, k);
        assert(smaller_at(a.push(0), b, k));
    }
    if older(b, a.push(0)) {
        let k = choose|k: int| smaller_at(b, a.push(0), k);
        assert forall|j: int| 0 <= j < k implies part(b, j) == part(a, j) by {
            assert(part(b, j) == part(a.push(0), j));
        }
        assert(smaller_at(b, a, k));
    }
    if older(b, a) {
        let k = choose|k: int| smaller_at(b, a, k);
        assert(smaller_at(b, a.push(0), k));
    }
}

/// What forbids the application on the operating system, if anything.
pub open spec fn fault(
    platform: Seq<char>,
    current: Seq<char>,
    minimum: Seq<char>,
    application: Seq<char>,
) -> Option<CompatibilityErrorView> {
    match parsed(current) {
        Err(error) => Some(error),
        Ok(have) => match parsed(minimum) {
            Err(error) => Some(error),
            Ok(want) => if older(have, want) {
                Some(
                    CompatibilityErrorView::Unsupported(
                        UnsupportedOsVersionView {
                            platform,
                            current_version: current,
                            minimum_version: minimum,
                            application,
                        },
                    ),
                )
            } else {
                None
            },
        },
    }
}

/// Makes sure that the operating system is recent enough for the application. Versions that are no
/// versions are refused.
pub fn ensure_supported(
    platform: &str,
    current_version: &str,
    minimum_version: &str,
    application: &str,
) -> (res: Result<(), CompatibilityError>)
    ensures
        match res {
            Ok(()) => fault(platform@, current_version@, minimum_version@, application@) is None,
            Err(error) => fault(platform@, current_version@, minimum_version@, application@)
                == Some(error.deep_view()),
        },
{
    let current = parse(current_version)?;
    let minimum = parse(minimum_version)?;
    if is_older(&current, &minimum) {
        return Err(
            CompatibilityError::Unsupported(
                UnsupportedOsVersion {
                    platform: platform.to_string(),
                    current_version: current_version.to_string(),
                    minimum_version: minimum_version.to_string(),
                    application: application.to_string(),
                },
            ),
        );
    }
    Ok(())
}

/// Makes sure that the text is a version.
pub fn validate_version(value: &str) -> (res: Result<(), CompatibilityError>)
    ensures
        match res {
            Ok(()) => parsed(value@) is Ok,
            Err(error) => parsed(value@) == Err::<Seq<u64>, CompatibilityErrorView>(
                error.deep_view(),
            ),
        },
{
    match parse(value) {
        Ok(_) => Ok(()),
        Err(error) => Err(error),
    }
}

/// The operating system that is too old, where that is the error.
pub fn unsupported_os_version(error: &CompatibilityError) -> (res: Option<&UnsupportedOsVersion>)
    ensures
        match res {
            Some(found) => error.deep_view() == CompatibilityErrorView::Unsupported(
                found.deep_view(),
            ),
            None => !(error.deep_view() is Unsupported),
        },
{
    match error {
        CompatibilityError::Unsupported(found) => Some(found),
        _ => None,
    }
}

/// Whether a message speaks of an operating system that is too old.
pub fn message_is_unsupported_os_version(message: &str) -> (res: bool)
    ensures
        res == text::holds(message@, ERROR_CODE_UNSUPPORTED_OS_VERSION@),
{
    text::contains(message, ERROR_CODE_UNSUPPORTED_OS_VERSION)
}

/// The message of an operating system that is too old is known by its code.
pub proof fn unsupported_message_holds_its_code(error: UnsupportedOsVersionView)
    ensures
        text::holds(error.text(), ERROR_CODE_UNSUPPORTED_OS_VERSION@),
{
    let code = ERROR_CODE_UNSUPPORTED_OS_VERSION@;
    let whole = error.text();
    assert(whole.subrange(0, code.len() as int) =~= code);
    assert(text::stands_at(whole, code, 0));
}

/// The version of macOS, from the end of the command that tells it: whether it ended well, what it
/// wrote, and what it wrote as errors.
pub open spec fn told_version(success: bool, output: Seq<char>, errors: Seq<char>) -> Result<
    Seq<char>,
    CompatibilityErrorView,
> {
    let version = text::trimmed(output);
    if !success {
        Err(CompatibilityErrorView::Unread(text::trimmed(errors)))
    } else {
        match parsed(version) {
            Ok(_) => Ok(version),
            Err(error) => Err(error),
        }
    }
}

/// The version of macOS, from the end of the command that tells it.
pub fn current_macos_version(success: bool, output: &str, errors: &str) -> (res: Result<
    String,
    CompatibilityError,
>)
    ensures
        match res {
            Ok(version) => told_version(success, output@, errors@) == Ok::<
                Seq<char>,
                CompatibilityErrorView,
            >(version@),
            Err(error) => told_version(success, output@, errors@) == Err::<
                Seq<char>,
                CompatibilityErrorView,
            >(error.deep_view()),
        },
{
    if !success {
        return Err(CompatibilityError::Unread(text::trim(errors)));
    }
    let version = text::trim(output);
    match parse(version.as_str()) {
        Ok(_) => Ok(version),
        Err(error) => Err(error),
    }
}

} // verus!
