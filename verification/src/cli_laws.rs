//! How command lines are understood.
use crate::cli;
use crate::cli::{CliCommandView, CliErrorView, ParsedArgsView};
use crate::json_compat;
use crate::text;
use vstd::prelude::*;

verus! {

/// Whether the text holds no such character.
pub open spec fn lacks(s: Seq<char>, c: char) -> bool {
    forall|i: int| 0 <= i < s.len() ==> #[trigger] s[i] != c
}

/// A text is split at its first separator, and not at another: joining the parts gives it back, and
/// the first part holds no separator. One without a separator is all first part.
pub proof fn split_is_at_the_first_separator(a: Seq<char>, separator: char, b: Seq<char>)
    requires
        lacks(a, separator),
    ensures
        cli::before_first(a.push(separator) + b, separator) == a,
        cli::after_first(a.push(separator) + b, separator) == b,
        cli::before_first(a, separator) == a,
        cli::after_first(a, separator) == Seq::<char>::empty(),
    decreases a.len(),
{
    let whole = a.push(separator) + b;
    if a.len() == 0 {
        assert(whole[0] == separator);
        assert(whole.skip(1) =~= b);
        assert(a =~= Seq::<char>::empty());
    } else {
        let rest = a.skip(1);
        assert forall|i: int| 0 <= i < rest.len() implies #[trigger] rest[i] != separator by {
            assert(rest[i] == a[i + 1]);
        }
        split_is_at_the_first_separator(rest, separator, b);
        assert(whole[0] == a[0]);
        assert(whole.skip(1) =~= rest.push(separator) + b);
        assert(seq![a[0]] + rest =~= a);
    }
}

/// How a name in words becomes one word: what holds no dash stays; a dash goes away, and the letter
/// behind it becomes a capital one.
pub proof fn dashes_become_capitals(a: Seq<char>, c: char)
    requires
        c != '-',
    ensures
        lacks(a, '-') ==> cli::camel(a) == a,
        cli::camel(a.push('-')) == cli::camel(a),
        cli::camel(a.push('-').push(c)) == cli::camel(a).push(
            if 'a' <= c && c <= 'z' {
                (c as u32 - 32) as char
            } else {
                c
            },
        ),
        a.len() > 0 && a.last() != '-' ==> cli::camel(a.push(c)) == cli::camel(a).push(c),
    decreases a.len(),
{
    assert(a.push('-').drop_last() =~= a);
    assert(a.push('-').push(c).drop_last() =~= a.push('-'));
    assert(a.push(c).drop_last() =~= a);
    if a.len() > 0 && lacks(a, '-') {
        let front = a.drop_last();
        assert forall|i: int| 0 <= i < front.len() implies #[trigger] front[i] != '-' by {
            assert(front[i] == a[i]);
        }
        dashes_become_capitals(front, c);
        assert(a[a.len() - 1] != '-');
        if a.len() >= 2 {
            assert(a[a.len() - 2] != '-');
        }
        assert(front.push(a.last()) =~= a);
    } else if a.len() == 0 {
        assert(a =~= Seq::<char>::empty());
    }
}

/// What is understood of a command line so far does not depend on what follows.
proof fn rest_goes_on(parsed: ParsedArgsView, front: Seq<Seq<char>>, more: Seq<Seq<char>>)
    requires
        cli::with_rest(parsed, front) is Ok,
    ensures
        cli::with_rest(parsed, front + more) == cli::with_rest(
            cli::with_rest(parsed, front)->Ok_0,
            more,
        ),
    decreases front.len(),
{
    if front.len() == 0 {
        assert(front + more =~= more);
    } else {
        assert((front + more)[0] == front[0]);
        assert((front + more).skip(1) =~= front.skip(1) + more);
        if !text::has_prefix(front[0], "--"@) {
            rest_goes_on(parsed, front.skip(1), more);
        } else {
            let raw = front[0].skip(2);
            let key = cli::camel(cli::before_first(raw, '='));
            let inline = cli::after_first(raw, '=');
            if cli::is_flag(key) {
                rest_goes_on(cli::with_flag(parsed, key), front.skip(1), more);
            } else if inline.len() > 0 {
                rest_goes_on(cli::with_value(parsed, key, inline), front.skip(1), more);
            } else {
                assert((front + more)[1] == front[1]);
                assert((front + more).skip(2) =~= front.skip(2) + more);
                rest_goes_on(cli::with_value(parsed, key, front[1]), front.skip(2), more);
            }
        }
    }
}

/// Whether the first says of one more option with a value than the second, and of nothing else.
pub open spec fn adds_value(
    after: ParsedArgsView,
    before: ParsedArgsView,
    name: Seq<char>,
    value: Seq<char>,
) -> bool {
    &&& after.command == before.command
    &&& after.flags == before.flags
    &&& after.values.contains_key(seq![name]) && after.values[seq![name]] == value
    &&& forall|other: Seq<char>| other != name ==> (after.values.contains_key(#[trigger] seq![other])
        <==> before.values.contains_key(seq![other])) && (before.values.contains_key(seq![other])
        ==> after.values[seq![other]] == before.values[seq![other]])
}

/// An option counts wherever it stands, its value behind an equals sign or as the next argument, and
/// the last of several counts: a command line that is understood and goes on with one more says that
/// and what it said of everything else.
pub proof fn options_can_be_added(
    parsed: ParsedArgsView,
    front: Seq<Seq<char>>,
    name: Seq<char>,
    value: Seq<char>,
)
    requires
        cli::with_rest(parsed, front) is Ok,
        lacks(name, '-'),
        lacks(name, '='),
        name != "daemon"@,
        name != "help"@,
        name != "version"@,
    ensures
        ({
            let said = cli::with_rest(parsed, front)->Ok_0;
            let joined = cli::with_rest(parsed, front.push("--"@ + name + "="@ + value));
            let apart = cli::with_rest(parsed, front.push("--"@ + name).push(value));
            &&& value.len() > 0 ==> joined is Ok && adds_value(joined->Ok_0, said, name, value)
            &&& apart is Ok && adds_value(apart->Ok_0, said, name, value)
        }),
{
    reveal_strlit("--");
    reveal_strlit("=");
    let said = cli::with_rest(parsed, front)->Ok_0;
    let one = "--"@ + name + "="@ + value;
    let bare = "--"@ + name;
    split_is_at_the_first_separator(name, '=', value);
    dashes_become_capitals(name, 'a');
    assert(one.take(2) =~= "--"@);
    assert(one.skip(2) =~= name.push('=') + value);
    assert(bare.take(2) =~= "--"@);
    assert(bare.skip(2) =~= name);
    rest_goes_on(parsed, front, seq![one]);
    assert(front + seq![one] =~= front.push(one));
    assert(seq![one].skip(1) =~= Seq::<Seq<char>>::empty());
    let two = seq![bare, value];
    rest_goes_on(parsed, front, two);
    assert(front + two =~= front.push(bare).push(value));
    assert(two.skip(2) =~= Seq::<Seq<char>>::empty());
    let after = cli::with_value(said, name, value);
    assert(adds_value(after, said, name, value)) by {
        assert forall|other: Seq<char>| other != name implies (after.values.contains_key(
            #[trigger] seq![other],
        ) <==> said.values.contains_key(seq![other])) && (said.values.contains_key(seq![other])
            ==> after.values[seq![other]] == said.values[seq![other]]) by {
            assert(seq![other][0] == other);
            assert(seq![name][0] == name);
        }
    }
    assert(cli::with_rest(said, seq![one]) == if value.len() > 0 {
        cli::with_rest(after, seq![one].skip(1))
    } else {
        Err::<ParsedArgsView, Seq<char>>(one.skip(2))
    });
    assert(two[1] == value);
    assert(cli::with_rest(said, two) == cli::with_rest(after, two.skip(2)));
}

/// The options without a value are set wherever they stand, and take no argument; an argument that is
/// no option says nothing.
pub proof fn flags_take_no_argument(
    parsed: ParsedArgsView,
    front: Seq<Seq<char>>,
    more: Seq<Seq<char>>,
    name: Seq<char>,
    other: Seq<char>,
)
    requires
        cli::with_rest(parsed, front) is Ok,
        name == "daemon"@ || name == "help"@ || name == "version"@,
        other.len() < 2 || other[0] != '-' || other[1] != '-',
    ensures
        ({
            let said = cli::with_rest(parsed, front)->Ok_0;
            &&& cli::with_rest(parsed, front.push("--"@ + name) + more) == cli::with_rest(
                ParsedArgsView { flags: said.flags.insert(name, true), ..said },
                more,
            )
            &&& cli::with_rest(parsed, front.push(other) + more) == cli::with_rest(said, more)
        }),
{
    reveal_strlit("--");
    reveal_strlit("daemon");
    reveal_strlit("help");
    reveal_strlit("version");
    let said = cli::with_rest(parsed, front)->Ok_0;
    let bare = "--"@ + name;
    assert(lacks(name, '-') && lacks(name, '='));
    split_is_at_the_first_separator(name, '=', seq![]);
    dashes_become_capitals(name, 'a');
    assert(bare.take(2) =~= "--"@);
    assert(bare.skip(2) =~= name);
    rest_goes_on(parsed, front, seq![bare] + more);
    assert(front + (seq![bare] + more) =~= front.push(bare) + more);
    assert((seq![bare] + more).skip(1) =~= more);
    rest_goes_on(parsed, front, seq![other] + more);
    assert(front + (seq![other] + more) =~= front.push(other) + more);
    assert((seq![other] + more).skip(1) =~= more);
    if text::has_prefix(other, "--"@) {
        assert(other.take(2)[0] == other[0] && other.take(2)[1] == other[1]);
    }
}

/// A command line is refused for a missing value only where the last argument is an option that needs
/// one; that one is named.
pub proof fn only_the_last_option_can_lack_its_value(args: Seq<Seq<char>>)
    ensures
        cli::parsed_args(args) matches Err(raw) ==> args.len() > 1 && args.last() == "--"@ + raw
            && !cli::is_flag(cli::camel(cli::before_first(raw, '='))) && cli::after_first(raw, '=').len()
            == 0,
{
    let bare = ParsedArgsView {
        command: if args.len() > 0 {
            args[0]
        } else {
            "help"@
        },
        values: json_compat::no_texts(),
        flags: json_compat::no_flags(),
    };
    if args.len() > 0 {
        lacking_option_is_last(bare, args.skip(1));
        if args.len() > 1 {
            assert(args.skip(1).last() == args.last());
        }
    }
}

/// The option whose value is missing is the last argument.
proof fn lacking_option_is_last(parsed: ParsedArgsView, args: Seq<Seq<char>>)
    ensures
        cli::with_rest(parsed, args) matches Err(raw) ==> args.len() > 0 && args.last() == "--"@ + raw
            && !cli::is_flag(cli::camel(cli::before_first(raw, '='))) && cli::after_first(raw, '=').len()
            == 0,
    decreases args.len(),
{
    reveal_strlit("--");
    if args.len() > 0 {
        if args.len() > 1 {
            assert(args.skip(1).last() == args.last());
        }
        if args.len() > 2 {
            assert(args.skip(2).last() == args.last());
        }
        if !text::has_prefix(args[0], "--"@) {
            lacking_option_is_last(parsed, args.skip(1));
        } else {
            let raw = args[0].skip(2);
            assert("--"@ + raw =~= args[0]);
            let key = cli::camel(cli::before_first(raw, '='));
            let inline = cli::after_first(raw, '=');
            if cli::is_flag(key) {
                lacking_option_is_last(cli::with_flag(parsed, key), args.skip(1));
            } else if inline.len() > 0 {
                lacking_option_is_last(cli::with_value(parsed, key, inline), args.skip(1));
            } else if args.len() >= 2 {
                lacking_option_is_last(cli::with_value(parsed, key, args[1]), args.skip(2));
            }
        }
    }
}

/// Reading a command line changes neither its first argument nor what was said before of options that
/// do not occur.
proof fn command_stays(parsed: ParsedArgsView, args: Seq<Seq<char>>)
    ensures
        cli::with_rest(parsed, args) matches Ok(said) ==> said.command == parsed.command,
    decreases args.len(),
{
    if args.len() > 0 {
        if !text::has_prefix(args[0], "--"@) {
            command_stays(parsed, args.skip(1));
        } else {
            let raw = args[0].skip(2);
            let key = cli::camel(cli::before_first(raw, '='));
            let inline = cli::after_first(raw, '=');
            if cli::is_flag(key) {
                command_stays(cli::with_flag(parsed, key), args.skip(1));
            } else if inline.len() > 0 {
                command_stays(cli::with_value(parsed, key, inline), args.skip(1));
            } else if args.len() >= 2 {
                command_stays(cli::with_value(parsed, key, args[1]), args.skip(2));
            }
        }
    }
}

/// The first argument is the command, and a line without one asks for help; only the option for the
/// version overrides it.
pub proof fn first_argument_is_the_command(args: Seq<Seq<char>>)
    ensures
        cli::parsed_args(args) matches Ok(parsed) ==> parsed.command == if parsed.flags.contains_key(
            "version"@,
        ) && parsed.flags["version"@] {
            "--version"@
        } else if args.len() == 0 {
            "help"@
        } else {
            args[0]
        },
{
    let bare = ParsedArgsView {
        command: if args.len() > 0 {
            args[0]
        } else {
            "help"@
        },
        values: json_compat::no_texts(),
        flags: json_compat::no_flags(),
    };
    if args.len() > 0 {
        command_stays(bare, args.skip(1));
    } else {
        command_stays(bare, args);
    }
}

/// What each command asks for; every other one is refused by its name. Starting and stopping go by the
/// same options.
pub proof fn commands_are_told_apart(
    args: Seq<Seq<char>>,
    env_host: Option<Seq<char>>,
    env_port: Option<Seq<char>>,
)
    requires
        cli::parsed_args(args) is Ok,
    ensures
        ({
            let command = cli::parsed_args(args)->Ok_0.command;
            let result = cli::asked(args, env_host, env_port);
            let options = cli::options_of(cli::parsed_args(args)->Ok_0, env_host, env_port);
            &&& result == Ok::<CliCommandView, CliErrorView>(CliCommandView::Version) <==> command
                == "--version"@
            &&& result == Ok::<CliCommandView, CliErrorView>(CliCommandView::Help) <==> command
                == "help"@ || command.len() == 0
            &&& result == Ok::<CliCommandView, CliErrorView>(CliCommandView::Start(options))
                <==> command == "start"@
            &&& result == Ok::<CliCommandView, CliErrorView>(CliCommandView::Status) <==> command
                == "status"@
            &&& result == Ok::<CliCommandView, CliErrorView>(CliCommandView::Stop(options))
                <==> command == "stop"@
            &&& result == Ok::<CliCommandView, CliErrorView>(CliCommandView::CredentialState)
                <==> command == "credential-state"@
            &&& result is Err ==> result == Err::<CliCommandView, CliErrorView>(
                CliErrorView::UnknownCommand(command),
            )
        }),
{
    reveal_strlit("--version");
    reveal_strlit("help");
    reveal_strlit("");
    reveal_strlit("start");
    reveal_strlit("status");
    reveal_strlit("stop");
    reveal_strlit("credential-state");
    let command = cli::parsed_args(args)->Ok_0.command;
    assert(command.len() == 0 ==> command =~= ""@);
    assert("--version"@[0] == '-');
    assert("help"@[0] == 'h');
    assert("start"@[3] == 'r');
    assert("status"@.len() == 6);
    assert("stop"@.len() == 4);
    assert("credential-state"@[0] == 'c');
}

/// Whether a text names a port, and which: digits, perhaps behind a plus sign, of a number that a port can
/// have.
pub open spec fn names_port(s: Seq<char>, port: nat) -> bool {
    port <= 65535 && exists|digits: Seq<char>| #[trigger] spells(s, digits, port)
}

/// Whether the text is the digits of the number, perhaps behind a plus sign.
pub open spec fn spells(s: Seq<char>, digits: Seq<char>, n: nat) -> bool {
    (s == digits || s == seq!['+'] + digits) && text::all_digits(digits) && text::number(digits) == n
}

/// The decimal digits of a number are digits, and name it.
pub proof fn decimals_are_numbers(n: nat)
    ensures
        text::all_digits(text::decimal(n)),
        text::number(text::decimal(n)) == n,
    decreases n,
{
    let s = text::decimal(n);
    if n < 10 {
        assert(s.drop_last() =~= Seq::<char>::empty());
        assert(text::number(s.drop_last()) == 0);
    } else {
        decimals_are_numbers(n / 10);
        assert(s.drop_last() =~= text::decimal(n / 10));
        assert forall|i: int| 0 <= i < s.len() implies text::digit(#[trigger] s[i]) by {
            if i < s.len() - 1 {
                assert(s[i] == text::decimal(n / 10)[i]);
            }
        }
    }
}

/// A port that the command line names is the one, whatever the environment says; else one that the
/// environment names; else the default one. A text that is no number that a port can have names none.
pub proof fn port_is_the_first_that_is_named(
    parsed: ParsedArgsView,
    env_host: Option<Seq<char>>,
    env_port: Option<Seq<char>>,
    port: nat,
)
    ensures
        ({
            let options = cli::options_of(parsed, env_host, env_port);
            let given = parsed.values.contains_key(seq!["port"@]);
            let value = parsed.values[seq!["port"@]];
            let none = !given || (forall|p: nat| !#[trigger] names_port(value, p));
            let unset = env_port is None || (forall|p: nat| !#[trigger] names_port(env_port->0, p));
            &&& given && names_port(value, port) ==> options.port == port
            &&& none && env_port is Some && names_port(env_port->0, port) ==> options.port == port
            &&& none && unset ==> options.port == 18110
        }),
{
    let value = parsed.values[seq!["port"@]];
    named_port_is_read(value, port);
    if env_port is Some {
        named_port_is_read(env_port->0, port);
    }
}

/// A port is read from a text exactly where it names one.
proof fn named_port_is_read(s: Seq<char>, port: nat)
    ensures
        names_port(s, port) ==> cli::port_of(Some(s)) == Some(port as u16),
        (forall|p: nat| !#[trigger] names_port(s, p)) ==> cli::port_of(Some(s)) is None,
{
    let plain = text::without_plus(s);
    if names_port(s, port) {
        let digits = choose|digits: Seq<char>| #[trigger] spells(s, digits, port);
        assert(text::digit(digits[0]));
        assert((seq!['+'] + digits).skip(1) =~= digits);
        assert(plain == digits);
    }
    if text::all_digits(plain) && text::number(plain) <= 65535 {
        if s.len() > 0 && s[0] == '+' {
            assert(seq!['+'] + plain =~= s);
        }
        assert(spells(s, plain, text::number(plain)));
        assert(names_port(s, text::number(plain)));
    }
}

/// Every port is named by its decimal digits.
pub proof fn decimals_name_ports(port: u16)
    ensures
        names_port(text::decimal(port as nat), port as nat),
{
    decimals_are_numbers(port as nat);
    assert(spells(text::decimal(port as nat), text::decimal(port as nat), port as nat));
}

/// The address is the one that the command line names, else the environment's, else the machine's own;
/// the server goes on in the background only where the option asks for it.
pub proof fn host_is_the_first_that_is_named(
    parsed: ParsedArgsView,
    env_host: Option<Seq<char>>,
    env_port: Option<Seq<char>>,
)
    ensures
        ({
            let options = cli::options_of(parsed, env_host, env_port);
            let given = parsed.values.contains_key(seq!["host"@]);
            &&& given ==> options.host == parsed.values[seq!["host"@]]
            &&& !given && env_host is Some ==> options.host == env_host->0
            &&& !given && env_host is None ==> options.host == "127.0.0.1"@
            &&& options.daemon <==> parsed.flags.contains_key("daemon"@) && parsed.flags["daemon"@]
        }),
{
}

} // verus!
