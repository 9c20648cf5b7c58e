//! The command line.
use crate::duplicate::Duplicate;
use crate::json_compat;
use crate::json_compat::{insert_flag, insert_text, member_flag, member_text, no_members};
use crate::text;
use vstd::prelude::*;

verus! {

/// The address that is listened on by default.
pub const DEFAULT_HOST: &'static str = "127.0.0.1";

/// The port that is listened on by default.
pub const DEFAULT_PORT: u16 = 18110;

/// What a command line says.
#[derive(Debug)]
pub struct ParsedArgs {
    /// The command.
    pub command: String,
    /// The options that have a value.
    pub values: serde_json::Map<String, serde_json::Value>,
    /// The options that have none.
    pub flags: serde_json::Map<String, serde_json::Value>,
}

/// The view of `ParsedArgs`.
pub struct ParsedArgsView {
    pub command: Seq<char>,
    pub values: Map<Seq<Seq<char>>, Seq<char>>,
    pub flags: Map<Seq<char>, bool>,
}

impl DeepView for ParsedArgs {
    type V = ParsedArgsView;

    open spec fn deep_view(&self) -> ParsedArgsView {
        ParsedArgsView {
            command: self.command@,
            values: json_compat::json_member_texts(self.values),
            flags: json_compat::json_member_flags(self.flags),
        }
    }
}

/// What the server is started with.
#[derive(Debug)]
pub struct ServerOptions {
    /// The address that it listens on.
    pub host: String,
    /// The port that it listens on.
    pub port: u16,
    /// Whether it goes on in the background.
    pub daemon: bool,
}

/// The view of `ServerOptions`: the same fields with their texts as characters.
pub struct ServerOptionsView {
    pub host: Seq<char>,
    pub port: u16,
    pub daemon: bool,
}

impl DeepView for ServerOptions {
    type V = ServerOptionsView;

    open spec fn deep_view(&self) -> ServerOptionsView {
        ServerOptionsView {
            host: self.host@,
            port: self.port,
            daemon: self.daemon,
        }
    }
}

impl Duplicate for ServerOptions {
    fn duplicate(&self) -> (res: Self) {
        ServerOptions {
            host: self.host.duplicate(),
            port: self.port,
            daemon: self.daemon,
        }
    }
}

/// What a command line asks for.
#[derive(Debug)]
pub enum CliCommand {
    /// To show the version.
    Version,
    /// To show the help.
    Help,
    /// To start the server.
    Start(ServerOptions),
    /// To show the state of the server.
    Status,
    /// To stop the server.
    Stop(ServerOptions),
    /// To show the profiles.
    CredentialState,
}

/// The view of `CliCommand`: the same values with their texts as characters.
pub enum CliCommandView {
    Version,
    Help,
    Start(ServerOptionsView),
    Status,
    Stop(ServerOptionsView),
    CredentialState,
}

impl DeepView for CliCommand {
    type V = CliCommandView;

    open spec fn deep_view(&self) -> CliCommandView {
        match self {
            CliCommand::Version => CliCommandView::Version,
            CliCommand::Help => CliCommandView::Help,
            CliCommand::Start(a) => CliCommandView::Start(a.deep_view()),
            CliCommand::Status => CliCommandView::Status,
            CliCommand::Stop(a) => CliCommandView::Stop(a.deep_view()),
            CliCommand::CredentialState => CliCommandView::CredentialState,
        }
    }
}

/// What precedes the first separator, or everything.
pub open spec fn before_first(s: Seq<char>, separator: char) -> Seq<char>
    decreases s.len(),
{
    if s.len() == 0 || s[0] == separator {
        Seq::empty()
    } else {
        seq![s[0]] + before_first(s.skip(1), separator)
    }
}

/// What follows the first separator, or nothing.
pub open spec fn after_first(s: Seq<char>, separator: char) -> Seq<char>
    decreases s.len(),
{
    if s.len() == 0 {
        Seq::empty()
    } else if s[0] == separator {
        s.skip(1)
    } else {
        after_first(s.skip(1), separator)
    }
}

/// The parts around the first separator, by its place.
proof fn split_at(s: Seq<char>, separator: char, at: int)
    requires
        0 <= at <= s.len(),
        forall|i: int| 0 <= i < at ==> s[i] != separator,
        at < s.len() ==> s[at] == separator,
    ensures
        before_first(s, separator) == s.take(at),
        after_first(s, separator) == if at < s.len() {
            s.skip(at + 1)
        } else {
            Seq::empty()
        },
    decreases at,
{
    if at == 0 {
        assert(s.take(0) =~= Seq::<char>::empty());
    } else {
        split_at(s.skip(1), separator, at - 1);
        assert(seq![s[0]] + s.skip(1).take(at - 1) =~= s.take(at));
        if at < s.len() {
            assert(s.skip(1).skip(at) =~= s.skip(at + 1));
        }
    }
}

/// A name in words that are joined by dashes, as words that begin with a capital letter after the
/// first.
pub open spec fn camel(s: Seq<char>) -> Seq<char>
    decreases s.len(),
{
    if s.len() == 0 {
        Seq::empty()
    } else if s.last() == '-' {
        camel(s.drop_last())
    } else if s.len() >= 2 && s[s.len() - 2] == '-' {
        camel(s.drop_last()).push(text::upper_char(s.last()))
    } else {
        camel(s.drop_last()).push(s.last())
    }
}

/// A name in words that are joined by dashes, as words that begin with a capital letter after the
/// first.
pub fn to_camel_case(name: &str) -> (res: String)
    ensures
        res@ == camel(name@),
{
    let chars = text::chars_of(name);
    let mut out = String::new();
    let mut i: usize = 0;
    assert(out@ =~= camel(chars@.take(0)));
    while i < chars.len()
        invariant
            i <= chars.len(),
            chars@ == name@,
            out@ == camel(chars@.take(i as int)),
        decreases chars.len() - i,
    {
        let c = chars[i];
        assert(chars@.take(i + 1).drop_last() =~= chars@.take(i as int));
        if c != '-' {
            if i >= 1 && chars[i - 1] == '-' {
                out.push(text::to_upper_char(c));
            } else {
                out.push(c);
            }
        }
        i = i + 1;
    }
    assert(chars@.take(i as int) =~= name@);
    out
}

/// Whether the option has no value.
pub open spec fn is_flag(key: Seq<char>) -> bool {
    key == "daemon"@ || key == "help"@ || key == "version"@
}

/// With a value for an option.
pub open spec fn with_value(parsed: ParsedArgsView, key: Seq<char>, value: Seq<char>) -> ParsedArgsView {
    ParsedArgsView {
        values: json_compat::without_member(parsed.values, key).insert(seq![key], value),
        ..parsed
    }
}

/// With an option that has no value.
pub open spec fn with_flag(parsed: ParsedArgsView, key: Seq<char>) -> ParsedArgsView {
    ParsedArgsView { flags: parsed.flags.insert(key, true), ..parsed }
}

/// What the rest of a command line adds, or the option whose value is missing. What begins with two
/// dashes is an option; its value follows an equals sign, or is the next argument.
pub open spec fn with_rest(parsed: ParsedArgsView, args: Seq<Seq<char>>) -> Result<
    ParsedArgsView,
    Seq<char>,
>
    decreases args.len(),
{
    if args.len() == 0 {
        Ok(parsed)
    } else if !text::has_prefix(args[0], "--"@) {
        with_rest(parsed, args.skip(1))
    } else {
        let raw = args[0].skip(2);
        let key = camel(before_first(raw, '='));
        let inline = after_first(raw, '=');
        if is_flag(key) {
            with_rest(with_flag(parsed, key), args.skip(1))
        } else if inline.len() > 0 {
            with_rest(with_value(parsed, key, inline), args.skip(1))
        } else if args.len() < 2 {
            Err(raw)
        } else {
            with_rest(with_value(parsed, key, args[1]), args.skip(2))
        }
    }
}

/// Whether the option without a value is there.
pub open spec fn flag_set(parsed: ParsedArgsView, key: Seq<char>) -> bool {
    parsed.flags.contains_key(key) && parsed.flags[key]
}

/// What a command line says, or the option whose value is missing. The option for the version
/// counts as a command of its own.
pub open spec fn parsed_args(args: Seq<Seq<char>>) -> Result<ParsedArgsView, Seq<char>> {
    let bare = ParsedArgsView {
        command: if args.len() > 0 {
            args[0]
        } else {
            "help"@
        },
        values: json_compat::no_texts(),
        flags: json_compat::no_flags(),
    };
    let rest = if args.len() > 0 {
        args.skip(1)
    } else {
        args
    };
    match with_rest(bare, rest) {
        Err(raw) => Err(raw),
        Ok(parsed) => if flag_set(parsed, "version"@) {
            Ok(ParsedArgsView { command: "--version"@, ..parsed })
        } else {
            Ok(parsed)
        },
    }
}

/// Why a command line is refused.
#[derive(Debug)]
pub enum CliError {
    /// An option lacks its value; the option.
    MissingValue(String),
    /// There is no such command.
    UnknownCommand(String),
}

/// The view of `CliError`.
pub enum CliErrorView {
    MissingValue(Seq<char>),
    UnknownCommand(Seq<char>),
}

impl DeepView for CliError {
    type V = CliErrorView;

    open spec fn deep_view(&self) -> CliErrorView {
        match self {
            CliError::MissingValue(raw) => CliErrorView::MissingValue(raw@),
            CliError::UnknownCommand(command) => CliErrorView::UnknownCommand(command@),
        }
    }
}

impl CliErrorView {
    /// The message of the error.
    pub open spec fn text(self) -> Seq<char> {
        match self {
            CliErrorView::MissingValue(raw) => "missing value for --"@ + raw,
            CliErrorView::UnknownCommand(command) => "unknown command: "@ + command,
        }
    }
}

impl CliError {
    /// The message of the error.
    pub fn message(&self) -> (res: String)
        ensures
            res@ == self.deep_view().text(),
    {
        match self {
            CliError::MissingValue(raw) => {
                let mut out = "missing value for --".to_string();
                out.append(raw.as_str());
                out
            },
            CliError::UnknownCommand(command) => {
                let mut out = "unknown command: ".to_string();
                out.append(command.as_str());
                out
            },
        }
    }
}

/// Where the first separator is, or the length of the text.
fn find(chars: &Vec<char>, from: usize, separator: char) -> (res: usize)
    requires
        from <= chars.len(),
    ensures
        from <= res <= chars.len(),
        forall|i: int| from <= i < res ==> chars@[i] != separator,
        res < chars.len() ==> chars@[res as int] == separator,
{
    let mut i: usize = from;
    while i < chars.len() && chars[i] != separator
        invariant
            from <= i <= chars.len(),
            forall|j: int| from <= j < i ==> chars@[j] != separator,
        decreases chars.len() - i,
    {
        i = i + 1;
    }
    i
}

/// What a command line says.
pub fn parse_args(args: &Vec<String>) -> (res: Result<ParsedArgs, CliError>)
    ensures
        match res {
            Ok(parsed) => parsed_args(args.deep_view()) == Ok::<ParsedArgsView, Seq<char>>(
                parsed.deep_view(),
            ),
            Err(error) => parsed_args(args.deep_view()) matches Err(raw) && error.deep_view()
                == CliErrorView::MissingValue(raw),
        },
{
    let ghost all = args.deep_view();
    let command = if args.len() > 0 {
        args[0].clone()
    } else {
        "help".to_string()
    };
    let mut parsed = ParsedArgs { command, values: no_members(), flags: no_members() };
    let ghost bare = parsed.deep_view();
    let ghost whole = if all.len() > 0 {
        all.skip(1)
    } else {
        all
    };
    let mut index: usize = 1;
    proof {
        if all.len() == 0 {
            assert(all.skip(0) =~= all);
        }
    }
    while index < args.len()
        invariant
            1 <= index,
            all == args.deep_view(),
            whole == if all.len() > 0 {
                all.skip(1)
            } else {
                all
            },
            bare.command == if all.len() > 0 {
                all[0]
            } else {
                "help"@
            },
            bare.values == json_compat::no_texts(),
            bare.flags == json_compat::no_flags(),
            index <= args.len() || all.len() == 0,
            with_rest(bare, whole) == with_rest(
                parsed.deep_view(),
                if index <= all.len() {
                    all.skip(index as int)
                } else {
                    Seq::empty()
                },
            ),
        decreases args.len() - index,
    {
        let ghost rest = all.skip(index as int);
        let ghost before = parsed.deep_view();
        assert(rest[0] == args@[index as int]@);
        assert(rest.skip(1) =~= all.skip(index + 1));
        let arg = args[index].as_str();
        if !text::starts_with(arg, "--") {
            index = index + 1;
            continue;
        }
        let chars = text::chars_of(arg);
        proof {
            reveal_strlit("--");
        }
        let at = find(&chars, 2, '=');
        let ghost raw = rest[0].skip(2);
        proof {
            assert forall|i: int| 0 <= i < at - 2 implies raw[i] != '=' by {
                assert(chars@[i + 2] != '=');
            }
            split_at(raw, '=', at - 2);
        }
        let name = text::text_of(&chars, 2, at);
        assert(name@ =~= before_first(raw, '='));
        let key = to_camel_case(name.as_str());
        if text::same(key.as_str(), "daemon") || text::same(key.as_str(), "help") || text::same(
            key.as_str(),
            "version",
        ) {
            insert_flag(&mut parsed.flags, key.as_str(), true);
            assert(parsed.deep_view() == with_flag(before, key@));
            index = index + 1;
            continue;
        }
        let inline = if at < chars.len() {
            text::text_of(&chars, at + 1, chars.len())
        } else {
            String::new()
        };
        assert(inline@ =~= after_first(raw, '='));
        if !inline.as_str().is_empty() {
            insert_text(&mut parsed.values, key.as_str(), inline.as_str());
            assert(parsed.deep_view() == with_value(before, key@, inline@));
            index = index + 1;
            continue;
        }
        if index + 1 >= args.len() {
            let raw_text = text::text_of(&chars, 2, chars.len());
            assert(raw_text@ =~= raw);
            return Err(CliError::MissingValue(raw_text));
        }
        insert_text(&mut parsed.values, key.as_str(), args[index + 1].as_str());
        assert(rest[1] == args@[index + 1]@);
        assert(parsed.deep_view() == with_value(before, key@, rest[1]));
        assert(rest.skip(2) =~= all.skip(index + 2));
        index = index + 2;
    }
    proof {
        if index <= all.len() {
            assert(all.skip(index as int) =~= Seq::<Seq<char>>::empty());
        }
    }
    let shows_version = match member_flag(&parsed.flags, "version") {
        Some(flag) => flag,
        None => false,
    };
    if shows_version {
        parsed.command = "--version".to_string();
    }
    Ok(parsed)
}

/// A port as a text gives it.
pub open spec fn port_of(value: Option<Seq<char>>) -> Option<u16> {
    match value {
        Some(value) => {
            let digits = text::without_plus(value);
            if text::all_digits(digits) && text::number(digits) <= 65535 {
                Some(text::number(digits) as u16)
            } else {
                None
            }
        },
        None => None,
    }
}

/// The first that is there.
pub open spec fn or_else<T>(first: Option<T>, second: Option<T>) -> Option<T> {
    match first {
        Some(value) => Some(value),
        None => second,
    }
}

/// What the server is started with: what the command line says, or else the environment, or else
/// the default. A port that is no port counts as none.
pub open spec fn options_of(
    parsed: ParsedArgsView,
    env_host: Option<Seq<char>>,
    env_port: Option<Seq<char>>,
) -> ServerOptionsView {
    let host = or_else(json_compat::text_at(parsed.values, seq!["host"@]), env_host);
    let port = or_else(
        port_of(json_compat::text_at(parsed.values, seq!["port"@])),
        port_of(env_port),
    );
    ServerOptionsView {
        host: match host {
            Some(host) => host,
            None => DEFAULT_HOST@,
        },
        port: match port {
            Some(port) => port,
            None => DEFAULT_PORT,
        },
        daemon: flag_set(parsed, "daemon"@),
    }
}

/// A port as a text gives it.
fn parse_port(value: &Option<String>) -> (res: Option<u16>)
    ensures
        res == port_of(text::opt_view(*value)),
{
    match value {
        Some(value) => text::parse_u16(value.as_str()),
        None => None,
    }
}

/// What the server is started with.
pub fn server_options(
    parsed: &ParsedArgs,
    env_host: &Option<String>,
    env_port: &Option<String>,
) -> (res: ServerOptions)
    ensures
        res.deep_view() == options_of(
            parsed.deep_view(),
            text::opt_view(*env_host),
            text::opt_view(*env_port),
        ),
{
    let host = match member_text(&parsed.values, "host") {
        Some(host) => host,
        None => match env_host {
            Some(host) => host.clone(),
            None => DEFAULT_HOST.to_string(),
        },
    };
    let given = member_text(&parsed.values, "port");
    let port: u16 = match parse_port(&given) {
        Some(port) => port,
        None => match parse_port(env_port) {
            Some(port) => port,
            None => DEFAULT_PORT,
        },
    };
    let daemon = match member_flag(&parsed.flags, "daemon") {
        Some(flag) => flag,
        None => false,
    };
    ServerOptions { host, port, daemon }
}

/// What a command line asks for, from what it says.
pub open spec fn command_of(
    parsed: ParsedArgsView,
    env_host: Option<Seq<char>>,
    env_port: Option<Seq<char>>,
) -> Result<CliCommandView, CliErrorView> {
    let options = options_of(parsed, env_host, env_port);
    if parsed.command == "--version"@ {
        Ok(CliCommandView::Version)
    } else if parsed.command == "help"@ || parsed.command == ""@ {
        Ok(CliCommandView::Help)
    } else if parsed.command == "start"@ {
        Ok(CliCommandView::Start(options))
    } else if parsed.command == "status"@ {
        Ok(CliCommandView::Status)
    } else if parsed.command == "stop"@ {
        Ok(CliCommandView::Stop(options))
    } else if parsed.command == "credential-state"@ {
        Ok(CliCommandView::CredentialState)
    } else {
        Err(CliErrorView::UnknownCommand(parsed.command))
    }
}

/// What a command line asks for.
pub open spec fn asked(
    args: Seq<Seq<char>>,
    env_host: Option<Seq<char>>,
    env_port: Option<Seq<char>>,
) -> Result<CliCommandView, CliErrorView> {
    match parsed_args(args) {
        Err(raw) => Err(CliErrorView::MissingValue(raw)),
        Ok(parsed) => command_of(parsed, env_host, env_port),
    }
}

/// What a command line asks for.
pub fn run(args: &Vec<String>, env_host: &Option<String>, env_port: &Option<String>) -> (res: Result<
    CliCommand,
    CliError,
>)
    ensures
        match res {
            Ok(command) => asked(
                args.deep_view(),
                text::opt_view(*env_host),
                text::opt_view(*env_port),
            ) == Ok::<CliCommandView, CliErrorView>(command.deep_view()),
            Err(error) => asked(
                args.deep_view(),
                text::opt_view(*env_host),
                text::opt_view(*env_port),
            ) == Err::<CliCommandView, CliErrorView>(error.deep_view()),
        },
{
    let parsed = parse_args(args)?;
    let command = parsed.command.as_str();
    if text::same(command, "--version") {
        Ok(CliCommand::Version)
    } else if text::same(command, "help") || text::same(command, "") {
        Ok(CliCommand::Help)
    } else if text::same(command, "start") {
        Ok(CliCommand::Start(server_options(&parsed, env_host, env_port)))
    } else if text::same(command, "status") {
        Ok(CliCommand::Status)
    } else if text::same(command, "stop") {
        Ok(CliCommand::Stop(server_options(&parsed, env_host, env_port)))
    } else if text::same(command, "credential-state") {
        Ok(CliCommand::CredentialState)
    } else {
        Err(CliError::UnknownCommand(parsed.command))
    }
}

} // verus!
