use vstd::prelude::*;
use vstd::string::*;

use crate::error::{ConfigError, ConfigFault};
use crate::text::{lower_of, lowercase, same_text};

verus! {

/// The program's name, as the configuration reports it.
pub const PROGRAM_NAME: &'static str = "ironcladserver";

/// The usage text.
pub const HELP_TEXT: &'static str = "
    Usage: ironcladserver COMMAND [FLAGS] [OPTIONS]

    Commands:
      help              Show this help message and exit
      start             Start the web server
      version           Show program's version number and exit

    Options ('*' means mandatory):
      -ip               * Input IP address of the web server, e.g. '-ip 127.0.0.1'
      -p                * Input listening port of the web server, e.g. '-p 8080'

    Flags:
      --notls           Does not run TLS.
      --v, --verbose    Outputs a lot more info to the console!

    Usage example:
      ironcladserver start -ip 127.0.0.1 -p 7878
      ironcladserver start -ip 127.0.0.1 -p 7878 --notls
      ironcladserver help
      ironcladserver version
";

/// The version line.
pub const VERSION_TEXT: &'static str = "Version: 0.2.0.";

/// The answer to `help`.
pub struct HelpMenu {}

/// The answer to `version`.
pub struct Version {}

impl HelpMenu {
    /// The usage text that `help` shows.
    pub fn text() -> (r: &'static str)
        ensures
            r == HELP_TEXT,
    {
        HELP_TEXT
    }
}

impl Version {
    /// The version line that `version` shows.
    pub fn text() -> (r: &'static str)
        ensures
            r == VERSION_TEXT,
    {
        VERSION_TEXT
    }
}

/// The commands that the program takes.
#[derive(Debug, Clone, Copy, PartialEq, Eq, Structural)]
pub enum ServerCommand {
    Help,
    Start,
    Version,
}

/// The options and flags that `start` takes.
#[derive(Debug, Clone, Copy, PartialEq, Eq, Hash, Structural)]
pub enum ServerConfigArguments {
    IpAddress,
    Port,
    Tls,
    Verbose,
}

/// The options and flags given to `start`, each at most once.
#[derive(Debug)]
pub struct ArgsOpts {
    pub ip_address: Option<String>,
    pub port: Option<String>,
    pub tls: Option<String>,
    pub verbose: Option<String>,
}

/// The options and flags as characters.
pub struct OptsModel {
    pub ip_address: Option<Seq<char>>,
    pub port: Option<Seq<char>>,
    pub tls: Option<Seq<char>>,
    pub verbose: Option<Seq<char>>,
}

impl View for ArgsOpts {
    type V = OptsModel;

    open spec fn view(&self) -> OptsModel {
        OptsModel {
            ip_address: self.ip_address.deep_view(),
            port: self.port.deep_view(),
            tls: self.tls.deep_view(),
            verbose: self.verbose.deep_view(),
        }
    }
}

/// No option or flag given.
pub open spec fn no_opts() -> OptsModel {
    OptsModel { ip_address: None, port: None, tls: None, verbose: None }
}

/// The value given for an option or flag.
pub open spec fn opts_get(m: OptsModel, key: ServerConfigArguments) -> Option<Seq<char>> {
    match key {
        ServerConfigArguments::IpAddress => m.ip_address,
        ServerConfigArguments::Port => m.port,
        ServerConfigArguments::Tls => m.tls,
        ServerConfigArguments::Verbose => m.verbose,
    }
}

/// The options and flags with one more value.
pub open spec fn opts_set(m: OptsModel, key: ServerConfigArguments, v: Seq<char>) -> OptsModel {
    match key {
        ServerConfigArguments::IpAddress => OptsModel { ip_address: Some(v), ..m },
        ServerConfigArguments::Port => OptsModel { port: Some(v), ..m },
        ServerConfigArguments::Tls => OptsModel { tls: Some(v), ..m },
        ServerConfigArguments::Verbose => OptsModel { verbose: Some(v), ..m },
    }
}

/// The text of each argument.
pub open spec fn texts(args: Seq<String>) -> Seq<Seq<char>> {
    args.map_values(|a: String| a@)
}

/// The option or flag that a lowercase word names.
pub open spec fn argument_of(word: Seq<char>) -> Option<ServerConfigArguments> {
    if word == "-ip"@ {
        Some(ServerConfigArguments::IpAddress)
    } else if word == "-p"@ {
        Some(ServerConfigArguments::Port)
    } else if word == "--notls"@ {
        Some(ServerConfigArguments::Tls)
    } else if word == "--v"@ || word == "--verbose"@ {
        Some(ServerConfigArguments::Verbose)
    } else {
        None
    }
}

/// Options take the next argument as their value; flags take none.
pub open spec fn takes_value(key: ServerConfigArguments) -> bool {
    key == ServerConfigArguments::IpAddress || key == ServerConfigArguments::Port
}

/// The value that a flag stands for.
pub open spec fn flag_value_spec(key: ServerConfigArguments) -> &'static str {
    if key == ServerConfigArguments::Tls {
        "false"
    } else {
        "true"
    }
}

/// The complaint about an option or flag given twice.
pub open spec fn repeated_message_spec(key: ServerConfigArguments) -> &'static str {
    match key {
        ServerConfigArguments::IpAddress => "ip address option '-ip' is allowed once",
        ServerConfigArguments::Port => "port option '-p' is allowed once",
        ServerConfigArguments::Tls => "flag '-notls' is allowed once",
        ServerConfigArguments::Verbose => "flag '--v' or '--verbose' is allowed once",
    }
}

/// The complaint about an option given last, without its value.
pub open spec fn missing_value_message_spec(key: ServerConfigArguments) -> &'static str {
    if key == ServerConfigArguments::IpAddress {
        "ip address option '-ip' needs a value"
    } else {
        "port option '-p' needs a value"
    }
}

/// The complaint about a word that is no option or flag.
pub open spec fn unknown_option_message() -> &'static str {
    "option or flag not available."
}

/// Reads the options and flags from `args[i..]` into `m`: the options and
/// flags read, and the fault that stopped the reading, if any. Words are
/// matched in lowercase; values are kept as given.
pub open spec fn parse_spec(args: Seq<Seq<char>>, i: nat, m: OptsModel) -> (OptsModel, Option<
    ConfigFault,
>)
    decreases args.len() - i,
{
    if i >= args.len() {
        (m, None)
    } else {
        match argument_of(lower_of(args[i as int])) {
            None => (m, Some(ConfigFault::UnknownCommand(unknown_option_message()@))),
            Some(key) => if opts_get(m, key) is Some {
                (m, Some(ConfigFault::ParseError(repeated_message_spec(key)@)))
            } else if !takes_value(key) {
                parse_spec(args, i + 1, opts_set(m, key, flag_value_spec(key)@))
            } else if i + 1 >= args.len() {
                (m, Some(ConfigFault::ParseError(missing_value_message_spec(key)@)))
            } else {
                parse_spec(args, i + 2, opts_set(m, key, args[i + 1 as int]))
            },
        }
    }
}

/// The command that a lowercase word names.
pub open spec fn command_of(word: Seq<char>) -> Option<ServerCommand> {
    if word == "help"@ {
        Some(ServerCommand::Help)
    } else if word == "start"@ {
        Some(ServerCommand::Start)
    } else if word == "version"@ {
        Some(ServerCommand::Version)
    } else {
        None
    }
}

/// The configuration that a command line asks for: its command and, for
/// `start`, its options and flags, of which `-ip` and `-p` are mandatory.
pub open spec fn config_spec(args: Seq<Seq<char>>) -> Result<
    (ServerCommand, Option<OptsModel>),
    ConfigFault,
> {
    if args.len() <= 1 {
        Err(ConfigFault::NotEnoughArguments)
    } else {
        match command_of(lower_of(args[1])) {
            None => Err(ConfigFault::UnknownCommand(args[1])),
            Some(ServerCommand::Start) => {
                let (m, fault) = parse_spec(args, 2, no_opts());
                match fault {
                    Some(e) => Err(e),
                    None => if m.ip_address is None {
                        Err(ConfigFault::MissingOption("-ip"@))
                    } else if m.port is None {
                        Err(ConfigFault::MissingOption("-p"@))
                    } else {
                        Ok((ServerCommand::Start, Some(m)))
                    },
                }
            },
            Some(c) => Ok((c, None)),
        }
    }
}

/// A configuration as its command and options.
pub open spec fn config_view(r: Result<Config, ConfigError>) -> Result<
    (ServerCommand, Option<OptsModel>),
    ConfigFault,
> {
    match r {
        Ok(c) => Ok(
            (
                c.command,
                match c.args_opts_map {
                    Some(a) => Some(a@),
                    None => None,
                },
            ),
        ),
        Err(e) => Err(e@),
    }
}

impl ArgsOpts {
    /// No option or flag given.
    pub fn new() -> (r: ArgsOpts)
        ensures
            r@ == no_opts(),
    {
        ArgsOpts { ip_address: None, port: None, tls: None, verbose: None }
    }

    /// The value given for an option or flag.
    pub fn get(&self, key: &ServerConfigArguments) -> (r: Option<&String>)
        ensures
            match r {
                Some(v) => opts_get(self@, *key) == Some(v@),
                None => opts_get(self@, *key) is None,
            },
    {
        match key {
            ServerConfigArguments::IpAddress => self.ip_address.as_ref(),
            ServerConfigArguments::Port => self.port.as_ref(),
            ServerConfigArguments::Tls => self.tls.as_ref(),
            ServerConfigArguments::Verbose => self.verbose.as_ref(),
        }
    }

    /// Whether a value was given for an option or flag.
    pub fn contains_key(&self, key: &ServerConfigArguments) -> (r: bool)
        ensures
            r == opts_get(self@, *key) is Some,
    {
        self.get(key).is_some()
    }

    /// Records the value of an option or flag.
    pub fn insert(&mut self, key: ServerConfigArguments, value: String)
        ensures
            final(self)@ == opts_set(old(self)@, key, value@),
    {
        match key {
            ServerConfigArguments::IpAddress => self.ip_address = Some(value),
            ServerConfigArguments::Port => self.port = Some(value),
            ServerConfigArguments::Tls => self.tls = Some(value),
            ServerConfigArguments::Verbose => self.verbose = Some(value),
        }
    }
}

/// The option or flag that a lowercase word names.
fn argument_of_word(word: &str) -> (r: Option<ServerConfigArguments>)
    ensures
        r == argument_of(word@),
{
    if same_text(word, "-ip") {
        Some(ServerConfigArguments::IpAddress)
    } else if same_text(word, "-p") {
        Some(ServerConfigArguments::Port)
    } else if same_text(word, "--notls") {
        Some(ServerConfigArguments::Tls)
    } else if same_text(word, "--v") || same_text(word, "--verbose") {
        Some(ServerConfigArguments::Verbose)
    } else {
        None
    }
}

fn flag_value(key: ServerConfigArguments) -> (r: &'static str)
    ensures
        r == flag_value_spec(key),
{
    if key == ServerConfigArguments::Tls {
        "false"
    } else {
        "true"
    }
}

fn repeated_message(key: ServerConfigArguments) -> (r: &'static str)
    ensures
        r == repeated_message_spec(key),
{
    match key {
        ServerConfigArguments::IpAddress => "ip address option '-ip' is allowed once",
        ServerConfigArguments::Port => "port option '-p' is allowed once",
        ServerConfigArguments::Tls => "flag '-notls' is allowed once",
        ServerConfigArguments::Verbose => "flag '--v' or '--verbose' is allowed once",
    }
}

fn missing_value_message(key: ServerConfigArguments) -> (r: &'static str)
    ensures
        r == missing_value_message_spec(key),
{
    if key == ServerConfigArguments::IpAddress {
        "ip address option '-ip' needs a value"
    } else {
        "port option '-p' needs a value"
    }
}

/// The command that a lowercase word names.
fn command_of_word(word: &str) -> (r: Option<ServerCommand>)
    ensures
        r == command_of(word@),
{
    if same_text(word, "help") {
        Some(ServerCommand::Help)
    } else if same_text(word, "start") {
        Some(ServerCommand::Start)
    } else if same_text(word, "version") {
        Some(ServerCommand::Version)
    } else {
        None
    }
}

/// A parsed command line.
#[derive(Debug)]
pub struct Config {
    pub program: &'static str,
    pub command: ServerCommand,
    pub args_opts_map: Option<ArgsOpts>,
}

impl Config {
    /// Parses a command line, whose first word is the program's name.
    pub fn build(cli_input: &[String]) -> (r: Result<Config, ConfigError>)
        ensures
            config_view(r) == config_spec(texts(cli_input@)),
            r matches Ok(c) ==> c.program == PROGRAM_NAME,
    {
        if cli_input.len() <= 1 {
            return Err(ConfigError::NotEnoughArguments);
        }
        let word = lowercase(cli_input[1].as_str());
        let command = match command_of_word(word.as_str()) {
            Some(c) => c,
            None => {
                return Err(ConfigError::UnknownCommand(cli_input[1].clone()));
            },
        };
        if command == ServerCommand::Help || command == ServerCommand::Version {
            return Ok(Config { program: PROGRAM_NAME, command, args_opts_map: None });
        }
        let mut args_opts_map = ArgsOpts::new();
        match Config::parse_args_opts(cli_input, &mut args_opts_map) {
            Err(e) => {
                return Err(e);
            },
            Ok(()) => {},
        }
        if !args_opts_map.contains_key(&ServerConfigArguments::IpAddress) {
            return Err(ConfigError::MissingOption(String::from_str("-ip")));
        }
        if !args_opts_map.contains_key(&ServerConfigArguments::Port) {
            return Err(ConfigError::MissingOption(String::from_str("-p")));
        }
        Ok(Config { program: PROGRAM_NAME, command, args_opts_map: Some(args_opts_map) })
    }

    /// Reads the options and flags that follow the command into
    /// `args_opts_map`, stopping at the first fault.
    pub fn parse_args_opts(cli_input: &[String], args_opts_map: &mut ArgsOpts) -> (r: Result<
        (),
        ConfigError,
    >)
        ensures
            ({
                let (m, fault) = parse_spec(texts(cli_input@), 2, old(args_opts_map)@);
                &&& final(args_opts_map)@ == m
                &&& match r {
                    Ok(_) => fault is None,
                    Err(e) => fault == Some(e@),
                }
            }),
    {
        let ghost args = texts(cli_input@);
        let mut index: usize = 2;
        while index < cli_input.len()
            invariant
                args == texts(cli_input@),
                index >= 2,
                parse_spec(args, index as nat, args_opts_map@) == parse_spec(
                    args,
                    2,
                    old(args_opts_map)@,
                ),
            decreases cli_input@.len() - index,
        {
            let word = lowercase(cli_input[index].as_str());
            assert(args[index as int] == cli_input@[index as int]@);
            let key = match argument_of_word(word.as_str()) {
                Some(k) => k,
                None => {
                    return Err(
                        ConfigError::UnknownCommand(
                            String::from_str("option or flag not available."),
                        ),
                    );
                },
            };
            if args_opts_map.contains_key(&key) {
                return Err(ConfigError::ParseError(String::from_str(repeated_message(key))));
            }
            if key == ServerConfigArguments::Tls || key == ServerConfigArguments::Verbose {
                args_opts_map.insert(key, String::from_str(flag_value(key)));
                index = index + 1;
            } else {
                if index + 1 >= cli_input.len() {
                    return Err(
                        ConfigError::ParseError(String::from_str(missing_value_message(key))),
                    );
                }
                assert(args[index + 1] == cli_input@[index + 1]@);
                args_opts_map.insert(key, cli_input[index + 1].clone());
                index = index + 2;
            }
        }
        Ok(())
    }
}

} // verus!
