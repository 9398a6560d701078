use vstd::prelude::*;
use vstd::string::*;

verus! {

/// Malformed command-line input.
#[derive(Debug)]
pub enum ConfigError {
    NotEnoughArguments,
    UnknownCommand(String),
    MissingOption(String),
    ParseError(String),
}

/// A `ConfigError` with its text as characters.
pub enum ConfigFault {
    NotEnoughArguments,
    UnknownCommand(Seq<char>),
    MissingOption(Seq<char>),
    ParseError(Seq<char>),
}

impl View for ConfigError {
    type V = ConfigFault;

    open spec fn view(&self) -> ConfigFault {
        match self {
            ConfigError::NotEnoughArguments => ConfigFault::NotEnoughArguments,
            ConfigError::UnknownCommand(s) => ConfigFault::UnknownCommand(s@),
            ConfigError::MissingOption(s) => ConfigFault::MissingOption(s@),
            ConfigError::ParseError(s) => ConfigFault::ParseError(s@),
        }
    }
}

/// The hint that ends every message about malformed input.
pub open spec fn help_hint() -> Seq<char> {
    "\nFor syntax help, type 'boowebserver help'."@
}

/// The message shown to the user for a fault.
pub open spec fn config_message(e: ConfigFault) -> Seq<char> {
    match e {
        ConfigFault::NotEnoughArguments => "Not enough arguments."@ + help_hint(),
        ConfigFault::UnknownCommand(c) => "Unknown command: "@ + c + help_hint(),
        ConfigFault::MissingOption(o) => "Missing option: "@ + o + help_hint(),
        ConfigFault::ParseError(p) => "Parse error: "@ + p + help_hint(),
    }
}

impl ConfigError {
    /// The message shown to the user, ending with a hint to ask for help.
    pub fn message(&self) -> (r: String)
        ensures
            r@ == config_message(self@),
    {
        let mut text = match self {
            ConfigError::NotEnoughArguments => String::from_str("Not enough arguments."),
            ConfigError::UnknownCommand(c) => String::from_str("Unknown command: ").concat(
                c.as_str(),
            ),
            ConfigError::MissingOption(o) => String::from_str("Missing option: ").concat(
                o.as_str(),
            ),
            ConfigError::ParseError(p) => String::from_str("Parse error: ").concat(p.as_str()),
        };
        text.append("\nFor syntax help, type 'boowebserver help'.");
        text
    }
}

/// Why a set of credentials was not accepted.
#[derive(Debug)]
pub enum PsqlError {
    /// No user of that name is stored.
    RowNotFound,
    /// The stored password differs from the one given.
    PasswordMismatch,
    /// The backend failed; the text says how.
    SqlxError(String),
}

impl PsqlError {
    /// The message logged for the error.
    pub fn message(&self) -> (r: String)
        ensures
            match self {
                PsqlError::RowNotFound => r@ == "User does not exist"@,
                PsqlError::PasswordMismatch => r@ == "Passwords don't match"@,
                PsqlError::SqlxError(e) => r@ == "SQLx error: "@ + e@,
            },
    {
        match self {
            PsqlError::RowNotFound => String::from_str("User does not exist"),
            PsqlError::PasswordMismatch => String::from_str("Passwords don't match"),
            PsqlError::SqlxError(e) => String::from_str("SQLx error: ").concat(e.as_str()),
        }
    }
}

} // verus!
