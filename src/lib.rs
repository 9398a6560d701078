use vstd::prelude::*;
use vstd::string::*;

pub mod cli;
pub mod error;
pub mod handler;
pub mod models;
pub mod pool;
pub mod psql;
pub mod response;
pub mod route;
pub mod status;
pub mod text;
pub mod tls;

use crate::cli::{opts_get, ArgsOpts, ServerConfigArguments};
use crate::error::{ConfigError, ConfigFault};

verus! {

/// Where and how the server listens.
#[derive(Debug)]
pub struct Server {
    pub ip_port: String,
    pub with_tls: bool,
    pub verbose: bool,
}

impl Server {
    /// Reads the address and the flags from the options given to `start`:
    /// TLS unless `--notls` was given, verbose where `--v` or `--verbose` was.
    pub fn init(opts_flags: ArgsOpts) -> (r: Result<Server, ConfigError>)
        ensures
            match r {
                Err(e) => if opts_flags@.ip_address is None {
                    e@ == ConfigFault::MissingOption("-ip"@)
                } else {
                    opts_flags@.port is None && e@ == ConfigFault::MissingOption("-p"@)
                },
                Ok(s) => {
                    &&& opts_flags@.ip_address is Some
                    &&& opts_flags@.port is Some
                    &&& s.ip_port@ == opts_flags@.ip_address.unwrap() + ":"@
                        + opts_flags@.port.unwrap()
                    &&& s.with_tls == (opts_flags@.tls is None)
                    &&& s.verbose == (opts_flags@.verbose is Some)
                },
            },
    {
        let ip_addr = match opts_flags.get(&ServerConfigArguments::IpAddress) {
            Some(ip) => ip,
            None => {
                return Err(ConfigError::MissingOption(String::from_str("-ip")));
            },
        };
        let port = match opts_flags.get(&ServerConfigArguments::Port) {
            Some(p) => p,
            None => {
                return Err(ConfigError::MissingOption(String::from_str("-p")));
            },
        };
        let mut ip_port = String::from_str(ip_addr.as_str());
        ip_port.append(":");
        ip_port.append(port.as_str());
        let with_tls = !opts_flags.contains_key(&ServerConfigArguments::Tls);
        let verbose = opts_flags.contains_key(&ServerConfigArguments::Verbose);
        Ok(Server { ip_port, with_tls, verbose })
    }
}

} // verus!
