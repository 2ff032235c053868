//! Command-line configuration: the port the server should bind, read from
//! the first argument.

use crate::text::{dec_value, parse_u16_dec};
use vstd::prelude::*;

verus! {

#[derive(Debug)]
pub struct ServerConfig {
    pub port: u16,
}

/// A rejected command line, with the reason.
#[derive(Debug)]
pub struct ArgumentError(pub &'static str);

impl ServerConfig {
    /// Reads the port from the argument after the program name: a missing
    /// argument and a non-numeric (or out-of-range) one are rejected, each
    /// with its own message.
    pub fn new(args: &[String]) -> (r: Result<ServerConfig, ArgumentError>)
        ensures
            args@.len() < 2 ==> (r matches Err(ArgumentError(m)) && m@
                == "Missing argument for port"@),
            args@.len() >= 2 ==> match dec_value(args@[1]@) {
                Some(v) => if 0 <= v <= u16::MAX && args@[1]@[0] != '-' {
                    r matches Ok(c) && c.port == v
                } else {
                    r matches Err(ArgumentError(m)) && m@ == "Port is not a valid number"@
                },
                None => r matches Err(ArgumentError(m)) && m@ == "Port is not a valid number"@,
            },
    {
        if args.len() < 2 {
            return Err(ArgumentError("Missing argument for port"));
        }
        match parse_u16_dec(args[1].as_str()) {
            Some(port) => Ok(ServerConfig { port }),
            None => Err(ArgumentError("Port is not a valid number")),
        }
    }
}

} // verus!
