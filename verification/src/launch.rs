//! Launch-argument handling: the backend port (second argument, with a fixed
//! fallback) and the backend process identifier (third argument, optional).

use vstd::prelude::*;
use crate::digits::{is_numeral, dec_value, dec_rep, parse_decimal_bounded, format_decimal};

verus! {

/// Port used when no usable port argument was supplied.
pub const DEFAULT_PORT: u16 = 34987;

/// Largest accepted backend process identifier: the launcher's argument
/// convention carries the identifier as a signed 32-bit value.
pub const MAX_PROCESS_ID: u32 = 2147483647;

/// `s` is a usable port argument: a decimal numeral that fits a 16-bit port.
pub open spec fn valid_port_arg(s: Seq<char>) -> bool {
    is_numeral(s) && dec_value(s) <= 65535
}

/// `s` is a usable process-identifier argument.
pub open spec fn valid_pid_arg(s: Seq<char>) -> bool {
    is_numeral(s) && dec_value(s) <= MAX_PROCESS_ID
}

/// The port the launch arguments select: the second argument when it is a
/// usable port numeral, and the fallback otherwise.
pub open spec fn spec_server_port(args: Seq<String>) -> nat {
    if args.len() > 1 && valid_port_arg(args[1]@) {
        dec_value(args[1]@)
    } else {
        DEFAULT_PORT as nat
    }
}

/// Parses one port argument; `None` exactly on unusable input.
pub fn parse_port(s: &str) -> (r: Option<u16>)
    ensures
        match r {
            Some(p) => valid_port_arg(s@) && p as nat == dec_value(s@),
            None => !valid_port_arg(s@),
        },
{
    match parse_decimal_bounded(s, 65535) {
        Some(v) => Some(v as u16),
        None => None,
    }
}

/// Parses one process-identifier argument; `None` exactly on unusable input.
pub fn parse_pid(s: &str) -> (r: Option<u32>)
    ensures
        match r {
            Some(p) => valid_pid_arg(s@) && p as nat == dec_value(s@),
            None => !valid_pid_arg(s@),
        },
{
    parse_decimal_bounded(s, MAX_PROCESS_ID)
}

/// The backend port selected by the launch arguments.
pub fn server_port(args: &Vec<String>) -> (p: u16)
    ensures
        p as nat == spec_server_port(args@),
{
    if args.len() > 1 {
        match parse_port(args[1].as_str()) {
            Some(p) => p,
            None => DEFAULT_PORT,
        }
    } else {
        DEFAULT_PORT
    }
}

/// The backend port as the decimal text handed to the UI surface.
pub fn get_server_port(args: &Vec<String>) -> (r: String)
    ensures
        r@ == dec_rep(spec_server_port(args@)),
        dec_value(r@) == spec_server_port(args@),
        is_numeral(r@),
{
    let p = server_port(args);
    format_decimal(p as u32)
}

/// Everything the supervisor draws from the launch arguments.
#[derive(Clone, Copy, Debug, PartialEq, Eq)]
pub struct LaunchConfig {
    /// Backend port, discovered or fallback.
    pub port: u16,
    /// Backend process identifier to watch, absent when none was supplied.
    pub watched_pid: Option<u32>,
}

/// Startup failures drawn from the launch arguments.
#[derive(Clone, Copy, Debug, PartialEq, Eq, Structural)]
pub enum LaunchError {
    /// A process-identifier argument was supplied but is not a usable numeral.
    MalformedProcessId,
}

/// Parses the launch arguments: `args[1]` selects the port (fallback on any
/// unusable value), `args[2]` the watched process identifier (an unusable
/// value refuses startup).
pub fn parse_launch(args: &Vec<String>) -> (r: Result<LaunchConfig, LaunchError>)
    ensures
        r is Err <==> args@.len() > 2 && !valid_pid_arg(args@[2]@),
        r matches Err(e) ==> e == LaunchError::MalformedProcessId,
        r matches Ok(c) ==> {
            &&& c.port as nat == spec_server_port(args@)
            &&& args@.len() > 2 ==> (c.watched_pid matches Some(p) && p as nat == dec_value(
                args@[2]@,
            ))
            &&& args@.len() <= 2 ==> c.watched_pid is None
        },
{
    let port = server_port(args);
    if args.len() > 2 {
        match parse_pid(args[2].as_str()) {
            Some(p) => Ok(LaunchConfig { port, watched_pid: Some(p) }),
            None => Err(LaunchError::MalformedProcessId),
        }
    } else {
        Ok(LaunchConfig { port, watched_pid: None })
    }
}

} // verus!
