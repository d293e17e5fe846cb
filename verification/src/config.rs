//! The settings that the service starts with.

use crate::decimal::{parse_u16, read_u16};
use vstd::prelude::*;

verus! {

/// The number of workers that talk to the store, each with one request at a time.
pub const WORKERS: usize = 12;

/// The port that the service listens on where none is set.
pub const DEFAULT_PORT: u16 = 3000;

/// The number of seconds for which a client may remember the answer to a cross-origin
/// preflight request.
pub const PREFLIGHT_MAX_AGE: usize = 3600;

/// The port that a setting stands for: the default where nothing is set, else the number
/// that the setting writes, if it writes one.
pub open spec fn port_of(setting: Option<Seq<char>>) -> Option<u16> {
    match setting {
        None => Some(DEFAULT_PORT),
        Some(text) => parse_u16(text),
    }
}

/// The port to listen on, given the setting for it, if there is one. `None` where the
/// setting is not a port number.
pub fn port(setting: Option<&str>) -> (port: Option<u16>)
    ensures
        port == port_of(
            match setting {
                None => None,
                Some(text) => Some(text@),
            },
        ),
{
    match setting {
        None => Some(DEFAULT_PORT),
        Some(text) => read_u16(text),
    }
}

} // verus!
