//! Database connection settings.
use crate::config::{parse_unsigned, parse_unsigned_up_to};
use vstd::prelude::*;

verus! {

/// The pool size when `DATABASE_MAX_CONNECTIONS` is unset, not a `u32`, or zero.
pub const DEFAULT_MAX_CONNECTIONS: u32 = 20;

/// The size of the connection pool, from the value of
/// `DATABASE_MAX_CONNECTIONS`: a positive `u32`, or 20 otherwise.
pub fn max_connections(setting: Option<&str>) -> (r: u32)
    ensures
        ({
            let parsed = match setting {
                Some(s) => parse_unsigned(s@, u32::MAX as int),
                None => None,
            };
            match parsed {
                Some(v) => if v > 0 {
                    r == v
                } else {
                    r == DEFAULT_MAX_CONNECTIONS
                },
                None => r == DEFAULT_MAX_CONNECTIONS,
            }
        }),
{
    match setting {
        Some(s) => match parse_unsigned_up_to(s, 0xffff_ffff) {
            Some(v) => if v > 0 {
                v as u32
            } else {
                DEFAULT_MAX_CONNECTIONS
            },
            None => DEFAULT_MAX_CONNECTIONS,
        },
        None => DEFAULT_MAX_CONNECTIONS,
    }
}

} // verus!
