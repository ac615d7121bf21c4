//! A small market-data gateway: per-endpoint usage counting, upstream URL
//! construction and response classification, and password-based accounts.
use vstd::prelude::*;

pub mod auth;
pub mod market;
pub mod outcome;
pub mod usage;

verus! {

/// The greeting for `name`: `hello ` followed by the name.
pub fn greet(name: &str) -> (r: String)
    ensures
        r@ == "hello "@ + name@,
{
    let mut r = String::from_str("hello ");
    r.append(name);
    r
}

} // verus!
