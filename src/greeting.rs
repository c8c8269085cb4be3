use vstd::prelude::*;

verus! {

pub const GREETING_START: &'static str = "Hello, ";

pub const GREETING_END: &'static str = "! You've been greeted from Rust with SQLite!";

/// The greeting for `name`.
pub fn greet(name: &str) -> (r: Result<String, String>)
    ensures
        r is Ok,
        r->Ok_0@ == GREETING_START@ + name@ + GREETING_END@,
{
    let s = String::from_str(GREETING_START).concat(name).concat(GREETING_END);
    Ok(s)
}

} // verus!
