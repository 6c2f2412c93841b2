//! The greeting that the interface asks for by name.
use vstd::prelude::*;
use vstd::string::StringExecFns;

verus! {

/// `Hello, <name>! You've been greeted from Rust!`
pub fn greet(name: &str) -> (r: String)
    ensures
        r@ == "Hello, "@ + name@ + "! You've been greeted from Rust!"@,
{
    let mut r = String::from_str("Hello, ");
    r.append(name);
    r.append("! You've been greeted from Rust!");
    r
}

} // verus!
