//! The greeting that tells a caller that the library is loaded.

use vstd::prelude::*;
use vstd::string::StringExecFns;

verus! {

/// Greets by name.
pub fn greet(name: &str) -> (greeting: String)
    ensures
        greeting@ == "Hello, "@ + name@ + "! Rust Crypto is Ready \u{1f980}"@,
{
    let mut greeting = String::from_str("Hello, ");
    greeting.append(name);
    greeting.append("! Rust Crypto is Ready \u{1f980}");
    greeting
}

} // verus!
