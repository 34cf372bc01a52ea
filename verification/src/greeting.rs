//! The greeting of the application.

use vstd::prelude::*;

verus! {

/// Greets the user by the name given.
pub fn greet(name: &str) -> (greeting: String)
    ensures
        greeting@ == "Hello, "@ + name@ + "! Welcome to Next.js + Tauri!"@,
{
    String::from_str("Hello, ").concat(name).concat("! Welcome to Next.js + Tauri!")
}

} // verus!
