//! The greeting command.

use vstd::prelude::*;

verus! {

/// The greeting addressed to `name`.
pub open spec fn greeting_for(name: Seq<char>) -> Seq<char> {
    "Hello, "@ + name + "! Welcome to Tauri 2.2!"@
}

/// Greets `name`; any name is accepted, the empty one included.
pub fn greet(name: &str) -> (r: String)
    ensures
        r@ == greeting_for(name@),
{
    let mut s = String::from_str("Hello, ");
    s.append(name);
    s.append("! Welcome to Tauri 2.2!");
    s
}

} // verus!
