use vstd::prelude::*;
use vstd::string::StringExecFns;

verus! {

/// The reply of the greeting command: the name, embedded once and verbatim
/// between a fixed salutation and a fixed closing sentence.
pub open spec fn greeting(name: Seq<char>) -> Seq<char> {
    "Hello, "@ + name + "! You've been greeted from Rust!"@
}

/// The smoke-test command: greets `name` without reading any character of it
/// as a formatting directive.
pub fn greet(name: &str) -> (r: String)
    ensures
        r@ == greeting(name@),
{
    let mut r = String::from_str("Hello, ");
    r.append(name);
    r.append("! You've been greeted from Rust!");
    r
}

} // verus!
