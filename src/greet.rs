use vstd::prelude::*;

verus! {

/// The fixed template that `greet` applies to a name.
pub open spec fn greeting(name: Seq<char>) -> Seq<char> {
    "Hello, "@ + name + "! You've been greeted from Rust!"@
}

/// Greets `name`, embedding it verbatim into the fixed template.
pub fn greet(name: &str) -> (r: String)
    ensures
        r@ == greeting(name@),
{
    let opening = String::from_str("Hello, ");
    let with_name = opening.concat(name);
    with_name.concat("! You've been greeted from Rust!")
}

} // verus!
