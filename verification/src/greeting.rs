//! The greeting command.

use vstd::prelude::*;

verus! {

/// The words in front of the name.
pub const GREETING_LEAD: &'static str = "Hello, ";

/// The words behind the name.
pub const GREETING_TAIL: &'static str = "! You've been greeted from Rust!";

/// The greeting for `name`: the name, as it is, between the two fixed parts.
pub open spec fn greeting(name: Seq<char>) -> Seq<char> {
    "Hello, "@ + name + "! You've been greeted from Rust!"@
}

/// Greets `name`. Every string is taken as it is: empty, long, or holding
/// control characters.
pub fn greet(name: &str) -> (text: String)
    ensures
        text@ == greeting(name@),
{
    String::from_str(GREETING_LEAD).concat(name).concat(GREETING_TAIL)
}

/// The name stands in the greeting unchanged: it starts behind the seven
/// characters of the lead, and the tail's thirty-two characters follow it.
pub proof fn lemma_greeting_holds_name(name: Seq<char>)
    ensures
        greeting(name).len() == name.len() + 39,
        greeting(name).subrange(0, 7) == GREETING_LEAD@,
        greeting(name).subrange(7, 7 + name.len() as int) == name,
        greeting(name).subrange(7 + name.len() as int, 39 + name.len() as int) == GREETING_TAIL@,
{
    reveal_strlit("Hello, ");
    reveal_strlit("! You've been greeted from Rust!");
}

/// Two names with one greeting are one name.
pub proof fn lemma_greeting_tells_names_apart(a: Seq<char>, b: Seq<char>)
    requires
        greeting(a) == greeting(b),
    ensures
        a == b,
{
    lemma_greeting_holds_name(a);
    lemma_greeting_holds_name(b);
}

} // verus!
