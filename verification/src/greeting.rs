use vstd::prelude::*;

verus! {

/// The greeting text for `name`: a fixed prefix, then the name itself, then a
/// fixed suffix, by literal concatenation.
pub open spec fn greeting_of(name: Seq<char>) -> Seq<char> {
    "Hello, "@ + name + "! You've been greeted from Rust!"@
}

/// Builds the greeting for `name` by plain concatenation, so characters of
/// `name` that resemble format directives (braces, percent signs) are carried
/// over unchanged. Defined for every string, the empty one included; no side
/// effects.
pub fn greet(name: &str) -> (s: String)
    ensures
        s@ == greeting_of(name@),
{
    let s = String::from_str("Hello, ");
    let s = s.concat(name);
    let s = s.concat("! You've been greeted from Rust!");
    proof {
        assert(s@ =~= greeting_of(name@));
    }
    s
}

} // verus!
