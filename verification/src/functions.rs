//! Declaring a function, and saying what it returns.

use vstd::prelude::*;

verus! {

/// The greeting, character by character.
///
/// Contracts speak of this sequence rather than of a string literal, whose
/// contents the verifier does not see unless they are revealed to it.
pub open spec fn greeting() -> Seq<char> {
    seq!['H', 'e', 'l', 'l', 'o', ',', ' ', 'W', 'o', 'r', 'l', 'd', '!']
}

/// Returns the greeting `Hello, World!`.
///
/// The function itself writes nothing: the caller decides where the text
/// goes. A program that prints it follows it with a line break.
pub fn fn_test() -> (text: &'static str)
    ensures
        text@ == greeting(),
        text.is_ascii(),
{
    let text = "Hello, World!";
    proof {
        reveal_strlit("Hello, World!");
        assert(text@ =~= greeting());
    }
    text
}

} // verus!
