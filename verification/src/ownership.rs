//! Small functions that move, borrow and return owned values.

use vstd::prelude::*;
use vstd::string::StringExecFns;
use vstd::utf8::encode_utf8;
use vstd::utf8::is_ascii_chars;
use vstd::utf8::is_ascii_chars_encode_utf8;

verus! {

/// Builds a fresh `String` and hands ownership of it to the caller.
pub fn gives_ownership() -> (s: String)
    ensures
        s@ == "i came from a function"@,
{
    "i came from a function".to_owned()
}

/// Takes ownership of a `String` and immediately returns it unchanged.
pub fn takes_and_gives_back(a_string: String) -> (s: String)
    ensures
        s == a_string,
{
    a_string
}

/// Length of a string in bytes, as `str::len` reports it; for a string of
/// ASCII characters this equals the number of characters.
pub fn calculate_length(s: &String) -> (len: usize)
    ensures
        len == encode_utf8(s@).len() as usize,
        is_ascii_chars(s@) ==> len == s@.len() as usize,
{
    proof {
        if is_ascii_chars(s@) {
            is_ascii_chars_encode_utf8(s@);
        }
    }
    s.as_str().len()
}

/// Returns the string together with its byte length, handing ownership back
/// to the caller.
pub fn calculate_length_moved(s: String) -> (r: (String, usize))
    ensures
        r.0 == s,
        r.1 == encode_utf8(s@).len() as usize,
        is_ascii_chars(s@) ==> r.1 == s@.len() as usize,
{
    let length = calculate_length(&s);
    (s, length)
}

/// Appends `", world"` to the borrowed string in place.
pub fn change_borrowed_mutable(some_string: &mut String)
    ensures
        final(some_string)@ == old(some_string)@ + ", world"@,
{
    some_string.append(", world");
}

} // verus!
