//! Text helpers: byte lengths, a first-word cut, appending a fixed tail,
//! and picking the longer of two strings.

use vstd::prelude::*;
use vstd::string::StrSliceExecFns;
use vstd::string::StringExecFns;
use vstd::utf8::encode_utf8;

verus! {

/// The fixed message a caller takes ownership of.
pub fn get_value() -> (r: String)
    ensures
        r@ == "Ownership of this will be transferred from function to callee of function"@,
{
    String::from_str(
        "Ownership of this will be transferred from function to callee of function",
    )
}

/// Takes the string, appends the fixed tail, and hands back the new string
/// together with its length in bytes.
pub fn pass_and_get_value(msg: String) -> (r: (String, usize))
    ensures
        r.0@ == msg@ + " 1. taking ownersip 2. updating value 3. returning ownersip as return value"@,
        r.1 == encode_utf8(r.0@).len() as usize,
{
    let mut msg = msg;
    msg.append(" 1. taking ownersip 2. updating value 3. returning ownersip as return value");
    let l_len = msg.as_str().len();
    (msg, l_len)
}

/// The length of the string in bytes.
pub fn calculate_len_with_ownership(s: String) -> (r: usize)
    ensures
        r == encode_utf8(s@).len() as usize,
{
    s.as_str().len()
}

/// Replaces the string's contents with the fixed marker text.
pub fn change_mutable_reference(s: &mut String)
    ensures
        final(s)@ == " modified mutable reference value"@,
{
    *s = String::from_str(" modified mutable reference value");
}

/// The prefix of the string up to its first space: no space stands in the
/// result, and the character after it, if any, is a space.
pub fn get_first_word<'a>(sval: &'a String) -> (r: &'a str)
    ensures
        r@.len() <= sval@.len(),
        r@ == sval@.subrange(0, r@.len() as int),
        forall|j: int| 0 <= j < r@.len() ==> r@[j] != ' ',
        r@.len() < sval@.len() ==> sval@[r@.len() as int] == ' ',
{
    let s = sval.as_str();
    let n = s.unicode_len();
    let mut i: usize = 0;
    while i < n
        invariant
            i <= n,
            n == s@.len(),
            s@ == sval@,
            forall|j: int| 0 <= j < i ==> s@[j] != ' ',
        decreases n - i,
    {
        if s.get_char(i) == ' ' {
            let word = s.substring_char(0, i);
            assert(word@ =~= sval@.subrange(0, word@.len() as int));
            return word;
        }
        i += 1;
    }
    let whole = s.substring_char(0, n);
    assert(whole@ =~= sval@.subrange(0, whole@.len() as int));
    whole
}

/// Picks the first value when the flag is set, the second otherwise.
pub fn display_two_parm<'a>(val1: &'a str, val2: &'a str, ret_first: bool) -> (r: &'a str)
    ensures
        ret_first ==> r@ == val1@,
        !ret_first ==> r@ == val2@,
{
    if ret_first {
        val1
    } else {
        val2
    }
}

/// The longer of the two strings, measured in bytes; the second wins a tie.
pub fn largest_str_with_lifetime<'a>(first: &'a str, second: &'a str) -> (r: &'a str)
    ensures
        encode_utf8(first@).len() as usize > encode_utf8(second@).len() as usize ==> r@ == first@,
        encode_utf8(first@).len() as usize <= encode_utf8(second@).len() as usize ==> r@ == second@,
{
    if first.len() > second.len() {
        first
    } else {
        second
    }
}

/// The longer of the two strings, measured in bytes; the second wins a
/// tie. Agrees with `largest_str_with_lifetime`; the announcement that
/// goes with the choice is the caller's to print.
pub fn generic_trait_and_lifetime_together<'a>(x: &'a str, y: &'a str) -> (r: &'a str)
    ensures
        encode_utf8(x@).len() as usize > encode_utf8(y@).len() as usize ==> r@ == x@,
        encode_utf8(x@).len() as usize <= encode_utf8(y@).len() as usize ==> r@ == y@,
{
    if x.len() > y.len() {
        x
    } else {
        y
    }
}

} // verus!
