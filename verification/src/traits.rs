//! Shared behaviour through traits: every implementor of `MyDisplay` says
//! in its `display_text` spec what its displayed form is, and `my_display`
//! is bound to produce exactly that text.

use vstd::prelude::*;
use vstd::string::StringExecFns;

use crate::numerals::dec_digits;

verus! {

/// A type that has a displayed form.
pub trait MyDisplay {
    /// The text this value displays as.
    spec fn display_text(&self) -> Seq<char>;

    /// Produces the displayed form.
    fn my_display(&self) -> (r: String)
        ensures
            r@ == self.display_text(),
    ;
}

/// A type that can concatenate itself with itself.
pub trait MyStringTrait {
    /// The text of the self-concatenation.
    spec fn concat_text(&self) -> Seq<char>;

    /// Produces the self-concatenation.
    fn concat_self(&self) -> (r: String)
        ensures
            r@ == self.concat_text(),
    ;
}

/// A value holding a piece of text.
pub struct StrData {
    pub data: String,
}

impl StrData {
    /// A copy of the held text.
    pub fn get_data(&self) -> (r: String)
        ensures
            r@ == self.data@,
    {
        self.data.clone()
    }
}

impl MyStringTrait for StrData {
    open spec fn concat_text(&self) -> Seq<char> {
        self.data@ + seq![' '] + self.data@
    }

    fn concat_self(&self) -> (r: String) {
        proof {
            reveal_strlit(" ");
        }
        let res = self.get_data().concat(" ").concat(self.get_data().as_str());
        proof {
            assert(res@ =~= self.concat_text());
        }
        res
    }
}

impl MyDisplay for StrData {
    open spec fn display_text(&self) -> Seq<char> {
        "This is default implementation for MyDisplay::display() trait"@
    }

    fn my_display(&self) -> (r: String) {
        String::from_str("This is default implementation for MyDisplay::display() trait")
    }
}

/// A value holding one unsigned number.
pub struct IData {
    pub data: u64,
}

impl IData {
    /// The held number.
    pub fn get(&self) -> (r: u64)
        ensures
            r == self.data,
    {
        self.data
    }
}

impl MyDisplay for IData {
    open spec fn display_text(&self) -> Seq<char> {
        "data "@ + dec_digits(self.data as nat)
    }

    fn my_display(&self) -> (r: String) {
        let mut s = String::from_str("data ");
        s.append(crate::numerals::u64_to_string(self.get()).as_str());
        s
    }
}

/// The displayed form of any `MyDisplay` value, taken through an
/// anonymous trait parameter.
pub fn fun_with_my_display_trait(val: &impl MyDisplay) -> (r: String)
    ensures
        r@ == val.display_text(),
{
    val.my_display()
}

/// The displayed form of any `MyDisplay` value, taken through a named
/// trait bound. Agrees with `fun_with_my_display_trait`.
pub fn fun_with_my_display_trait_bound<T: MyDisplay>(val: &T) -> (r: String)
    ensures
        r@ == val.display_text(),
{
    val.my_display()
}

/// Both behaviours of a value that displays and self-concatenates.
pub fn fun_with_multiple_trait(val: &(impl MyDisplay + MyStringTrait)) -> (r: (String, String))
    ensures
        r.0@ == val.display_text(),
        r.1@ == val.concat_text(),
{
    (val.my_display(), val.concat_self())
}

/// The same two behaviours, through named bounds.
pub fn fun_with_multiple_trait_bound<T: MyDisplay + MyStringTrait>(val: &T) -> (r: (String, String))
    ensures
        r.0@ == val.display_text(),
        r.1@ == val.concat_text(),
{
    (val.my_display(), val.concat_self())
}

/// The same two behaviours, with the bounds in a where clause.
pub fn fun_trait_with_where_clause<T>(val: &T) -> (r: (String, String))
    where
        T: MyDisplay + MyStringTrait,
    ensures
        r.0@ == val.display_text(),
        r.1@ == val.concat_text(),
{
    (val.my_display(), val.concat_self())
}

/// A displayable number, fixed at one hundred and twenty-four.
pub fn fun_ret_trait_idata() -> (r: impl MyDisplay)
    ensures
        r.display_text() == "data "@ + dec_digits(124),
{
    let ret = IData { data: 124 };
    ret
}

/// A displayable text value, fixed at the sample text; it displays as the
/// shared default line.
pub fn fun_ret_trait_strdata() -> (r: impl MyDisplay)
    ensures
        r.display_text() == "This is default implementation for MyDisplay::display() trait"@,
{
    let ret = StrData { data: String::from_str("sample string data") };
    ret
}

/// One return type only: a function returning by trait hands back one
/// concrete type on every path, whatever the flag says.
pub fn fun_ret_trait_can_not_return_multiple_type(flag: bool) -> (r: impl MyDisplay)
    ensures
        r.display_text() == "data "@ + dec_digits(124),
{
    let ret = IData { data: 124 };
    ret
}

/// A pair whose two parts share one type.
pub struct UseType<T> {
    pub x: T,
    pub y: T,
}

impl<T> UseType<T> {
    /// Builds the pair from its two parts.
    pub fn new(x: T, y: T) -> (r: Self)
        ensures
            r.x == x,
            r.y == y,
    {
        Self { x, y }
    }
}

impl<T: MyDisplay> UseType<T> {
    /// The displayed forms of the two parts, in order.
    pub fn display(&self) -> (r: (String, String))
        ensures
            r.0@ == self.x.display_text(),
            r.1@ == self.y.display_text(),
    {
        (self.x.my_display(), self.y.my_display())
    }
}

} // verus!
