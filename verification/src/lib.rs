//! Small verified components: account records, geometry, network address
//! kinds, validated values, option and result plumbing, and text helpers.
//! Every executable function carries a contract that pins its result down.

pub mod accounts;
pub mod flow;
pub mod gating;
pub mod generics;
pub mod matching;
pub mod net;
pub mod numerals;
pub mod records;
pub mod rects;
pub mod results;
pub mod text;
pub mod traits;
pub mod validation;

use vstd::prelude::*;

verus! {

/// Adds one to the number given.
pub fn add_one(x: i32) -> (r: i32)
    requires
        x < i32::MAX,
    ensures
        r == x + 1,
{
    x + 1
}

/// Adds ten to the number given.
pub fn fun_with_parm_and_ret(x: i32) -> (r: i32)
    requires
        x + 10 <= i32::MAX,
    ensures
        r == x + 10,
{
    let y = x + 10;
    y
}

} // verus!
