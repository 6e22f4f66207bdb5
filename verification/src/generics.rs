//! Generic data: a function and types whose type parameter is left to the
//! caller.

use vstd::prelude::*;

verus! {

/// Hands the value back unchanged, whatever its type.
pub fn get_double<T>(val: T) -> (ret: T)
    ensures
        ret == val,
{
    let ret = val;
    ret
}

/// A point whose two coordinates share one type.
pub struct Point<T> {
    pub x: T,
    pub y: T,
}

/// An address value of either version, carrying one value of any type.
pub enum IPVal<T> {
    V4(T),
    V6(T),
}

/// Takes the address apart: whether it is version four, and the carried
/// value.
pub fn use_enum<T>(ip_val: IPVal<T>) -> (r: (bool, T))
    ensures
        r.0 == (ip_val is V4),
        ip_val is V4 ==> r.1 == ip_val->V4_0,
        ip_val is V6 ==> r.1 == ip_val->V6_0,
{
    match ip_val {
        IPVal::V4(val) => (true, val),
        IPVal::V6(val) => (false, val),
    }
}

} // verus!
