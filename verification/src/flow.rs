//! Match-driven flow: a blocked/allowed status, address values that carry
//! their text, and an optional counter.

use vstd::prelude::*;

verus! {

/// Whether a user is blocked or allowed.
pub enum UserStatus {
    BLOCKED,
    ALLOWED,
}

/// Whether the status is the blocked one.
pub fn user_is_blocked(usr_status: UserStatus) -> (r: bool)
    ensures
        r == (usr_status is BLOCKED),
{
    match usr_status {
        UserStatus::BLOCKED => true,
        UserStatus::ALLOWED => false,
    }
}

/// The line that describes where the user stands, chosen by
/// `user_is_blocked`.
pub fn display_user_status(usr_status: UserStatus) -> (r: String)
    ensures
        usr_status is BLOCKED ==> r@ == "User is blocked for service"@,
        usr_status is ALLOWED ==> r@ == "User is allowed for service"@,
{
    if user_is_blocked(usr_status) {
        String::from_str("User is blocked for service")
    } else {
        String::from_str("User is allowed for service")
    }
}

/// An internet address with its textual value.
pub enum IpAddrType {
    IPV4(String),
    IPV6(String),
}

/// The line that describes an address: the kind alone for a version-four
/// address, the kind and the value for a version-six one.
pub fn display_ip(ip_val: IpAddrType) -> (r: String)
    ensures
        ip_val is IPV4 ==> r@ == "IP address is IPv4"@,
        ip_val is IPV6 ==> r@ == "IP address is IPv6, IP value is "@ + ip_val->IPV6_0@,
{
    match ip_val {
        IpAddrType::IPV4(_) => String::from_str("IP address is IPv4"),
        IpAddrType::IPV6(val) => {
            String::from_str("IP address is IPv6, IP value is ").concat(val.as_str())
        },
    }
}

/// The line that describes an optional value: its number when one is
/// there, and the word `None` otherwise.
pub fn display_optional(ival: Option<i32>) -> (r: String)
    ensures
        ival is None ==> r@ == "Value is None"@,
        ival is Some ==> r@ == "Value is "@ + crate::numerals::dec_text(ival->0 as int),
{
    match ival {
        None => String::from_str("Value is None"),
        Some(val) => {
            let mut s = String::from_str("Value is ");
            s.append(crate::numerals::i64_to_string(val as i64).as_str());
            s
        },
    }
}

/// Adds one to the value, if there is one.
pub fn increment_value(ival: Option<i32>) -> (r: Option<i32>)
    requires
        ival is Some ==> ival->0 < i32::MAX,
    ensures
        ival is None ==> r is None,
        ival is Some ==> r == Some((ival->0 + 1) as i32),
{
    match ival {
        None => None,
        Some(val) => Some(val + 1),
    }
}

} // verus!
