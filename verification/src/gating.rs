//! Deciding whether a user must be told they are blocked. Two bodies, one
//! by a full match and one by a single-pattern test, agree on every input.

use vstd::prelude::*;

verus! {

/// Where a user stands with the service.
pub enum UserStatus {
    WHITELIST,
    GREYLIST,
    BLOCKED,
}

/// Whether the user must be notified that they are blocked, decided by a
/// match over every status.
pub fn check_user_status(ustatus: UserStatus) -> (notify: bool)
    ensures
        notify == (ustatus is BLOCKED),
{
    match ustatus {
        UserStatus::BLOCKED => true,
        _ => false,
    }
}

/// Whether the user must be notified that they are blocked, decided by a
/// single-pattern test. Agrees with `check_user_status` on every status.
pub fn check_user_status_2(ustatus: UserStatus) -> (notify: bool)
    ensures
        notify == (ustatus is BLOCKED),
{
    if let UserStatus::BLOCKED = ustatus {
        true
    } else {
        false
    }
}

/// An internet address with its textual value.
pub enum IpAddrType {
    IPV4(String),
    IPV6(String),
}

/// The line for an address, decided by a single-pattern test: the value
/// for a version-four address, the bare kind for a version-six one.
pub fn display_ip(ip_val: IpAddrType) -> (r: String)
    ensures
        ip_val is IPV4 ==> r@ == "IPv4 address is "@ + ip_val->IPV4_0@,
        ip_val is IPV6 ==> r@ == "Address is IPv6"@,
{
    if let IpAddrType::IPV4(ipval) = ip_val {
        String::from_str("IPv4 address is ").concat(ipval.as_str())
    } else {
        String::from_str("Address is IPv6")
    }
}

} // verus!
