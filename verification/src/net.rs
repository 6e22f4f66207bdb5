//! An address type whose version-six variant carries its text, and the
//! operations that build and read it.

use vstd::prelude::*;

verus! {

/// An internet address: version four, or version six with its text.
pub enum IpAddr {
    IPV4,
    IPV6(String),
}

impl IpAddr {
    /// The text a reader is shown: the carried value for a version-six
    /// address, nothing for a version-four one.
    pub fn display(&self) -> (r: Option<&String>)
        ensures
            self is IPV4 ==> r is None,
            self is IPV6 ==> (r matches Some(v) && v@ == self->0@),
    {
        match self {
            IpAddr::IPV4 => None,
            IpAddr::IPV6(val) => Some(val),
        }
    }
}

/// Takes the address by value and hands out the text a reader is shown:
/// the carried value for a version-six address, nothing for a version-four
/// one. Agrees with `IpAddr::display`.
pub fn use_ip_addr(ipval: IpAddr) -> (r: Option<String>)
    ensures
        ipval is IPV4 ==> r is None,
        ipval is IPV6 ==> (r matches Some(v) && v@ == ipval->0@),
{
    match ipval {
        IpAddr::IPV4 => None,
        IpAddr::IPV6(val) => Some(val),
    }
}

/// The version-four address, or the version-six loopback text.
pub fn get_ip_addr(is_ip4: bool) -> (r: IpAddr)
    ensures
        is_ip4 ==> r is IPV4,
        !is_ip4 ==> (r matches IpAddr::IPV6(v) && v@ == "0:0:0:0:0:0:0:1"@),
{
    if is_ip4 {
        IpAddr::IPV4
    } else {
        IpAddr::IPV6(String::from_str("0:0:0:0:0:0:0:1"))
    }
}

} // verus!
