//! Decisions made by matching on enums: address kinds, employee entry,
//! optional counters and two-bit codes.

use vstd::prelude::*;

verus! {

/// The two kinds of internet address.
pub enum IpAddrType {
    IPV4,
    IPV6,
}

/// The textual address that each kind stands for.
pub fn get_addr(ip_type: IpAddrType) -> (r: String)
    ensures
        ip_type is IPV4 ==> r@ == "127.0.01"@,
        ip_type is IPV6 ==> r@ == "0000:0000:0000:0000:0000:0000:0000:0001"@,
{
    match ip_type {
        IpAddrType::IPV4 => String::from_str("127.0.01"),
        IpAddrType::IPV6 => String::from_str("0000:0000:0000:0000:0000:0000:0000:0001"),
    }
}

/// Whether an employee may enter.
#[derive(Debug)]
pub enum EntryStatus {
    GRANTED,
    BLOCKED,
}

/// The kinds of employee; a field employee carries an entry status.
pub enum EmployeeType {
    PERMANENT,
    CONTRACT,
    FIELD(EntryStatus),
}

/// Whether the employee's status is reported as good: permanent and field
/// employees are, contract employees are not.
pub fn display_emplyee_status(emp: EmployeeType) -> (r: bool)
    ensures
        r == !(emp is CONTRACT),
{
    match emp {
        EmployeeType::PERMANENT => true,
        EmployeeType::CONTRACT => false,
        EmployeeType::FIELD(_status) => true,
    }
}

/// Adds one to the value, if there is one.
pub fn plus_five(x: Option<u32>) -> (r: Option<u32>)
    requires
        x is Some ==> x->0 < u32::MAX,
    ensures
        x is None ==> r is None,
        x is Some ==> r == Some((x->0 + 1) as u32),
{
    match x {
        None => None,
        Some(i) => Some(i + 1),
    }
}

/// A two-bit code.
pub enum BinaryType {
    BIN00,
    BIN01,
    BIN10,
    BIN11,
}

/// Every code matches except `BIN10`.
pub fn match_binary_type(bt: BinaryType) -> (r: bool)
    ensures
        r == !(bt is BIN10),
{
    match bt {
        BinaryType::BIN10 => false,
        _ => true,
    }
}

} // verus!
