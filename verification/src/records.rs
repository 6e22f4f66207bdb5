//! Plain records built from their parts: a user described by a name, an
//! age and a department.

use vstd::prelude::*;

verus! {

/// A user record with every field open to its callers.
pub struct User {
    pub name: String,
    pub age: u8,
    pub department: String,
}

/// Builds a user record from its parts, field by field.
pub fn get_user(user_name: String, age: u8, department: String) -> (r: User)
    ensures
        r.name@ == user_name@,
        r.age == age,
        r.department@ == department@,
{
    User { name: user_name, age: age, department }
}

} // verus!
