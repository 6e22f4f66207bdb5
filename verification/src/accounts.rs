//! Account records: a user with a name, an age and a role, and the
//! operations that read them.

use vstd::prelude::*;

verus! {

/// The role an account holds.
pub enum UserType {
    ADMIN,
    SUPPORT,
    TEMP,
}

/// An account record. The name is public; the age and the role are read
/// through methods.
pub struct User {
    pub name: String,
    age: u32,
    utype: UserType,
}

impl User {
    /// The name of the account, as a sequence of characters.
    pub closed spec fn spec_name(self) -> Seq<char> {
        self.name@
    }

    /// The age of the account.
    pub closed spec fn spec_age(self) -> u32 {
        self.age
    }

    /// The role of the account.
    pub closed spec fn spec_utype(self) -> UserType {
        self.utype
    }

    /// Returns the built-in sample account.
    pub fn get() -> (r: User)
        ensures
            r.spec_name() == "User-01"@,
            r.spec_age() == 32,
            r.spec_utype() is ADMIN,
    {
        User { name: String::from_str("User-01"), age: 32, utype: UserType::ADMIN }
    }

    /// The age of the account.
    pub fn age(&self) -> (r: u32)
        ensures
            r == self.spec_age(),
    {
        self.age
    }

    /// The label of the account's role, as it is shown to a reader.
    pub fn type_label(&self) -> (r: String)
        ensures
            self.spec_utype() is ADMIN ==> r@ == "ADMIN"@,
            self.spec_utype() is SUPPORT ==> r@ == "SUPPORT"@,
            self.spec_utype() is TEMP ==> r@ == "TEMP"@,
    {
        let label: &str = match self.utype {
            UserType::ADMIN => "ADMIN",
            UserType::SUPPORT => "SUPPORT",
            UserType::TEMP => "TEMP",
        };
        String::from_str(label)
    }
}

} // verus!
