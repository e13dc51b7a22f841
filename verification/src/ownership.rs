//! Values that are changed through a borrow or handed on by value.

use vstd::prelude::*;

verus! {

/// A counter that is advanced through a mutable borrow.
pub struct MyStruct4 {
    pub data: u32,
}

impl MyStruct4 {
    /// Adds one to the counter, which must have room for it.
    pub fn modify(&mut self)
        requires
            old(self).data < u32::MAX,
        ensures
            final(self).data == old(self).data + 1,
    {
        self.data += 1;
    }
}

/// A user with a name and an age in years.
#[derive(Debug)]
pub struct User {
    pub name: String,
    pub age: u32,
}

impl User {
    /// The same user at another age. The user is taken by value and handed
    /// back, so that calls can be chained.
    pub fn with_age(self, age: u32) -> (user: Self)
        ensures
            user.name == self.name,
            user.age == age,
    {
        let mut user = self;
        user.age = age;
        user
    }
}

/// Makes `user` one year older. The age must have room for it.
pub fn update_age(user: &mut User)
    requires
        old(user).age < u32::MAX,
    ensures
        final(user).age == old(user).age + 1,
        final(user).name == old(user).name,
{
    user.age += 1;
}

} // verus!
