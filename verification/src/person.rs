//! A person who can introduce themselves.

use crate::text::{decimal, push_decimal};
use vstd::prelude::*;
use vstd::string::StringExecFns;

verus! {

/// A person with a name and an age in years.
#[derive(Debug)]
pub struct Person {
    name: String,
    age: u32,
}

/// The sentence by which a person with this name and age introduces
/// themselves.
pub open spec fn greeting(name: Seq<char>, age: nat) -> Seq<char> {
    "Hello, my name is "@ + name + " and I am "@ + decimal(age) + " years old."@
}

impl Person {
    /// The person's name.
    pub closed spec fn name_text(&self) -> Seq<char> {
        self.name@
    }

    /// The person's age in years.
    pub closed spec fn age_years(&self) -> u32 {
        self.age
    }

    /// A person with the given name and age.
    pub fn new(name: String, age: u32) -> (person: Self)
        ensures
            person.name_text() == name@,
            person.age_years() == age,
    {
        Self { name, age }
    }

    /// The sentence by which the person introduces themselves.
    pub fn greet(&self) -> (sentence: String)
        ensures
            sentence@ == greeting(self.name_text(), self.age_years() as nat),
    {
        let mut sentence = String::from_str("Hello, my name is ");
        sentence.append(self.name.as_str());
        sentence.append(" and I am ");
        push_decimal(&mut sentence, self.age);
        sentence.append(" years old.");
        sentence
    }
}

} // verus!
