//! A person, known by a name and an age, and the greeting such a person
//! gives.

use crate::text::{decimal, decimal_string};
use vstd::prelude::*;

verus! {

/// What a `Person` stands for: the characters of the name, and the age.
pub struct PersonView {
    pub name: Seq<char>,
    pub age: nat,
}

/// A person with a name and an age in years.
#[derive(Debug)]
pub struct Person {
    pub name: String,
    pub age: u32,
}

impl View for Person {
    type V = PersonView;

    open spec fn view(&self) -> PersonView {
        PersonView { name: self.name@, age: self.age as nat }
    }
}

/// The sentence by which a person gives name and age, the age in decimal.
pub open spec fn greeting_text(person: PersonView) -> Seq<char> {
    "Hello, my name is "@ + person.name + " and I'm "@ + decimal(person.age) + " years old"@
}

impl Person {
    /// A person with a copy of the given name and the given age.
    pub fn new(name: &str, age: u32) -> (person: Person)
        ensures
            person@ == (PersonView { name: name@, age: age as nat }),
    {
        broadcast use vstd::string::to_string_from_display_ensures_for_str;

        Person { name: name.to_string(), age }
    }

    /// The greeting of this person, as text without a line end.
    pub fn greeting(&self) -> (text: String)
        ensures
            text@ == greeting_text(self@),
    {
        let age = decimal_string(self.age);
        let mut text = String::from_str("Hello, my name is ");
        text.append(self.name.as_str());
        text.append(" and I'm ");
        text.append(age.as_str());
        text.append(" years old");
        text
    }
}

} // verus!
