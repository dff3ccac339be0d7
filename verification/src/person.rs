//! Contacts that can be invited to an event.

use vstd::prelude::*;
use vstd::std_specs::cmp::PartialEqSpecImpl;

use crate::text::{decimal, decimal_text};

verus! {

/// The mathematical value of a [`Person`].
pub struct PersonView {
    pub name: Seq<char>,
    pub age: u16,
    pub email: Seq<char>,
}

impl PersonView {
    /// The contact on one line: the name, the age in round brackets, a
    /// semicolon and the e-mail address.
    pub open spec fn label(self) -> Seq<char> {
        self.name + " ("@ + decimal(self.age as nat) + "); "@ + self.email
    }
}

/// The values of a list of contacts, in the list's order.
pub open spec fn person_views(people: Seq<Person>) -> Seq<PersonView> {
    people.map_values(|p: Person| p@)
}

/// A contact: a name, an age and an e-mail address, fixed once made.
#[derive(Debug)]
pub struct Person {
    name: String,
    age: u16,
    email: String,
}

impl View for Person {
    type V = PersonView;

    closed spec fn view(&self) -> PersonView {
        PersonView { name: self.name@, age: self.age, email: self.email@ }
    }
}

impl Person {
    /// Makes a contact from its three parts.
    pub fn new(name: String, age: u16, email: String) -> (p: Person)
        ensures
            p@ == (PersonView { name: name@, age: age, email: email@ }),
    {
        Person { name, age, email }
    }

    /// The contact's name.
    pub fn get_name(&self) -> (s: &str)
        ensures
            s@ == self@.name,
    {
        self.name.as_str()
    }

    /// The contact's age in years.
    pub fn get_age(&self) -> (a: u16)
        ensures
            a == self@.age,
    {
        self.age
    }

    /// The contact's e-mail address.
    pub fn get_email(&self) -> (s: &str)
        ensures
            s@ == self@.email,
    {
        self.email.as_str()
    }

    /// The contact as a menu shows it, such as `Jane Doe (20); jane@example.org`.
    pub fn label(&self) -> (s: String)
        ensures
            s@ == self@.label(),
    {
        let mut s = self.name.clone();
        s.append(" (");
        let age = decimal_text(self.age);
        s.append(age.as_str());
        s.append("); ");
        s.append(self.email.as_str());
        s
    }
}

impl Clone for Person {
    fn clone(&self) -> (p: Person)
        ensures
            p@ == self@,
    {
        Person { name: self.name.clone(), age: self.age, email: self.email.clone() }
    }
}

impl PartialEq for Person {
    fn eq(&self, other: &Person) -> (b: bool) {
        self.name == other.name && self.age == other.age && self.email == other.email
    }
}

impl PartialEqSpecImpl for Person {
    open spec fn obeys_eq_spec() -> bool {
        true
    }

    open spec fn eq_spec(&self, other: &Person) -> bool {
        self@ == other@
    }
}

/// Copies a list of contacts.
pub fn clone_people(people: &Vec<Person>) -> (copy: Vec<Person>)
    ensures
        person_views(copy@) == person_views(people@),
{
    let mut copy: Vec<Person> = Vec::new();
    let mut i: usize = 0;
    while i < people.len()
        invariant
            i <= people.len(),
            copy.len() == i,
            forall|j: int| 0 <= j < i ==> copy[j]@ == people[j]@,
        decreases people.len() - i,
    {
        copy.push(people[i].clone());
        i += 1;
    }
    copy
}

/// Whether two lists hold contacts of the same values in the same order.
pub fn same_people(a: &Vec<Person>, b: &Vec<Person>) -> (same: bool)
    ensures
        same == (person_views(a@) == person_views(b@)),
{
    let same = a == b;
    proof {
        if same {
            assert(person_views(a@) =~= person_views(b@));
        }
        if person_views(a@) == person_views(b@) {
            assert(a@.len() == person_views(a@).len() == b@.len());
            assert forall|i: int| 0 <= i < a@.len() implies a@[i]@ == b@[i]@ by {
                assert(person_views(a@)[i] == person_views(b@)[i]);
            }
        }
    }
    same
}

} // verus!
