//! Events, and the edit that makes a new event of one that exists by
//! changing one of its fields.

use vstd::prelude::*;
use vstd::std_specs::cmp::PartialEqSpecImpl;

use crate::category::Category;
use crate::person::{clone_people, person_views, same_people, Person, PersonView};
use crate::reply::{Reply, ReplyView};
use crate::text::same_text;

verus! {

/// The mathematical value of an [`Event`].
pub struct EventView {
    pub name: Seq<char>,
    pub notes: Seq<char>,
    pub invitees: Seq<PersonView>,
    pub category: Category,
}

/// The contacts of a list on one line, each as [`PersonView::label`] gives
/// it, with a comma and a space between two of them.
pub open spec fn listed(people: Seq<PersonView>) -> Seq<char>
    decreases people.len(),
{
    if people.len() == 0 {
        Seq::empty()
    } else if people.len() == 1 {
        people[0].label()
    } else {
        listed(people.drop_last()) + ", "@ + people.last().label()
    }
}

impl EventView {
    /// The event with all its fields on one line: the name, the category
    /// in square brackets, the notes, the invitees.
    pub open spec fn describe(self) -> Seq<char> {
        self.name + " ["@ + self.category.label_spec() + "]; notes: "@ + self.notes
            + "; invitees: "@ + listed(self.invitees)
    }
}

/// A planned occasion: a name, notes that may be empty, the contacts that
/// are invited, in the order in which they were chosen, and a category.
///
/// An event is never changed in place. An edit makes a new event, which
/// takes the place of the old one.
#[derive(Debug)]
pub struct Event {
    name: String,
    notes: String,
    invitees: Vec<Person>,
    category: Category,
}

impl View for Event {
    type V = EventView;

    closed spec fn view(&self) -> EventView {
        EventView {
            name: self.name@,
            notes: self.notes@,
            invitees: person_views(self.invitees@),
            category: self.category,
        }
    }
}

/// The values of a list of events, in the list's order.
pub open spec fn event_views(events: Seq<Event>) -> Seq<EventView> {
    events.map_values(|e: Event| e@)
}

impl Event {
    /// Puts an event together from its four fields.
    pub fn from_parts(name: String, notes: String, invitees: Vec<Person>, category: Category) -> (e:
        Event)
        ensures
            e@ == (EventView {
                name: name@,
                notes: notes@,
                invitees: person_views(invitees@),
                category: category,
            }),
    {
        Event { name, notes, invitees, category }
    }

    /// The event's name, which is also what a menu shows of it.
    pub fn get_name(&self) -> (s: &str)
        ensures
            s@ == self@.name,
    {
        self.name.as_str()
    }

    /// The event's notes.
    pub fn get_notes(&self) -> (s: &str)
        ensures
            s@ == self@.notes,
    {
        self.notes.as_str()
    }

    /// The contacts that are invited, in the order in which they were chosen.
    pub fn get_invitees(&self) -> (people: &Vec<Person>)
        ensures
            person_views(people@) == self@.invitees,
    {
        &self.invitees
    }

    /// The event's category.
    pub fn get_category(&self) -> (c: Category)
        ensures
            c == self@.category,
    {
        self.category
    }

    /// The event as a menu shows it: by its name.
    pub fn label(&self) -> (s: String)
        ensures
            s@ == self@.name,
    {
        self.name.clone()
    }

    /// The event with all its fields on one line, such as
    /// `Team Lunch [Work]; notes: bring cake; invitees: Jane Doe (20); jane@example.org`.
    pub fn describe(&self) -> (s: String)
        ensures
            s@ == self@.describe(),
    {
        let mut s = self.name.clone();
        s.append(" [");
        s.append(self.category.label());
        s.append("]; notes: ");
        s.append(self.notes.as_str());
        s.append("; invitees: ");
        let ghost head = s@;
        let ghost people = person_views(self.invitees@);
        let mut i: usize = 0;
        while i < self.invitees.len()
            invariant
                i <= self.invitees.len(),
                people == person_views(self.invitees@),
                s@ == head + listed(people.take(i as int)),
            decreases self.invitees.len() - i,
        {
            if i > 0 {
                s.append(", ");
            }
            let label = self.invitees[i].label();
            s.append(label.as_str());
            assert(people.take(i as int + 1).drop_last() =~= people.take(i as int));
            i += 1;
        }
        assert(people.take(i as int) =~= people);
        s
    }
}

impl Clone for Event {
    fn clone(&self) -> (e: Event)
        ensures
            e@ == self@,
    {
        Event {
            name: self.name.clone(),
            notes: self.notes.clone(),
            invitees: clone_people(&self.invitees),
            category: self.category,
        }
    }
}

impl PartialEq for Event {
    fn eq(&self, other: &Event) -> (b: bool) {
        self.name == other.name && self.notes == other.notes && same_people(
            &self.invitees,
            &other.invitees,
        ) && self.category == other.category
    }
}

impl PartialEqSpecImpl for Event {
    open spec fn obeys_eq_spec() -> bool {
        true
    }

    open spec fn eq_spec(&self, other: &Event) -> bool {
        self@ == other@
    }
}

/// A field of an event that an edit can change.
#[derive(Clone, Copy, Debug, PartialEq, Eq, Structural)]
pub enum Field {
    Name,
    Notes,
    Invitees,
    Category,
}

impl Field {
    /// The selector that names the field.
    pub open spec fn label_spec(self) -> Seq<char> {
        match self {
            Field::Name => "name"@,
            Field::Notes => "notes"@,
            Field::Invitees => "invitees"@,
            Field::Category => "category"@,
        }
    }

    /// The field that a selector names, if it names one.
    pub open spec fn parse_spec(selector: Seq<char>) -> Option<Field> {
        if selector == "name"@ {
            Some(Field::Name)
        } else if selector == "notes"@ {
            Some(Field::Notes)
        } else if selector == "invitees"@ {
            Some(Field::Invitees)
        } else if selector == "category"@ {
            Some(Field::Category)
        } else {
            None
        }
    }

    /// The selector that names the field.
    pub fn label(&self) -> (s: &'static str)
        ensures
            s@ == self.label_spec(),
    {
        match self {
            Field::Name => "name",
            Field::Notes => "notes",
            Field::Invitees => "invitees",
            Field::Category => "category",
        }
    }

    /// Reads a selector: `name`, `notes`, `invitees` or `category`, written
    /// exactly so. Any other text names no field.
    pub fn parse(selector: &str) -> (field: Option<Field>)
        ensures
            field == Field::parse_spec(selector@),
    {
        if same_text(selector, "name") {
            Some(Field::Name)
        } else if same_text(selector, "notes") {
            Some(Field::Notes)
        } else if same_text(selector, "invitees") {
            Some(Field::Invitees)
        } else if same_text(selector, "category") {
            Some(Field::Category)
        } else {
            None
        }
    }
}

/// Each field is named by its own selector: reading a field's selector
/// gives that field back.
pub proof fn lemma_label_parses(field: Field)
    ensures
        Field::parse_spec(field.label_spec()) == Some(field),
{
    reveal_strlit("name");
    reveal_strlit("notes");
    reveal_strlit("invitees");
    reveal_strlit("category");
    assert("notes"@.len() == 5);
    assert("category"@[0] == 'c');
    assert("invitees"@[0] == 'i');
}

/// What the menu of an edit offers: to change one field, or to apply what
/// has been changed.
#[derive(Clone, Copy, Debug, PartialEq, Eq, Structural)]
pub enum EditChoice {
    Change(Field),
    Apply,
}

impl EditChoice {
    /// The choice as it is shown in the menu.
    pub open spec fn label_spec(self) -> Seq<char> {
        match self {
            EditChoice::Change(field) => field.label_spec(),
            EditChoice::Apply => "OK"@,
        }
    }

    /// Every choice of the menu of an edit, in the order in which it offers
    /// them: the four fields, then to apply.
    pub fn all() -> (v: Vec<EditChoice>)
        ensures
            v@ == seq![
                EditChoice::Change(Field::Name),
                EditChoice::Change(Field::Notes),
                EditChoice::Change(Field::Invitees),
                EditChoice::Change(Field::Category),
                EditChoice::Apply,
            ],
    {
        let mut v: Vec<EditChoice> = Vec::new();
        v.push(EditChoice::Change(Field::Name));
        v.push(EditChoice::Change(Field::Notes));
        v.push(EditChoice::Change(Field::Invitees));
        v.push(EditChoice::Change(Field::Category));
        v.push(EditChoice::Apply);
        v
    }

    /// The choice as it is shown in the menu.
    pub fn label(&self) -> (s: &'static str)
        ensures
            s@ == self.label_spec(),
    {
        match self {
            EditChoice::Change(field) => field.label(),
            EditChoice::Apply => "OK",
        }
    }
}

/// Whether every place in `picks` is a place in a list of `len` items.
pub open spec fn picks_fit(len: nat, picks: Seq<usize>) -> bool {
    forall|k: int| 0 <= k < picks.len() ==> picks[k] < len
}

/// The contacts at the places `picks`, in the order of `picks`.
pub open spec fn picked(contacts: Seq<PersonView>, picks: Seq<usize>) -> Seq<PersonView> {
    picks.map_values(|i: usize| contacts[i as int])
}

/// Takes the contacts at the places `picks` out of the contact list, in
/// the order of `picks`. A place may occur twice. There is no result if a
/// place lies beyond the end of the list.
pub fn pick_people(contacts: &Vec<Person>, picks: &Vec<usize>) -> (people: Option<Vec<Person>>)
    ensures
        people is Some <==> picks_fit(contacts@.len(), picks@),
        people matches Some(chosen) ==> person_views(chosen@) == picked(
            person_views(contacts@),
            picks@,
        ),
{
    let mut chosen: Vec<Person> = Vec::new();
    let mut k: usize = 0;
    while k < picks.len()
        invariant
            k <= picks.len(),
            chosen.len() == k,
            forall|j: int| 0 <= j < k ==> picks[j] < contacts.len(),
            forall|j: int| 0 <= j < k ==> chosen[j]@ == contacts[picks[j] as int]@,
        decreases picks.len() - k,
    {
        let i = picks[k];
        if i >= contacts.len() {
            return None;
        }
        chosen.push(contacts[i].clone());
        k += 1;
    }
    Some(chosen)
}

/// The event that an edit of one field makes of `event`: the field holds
/// what the reply gives, the other three fields are those of `event`.
/// There is none if the reply is no answer to the field's prompt.
///
/// A name and notes are typed text. Invitees are places in the contact
/// list. A category is one of the categories.
pub open spec fn edit_spec(
    event: EventView,
    field: Field,
    contacts: Seq<PersonView>,
    reply: ReplyView,
) -> Option<EventView> {
    match (field, reply) {
        (Field::Name, ReplyView::Text(name)) => Some(EventView { name: name, ..event }),
        (Field::Notes, ReplyView::Text(notes)) => Some(EventView { notes: notes, ..event }),
        (Field::Invitees, ReplyView::PickedMany(picks)) => if picks_fit(contacts.len(), picks) {
            Some(EventView { invitees: picked(contacts, picks), ..event })
        } else {
            None
        },
        (Field::Category, ReplyView::Category(category)) => Some(
            EventView { category: category, ..event },
        ),
        _ => None,
    }
}

/// Whether a reply to the prompt of `field` gives the value that the field
/// of `event` holds already.
pub open spec fn restates(
    event: EventView,
    field: Field,
    contacts: Seq<PersonView>,
    reply: ReplyView,
) -> bool {
    match field {
        Field::Name => reply == ReplyView::Text(event.name),
        Field::Notes => reply == ReplyView::Text(event.notes),
        Field::Invitees => reply matches ReplyView::PickedMany(picks) && picks_fit(
            contacts.len(),
            picks,
        ) && picked(contacts, picks) == event.invitees,
        Field::Category => reply == ReplyView::Category(event.category),
    }
}

/// An edit in which the user gives the value that the field holds already
/// makes an event equal to the one that was edited, whichever field it is.
pub proof fn lemma_edit_unchanged(
    event: EventView,
    field: Field,
    contacts: Seq<PersonView>,
    reply: ReplyView,
)
    requires
        restates(event, field, contacts, reply),
    ensures
        edit_spec(event, field, contacts, reply) == Some(event),
{
}

/// An edit changes the one field that was asked for and no other.
pub proof fn lemma_edit_keeps_other_fields(
    event: EventView,
    field: Field,
    contacts: Seq<PersonView>,
    reply: ReplyView,
)
    requires
        edit_spec(event, field, contacts, reply) is Some,
    ensures
        ({
            let edited = edit_spec(event, field, contacts, reply)->0;
            &&& field != Field::Name ==> edited.name == event.name
            &&& field != Field::Notes ==> edited.notes == event.notes
            &&& field != Field::Invitees ==> edited.invitees == event.invitees
            &&& field != Field::Category ==> edited.category == event.category
        }),
{
}

impl Event {
    /// Makes of `event` the event in which `field` holds what `reply`
    /// gives. The result is `None` if `reply` is a cancellation, or no
    /// answer to the prompt of `field`: text for a name or for notes, places
    /// in `contacts` for invitees, a category for the category.
    pub fn revise(event: &Event, field: Field, contacts: &Vec<Person>, reply: Reply) -> (edited:
        Option<Event>)
        ensures
            (match edited {
                Some(e) => Some(e@),
                None => None,
            }) == edit_spec(event@, field, person_views(contacts@), reply@),
    {
        match (field, reply) {
            (Field::Name, Reply::Text(name)) => Some(
                Event {
                    name,
                    notes: event.notes.clone(),
                    invitees: clone_people(&event.invitees),
                    category: event.category,
                },
            ),
            (Field::Notes, Reply::Text(notes)) => Some(
                Event {
                    name: event.name.clone(),
                    notes,
                    invitees: clone_people(&event.invitees),
                    category: event.category,
                },
            ),
            (Field::Invitees, Reply::PickedMany(picks)) => match pick_people(contacts, &picks) {
                Some(invitees) => Some(
                    Event {
                        name: event.name.clone(),
                        notes: event.notes.clone(),
                        invitees,
                        category: event.category,
                    },
                ),
                None => None,
            },
            (Field::Category, Reply::Category(category)) => Some(
                Event {
                    name: event.name.clone(),
                    notes: event.notes.clone(),
                    invitees: clone_people(&event.invitees),
                    category,
                },
            ),
            _ => None,
        }
    }

    /// Edits the field that `field` names: `name`, `notes`, `invitees` or
    /// `category`. See [`Event::revise`] for the result.
    ///
    /// Any other selector is a mistake of the caller, who has to rule it
    /// out.
    pub fn edit(event: &Event, field: &str, contacts: &Vec<Person>, reply: Reply) -> (edited:
        Option<Event>)
        requires
            Field::parse_spec(field@) is Some,
        ensures
            (match edited {
                Some(e) => Some(e@),
                None => None,
            }) == edit_spec(
                event@,
                Field::parse_spec(field@)->0,
                person_views(contacts@),
                reply@,
            ),
    {
        match Field::parse(field) {
            Some(f) => Event::revise(event, f, contacts, reply),
            None => None,
        }
    }
}

} // verus!
