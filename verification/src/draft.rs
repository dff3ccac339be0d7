//! The creation of an event, one prompt after the other.
//!
//! A draft holds what has been answered so far and thereby says what is
//! asked next: the name, whether there are to be notes, the notes if so,
//! the invitees, the category. A cancellation at any prompt ends the flow
//! without an event.

use vstd::prelude::*;

use crate::category::Category;
use crate::event::{pick_people, picked, picks_fit, Event, EventView};
use crate::person::{person_views, Person, PersonView};
use crate::reply::{reply_views, Reply, ReplyView};

verus! {

/// The mathematical value of a [`Draft`].
pub enum DraftView {
    Name,
    WantNotes { name: Seq<char> },
    Notes { name: Seq<char> },
    Invitees { name: Seq<char>, notes: Seq<char> },
    Category { name: Seq<char>, notes: Seq<char>, invitees: Seq<PersonView> },
}

/// An event in the making. Each variant is named after what is asked next
/// and holds what has been answered before.
#[derive(Debug, PartialEq)]
pub enum Draft {
    /// Asks for the name: free text.
    Name,
    /// Asks whether the event is to have notes: yes or no.
    WantNotes { name: String },
    /// Asks for the notes: free text.
    Notes { name: String },
    /// Asks whom to invite: any number of contacts.
    Invitees { name: String, notes: String },
    /// Asks for the category: one of the categories.
    Category { name: String, notes: String, invitees: Vec<Person> },
}

impl View for Draft {
    type V = DraftView;

    open spec fn view(&self) -> DraftView {
        match self {
            Draft::Name => DraftView::Name,
            Draft::WantNotes { name } => DraftView::WantNotes { name: name@ },
            Draft::Notes { name } => DraftView::Notes { name: name@ },
            Draft::Invitees { name, notes } => DraftView::Invitees { name: name@, notes: notes@ },
            Draft::Category { name, notes, invitees } => DraftView::Category {
                name: name@,
                notes: notes@,
                invitees: person_views(invitees@),
            },
        }
    }
}

/// The mathematical value of a [`Progress`].
pub enum ProgressView {
    Next(DraftView),
    Created(EventView),
    Cancelled,
    Unexpected(DraftView),
}

/// What an answer made of a draft.
#[derive(Debug, PartialEq)]
pub enum Progress {
    /// The answer was taken, and there is more to ask.
    Next(Draft),
    /// The last answer was taken: this is the event.
    Created(Event),
    /// The user cancelled: there is no event, and nothing is left of the
    /// draft.
    Cancelled,
    /// The reply was no answer to what the draft asks. The draft is handed
    /// back as it was.
    Unexpected(Draft),
}

impl View for Progress {
    type V = ProgressView;

    open spec fn view(&self) -> ProgressView {
        match self {
            Progress::Next(draft) => ProgressView::Next(draft@),
            Progress::Created(event) => ProgressView::Created(event@),
            Progress::Cancelled => ProgressView::Cancelled,
            Progress::Unexpected(draft) => ProgressView::Unexpected(draft@),
        }
    }
}

/// What a reply makes of a draft.
///
/// Without notes the notes are the empty text, and the prompt for them is
/// left out.
pub open spec fn draft_step(
    draft: DraftView,
    contacts: Seq<PersonView>,
    reply: ReplyView,
) -> ProgressView {
    match (draft, reply) {
        (_, ReplyView::Cancelled) => ProgressView::Cancelled,
        (DraftView::Name, ReplyView::Text(name)) => ProgressView::Next(
            DraftView::WantNotes { name },
        ),
        (DraftView::WantNotes { name }, ReplyView::Confirmed(wanted)) => if wanted {
            ProgressView::Next(DraftView::Notes { name })
        } else {
            ProgressView::Next(DraftView::Invitees { name, notes: Seq::empty() })
        },
        (DraftView::Notes { name }, ReplyView::Text(notes)) => ProgressView::Next(
            DraftView::Invitees { name, notes },
        ),
        (DraftView::Invitees { name, notes }, ReplyView::PickedMany(picks)) => if picks_fit(
            contacts.len(),
            picks,
        ) {
            ProgressView::Next(
                DraftView::Category { name, notes, invitees: picked(contacts, picks) },
            )
        } else {
            ProgressView::Unexpected(draft)
        },
        (DraftView::Category { name, notes, invitees }, ReplyView::Category(category)) => {
            ProgressView::Created(EventView { name, notes, invitees, category })
        },
        _ => ProgressView::Unexpected(draft),
    }
}

/// The event that a draft becomes when it is given the replies one after
/// the other, if it becomes one: none if a reply is a cancellation or no
/// answer, or if the replies end before the event is made. Replies after
/// the one that makes the event are not looked at.
pub open spec fn draft_run(
    draft: DraftView,
    contacts: Seq<PersonView>,
    replies: Seq<ReplyView>,
) -> Option<EventView>
    decreases replies.len(),
{
    if replies.len() == 0 {
        None
    } else {
        match draft_step(draft, contacts, replies.first()) {
            ProgressView::Next(next) => draft_run(next, contacts, replies.drop_first()),
            ProgressView::Created(event) => Some(event),
            ProgressView::Cancelled => None,
            ProgressView::Unexpected(_) => None,
        }
    }
}

/// The event that the creation flow makes of a list of replies, said
/// without the flow: the replies begin with a name, then either a "no" to
/// notes, or a "yes" and the notes, then places in the contact list, then a
/// category.
pub open spec fn created_from(contacts: Seq<PersonView>, replies: Seq<ReplyView>) -> Option<
    EventView,
> {
    if replies.len() >= 4 && replies[0] is Text && replies[1] == ReplyView::Confirmed(false)
        && replies[2] is PickedMany && picks_fit(contacts.len(), replies[2]->PickedMany_0)
        && replies[3] is Category {
        Some(
            EventView {
                name: replies[0]->Text_0,
                notes: Seq::empty(),
                invitees: picked(contacts, replies[2]->PickedMany_0),
                category: replies[3]->Category_0,
            },
        )
    } else if replies.len() >= 5 && replies[0] is Text && replies[1] == ReplyView::Confirmed(true)
        && replies[2] is Text && replies[3] is PickedMany && picks_fit(
        contacts.len(),
        replies[3]->PickedMany_0,
    ) && replies[4] is Category {
        Some(
            EventView {
                name: replies[0]->Text_0,
                notes: replies[2]->Text_0,
                invitees: picked(contacts, replies[3]->PickedMany_0),
                category: replies[4]->Category_0,
            },
        )
    } else {
        None
    }
}

/// The creation flow, run from its first prompt over a list of replies,
/// makes exactly the event that [`created_from`] reads off the list.
pub proof fn lemma_run_is_created_from(contacts: Seq<PersonView>, replies: Seq<ReplyView>)
    ensures
        draft_run(DraftView::Name, contacts, replies) == created_from(contacts, replies),
{
    reveal_with_fuel(draft_run, 6);
}

/// A cancellation ends the creation at whichever prompt it comes, and
/// nothing is left of what was answered before.
pub proof fn lemma_cancel_ends_creation(draft: DraftView, contacts: Seq<PersonView>)
    ensures
        draft_step(draft, contacts, ReplyView::Cancelled) == ProgressView::Cancelled,
{
}

/// The number of replies that the creation flow takes: four, or five
/// where the second is a yes to notes.
pub open spec fn asked(replies: Seq<ReplyView>) -> int {
    if replies.len() >= 2 && replies[1] == ReplyView::Confirmed(true) {
        5
    } else {
        4
    }
}

/// An event is created only if every prompt of the flow got its answer:
/// the replies are as many as the flow takes, and none of those is a
/// cancellation.
pub proof fn lemma_created_only_from_answers(contacts: Seq<PersonView>, replies: Seq<ReplyView>)
    requires
        created_from(contacts, replies) is Some,
    ensures
        replies.len() >= asked(replies),
        forall|i: int| 0 <= i < asked(replies) ==> !(#[trigger] replies[i] is Cancelled),
{
}

impl Draft {
    /// The draft with which every creation begins: nothing is answered,
    /// the name is asked.
    pub fn start() -> (draft: Draft)
        ensures
            draft@ == DraftView::Name,
    {
        Draft::Name
    }

    /// Takes the reply to what the draft asks.
    pub fn answer(self, contacts: &Vec<Person>, reply: Reply) -> (progress: Progress)
        ensures
            progress@ == draft_step(self@, person_views(contacts@), reply@),
    {
        match (self, reply) {
            (_, Reply::Cancelled) => Progress::Cancelled,
            (Draft::Name, Reply::Text(name)) => Progress::Next(Draft::WantNotes { name }),
            (Draft::WantNotes { name }, Reply::Confirmed(wanted)) => if wanted {
                Progress::Next(Draft::Notes { name })
            } else {
                Progress::Next(Draft::Invitees { name, notes: String::new() })
            },
            (Draft::Notes { name }, Reply::Text(notes)) => Progress::Next(
                Draft::Invitees { name, notes },
            ),
            (Draft::Invitees { name, notes }, Reply::PickedMany(picks)) => {
                match pick_people(contacts, &picks) {
                    Some(invitees) => Progress::Next(Draft::Category { name, notes, invitees }),
                    None => Progress::Unexpected(Draft::Invitees { name, notes }),
                }
            },
            (Draft::Category { name, notes, invitees }, Reply::Category(category)) => {
                Progress::Created(Event::from_parts(name, notes, invitees, category))
            },
            (draft, _) => Progress::Unexpected(draft),
        }
    }
}

impl Event {
    /// Creates an event from the answers to the prompts of the creation
    /// flow, given in the order in which the flow asks: the name, whether
    /// there are to be notes, the notes if there are, the invitees as
    /// places in `contacts`, the category.
    ///
    /// The result is `None` if a reply is a cancellation or no answer to
    /// its prompt, or if the replies end too early. No part of an event is
    /// handed out then.
    pub fn new(contacts: &Vec<Person>, replies: Vec<Reply>) -> (event: Option<Event>)
        ensures
            (match event {
                Some(e) => Some(e@),
                None => None,
            }) == created_from(person_views(contacts@), reply_views(replies@)),
    {
        let mut draft = Draft::start();
        let ghost people = person_views(contacts@);
        let ghost all = reply_views(replies@);
        proof {
            lemma_run_is_created_from(people, all);
            assert(all.skip(0) =~= all);
        }
        for reply in it: replies
            invariant
                people == person_views(contacts@),
                all == reply_views(it.seq()),
                draft_run(draft@, people, all.skip(it.index() as int)) == created_from(people, all),
        {
            assert(all.skip(it.index() as int).drop_first() =~= all.skip(it.index() as int + 1));
            match draft.answer(contacts, reply) {
                Progress::Next(next) => {
                    draft = next;
                },
                Progress::Created(event) => {
                    return Some(event);
                },
                Progress::Cancelled => {
                    return None;
                },
                Progress::Unexpected(_) => {
                    return None;
                },
            }
        }
        None
    }
}

} // verus!
