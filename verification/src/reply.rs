//! What a driver hands back to the library after it has asked the user, or
//! the disk, what the library wanted to know.

use vstd::prelude::*;

use crate::action::{Action, ManageAction};
use crate::category::Category;
use crate::event::{event_views, EditChoice, Event, EventView};
use crate::text::text_views;

verus! {

/// The mathematical value of a [`Reply`].
pub enum ReplyView {
    Cancelled,
    Action(Action),
    Manage(ManageAction),
    Choice(EditChoice),
    Category(Category),
    Picked(usize),
    PickedMany(Seq<usize>),
    Text(Seq<char>),
    Confirmed(bool),
    Exists(bool),
    Written,
    Files(Seq<Seq<char>>),
    Loaded(Seq<EventView>),
}

/// One answer to what the library waits on.
///
/// Where the user chose from a list, the answer is the place of the choice
/// in that list, counted from zero.
#[derive(Debug, PartialEq)]
pub enum Reply {
    /// The user left the prompt without an answer.
    Cancelled,
    /// The choice in the main menu.
    Action(Action),
    /// The choice in the manage menu.
    Manage(ManageAction),
    /// The choice in the menu of an edit: a field, or to apply.
    Choice(EditChoice),
    /// The category that was chosen.
    Category(Category),
    /// The place of the one item that was chosen from a list.
    Picked(usize),
    /// The places of the items that were chosen from a list, in the order
    /// in which they were chosen.
    PickedMany(Vec<usize>),
    /// The text that was typed.
    Text(String),
    /// Yes or no.
    Confirmed(bool),
    /// Whether the file that was asked about is in the storage directory.
    Exists(bool),
    /// The events were written to the file.
    Written,
    /// The names of the files in the storage directory.
    Files(Vec<String>),
    /// The events that the file held.
    Loaded(Vec<Event>),
}

impl View for Reply {
    type V = ReplyView;

    open spec fn view(&self) -> ReplyView {
        match self {
            Reply::Cancelled => ReplyView::Cancelled,
            Reply::Action(a) => ReplyView::Action(*a),
            Reply::Manage(m) => ReplyView::Manage(*m),
            Reply::Choice(c) => ReplyView::Choice(*c),
            Reply::Category(c) => ReplyView::Category(*c),
            Reply::Picked(i) => ReplyView::Picked(*i),
            Reply::PickedMany(picks) => ReplyView::PickedMany(picks@),
            Reply::Text(s) => ReplyView::Text(s@),
            Reply::Confirmed(b) => ReplyView::Confirmed(*b),
            Reply::Exists(b) => ReplyView::Exists(*b),
            Reply::Written => ReplyView::Written,
            Reply::Files(files) => ReplyView::Files(text_views(files@)),
            Reply::Loaded(events) => ReplyView::Loaded(event_views(events@)),
        }
    }
}

/// The values of a list of replies, in the list's order.
pub open spec fn reply_views(replies: Seq<Reply>) -> Seq<ReplyView> {
    replies.map_values(|r: Reply| r@)
}

} // verus!
