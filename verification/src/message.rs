//! What the session tells the user after a step.

use vstd::prelude::*;

verus! {

/// The mathematical value of a [`Message`].
pub enum MessageView {
    NothingToEdit,
    Edited(Seq<char>),
    NoChanges,
    NoEventsLeft,
    Deleted(Seq<char>),
    NothingDeleted,
    NothingToSave,
    NothingSaved,
    Saved(Seq<char>),
    NoFiles,
    NothingLoaded,
    Loaded(Seq<char>),
    Goodbye,
}

impl MessageView {
    /// The line that is shown to the user.
    pub open spec fn text(self) -> Seq<char> {
        match self {
            MessageView::NothingToEdit => "There are no events to edit."@,
            MessageView::Edited(name) => "Event "@ + name + " successfully edited."@,
            MessageView::NoChanges => "No changes made."@,
            MessageView::NoEventsLeft => "No events left."@,
            MessageView::Deleted(name) => "Event "@ + name + " successfully deleted."@,
            MessageView::NothingDeleted => "Ok, no events deleted."@,
            MessageView::NothingToSave => "No events to save."@,
            MessageView::NothingSaved => "Ok, no events saved."@,
            MessageView::Saved(file) => "Events successfully saved to "@ + file + "."@,
            MessageView::NoFiles => "No saved events to load."@,
            MessageView::NothingLoaded => "Ok, no events loaded."@,
            MessageView::Loaded(file) => "Events successfully loaded from "@ + file + "."@,
            MessageView::Goodbye => "Goodbye! 👋"@,
        }
    }
}

/// What the session has to say after a step.
#[derive(Debug, PartialEq, Eq)]
pub enum Message {
    /// Edit was chosen, and the session holds no event.
    NothingToEdit,
    /// The event of this name took the place of the one that was edited.
    Edited(String),
    /// An edit was applied that changed nothing.
    NoChanges,
    /// Delete was chosen, and the session holds no event.
    NoEventsLeft,
    /// The event of this name was deleted.
    Deleted(String),
    /// The user declined to delete.
    NothingDeleted,
    /// Save was chosen, and the session holds no event.
    NothingToSave,
    /// The user declined to overwrite the file.
    NothingSaved,
    /// The events were saved to the file of this name.
    Saved(String),
    /// Load was chosen, and the storage directory holds no file.
    NoFiles,
    /// The user declined to replace the events of the session.
    NothingLoaded,
    /// The events of the file of this name are now those of the session.
    Loaded(String),
    /// The user quit.
    Goodbye,
}

impl View for Message {
    type V = MessageView;

    open spec fn view(&self) -> MessageView {
        match self {
            Message::NothingToEdit => MessageView::NothingToEdit,
            Message::Edited(name) => MessageView::Edited(name@),
            Message::NoChanges => MessageView::NoChanges,
            Message::NoEventsLeft => MessageView::NoEventsLeft,
            Message::Deleted(name) => MessageView::Deleted(name@),
            Message::NothingDeleted => MessageView::NothingDeleted,
            Message::NothingToSave => MessageView::NothingToSave,
            Message::NothingSaved => MessageView::NothingSaved,
            Message::Saved(file) => MessageView::Saved(file@),
            Message::NoFiles => MessageView::NoFiles,
            Message::NothingLoaded => MessageView::NothingLoaded,
            Message::Loaded(file) => MessageView::Loaded(file@),
            Message::Goodbye => MessageView::Goodbye,
        }
    }
}

/// The text `before`, then `middle`, then `after`.
fn framed(before: &str, middle: &str, after: &str) -> (s: String)
    ensures
        s@ == before@ + middle@ + after@,
{
    let mut s = String::from_str(before);
    s.append(middle);
    s.append(after);
    s
}

impl Message {
    /// The line that is shown to the user.
    pub fn text(&self) -> (s: String)
        ensures
            s@ == self@.text(),
    {
        match self {
            Message::NothingToEdit => String::from_str("There are no events to edit."),
            Message::Edited(name) => framed("Event ", name.as_str(), " successfully edited."),
            Message::NoChanges => String::from_str("No changes made."),
            Message::NoEventsLeft => String::from_str("No events left."),
            Message::Deleted(name) => framed("Event ", name.as_str(), " successfully deleted."),
            Message::NothingDeleted => String::from_str("Ok, no events deleted."),
            Message::NothingToSave => String::from_str("No events to save."),
            Message::NothingSaved => String::from_str("Ok, no events saved."),
            Message::Saved(file) => framed("Events successfully saved to ", file.as_str(), "."),
            Message::NoFiles => String::from_str("No saved events to load."),
            Message::NothingLoaded => String::from_str("Ok, no events loaded."),
            Message::Loaded(file) => framed(
                "Events successfully loaded from ",
                file.as_str(),
                ".",
            ),
            Message::Goodbye => String::from_str("Goodbye! 👋"),
        }
    }
}

} // verus!
