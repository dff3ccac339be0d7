//! The rules of a small event planner: contacts, categories, events, and
//! the session in which events are created, edited, deleted, saved and
//! loaded.
//!
//! The library touches neither a terminal nor a disk. A [`Session`] is a
//! state machine: its [`State`] says what it waits on, a prompt to the user
//! or a question to the disk. A driver gets the answer, hands it to
//! [`Session::step`] as a [`Reply`], and shows the [`Message`] that comes
//! back, until the session has finished.
//!
//! What each function does is stated in its contract, over the
//! mathematical value of each type: its view. The modules also hold what
//! follows from the contracts and is worth knowing, as proof functions:
//! that a deletion leaves no copy of the deleted event, that a cancellation
//! changes no list, that an edit which restates a field changes nothing.

pub mod action;
pub mod category;
pub mod draft;
pub mod event;
pub mod message;
pub mod person;
pub mod reply;
pub mod session;
pub mod text;

pub use crate::action::{Action, ManageAction};
pub use crate::category::Category;
pub use crate::draft::{Draft, Progress};
pub use crate::event::{EditChoice, Event, Field};
pub use crate::message::Message;
pub use crate::person::Person;
pub use crate::reply::Reply;
pub use crate::session::{Session, State, StepError};
