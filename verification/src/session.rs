//! The session: the events that are being planned, and the menus that
//! lead from one prompt to the next.
//!
//! A session is a state machine. Its state says what it waits on: an
//! answer of the user to a prompt, or an answer of the disk. A driver asks
//! that question and hands the answer to [`Session::step`], which moves the
//! session on and may have a line to show. The session itself never
//! touches a terminal or a file.

use vstd::prelude::*;
use vstd::seq_lib::lemma_seq_contains_after_push;

use crate::action::{Action, ManageAction};
use crate::draft::{draft_step, Draft, DraftView, Progress, ProgressView};
use crate::event::{
    edit_spec, event_views, lemma_edit_unchanged, restates, EditChoice, Event, EventView, Field,
};
use crate::message::{Message, MessageView};
use crate::person::{person_views, Person, PersonView};
use crate::reply::{Reply, ReplyView};
use crate::text::text_views;

verus! {

/// The test that an event differs from `target` in at least one field.
pub open spec fn differs_from(target: EventView) -> spec_fn(EventView) -> bool {
    |e: EventView| e != target
}

/// The list without the events that equal `target`, however many they
/// are. The others keep their order.
pub open spec fn without(events: Seq<EventView>, target: EventView) -> Seq<EventView> {
    events.filter(differs_from(target))
}

/// The directory, below the one in which the program runs, that holds the
/// saved files.
pub const STORAGE_DIR: &'static str = "events";

/// What is added to the name that the user gives to a save.
pub const EXTENSION: &'static str = ".json";

/// The name of the file to which a save under `stem` goes: the extension
/// is always added, also where the stem ends in it already.
pub open spec fn file_name(stem: Seq<char>) -> Seq<char> {
    stem + EXTENSION@
}

/// The mathematical value of a [`State`].
pub enum StateView {
    MainMenu,
    Creating(DraftView),
    ManageMenu,
    EditSelect,
    EditMenu { target: EventView, proposal: EventView },
    EditField { target: EventView, proposal: EventView, field: Field },
    DeleteSelect,
    DeleteConfirm { target: EventView },
    SaveName,
    SaveCheck { file: Seq<char> },
    SaveConfirm { file: Seq<char> },
    SaveWrite { file: Seq<char> },
    LoadList,
    LoadSelect { files: Seq<Seq<char>> },
    LoadRead { file: Seq<char> },
    LoadConfirm { file: Seq<char>, loaded: Seq<EventView> },
    Quit,
}

/// What the session waits on.
#[derive(Debug, PartialEq)]
pub enum State {
    /// The main menu: one of [`Action::all`].
    MainMenu,
    /// The prompt of the draft, see [`Draft`].
    Creating(Draft),
    /// The manage menu: one of [`ManageAction::all`].
    ManageMenu,
    /// Which event to edit: one of the session's events.
    EditSelect,
    /// The menu of an edit: one of [`EditChoice::all`]. `target` is the
    /// event that was chosen, `proposal` what is to take its place: the
    /// chosen event with every change made so far.
    EditMenu { target: Event, proposal: Event },
    /// The new value of `field` of the proposal: text for a name or for
    /// notes, any number of contacts for invitees, a category for the
    /// category.
    EditField { target: Event, proposal: Event, field: Field },
    /// Which event to delete: one of the session's events.
    DeleteSelect,
    /// Whether to delete `target`: yes or no.
    DeleteConfirm { target: Event },
    /// Under which name to save: free text.
    SaveName,
    /// Whether the storage directory holds `file`. The disk answers.
    SaveCheck { file: String },
    /// Whether to overwrite `file`: yes or no.
    SaveConfirm { file: String },
    /// The session's events are to be written to `file`. The disk answers.
    SaveWrite { file: String },
    /// The names of the files in the storage directory. The disk answers.
    LoadList,
    /// From which file to load: one of `files`.
    LoadSelect { files: Vec<String> },
    /// The events that `file` holds. The disk answers.
    LoadRead { file: String },
    /// Whether `loaded` is to replace the session's events: yes or no.
    LoadConfirm { file: String, loaded: Vec<Event> },
    /// Nothing: the user has quit.
    Quit,
}

impl View for State {
    type V = StateView;

    open spec fn view(&self) -> StateView {
        match self {
            State::MainMenu => StateView::MainMenu,
            State::Creating(draft) => StateView::Creating(draft@),
            State::ManageMenu => StateView::ManageMenu,
            State::EditSelect => StateView::EditSelect,
            State::EditMenu { target, proposal } => StateView::EditMenu {
                target: target@,
                proposal: proposal@,
            },
            State::EditField { target, proposal, field } => StateView::EditField {
                target: target@,
                proposal: proposal@,
                field: *field,
            },
            State::DeleteSelect => StateView::DeleteSelect,
            State::DeleteConfirm { target } => StateView::DeleteConfirm { target: target@ },
            State::SaveName => StateView::SaveName,
            State::SaveCheck { file } => StateView::SaveCheck { file: file@ },
            State::SaveConfirm { file } => StateView::SaveConfirm { file: file@ },
            State::SaveWrite { file } => StateView::SaveWrite { file: file@ },
            State::LoadList => StateView::LoadList,
            State::LoadSelect { files } => StateView::LoadSelect { files: text_views(files@) },
            State::LoadRead { file } => StateView::LoadRead { file: file@ },
            State::LoadConfirm { file, loaded } => StateView::LoadConfirm {
                file: file@,
                loaded: event_views(loaded@),
            },
            State::Quit => StateView::Quit,
        }
    }
}

/// Why a reply was not taken.
#[derive(Clone, Copy, Debug, PartialEq, Eq, Structural)]
pub enum StepError {
    /// The reply is no answer to what the session waits on.
    Unexpected,
    /// The user has quit: the session takes no more replies.
    Finished,
}

/// The mathematical value of a [`Session`].
pub struct SessionView {
    pub contacts: Seq<PersonView>,
    pub events: Seq<EventView>,
    pub state: StateView,
}

/// A session after a step, with the line that the step has to show.
pub struct StepView {
    pub session: SessionView,
    pub message: Option<MessageView>,
}

impl SessionView {
    /// The step to `state` that changes no list and says nothing.
    pub open spec fn at(self, state: StateView) -> Option<StepView> {
        Some(StepView { session: SessionView { state, ..self }, message: None })
    }

    /// The step back to the main menu that changes no list and says
    /// nothing.
    pub open spec fn home(self) -> Option<StepView> {
        self.at(StateView::MainMenu)
    }

    /// The step back to the main menu that changes no list and says
    /// `message`.
    pub open spec fn home_saying(self, message: MessageView) -> Option<StepView> {
        Some(
            StepView {
                session: SessionView { state: StateView::MainMenu, ..self },
                message: Some(message),
            },
        )
    }

    /// The step back to the main menu after which the session holds
    /// `events`.
    pub open spec fn home_with(
        self,
        events: Seq<EventView>,
        message: Option<MessageView>,
    ) -> Option<StepView> {
        Some(
            StepView {
                session: SessionView { state: StateView::MainMenu, events, ..self },
                message,
            },
        )
    }

    /// The main menu. New begins a draft, Manage opens the manage menu,
    /// Quit ends the session. A cancellation leaves the menu open.
    pub open spec fn main_menu(self, reply: ReplyView) -> Option<StepView> {
        match reply {
            ReplyView::Action(Action::New) => self.at(StateView::Creating(DraftView::Name)),
            ReplyView::Action(Action::Manage) => self.at(StateView::ManageMenu),
            ReplyView::Action(Action::Quit) => Some(
                StepView {
                    session: SessionView { state: StateView::Quit, ..self },
                    message: Some(MessageView::Goodbye),
                },
            ),
            ReplyView::Cancelled => self.home(),
            _ => None,
        }
    }

    /// The creation of an event. The event that the last answer makes is
    /// added at the end of the list. A cancellation adds nothing.
    pub open spec fn creating(self, draft: DraftView, reply: ReplyView) -> Option<StepView> {
        match draft_step(draft, self.contacts, reply) {
            ProgressView::Next(next) => self.at(StateView::Creating(next)),
            ProgressView::Created(event) => self.home_with(self.events.push(event), None),
            ProgressView::Cancelled => self.home(),
            ProgressView::Unexpected(_) => None,
        }
    }

    /// The manage menu. Edit, Delete and Save need an event to work on:
    /// without one they say so and do nothing more.
    pub open spec fn manage_menu(self, reply: ReplyView) -> Option<StepView> {
        match reply {
            ReplyView::Manage(ManageAction::Edit) => if self.events.len() == 0 {
                self.home_saying(MessageView::NothingToEdit)
            } else {
                self.at(StateView::EditSelect)
            },
            ReplyView::Manage(ManageAction::Delete) => if self.events.len() == 0 {
                self.home_saying(MessageView::NoEventsLeft)
            } else {
                self.at(StateView::DeleteSelect)
            },
            ReplyView::Manage(ManageAction::Save) => if self.events.len() == 0 {
                self.home_saying(MessageView::NothingToSave)
            } else {
                self.at(StateView::SaveName)
            },
            ReplyView::Manage(ManageAction::Load) => self.at(StateView::LoadList),
            ReplyView::Cancelled => self.home(),
            _ => None,
        }
    }

    /// The choice of the event to edit. The proposal starts as the event
    /// itself.
    pub open spec fn edit_select(self, reply: ReplyView) -> Option<StepView> {
        match reply {
            ReplyView::Picked(i) => if i < self.events.len() {
                self.at(
                    StateView::EditMenu {
                        target: self.events[i as int],
                        proposal: self.events[i as int],
                    },
                )
            } else {
                None
            },
            ReplyView::Cancelled => self.home(),
            _ => None,
        }
    }

    /// The menu of an edit. To apply a proposal that differs from the
    /// event that was chosen takes every event equal to that one out of the
    /// list and adds the proposal at the end. To apply one that does not
    /// differ changes nothing. A cancellation drops the proposal.
    pub open spec fn edit_menu(
        self,
        target: EventView,
        proposal: EventView,
        reply: ReplyView,
    ) -> Option<StepView> {
        match reply {
            ReplyView::Choice(EditChoice::Change(field)) => self.at(
                StateView::EditField { target, proposal, field },
            ),
            ReplyView::Choice(EditChoice::Apply) => if proposal != target {
                self.home_with(
                    without(self.events, target).push(proposal),
                    Some(MessageView::Edited(proposal.name)),
                )
            } else {
                self.home_saying(MessageView::NoChanges)
            },
            ReplyView::Cancelled => self.home(),
            _ => None,
        }
    }

    /// The new value of a field. The new proposal is the proposal so far
    /// with this one field changed: what was changed before stays changed.
    /// A cancellation keeps the proposal as it was.
    pub open spec fn edit_field(
        self,
        target: EventView,
        proposal: EventView,
        field: Field,
        reply: ReplyView,
    ) -> Option<StepView> {
        if reply is Cancelled {
            self.at(StateView::EditMenu { target, proposal })
        } else {
            match edit_spec(proposal, field, self.contacts, reply) {
                Some(edited) => self.at(StateView::EditMenu { target, proposal: edited }),
                None => None,
            }
        }
    }

    /// The choice of the event to delete.
    pub open spec fn delete_select(self, reply: ReplyView) -> Option<StepView> {
        match reply {
            ReplyView::Picked(i) => if i < self.events.len() {
                self.at(StateView::DeleteConfirm { target: self.events[i as int] })
            } else {
                None
            },
            ReplyView::Cancelled => self.home(),
            _ => None,
        }
    }

    /// The confirmation of a deletion. A yes takes every event equal to the
    /// one that was chosen out of the list.
    pub open spec fn delete_confirm(self, target: EventView, reply: ReplyView) -> Option<
        StepView,
    > {
        match reply {
            ReplyView::Confirmed(true) => self.home_with(
                without(self.events, target),
                Some(MessageView::Deleted(target.name)),
            ),
            ReplyView::Confirmed(false) => self.home_saying(MessageView::NothingDeleted),
            ReplyView::Cancelled => self.home(),
            _ => None,
        }
    }

    /// The name under which to save.
    pub open spec fn save_name(self, reply: ReplyView) -> Option<StepView> {
        match reply {
            ReplyView::Text(stem) => self.at(StateView::SaveCheck { file: file_name(stem) }),
            ReplyView::Cancelled => self.home(),
            _ => None,
        }
    }

    /// Whether the file is there already. If it is, the user is asked
    /// before it is overwritten.
    pub open spec fn save_check(self, file: Seq<char>, reply: ReplyView) -> Option<StepView> {
        match reply {
            ReplyView::Exists(true) => self.at(StateView::SaveConfirm { file }),
            ReplyView::Exists(false) => self.at(StateView::SaveWrite { file }),
            _ => None,
        }
    }

    /// The confirmation to overwrite a file.
    pub open spec fn save_confirm(self, file: Seq<char>, reply: ReplyView) -> Option<StepView> {
        match reply {
            ReplyView::Confirmed(true) => self.at(StateView::SaveWrite { file }),
            ReplyView::Confirmed(false) => self.home_saying(MessageView::NothingSaved),
            ReplyView::Cancelled => self.home(),
            _ => None,
        }
    }

    /// The file has been written.
    pub open spec fn save_write(self, file: Seq<char>, reply: ReplyView) -> Option<StepView> {
        match reply {
            ReplyView::Written => self.home_saying(MessageView::Saved(file)),
            _ => None,
        }
    }

    /// The files that can be loaded. Without a file there is nothing to
    /// choose from, and the session says so.
    pub open spec fn load_list(self, reply: ReplyView) -> Option<StepView> {
        match reply {
            ReplyView::Files(files) => if files.len() == 0 {
                self.home_saying(MessageView::NoFiles)
            } else {
                self.at(StateView::LoadSelect { files })
            },
            _ => None,
        }
    }

    /// The choice of the file to load.
    pub open spec fn load_select(self, files: Seq<Seq<char>>, reply: ReplyView) -> Option<
        StepView,
    > {
        match reply {
            ReplyView::Picked(i) => if i < files.len() {
                self.at(StateView::LoadRead { file: files[i as int] })
            } else {
                None
            },
            ReplyView::Cancelled => self.home(),
            _ => None,
        }
    }

    /// The events of the file. They become the session's events at once if
    /// it holds none. Otherwise the user is asked first.
    pub open spec fn load_read(self, file: Seq<char>, reply: ReplyView) -> Option<StepView> {
        match reply {
            ReplyView::Loaded(loaded) => if self.events.len() == 0 {
                self.home_with(loaded, Some(MessageView::Loaded(file)))
            } else {
                self.at(StateView::LoadConfirm { file, loaded })
            },
            _ => None,
        }
    }

    /// The confirmation to replace the session's events by those of the
    /// file.
    pub open spec fn load_confirm(
        self,
        file: Seq<char>,
        loaded: Seq<EventView>,
        reply: ReplyView,
    ) -> Option<StepView> {
        match reply {
            ReplyView::Confirmed(true) => self.home_with(loaded, Some(MessageView::Loaded(file))),
            ReplyView::Confirmed(false) => self.home_saying(MessageView::NothingLoaded),
            ReplyView::Cancelled => self.home(),
            _ => None,
        }
    }

    /// What a reply makes of the session, and the line to show. There is
    /// no step if the reply is no answer to what the session waits on, or if
    /// the user has quit.
    pub open spec fn step(self, reply: ReplyView) -> Option<StepView> {
        match self.state {
            StateView::MainMenu => self.main_menu(reply),
            StateView::Creating(draft) => self.creating(draft, reply),
            StateView::ManageMenu => self.manage_menu(reply),
            StateView::EditSelect => self.edit_select(reply),
            StateView::EditMenu { target, proposal } => self.edit_menu(target, proposal, reply),
            StateView::EditField { target, proposal, field } => self.edit_field(
                target,
                proposal,
                field,
                reply,
            ),
            StateView::DeleteSelect => self.delete_select(reply),
            StateView::DeleteConfirm { target } => self.delete_confirm(target, reply),
            StateView::SaveName => self.save_name(reply),
            StateView::SaveCheck { file } => self.save_check(file, reply),
            StateView::SaveConfirm { file } => self.save_confirm(file, reply),
            StateView::SaveWrite { file } => self.save_write(file, reply),
            StateView::LoadList => self.load_list(reply),
            StateView::LoadSelect { files } => self.load_select(files, reply),
            StateView::LoadRead { file } => self.load_read(file, reply),
            StateView::LoadConfirm { file, loaded } => self.load_confirm(file, loaded, reply),
            StateView::Quit => None,
        }
    }

    /// What holds of every session that began at [`Session::new`]: a list
    /// from which the user is to choose is not empty, what is saved is not
    /// empty, and an event that is being edited or deleted is in the list.
    pub open spec fn well_formed(self) -> bool {
        match self.state {
            StateView::EditSelect => self.events.len() > 0,
            StateView::DeleteSelect => self.events.len() > 0,
            StateView::SaveName => self.events.len() > 0,
            StateView::SaveCheck { .. } => self.events.len() > 0,
            StateView::SaveConfirm { .. } => self.events.len() > 0,
            StateView::SaveWrite { .. } => self.events.len() > 0,
            StateView::EditMenu { target, .. } => self.events.contains(target),
            StateView::EditField { target, .. } => self.events.contains(target),
            StateView::DeleteConfirm { target } => self.events.contains(target),
            StateView::LoadSelect { files } => files.len() > 0,
            _ => true,
        }
    }
}

/// The value of what a step hands back.
pub open spec fn said(result: Result<Option<Message>, StepError>) -> Result<
    Option<MessageView>,
    StepError,
> {
    match result {
        Ok(Some(message)) => Ok(Some(message@)),
        Ok(None) => Ok(None),
        Err(error) => Err(error),
    }
}

/// Takes every event that equals `target` out of the list. The others keep
/// their order.
pub fn remove_equal(events: &mut Vec<Event>, target: &Event)
    ensures
        event_views(final(events)@) == without(event_views(old(events)@), target@),
{
    let mut all: Vec<Event> = Vec::new();
    core::mem::swap(events, &mut all);
    let ghost views = event_views(all@);
    proof {
        reveal(Seq::filter);
    }
    for event in it: all
        invariant
            views == event_views(it.seq()),
            event_views(events@) == without(views.take(it.index() as int), target@),
    {
        let ghost at = it.index() as int;
        proof {
            assert(views.take(at + 1) =~= views.take(at).push(views[at]));
            Seq::lemma_filter_push(views.take(at), views[at], differs_from(target@));
        }
        if event != *target {
            events.push(event);
        }
    }
    assert(views.take(views.len() as int) =~= views);
}

/// After a deletion no event that equals the deleted one is left, whether
/// the list held it once, twice or more often. An event that differs from it
/// is in the list after the deletion exactly if it was in the list before.
pub proof fn lemma_without_leaves_no_copy(events: Seq<EventView>, target: EventView)
    ensures
        !without(events, target).contains(target),
        forall|other: EventView|
            other != target ==> (#[trigger] without(events, target).contains(other)
                <==> events.contains(other)),
{
    let differs = differs_from(target);
    let kept = without(events, target);
    assert forall|i: int| 0 <= i < kept.len() implies kept[i] != target by {
        events.lemma_filter_pred(differs, i);
    }
    assert forall|other: EventView| other != target implies (#[trigger] without(
        events,
        target,
    ).contains(other) <==> events.contains(other)) by {
        if kept.contains(other) {
            events.lemma_filter_contains_rev(differs, other);
        }
        if events.contains(other) {
            let i = choose|i: int| 0 <= i < events.len() && events[i] == other;
            events.lemma_filter_contains(differs, i);
        }
    }
}

/// A yes to the deletion of an event leaves no event in the session that
/// equals it: a duplicate goes with it.
pub proof fn lemma_delete_removes_every_copy(session: SessionView, target: EventView)
    requires
        session.state == (StateView::DeleteConfirm { target }),
    ensures
        session.step(ReplyView::Confirmed(true)) is Some,
        !session.step(ReplyView::Confirmed(true))->0.session.events.contains(target),
{
    lemma_without_leaves_no_copy(session.events, target);
}

/// An edit that is applied puts the proposal at the end of the list and
/// leaves no event that equals the one that was edited, unless the proposal
/// equals it: then the list stays as it is.
pub proof fn lemma_apply_replaces(session: SessionView, target: EventView, proposal: EventView)
    requires
        session.state == (StateView::EditMenu { target, proposal }),
    ensures
        session.step(ReplyView::Choice(EditChoice::Apply)) is Some,
        ({
            let next = session.step(ReplyView::Choice(EditChoice::Apply))->0;
            if proposal == target {
                &&& next.session.events == session.events
                &&& next.message == Some(MessageView::NoChanges)
            } else {
                &&& next.session.events.len() > 0
                &&& next.session.events.last() == proposal
                &&& !next.session.events.contains(target)
                &&& next.message == Some(MessageView::Edited(proposal.name))
            }
        }),
{
    lemma_without_leaves_no_copy(session.events, target);
    lemma_seq_contains_after_push(without(session.events, target), proposal, target);
}

/// An edit in which the user gives the value that the field of the
/// proposal holds already leaves the proposal as it was. Where the proposal
/// still equals the event that was chosen, to apply it then changes
/// nothing: the list stays as it is, and the session says that no changes
/// were made.
pub proof fn lemma_unchanged_edit_changes_nothing(
    session: SessionView,
    target: EventView,
    proposal: EventView,
    field: Field,
    reply: ReplyView,
)
    requires
        session.state == (StateView::EditField { target, proposal, field }),
        restates(proposal, field, session.contacts, reply),
    ensures
        session.step(reply) is Some,
        session.step(reply)->0.session.state == (StateView::EditMenu { target, proposal }),
        session.step(reply)->0.session.events == session.events,
        session.step(reply)->0.session.step(ReplyView::Choice(EditChoice::Apply)) is Some,
        proposal == target ==> ({
            let applied = session.step(reply)->0.session.step(
                ReplyView::Choice(EditChoice::Apply),
            )->0;
            &&& applied.session.events == session.events
            &&& applied.message == Some(MessageView::NoChanges)
        }),
{
    lemma_edit_unchanged(proposal, field, session.contacts, reply);
}

/// The edits of one visit to the menu add up: an answer to the prompt of a
/// field changes that field of the proposal and leaves its other three
/// fields, and the event that was chosen, as they were.
pub proof fn lemma_edits_add_up(
    session: SessionView,
    target: EventView,
    proposal: EventView,
    field: Field,
    reply: ReplyView,
)
    requires
        session.state == (StateView::EditField { target, proposal, field }),
        !(reply is Cancelled),
        session.step(reply) is Some,
    ensures
        session.step(reply)->0.session.events == session.events,
        session.step(reply)->0.session.state matches StateView::EditMenu {
            target: chosen,
            proposal: edited,
        } && {
            &&& chosen == target
            &&& Some(edited) == edit_spec(proposal, field, session.contacts, reply)
            &&& field != Field::Name ==> edited.name == proposal.name
            &&& field != Field::Notes ==> edited.notes == proposal.notes
            &&& field != Field::Invitees ==> edited.invitees == proposal.invitees
            &&& field != Field::Category ==> edited.category == proposal.category
        },
{
}

/// Whether the session waits on an answer of the user. If not, it waits on
/// the disk, or on nothing.
pub open spec fn asks_user(state: StateView) -> bool {
    !(state is SaveCheck || state is SaveWrite || state is LoadList || state is LoadRead
        || state is Quit)
}

/// A cancellation is taken at every prompt. It changes neither the events
/// nor the contacts, and it says nothing. From the prompt for a field's new
/// value it leads back to the menu of the edit, with the proposal as it
/// was. From every other prompt it leads to the main menu.
pub proof fn lemma_cancel_changes_nothing(session: SessionView)
    requires
        asks_user(session.state),
    ensures
        session.step(ReplyView::Cancelled) is Some,
        ({
            let next = session.step(ReplyView::Cancelled)->0;
            &&& next.session.events == session.events
            &&& next.session.contacts == session.contacts
            &&& next.message is None
            &&& next.session.state == match session.state {
                StateView::EditField { target, proposal, field } => StateView::EditMenu {
                    target,
                    proposal,
                },
                _ => StateView::MainMenu,
            }
        }),
{
}

/// No step changes the contacts. A step changes the events only where an
/// event is created, an edit is applied, a deletion is confirmed, or a file
/// is loaded.
pub proof fn lemma_lists_change_only_where_meant(session: SessionView, reply: ReplyView)
    requires
        session.step(reply) is Some,
    ensures
        session.step(reply)->0.session.contacts == session.contacts,
        session.step(reply)->0.session.events != session.events ==> {
            ||| session.state is Creating && reply is Category
            ||| session.state is EditMenu && reply == ReplyView::Choice(EditChoice::Apply)
            ||| session.state is DeleteConfirm && reply == ReplyView::Confirmed(true)
            ||| session.state is LoadRead && reply is Loaded
            ||| session.state is LoadConfirm && reply == ReplyView::Confirmed(true)
        },
{
}

/// Once the user has quit, the session takes no reply. And the one way to
/// get there is to choose Quit in the main menu.
pub proof fn lemma_quit_is_final(session: SessionView, reply: ReplyView)
    ensures
        session.state is Quit ==> session.step(reply) is None,
        session.step(reply) is Some && session.step(reply)->0.session.state is Quit ==> {
            &&& session.state is MainMenu
            &&& reply == ReplyView::Action(Action::Quit)
        },
{
}

/// Every step keeps a session well formed.
pub proof fn lemma_step_keeps_well_formed(session: SessionView, reply: ReplyView)
    requires
        session.well_formed(),
        session.step(reply) is Some,
    ensures
        session.step(reply)->0.session.well_formed(),
{
}

/// What a file held becomes the list of the session, item for item: at
/// once where the session held no event, and after a yes where it held
/// some. A no leaves the session's list as it was.
pub proof fn lemma_load_installs(session: SessionView, file: Seq<char>, loaded: Seq<EventView>)
    requires
        session.state == (StateView::LoadRead { file }),
    ensures
        session.step(ReplyView::Loaded(loaded)) is Some,
        ({
            let read = session.step(ReplyView::Loaded(loaded))->0.session;
            if session.events.len() == 0 {
                read.events == loaded && read.state is MainMenu
            } else {
                &&& read.events == session.events
                &&& read.step(ReplyView::Confirmed(true)) is Some
                &&& read.step(ReplyView::Confirmed(true))->0.session.events == loaded
                &&& read.step(ReplyView::Confirmed(false)) is Some
                &&& read.step(ReplyView::Confirmed(false))->0.session.events == session.events
            }
        }),
{
}

/// The events that are being planned, the contacts that can be invited,
/// and what the session waits on.
#[derive(Debug)]
pub struct Session {
    contacts: Vec<Person>,
    events: Vec<Event>,
    state: State,
}

impl View for Session {
    type V = SessionView;

    closed spec fn view(&self) -> SessionView {
        SessionView {
            contacts: person_views(self.contacts@),
            events: event_views(self.events@),
            state: self.state@,
        }
    }
}

impl Session {
    /// Begins a session with the given contacts: without events, at the
    /// main menu. The contacts stay as they are for as long as the session
    /// lasts.
    pub fn new(contacts: Vec<Person>) -> (session: Session)
        ensures
            session@ == (SessionView {
                contacts: person_views(contacts@),
                events: Seq::empty(),
                state: StateView::MainMenu,
            }),
            session@.well_formed(),
    {
        let session = Session { contacts, events: Vec::new(), state: State::MainMenu };
        assert(event_views(session.events@) =~= Seq::empty());
        session
    }

    /// The contacts that can be invited.
    pub fn contacts(&self) -> (contacts: &Vec<Person>)
        ensures
            person_views(contacts@) == self@.contacts,
    {
        &self.contacts
    }

    /// The events of the session, in their order.
    pub fn events(&self) -> (events: &Vec<Event>)
        ensures
            event_views(events@) == self@.events,
    {
        &self.events
    }

    /// What the session waits on.
    pub fn state(&self) -> (state: &State)
        ensures
            state@ == self@.state,
    {
        &self.state
    }

    /// Whether the user has quit.
    pub fn finished(&self) -> (done: bool)
        ensures
            done == (self@.state is Quit),
    {
        match self.state {
            State::Quit => true,
            _ => false,
        }
    }

    /// Takes the answer to what the session waits on, moves the session
    /// on, and hands back the line to show, if there is one.
    ///
    /// A reply that is no answer to what the session waits on is an error,
    /// and so is any reply after the user has quit. The session is then as
    /// it was.
    pub fn step(&mut self, reply: Reply) -> (result: Result<Option<Message>, StepError>)
        ensures
            match old(self)@.step(reply@) {
                Some(next) => final(self)@ == next.session && said(result) == Ok::<
                    Option<MessageView>,
                    StepError,
                >(next.message),
                None => final(self)@ == old(self)@ && result == Err::<Option<Message>, StepError>(
                    if old(self)@.state is Quit {
                        StepError::Finished
                    } else {
                        StepError::Unexpected
                    },
                ),
            },
            old(self)@.well_formed() ==> final(self)@.well_formed(),
    {
        let mut state = State::MainMenu;
        core::mem::swap(&mut self.state, &mut state);
        match (state, reply) {
            (State::Quit, _) => {
                self.state = State::Quit;
                Err(StepError::Finished)
            },
            (State::MainMenu, Reply::Action(Action::New)) => {
                self.state = State::Creating(Draft::start());
                Ok(None)
            },
            (State::MainMenu, Reply::Action(Action::Manage)) => {
                self.state = State::ManageMenu;
                Ok(None)
            },
            (State::MainMenu, Reply::Action(Action::Quit)) => {
                self.state = State::Quit;
                Ok(Some(Message::Goodbye))
            },
            (State::MainMenu, Reply::Cancelled) => Ok(None),
            (State::Creating(draft), reply) => match draft.answer(&self.contacts, reply) {
                Progress::Next(next) => {
                    self.state = State::Creating(next);
                    Ok(None)
                },
                Progress::Created(event) => {
                    let ghost before = event_views(self.events@);
                    self.events.push(event);
                    assert(event_views(self.events@) =~= before.push(event@));
                    Ok(None)
                },
                Progress::Cancelled => Ok(None),
                Progress::Unexpected(draft) => {
                    self.state = State::Creating(draft);
                    Err(StepError::Unexpected)
                },
            },
            (State::ManageMenu, Reply::Manage(ManageAction::Edit)) => {
                if self.events.len() == 0 {
                    Ok(Some(Message::NothingToEdit))
                } else {
                    self.state = State::EditSelect;
                    Ok(None)
                }
            },
            (State::ManageMenu, Reply::Manage(ManageAction::Delete)) => {
                if self.events.len() == 0 {
                    Ok(Some(Message::NoEventsLeft))
                } else {
                    self.state = State::DeleteSelect;
                    Ok(None)
                }
            },
            (State::ManageMenu, Reply::Manage(ManageAction::Save)) => {
                if self.events.len() == 0 {
                    Ok(Some(Message::NothingToSave))
                } else {
                    self.state = State::SaveName;
                    Ok(None)
                }
            },
            (State::ManageMenu, Reply::Manage(ManageAction::Load)) => {
                self.state = State::LoadList;
                Ok(None)
            },
            (State::ManageMenu, Reply::Cancelled) => Ok(None),
            (State::EditSelect, Reply::Picked(i)) => {
                if i < self.events.len() {
                    let target = self.events[i].clone();
                    let proposal = self.events[i].clone();
                    self.state = State::EditMenu { target, proposal };
                    Ok(None)
                } else {
                    self.state = State::EditSelect;
                    Err(StepError::Unexpected)
                }
            },
            (State::EditSelect, Reply::Cancelled) => Ok(None),
            (State::EditMenu { target, proposal }, Reply::Choice(EditChoice::Change(field))) => {
                self.state = State::EditField { target, proposal, field };
                Ok(None)
            },
            (State::EditMenu { target, proposal }, Reply::Choice(EditChoice::Apply)) => {
                if proposal != target {
                    let name = proposal.get_name().to_owned();
                    remove_equal(&mut self.events, &target);
                    let ghost before = event_views(self.events@);
                    self.events.push(proposal);
                    assert(event_views(self.events@) =~= before.push(proposal@));
                    Ok(Some(Message::Edited(name)))
                } else {
                    Ok(Some(Message::NoChanges))
                }
            },
            (State::EditMenu { .. }, Reply::Cancelled) => Ok(None),
            (State::EditField { target, proposal, .. }, Reply::Cancelled) => {
                self.state = State::EditMenu { target, proposal };
                Ok(None)
            },
            (State::EditField { target, proposal, field }, reply) => {
                match Event::revise(&proposal, field, &self.contacts, reply) {
                    Some(edited) => {
                        self.state = State::EditMenu { target, proposal: edited };
                        Ok(None)
                    },
                    None => {
                        self.state = State::EditField { target, proposal, field };
                        Err(StepError::Unexpected)
                    },
                }
            },
            (State::DeleteSelect, Reply::Picked(i)) => {
                if i < self.events.len() {
                    let target = self.events[i].clone();
                    self.state = State::DeleteConfirm { target };
                    Ok(None)
                } else {
                    self.state = State::DeleteSelect;
                    Err(StepError::Unexpected)
                }
            },
            (State::DeleteSelect, Reply::Cancelled) => Ok(None),
            (State::DeleteConfirm { target }, Reply::Confirmed(yes)) => {
                if yes {
                    remove_equal(&mut self.events, &target);
                    Ok(Some(Message::Deleted(target.get_name().to_owned())))
                } else {
                    Ok(Some(Message::NothingDeleted))
                }
            },
            (State::DeleteConfirm { .. }, Reply::Cancelled) => Ok(None),
            (State::SaveName, Reply::Text(stem)) => {
                let mut file = stem;
                file.append(EXTENSION);
                self.state = State::SaveCheck { file };
                Ok(None)
            },
            (State::SaveName, Reply::Cancelled) => Ok(None),
            (State::SaveCheck { file }, Reply::Exists(exists)) => {
                if exists {
                    self.state = State::SaveConfirm { file };
                } else {
                    self.state = State::SaveWrite { file };
                }
                Ok(None)
            },
            (State::SaveConfirm { file }, Reply::Confirmed(yes)) => {
                if yes {
                    self.state = State::SaveWrite { file };
                    Ok(None)
                } else {
                    Ok(Some(Message::NothingSaved))
                }
            },
            (State::SaveConfirm { .. }, Reply::Cancelled) => Ok(None),
            (State::SaveWrite { file }, Reply::Written) => Ok(Some(Message::Saved(file))),
            (State::LoadList, Reply::Files(files)) => {
                if files.len() == 0 {
                    Ok(Some(Message::NoFiles))
                } else {
                    self.state = State::LoadSelect { files };
                    Ok(None)
                }
            },
            (State::LoadSelect { files }, Reply::Picked(i)) => {
                if i < files.len() {
                    let file = files[i].clone();
                    self.state = State::LoadRead { file };
                    Ok(None)
                } else {
                    self.state = State::LoadSelect { files };
                    Err(StepError::Unexpected)
                }
            },
            (State::LoadSelect { .. }, Reply::Cancelled) => Ok(None),
            (State::LoadRead { file }, Reply::Loaded(loaded)) => {
                if self.events.len() == 0 {
                    self.events = loaded;
                    Ok(Some(Message::Loaded(file)))
                } else {
                    self.state = State::LoadConfirm { file, loaded };
                    Ok(None)
                }
            },
            (State::LoadConfirm { file, loaded }, Reply::Confirmed(yes)) => {
                if yes {
                    self.events = loaded;
                    Ok(Some(Message::Loaded(file)))
                } else {
                    Ok(Some(Message::NothingLoaded))
                }
            },
            (State::LoadConfirm { .. }, Reply::Cancelled) => Ok(None),
            (state, _) => {
                self.state = state;
                Err(StepError::Unexpected)
            },
        }
    }
}

} // verus!
