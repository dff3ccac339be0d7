use event_planner::action::{Action, ManageAction};
use event_planner::category::Category;
use event_planner::draft::Draft;
use event_planner::event::{EditChoice, Event, Field};
use event_planner::message::Message;
use event_planner::person::Person;
use event_planner::reply::Reply;
use event_planner::session::{remove_equal, Session, State, StepError, EXTENSION, STORAGE_DIR};

fn contacts() -> Vec<Person> {
    vec![
        Person::new(String::from("John Doe"), 20, String::from("john.doe@gmail.com")),
        Person::new(String::from("Jane Doe"), 20, String::from("jane.doe@gmail.com")),
        Person::new(String::from("Ole Johnny Pettersen"), 56, String::from("oj.pettersen@gmail.com")),
        Person::new(String::from("Jon-Roger Valhammer"), 43, String::from("jonrog@online.no")),
    ]
}

fn event(name: &str, category: Category) -> Event {
    Event::from_parts(String::from(name), String::new(), Vec::new(), category)
}

fn team_lunch() -> Event {
    event("Team Lunch", Category::Work)
}

/// Hands the replies to the session one after the other and gives back what
/// the last step said. Every reply must be taken.
fn run(session: &mut Session, replies: Vec<Reply>) -> Option<Message> {
    let mut last = None;
    for reply in replies {
        last = session.step(reply).unwrap();
    }
    last
}

/// Creates an event without notes and without invitees from the main menu.
fn create(session: &mut Session, name: &str, category: Category) {
    let said = run(
        session,
        vec![
            Reply::Action(Action::New),
            Reply::Text(String::from(name)),
            Reply::Confirmed(false),
            Reply::PickedMany(vec![]),
            Reply::Category(category),
        ],
    );
    assert_eq!(said, None);
    assert_eq!(session.state(), &State::MainMenu);
}

fn session_with(events: Vec<(&str, Category)>) -> Session {
    let mut session = Session::new(contacts());
    for (name, category) in events {
        create(&mut session, name, category);
    }
    session
}

#[test]
fn a_new_session_is_empty_and_at_the_main_menu() {
    let session = Session::new(contacts());
    assert_eq!(session.state(), &State::MainMenu);
    assert!(session.events().is_empty());
    assert_eq!(session.contacts(), &contacts());
    assert!(!session.finished());
}

#[test]
fn storage_rules() {
    assert_eq!(STORAGE_DIR, "events");
    assert_eq!(EXTENSION, ".json");
}

#[test]
fn delete_on_empty_session_says_no_events_left() {
    let mut session = Session::new(contacts());
    assert_eq!(session.step(Reply::Action(Action::Manage)), Ok(None));
    assert_eq!(session.state(), &State::ManageMenu);
    let said = session.step(Reply::Manage(ManageAction::Delete));
    assert_eq!(said, Ok(Some(Message::NoEventsLeft)));
    assert_eq!(said.unwrap().unwrap().text(), "No events left.");
    assert_eq!(session.state(), &State::MainMenu);
    assert!(session.events().is_empty());
    assert_eq!(session.contacts(), &contacts());
}

#[test]
fn edit_on_empty_session_says_nothing_to_edit() {
    let mut session = Session::new(contacts());
    let said = run(&mut session, vec![Reply::Action(Action::Manage), Reply::Manage(ManageAction::Edit)]);
    assert_eq!(said, Some(Message::NothingToEdit));
    assert_eq!(session.state(), &State::MainMenu);
    assert!(session.events().is_empty());
}

#[test]
fn save_on_empty_session_says_nothing_to_save() {
    let mut session = Session::new(contacts());
    let said = run(&mut session, vec![Reply::Action(Action::Manage), Reply::Manage(ManageAction::Save)]);
    assert_eq!(said, Some(Message::NothingToSave));
    assert_eq!(session.state(), &State::MainMenu);
}

#[test]
fn create_save_and_load_into_an_empty_session() {
    let mut first = Session::new(contacts());
    create(&mut first, "Team Lunch", Category::Work);
    assert_eq!(first.events(), &vec![team_lunch()]);

    let said = run(
        &mut first,
        vec![
            Reply::Action(Action::Manage),
            Reply::Manage(ManageAction::Save),
            Reply::Text(String::from("t1")),
        ],
    );
    assert_eq!(said, None);
    assert_eq!(first.state(), &State::SaveCheck { file: String::from("t1.json") });
    assert_eq!(first.step(Reply::Exists(false)), Ok(None));
    assert_eq!(first.state(), &State::SaveWrite { file: String::from("t1.json") });
    let written = first.events().clone();
    assert_eq!(first.step(Reply::Written), Ok(Some(Message::Saved(String::from("t1.json")))));
    assert_eq!(first.state(), &State::MainMenu);
    assert_eq!(first.events(), &vec![team_lunch()]);

    let mut second = Session::new(contacts());
    let said = run(
        &mut second,
        vec![
            Reply::Action(Action::Manage),
            Reply::Manage(ManageAction::Load),
            Reply::Files(vec![String::from("t1.json")]),
        ],
    );
    assert_eq!(said, None);
    assert_eq!(second.state(), &State::LoadSelect { files: vec![String::from("t1.json")] });
    assert_eq!(second.step(Reply::Picked(0)), Ok(None));
    assert_eq!(second.state(), &State::LoadRead { file: String::from("t1.json") });
    assert_eq!(second.step(Reply::Loaded(written)), Ok(Some(Message::Loaded(String::from("t1.json")))));
    assert_eq!(second.state(), &State::MainMenu);
    assert_eq!(
        second.events(),
        &vec![Event::from_parts(String::from("Team Lunch"), String::new(), Vec::new(), Category::Work)]
    );
}

#[test]
fn edit_category_then_ok_replaces_the_event() {
    let mut session = session_with(vec![("Dinner", Category::Home)]);
    let said = run(
        &mut session,
        vec![Reply::Action(Action::Manage), Reply::Manage(ManageAction::Edit), Reply::Picked(0)],
    );
    assert_eq!(said, None);
    assert_eq!(
        session.state(),
        &State::EditMenu { target: event("Dinner", Category::Home), proposal: event("Dinner", Category::Home) }
    );
    assert_eq!(session.step(Reply::Choice(EditChoice::Change(Field::Category))), Ok(None));
    assert_eq!(
        session.state(),
        &State::EditField {
            target: event("Dinner", Category::Home),
            proposal: event("Dinner", Category::Home),
            field: Field::Category,
        }
    );
    assert_eq!(session.step(Reply::Category(Category::Personal)), Ok(None));
    assert_eq!(
        session.state(),
        &State::EditMenu { target: event("Dinner", Category::Home), proposal: event("Dinner", Category::Personal) }
    );
    assert_eq!(session.events(), &vec![event("Dinner", Category::Home)]);
    let said = session.step(Reply::Choice(EditChoice::Apply)).unwrap().unwrap();
    assert_eq!(said, Message::Edited(String::from("Dinner")));
    assert_eq!(said.text(), "Event Dinner successfully edited.");
    assert_eq!(session.events(), &vec![event("Dinner", Category::Personal)]);
    assert_eq!(session.state(), &State::MainMenu);
}

#[test]
fn ok_without_a_change_says_no_changes_made() {
    let mut session = session_with(vec![("Dinner", Category::Home), ("Run", Category::Personal)]);
    let said = run(
        &mut session,
        vec![
            Reply::Action(Action::Manage),
            Reply::Manage(ManageAction::Edit),
            Reply::Picked(0),
            Reply::Choice(EditChoice::Apply),
        ],
    )
    .unwrap();
    assert_eq!(said, Message::NoChanges);
    assert_eq!(said.text(), "No changes made.");
    assert_eq!(session.events(), &vec![event("Dinner", Category::Home), event("Run", Category::Personal)]);
    assert_eq!(session.state(), &State::MainMenu);
}

#[test]
fn edit_with_the_same_value_then_ok_changes_nothing() {
    let mut session = session_with(vec![("Dinner", Category::Home), ("Run", Category::Personal)]);
    let said = run(
        &mut session,
        vec![
            Reply::Action(Action::Manage),
            Reply::Manage(ManageAction::Edit),
            Reply::Picked(0),
            Reply::Choice(EditChoice::Change(Field::Name)),
            Reply::Text(String::from("Dinner")),
            Reply::Choice(EditChoice::Change(Field::Notes)),
            Reply::Text(String::new()),
            Reply::Choice(EditChoice::Change(Field::Invitees)),
            Reply::PickedMany(vec![]),
            Reply::Choice(EditChoice::Change(Field::Category)),
            Reply::Category(Category::Home),
            Reply::Choice(EditChoice::Apply),
        ],
    );
    assert_eq!(said, Some(Message::NoChanges));
    assert_eq!(session.events(), &vec![event("Dinner", Category::Home), event("Run", Category::Personal)]);
}

#[test]
fn load_with_an_empty_storage_directory_says_so() {
    let mut session = session_with(vec![("Dinner", Category::Home)]);
    let said = run(&mut session, vec![Reply::Action(Action::Manage), Reply::Manage(ManageAction::Load)]);
    assert_eq!(said, None);
    assert_eq!(session.state(), &State::LoadList);
    let said = session.step(Reply::Files(vec![])).unwrap().unwrap();
    assert_eq!(said, Message::NoFiles);
    assert_eq!(said.text(), "No saved events to load.");
    assert_eq!(session.state(), &State::MainMenu);
    assert_eq!(session.events(), &vec![event("Dinner", Category::Home)]);
}

#[test]
fn delete_removes_the_duplicate_too() {
    let mut session = session_with(vec![
        ("Dinner", Category::Home),
        ("Run", Category::Personal),
        ("Dinner", Category::Home),
    ]);
    let said = run(
        &mut session,
        vec![Reply::Action(Action::Manage), Reply::Manage(ManageAction::Delete), Reply::Picked(2)],
    );
    assert_eq!(said, None);
    assert_eq!(session.state(), &State::DeleteConfirm { target: event("Dinner", Category::Home) });
    let said = session.step(Reply::Confirmed(true)).unwrap().unwrap();
    assert_eq!(said, Message::Deleted(String::from("Dinner")));
    assert_eq!(said.text(), "Event Dinner successfully deleted.");
    assert_eq!(session.events(), &vec![event("Run", Category::Personal)]);
    assert!(!session.events().contains(&event("Dinner", Category::Home)));
    assert_eq!(session.state(), &State::MainMenu);
}

#[test]
fn delete_keeps_events_that_differ_in_one_field() {
    let mut session = session_with(vec![
        ("Dinner", Category::Home),
        ("Dinner", Category::Work),
        ("Dinner ", Category::Home),
    ]);
    run(
        &mut session,
        vec![
            Reply::Action(Action::Manage),
            Reply::Manage(ManageAction::Delete),
            Reply::Picked(0),
            Reply::Confirmed(true),
        ],
    );
    assert_eq!(session.events(), &vec![event("Dinner", Category::Work), event("Dinner ", Category::Home)]);
}

#[test]
fn delete_the_only_event_leaves_an_empty_list() {
    let mut session = session_with(vec![("Dinner", Category::Home)]);
    run(
        &mut session,
        vec![
            Reply::Action(Action::Manage),
            Reply::Manage(ManageAction::Delete),
            Reply::Picked(0),
            Reply::Confirmed(true),
        ],
    );
    assert!(session.events().is_empty());
    let said = run(&mut session, vec![Reply::Action(Action::Manage), Reply::Manage(ManageAction::Delete)]);
    assert_eq!(said, Some(Message::NoEventsLeft));
}

#[test]
fn delete_declined_keeps_the_list() {
    let mut session = session_with(vec![("Dinner", Category::Home)]);
    let said = run(
        &mut session,
        vec![
            Reply::Action(Action::Manage),
            Reply::Manage(ManageAction::Delete),
            Reply::Picked(0),
            Reply::Confirmed(false),
        ],
    )
    .unwrap();
    assert_eq!(said, Message::NothingDeleted);
    assert_eq!(said.text(), "Ok, no events deleted.");
    assert_eq!(session.events(), &vec![event("Dinner", Category::Home)]);
    assert_eq!(session.state(), &State::MainMenu);
}

#[test]
fn remove_equal_takes_out_every_copy_and_keeps_the_order() {
    let a = || event("a", Category::Home);
    let b = || event("b", Category::Home);
    let c = || event("c", Category::Work);
    let mut list = vec![a(), b(), a(), c(), a()];
    remove_equal(&mut list, &a());
    assert_eq!(list, vec![b(), c()]);
    remove_equal(&mut list, &a());
    assert_eq!(list, vec![b(), c()]);
    remove_equal(&mut list, &c());
    assert_eq!(list, vec![b()]);
    remove_equal(&mut list, &b());
    assert!(list.is_empty());
    remove_equal(&mut list, &b());
    assert!(list.is_empty());
}

#[test]
fn applied_edit_goes_to_the_end_and_takes_duplicates_along() {
    let mut session = session_with(vec![
        ("Dinner", Category::Home),
        ("Run", Category::Personal),
        ("Dinner", Category::Home),
        ("Talk", Category::Work),
    ]);
    let said = run(
        &mut session,
        vec![
            Reply::Action(Action::Manage),
            Reply::Manage(ManageAction::Edit),
            Reply::Picked(0),
            Reply::Choice(EditChoice::Change(Field::Name)),
            Reply::Text(String::from("Supper")),
            Reply::Choice(EditChoice::Apply),
        ],
    );
    assert_eq!(said, Some(Message::Edited(String::from("Supper"))));
    assert_eq!(
        session.events(),
        &vec![event("Run", Category::Personal), event("Talk", Category::Work), event("Supper", Category::Home)]
    );
}

#[test]
fn edits_of_several_fields_add_up() {
    let mut session = session_with(vec![("Dinner", Category::Home)]);
    run(
        &mut session,
        vec![
            Reply::Action(Action::Manage),
            Reply::Manage(ManageAction::Edit),
            Reply::Picked(0),
            Reply::Choice(EditChoice::Change(Field::Name)),
            Reply::Text(String::from("Supper")),
        ],
    );
    assert_eq!(
        session.state(),
        &State::EditMenu { target: event("Dinner", Category::Home), proposal: event("Supper", Category::Home) }
    );
    assert_eq!(session.step(Reply::Choice(EditChoice::Change(Field::Category))), Ok(None));
    assert_eq!(
        session.state(),
        &State::EditField {
            target: event("Dinner", Category::Home),
            proposal: event("Supper", Category::Home),
            field: Field::Category,
        }
    );
    assert_eq!(session.step(Reply::Category(Category::Work)), Ok(None));
    assert_eq!(
        session.state(),
        &State::EditMenu { target: event("Dinner", Category::Home), proposal: event("Supper", Category::Work) }
    );
    assert_eq!(session.events(), &vec![event("Dinner", Category::Home)]);
    let said = session.step(Reply::Choice(EditChoice::Apply));
    assert_eq!(said, Ok(Some(Message::Edited(String::from("Supper")))));
    assert_eq!(session.events(), &vec![event("Supper", Category::Work)]);
    assert_eq!(session.state(), &State::MainMenu);
}

#[test]
fn edits_of_all_four_fields_add_up() {
    let mut session = session_with(vec![("Dinner", Category::Home), ("Run", Category::Personal)]);
    let said = run(
        &mut session,
        vec![
            Reply::Action(Action::Manage),
            Reply::Manage(ManageAction::Edit),
            Reply::Picked(0),
            Reply::Choice(EditChoice::Change(Field::Invitees)),
            Reply::PickedMany(vec![2, 1]),
            Reply::Choice(EditChoice::Change(Field::Notes)),
            Reply::Text(String::from("at eight")),
            Reply::Choice(EditChoice::Change(Field::Category)),
            Reply::Category(Category::Work),
            Reply::Choice(EditChoice::Change(Field::Name)),
            Reply::Text(String::from("Supper")),
            Reply::Choice(EditChoice::Apply),
        ],
    );
    assert_eq!(said, Some(Message::Edited(String::from("Supper"))));
    let all = contacts();
    assert_eq!(
        session.events(),
        &vec![
            event("Run", Category::Personal),
            Event::from_parts(
                String::from("Supper"),
                String::from("at eight"),
                vec![all[2].clone(), all[1].clone()],
                Category::Work
            ),
        ]
    );
}

#[test]
fn a_later_edit_of_the_same_field_replaces_the_earlier_one() {
    let mut session = session_with(vec![("Dinner", Category::Home)]);
    let said = run(
        &mut session,
        vec![
            Reply::Action(Action::Manage),
            Reply::Manage(ManageAction::Edit),
            Reply::Picked(0),
            Reply::Choice(EditChoice::Change(Field::Name)),
            Reply::Text(String::from("Supper")),
            Reply::Choice(EditChoice::Change(Field::Name)),
            Reply::Text(String::from("Feast")),
            Reply::Choice(EditChoice::Apply),
        ],
    );
    assert_eq!(said, Some(Message::Edited(String::from("Feast"))));
    assert_eq!(session.events(), &vec![event("Feast", Category::Home)]);
}

#[test]
fn a_change_that_is_taken_back_is_no_change() {
    let mut session = session_with(vec![("Dinner", Category::Home)]);
    let said = run(
        &mut session,
        vec![
            Reply::Action(Action::Manage),
            Reply::Manage(ManageAction::Edit),
            Reply::Picked(0),
            Reply::Choice(EditChoice::Change(Field::Name)),
            Reply::Text(String::from("Supper")),
            Reply::Choice(EditChoice::Change(Field::Name)),
            Reply::Text(String::from("Dinner")),
            Reply::Choice(EditChoice::Apply),
        ],
    );
    assert_eq!(said, Some(Message::NoChanges));
    assert_eq!(session.events(), &vec![event("Dinner", Category::Home)]);
}

#[test]
fn an_edit_that_restates_a_changed_field_keeps_the_proposal() {
    let mut session = session_with(vec![("Dinner", Category::Home)]);
    run(
        &mut session,
        vec![
            Reply::Action(Action::Manage),
            Reply::Manage(ManageAction::Edit),
            Reply::Picked(0),
            Reply::Choice(EditChoice::Change(Field::Name)),
            Reply::Text(String::from("Supper")),
            Reply::Choice(EditChoice::Change(Field::Name)),
            Reply::Text(String::from("Supper")),
            Reply::Choice(EditChoice::Change(Field::Category)),
            Reply::Category(Category::Home),
        ],
    );
    assert_eq!(
        session.state(),
        &State::EditMenu { target: event("Dinner", Category::Home), proposal: event("Supper", Category::Home) }
    );
}

#[test]
fn cancelled_field_prompt_keeps_the_proposal() {
    let mut session = session_with(vec![("Dinner", Category::Home)]);
    run(
        &mut session,
        vec![
            Reply::Action(Action::Manage),
            Reply::Manage(ManageAction::Edit),
            Reply::Picked(0),
            Reply::Choice(EditChoice::Change(Field::Name)),
            Reply::Text(String::from("Supper")),
            Reply::Choice(EditChoice::Change(Field::Notes)),
            Reply::Cancelled,
        ],
    );
    assert_eq!(
        session.state(),
        &State::EditMenu { target: event("Dinner", Category::Home), proposal: event("Supper", Category::Home) }
    );
    let said = session.step(Reply::Choice(EditChoice::Apply));
    assert_eq!(said, Ok(Some(Message::Edited(String::from("Supper")))));
    assert_eq!(session.events(), &vec![event("Supper", Category::Home)]);
}

#[test]
fn cancelled_edit_menu_drops_the_proposal() {
    let mut session = session_with(vec![("Dinner", Category::Home)]);
    let said = run(
        &mut session,
        vec![
            Reply::Action(Action::Manage),
            Reply::Manage(ManageAction::Edit),
            Reply::Picked(0),
            Reply::Choice(EditChoice::Change(Field::Name)),
            Reply::Text(String::from("Supper")),
            Reply::Cancelled,
        ],
    );
    assert_eq!(said, None);
    assert_eq!(session.state(), &State::MainMenu);
    assert_eq!(session.events(), &vec![event("Dinner", Category::Home)]);
}

#[test]
fn edit_invitees_picks_from_the_contacts() {
    let mut session = session_with(vec![("Dinner", Category::Home)]);
    let said = run(
        &mut session,
        vec![
            Reply::Action(Action::Manage),
            Reply::Manage(ManageAction::Edit),
            Reply::Picked(0),
            Reply::Choice(EditChoice::Change(Field::Invitees)),
            Reply::PickedMany(vec![3, 0]),
            Reply::Choice(EditChoice::Apply),
        ],
    );
    assert_eq!(said, Some(Message::Edited(String::from("Dinner"))));
    let all = contacts();
    assert_eq!(
        session.events(),
        &vec![Event::from_parts(
            String::from("Dinner"),
            String::new(),
            vec![all[3].clone(), all[0].clone()],
            Category::Home
        )]
    );
}

#[test]
fn creation_adds_the_event_at_the_end() {
    let mut session = session_with(vec![("Dinner", Category::Home)]);
    let said = run(
        &mut session,
        vec![
            Reply::Action(Action::New),
            Reply::Text(String::from("Party")),
            Reply::Confirmed(true),
            Reply::Text(String::from("bring cake")),
            Reply::PickedMany(vec![1]),
            Reply::Category(Category::Personal),
        ],
    );
    assert_eq!(said, None);
    assert_eq!(session.state(), &State::MainMenu);
    assert_eq!(
        session.events(),
        &vec![
            event("Dinner", Category::Home),
            Event::from_parts(
                String::from("Party"),
                String::from("bring cake"),
                vec![contacts()[1].clone()],
                Category::Personal
            ),
        ]
    );
}

#[test]
fn creation_walks_through_the_prompts() {
    let mut session = Session::new(contacts());
    assert_eq!(session.step(Reply::Action(Action::New)), Ok(None));
    assert_eq!(session.state(), &State::Creating(Draft::Name));
    assert_eq!(session.step(Reply::Text(String::from("Party"))), Ok(None));
    assert_eq!(session.state(), &State::Creating(Draft::WantNotes { name: String::from("Party") }));
    assert_eq!(session.step(Reply::Confirmed(true)), Ok(None));
    assert_eq!(session.state(), &State::Creating(Draft::Notes { name: String::from("Party") }));
    assert_eq!(session.step(Reply::Text(String::from("cake"))), Ok(None));
    assert_eq!(
        session.state(),
        &State::Creating(Draft::Invitees { name: String::from("Party"), notes: String::from("cake") })
    );
    assert_eq!(session.step(Reply::PickedMany(vec![2])), Ok(None));
    assert_eq!(
        session.state(),
        &State::Creating(Draft::Category {
            name: String::from("Party"),
            notes: String::from("cake"),
            invitees: vec![contacts()[2].clone()],
        })
    );
    assert!(session.events().is_empty());
}

#[test]
fn cancelled_creation_adds_nothing() {
    let answers = || {
        vec![
            Reply::Text(String::from("Party")),
            Reply::Confirmed(true),
            Reply::Text(String::from("bring cake")),
            Reply::PickedMany(vec![1]),
            Reply::Category(Category::Personal),
        ]
    };
    for at in 0..5 {
        let mut session = session_with(vec![("Dinner", Category::Home)]);
        assert_eq!(session.step(Reply::Action(Action::New)), Ok(None));
        let mut replies = answers();
        replies.truncate(at);
        replies.push(Reply::Cancelled);
        assert_eq!(run(&mut session, replies), None);
        assert_eq!(session.state(), &State::MainMenu);
        assert_eq!(session.events(), &vec![event("Dinner", Category::Home)]);
    }
}

#[test]
fn cancel_at_a_menu_leads_to_the_main_menu() {
    let before = vec![event("Dinner", Category::Home)];
    let paths: Vec<Vec<Reply>> = vec![
        vec![],
        vec![Reply::Action(Action::Manage)],
        vec![Reply::Action(Action::Manage), Reply::Manage(ManageAction::Edit)],
        vec![Reply::Action(Action::Manage), Reply::Manage(ManageAction::Edit), Reply::Picked(0)],
        vec![Reply::Action(Action::Manage), Reply::Manage(ManageAction::Delete)],
        vec![Reply::Action(Action::Manage), Reply::Manage(ManageAction::Delete), Reply::Picked(0)],
        vec![Reply::Action(Action::Manage), Reply::Manage(ManageAction::Save)],
        vec![
            Reply::Action(Action::Manage),
            Reply::Manage(ManageAction::Save),
            Reply::Text(String::from("t1")),
            Reply::Exists(true),
        ],
        vec![
            Reply::Action(Action::Manage),
            Reply::Manage(ManageAction::Load),
            Reply::Files(vec![String::from("t1.json")]),
        ],
        vec![
            Reply::Action(Action::Manage),
            Reply::Manage(ManageAction::Load),
            Reply::Files(vec![String::from("t1.json")]),
            Reply::Picked(0),
            Reply::Loaded(vec![event("Other", Category::Work)]),
        ],
    ];
    for path in paths {
        let mut session = session_with(vec![("Dinner", Category::Home)]);
        run(&mut session, path);
        assert_eq!(session.step(Reply::Cancelled), Ok(None));
        assert_eq!(session.state(), &State::MainMenu);
        assert_eq!(session.events(), &before);
        assert_eq!(session.contacts(), &contacts());
    }
}

#[test]
fn the_disk_cannot_cancel() {
    let paths: Vec<Vec<Reply>> = vec![
        vec![Reply::Action(Action::Manage), Reply::Manage(ManageAction::Save), Reply::Text(String::from("t1"))],
        vec![
            Reply::Action(Action::Manage),
            Reply::Manage(ManageAction::Save),
            Reply::Text(String::from("t1")),
            Reply::Exists(false),
        ],
        vec![Reply::Action(Action::Manage), Reply::Manage(ManageAction::Load)],
        vec![
            Reply::Action(Action::Manage),
            Reply::Manage(ManageAction::Load),
            Reply::Files(vec![String::from("t1.json")]),
            Reply::Picked(0),
        ],
    ];
    for path in paths {
        let mut session = session_with(vec![("Dinner", Category::Home)]);
        run(&mut session, path);
        let before = format!("{:?}", session);
        assert_eq!(session.step(Reply::Cancelled), Err(StepError::Unexpected));
        assert_eq!(format!("{:?}", session), before);
    }
}

#[test]
fn save_adds_the_extension_always() {
    let mut session = session_with(vec![("Dinner", Category::Home)]);
    run(
        &mut session,
        vec![
            Reply::Action(Action::Manage),
            Reply::Manage(ManageAction::Save),
            Reply::Text(String::from("plans.json")),
        ],
    );
    assert_eq!(session.state(), &State::SaveCheck { file: String::from("plans.json.json") });
    let mut session = session_with(vec![("Dinner", Category::Home)]);
    run(
        &mut session,
        vec![Reply::Action(Action::Manage), Reply::Manage(ManageAction::Save), Reply::Text(String::new())],
    );
    assert_eq!(session.state(), &State::SaveCheck { file: String::from(".json") });
}

#[test]
fn save_over_a_file_asks_first() {
    let mut session = session_with(vec![("Dinner", Category::Home)]);
    run(
        &mut session,
        vec![
            Reply::Action(Action::Manage),
            Reply::Manage(ManageAction::Save),
            Reply::Text(String::from("t1")),
            Reply::Exists(true),
        ],
    );
    assert_eq!(session.state(), &State::SaveConfirm { file: String::from("t1.json") });
    assert_eq!(session.step(Reply::Confirmed(true)), Ok(None));
    assert_eq!(session.state(), &State::SaveWrite { file: String::from("t1.json") });
    let said = session.step(Reply::Written).unwrap().unwrap();
    assert_eq!(said.text(), "Events successfully saved to t1.json.");
    assert_eq!(session.state(), &State::MainMenu);
    assert_eq!(session.events(), &vec![event("Dinner", Category::Home)]);
}

#[test]
fn save_declined_writes_nothing() {
    let mut session = session_with(vec![("Dinner", Category::Home)]);
    let said = run(
        &mut session,
        vec![
            Reply::Action(Action::Manage),
            Reply::Manage(ManageAction::Save),
            Reply::Text(String::from("t1")),
            Reply::Exists(true),
            Reply::Confirmed(false),
        ],
    )
    .unwrap();
    assert_eq!(said, Message::NothingSaved);
    assert_eq!(said.text(), "Ok, no events saved.");
    assert_eq!(session.state(), &State::MainMenu);
}

#[test]
fn load_into_a_session_with_events_asks_first() {
    let loaded = || vec![event("Other", Category::Work), event("More", Category::Personal)];
    let mut session = session_with(vec![("Dinner", Category::Home)]);
    run(
        &mut session,
        vec![
            Reply::Action(Action::Manage),
            Reply::Manage(ManageAction::Load),
            Reply::Files(vec![String::from("a.json"), String::from("b.json")]),
            Reply::Picked(1),
        ],
    );
    assert_eq!(session.state(), &State::LoadRead { file: String::from("b.json") });
    assert_eq!(session.step(Reply::Loaded(loaded())), Ok(None));
    assert_eq!(session.state(), &State::LoadConfirm { file: String::from("b.json"), loaded: loaded() });
    assert_eq!(session.events(), &vec![event("Dinner", Category::Home)]);
    let said = session.step(Reply::Confirmed(true)).unwrap().unwrap();
    assert_eq!(said.text(), "Events successfully loaded from b.json.");
    assert_eq!(session.events(), &loaded());
    assert_eq!(session.state(), &State::MainMenu);
}

#[test]
fn load_declined_keeps_the_events() {
    let mut session = session_with(vec![("Dinner", Category::Home)]);
    let said = run(
        &mut session,
        vec![
            Reply::Action(Action::Manage),
            Reply::Manage(ManageAction::Load),
            Reply::Files(vec![String::from("a.json")]),
            Reply::Picked(0),
            Reply::Loaded(vec![]),
            Reply::Confirmed(false),
        ],
    )
    .unwrap();
    assert_eq!(said, Message::NothingLoaded);
    assert_eq!(said.text(), "Ok, no events loaded.");
    assert_eq!(session.events(), &vec![event("Dinner", Category::Home)]);
    assert_eq!(session.state(), &State::MainMenu);
}

#[test]
fn load_of_an_empty_list_empties_the_session() {
    let mut session = session_with(vec![("Dinner", Category::Home)]);
    run(
        &mut session,
        vec![
            Reply::Action(Action::Manage),
            Reply::Manage(ManageAction::Load),
            Reply::Files(vec![String::from("a.json")]),
            Reply::Picked(0),
            Reply::Loaded(vec![]),
            Reply::Confirmed(true),
        ],
    );
    assert!(session.events().is_empty());
}

#[test]
fn quit_says_goodbye_and_ends_the_session() {
    let mut session = session_with(vec![("Dinner", Category::Home)]);
    let said = session.step(Reply::Action(Action::Quit)).unwrap().unwrap();
    assert_eq!(said, Message::Goodbye);
    assert_eq!(said.text(), "Goodbye! 👋");
    assert!(session.finished());
    assert_eq!(session.state(), &State::Quit);
    assert_eq!(session.step(Reply::Action(Action::New)), Err(StepError::Finished));
    assert_eq!(session.step(Reply::Cancelled), Err(StepError::Finished));
    assert_eq!(session.state(), &State::Quit);
    assert_eq!(session.events(), &vec![event("Dinner", Category::Home)]);
}

#[test]
fn a_reply_out_of_place_is_refused_and_changes_nothing() {
    let mut session = session_with(vec![("Dinner", Category::Home)]);
    assert_eq!(session.step(Reply::Text(String::from("x"))), Err(StepError::Unexpected));
    assert_eq!(session.step(Reply::Manage(ManageAction::Edit)), Err(StepError::Unexpected));
    assert_eq!(session.step(Reply::Written), Err(StepError::Unexpected));
    assert_eq!(session.state(), &State::MainMenu);
    run(&mut session, vec![Reply::Action(Action::Manage)]);
    assert_eq!(session.step(Reply::Action(Action::New)), Err(StepError::Unexpected));
    assert_eq!(session.state(), &State::ManageMenu);
    run(&mut session, vec![Reply::Manage(ManageAction::Edit)]);
    assert_eq!(session.step(Reply::Picked(1)), Err(StepError::Unexpected));
    assert_eq!(session.step(Reply::PickedMany(vec![0])), Err(StepError::Unexpected));
    assert_eq!(session.state(), &State::EditSelect);
    run(&mut session, vec![Reply::Picked(0)]);
    assert_eq!(session.step(Reply::Confirmed(true)), Err(StepError::Unexpected));
    run(&mut session, vec![Reply::Choice(EditChoice::Change(Field::Invitees))]);
    assert_eq!(session.step(Reply::PickedMany(vec![4])), Err(StepError::Unexpected));
    assert_eq!(session.step(Reply::Text(String::from("Jane"))), Err(StepError::Unexpected));
    assert_eq!(
        session.state(),
        &State::EditField {
            target: event("Dinner", Category::Home),
            proposal: event("Dinner", Category::Home),
            field: Field::Invitees,
        }
    );
    assert_eq!(session.events(), &vec![event("Dinner", Category::Home)]);
}

#[test]
fn a_place_beyond_the_list_of_files_is_refused() {
    let mut session = Session::new(contacts());
    run(
        &mut session,
        vec![
            Reply::Action(Action::Manage),
            Reply::Manage(ManageAction::Load),
            Reply::Files(vec![String::from("a.json")]),
        ],
    );
    assert_eq!(session.step(Reply::Picked(1)), Err(StepError::Unexpected));
    assert_eq!(session.state(), &State::LoadSelect { files: vec![String::from("a.json")] });
}

#[test]
fn an_unexpected_reply_in_a_creation_keeps_the_draft() {
    let mut session = Session::new(contacts());
    run(&mut session, vec![Reply::Action(Action::New), Reply::Text(String::from("Party"))]);
    assert_eq!(session.step(Reply::Text(String::from("notes"))), Err(StepError::Unexpected));
    assert_eq!(session.state(), &State::Creating(Draft::WantNotes { name: String::from("Party") }));
}

#[test]
fn remove_equal_agrees_with_retain_on_every_short_list() {
    let pool = [event("a", Category::Home), event("b", Category::Home), event("a", Category::Work)];
    for len in 0..=5usize {
        for code in 0..3usize.pow(len as u32) {
            let mut list = Vec::new();
            let mut rest = code;
            for _ in 0..len {
                list.push(pool[rest % 3].clone());
                rest /= 3;
            }
            for target in &pool {
                let mut expected = list.clone();
                expected.retain(|e| e != target);
                let mut got = list.clone();
                remove_equal(&mut got, target);
                assert_eq!(got, expected);
                assert!(!got.contains(target));
            }
        }
    }
}

#[test]
fn a_session_replays_a_long_conversation() {
    let mut session = Session::new(contacts());
    for round in 0..20u16 {
        create(&mut session, &format!("Event {}", round), Category::Work);
        assert_eq!(session.events().len(), usize::from(round) + 1);
    }
    for _ in 0..20 {
        let first = session.events()[0].label();
        let said = run(
            &mut session,
            vec![
                Reply::Action(Action::Manage),
                Reply::Manage(ManageAction::Delete),
                Reply::Picked(0),
                Reply::Confirmed(true),
            ],
        );
        assert_eq!(said, Some(Message::Deleted(first)));
    }
    assert!(session.events().is_empty());
    assert_eq!(session.state(), &State::MainMenu);
}
