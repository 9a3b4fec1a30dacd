use spm::db::PassEntry;
use spm::db::Store;
use spm::gui::contains_id;
use spm::gui::handle_events;
use spm::gui::AddForm;
use spm::gui::AppState;
use spm::gui::Event;
use spm::password::Password;
use spm::password::PasswordType;

fn draft(username: &str, passphrase: &str) -> PassEntry {
    PassEntry {
        id: -1,
        username: String::from(username),
        url: String::from("example.com"),
        passphrase: String::from(passphrase),
        notes: String::new(),
    }
}

fn empty_form() -> AddForm {
    AddForm {
        show: false,
        show_pass: false,
        auto_pass: true,
        name: String::new(),
        url: String::new(),
        passphrase: String::new(),
        notes: String::new(),
    }
}

#[test]
fn insert_event_answers_list_before_selection() {
    let mut store = Store::new();
    let responses = handle_events(Event::InsertEntryToDB(draft("alice", "Xy9!aaaa")), &mut store);

    assert_eq!(responses.len(), 2);
    match &responses[0] {
        Event::SetEntries(listed) => {
            assert_eq!(listed.len(), 1);
            assert_eq!(listed[0].username, "alice");
        }
        other => panic!("first response is not a list replacement: {:?}", kind_of(other)),
    }
    match &responses[1] {
        Event::SetSelectedEntry(Some(e)) => {
            assert_eq!(e.id, 1);
            assert_eq!(e.username, "alice");
            assert_eq!(e.passphrase, "Xy9!aaaa");
        }
        other => panic!("second response is not a selection replacement: {:?}", kind_of(other)),
    }
}

fn kind_of(event: &Event) -> &'static str {
    match event {
        Event::DeleteEntryFromDB(_) => "DeleteEntryFromDB",
        Event::GetEntryFromDB(_) => "GetEntryFromDB",
        Event::GetPassword(_) => "GetPassword",
        Event::InsertEntryToDB(_) => "InsertEntryToDB",
        Event::SetEntries(_) => "SetEntries",
        Event::SetSelectedEntry(_) => "SetSelectedEntry",
    }
}

#[test]
fn insert_event_with_an_empty_draft_is_silent() {
    let mut store = Store::new();
    let responses = handle_events(Event::InsertEntryToDB(draft("", "Xy9!aaaa")), &mut store);
    assert!(responses.is_empty());
    assert!(store.list_all().is_empty());

    let responses = handle_events(Event::InsertEntryToDB(draft("alice", "")), &mut store);
    assert!(responses.is_empty());
    assert!(store.list_all().is_empty());
}

#[test]
fn delete_event_refreshes_the_list() {
    let mut store = Store::new();
    handle_events(Event::InsertEntryToDB(draft("alice", "Xy9!aaaa")), &mut store);
    handle_events(Event::InsertEntryToDB(draft("bob", "Qq2%bbbb")), &mut store);

    let responses = handle_events(Event::DeleteEntryFromDB(1), &mut store);
    assert_eq!(responses.len(), 1);
    match &responses[0] {
        Event::SetEntries(listed) => {
            assert!(listed.iter().all(|e| e.id != 1));
            assert_eq!(listed.len(), 1);
            assert_eq!(listed[0].username, "bob");
        }
        other => panic!("delete did not answer with a list: {:?}", kind_of(other)),
    }
}

#[test]
fn deleting_the_selected_record_clears_the_selection() {
    let mut store = Store::new();
    handle_events(Event::InsertEntryToDB(draft("alice", "Xy9!aaaa")), &mut store);
    handle_events(Event::InsertEntryToDB(draft("bob", "Qq2%bbbb")), &mut store);

    let mut state = AppState::new(store.list_all(), String::from("seed"));
    let selected = store.get_by_id(1).unwrap();
    state.apply_event(&Event::SetSelectedEntry(Some(selected)));
    assert!(state.selected_entry.is_some());

    let responses = handle_events(Event::DeleteEntryFromDB(1), &mut store);
    state.handle_gui_events(&responses);

    assert!(state.selected_entry.is_none());
    assert!(state.entries.iter().all(|e| e.id != 1));
}

#[test]
fn deleting_another_record_keeps_the_selection() {
    let mut store = Store::new();
    handle_events(Event::InsertEntryToDB(draft("alice", "Xy9!aaaa")), &mut store);
    handle_events(Event::InsertEntryToDB(draft("bob", "Qq2%bbbb")), &mut store);

    let mut state = AppState::new(store.list_all(), String::from("seed"));
    let selected = store.get_by_id(2).unwrap();
    state.apply_event(&Event::SetSelectedEntry(Some(selected)));

    let responses = handle_events(Event::DeleteEntryFromDB(1), &mut store);
    state.handle_gui_events(&responses);

    assert_eq!(state.selected_entry.as_ref().unwrap().id, 2);
}

#[test]
fn inserting_then_draining_selects_the_new_record() {
    let mut store = Store::new();
    handle_events(Event::InsertEntryToDB(draft("alice", "Xy9!aaaa")), &mut store);

    let mut state = AppState::new(store.list_all(), String::new());
    let responses = handle_events(Event::InsertEntryToDB(draft("bob", "Qq2%bbbb")), &mut store);
    state.handle_gui_events(&responses);

    let selected = state.selected_entry.as_ref().unwrap();
    assert_eq!(selected.username, "bob");
    assert!(state.entries.iter().any(|e| e.id == selected.id));
    assert_eq!(state.entries.len(), 2);
}

#[test]
fn fetch_of_a_nonexistent_id_is_silent_and_harmless() {
    let mut store = Store::new();
    handle_events(Event::InsertEntryToDB(draft("alice", "Xy9!aaaa")), &mut store);
    let before = store.list_all();

    let responses = handle_events(Event::GetEntryFromDB(999), &mut store);
    assert!(responses.is_empty());
    assert_eq!(store.list_all(), before);
}

#[test]
fn fetch_of_an_existing_id_answers_with_the_selection() {
    let mut store = Store::new();
    handle_events(Event::InsertEntryToDB(draft("alice", "Xy9!aaaa")), &mut store);

    let responses = handle_events(Event::GetEntryFromDB(1), &mut store);
    assert_eq!(responses.len(), 1);
    match &responses[0] {
        Event::SetSelectedEntry(Some(e)) => assert_eq!(e.username, "alice"),
        other => panic!("fetch did not answer with a selection: {:?}", kind_of(other)),
    }
}

#[test]
fn password_requests_are_not_the_workers_business() {
    let mut store = Store::new();
    let request = Password { password_type: PasswordType::Complex, password_length: 25 };
    let responses = handle_events(Event::GetPassword(request), &mut store);
    assert!(responses.is_empty());
}

#[test]
fn new_snapshot_starts_unselected_with_a_hidden_form() {
    let entries = vec![PassEntry {
        id: 1,
        username: String::from("alice"),
        url: String::new(),
        passphrase: String::from("pw"),
        notes: String::new(),
    }];
    let state = AppState::new(entries, String::from("generated"));
    assert!(state.selected_entry.is_none());
    assert_eq!(state.entries.len(), 1);
    assert!(!state.add_form.show);
    assert!(!state.add_form.show_pass);
    assert!(state.add_form.auto_pass);
    assert_eq!(state.add_form.name, "");
    assert_eq!(state.add_form.url, "");
    assert_eq!(state.add_form.passphrase, "generated");
    assert_eq!(state.add_form.notes, "");
}

#[test]
fn responses_are_applied_in_receipt_order() {
    let e1 = PassEntry {
        id: 5,
        username: String::from("eve"),
        url: String::new(),
        passphrase: String::from("pw"),
        notes: String::new(),
    };
    let mut state = AppState::new(Vec::new(), String::new());
    let batch = vec![
        Event::SetEntries(vec![e1.clone()]),
        Event::SetSelectedEntry(Some(e1.clone())),
    ];
    state.handle_gui_events(&batch);
    assert_eq!(state.entries.len(), 1);
    assert_eq!(state.selected_entry.unwrap(), e1);
}

#[test]
fn submit_request_carries_the_form_and_the_sentinel_id() {
    let mut form = empty_form();
    form.name = String::from("carol");
    form.url = String::from("example.org");
    form.passphrase = String::from("Zz3#cccc");
    form.notes = String::from("note");

    match form.submit_request() {
        Some(Event::InsertEntryToDB(d)) => {
            assert_eq!(d.id, -1);
            assert_eq!(d.username, "carol");
            assert_eq!(d.url, "example.org");
            assert_eq!(d.passphrase, "Zz3#cccc");
            assert_eq!(d.notes, "note");
        }
        _ => panic!("a filled form must submit an insertion request"),
    }
}

#[test]
fn submit_request_refuses_incomplete_forms() {
    let mut form = empty_form();
    form.passphrase = String::from("Zz3#cccc");
    assert!(form.submit_request().is_none());

    let mut form = empty_form();
    form.name = String::from("carol");
    assert!(form.submit_request().is_none());
}

#[test]
fn contains_id_reports_membership() {
    let entries = vec![
        PassEntry {
            id: 1,
            username: String::from("a"),
            url: String::new(),
            passphrase: String::from("pw"),
            notes: String::new(),
        },
        PassEntry {
            id: 3,
            username: String::from("b"),
            url: String::new(),
            passphrase: String::from("pw"),
            notes: String::new(),
        },
    ];
    assert!(contains_id(&entries, 1));
    assert!(contains_id(&entries, 3));
    assert!(!contains_id(&entries, 2));
}
