use todo_notes::handlers::h_note;
use todo_notes::handlers::h_note_delete;
use todo_notes::handlers::h_note_edit;
use todo_notes::handlers::h_note_edit_put;
use todo_notes::handlers::h_note_new_post;
use todo_notes::handlers::h_note_toggle;
use todo_notes::handlers::h_notes;
use todo_notes::handlers::verify_owner;
use todo_notes::model::Error;
use todo_notes::model::Note;
use todo_notes::model::NoteEdit;
use todo_notes::model::NoteNew;
use todo_notes::model::User;
use todo_notes::store::Store;

const DONE: &str = "\u{2611}";
const UNDONE: &str = "\u{2610}";

fn store_with_users() -> Store {
    let mut store = Store::new();
    store
        .insert_user(User {
            user_id: 1,
            name: "Alice".to_string(),
        })
        .unwrap();
    store
        .insert_user(User {
            user_id: 2,
            name: "Bob".to_string(),
        })
        .unwrap();
    store
}

fn note(note_id: u128, user_id: u128, title: &str, body: &str) -> Note {
    Note {
        note_id,
        user_id,
        title: title.to_string(),
        body: body.to_string(),
        is_done: false,
        created_at: 10,
        updated_at: None,
    }
}

#[test]
fn owner_match_returns_note() {
    let mut store = store_with_users();
    store.insert_note(note(7, 1, "t", "b")).unwrap();
    let n = verify_owner(&store, 7, 1).unwrap();
    assert_eq!(n.note_id, 7);
    assert_eq!(n.user_id, 1);
    assert_eq!(n.title, "t");
    assert_eq!(n.body, "b");
}

#[test]
fn owner_mismatch_is_rejected() {
    let mut store = store_with_users();
    store.insert_note(note(7, 1, "t", "b")).unwrap();
    assert!(matches!(verify_owner(&store, 7, 2), Err(Error::OwnershipMismatch)));
}

#[test]
fn missing_note_is_not_found() {
    let store = store_with_users();
    assert!(matches!(verify_owner(&store, 99, 1), Err(Error::NotFound)));
    assert_eq!(h_note(&store, 1, 99), Err(Error::NotFound));
    assert_eq!(h_note_edit(&store, 1, 99), Err(Error::NotFound));
}

#[test]
fn missing_user_list_is_not_found() {
    let store = store_with_users();
    assert_eq!(h_notes(&store, 42), Err(Error::NotFound));
}

#[test]
fn create_then_read_back() {
    let mut store = store_with_users();
    let form = NoteNew {
        title: "Buy milk".to_string(),
        body: "2%".to_string(),
    };
    h_note_new_post(&mut store, 1, 7, form, 100).unwrap();
    let n = verify_owner(&store, 7, 1).unwrap();
    assert!(!n.is_done);
    assert_eq!(n.updated_at, None);
    assert_eq!(n.created_at, 100);
    assert_eq!(n.title, "Buy milk");
    assert_eq!(n.body, "2%");
}

#[test]
fn create_for_unknown_user_is_refused() {
    let mut store = store_with_users();
    let form = NoteNew {
        title: "x".to_string(),
        body: "y".to_string(),
    };
    assert_eq!(
        h_note_new_post(&mut store, 42, 7, form, 100),
        Err(Error::Constraint)
    );
}

#[test]
fn duplicate_note_id_is_refused() {
    let mut store = store_with_users();
    store.insert_note(note(7, 1, "t", "b")).unwrap();
    assert!(matches!(store.insert_note(note(7, 2, "u", "c")), Err(Error::Constraint)));
}

#[test]
fn toggle_twice_restores_done_but_keeps_timestamp() {
    let mut store = store_with_users();
    store.insert_note(note(7, 1, "t", "b")).unwrap();
    let first = h_note_toggle(&mut store, 1, 7, 200).unwrap();
    assert!(first.contains(DONE));
    assert!(!first.contains(UNDONE));
    let second = h_note_toggle(&mut store, 1, 7, 300).unwrap();
    assert!(second.contains(UNDONE));
    assert!(!second.contains(DONE));
    let n = verify_owner(&store, 7, 1).unwrap();
    assert!(!n.is_done);
    assert_eq!(n.updated_at, Some(300));
}

#[test]
fn toggle_checks_ownership() {
    let mut store = store_with_users();
    store.insert_note(note(7, 1, "t", "b")).unwrap();
    assert_eq!(
        h_note_toggle(&mut store, 2, 7, 200),
        Err(Error::OwnershipMismatch)
    );
    let n = verify_owner(&store, 7, 1).unwrap();
    assert!(!n.is_done);
    assert_eq!(n.updated_at, None);
}

#[test]
fn update_overwrites_text_and_stamps() {
    let mut store = store_with_users();
    store.insert_note(note(7, 1, "t", "b")).unwrap();
    let form = NoteEdit {
        title: "new title".to_string(),
        body: "".to_string(),
    };
    let row = h_note_edit_put(&mut store, 1, 7, form, 400).unwrap();
    assert!(row.contains("new title"));
    let n = verify_owner(&store, 7, 1).unwrap();
    assert_eq!(n.title, "new title");
    assert_eq!(n.body, "");
    assert_eq!(n.updated_at, Some(400));
    assert_eq!(n.created_at, 10);
}

#[test]
fn delete_then_read_is_not_found() {
    let mut store = store_with_users();
    store.insert_note(note(7, 1, "t", "b")).unwrap();
    assert_eq!(h_note_delete(&mut store, 1, 7), Ok(()));
    assert_eq!(h_note(&store, 1, 7), Err(Error::NotFound));
    assert!(matches!(verify_owner(&store, 7, 1), Err(Error::NotFound)));
}

#[test]
fn delete_checks_ownership() {
    let mut store = store_with_users();
    store.insert_note(note(7, 1, "t", "b")).unwrap();
    assert_eq!(h_note_delete(&mut store, 2, 7), Err(Error::OwnershipMismatch));
    assert!(verify_owner(&store, 7, 1).is_ok());
}

#[test]
fn create_shows_row_and_increments_count() {
    let mut store = store_with_users();
    let before = h_notes(&store, 1).unwrap();
    assert!(before.contains("<p>Total notes: 0</p>"));
    let form = NoteNew {
        title: "Buy milk".to_string(),
        body: "2%".to_string(),
    };
    let fragment = h_note_new_post(&mut store, 1, 7, form, 100).unwrap();
    assert!(fragment.contains("Buy milk"));
    assert!(fragment.contains("2%"));
    assert!(fragment.contains(UNDONE));
    assert!(fragment.contains("New"));
    let after = h_notes(&store, 1).unwrap();
    assert!(after.contains("<p>Total notes: 1</p>"));
    assert!(after.contains("Buy milk"));
    assert!(after.contains("2%"));
    assert!(after.contains(UNDONE));
}

#[test]
fn read_one_renders_the_view_row() {
    let mut store = store_with_users();
    store.insert_note(note(7, 1, "alpha", "a")).unwrap();
    let row = h_note(&store, 1, 7).unwrap();
    assert!(row.starts_with("<tr><td>alpha</td><td>a</td>"));
    assert!(row.contains(UNDONE));
    assert!(row.contains("Edit</button>"));
    assert!(row.contains("Delete</button>"));
}

#[test]
fn enter_edit_renders_prefilled_inputs() {
    let mut store = store_with_users();
    store.insert_note(note(7, 1, "alpha", "a")).unwrap();
    let row = h_note_edit(&store, 1, 7).unwrap();
    assert!(row.contains("value=\"alpha\""));
    assert!(row.contains("value=\"a\""));
    assert!(row.contains("Cancel</button>"));
    assert_eq!(h_note_edit(&store, 2, 7), Err(Error::OwnershipMismatch));
}

#[test]
fn other_users_notes_stay_invisible() {
    let mut store = store_with_users();
    store.insert_note(note(7, 1, "alpha", "a")).unwrap();
    store.insert_note(note(8, 2, "beta", "b")).unwrap();
    let page = h_notes(&store, 1).unwrap();
    assert!(page.contains("alpha"));
    assert!(!page.contains("beta"));
    assert!(page.contains("<p>Total notes: 1</p>"));
}
