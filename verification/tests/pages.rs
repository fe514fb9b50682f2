use todo_notes::handlers::h_note_new;
use todo_notes::handlers::h_notes;
use todo_notes::model::Note;
use todo_notes::model::User;
use todo_notes::model::UserCount;
use todo_notes::order::sort_notes;
use todo_notes::order::sort_user_counts;
use todo_notes::render::note_row_edit;
use todo_notes::render::note_row_new;
use todo_notes::render::note_row_view;
use todo_notes::render::users_page;
use todo_notes::store::Store;
use todo_notes::text::dec_string;
use todo_notes::text::escape;
use todo_notes::users::h_users;

const DONE: &str = "\u{2611}";
const UNDONE: &str = "\u{2610}";

const U1: &str = "00000000-0000-0000-0000-000000000001";
const N2: &str = "00000000-0000-0000-0000-000000000002";

fn note(note_id: u128, user_id: u128, created_at: i64, updated_at: Option<i64>) -> Note {
    Note {
        note_id,
        user_id,
        title: format!("note {note_id}"),
        body: String::new(),
        is_done: false,
        created_at,
        updated_at,
    }
}

#[test]
fn escape_rewrites_the_four_special_characters() {
    assert_eq!(escape("a&b<c>d\"e'f"), "a&amp;b&lt;c&gt;d&quot;e'f");
    assert_eq!(escape(""), "");
    assert_eq!(escape("plain"), "plain");
}

#[test]
fn decimal_rendering_is_exact() {
    assert_eq!(dec_string(0), "0");
    assert_eq!(dec_string(7), "7");
    assert_eq!(dec_string(105), "105");
    assert_eq!(dec_string(18446744073709551615), "18446744073709551615");
}

#[test]
fn view_row_is_the_exact_fragment() {
    let n = Note {
        note_id: 2,
        user_id: 1,
        title: "Buy milk".to_string(),
        body: "2%".to_string(),
        is_done: false,
        created_at: 0,
        updated_at: None,
    };
    let expected = format!(
        "<tr><td>Buy milk</td><td>2%</td>\
         <td><button hx-put=\"/users/{U1}/notes/{N2}/toggle\">{UNDONE}</button></td>\
         <td><button hx-get=\"/users/{U1}/notes/{N2}/edit\">Edit</button>\
         <button hx-delete=\"/users/{U1}/notes/{N2}\">Delete</button></td></tr>"
    );
    assert_eq!(note_row_view(&n), expected);
}

#[test]
fn done_row_shows_done_glyph() {
    let mut n = note(2, 1, 0, Some(5));
    n.is_done = true;
    let row = note_row_view(&n);
    assert!(row.contains(DONE));
    assert!(!row.contains(UNDONE));
}

#[test]
fn edit_row_prefills_escaped_values() {
    let n = Note {
        note_id: 2,
        user_id: 1,
        title: "a\"b".to_string(),
        body: "x<y".to_string(),
        is_done: false,
        created_at: 0,
        updated_at: None,
    };
    let row = note_row_edit(&n);
    assert!(row.contains("value=\"a&quot;b\""));
    assert!(row.contains("value=\"x&lt;y\""));
    assert!(row.contains("Cancel</button>"));
    assert!(row.contains("Save</button>"));
}

#[test]
fn new_prompt_rows_carry_the_user_id() {
    let trailer = note_row_new(1);
    assert_eq!(
        trailer,
        format!(
            "<tr><td colspan=\"4\"><button hx-get=\"/users/{U1}/notes/new\">New</button></td></tr>"
        )
    );
    let form = h_note_new(1);
    assert!(form.contains(&format!("hx-post=\"/users/{U1}/notes\"")));
    assert!(form.contains("placeholder=\"note title\""));
    assert!(form.contains("placeholder=\"note body\""));
}

#[test]
fn display_order_touched_first_then_recency() {
    // updated_at {T3, absent, T1}, created_at {t_a, t_b, t_c}
    let a = note(1, 9, 50, Some(3));
    let b = note(2, 9, 70, None);
    let c = note(3, 9, 60, Some(1));
    let sorted = sort_notes(vec![a, b, c]);
    let ids: Vec<u128> = sorted.iter().map(|n| n.note_id).collect();
    assert_eq!(ids, vec![1, 3, 2]);
}

#[test]
fn untouched_notes_order_by_creation_descending() {
    let a = note(1, 9, 50, None);
    let b = note(2, 9, 70, None);
    let c = note(3, 9, 60, None);
    let sorted = sort_notes(vec![a, b, c]);
    let ids: Vec<u128> = sorted.iter().map(|n| n.note_id).collect();
    assert_eq!(ids, vec![2, 3, 1]);
}

#[test]
fn notes_page_renders_rows_in_display_order() {
    let mut store = Store::new();
    store
        .insert_user(User {
            user_id: 9,
            name: "Carol".to_string(),
        })
        .unwrap();
    store.insert_note(note(1, 9, 50, Some(3))).unwrap();
    store.insert_note(note(2, 9, 70, None)).unwrap();
    store.insert_note(note(3, 9, 60, Some(1))).unwrap();
    let page = h_notes(&store, 9).unwrap();
    let p1 = page.find("note 1").unwrap();
    let p2 = page.find("note 2").unwrap();
    let p3 = page.find("note 3").unwrap();
    assert!(p1 < p3 && p3 < p2);
    assert!(page.contains("<p>Total notes: 3</p>"));
    assert!(page.contains("<h1>Notes for Carol</h1>"));
    assert!(page.contains("<title>Carol -- TODO app</title>"));
}

#[test]
fn empty_notes_page_is_the_exact_document() {
    let mut store = Store::new();
    store
        .insert_user(User {
            user_id: 1,
            name: "Alice".to_string(),
        })
        .unwrap();
    let page = h_notes(&store, 1).unwrap();
    let expected = format!(
        "<!DOCTYPE html><html lang=\"en\"><head><title>Alice -- TODO app</title>\
         <meta charset=\"utf-8\"><meta name=\"viewport\" content=\"width=device-width, initial-scale=1\">\
         <link rel=\"stylesheet\" href=\"/static/pico.css\"><link rel=\"stylesheet\" href=\"/static/style.css\">\
         <link rel=\"icon\" type=\"image/x-icon\" href=\"/static/favicon.ico\">\
         <script src=\"/static/htmx.js\"></script>\
         </head><body><main><nav><ul><li><a href=\"/users\">Home</a></li></ul></nav>\
         <h1>Notes for Alice</h1><p>Total notes: 0</p>\
         <table><thead><tr><th style=\"width: 25%;\">Title</th><th style=\"width: 25%;\">Body</th>\
         <th style=\"width: 25%;\">Completed</th><th style=\"width: 25%;\"></th></tr></thead>\
         <tbody hx-target=\"closest tr\" hx-swap=\"outerHTML\">\
         <tr><td colspan=\"4\"><button hx-get=\"/users/{U1}/notes/new\">New</button></td></tr>\
         </tbody></table></main></body></html>"
    );
    assert_eq!(page, expected);
}

#[test]
fn users_page_groups_large_numbers() {
    let rows = vec![UserCount {
        user_id: 1,
        name: "Alice".to_string(),
        notes_count: 1234,
    }];
    let page = users_page(1234567, &rows);
    assert!(page.contains("Total notes: 1,234,567."));
    assert!(page.contains("Total users: 1."));
    assert!(page.contains("View notes (1,234)"));
    assert!(page.contains(&format!("<pre>{U1}</pre>")));
    assert!(page.contains("<script src=\"/static/htmx.js\"></script><script src=\"/static/reload.js\"></script>"));
}

#[test]
fn users_list_keeps_zero_note_users_and_sums_totals() {
    let mut store = Store::new();
    store
        .insert_user(User {
            user_id: 1,
            name: "Alice".to_string(),
        })
        .unwrap();
    store
        .insert_user(User {
            user_id: 2,
            name: "Bob".to_string(),
        })
        .unwrap();
    store.insert_note(note(10, 2, 0, None)).unwrap();
    store.insert_note(note(11, 2, 0, None)).unwrap();
    let page = h_users(&store);
    assert!(page.contains("Alice"));
    assert!(page.contains("View notes (0)"));
    assert!(page.contains("View notes (2)"));
    assert!(page.contains("Total notes: 2."));
    assert!(page.contains("Total users: 2."));
    // larger counts come first
    let bob = page.find("Bob").unwrap();
    let alice = page.find("Alice").unwrap();
    assert!(bob < alice);
}

#[test]
fn user_rows_sort_by_count_descending() {
    let rows = vec![
        UserCount {
            user_id: 1,
            name: "a".to_string(),
            notes_count: 1,
        },
        UserCount {
            user_id: 2,
            name: "b".to_string(),
            notes_count: 5,
        },
        UserCount {
            user_id: 3,
            name: "c".to_string(),
            notes_count: 3,
        },
    ];
    let sorted = sort_user_counts(rows);
    let counts: Vec<u64> = sorted.iter().map(|r| r.notes_count).collect();
    assert_eq!(counts, vec![5, 3, 1]);
}
