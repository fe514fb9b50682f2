use vstd::prelude::*;
use vstd::string::StringExecFns;

use crate::model::Note;
use crate::model::UserCount;
use crate::text::dec_seq;
use crate::text::dec_string;
use crate::text::escape;
use crate::text::escaped;
use crate::text::formatted_u64;
use crate::text::grouped;
use crate::text::uuid_seq;
use crate::text::uuid_string;

verus! {

/// The concatenation of `f` over the elements of `s`, in order.
pub open spec fn concat_map<A>(s: Seq<A>, f: spec_fn(A) -> Seq<char>) -> Seq<char>
    decreases s.len(),
{
    if s.len() == 0 {
        Seq::empty()
    } else {
        f(s[0]) + concat_map(s.drop_first(), f)
    }
}

pub proof fn lemma_concat_map_push<A>(s: Seq<A>, f: spec_fn(A) -> Seq<char>, i: int)
    requires
        0 <= i < s.len(),
    ensures
        concat_map(s.take(i + 1), f) == concat_map(s.take(i), f) + f(s[i]),
    decreases i,
{
    if i == 0 {
        assert(s.take(1).drop_first() =~= Seq::<A>::empty());
        assert(s.take(0) =~= Seq::<A>::empty());
        assert(s.take(1)[0] == s[0]);
        assert(concat_map(s.take(1), f) == f(s.take(1)[0]) + concat_map(
            s.take(1).drop_first(),
            f,
        ));
        assert(f(s[0]) + Seq::<char>::empty() =~= f(s[0]));
        assert(concat_map(s.take(0), f) + f(s[0]) =~= f(s[0]));
    } else {
        let t = s.drop_first();
        lemma_concat_map_push(t, f, i - 1);
        assert(s.take(i + 1).drop_first() =~= t.take(i));
        assert(s.take(i).drop_first() =~= t.take(i - 1));
        assert(concat_map(s.take(i + 1), f) == f(s[0]) + concat_map(t.take(i), f));
        assert(concat_map(s.take(i), f) == f(s[0]) + concat_map(t.take(i - 1), f));
        assert(t[i - 1] == s[i]);
        assert(f(s[0]) + (concat_map(t.take(i - 1), f) + f(s[i])) =~= (f(s[0]) + concat_map(
            t.take(i - 1),
            f,
        )) + f(s[i]));
    }
}

/// The view-mode row fragment of a note: title, body, the toggle control
/// with the done or undone glyph, and the edit and delete controls.
pub open spec fn spec_note_row_view(n: Note) -> Seq<char> {
    "<tr><td>"@ + escaped(n.title@) + "</td><td>"@ + escaped(n.body@)
        + "</td><td><button hx-put=\"/users/"@ + uuid_seq(n.user_id) + "/notes/"@ + uuid_seq(
        n.note_id,
    ) + "/toggle\">"@ + (if n.is_done {
        "\u{2611}"@
    } else {
        "\u{2610}"@
    }) + "</button></td><td><button hx-get=\"/users/"@ + uuid_seq(n.user_id) + "/notes/"@
        + uuid_seq(n.note_id) + "/edit\">Edit</button><button hx-delete=\"/users/"@ + uuid_seq(
        n.user_id,
    ) + "/notes/"@ + uuid_seq(n.note_id) + "\">Delete</button></td></tr>"@
}

pub fn note_row_view(n: &Note) -> (r: String)
    ensures
        r@ == spec_note_row_view(*n),
{
    let user = uuid_string(n.user_id);
    let note = uuid_string(n.note_id);
    let mut r = String::new();
    r.append("<tr><td>");
    r.append(escape(n.title.as_str()).as_str());
    r.append("</td><td>");
    r.append(escape(n.body.as_str()).as_str());
    r.append("</td><td><button hx-put=\"/users/");
    r.append(user.as_str());
    r.append("/notes/");
    r.append(note.as_str());
    r.append("/toggle\">");
    if n.is_done {
        r.append("\u{2611}");
    } else {
        r.append("\u{2610}");
    }
    r.append("</button></td><td><button hx-get=\"/users/");
    r.append(user.as_str());
    r.append("/notes/");
    r.append(note.as_str());
    r.append("/edit\">Edit</button><button hx-delete=\"/users/");
    r.append(user.as_str());
    r.append("/notes/");
    r.append(note.as_str());
    r.append("\">Delete</button></td></tr>");
    proof {
        assert(r@ =~= spec_note_row_view(*n));
    }
    r
}

/// The edit-mode row fragment of a note: two pre-filled inputs, the done
/// glyph, and the cancel and save controls.
pub open spec fn spec_note_row_edit(n: Note) -> Seq<char> {
    "<tr><td><input name=\"title\" hx-put=\"/users/"@ + uuid_seq(n.user_id) + "/notes/"@
        + uuid_seq(n.note_id)
        + "\" hx-include=\"closest tr\" hx-trigger=\"keyup[key=='Enter']\" value=\""@ + escaped(
        n.title@,
    ) + "\"></td><td><input name=\"body\" hx-put=\"/users/"@ + uuid_seq(n.user_id) + "/notes/"@
        + uuid_seq(n.note_id)
        + "\" hx-include=\"closest tr\" hx-trigger=\"keyup[key=='Enter']\" value=\""@ + escaped(
        n.body@,
    ) + "\"></td><td>"@ + (if n.is_done {
        "\u{2611}"@
    } else {
        "\u{2610}"@
    }) + "</td><td><button hx-get=\"/users/"@ + uuid_seq(n.user_id) + "/notes/"@ + uuid_seq(
        n.note_id,
    ) + "\">Cancel</button><button hx-put=\"/users/"@ + uuid_seq(n.user_id) + "/notes/"@
        + uuid_seq(n.note_id) + "\" hx-include=\"closest tr\">Save</button></td></tr>"@
}

pub fn note_row_edit(n: &Note) -> (r: String)
    ensures
        r@ == spec_note_row_edit(*n),
{
    let user = uuid_string(n.user_id);
    let note = uuid_string(n.note_id);
    let mut r = String::new();
    r.append("<tr><td><input name=\"title\" hx-put=\"/users/");
    r.append(user.as_str());
    r.append("/notes/");
    r.append(note.as_str());
    r.append("\" hx-include=\"closest tr\" hx-trigger=\"keyup[key=='Enter']\" value=\"");
    r.append(escape(n.title.as_str()).as_str());
    r.append("\"></td><td><input name=\"body\" hx-put=\"/users/");
    r.append(user.as_str());
    r.append("/notes/");
    r.append(note.as_str());
    r.append("\" hx-include=\"closest tr\" hx-trigger=\"keyup[key=='Enter']\" value=\"");
    r.append(escape(n.body.as_str()).as_str());
    r.append("\"></td><td>");
    if n.is_done {
        r.append("\u{2611}");
    } else {
        r.append("\u{2610}");
    }
    r.append("</td><td><button hx-get=\"/users/");
    r.append(user.as_str());
    r.append("/notes/");
    r.append(note.as_str());
    r.append("\">Cancel</button><button hx-put=\"/users/");
    r.append(user.as_str());
    r.append("/notes/");
    r.append(note.as_str());
    r.append("\" hx-include=\"closest tr\">Save</button></td></tr>");
    proof {
        assert(r@ =~= spec_note_row_edit(*n));
    }
    r
}

/// The trailing row that offers to create a new note.
pub open spec fn spec_note_row_new(user_id: u128) -> Seq<char> {
    "<tr><td colspan=\"4\"><button hx-get=\"/users/"@ + uuid_seq(user_id)
        + "/notes/new\">New</button></td></tr>"@
}

pub fn note_row_new(user_id: u128) -> (r: String)
    ensures
        r@ == spec_note_row_new(user_id),
{
    let user = uuid_string(user_id);
    let mut r = String::new();
    r.append("<tr><td colspan=\"4\"><button hx-get=\"/users/");
    r.append(user.as_str());
    r.append("/notes/new\">New</button></td></tr>");
    proof {
        assert(r@ =~= spec_note_row_new(user_id));
    }
    r
}

/// The create-prompt row: two empty inputs and a save control, submitting
/// to the create operation (also on an Enter keypress in either input).
pub open spec fn spec_note_row_new_form(user_id: u128) -> Seq<char> {
    "<tr><td colspan=\"3\"><input name=\"title\" autofocus placeholder=\"note title\" hx-post=\"/users/"@
        + uuid_seq(user_id)
        + "/notes\" hx-include=\"closest tr\" hx-trigger=\"keyup[key=='Enter']\"><input name=\"body\" placeholder=\"note body\" hx-post=\"/users/"@
        + uuid_seq(user_id)
        + "/notes\" hx-include=\"closest tr\" hx-trigger=\"keyup[key=='Enter']\"></td><td><button hx-post=\"/users/"@
        + uuid_seq(user_id) + "/notes\" hx-include=\"closest tr\">Save</button></td></tr>"@
}

pub fn note_row_new_form(user_id: u128) -> (r: String)
    ensures
        r@ == spec_note_row_new_form(user_id),
{
    let user = uuid_string(user_id);
    let mut r = String::new();
    r.append(
        "<tr><td colspan=\"3\"><input name=\"title\" autofocus placeholder=\"note title\" hx-post=\"/users/",
    );
    r.append(user.as_str());
    r.append(
        "/notes\" hx-include=\"closest tr\" hx-trigger=\"keyup[key=='Enter']\"><input name=\"body\" placeholder=\"note body\" hx-post=\"/users/",
    );
    r.append(user.as_str());
    r.append(
        "/notes\" hx-include=\"closest tr\" hx-trigger=\"keyup[key=='Enter']\"></td><td><button hx-post=\"/users/",
    );
    r.append(user.as_str());
    r.append("/notes\" hx-include=\"closest tr\">Save</button></td></tr>");
    proof {
        assert(r@ =~= spec_note_row_new_form(user_id));
    }
    r
}

/// One script tag of the page head.
pub open spec fn spec_script_tag(s: Seq<char>) -> Seq<char> {
    "<script src=\"/static/"@ + escaped(s) + "\"></script>"@
}

/// The page shell: document head with styles and the given scripts, then
/// a navigation header and the given main content.
pub open spec fn spec_base(title: Seq<char>, scripts: Seq<Seq<char>>, main: Seq<char>) -> Seq<char> {
    "<!DOCTYPE html><html lang=\"en\"><head><title>"@ + escaped(title)
        + "</title><meta charset=\"utf-8\"><meta name=\"viewport\" content=\"width=device-width, initial-scale=1\"><link rel=\"stylesheet\" href=\"/static/pico.css\"><link rel=\"stylesheet\" href=\"/static/style.css\"><link rel=\"icon\" type=\"image/x-icon\" href=\"/static/favicon.ico\">"@
        + concat_map(scripts, |s: Seq<char>| spec_script_tag(s))
        + "</head><body><main><nav><ul><li><a href=\"/users\">Home</a></li></ul></nav>"@ + main
        + "</main></body></html>"@
}

pub fn base(title: &str, scripts: &Vec<String>, main: &String) -> (r: String)
    ensures
        r@ == spec_base(title@, scripts@.map_values(|s: String| s@), main@),
{
    let ghost tag = |s: Seq<char>| spec_script_tag(s);
    let ghost views = scripts@.map_values(|s: String| s@);
    let mut r = String::new();
    r.append("<!DOCTYPE html><html lang=\"en\"><head><title>");
    r.append(escape(title).as_str());
    r.append(
        "</title><meta charset=\"utf-8\"><meta name=\"viewport\" content=\"width=device-width, initial-scale=1\"><link rel=\"stylesheet\" href=\"/static/pico.css\"><link rel=\"stylesheet\" href=\"/static/style.css\"><link rel=\"icon\" type=\"image/x-icon\" href=\"/static/favicon.ico\">",
    );
    let ghost head = r@;
    let mut i: usize = 0;
    while i < scripts.len()
        invariant
            i <= scripts.len(),
            views == scripts@.map_values(|s: String| s@),
            r@ == head + concat_map(views.take(i as int), tag),
            tag == (|s: Seq<char>| spec_script_tag(s)),
        decreases scripts.len() - i,
    {
        r.append("<script src=\"/static/");
        r.append(escape(scripts[i].as_str()).as_str());
        r.append("\"></script>");
        proof {
            lemma_concat_map_push(views, tag, i as int);
            assert(views[i as int] == scripts@[i as int]@);
            assert(r@ =~= head + concat_map(views.take((i + 1) as int), tag));
        }
        i += 1;
    }
    proof {
        assert(views.take(views.len() as int) =~= views);
    }
    r.append("</head><body><main><nav><ul><li><a href=\"/users\">Home</a></li></ul></nav>");
    r.append(main.as_str());
    r.append("</main></body></html>");
    proof {
        assert(r@ =~= spec_base(title@, views, main@));
    }
    r
}

/// The notes page of one user: page shell around a heading, the note
/// count, and the table of rows in display order followed by the
/// create-prompt trailer row.
pub open spec fn spec_notes_page(name: Seq<char>, user_id: u128, notes: Seq<Note>) -> Seq<char> {
    spec_base(
        name + " -- TODO app"@,
        seq!["htmx.js"@],
        "<h1>Notes for "@ + escaped(name) + "</h1><p>Total notes: "@ + dec_seq(notes.len())
            + "</p><table><thead><tr><th style=\"width: 25%;\">Title</th><th style=\"width: 25%;\">Body</th><th style=\"width: 25%;\">Completed</th><th style=\"width: 25%;\"></th></tr></thead><tbody hx-target=\"closest tr\" hx-swap=\"outerHTML\">"@
            + concat_map(notes, |n: Note| spec_note_row_view(n)) + spec_note_row_new(user_id)
            + "</tbody></table>"@,
    )
}

pub fn notes_page(name: &str, user_id: u128, notes: &Vec<Note>) -> (r: String)
    ensures
        r@ == spec_notes_page(name@, user_id, notes@),
{
    let ghost row = |n: Note| spec_note_row_view(n);
    let mut main = String::new();
    main.append("<h1>Notes for ");
    main.append(escape(name).as_str());
    main.append("</h1><p>Total notes: ");
    main.append(dec_string(notes.len() as u64).as_str());
    main.append(
        "</p><table><thead><tr><th style=\"width: 25%;\">Title</th><th style=\"width: 25%;\">Body</th><th style=\"width: 25%;\">Completed</th><th style=\"width: 25%;\"></th></tr></thead><tbody hx-target=\"closest tr\" hx-swap=\"outerHTML\">",
    );
    let ghost head = main@;
    let mut i: usize = 0;
    while i < notes.len()
        invariant
            i <= notes.len(),
            main@ == head + concat_map(notes@.take(i as int), row),
            row == (|n: Note| spec_note_row_view(n)),
        decreases notes.len() - i,
    {
        main.append(note_row_view(&notes[i]).as_str());
        proof {
            lemma_concat_map_push(notes@, row, i as int);
            assert(main@ =~= head + concat_map(notes@.take((i + 1) as int), row));
        }
        i += 1;
    }
    proof {
        assert(notes@.take(notes@.len() as int) =~= notes@);
    }
    main.append(note_row_new(user_id).as_str());
    main.append("</tbody></table>");
    let mut title = String::new();
    title.append(name);
    title.append(" -- TODO app");
    let mut scripts: Vec<String> = Vec::new();
    scripts.push(String::from_str("htmx.js"));
    let r = base(title.as_str(), &scripts, &main);
    proof {
        assert(scripts@.map_values(|s: String| s@) =~= seq!["htmx.js"@]);
        assert(r@ =~= spec_notes_page(name@, user_id, notes@));
    }
    r
}

/// One row of the users listing.
pub open spec fn spec_user_row(u: UserCount) -> Seq<char> {
    "<tr><td><pre>"@ + uuid_seq(u.user_id) + "</pre></td><td>"@ + escaped(u.name@)
        + "</td><td><a href=\"/users/"@ + uuid_seq(u.user_id) + "/notes\">View notes ("@ + grouped(
        dec_seq(u.notes_count as nat),
    ) + ")</a></td></tr>"@
}

pub fn user_row(u: &UserCount) -> (r: String)
    ensures
        r@ == spec_user_row(*u),
{
    let user = uuid_string(u.user_id);
    let mut r = String::new();
    r.append("<tr><td><pre>");
    r.append(user.as_str());
    r.append("</pre></td><td>");
    r.append(escape(u.name.as_str()).as_str());
    r.append("</td><td><a href=\"/users/");
    r.append(user.as_str());
    r.append("/notes\">View notes (");
    r.append(formatted_u64(u.notes_count).as_str());
    r.append(")</a></td></tr>");
    proof {
        assert(r@ =~= spec_user_row(*u));
    }
    r
}

/// The users page: page shell around the aggregate totals (in grouped,
/// comma-separated form) and one row per user, given in display order.
pub open spec fn spec_users_page(total_notes: u64, rows: Seq<UserCount>) -> Seq<char> {
    spec_base(
        "Users -- TODO app"@,
        seq!["htmx.js"@, "reload.js"@],
        "<h1>Users</h1><p>Total notes: "@ + grouped(dec_seq(total_notes as nat))
            + ".Total users: "@ + grouped(dec_seq(rows.len()))
            + ".</p><table><thead><tr><th>User ID</th><th>Name</th><th></th></tr></thead><tbody>"@
            + concat_map(rows, |u: UserCount| spec_user_row(u)) + "</tbody></table>"@,
    )
}

pub fn users_page(total_notes: u64, rows: &Vec<UserCount>) -> (r: String)
    requires
        rows@.len() <= u64::MAX,
    ensures
        r@ == spec_users_page(total_notes, rows@),
{
    let ghost rowf = |u: UserCount| spec_user_row(u);
    let mut main = String::new();
    main.append("<h1>Users</h1><p>Total notes: ");
    main.append(formatted_u64(total_notes).as_str());
    main.append(".Total users: ");
    main.append(formatted_u64(rows.len() as u64).as_str());
    main.append(
        ".</p><table><thead><tr><th>User ID</th><th>Name</th><th></th></tr></thead><tbody>",
    );
    let ghost head = main@;
    let mut i: usize = 0;
    while i < rows.len()
        invariant
            i <= rows.len(),
            main@ == head + concat_map(rows@.take(i as int), rowf),
            rowf == (|u: UserCount| spec_user_row(u)),
        decreases rows.len() - i,
    {
        main.append(user_row(&rows[i]).as_str());
        proof {
            lemma_concat_map_push(rows@, rowf, i as int);
            assert(main@ =~= head + concat_map(rows@.take((i + 1) as int), rowf));
        }
        i += 1;
    }
    proof {
        assert(rows@.take(rows@.len() as int) =~= rows@);
    }
    main.append("</tbody></table>");
    let mut scripts: Vec<String> = Vec::new();
    scripts.push(String::from_str("htmx.js"));
    scripts.push(String::from_str("reload.js"));
    let r = base("Users -- TODO app", &scripts, &main);
    proof {
        assert(scripts@.map_values(|s: String| s@) =~= seq!["htmx.js"@, "reload.js"@]);
        assert(r@ =~= spec_users_page(total_notes, rows@));
    }
    r
}

} // verus!
