//! The query editor: the SQL text, the run state and the results shown.

use vstd::prelude::*;
use crate::text::{is_prefix_of, starts_with};

verus! {

/// What `str::to_lowercase` returns for a string: the Unicode lowercase
/// mapping of each character, in order.
pub uninterp spec fn lowercase_of(s: Seq<char>) -> Seq<char>;

/// Calls `str::to_lowercase`, whose result the contract names
/// `lowercase_of` of the argument; nothing more of it is claimed.
#[verifier::external_body]
fn to_lowercase(s: &str) -> (r: String)
    ensures
        r@ == lowercase_of(s@),
{
    s.to_lowercase()
}

/// The results shown for a query on the `users` table.
pub open spec fn users_results() -> Seq<char> {
    "id | name | email\n---|---|---\n1  | Alice | alice@example.com\n2  | Bob | bob@example.com"@
}

/// The results shown for a query on the `orders` table.
pub open spec fn orders_results() -> Seq<char> {
    "id | user_id | total\n---|---|---\n101| 1 | 15.99\n102| 2 | 29.50"@
}

/// The results shown once a query has run, from the query text and its
/// lowercase form.
pub open spec fn results_for(lowered: Seq<char>, text: Seq<char>) -> Seq<char> {
    if is_prefix_of("select * from users"@, lowered) {
        users_results()
    } else if is_prefix_of("select * from orders"@, lowered) {
        orders_results()
    } else {
        "Query executed:\n"@ + text
    }
}

/// Emitted when a query is started; holds the query's text.
pub struct QueryExecuted(pub String);

/// What the query panel's behaviour depends on.
pub struct QueryPanelState {
    pub query_text: Seq<char>,
    pub query_results: Seq<char>,
    pub is_loading: bool,
}

impl QueryPanelState {
    /// The editor's text replaced by `text`.
    pub open spec fn with_text(self, text: Seq<char>) -> QueryPanelState {
        QueryPanelState { query_text: text, ..self }
    }

    /// A query has been started.
    pub open spec fn started(self) -> QueryPanelState {
        QueryPanelState {
            query_text: self.query_text,
            query_results: "Executing query..."@,
            is_loading: true,
        }
    }

    /// A query has completed, `lowered` being the lowercase form of the
    /// editor's text.
    pub open spec fn finished(self, lowered: Seq<char>) -> QueryPanelState {
        QueryPanelState {
            query_text: self.query_text,
            query_results: results_for(lowered, self.query_text),
            is_loading: false,
        }
    }
}

/// The query editor with its results area.
pub struct QueryPanel {
    query_text: String,
    query_results: String,
    is_loading: bool,
}

impl View for QueryPanel {
    type V = QueryPanelState;

    closed spec fn view(&self) -> QueryPanelState {
        QueryPanelState {
            query_text: self.query_text@,
            query_results: self.query_results@,
            is_loading: self.is_loading,
        }
    }
}

/// The results shown once a query has run: sample rows when the lowercase
/// text `lowered` starts a query of the `users` or `orders` table, else an
/// echo of `query_text`.
pub fn query_results_for(lowered: &str, query_text: &str) -> (r: String)
    ensures
        r@ == results_for(lowered@, query_text@),
{
    if starts_with(lowered, "select * from users") {
        String::from_str(
            "id | name | email\n---|---|---\n1  | Alice | alice@example.com\n2  | Bob | bob@example.com",
        )
    } else if starts_with(lowered, "select * from orders") {
        String::from_str("id | user_id | total\n---|---|---\n101| 1 | 15.99\n102| 2 | 29.50")
    } else {
        let mut r = String::from_str("Query executed:\n");
        r.append(query_text);
        r
    }
}

impl QueryPanel {
    /// The panel with a sample query, no results, idle.
    pub fn new() -> (p: Self)
        ensures
            p@ == (QueryPanelState {
                query_text: "SELECT * FROM users;"@,
                query_results: ""@,
                is_loading: false,
            }),
    {
        QueryPanel {
            query_text: String::from_str("SELECT * FROM users;"),
            query_results: String::from_str(""),
            is_loading: false,
        }
    }

    /// The text in the editor.
    pub fn query_text(&self) -> (t: &str)
        ensures
            t@ == self@.query_text,
    {
        self.query_text.as_str()
    }

    /// The text in the results area.
    pub fn query_results(&self) -> (t: &str)
        ensures
            t@ == self@.query_results,
    {
        self.query_results.as_str()
    }

    /// Whether a query is running.
    pub fn is_loading(&self) -> (b: bool)
        ensures
            b == self@.is_loading,
    {
        self.is_loading
    }

    /// Replaces the text in the editor.
    pub fn set_query_text(&mut self, text: String)
        ensures
            final(self)@ == old(self)@.with_text(text@),
    {
        self.query_text = text;
    }

    /// Starts the query in the editor: the panel shows that it is running,
    /// and the returned event holds the query's text.
    pub fn execute_query(&mut self) -> (e: QueryExecuted)
        ensures
            final(self)@ == old(self)@.started(),
            e.0@ == old(self)@.query_text,
    {
        self.is_loading = true;
        self.query_results = String::from_str("Executing query...");
        QueryExecuted(self.query_text.clone())
    }

    /// Completes the running query: the results of the editor's text are
    /// shown and the panel is idle again.
    pub fn finish_query(&mut self)
        ensures
            final(self)@ == old(self)@.finished(lowercase_of(old(self)@.query_text)),
    {
        let lowered = to_lowercase(self.query_text.as_str());
        self.query_results = query_results_for(lowered.as_str(), self.query_text.as_str());
        self.is_loading = false;
    }

    /// The label of the run button.
    pub fn execute_button_label(&self) -> (t: &'static str)
        ensures
            t@ == (if self@.is_loading {
                "⏳ Executing..."@
            } else {
                "▶ Execute Query"@
            }),
    {
        if self.is_loading {
            "⏳ Executing..."
        } else {
            "▶ Execute Query"
        }
    }
}

/// A run of the query in the editor, started and then completed, leaves the
/// text as it was and the panel idle, showing the results of that text; the
/// event of the start holds the same text.
pub proof fn lemma_run_query(s: QueryPanelState)
    ensures
        s.started().finished(lowercase_of(s.query_text)).query_text == s.query_text,
        !s.started().finished(lowercase_of(s.query_text)).is_loading,
        s.started().is_loading,
        s.started().finished(lowercase_of(s.query_text)).query_results == results_for(
            lowercase_of(s.query_text),
            s.query_text,
        ),
        s.started().finished(lowercase_of(s.query_text)) == s.finished(lowercase_of(s.query_text)),
{
}

/// Editing the text changes nothing but the text.
pub proof fn lemma_edit_keeps_run_state(s: QueryPanelState, text: Seq<char>)
    ensures
        s.with_text(text).query_text == text,
        s.with_text(text).query_results == s.query_results,
        s.with_text(text).is_loading == s.is_loading,
{
}

/// A query whose lowercase text starts with `select * from users` shows the
/// sample users rows, whatever follows; one starting with
/// `select * from orders` shows the sample orders rows; any other text is
/// echoed after `Query executed:` and a line break.
pub proof fn lemma_results_by_prefix(lowered: Seq<char>, text: Seq<char>, rest: Seq<char>)
    ensures
        results_for("select * from users"@ + rest, text)
            == "id | name | email\n---|---|---\n1  | Alice | alice@example.com\n2  | Bob | bob@example.com"@,
        results_for("select * from orders"@ + rest, text)
            == "id | user_id | total\n---|---|---\n101| 1 | 15.99\n102| 2 | 29.50"@,
        lowered.len() >= 19 && lowered.subrange(0, 19) == "select * from users"@ ==> results_for(
            lowered,
            text,
        ) == users_results(),
        lowered.len() >= 20 && lowered.subrange(0, 20) == "select * from orders"@ ==> results_for(
            lowered,
            text,
        ) == orders_results(),
        !(lowered.len() >= 19 && lowered.subrange(0, 19) == "select * from users"@) && !(
        lowered.len() >= 20 && lowered.subrange(0, 20) == "select * from orders"@) ==> results_for(
            lowered,
            text,
        ) == "Query executed:\n"@ + text,
{
    reveal_strlit("select * from users");
    reveal_strlit("select * from orders");
    let u = "select * from users"@;
    let o = "select * from orders"@;
    assert(u.len() == 19);
    assert(o.len() == 20);
    assert((u + rest).subrange(0, 19) =~= u);
    assert((o + rest).subrange(0, 20) =~= o);
    assert((o + rest)[14] != u[14]);
    assert((o + rest).subrange(0, 19)[14] != u[14]);
}

/// A finished run shows, for an editor text whose lowercase form starts
/// with `select * from users`, the users rows; and starting a run always
/// shows `Executing query...` and sets the panel running, whatever was
/// shown before, keeping the text.
pub proof fn lemma_start_and_finish(s: QueryPanelState)
    ensures
        s.started().query_results == "Executing query..."@,
        s.started().is_loading,
        s.started().query_text == s.query_text,
        !s.finished(lowercase_of(s.query_text)).is_loading,
        s.finished(lowercase_of(s.query_text)).query_text == s.query_text,
        is_prefix_of("select * from users"@, lowercase_of(s.query_text)) ==> s.finished(
            lowercase_of(s.query_text),
        ).query_results
            == "id | name | email\n---|---|---\n1  | Alice | alice@example.com\n2  | Bob | bob@example.com"@,
{
}

} // verus!
