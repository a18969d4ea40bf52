//! The panels of the sidebar: database connections, the schema browser,
//! the query history and the snippets.

use vstd::prelude::*;
use crate::text::{decimal, decimal_string, occurs_at, occurs_in, contains, matches_at};

verus! {

// ---------------------------------------------------------------------------
// Connections
// ---------------------------------------------------------------------------

/// A database that the client knows of.
pub struct DatabaseConnection {
    pub name: String,
    pub db_type: String,
    pub host: String,
    pub is_connected: bool,
}

/// The list of known database connections.
pub struct ConnectionsPanel {
    connections: Vec<DatabaseConnection>,
}

impl View for ConnectionsPanel {
    type V = Seq<DatabaseConnection>;

    closed spec fn view(&self) -> Seq<DatabaseConnection> {
        self.connections@
    }
}

/// The line under a connection's name: its database type and host.
pub open spec fn connection_subtitle_text(c: DatabaseConnection) -> Seq<char> {
    c.db_type@ + " • "@ + c.host@
}

impl ConnectionsPanel {
    /// The panel with its two sample connections.
    pub fn new() -> (p: Self)
        ensures
            p@.len() == 2,
            p@[0].name@ == "Production DB"@,
            p@[0].db_type@ == "PostgreSQL"@,
            p@[0].host@ == "prod.example.com"@,
            p@[0].is_connected,
            p@[1].name@ == "Development"@,
            p@[1].db_type@ == "MySQL"@,
            p@[1].host@ == "localhost:3306"@,
            !p@[1].is_connected,
    {
        ConnectionsPanel {
            connections: vec![
                DatabaseConnection {
                    name: String::from_str("Production DB"),
                    db_type: String::from_str("PostgreSQL"),
                    host: String::from_str("prod.example.com"),
                    is_connected: true,
                },
                DatabaseConnection {
                    name: String::from_str("Development"),
                    db_type: String::from_str("MySQL"),
                    host: String::from_str("localhost:3306"),
                    is_connected: false,
                },
            ],
        }
    }

    /// The connections, in the order they are listed.
    pub fn connections(&self) -> (v: &Vec<DatabaseConnection>)
        ensures
            v@ == self@,
    {
        &self.connections
    }

    /// The element id of the connection listed at `index`.
    pub fn connection_element_id(index: usize) -> (id: String)
        ensures
            id@ == "connection-"@ + decimal(index as nat),
    {
        let mut id = String::from_str("connection-");
        let digits = decimal_string(index as u64);
        id.append(digits.as_str());
        id
    }

    /// The line under a connection's name.
    pub fn connection_subtitle(conn: &DatabaseConnection) -> (s: String)
        ensures
            s@ == connection_subtitle_text(*conn),
    {
        let mut s = conn.db_type.clone();
        s.append(" • ");
        s.append(conn.host.as_str());
        s
    }

    /// The colour of the dot that shows whether a connection is open.
    pub fn indicator_color(conn: &DatabaseConnection) -> (c: u32)
        ensures
            c == (if conn.is_connected {
                0x4ec9b0u32
            } else {
                0x858585u32
            }),
    {
        if conn.is_connected {
            0x4ec9b0
        } else {
            0x858585
        }
    }
}

// ---------------------------------------------------------------------------
// Schema
// ---------------------------------------------------------------------------

/// A column of a table.
pub struct ColumnInfo {
    pub name: String,
    pub data_type: String,
    pub is_nullable: bool,
}

/// A table of the database, with its columns.
pub struct TableInfo {
    pub name: String,
    pub row_count: u64,
    pub columns: Vec<ColumnInfo>,
}

/// What the schema browser's behaviour depends on.
pub struct SchemaState {
    pub tables: Seq<TableInfo>,
    /// The names of the tables whose columns are shown, oldest first.
    pub expanded: Seq<Seq<char>>,
    pub filter: Seq<char>,
}

/// No name occurs twice in `s`.
pub open spec fn no_duplicates(s: Seq<Seq<char>>) -> bool {
    forall|i: int, j: int| 0 <= i < s.len() && 0 <= j < s.len() && i != j ==> s[i] != s[j]
}

/// The position of `x` in `s`, where it occurs.
pub open spec fn position_of(s: Seq<Seq<char>>, x: Seq<char>) -> int {
    choose|i: int| 0 <= i < s.len() && s[i] == x
}

/// The positions, in increasing order, of the first `n` tables whose name
/// holds `filter`.
pub open spec fn visible_upto(tables: Seq<TableInfo>, filter: Seq<char>, n: nat) -> Seq<usize>
    decreases n,
{
    if n == 0 {
        Seq::empty()
    } else {
        let before = visible_upto(tables, filter, (n - 1) as nat);
        if occurs_in(filter, tables[n - 1].name@) {
            before.push((n - 1) as usize)
        } else {
            before
        }
    }
}

impl SchemaState {
    /// A click on the row of table `name`: its columns are hidden if they
    /// were shown, and shown otherwise.
    pub open spec fn after_toggle(self, name: Seq<char>) -> SchemaState {
        SchemaState {
            tables: self.tables,
            expanded: if self.expanded.contains(name) {
                self.expanded.remove(position_of(self.expanded, name))
            } else {
                self.expanded.push(name)
            },
            filter: self.filter,
        }
    }

    /// The positions of the tables that the filter lets through.
    pub open spec fn visible(self) -> Seq<usize> {
        visible_upto(self.tables, self.filter, self.tables.len())
    }
}

/// The schema browser.
pub struct SchemaPanel {
    tables: Vec<TableInfo>,
    expanded_tables: Vec<String>,
    filter_text: String,
}

/// The names in a list of strings.
pub open spec fn names(v: Seq<String>) -> Seq<Seq<char>> {
    v.map_values(|s: String| s@)
}

impl View for SchemaPanel {
    type V = SchemaState;

    closed spec fn view(&self) -> SchemaState {
        SchemaState {
            tables: self.tables@,
            expanded: names(self.expanded_tables@),
            filter: self.filter_text@,
        }
    }
}

/// `a` and `b` hold the same characters.
fn str_eq(a: &str, b: &str) -> (r: bool)
    ensures
        r == (a@ == b@),
{
    let n = a.unicode_len();
    let m = b.unicode_len();
    if n != m {
        return false;
    }
    let r = matches_at(a, b, 0);
    assert(a@.subrange(0, n as int) =~= a@);
    r
}

impl SchemaPanel {
    #[verifier::type_invariant]
    spec fn inv(self) -> bool {
        no_duplicates(names(self.expanded_tables@))
    }

    /// The browser over the two sample tables, all collapsed, unfiltered.
    pub fn new() -> (p: Self)
        ensures
            p@.tables.len() == 2,
            p@.tables[0].name@ == "users"@,
            p@.tables[0].row_count == 15234,
            p@.tables[0].columns@.len() == 3,
            p@.tables[0].columns@[0].name@ == "id"@,
            p@.tables[0].columns@[0].data_type@ == "INTEGER"@,
            !p@.tables[0].columns@[0].is_nullable,
            p@.tables[0].columns@[1].name@ == "name"@,
            p@.tables[0].columns@[1].data_type@ == "VARCHAR(255)"@,
            !p@.tables[0].columns@[1].is_nullable,
            p@.tables[0].columns@[2].name@ == "email"@,
            p@.tables[0].columns@[2].data_type@ == "VARCHAR(255)"@,
            p@.tables[0].columns@[2].is_nullable,
            p@.tables[1].name@ == "orders"@,
            p@.tables[1].row_count == 89123,
            p@.tables[1].columns@.len() == 3,
            p@.tables[1].columns@[0].name@ == "id"@,
            p@.tables[1].columns@[0].data_type@ == "INTEGER"@,
            !p@.tables[1].columns@[0].is_nullable,
            p@.tables[1].columns@[1].name@ == "user_id"@,
            p@.tables[1].columns@[1].data_type@ == "INTEGER"@,
            !p@.tables[1].columns@[1].is_nullable,
            p@.tables[1].columns@[2].name@ == "total"@,
            p@.tables[1].columns@[2].data_type@ == "DECIMAL(10,2)"@,
            !p@.tables[1].columns@[2].is_nullable,
            p@.expanded.len() == 0,
            p@.filter.len() == 0,
            no_duplicates(p@.expanded),
    {
        let users = TableInfo {
            name: String::from_str("users"),
            row_count: 15234,
            columns: vec![
                ColumnInfo {
                    name: String::from_str("id"),
                    data_type: String::from_str("INTEGER"),
                    is_nullable: false,
                },
                ColumnInfo {
                    name: String::from_str("name"),
                    data_type: String::from_str("VARCHAR(255)"),
                    is_nullable: false,
                },
                ColumnInfo {
                    name: String::from_str("email"),
                    data_type: String::from_str("VARCHAR(255)"),
                    is_nullable: true,
                },
            ],
        };
        let orders = TableInfo {
            name: String::from_str("orders"),
            row_count: 89123,
            columns: vec![
                ColumnInfo {
                    name: String::from_str("id"),
                    data_type: String::from_str("INTEGER"),
                    is_nullable: false,
                },
                ColumnInfo {
                    name: String::from_str("user_id"),
                    data_type: String::from_str("INTEGER"),
                    is_nullable: false,
                },
                ColumnInfo {
                    name: String::from_str("total"),
                    data_type: String::from_str("DECIMAL(10,2)"),
                    is_nullable: false,
                },
            ],
        };
        let expanded_tables: Vec<String> = Vec::new();
        proof {
            reveal_strlit("");
        }
        let filter_text = String::from_str("");
        assert(names(expanded_tables@) =~= Seq::<Seq<char>>::empty());
        SchemaPanel { tables: vec![users, orders], expanded_tables, filter_text }
    }

    /// The tables, in the order they are listed.
    pub fn tables(&self) -> (v: &Vec<TableInfo>)
        ensures
            v@ == self@.tables,
    {
        &self.tables
    }

    /// The position in the expansion list of `table_name`, if it is there.
    fn expanded_position(&self, table_name: &str) -> (r: Option<usize>)
        ensures
            match r {
                Some(i) => i < self@.expanded.len() && self@.expanded[i as int] == table_name@,
                None => !self@.expanded.contains(table_name@),
            },
    {
        let n = self.expanded_tables.len();
        let mut i: usize = 0;
        while i < n
            invariant
                n == self.expanded_tables@.len(),
                names(self.expanded_tables@) == self@.expanded,
                i <= n,
                forall|j: int| 0 <= j < i ==> self.expanded_tables@[j]@ != table_name@,
            decreases n - i,
        {
            if str_eq(self.expanded_tables[i].as_str(), table_name) {
                return Some(i);
            }
            i = i + 1;
        }
        assert forall|j: int| 0 <= j < self@.expanded.len() implies self@.expanded[j] != table_name@ by {
            assert(self.expanded_tables@[j]@ != table_name@);
        }
        None
    }

    /// Whether the columns of `table_name` are shown.
    pub fn is_expanded(&self, table_name: &str) -> (b: bool)
        ensures
            b == self@.expanded.contains(table_name@),
    {
        self.expanded_position(table_name).is_some()
    }

    /// Handles a click on the row of `table_name`.
    pub fn toggle_table(&mut self, table_name: &str)
        ensures
            final(self)@ == old(self)@.after_toggle(table_name@),
            no_duplicates(old(self)@.expanded),
            no_duplicates(final(self)@.expanded),
    {
        proof {
            use_type_invariant(&*self);
        }
        let ghost pre = self@;
        let found = self.expanded_position(table_name);
        let mut list: Vec<String> = Vec::new();
        std::mem::swap(&mut list, &mut self.expanded_tables);
        assert(names(list@) == pre.expanded);
        match found {
            Some(pos) => {
                proof {
                    let i = position_of(pre.expanded, table_name@);
                    assert(pre.expanded[pos as int] == table_name@);
                    assert(pre.expanded.contains(table_name@));
                    assert(i == pos as int);
                    assert(names(list@.remove(pos as int)) =~= pre.expanded.remove(pos as int));
                }
                list.remove(pos);
            },
            None => {
                let name = String::from_str(table_name);
                proof {
                    assert(names(list@.push(name)) =~= pre.expanded.push(table_name@));
                }
                list.push(name);
            },
        }
        self.expanded_tables = list;
        proof {
            use_type_invariant(&*self);
        }
    }

    /// The positions of the tables that the filter lets through, in order.
    pub fn visible_tables(&self) -> (v: Vec<usize>)
        ensures
            v@ == self@.visible(),
    {
        let n = self.tables.len();
        let mut v: Vec<usize> = Vec::new();
        let mut i: usize = 0;
        while i < n
            invariant
                n == self@.tables.len(),
                self@.tables == self.tables@,
                i <= n,
                v@ == visible_upto(self@.tables, self@.filter, i as nat),
            decreases n - i,
        {
            if contains(self.tables[i].name.as_str(), self.filter_text.as_str()) {
                v.push(i);
            }
            i = i + 1;
        }
        v
    }

    /// The element id of the row of `table_name`.
    pub fn table_element_id(table_name: &str) -> (id: String)
        ensures
            id@ == "table-"@ + table_name@,
    {
        let mut id = String::from_str("table-");
        id.append(table_name);
        id
    }

    /// The row count shown beside a table's name.
    pub fn row_count_label(row_count: u64) -> (s: String)
        ensures
            s@ == decimal(row_count as nat) + " rows"@,
    {
        let mut s = decimal_string(row_count);
        s.append(" rows");
        s
    }

    /// The arrow in front of a table's name.
    pub fn expand_arrow(is_expanded: bool) -> (t: &'static str)
        ensures
            t@ == (if is_expanded {
                "▼"@
            } else {
                "▶"@
            }),
    {
        if is_expanded {
            "▼"
        } else {
            "▶"
        }
    }
}

/// A click on a table's row flips whether its columns are shown and leaves
/// every other table as it was; no name is listed twice afterwards.
pub proof fn lemma_toggle_flips(s: SchemaState, name: Seq<char>, other: Seq<char>)
    requires
        no_duplicates(s.expanded),
    ensures
        s.after_toggle(name).expanded.contains(name) == !s.expanded.contains(name),
        other != name ==> s.after_toggle(name).expanded.contains(other) == s.expanded.contains(
            other,
        ),
        no_duplicates(s.after_toggle(name).expanded),
{
    let e = s.expanded;
    let t = s.after_toggle(name).expanded;
    if e.contains(name) {
        let p = position_of(e, name);
        assert(0 <= p < e.len() && e[p] == name);
        assert(t == e.remove(p));
        assert forall|k: int| 0 <= k < t.len() implies t[k] != name by {
            if k < p {
                assert(t[k] == e[k]);
            } else {
                assert(t[k] == e[k + 1]);
            }
        }
        if e.contains(other) && other != name {
            let q = choose|q: int| 0 <= q < e.len() && e[q] == other;
            if q < p {
                assert(t[q] == other);
            } else {
                assert(t[q - 1] == other);
            }
        }
        if t.contains(other) {
            let q = choose|q: int| 0 <= q < t.len() && t[q] == other;
            if q < p {
                assert(e[q] == other);
            } else {
                assert(e[q + 1] == other);
            }
        }
    } else {
        assert(t == e.push(name));
        assert(t[e.len() as int] == name);
        if e.contains(other) {
            let q = choose|q: int| 0 <= q < e.len() && e[q] == other;
            assert(t[q] == other);
        }
        if t.contains(other) && other != name {
            let q = choose|q: int| 0 <= q < t.len() && t[q] == other;
            assert(e[q] == other);
        }
    }
}

/// Two clicks on a table's row show the same tables as before; on a table
/// whose columns were hidden, they leave the browser exactly as it was.
pub proof fn lemma_toggle_twice(s: SchemaState, name: Seq<char>, other: Seq<char>)
    requires
        no_duplicates(s.expanded),
    ensures
        s.after_toggle(name).after_toggle(name).expanded.contains(other) == s.expanded.contains(
            other,
        ),
        !s.expanded.contains(name) ==> s.after_toggle(name).after_toggle(name) == s,
{
    lemma_toggle_flips(s, name, other);
    lemma_toggle_flips(s.after_toggle(name), name, other);
    if !s.expanded.contains(name) {
        let e = s.expanded;
        let t = e.push(name);
        assert(s.after_toggle(name).expanded == t);
        assert(t.contains(name)) by {
            assert(t[e.len() as int] == name);
        }
        let p = position_of(t, name);
        assert(0 <= p < t.len() && t[p] == name);
        if p < e.len() {
            assert(e[p] == name);
        }
        assert(p == e.len());
        assert(t.remove(p) =~= e);
    }
}

/// With an empty filter every table is listed, in order.
pub proof fn lemma_empty_filter_shows_all(s: SchemaState)
    requires
        s.filter.len() == 0,
        s.tables.len() <= usize::MAX,
    ensures
        s.visible() == Seq::new(s.tables.len(), |i: int| i as usize),
{
    lemma_empty_filter_upto(s.tables, s.filter, s.tables.len());
}

proof fn lemma_empty_filter_upto(tables: Seq<TableInfo>, filter: Seq<char>, n: nat)
    requires
        filter.len() == 0,
        n <= tables.len(),
        n <= usize::MAX,
    ensures
        visible_upto(tables, filter, n) == Seq::new(n, |i: int| i as usize),
    decreases n,
{
    if n > 0 {
        lemma_empty_filter_upto(tables, filter, (n - 1) as nat);
        let name = tables[n - 1].name@;
        assert(name.subrange(0, 0) =~= filter);
        assert(occurs_at(filter, name, 0));
        assert(visible_upto(tables, filter, n) =~= Seq::new(n, |i: int| i as usize));
    }
}

// ---------------------------------------------------------------------------
// Placeholders
// ---------------------------------------------------------------------------

/// The query history, not yet written.
pub struct QueryHistoryPanel;

impl QueryHistoryPanel {
    pub fn new() -> (p: Self)
        ensures
            p == (QueryHistoryPanel {}),
    {
        Self {  }
    }

    /// The text the panel shows.
    pub fn placeholder(&self) -> (t: &'static str)
        ensures
            t@ == "Query History - Coming soon"@,
    {
        "Query History - Coming soon"
    }
}

/// The saved snippets, not yet written.
pub struct SnippetsPanel;

impl SnippetsPanel {
    pub fn new() -> (p: Self)
        ensures
            p == (SnippetsPanel {}),
    {
        Self {  }
    }

    /// The text the panel shows.
    pub fn placeholder(&self) -> (t: &'static str)
        ensures
            t@ == "Snippets - Coming soon"@,
    {
        "Snippets - Coming soon"
    }
}

/// The tables listed are exactly those whose name holds the filter text,
/// each once, in their order.
pub proof fn lemma_visible_exactly(s: SchemaState)
    requires
        s.tables.len() <= usize::MAX,
    ensures
        forall|k: int|
            0 <= k < s.visible().len() ==> (#[trigger] s.visible()[k]) < s.tables.len()
                && occurs_in(s.filter, s.tables[s.visible()[k] as int].name@),
        forall|i: int|
            0 <= i < s.tables.len() && occurs_in(s.filter, #[trigger] s.tables[i].name@)
                ==> s.visible().contains(i as usize),
        forall|k: int, j: int|
            0 <= k < j < s.visible().len() ==> s.visible()[k] < s.visible()[j],
{
    lemma_visible_upto(s.tables, s.filter, s.tables.len());
}

proof fn lemma_visible_upto(tables: Seq<TableInfo>, filter: Seq<char>, n: nat)
    requires
        n <= tables.len(),
        n <= usize::MAX,
    ensures
        forall|k: int|
            0 <= k < visible_upto(tables, filter, n).len() ==> (#[trigger] visible_upto(
                tables,
                filter,
                n,
            )[k]) < n && occurs_in(filter, tables[visible_upto(tables, filter, n)[k] as int].name@),
        forall|i: int|
            0 <= i < n && occurs_in(filter, #[trigger] tables[i].name@) ==> visible_upto(
                tables,
                filter,
                n,
            ).contains(i as usize),
        forall|k: int, j: int|
            0 <= k < j < visible_upto(tables, filter, n).len() ==> visible_upto(tables, filter, n)[k]
                < visible_upto(tables, filter, n)[j],
    decreases n,
{
    if n > 0 {
        let m = (n - 1) as nat;
        lemma_visible_upto(tables, filter, m);
        let before = visible_upto(tables, filter, m);
        let v = visible_upto(tables, filter, n);
        if occurs_in(filter, tables[m as int].name@) {
            assert(v == before.push(m as usize));
            assert(v[before.len() as int] == m as usize);
            assert forall|i: int|
                0 <= i < n && occurs_in(filter, #[trigger] tables[i].name@) implies v.contains(
                i as usize,
            ) by {
                if i < m {
                    let k = choose|k: int| 0 <= k < before.len() && before[k] == i as usize;
                    assert(v[k] == i as usize);
                }
            }
        } else {
            assert(v == before);
        }
    }
}

} // verus!
