use zedgrip::{query_results_for, QueryPanel};

const USERS: &str = "id | name | email\n---|---|---\n1  | Alice | alice@example.com\n2  | Bob | bob@example.com";
const ORDERS: &str = "id | user_id | total\n---|---|---\n101| 1 | 15.99\n102| 2 | 29.50";

#[test]
fn query_panel_starts_idle_with_sample_query() {
    let p = QueryPanel::new();
    assert_eq!(p.query_text(), "SELECT * FROM users;");
    assert_eq!(p.query_results(), "");
    assert!(!p.is_loading());
    assert_eq!(p.execute_button_label(), "▶ Execute Query");
}

#[test]
fn run_of_sample_query_shows_users() {
    let mut p = QueryPanel::new();
    let e = p.execute_query();
    assert_eq!(e.0, "SELECT * FROM users;");
    assert!(p.is_loading());
    assert_eq!(p.query_results(), "Executing query...");
    assert_eq!(p.execute_button_label(), "⏳ Executing...");
    p.finish_query();
    assert!(!p.is_loading());
    assert_eq!(p.query_results(), USERS);
    assert_eq!(p.query_text(), "SELECT * FROM users;");
}

#[test]
fn uppercase_orders_query_is_recognised() {
    let mut p = QueryPanel::new();
    p.set_query_text("SELECT * FROM ORDERS WHERE total > 10".to_string());
    p.execute_query();
    p.finish_query();
    assert_eq!(p.query_results(), ORDERS);
}

#[test]
fn other_query_is_echoed() {
    let mut p = QueryPanel::new();
    p.set_query_text("DELETE FROM users".to_string());
    let e = p.execute_query();
    assert_eq!(e.0, "DELETE FROM users");
    p.finish_query();
    assert_eq!(p.query_results(), "Query executed:\nDELETE FROM users");
}

#[test]
fn edit_keeps_run_state() {
    let mut p = QueryPanel::new();
    p.execute_query();
    p.set_query_text("select 1".to_string());
    assert!(p.is_loading());
    assert_eq!(p.query_results(), "Executing query...");
    assert_eq!(p.query_text(), "select 1");
}

#[test]
fn results_for_given_lowercase_text() {
    assert_eq!(query_results_for("select * from users;", "SELECT * FROM users;"), USERS);
    assert_eq!(query_results_for("select * from orders", "x"), ORDERS);
    assert_eq!(query_results_for("select * from user", "select * from user"), "Query executed:\nselect * from user");
    assert_eq!(query_results_for(" select * from users", "q"), "Query executed:\nq");
    assert_eq!(query_results_for("", ""), "Query executed:\n");
}
