use zedgrip::{ConnectionsPanel, QueryHistoryPanel, SchemaPanel, SnippetsPanel};

#[test]
fn connections_sample_data() {
    let p = ConnectionsPanel::new();
    let c = p.connections();
    assert_eq!(c.len(), 2);
    assert_eq!(c[0].name, "Production DB");
    assert_eq!(c[0].db_type, "PostgreSQL");
    assert_eq!(c[0].host, "prod.example.com");
    assert!(c[0].is_connected);
    assert_eq!(c[1].name, "Development");
    assert_eq!(c[1].db_type, "MySQL");
    assert_eq!(c[1].host, "localhost:3306");
    assert!(!c[1].is_connected);
}

#[test]
fn connection_rendering_text() {
    let p = ConnectionsPanel::new();
    let c = p.connections();
    assert_eq!(ConnectionsPanel::connection_subtitle(&c[0]), "PostgreSQL • prod.example.com");
    assert_eq!(ConnectionsPanel::connection_subtitle(&c[1]), "MySQL • localhost:3306");
    assert_eq!(ConnectionsPanel::indicator_color(&c[0]), 0x4ec9b0);
    assert_eq!(ConnectionsPanel::indicator_color(&c[1]), 0x858585);
}

#[test]
fn connection_ids_are_decimal() {
    assert_eq!(ConnectionsPanel::connection_element_id(0), "connection-0");
    assert_eq!(ConnectionsPanel::connection_element_id(7), "connection-7");
    assert_eq!(ConnectionsPanel::connection_element_id(10), "connection-10");
    assert_eq!(ConnectionsPanel::connection_element_id(1203), "connection-1203");
    assert_eq!(
        ConnectionsPanel::connection_element_id(usize::MAX),
        format!("connection-{}", usize::MAX)
    );
}

#[test]
fn schema_sample_data() {
    let p = SchemaPanel::new();
    let t = p.tables();
    assert_eq!(t.len(), 2);
    assert_eq!(t[0].name, "users");
    assert_eq!(t[0].row_count, 15234);
    let cols: Vec<(&str, &str, bool)> =
        t[0].columns.iter().map(|c| (c.name.as_str(), c.data_type.as_str(), c.is_nullable)).collect();
    assert_eq!(
        cols,
        vec![("id", "INTEGER", false), ("name", "VARCHAR(255)", false), ("email", "VARCHAR(255)", true)]
    );
    assert_eq!(t[1].name, "orders");
    assert_eq!(t[1].row_count, 89123);
    let cols: Vec<(&str, &str, bool)> =
        t[1].columns.iter().map(|c| (c.name.as_str(), c.data_type.as_str(), c.is_nullable)).collect();
    assert_eq!(
        cols,
        vec![("id", "INTEGER", false), ("user_id", "INTEGER", false), ("total", "DECIMAL(10,2)", false)]
    );
    assert!(!p.is_expanded("users"));
    assert!(!p.is_expanded("orders"));
}

#[test]
fn toggle_table_flips_only_that_table() {
    let mut p = SchemaPanel::new();
    p.toggle_table("users");
    assert!(p.is_expanded("users"));
    assert!(!p.is_expanded("orders"));
    p.toggle_table("orders");
    assert!(p.is_expanded("users"));
    assert!(p.is_expanded("orders"));
    p.toggle_table("users");
    assert!(!p.is_expanded("users"));
    assert!(p.is_expanded("orders"));
}

#[test]
fn toggle_table_twice_restores() {
    let mut p = SchemaPanel::new();
    p.toggle_table("orders");
    p.toggle_table("orders");
    assert!(!p.is_expanded("orders"));
    assert!(!p.is_expanded("users"));
}

#[test]
fn toggle_unknown_and_prefix_names() {
    let mut p = SchemaPanel::new();
    p.toggle_table("user");
    assert!(p.is_expanded("user"));
    assert!(!p.is_expanded("users"));
    assert!(!p.is_expanded("use"));
    p.toggle_table("");
    assert!(p.is_expanded(""));
}

#[test]
fn all_tables_visible_with_empty_filter() {
    let p = SchemaPanel::new();
    assert_eq!(p.visible_tables(), vec![0, 1]);
}

#[test]
fn table_rendering_text() {
    assert_eq!(SchemaPanel::table_element_id("users"), "table-users");
    assert_eq!(SchemaPanel::row_count_label(15234), "15234 rows");
    assert_eq!(SchemaPanel::row_count_label(89123), "89123 rows");
    assert_eq!(SchemaPanel::row_count_label(0), "0 rows");
    assert_eq!(SchemaPanel::row_count_label(u64::MAX), "18446744073709551615 rows");
    assert_eq!(SchemaPanel::expand_arrow(true), "▼");
    assert_eq!(SchemaPanel::expand_arrow(false), "▶");
}

#[test]
fn placeholder_panels() {
    assert_eq!(QueryHistoryPanel::new().placeholder(), "Query History - Coming soon");
    assert_eq!(SnippetsPanel::new().placeholder(), "Snippets - Coming soon");
}
