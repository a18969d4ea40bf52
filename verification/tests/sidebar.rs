use zedgrip::{PanelType, Sidebar};

#[test]
fn sidebar_starts_on_connections_expanded() {
    let s = Sidebar::new();
    assert_eq!(s.active_panel(), PanelType::Connections);
    assert!(!s.is_collapsed());
    assert_eq!(s.get_active_panel_title(), "Connections");
    assert_eq!(s.toggle_icon(), "◀");
}

#[test]
fn clicking_active_panel_collapses_then_expands() {
    let mut s = Sidebar::new();
    s.toggle_panel(PanelType::Connections);
    assert!(s.is_collapsed());
    assert_eq!(s.active_panel(), PanelType::Connections);
    assert!(!s.is_panel_button_active(PanelType::Connections));
    assert_eq!(s.toggle_icon(), "▶");
    s.toggle_panel(PanelType::Connections);
    assert!(!s.is_collapsed());
    assert!(s.is_panel_button_active(PanelType::Connections));
}

#[test]
fn clicking_other_panel_selects_and_expands() {
    let mut s = Sidebar::new();
    s.toggle_collapse();
    assert!(s.is_collapsed());
    s.toggle_panel(PanelType::Schema);
    assert_eq!(s.active_panel(), PanelType::Schema);
    assert!(!s.is_collapsed());
    assert_eq!(s.get_active_panel_title(), "Schema");
    assert!(s.is_panel_button_active(PanelType::Schema));
    assert!(!s.is_panel_button_active(PanelType::Connections));
}

#[test]
fn collapse_twice_restores() {
    let mut s = Sidebar::new();
    s.toggle_panel(PanelType::QueryHistory);
    s.toggle_collapse();
    s.toggle_collapse();
    assert_eq!(s.active_panel(), PanelType::QueryHistory);
    assert!(!s.is_collapsed());
    assert_eq!(s.get_active_panel_title(), "Query History");
}

#[test]
fn only_one_button_highlighted() {
    let mut s = Sidebar::new();
    s.toggle_panel(PanelType::Snippets);
    let active: Vec<PanelType> = Sidebar::footer_panels()
        .into_iter()
        .filter(|p| s.is_panel_button_active(*p))
        .collect();
    assert_eq!(active, vec![PanelType::Snippets]);
    s.toggle_collapse();
    assert!(Sidebar::footer_panels().into_iter().all(|p| !s.is_panel_button_active(p)));
}

#[test]
fn footer_buttons_in_order_with_icons_and_ids() {
    assert_eq!(
        Sidebar::footer_panels(),
        vec![PanelType::Connections, PanelType::Schema, PanelType::QueryHistory, PanelType::Snippets]
    );
    assert_eq!(Sidebar::panel_icon(PanelType::Connections), "🗄");
    assert_eq!(Sidebar::panel_icon(PanelType::Schema), "📊");
    assert_eq!(Sidebar::panel_icon(PanelType::QueryHistory), "🕐");
    assert_eq!(Sidebar::panel_icon(PanelType::Snippets), "📝");
    for p in Sidebar::footer_panels() {
        assert_eq!(Sidebar::panel_button_id(p), format!("panel-button-{:?}", p));
    }
    assert_eq!(Sidebar::panel_button_id(PanelType::QueryHistory), "panel-button-QueryHistory");
}

#[test]
fn titles_of_every_panel() {
    let mut s = Sidebar::new();
    s.toggle_panel(PanelType::Snippets);
    assert_eq!(s.get_active_panel_title(), "Snippets");
}
