//! The sidebar: which panel is shown, whether the sidebar is collapsed, and
//! what its header and footer display.

use vstd::prelude::*;

verus! {

/// The panels that the sidebar can show.
#[derive(Clone, Copy, PartialEq, Eq, Structural, Hash, Debug)]
pub enum PanelType {
    Connections,
    Schema,
    QueryHistory,
    Snippets,
}

/// A panel that the sidebar can hold.
pub trait AnyPanel {}

impl AnyPanel for crate::panels::ConnectionsPanel {}

impl AnyPanel for crate::panels::SchemaPanel {}

impl AnyPanel for crate::panels::QueryHistoryPanel {}

impl AnyPanel for crate::panels::SnippetsPanel {}

/// The title shown above a panel.
pub open spec fn panel_title(p: PanelType) -> Seq<char> {
    match p {
        PanelType::Connections => "Connections"@,
        PanelType::Schema => "Schema"@,
        PanelType::QueryHistory => "Query History"@,
        PanelType::Snippets => "Snippets"@,
    }
}

/// The name of a panel type as its `Debug` form writes it.
pub open spec fn panel_debug_name(p: PanelType) -> Seq<char> {
    match p {
        PanelType::Connections => "Connections"@,
        PanelType::Schema => "Schema"@,
        PanelType::QueryHistory => "QueryHistory"@,
        PanelType::Snippets => "Snippets"@,
    }
}

/// The icon on a panel's footer button.
pub open spec fn panel_icon_text(p: PanelType) -> Seq<char> {
    match p {
        PanelType::Connections => "🗄"@,
        PanelType::Schema => "📊"@,
        PanelType::QueryHistory => "🕐"@,
        PanelType::Snippets => "📝"@,
    }
}

/// What the sidebar's behaviour depends on.
pub struct SidebarState {
    pub active_panel: PanelType,
    pub is_collapsed: bool,
}

impl SidebarState {
    /// A click on the footer button of `p`: the button of the panel on show
    /// collapses the sidebar; any other click shows `p` and expands it.
    pub open spec fn after_toggle_panel(self, p: PanelType) -> SidebarState {
        if self.active_panel == p && !self.is_collapsed {
            SidebarState { active_panel: p, is_collapsed: true }
        } else {
            SidebarState { active_panel: p, is_collapsed: false }
        }
    }

    /// A click on the collapse or expand arrow.
    pub open spec fn after_toggle_collapse(self) -> SidebarState {
        SidebarState { active_panel: self.active_panel, is_collapsed: !self.is_collapsed }
    }

    /// The footer button of `p` is highlighted.
    pub open spec fn button_active(self, p: PanelType) -> bool {
        self.active_panel == p && !self.is_collapsed
    }
}

/// The sidebar of the main window.
pub struct Sidebar {
    active_panel: PanelType,
    is_collapsed: bool,
}

impl View for Sidebar {
    type V = SidebarState;

    closed spec fn view(&self) -> SidebarState {
        SidebarState { active_panel: self.active_panel, is_collapsed: self.is_collapsed }
    }
}

impl Sidebar {
    /// A sidebar that shows the connections panel, expanded.
    pub fn new() -> (s: Self)
        ensures
            s@ == (SidebarState { active_panel: PanelType::Connections, is_collapsed: false }),
    {
        Sidebar { active_panel: PanelType::Connections, is_collapsed: false }
    }

    /// The panel that the sidebar shows.
    pub fn active_panel(&self) -> (p: PanelType)
        ensures
            p == self@.active_panel,
    {
        self.active_panel
    }

    /// Whether the sidebar is collapsed to its narrow strip.
    pub fn is_collapsed(&self) -> (b: bool)
        ensures
            b == self@.is_collapsed,
    {
        self.is_collapsed
    }

    /// Handles a click on the footer button of `panel_type`.
    pub fn toggle_panel(&mut self, panel_type: PanelType)
        ensures
            final(self)@ == old(self)@.after_toggle_panel(panel_type),
    {
        if self.active_panel == panel_type && !self.is_collapsed {
            self.is_collapsed = true;
        } else {
            self.active_panel = panel_type;
            self.is_collapsed = false;
        }
    }

    /// Handles a click on the collapse or expand arrow.
    pub fn toggle_collapse(&mut self)
        ensures
            final(self)@ == old(self)@.after_toggle_collapse(),
    {
        self.is_collapsed = !self.is_collapsed;
    }

    /// The title of the panel on show.
    pub fn get_active_panel_title(&self) -> (t: &'static str)
        ensures
            t@ == panel_title(self@.active_panel),
    {
        match self.active_panel {
            PanelType::Connections => "Connections",
            PanelType::Schema => "Schema",
            PanelType::QueryHistory => "Query History",
            PanelType::Snippets => "Snippets",
        }
    }

    /// Whether the footer button of `panel_type` is highlighted.
    pub fn is_panel_button_active(&self, panel_type: PanelType) -> (b: bool)
        ensures
            b == self@.button_active(panel_type),
    {
        self.active_panel == panel_type && !self.is_collapsed
    }

    /// The arrow that collapses or expands the sidebar.
    pub fn toggle_icon(&self) -> (t: &'static str)
        ensures
            t@ == (if self@.is_collapsed {
                "▶"@
            } else {
                "◀"@
            }),
    {
        if self.is_collapsed {
            "▶"
        } else {
            "◀"
        }
    }

    /// The panels of the footer buttons, from left to right.
    pub fn footer_panels() -> (v: Vec<PanelType>)
        ensures
            v@ == seq![
                PanelType::Connections,
                PanelType::Schema,
                PanelType::QueryHistory,
                PanelType::Snippets,
            ],
    {
        vec![PanelType::Connections, PanelType::Schema, PanelType::QueryHistory, PanelType::Snippets]
    }

    /// The icon on the footer button of `panel_type`.
    pub fn panel_icon(panel_type: PanelType) -> (t: &'static str)
        ensures
            t@ == panel_icon_text(panel_type),
    {
        match panel_type {
            PanelType::Connections => "🗄",
            PanelType::Schema => "📊",
            PanelType::QueryHistory => "🕐",
            PanelType::Snippets => "📝",
        }
    }

    /// The element id of the footer button of `panel_type`.
    pub fn panel_button_id(panel_type: PanelType) -> (id: String)
        ensures
            id@ == "panel-button-"@ + panel_debug_name(panel_type),
    {
        let mut id = String::from_str("panel-button-");
        let name = match panel_type {
            PanelType::Connections => "Connections",
            PanelType::Schema => "Schema",
            PanelType::QueryHistory => "QueryHistory",
            PanelType::Snippets => "Snippets",
        };
        id.append(name);
        id
    }
}

/// Collapsing twice leaves the sidebar as it was.
pub proof fn lemma_toggle_collapse_twice(s: SidebarState)
    ensures
        s.after_toggle_collapse().after_toggle_collapse() == s,
{
}

/// A click on a footer button always leaves its panel selected, and flips
/// whether that button is highlighted.
pub proof fn lemma_toggle_panel_selects(s: SidebarState, p: PanelType)
    ensures
        s.after_toggle_panel(p).active_panel == p,
        s.after_toggle_panel(p).button_active(p) == !s.button_active(p),
{
}

/// Two clicks on the button of the panel already selected leave the
/// sidebar as it was.
pub proof fn lemma_toggle_panel_twice(s: SidebarState, p: PanelType)
    requires
        s.active_panel == p,
    ensures
        s.after_toggle_panel(p).after_toggle_panel(p) == s,
{
}

/// At most one footer button is highlighted: the selected panel's, and
/// only while the sidebar is expanded.
pub proof fn lemma_one_active_button(s: SidebarState, p: PanelType, q: PanelType)
    ensures
        s.button_active(p) && s.button_active(q) ==> p == q,
        s.button_active(s.active_panel) == !s.is_collapsed,
        s.is_collapsed ==> !s.button_active(p),
{
}

/// The arrow flips whether the sidebar is collapsed, whichever panel is
/// shown, and keeps that panel; a footer click selects its panel and
/// collapses the sidebar exactly when that panel was shown expanded.
pub proof fn lemma_clicks_by_field(s: SidebarState, p: PanelType)
    ensures
        s.after_toggle_collapse().is_collapsed == !s.is_collapsed,
        s.after_toggle_collapse().active_panel == s.active_panel,
        s.after_toggle_panel(p).active_panel == p,
        s.after_toggle_panel(p).is_collapsed == (s.active_panel == p && !s.is_collapsed),
{
}

} // verus!
