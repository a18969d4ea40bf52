//! The state, layout decisions and text of the ZedGrip database client's
//! user interface, with their contracts proved.

mod button;
mod header;
mod panels;
mod query_panel;
mod sidebar;
mod text;
mod theme;
mod window;

pub use button::{Button, ButtonColors, ButtonVariant, ColorSpec, WindowAction, WindowButton, WindowControl};
pub use header::Header;
pub use panels::{
    ColumnInfo, ConnectionsPanel, DatabaseConnection, QueryHistoryPanel, SchemaPanel, SnippetsPanel,
    TableInfo,
};
pub use query_panel::{query_results_for, QueryExecuted, QueryPanel};
pub use sidebar::{AnyPanel, PanelType, Sidebar};
pub use theme::Theme;
pub use window::{cursor_style, resize_edge, BorderHits, CursorStyle, ResizeEdge};
