use zedgrip::{
    cursor_style, resize_edge, BorderHits, Button, ButtonVariant, ColorSpec, CursorStyle, Header, ResizeEdge,
    Theme, WindowAction, WindowButton, WindowControl,
};

fn hits(top: bool, bottom: bool, left: bool, right: bool) -> BorderHits {
    BorderHits { top, bottom, left, right }
}

#[test]
fn resize_edges_and_corners() {
    assert_eq!(resize_edge(hits(false, false, false, false)), None);
    assert_eq!(resize_edge(hits(true, false, false, false)), Some(ResizeEdge::Top));
    assert_eq!(resize_edge(hits(false, true, false, false)), Some(ResizeEdge::Bottom));
    assert_eq!(resize_edge(hits(false, false, true, false)), Some(ResizeEdge::Left));
    assert_eq!(resize_edge(hits(false, false, false, true)), Some(ResizeEdge::Right));
    assert_eq!(resize_edge(hits(true, false, true, false)), Some(ResizeEdge::TopLeft));
    assert_eq!(resize_edge(hits(true, false, false, true)), Some(ResizeEdge::TopRight));
    assert_eq!(resize_edge(hits(false, true, true, false)), Some(ResizeEdge::BottomLeft));
    assert_eq!(resize_edge(hits(false, true, false, true)), Some(ResizeEdge::BottomRight));
}

#[test]
fn resize_edge_priorities_on_tiny_window() {
    assert_eq!(resize_edge(hits(true, true, true, true)), Some(ResizeEdge::TopLeft));
    assert_eq!(resize_edge(hits(true, true, false, false)), Some(ResizeEdge::Top));
    assert_eq!(resize_edge(hits(false, false, true, true)), Some(ResizeEdge::Left));
    assert_eq!(resize_edge(hits(false, true, true, true)), Some(ResizeEdge::BottomLeft));
}

#[test]
fn cursor_for_each_edge() {
    assert_eq!(cursor_style(ResizeEdge::Top), CursorStyle::ResizeUpDown);
    assert_eq!(cursor_style(ResizeEdge::Bottom), CursorStyle::ResizeUpDown);
    assert_eq!(cursor_style(ResizeEdge::Left), CursorStyle::ResizeLeftRight);
    assert_eq!(cursor_style(ResizeEdge::Right), CursorStyle::ResizeLeftRight);
    assert_eq!(cursor_style(ResizeEdge::TopLeft), CursorStyle::ResizeUpLeftDownRight);
    assert_eq!(cursor_style(ResizeEdge::BottomRight), CursorStyle::ResizeUpLeftDownRight);
    assert_eq!(cursor_style(ResizeEdge::TopRight), CursorStyle::ResizeUpRightDownLeft);
    assert_eq!(cursor_style(ResizeEdge::BottomLeft), CursorStyle::ResizeUpRightDownLeft);
}

#[test]
fn window_buttons() {
    let h = Header::new();
    assert_eq!(h.title(), "ZedGrip");
    assert_eq!(h.window_buttons(), vec![WindowButton::Minimize, WindowButton::Maximize, WindowButton::Close]);
    assert_eq!(WindowButton::Close.id(), "close");
    assert_eq!(WindowButton::Minimize.id(), "minimize");
    assert_eq!(WindowButton::Maximize.id(), "maximize");
    assert_eq!(WindowButton::Close.glyph(), "×");
    assert_eq!(WindowButton::Minimize.glyph(), "−");
    assert_eq!(WindowButton::Maximize.glyph(), "□");
    assert_eq!(WindowButton::Close.control_area(), WindowControl::Close);
    assert_eq!(WindowButton::Minimize.control_area(), WindowControl::Min);
    assert_eq!(WindowButton::Maximize.control_area(), WindowControl::Max);
    assert_eq!(WindowButton::Close.click_action(), WindowAction::Quit);
    assert_eq!(WindowButton::Minimize.click_action(), WindowAction::Minimize);
    assert_eq!(WindowButton::Maximize.click_action(), WindowAction::Zoom);
}

#[test]
fn dark_theme_colours() {
    let t = Theme::dark();
    assert_eq!(t.background, 0x1e1e1e);
    assert_eq!(t.surface, 0x252526);
    assert_eq!(t.border, 0x3e3e3e);
    assert_eq!(t.text, 0xcccccc);
    assert_eq!(t.text_muted, 0x858585);
    assert_eq!(t.accent, 0x007acc);
    assert_eq!(t.editor_bg, 0x1e1e1e);
}

#[test]
fn button_colours_per_variant() {
    let t = Theme::dark();
    let p = Button::primary("Run".to_string(), t).colors();
    assert_eq!(p.bg, ColorSpec::Solid(0x007acc));
    assert_eq!(p.bg_hover, ColorSpec::Brightened { base: 0x007acc, percent: 120 });
    assert_eq!(p.text, ColorSpec::Solid(0xffffff));
    let s = Button::secondary("Cancel".to_string(), t).colors();
    assert_eq!(s.bg, ColorSpec::Solid(0x252526));
    assert_eq!(s.bg_hover, ColorSpec::Brightened { base: 0x252526, percent: 130 });
    assert_eq!(s.text, ColorSpec::Solid(0xcccccc));
    let d = Button::default("More".to_string(), t);
    assert_eq!(d.text(), "More");
    let d = d.colors();
    assert_eq!(d.bg, ColorSpec::Transparent);
    assert_eq!(d.bg_hover, ColorSpec::Solid(0x252526));
    assert_eq!(d.text, ColorSpec::Solid(0xcccccc));
    let n = Button::new("Go".to_string(), ButtonVariant::Primary, t);
    assert_eq!(n.text(), "Go");
    assert_eq!(n.padding(), (16, 8));
}
