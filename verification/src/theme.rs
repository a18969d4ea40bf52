use vstd::prelude::*;

verus! {

/// The colour palette of the application, each colour a `0xRRGGBB` value.
#[derive(Clone, Copy, Debug, PartialEq, Eq)]
pub struct Theme {
    pub background: u32,
    pub surface: u32,
    pub border: u32,
    pub text: u32,
    pub text_muted: u32,
    pub accent: u32,
    pub editor_bg: u32,
}

impl Theme {
    /// The dark theme.
    pub fn dark() -> (t: Self)
        ensures
            t.background == 0x1e1e1e,
            t.surface == 0x252526,
            t.border == 0x3e3e3e,
            t.text == 0xcccccc,
            t.text_muted == 0x858585,
            t.accent == 0x007acc,
            t.editor_bg == 0x1e1e1e,
    {
        Theme {
            background: 0x1e1e1e,
            surface: 0x252526,
            border: 0x3e3e3e,
            text: 0xcccccc,
            text_muted: 0x858585,
            accent: 0x007acc,
            editor_bg: 0x1e1e1e,
        }
    }
}

} // verus!
