//! The title bar at the top of the window.

use vstd::prelude::*;
use crate::button::WindowButton;

verus! {

/// The title bar: the application's name on the left, the window buttons
/// on the right.
pub struct Header {}

impl Header {
    /// The title bar.
    pub fn new() -> (h: Self)
        ensures
            h == (Header {}),
    {
        Header {  }
    }

    /// The title shown on the left.
    pub fn title(&self) -> (t: &'static str)
        ensures
            t@ == "ZedGrip"@,
    {
        "ZedGrip"
    }

    /// The window buttons, from left to right.
    pub fn window_buttons(&self) -> (v: Vec<WindowButton>)
        ensures
            v@ == seq![WindowButton::Minimize, WindowButton::Maximize, WindowButton::Close],
    {
        vec![WindowButton::Minimize, WindowButton::Maximize, WindowButton::Close]
    }
}

} // verus!
