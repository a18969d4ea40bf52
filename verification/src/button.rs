//! Themed buttons and the window's title-bar buttons.

use vstd::prelude::*;
use crate::theme::Theme;

verus! {

/// The look of a themed button.
#[derive(Clone, Copy, PartialEq, Eq, Structural, Debug)]
pub enum ButtonVariant {
    Primary,
    Secondary,
    Default,
}

/// A colour as the renderer is to paint it.
#[derive(Clone, Copy, PartialEq, Eq, Structural, Debug)]
pub enum ColorSpec {
    /// The `0xRRGGBB` colour, opaque.
    Solid(u32),
    /// The `0xRRGGBB` colour with each channel scaled by `percent / 100`,
    /// capped at full intensity, alpha kept.
    Brightened { base: u32, percent: u32 },
    /// Fully transparent black.
    Transparent,
}

/// The colours of a themed button.
#[derive(Clone, Copy, PartialEq, Eq, Structural, Debug)]
pub struct ButtonColors {
    pub bg: ColorSpec,
    pub bg_hover: ColorSpec,
    pub text: ColorSpec,
}

/// The colours of a button of `variant` under `theme`.
pub open spec fn variant_colors(variant: ButtonVariant, theme: Theme) -> ButtonColors {
    match variant {
        ButtonVariant::Primary => ButtonColors {
            bg: ColorSpec::Solid(theme.accent),
            bg_hover: ColorSpec::Brightened { base: theme.accent, percent: 120 },
            text: ColorSpec::Solid(0xffffff),
        },
        ButtonVariant::Secondary => ButtonColors {
            bg: ColorSpec::Solid(theme.surface),
            bg_hover: ColorSpec::Brightened { base: theme.surface, percent: 130 },
            text: ColorSpec::Solid(theme.text),
        },
        ButtonVariant::Default => ButtonColors {
            bg: ColorSpec::Transparent,
            bg_hover: ColorSpec::Solid(theme.surface),
            text: ColorSpec::Solid(theme.text),
        },
    }
}

/// What a themed button is made of.
pub struct ButtonState {
    pub text: Seq<char>,
    pub variant: ButtonVariant,
    pub theme: Theme,
}

/// A labelled button drawn in the colours of a theme.
pub struct Button {
    text: String,
    variant: ButtonVariant,
    theme: Theme,
}

impl View for Button {
    type V = ButtonState;

    closed spec fn view(&self) -> ButtonState {
        ButtonState { text: self.text@, variant: self.variant, theme: self.theme }
    }
}

impl Button {
    /// A button labelled `text`.
    pub fn new(text: String, variant: ButtonVariant, theme: Theme) -> (b: Self)
        ensures
            b@ == (ButtonState { text: text@, variant, theme }),
    {
        Button { text, variant, theme }
    }

    /// A primary button labelled `text`.
    pub fn primary(text: String, theme: Theme) -> (b: Self)
        ensures
            b@ == (ButtonState { text: text@, variant: ButtonVariant::Primary, theme }),
    {
        Self::new(text, ButtonVariant::Primary, theme)
    }

    /// A secondary button labelled `text`.
    pub fn secondary(text: String, theme: Theme) -> (b: Self)
        ensures
            b@ == (ButtonState { text: text@, variant: ButtonVariant::Secondary, theme }),
    {
        Self::new(text, ButtonVariant::Secondary, theme)
    }

    /// A plain button labelled `text`.
    pub fn default(text: String, theme: Theme) -> (b: Self)
        ensures
            b@ == (ButtonState { text: text@, variant: ButtonVariant::Default, theme }),
    {
        Self::new(text, ButtonVariant::Default, theme)
    }

    /// The label.
    pub fn text(&self) -> (t: &str)
        ensures
            t@ == self@.text,
    {
        self.text.as_str()
    }

    /// The colours of the button, at rest and under the pointer.
    pub fn colors(&self) -> (c: ButtonColors)
        ensures
            c == variant_colors(self@.variant, self@.theme),
    {
        match self.variant {
            ButtonVariant::Primary => ButtonColors {
                bg: ColorSpec::Solid(self.theme.accent),
                bg_hover: ColorSpec::Brightened { base: self.theme.accent, percent: 120 },
                text: ColorSpec::Solid(0xffffff),
            },
            ButtonVariant::Secondary => ButtonColors {
                bg: ColorSpec::Solid(self.theme.surface),
                bg_hover: ColorSpec::Brightened { base: self.theme.surface, percent: 130 },
                text: ColorSpec::Solid(self.theme.text),
            },
            ButtonVariant::Default => ButtonColors {
                bg: ColorSpec::Transparent,
                bg_hover: ColorSpec::Solid(self.theme.surface),
                text: ColorSpec::Solid(self.theme.text),
            },
        }
    }

    /// The horizontal and vertical padding, in pixels; the same for every
    /// variant.
    pub fn padding(&self) -> (p: (u32, u32))
        ensures
            p == (16u32, 8u32),
    {
        (16, 8)
    }
}

/// The area of the window that a title-bar button stands for, as the
/// windowing system sees it.
#[derive(Clone, Copy, PartialEq, Eq, Structural, Debug)]
pub enum WindowControl {
    Close,
    Min,
    Max,
}

/// What a click on a title-bar button does.
#[derive(Clone, Copy, PartialEq, Eq, Structural, Debug)]
pub enum WindowAction {
    /// Quit the application.
    Quit,
    /// Minimize the window.
    Minimize,
    /// Zoom (maximize or restore) the window.
    Zoom,
}

/// A button of the window's title bar.
#[derive(Clone, Copy, PartialEq, Eq, Structural, Debug)]
pub enum WindowButton {
    Close,
    Minimize,
    Maximize,
}

impl WindowButton {
    /// The element id of the button.
    pub fn id(&self) -> (t: &'static str)
        ensures
            t@ == (match *self {
                WindowButton::Close => "close"@,
                WindowButton::Minimize => "minimize"@,
                WindowButton::Maximize => "maximize"@,
            }),
    {
        match self {
            WindowButton::Close => "close",
            WindowButton::Minimize => "minimize",
            WindowButton::Maximize => "maximize",
        }
    }

    /// The glyph on the button.
    pub fn glyph(&self) -> (t: &'static str)
        ensures
            t@ == (match *self {
                WindowButton::Close => "×"@,
                WindowButton::Minimize => "−"@,
                WindowButton::Maximize => "□"@,
            }),
    {
        match self {
            WindowButton::Close => "×",
            WindowButton::Minimize => "−",
            WindowButton::Maximize => "□",
        }
    }

    /// The window-control area that the button stands for.
    pub fn control_area(&self) -> (a: WindowControl)
        ensures
            a == (match *self {
                WindowButton::Close => WindowControl::Close,
                WindowButton::Minimize => WindowControl::Min,
                WindowButton::Maximize => WindowControl::Max,
            }),
    {
        match self {
            WindowButton::Close => WindowControl::Close,
            WindowButton::Minimize => WindowControl::Min,
            WindowButton::Maximize => WindowControl::Max,
        }
    }

    /// What a click on the button does.
    pub fn click_action(&self) -> (a: WindowAction)
        ensures
            a == (match *self {
                WindowButton::Close => WindowAction::Quit,
                WindowButton::Minimize => WindowAction::Minimize,
                WindowButton::Maximize => WindowAction::Zoom,
            }),
    {
        match self {
            WindowButton::Close => WindowAction::Quit,
            WindowButton::Minimize => WindowAction::Minimize,
            WindowButton::Maximize => WindowAction::Zoom,
        }
    }
}

/// Under every theme: primary buttons sit on the accent colour with white
/// text and brighten it by a fifth under the pointer; secondary buttons sit
/// on the surface colour with the theme's text colour and brighten it by
/// three tenths; plain buttons are transparent, take the surface colour
/// under the pointer, and use the theme's text colour.
pub proof fn lemma_colors_follow_theme(t: Theme)
    ensures
        variant_colors(ButtonVariant::Primary, t).bg == ColorSpec::Solid(t.accent),
        variant_colors(ButtonVariant::Primary, t).bg_hover == (ColorSpec::Brightened {
            base: t.accent,
            percent: 120,
        }),
        variant_colors(ButtonVariant::Primary, t).text == ColorSpec::Solid(0xffffff),
        variant_colors(ButtonVariant::Secondary, t).bg == ColorSpec::Solid(t.surface),
        variant_colors(ButtonVariant::Secondary, t).bg_hover == (ColorSpec::Brightened {
            base: t.surface,
            percent: 130,
        }),
        variant_colors(ButtonVariant::Secondary, t).text == ColorSpec::Solid(t.text),
        variant_colors(ButtonVariant::Default, t).bg == ColorSpec::Transparent,
        variant_colors(ButtonVariant::Default, t).bg_hover == ColorSpec::Solid(t.surface),
        variant_colors(ButtonVariant::Default, t).text == ColorSpec::Solid(t.text),
{
}

} // verus!
