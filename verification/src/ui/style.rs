//! Colors and text styles of the screen.

use vstd::prelude::*;

verus! {

/// The colors the dashboard draws with.
#[derive(Clone, Copy, Debug, PartialEq, Eq, Structural)]
pub enum Color {
    Cyan,
    Gray,
    DarkGray,
    White,
    Green,
    Red,
    Yellow,
}

/// How a piece of text is drawn. A color that is `None` is left to the
/// terminal.
#[derive(Clone, Copy, Debug, PartialEq, Eq, Structural)]
pub struct Style {
    pub fg: Option<Color>,
    pub bg: Option<Color>,
    pub bold: bool,
}

impl Style {
    /// The terminal's own style.
    pub open spec fn spec_plain() -> Style {
        Style { fg: None, bg: None, bold: false }
    }

    /// Text in the color `fg`.
    pub open spec fn spec_colored(fg: Color) -> Style {
        Style { fg: Some(fg), bg: None, bold: false }
    }

    /// Bold text in the color `fg`.
    pub open spec fn spec_strong(fg: Color) -> Style {
        Style { fg: Some(fg), bg: None, bold: true }
    }

    /// Bold text on the background `bg`.
    pub open spec fn spec_highlight(bg: Color) -> Style {
        Style { fg: None, bg: Some(bg), bold: true }
    }

    #[verifier::when_used_as_spec(spec_plain)]
    pub fn plain() -> (s: Style)
        ensures
            s == Style::spec_plain(),
    {
        Style { fg: None, bg: None, bold: false }
    }

    #[verifier::when_used_as_spec(spec_colored)]
    pub fn colored(fg: Color) -> (s: Style)
        ensures
            s == Style::spec_colored(fg),
    {
        Style { fg: Some(fg), bg: None, bold: false }
    }

    #[verifier::when_used_as_spec(spec_strong)]
    pub fn strong(fg: Color) -> (s: Style)
        ensures
            s == Style::spec_strong(fg),
    {
        Style { fg: Some(fg), bg: None, bold: true }
    }

    #[verifier::when_used_as_spec(spec_highlight)]
    pub fn highlight(bg: Color) -> (s: Style)
        ensures
            s == Style::spec_highlight(bg),
    {
        Style { fg: None, bg: Some(bg), bold: true }
    }
}

} // verus!
