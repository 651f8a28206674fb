//! Caption colors as the plugin's users give them.

use vstd::prelude::*;

verus! {

/// Caption-button color tokens for one theme.
///
/// All values are CSS color strings (`#rrggbb`, `#rrggbbaa`, `transparent`,
/// ...). Any omitted token falls back to the built-in default for that theme.
/// The close-button red, the white symbol on red, the symbol of an inactive
/// window and the disabled symbol are fixed or derived, and not part of this
/// set.
#[derive(Debug, Clone)]
pub struct TitleBarColors {
    /// Caption button background at rest.
    pub default: Option<String>,
    /// Caption glyph color.
    pub symbol: Option<String>,
    /// Caption button background on hover.
    pub hover: Option<String>,
    /// Caption button background while pressed.
    pub pressed: Option<String>,
    /// Caption button background while the window is inactive.
    pub inactive: Option<String>,
}

/// The tokens of a color set, each as the characters of its value.
pub struct TitleBarColorsView {
    pub default: Option<Seq<char>>,
    pub symbol: Option<Seq<char>>,
    pub hover: Option<Seq<char>>,
    pub pressed: Option<Seq<char>>,
    pub inactive: Option<Seq<char>>,
}

/// A token as the characters of its value.
pub open spec fn token_view(token: Option<String>) -> Option<Seq<char>> {
    match token {
        Some(v) => Some(v@),
        None => None,
    }
}

impl View for TitleBarColors {
    type V = TitleBarColorsView;

    open spec fn view(&self) -> TitleBarColorsView {
        TitleBarColorsView {
            default: token_view(self.default),
            symbol: token_view(self.symbol),
            hover: token_view(self.hover),
            pressed: token_view(self.pressed),
            inactive: token_view(self.inactive),
        }
    }
}

impl Default for TitleBarColors {
    /// A color set that overrides nothing.
    fn default() -> (c: Self)
        ensures
            c.default is None,
            c.symbol is None,
            c.hover is None,
            c.pressed is None,
            c.inactive is None,
    {
        TitleBarColors { default: None, symbol: None, hover: None, pressed: None, inactive: None }
    }
}

} // verus!
