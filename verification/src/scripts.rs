//! The scripts that configure the injected caption runtime, and what enabling
//! the title bar overlay asks of a window.
//!
//! The configuration scripts only assign globals, which the runtime reads
//! once the page is ready, so the setters may be called in any order.

use vstd::prelude::*;
use vstd::string::*;

use crate::digits::{append_decimal, decimal};
use crate::models::{TitleBarColors, TitleBarColorsView};

verus! {

broadcast use vstd::seq_lib::group_seq_properties, vstd::multiset::group_multiset_axioms;

/// The script that sets the title bar height global, in logical pixels.
pub open spec fn height_script_text(height: u32) -> Seq<char> {
    "window.__TBO_HEIGHT__="@ + decimal(height as nat) + ";"@
}

/// Writes the script that sets the title bar height global.
pub fn height_script(height: u32) -> (script: String)
    ensures
        script@ == height_script_text(height),
{
    let mut script = String::from_str("window.__TBO_HEIGHT__=");
    append_decimal(&mut script, height as u64);
    script.append(";");
    script
}

/// The JSON text of a color set, or an empty object where it could not be
/// written.
pub open spec fn colors_json(json: Option<Seq<char>>) -> Seq<char> {
    match json {
        Some(text) => text,
        None => "{}"@,
    }
}

/// The script that sets the per-theme color override global, from the JSON
/// texts of the light and dark color sets.
pub open spec fn colors_script_text(light: Option<Seq<char>>, dark: Option<Seq<char>>) -> Seq<char> {
    "window.__TBO_COLORS__={\"light\":"@ + colors_json(light) + ",\"dark\":"@ + colors_json(dark)
        + "};"@
}

/// A JSON text as the characters of its value.
pub open spec fn json_view(json: Option<&str>) -> Option<Seq<char>> {
    match json {
        Some(text) => Some(text@),
        None => None,
    }
}

/// Writes the script that sets the per-theme color override global. Each
/// color set comes as its JSON text, or `None` where it could not be written
/// as JSON, in which case it overrides nothing.
pub fn colors_script(light: Option<&str>, dark: Option<&str>) -> (script: String)
    ensures
        script@ == colors_script_text(json_view(light), json_view(dark)),
{
    let mut script = String::from_str("window.__TBO_COLORS__={\"light\":");
    match light {
        Some(text) => script.append(text),
        None => script.append("{}"),
    }
    script.append(",\"dark\":");
    match dark {
        Some(text) => script.append(text),
        None => script.append("{}"),
    }
    script.append("};");
    script
}

/// A script to run in the page before anything else.
#[derive(Debug, Clone)]
pub enum InitScript {
    /// The caption runtime, which renders the caption controls.
    Bootstrap,
    /// A script given by its source text.
    Source(String),
    /// The color override script for these light and dark color sets; it is
    /// written once the sets are turned into JSON.
    Colors { light: TitleBarColors, dark: TitleBarColors },
}

/// A script, with its texts taken by their characters.
pub enum InitScriptView {
    Bootstrap,
    Source(Seq<char>),
    Colors { light: TitleBarColorsView, dark: TitleBarColorsView },
}

impl View for InitScript {
    type V = InitScriptView;

    open spec fn view(&self) -> InitScriptView {
        match self {
            InitScript::Bootstrap => InitScriptView::Bootstrap,
            InitScript::Source(s) => InitScriptView::Source(s@),
            InitScript::Colors { light, dark } => InitScriptView::Colors { light: light@, dark: dark@ },
        }
    }
}

/// What the title bar settings ask of a window: its system frame
/// (`decorations`), its drop shadow and the scripts to run in its page, each
/// left as it is where `None`.
pub struct OverlaySetup {
    pub decorations: Option<bool>,
    pub shadow: Option<bool>,
    pub scripts: Vec<InitScript>,
}

/// An overlay setup, with its scripts taken by their views.
pub struct OverlaySetupView {
    pub decorations: Option<bool>,
    pub shadow: Option<bool>,
    pub scripts: Seq<InitScriptView>,
}

impl View for OverlaySetup {
    type V = OverlaySetupView;

    open spec fn view(&self) -> OverlaySetupView {
        OverlaySetupView {
            decorations: self.decorations,
            shadow: self.shadow,
            scripts: self.scripts@.map_values(|s: InitScript| s@),
        }
    }
}

/// Enabling the overlay removes the system frame, keeps the drop shadow and
/// injects the caption runtime; disabling it asks nothing.
pub open spec fn with_overlay(v: OverlaySetupView, enabled: bool) -> OverlaySetupView {
    if enabled {
        OverlaySetupView {
            decorations: Some(false),
            shadow: Some(true),
            scripts: v.scripts.push(InitScriptView::Bootstrap),
        }
    } else {
        v
    }
}

/// Setting the height injects the height script.
pub open spec fn with_height(v: OverlaySetupView, height: u32) -> OverlaySetupView {
    OverlaySetupView {
        scripts: v.scripts.push(InitScriptView::Source(height_script_text(height))),
        ..v
    }
}

/// Setting the colors injects the color override script.
pub open spec fn with_colors(v: OverlaySetupView, light: TitleBarColorsView, dark: TitleBarColorsView) -> OverlaySetupView {
    OverlaySetupView { scripts: v.scripts.push(InitScriptView::Colors { light, dark }), ..v }
}

impl OverlaySetup {
    /// A setup that asks nothing of the window.
    pub fn new() -> (s: Self)
        ensures
            s@.decorations is None,
            s@.shadow is None,
            s@.scripts == Seq::<InitScriptView>::empty(),
    {
        let s = OverlaySetup { decorations: None, shadow: None, scripts: Vec::new() };
        assert(s@.scripts =~= Seq::<InitScriptView>::empty());
        s
    }

    fn push_script(&mut self, script: InitScript)
        ensures
            final(self)@ == (OverlaySetupView { scripts: old(self)@.scripts.push(script@), ..old(self)@ }),
    {
        self.scripts.push(script);
        assert(self.scripts@.map_values(|s: InitScript| s@) =~= old(self)@.scripts.push(script@));
    }
}

/// Configures the native title bar overlay while a window is being built.
pub trait WindowControlsBuilderExt: Sized {
    /// Enables the overlay: removes the system frame, keeps the drop shadow,
    /// and injects the caption-control runtime. Default is disabled.
    fn set_title_bar_overlay(self, enabled: bool) -> Self;

    /// Sets the title bar / caption button height in logical pixels (default
    /// 32).
    fn set_title_bar_height(self, height: u32) -> Self;

    /// Overrides the caption colors per theme.
    fn set_title_bar_colors(self, light: TitleBarColors, dark: TitleBarColors) -> Self;
}

impl WindowControlsBuilderExt for OverlaySetup {
    fn set_title_bar_overlay(self, enabled: bool) -> (s: Self)
        ensures
            s@ == with_overlay(self@, enabled),
    {
        let mut s = self;
        if enabled {
            s.decorations = Some(false);
            s.shadow = Some(true);
            s.push_script(InitScript::Bootstrap);
        }
        s
    }

    fn set_title_bar_height(self, height: u32) -> (s: Self)
        ensures
            s@ == with_height(self@, height),
    {
        let mut s = self;
        let script = height_script(height);
        s.push_script(InitScript::Source(script));
        s
    }

    fn set_title_bar_colors(self, light: TitleBarColors, dark: TitleBarColors) -> (s: Self)
        ensures
            s@ == with_colors(self@, light@, dark@),
    {
        let mut s = self;
        s.push_script(InitScript::Colors { light, dark });
        s
    }
}

/// Whether two setups ask the same of a window, up to the order in which
/// their scripts run.
pub open spec fn same_up_to_order(a: OverlaySetupView, b: OverlaySetupView) -> bool {
    &&& a.decorations == b.decorations
    &&& a.shadow == b.shadow
    &&& a.scripts.to_multiset() == b.scripts.to_multiset()
}

proof fn lemma_pushes_commute(s: Seq<InitScriptView>, x: InitScriptView, y: InitScriptView)
    ensures
        s.push(x).push(y).to_multiset() == s.push(y).push(x).to_multiset(),
{
    assert(s.push(x).push(y).to_multiset() =~= s.push(y).push(x).to_multiset());
}

/// The three setters are order-independent: applying any two of them in
/// either order asks the same of the window, up to the order of its scripts.
pub proof fn lemma_setters_commute(
    v: OverlaySetupView,
    enabled: bool,
    height: u32,
    light: TitleBarColorsView,
    dark: TitleBarColorsView,
)
    ensures
        same_up_to_order(
            with_height(with_overlay(v, enabled), height),
            with_overlay(with_height(v, height), enabled),
        ),
        same_up_to_order(
            with_colors(with_overlay(v, enabled), light, dark),
            with_overlay(with_colors(v, light, dark), enabled),
        ),
        same_up_to_order(
            with_colors(with_height(v, height), light, dark),
            with_height(with_colors(v, light, dark), height),
        ),
{
    let h = InitScriptView::Source(height_script_text(height));
    let c = InitScriptView::Colors { light, dark };
    lemma_pushes_commute(v.scripts, InitScriptView::Bootstrap, h);
    lemma_pushes_commute(v.scripts, InitScriptView::Bootstrap, c);
    lemma_pushes_commute(v.scripts, h, c);
}

/// The color script ends with the dark JSON, whatever the light one is, and
/// begins with the light JSON: each theme's overrides appear in the script,
/// each in its own place.
pub proof fn lemma_colors_script_parts(light: Option<Seq<char>>, dark: Seq<char>, light2: Option<Seq<char>>)
    ensures
        ({
            let s = colors_script_text(light, Some(dark));
            let tail = ",\"dark\":"@ + dark + "};"@;
            &&& s.len() >= tail.len()
            &&& s.skip(s.len() - tail.len()) == tail
        }),
        ({
            let s = colors_script_text(light, Some(dark));
            let head = "window.__TBO_COLORS__={\"light\":"@ + colors_json(light);
            &&& s.len() >= head.len()
            &&& s.take(head.len() as int) == head
        }),
        colors_script_text(light, Some(dark)).skip(
            ("window.__TBO_COLORS__={\"light\":"@ + colors_json(light)).len() as int,
        ) == colors_script_text(light2, Some(dark)).skip(
            ("window.__TBO_COLORS__={\"light\":"@ + colors_json(light2)).len() as int,
        ),
{
    let tail = ",\"dark\":"@ + dark + "};"@;
    let head = "window.__TBO_COLORS__={\"light\":"@ + colors_json(light);
    let head2 = "window.__TBO_COLORS__={\"light\":"@ + colors_json(light2);
    let s = colors_script_text(light, Some(dark));
    let s2 = colors_script_text(light2, Some(dark));
    assert(s =~= head + tail);
    assert(s2 =~= head2 + tail);
    assert(s.skip(s.len() - tail.len()) =~= tail);
    assert(s.take(head.len() as int) =~= head);
    assert(s.skip(head.len() as int) =~= tail);
    assert(s2.skip(head2.len() as int) =~= tail);
}

} // verus!
