//! Caption actions that the page asks of its window.

use vstd::prelude::*;

verus! {

/// What a caption action asks of the window.
#[derive(Debug, Clone, Copy, PartialEq, Eq, Structural)]
pub enum CaptionAction {
    /// Minimize the window.
    Minimize,
    /// Maximize the window, or restore it where it is maximized.
    ToggleMaximize,
    /// Close the window.
    Close,
    /// Nothing: the action is not one the caption knows.
    Ignore,
}

/// The caption action named `action`.
pub open spec fn caption_action_spec(action: Seq<char>) -> CaptionAction {
    if action == "minimize"@ {
        CaptionAction::Minimize
    } else if action == "toggle-maximize"@ {
        CaptionAction::ToggleMaximize
    } else if action == "close"@ {
        CaptionAction::Close
    } else {
        CaptionAction::Ignore
    }
}

/// Whether two strings hold the same characters.
fn same_text(a: &str, b: &str) -> (same: bool)
    ensures
        same == (a@ == b@),
{
    let a_owned = a.to_owned();
    let b_owned = b.to_owned();
    a_owned == b_owned
}

/// Reads the name of a caption action: `minimize`, `toggle-maximize` or
/// `close`; any other name asks nothing.
pub fn caption_action(action: &str) -> (a: CaptionAction)
    ensures
        a == caption_action_spec(action@),
{
    if same_text(action, "minimize") {
        CaptionAction::Minimize
    } else if same_text(action, "toggle-maximize") {
        CaptionAction::ToggleMaximize
    } else if same_text(action, "close") {
        CaptionAction::Close
    } else {
        CaptionAction::Ignore
    }
}

/// The window operation that toggles maximization.
#[derive(Debug, Clone, Copy, PartialEq, Eq, Structural)]
pub enum MaximizeOp {
    Maximize,
    Unmaximize,
}

/// Toggling maximization restores a maximized window and maximizes any
/// other.
pub fn toggle_maximize(is_maximized: bool) -> (op: MaximizeOp)
    ensures
        is_maximized ==> op == MaximizeOp::Unmaximize,
        !is_maximized ==> op == MaximizeOp::Maximize,
{
    if is_maximized {
        MaximizeOp::Unmaximize
    } else {
        MaximizeOp::Maximize
    }
}

/// The three caption actions are told apart: each name asks for its own
/// action.
pub proof fn lemma_caption_names_distinct()
    ensures
        caption_action_spec("minimize"@) == CaptionAction::Minimize,
        caption_action_spec("toggle-maximize"@) == CaptionAction::ToggleMaximize,
        caption_action_spec("close"@) == CaptionAction::Close,
{
    reveal_strlit("minimize");
    reveal_strlit("toggle-maximize");
    reveal_strlit("close");
    assert("toggle-maximize"@ != "minimize"@) by {
        assert("toggle-maximize"@.len() != "minimize"@.len());
    }
    assert("close"@ != "minimize"@) by {
        assert("close"@.len() != "minimize"@.len());
    }
    assert("close"@ != "toggle-maximize"@) by {
        assert("close"@.len() != "toggle-maximize"@.len());
    }
}

} // verus!
