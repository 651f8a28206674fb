//! The snap-layout overlay: a hit-test-only window over each maximize button
//! answers as the maximize button, so that the system shows the snap-layout
//! flyout on hover. It cannot see the page's hover and clicks, so it reports
//! them back to its parent window's page as events.
//!
//! This module keeps the state of every overlay, keyed by its parent window,
//! and decides for each window message what changes and what is reported.
//! Window handles are taken as integers; `E` is whatever the caller uses to
//! deliver events to a parent's page.

use std::collections::HashMap;
use vstd::prelude::*;
use vstd::std_specs::iter::IteratorSpec;

verus! {

broadcast use vstd::std_specs::hash::group_hash_axioms;

/// The state kept for the overlay of one parent window.
pub struct SnapState<E> {
    /// Handle of the overlay window.
    pub overlay: isize,
    /// Title bar height in logical pixels.
    pub titlebar_height: u32,
    /// Whether the pointer is over the overlay.
    pub hovering: bool,
    /// Whether the primary button went down on the overlay and has not been
    /// released or lost since.
    pub pressing: bool,
    /// Delivers events to the parent's page.
    pub emit: E,
}

/// Events reported to the parent's page.
#[derive(Debug, Clone, Copy, PartialEq, Eq, Structural)]
pub enum SnapEvent {
    /// The pointer entered the maximize button.
    Enter,
    /// The pointer left the maximize button.
    Leave,
    /// The primary button went down on the maximize button.
    Down,
    /// The primary button was released on the maximize button.
    Up,
    /// A press and release on the maximize button: the page maximizes or
    /// restores the window.
    Click,
}

/// The event name under which `event` is delivered to the page.
pub open spec fn event_name(event: SnapEvent) -> Seq<char> {
    match event {
        SnapEvent::Enter => "window-controls://snap-enter"@,
        SnapEvent::Leave => "window-controls://snap-leave"@,
        SnapEvent::Down => "window-controls://snap-down"@,
        SnapEvent::Up => "window-controls://snap-up"@,
        SnapEvent::Click => "window-controls://snap-click"@,
    }
}

impl SnapEvent {
    /// The event name under which this event is delivered to the page.
    pub fn name(&self) -> (name: &'static str)
        ensures
            name@ == event_name(*self),
    {
        match self {
            SnapEvent::Enter => "window-controls://snap-enter",
            SnapEvent::Leave => "window-controls://snap-leave",
            SnapEvent::Down => "window-controls://snap-down",
            SnapEvent::Up => "window-controls://snap-up",
            SnapEvent::Click => "window-controls://snap-click",
        }
    }
}

/// The window messages that the overlay tells apart.
#[derive(Debug, Clone, Copy, PartialEq, Eq, Structural)]
pub enum OverlayMessage {
    /// The system asks which part of the window is under the pointer.
    HitTest,
    /// The pointer moved over the non-client area.
    MouseMove,
    /// The pointer left the non-client area.
    MouseLeave,
    /// The primary button went down in the non-client area.
    ButtonDown,
    /// The primary button was released in the non-client area.
    ButtonUp,
    /// Any other message.
    Other,
}

/// How the overlay's window procedure answers a message.
#[derive(Debug, Clone, Copy, PartialEq, Eq, Structural)]
pub enum OverlayReply {
    /// Answer that the point is on the maximize button.
    MaximizeButton,
    /// Answer that the message was handled.
    Handled,
    /// Hand the message to the default window procedure.
    PassOn,
}

/// What to do after the overlay received a message.
pub struct OverlayResponse {
    /// The answer of the window procedure.
    pub reply: OverlayReply,
    /// The parent window the overlay belongs to, where it was looked up.
    pub parent: Option<isize>,
    /// Events to deliver to that parent's page, in order.
    pub events: Vec<SnapEvent>,
    /// Whether to ask the system for a leave notification for the overlay.
    pub track_leave: bool,
}

/// Whether a message is one the overlay answers itself after looking up its
/// parent.
pub open spec fn is_pointer_message(msg: OverlayMessage) -> bool {
    ||| msg is MouseMove
    ||| msg is MouseLeave
    ||| msg is ButtonDown
    ||| msg is ButtonUp
}

/// The reply to a message.
pub open spec fn reply_for(msg: OverlayMessage) -> OverlayReply {
    match msg {
        OverlayMessage::HitTest => OverlayReply::MaximizeButton,
        OverlayMessage::Other => OverlayReply::PassOn,
        _ => OverlayReply::Handled,
    }
}

/// The state of an overlay after a message.
pub open spec fn state_after<E>(s: SnapState<E>, msg: OverlayMessage) -> SnapState<E> {
    match msg {
        OverlayMessage::MouseMove => SnapState { hovering: true, ..s },
        OverlayMessage::MouseLeave => SnapState { hovering: false, pressing: false, ..s },
        OverlayMessage::ButtonDown => SnapState { pressing: true, ..s },
        OverlayMessage::ButtonUp => SnapState { pressing: false, ..s },
        _ => s,
    }
}

/// The events a message to an overlay in state `s` reports: entering only
/// when the pointer was not already over it, and a click when a release
/// ends a press.
pub open spec fn events_for<E>(s: SnapState<E>, msg: OverlayMessage) -> Seq<SnapEvent> {
    match msg {
        OverlayMessage::MouseMove => if s.hovering {
            seq![]
        } else {
            seq![SnapEvent::Enter]
        },
        OverlayMessage::MouseLeave => seq![SnapEvent::Leave],
        OverlayMessage::ButtonDown => seq![SnapEvent::Down],
        OverlayMessage::ButtonUp => if s.pressing {
            seq![SnapEvent::Up, SnapEvent::Click]
        } else {
            seq![SnapEvent::Up]
        },
        _ => seq![],
    }
}

/// Whether `parent` has an overlay with handle `overlay` in `m`.
pub open spec fn owns_overlay<E>(m: Map<isize, SnapState<E>>, parent: isize, overlay: isize) -> bool {
    m.contains_key(parent) && m[parent].overlay == overlay
}

/// The state of a freshly installed overlay.
pub open spec fn fresh_state<E>(overlay: isize, titlebar_height: u32, emit: E) -> SnapState<E> {
    SnapState { overlay, titlebar_height, hovering: false, pressing: false, emit }
}

/// The overlays of all parent windows, keyed by the parent's handle.
pub struct SnapRegistry<E> {
    states: HashMap<isize, SnapState<E>>,
}

impl<E> View for SnapRegistry<E> {
    type V = Map<isize, SnapState<E>>;

    closed spec fn view(&self) -> Map<isize, SnapState<E>> {
        self.states@
    }
}

/// The result of installing an overlay.
#[derive(Debug, Clone, Copy, PartialEq, Eq, Structural)]
pub enum InstallOutcome {
    /// The overlay window could not be created (its handle is null): nothing
    /// changed.
    Skipped,
    /// The overlay is installed; the overlay it replaced, if any, is to be
    /// destroyed.
    Installed { replaced: Option<isize> },
}

/// Messages to a parent window that concern its overlay.
#[derive(Debug, Clone, Copy, PartialEq, Eq, Structural)]
pub enum ParentMessage {
    /// The window was resized.
    Size,
    /// The window's DPI changed.
    DpiChanged,
    /// The window is closing.
    Close,
    /// Any other message.
    Other,
}

/// What to do after a parent window received a message; the message is
/// handed on to the next window procedure in every case.
#[derive(Debug, Clone, Copy, PartialEq, Eq, Structural)]
pub enum ParentAction {
    /// Place the overlay `overlay` again, for a title bar `titlebar_height`
    /// logical pixels high.
    Reposition { overlay: isize, titlebar_height: u32 },
    /// Stop watching the parent's messages, and destroy its overlay, if any.
    Detach { destroy: Option<isize> },
    /// Nothing.
    Nothing,
}

/// The action for a message to parent `parent`, whose overlays are `m`.
pub open spec fn parent_action_spec<E>(m: Map<isize, SnapState<E>>, parent: isize, msg: ParentMessage) -> ParentAction {
    match msg {
        ParentMessage::Size | ParentMessage::DpiChanged => if m.contains_key(parent) {
            ParentAction::Reposition {
                overlay: m[parent].overlay,
                titlebar_height: m[parent].titlebar_height,
            }
        } else {
            ParentAction::Nothing
        },
        ParentMessage::Close => ParentAction::Detach {
            destroy: if m.contains_key(parent) {
                Some(m[parent].overlay)
            } else {
                None
            },
        },
        ParentMessage::Other => ParentAction::Nothing,
    }
}

impl<E> SnapRegistry<E> {
    /// A registry without overlays.
    pub fn new() -> (r: Self)
        ensures
            r@ == Map::<isize, SnapState<E>>::empty(),
    {
        SnapRegistry { states: HashMap::new() }
    }

    /// Records the overlay `created` for `parent`, replacing the one it had;
    /// a null handle (zero) records nothing.
    pub fn install(&mut self, parent: isize, created: isize, titlebar_height: u32, emit: E) -> (out: InstallOutcome)
        ensures
            created == 0 ==> out == InstallOutcome::Skipped && final(self)@ == old(self)@,
            created != 0 ==> final(self)@ == old(self)@.insert(parent, fresh_state(created, titlebar_height, emit)),
            created != 0 ==> out == (InstallOutcome::Installed {
                replaced: if old(self)@.contains_key(parent) {
                    Some(old(self)@[parent].overlay)
                } else {
                    None
                },
            }),
    {
        if created == 0 {
            return InstallOutcome::Skipped;
        }
        let previous = self.states.remove(&parent);
        self.states.insert(
            parent,
            SnapState { overlay: created, titlebar_height, hovering: false, pressing: false, emit },
        );
        assert(self.states@ =~= old(self)@.insert(parent, fresh_state(created, titlebar_height, emit)));
        match previous {
            Some(s) => InstallOutcome::Installed { replaced: Some(s.overlay) },
            None => InstallOutcome::Installed { replaced: None },
        }
    }

    /// Forgets the overlay of `parent`, handing back its handle to destroy.
    pub fn remove(&mut self, parent: isize) -> (destroy: Option<isize>)
        ensures
            final(self)@ == old(self)@.remove(parent),
            destroy == (if old(self)@.contains_key(parent) {
                Some(old(self)@[parent].overlay)
            } else {
                None
            }),
    {
        match self.states.remove(&parent) {
            Some(s) => Some(s.overlay),
            None => None,
        }
    }

    /// The overlay of `parent` and its title bar height, if it has one.
    pub fn placement(&self, parent: isize) -> (p: Option<(isize, u32)>)
        ensures
            p == (if self@.contains_key(parent) {
                Some((self@[parent].overlay, self@[parent].titlebar_height))
            } else {
                None
            }),
    {
        match self.states.get(&parent) {
            Some(s) => Some((s.overlay, s.titlebar_height)),
            None => None,
        }
    }

    /// How to deliver events to the page of `parent`, if it has an overlay.
    pub fn emitter(&self, parent: isize) -> (e: Option<&E>)
        ensures
            match e {
                Some(e) => self@.contains_key(parent) && *e == self@[parent].emit,
                None => !self@.contains_key(parent),
            },
    {
        match self.states.get(&parent) {
            Some(s) => Some(&s.emit),
            None => None,
        }
    }

    /// A parent window whose overlay has the handle `overlay`, if there is one.
    pub fn parent_of(&self, overlay: isize) -> (parent: Option<isize>)
        ensures
            match parent {
                Some(p) => owns_overlay(self@, p, overlay),
                None => forall|p: isize| !owns_overlay(self@, p, overlay),
            },
    {
        let ghost m = self.states@;
        let entries = self.states.iter();
        let ghost items = entries.remaining();
        assert(items == vstd::std_specs::hash::spec_hash_map_iter(&self.states).remaining());
        assert(forall|j: int|
            0 <= j < items.len() ==> #[trigger] owns_overlay(m, *items[j].0, (*items[j].1).overlay));
        for entry in it: entries
            invariant
                m == self.states@,
                it.seq() == items,
                forall|j: int|
                    0 <= j < items.len() ==> #[trigger] owns_overlay(m, *items[j].0, (*items[j].1).overlay),
                forall|j: int|
                    0 <= j < it.index() ==> (*it.seq()[j].1).overlay != overlay,
        {
            let (p, s) = entry;
            assert(entry == items[it.index()]);
            if s.overlay == overlay {
                return Some(*p);
            }
        }
        assert forall|p: isize| !owns_overlay(m, p, overlay) by {
            if m.contains_key(p) {
                assert(items.contains((&p, &m[p])));
            }
        }
        None
    }

    /// Decides what a message to the overlay window `overlay` changes and
    /// reports.
    pub fn on_overlay_message(&mut self, overlay: isize, msg: OverlayMessage) -> (r: OverlayResponse)
        ensures
            r.reply == reply_for(msg),
            !is_pointer_message(msg) ==> r.parent is None && r.events@ == Seq::<SnapEvent>::empty()
                && !r.track_leave && final(self)@ == old(self)@,
            is_pointer_message(msg) ==> match r.parent {
                Some(p) => {
                    &&& owns_overlay(old(self)@, p, overlay)
                    &&& final(self)@ == old(self)@.insert(p, state_after(old(self)@[p], msg))
                    &&& r.events@ == events_for(old(self)@[p], msg)
                    &&& r.track_leave == (msg is MouseMove)
                },
                None => {
                    &&& forall|p: isize| !owns_overlay(old(self)@, p, overlay)
                    &&& final(self)@ == old(self)@
                    &&& r.events@ == Seq::<SnapEvent>::empty()
                    &&& !r.track_leave
                },
            },
    {
        let reply = match msg {
            OverlayMessage::HitTest => OverlayReply::MaximizeButton,
            OverlayMessage::Other => OverlayReply::PassOn,
            _ => OverlayReply::Handled,
        };
        let mut events: Vec<SnapEvent> = Vec::new();
        match msg {
            OverlayMessage::HitTest | OverlayMessage::Other => {
                return OverlayResponse { reply, parent: None, events, track_leave: false };
            },
            _ => {},
        }
        let found = self.parent_of(overlay);
        let parent = match found {
            Some(p) => p,
            None => {
                return OverlayResponse { reply, parent: None, events, track_leave: false };
            },
        };
        let ghost before = self.states@;
        let taken = self.states.remove(&parent);
        let mut s = match taken {
            Some(s) => s,
            None => {
                assert(false);
                return OverlayResponse { reply, parent: None, events, track_leave: false };
            },
        };
        match msg {
            OverlayMessage::MouseMove => {
                if !s.hovering {
                    events.push(SnapEvent::Enter);
                }
                s.hovering = true;
            },
            OverlayMessage::MouseLeave => {
                s.hovering = false;
                s.pressing = false;
                events.push(SnapEvent::Leave);
            },
            OverlayMessage::ButtonDown => {
                s.pressing = true;
                events.push(SnapEvent::Down);
            },
            _ => {
                let click = s.pressing;
                s.pressing = false;
                events.push(SnapEvent::Up);
                if click {
                    events.push(SnapEvent::Click);
                }
            },
        }
        self.states.insert(parent, s);
        assert(self.states@ =~= before.insert(parent, state_after(before[parent], msg)));
        assert(events@ =~= events_for(before[parent], msg));
        OverlayResponse {
            reply,
            parent: Some(parent),
            events,
            track_leave: msg == OverlayMessage::MouseMove,
        }
    }

    /// Decides what a message to the parent window `parent` requires of its
    /// overlay; closing the window forgets the overlay.
    pub fn on_parent_message(&mut self, parent: isize, msg: ParentMessage) -> (a: ParentAction)
        ensures
            a == parent_action_spec(old(self)@, parent, msg),
            msg is Close ==> final(self)@ == old(self)@.remove(parent),
            !(msg is Close) ==> final(self)@ == old(self)@,
    {
        match msg {
            ParentMessage::Size | ParentMessage::DpiChanged => match self.placement(parent) {
                Some((overlay, titlebar_height)) => ParentAction::Reposition { overlay, titlebar_height },
                None => ParentAction::Nothing,
            },
            ParentMessage::Close => ParentAction::Detach { destroy: self.remove(parent) },
            ParentMessage::Other => ParentAction::Nothing,
        }
    }
}

/// A press followed by a release on the maximize button reports the release
/// and a click.
pub proof fn lemma_press_then_release_clicks<E>(s: SnapState<E>)
    ensures
        events_for(state_after(s, OverlayMessage::ButtonDown), OverlayMessage::ButtonUp)
            == seq![SnapEvent::Up, SnapEvent::Click],
{
}

/// Leaving cancels a press: a release after the pointer left reports no click.
pub proof fn lemma_leave_cancels_press<E>(s: SnapState<E>)
    ensures
        events_for(state_after(s, OverlayMessage::MouseLeave), OverlayMessage::ButtonUp)
            == seq![SnapEvent::Up],
{
}

/// A release ends the press: a second release reports no click.
pub proof fn lemma_click_once_per_press<E>(s: SnapState<E>)
    ensures
        events_for(state_after(s, OverlayMessage::ButtonUp), OverlayMessage::ButtonUp)
            == seq![SnapEvent::Up],
{
}

/// Entering is reported once: further moves over the button report nothing,
/// until the pointer leaves, after which a move reports entering again.
pub proof fn lemma_enter_reported_once<E>(s: SnapState<E>)
    ensures
        events_for(state_after(s, OverlayMessage::MouseMove), OverlayMessage::MouseMove)
            == Seq::<SnapEvent>::empty(),
        events_for(state_after(s, OverlayMessage::MouseLeave), OverlayMessage::MouseMove)
            == seq![SnapEvent::Enter],
{
}

/// A click is only ever reported by a release that ends a press.
pub proof fn lemma_click_only_on_release<E>(s: SnapState<E>, msg: OverlayMessage)
    ensures
        events_for(s, msg).contains(SnapEvent::Click) ==> msg is ButtonUp && s.pressing,
{
    if events_for(s, msg).contains(SnapEvent::Click) {
        let k = choose|k: int| 0 <= k < events_for(s, msg).len() && events_for(s, msg)[k] == SnapEvent::Click;
        assert(events_for(s, msg)[k] == SnapEvent::Click);
    }
}

/// Messages change only whether the pointer hovers and presses: the overlay,
/// the title bar height and the event delivery stay as installed.
pub proof fn lemma_messages_keep_identity<E>(s: SnapState<E>, msg: OverlayMessage)
    ensures
        state_after(s, msg).overlay == s.overlay,
        state_after(s, msg).titlebar_height == s.titlebar_height,
        state_after(s, msg).emit == s.emit,
{
}

/// A message to one overlay leaves the state of every other window alone.
pub proof fn lemma_other_windows_untouched<E>(
    m: Map<isize, SnapState<E>>,
    parent: isize,
    msg: OverlayMessage,
    other: isize,
)
    requires
        other != parent,
    ensures
        m.insert(parent, state_after(m[parent], msg)).contains_key(other) == m.contains_key(other),
        m.insert(parent, state_after(m[parent], msg))[other] == m[other],
{
}

/// Removing an overlay undoes installing it: the registry is as it was,
/// except that the parent no longer has an overlay.
pub proof fn lemma_remove_undoes_install<E>(m: Map<isize, SnapState<E>>, parent: isize, s: SnapState<E>)
    ensures
        m.insert(parent, s).remove(parent) == m.remove(parent),
        !m.contains_key(parent) ==> m.insert(parent, s).remove(parent) == m,
{
    assert(m.insert(parent, s).remove(parent) =~= m.remove(parent));
    if !m.contains_key(parent) {
        assert(m.remove(parent) =~= m);
    }
}

/// A newly installed overlay belongs to its parent alone, provided no other
/// window had an overlay with the same handle; it is neither hovered nor
/// pressed.
pub proof fn lemma_installed_overlay_owned<E>(
    m: Map<isize, SnapState<E>>,
    parent: isize,
    overlay: isize,
    titlebar_height: u32,
    emit: E,
)
    requires
        forall|q: isize| q != parent ==> !owns_overlay(m, q, overlay),
    ensures
        forall|q: isize|
            owns_overlay(m.insert(parent, fresh_state(overlay, titlebar_height, emit)), q, overlay)
                <==> q == parent,
        !m.insert(parent, fresh_state(overlay, titlebar_height, emit))[parent].hovering,
        !m.insert(parent, fresh_state(overlay, titlebar_height, emit))[parent].pressing,
{
    let n = m.insert(parent, fresh_state(overlay, titlebar_height, emit));
    assert forall|q: isize| owns_overlay(n, q, overlay) <==> q == parent by {
        if q != parent {
            assert(n.contains_key(q) == m.contains_key(q));
            assert(m.contains_key(q) ==> n[q] == m[q]);
            assert(!owns_overlay(m, q, overlay));
        }
    }
}

/// The state after `n` pointer moves.
pub open spec fn after_moves<E>(s: SnapState<E>, n: nat) -> SnapState<E>
    decreases n,
{
    if n == 0 {
        s
    } else {
        state_after(after_moves(s, (n - 1) as nat), OverlayMessage::MouseMove)
    }
}

/// A pointer move never ends a press: only a release or the pointer leaving
/// clears it, and nothing but a press starts one.
pub proof fn lemma_only_release_or_leave_end_press<E>(s: SnapState<E>, msg: OverlayMessage)
    ensures
        state_after(s, OverlayMessage::MouseMove).pressing == s.pressing,
        s.pressing && !(msg is ButtonUp) && !(msg is MouseLeave) ==> state_after(s, msg).pressing,
        !s.pressing && !(msg is ButtonDown) ==> !state_after(s, msg).pressing,
{
}

/// Moves while the button is held keep the press: a press, any number of
/// moves, then a release reports the release and a click.
pub proof fn lemma_press_survives_moves<E>(s: SnapState<E>, n: nat)
    ensures
        after_moves(s, n).pressing == s.pressing,
        events_for(after_moves(state_after(s, OverlayMessage::ButtonDown), n), OverlayMessage::ButtonUp)
            == seq![SnapEvent::Up, SnapEvent::Click],
    decreases n,
{
    if n > 0 {
        lemma_press_survives_moves(s, (n - 1) as nat);
        lemma_only_release_or_leave_end_press(after_moves(s, (n - 1) as nat), OverlayMessage::MouseMove);
        lemma_only_release_or_leave_end_press(
            after_moves(state_after(s, OverlayMessage::ButtonDown), (n - 1) as nat),
            OverlayMessage::MouseMove,
        );
        lemma_press_survives_moves(state_after(s, OverlayMessage::ButtonDown), (n - 1) as nat);
    } else {
        lemma_press_then_release_clicks(s);
    }
}

/// A resize or DPI change repositions a parent's overlay whenever it has one,
/// at the handle and title bar height it was installed with, whether or not
/// the pointer hovers or presses it; a parent without an overlay gets nothing.
pub proof fn lemma_resize_repositions<E>(
    m: Map<isize, SnapState<E>>,
    parent: isize,
    hovering: bool,
    pressing: bool,
)
    ensures
        m.contains_key(parent) ==> parent_action_spec(m, parent, ParentMessage::Size)
            == (ParentAction::Reposition {
            overlay: m[parent].overlay,
            titlebar_height: m[parent].titlebar_height,
        }),
        parent_action_spec(m, parent, ParentMessage::DpiChanged) == parent_action_spec(
            m,
            parent,
            ParentMessage::Size,
        ),
        m.contains_key(parent) ==> parent_action_spec(
            m.insert(parent, SnapState { hovering, pressing, ..m[parent] }),
            parent,
            ParentMessage::Size,
        ) == parent_action_spec(m, parent, ParentMessage::Size),
        !m.contains_key(parent) ==> parent_action_spec(m, parent, ParentMessage::Size)
            == ParentAction::Nothing,
{
}

} // verus!
