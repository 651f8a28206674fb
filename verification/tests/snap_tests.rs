use window_controls::snap::{
    InstallOutcome, OverlayMessage, OverlayReply, ParentAction, ParentMessage, SnapEvent, SnapRegistry,
};

fn registry() -> SnapRegistry<&'static str> {
    let mut r = SnapRegistry::new();
    assert_eq!(r.install(100, 7, 32, "main"), InstallOutcome::Installed { replaced: None });
    assert_eq!(r.install(200, 8, 40, "second"), InstallOutcome::Installed { replaced: None });
    r
}

fn events(r: &mut SnapRegistry<&'static str>, overlay: isize, msg: OverlayMessage) -> Vec<SnapEvent> {
    let resp = r.on_overlay_message(overlay, msg);
    assert_eq!(resp.reply, OverlayReply::Handled);
    resp.events
}

#[test]
fn hover_press_release_clicks() {
    let mut r = registry();
    assert_eq!(events(&mut r, 7, OverlayMessage::MouseMove), vec![SnapEvent::Enter]);
    assert_eq!(events(&mut r, 7, OverlayMessage::MouseMove), vec![]);
    assert_eq!(events(&mut r, 7, OverlayMessage::ButtonDown), vec![SnapEvent::Down]);
    assert_eq!(events(&mut r, 7, OverlayMessage::ButtonUp), vec![SnapEvent::Up, SnapEvent::Click]);
    assert_eq!(events(&mut r, 7, OverlayMessage::ButtonUp), vec![SnapEvent::Up]);
    assert_eq!(events(&mut r, 7, OverlayMessage::MouseLeave), vec![SnapEvent::Leave]);
    assert_eq!(events(&mut r, 7, OverlayMessage::MouseMove), vec![SnapEvent::Enter]);
}

#[test]
fn leaving_cancels_the_press() {
    let mut r = registry();
    events(&mut r, 7, OverlayMessage::MouseMove);
    events(&mut r, 7, OverlayMessage::ButtonDown);
    assert_eq!(events(&mut r, 7, OverlayMessage::MouseLeave), vec![SnapEvent::Leave]);
    assert_eq!(events(&mut r, 7, OverlayMessage::ButtonUp), vec![SnapEvent::Up]);
}

#[test]
fn events_go_to_the_overlays_parent_only() {
    let mut r = registry();
    let resp = r.on_overlay_message(8, OverlayMessage::MouseMove);
    assert_eq!(resp.parent, Some(200));
    assert!(resp.track_leave);
    assert_eq!(r.emitter(200), Some(&"second"));
    let resp = r.on_overlay_message(7, OverlayMessage::MouseMove);
    assert_eq!(resp.parent, Some(100));
    assert_eq!(resp.events, vec![SnapEvent::Enter]);
    assert_eq!(r.emitter(100), Some(&"main"));
}

#[test]
fn unknown_overlays_change_nothing() {
    let mut r = registry();
    let resp = r.on_overlay_message(99, OverlayMessage::ButtonDown);
    assert_eq!(resp.reply, OverlayReply::Handled);
    assert_eq!(resp.parent, None);
    assert!(resp.events.is_empty());
    assert!(!resp.track_leave);
    assert_eq!(events(&mut r, 7, OverlayMessage::ButtonUp), vec![SnapEvent::Up]);
}

#[test]
fn hit_tests_answer_maximize_button() {
    let mut r = registry();
    let resp = r.on_overlay_message(7, OverlayMessage::HitTest);
    assert_eq!(resp.reply, OverlayReply::MaximizeButton);
    assert_eq!(resp.parent, None);
    assert!(resp.events.is_empty());
    let resp = r.on_overlay_message(99, OverlayMessage::HitTest);
    assert_eq!(resp.reply, OverlayReply::MaximizeButton);
    let resp = r.on_overlay_message(7, OverlayMessage::Other);
    assert_eq!(resp.reply, OverlayReply::PassOn);
    assert!(resp.events.is_empty());
}

#[test]
fn reinstalling_replaces_the_overlay() {
    let mut r = registry();
    events(&mut r, 7, OverlayMessage::ButtonDown);
    assert_eq!(r.install(100, 9, 48, "main"), InstallOutcome::Installed { replaced: Some(7) });
    assert_eq!(r.parent_of(9), Some(100));
    assert_eq!(r.parent_of(7), None);
    assert_eq!(r.placement(100), Some((9, 48)));
    assert_eq!(events(&mut r, 9, OverlayMessage::ButtonUp), vec![SnapEvent::Up]);
}

#[test]
fn null_overlay_is_not_installed() {
    let mut r = registry();
    assert_eq!(r.install(300, 0, 32, "third"), InstallOutcome::Skipped);
    assert_eq!(r.placement(300), None);
    assert_eq!(r.install(100, 0, 32, "main"), InstallOutcome::Skipped);
    assert_eq!(r.placement(100), Some((7, 32)));
}

#[test]
fn parent_messages_reposition_and_detach() {
    let mut r = registry();
    assert_eq!(
        r.on_parent_message(100, ParentMessage::Size),
        ParentAction::Reposition { overlay: 7, titlebar_height: 32 }
    );
    assert_eq!(
        r.on_parent_message(200, ParentMessage::DpiChanged),
        ParentAction::Reposition { overlay: 8, titlebar_height: 40 }
    );
    assert_eq!(r.on_parent_message(100, ParentMessage::Other), ParentAction::Nothing);
    assert_eq!(r.on_parent_message(100, ParentMessage::Close), ParentAction::Detach { destroy: Some(7) });
    assert_eq!(r.on_parent_message(100, ParentMessage::Size), ParentAction::Nothing);
    assert_eq!(r.on_parent_message(100, ParentMessage::Close), ParentAction::Detach { destroy: None });
    assert_eq!(r.parent_of(7), None);
    assert_eq!(r.parent_of(8), Some(200));
    assert_eq!(r.remove(200), Some(8));
    assert_eq!(r.remove(200), None);
}

#[test]
fn event_names() {
    assert_eq!(SnapEvent::Enter.name(), "window-controls://snap-enter");
    assert_eq!(SnapEvent::Leave.name(), "window-controls://snap-leave");
    assert_eq!(SnapEvent::Down.name(), "window-controls://snap-down");
    assert_eq!(SnapEvent::Up.name(), "window-controls://snap-up");
    assert_eq!(SnapEvent::Click.name(), "window-controls://snap-click");
}
