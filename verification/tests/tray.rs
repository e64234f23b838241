use rustshot::tray::{dock_payload, place_popup, popup_hit, TrayAction, TrayEvent, TrayIds, TrayState, ICON};

fn ids() -> TrayIds {
    TrayIds { root: 1, tray_selection: 77, manager: 88 }
}

#[test]
fn tray_events() {
    let mut s = TrayState::recreated(5);
    assert_eq!(s, TrayState { window: 5, width: ICON, height: ICON });
    assert_eq!(s.step(TrayEvent::Expose { window: 5 }, ids()), TrayAction::Paint { width: 22, height: 22 });
    assert_eq!(s.step(TrayEvent::Configure { window: 5, width: 30, height: 24 }, ids()), TrayAction::Nothing);
    assert_eq!(s.step(TrayEvent::Expose { window: 5 }, ids()), TrayAction::Paint { width: 30, height: 24 });
    assert_eq!(s.step(TrayEvent::Expose { window: 6 }, ids()), TrayAction::Nothing);
    assert_eq!(s.step(TrayEvent::ButtonPress { window: 5, button: 1, root_x: 3, root_y: 4 }, ids()), TrayAction::Capture);
    assert_eq!(
        s.step(TrayEvent::ButtonPress { window: 5, button: 3, root_x: 3, root_y: 4 }, ids()),
        TrayAction::QuitMenu { root_x: 3, root_y: 4 }
    );
    assert_eq!(s.step(TrayEvent::ButtonPress { window: 5, button: 2, root_x: 3, root_y: 4 }, ids()), TrayAction::Nothing);
    assert_eq!(s.step(TrayEvent::Reparent { window: 5, parent: 1 }, ids()), TrayAction::Redock);
    assert_eq!(s.step(TrayEvent::Reparent { window: 5, parent: 9 }, ids()), TrayAction::Nothing);
    assert_eq!(s.step(TrayEvent::Destroy { window: 5 }, ids()), TrayAction::Recreate);
    assert_eq!(s.step(TrayEvent::ClientMessage { window: 1, kind: 88, selection: 77 }, ids()), TrayAction::Redock);
    assert_eq!(s.step(TrayEvent::ClientMessage { window: 1, kind: 88, selection: 78 }, ids()), TrayAction::Nothing);
    assert_eq!(s.step(TrayEvent::Other, ids()), TrayAction::Nothing);
}

#[test]
fn popup_placement() {
    assert_eq!(place_popup(10, 10, 1920, 1080), (10, 10));
    assert_eq!(place_popup(1900, 10, 1920, 1080), (1920 - 96 - 2, 10));
    assert_eq!(place_popup(10, 1070, 1920, 1080), (10, 1042));
    assert_eq!(place_popup(10, 20, 1920, 30), (10, 0));
    assert_eq!(place_popup(-5, -5, 1920, 1080), (0, 0));
}

#[test]
fn popup_hits() {
    assert!(popup_hit(10, 10, 10, 10));
    assert!(popup_hit(10, 10, 105, 37));
    assert!(!popup_hit(10, 10, 106, 20));
    assert!(!popup_hit(10, 10, 20, 38));
}

#[test]
fn dock_request_words() {
    assert_eq!(dock_payload(0x1234), [0, 0, 0x1234, 0, 0]);
}
