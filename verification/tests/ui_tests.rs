use layerrd::tools::{tool_label, tool_name, ToolSelection, TOOL_COUNT};
use layerrd::view::{is_pan_drag, view_actions, ViewAction, ZoomKeys};

const NO_KEYS: ZoomKeys =
    ZoomKeys { command: false, plus: false, equals: false, minus: false, num0: false, num1: false };

#[test]
fn tool_names_and_labels() {
    let names = ["Select", "Move", "Brush", "Eraser", "Fill", "Text", "Eyedropper", "Crop"];
    assert_eq!(TOOL_COUNT, 8);
    for i in 0..TOOL_COUNT {
        assert_eq!(tool_name(i), names[i]);
        assert_eq!(tool_label(i), names[i].chars().next().unwrap());
    }
}

#[test]
fn shortcuts_need_command() {
    let k = ZoomKeys { plus: true, minus: true, num0: true, num1: true, ..NO_KEYS };
    assert!(view_actions(k, None).is_empty());
}

#[test]
fn shortcuts_in_order_then_menu_action() {
    let k = ZoomKeys { command: true, equals: true, num1: true, ..NO_KEYS };
    assert_eq!(
        view_actions(k, Some(ViewAction::FitToWindow)),
        vec![ViewAction::ZoomIn, ViewAction::ZoomTo100, ViewAction::FitToWindow]
    );
    let all = ZoomKeys { command: true, plus: true, equals: true, minus: true, num0: true, num1: true };
    assert_eq!(
        view_actions(all, None),
        vec![ViewAction::ZoomIn, ViewAction::ZoomOut, ViewAction::FitToWindow, ViewAction::ZoomTo100]
    );
    assert_eq!(view_actions(NO_KEYS, Some(ViewAction::ZoomOut)), vec![ViewAction::ZoomOut]);
}

#[test]
fn pan_gestures() {
    assert!(is_pan_drag(true, true, false));
    assert!(!is_pan_drag(true, false, false));
    assert!(!is_pan_drag(false, true, false));
    assert!(is_pan_drag(false, false, true));
}

#[test]
fn tool_selection() {
    let mut t = ToolSelection::new();
    assert_eq!(t.index(), 0);
    assert_eq!(t.name(), "Select");
    t.select(6);
    assert_eq!(t.index(), 6);
    assert_eq!(t.name(), "Eyedropper");
}
