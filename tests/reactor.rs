use ravenwm::geometry::Rectangle;
use ravenwm::message::{Color, Message};
use ravenwm::reactor::{
    configure_changes, reborder, tiled_rectangle, ConfigureRequest, Event, Geometry,
    LayoutMode, Request, StackMode, WindowChanges, WindowManager, CONFIG_HEIGHT,
    CONFIG_SIBLING, CONFIG_STACK_MODE, CONFIG_X,
};

const META: u32 = 1000;

fn none() -> WindowChanges {
    WindowChanges {
        x: None,
        y: None,
        width: None,
        height: None,
        border_width: None,
        sibling: None,
        stack_mode: None,
    }
}

fn manager() -> WindowManager {
    WindowManager::new(800, 600, META)
}

#[test]
fn reborder_keeps_outer_box_example() {
    let g = Geometry { x: 10, y: 10, width: 100, height: 100, border_width: 2 };
    let c = reborder(g, 6).unwrap();
    assert_eq!(
        c,
        WindowChanges { width: Some(92), height: Some(92), border_width: Some(6), ..none() }
    );
    assert_eq!(92 + 2 * 6, 100 + 2 * 2);
}

#[test]
fn reborder_thinner_border_grows_window() {
    let g = Geometry { x: 0, y: 0, width: 50, height: 40, border_width: 5 };
    let c = reborder(g, 1).unwrap();
    assert_eq!(
        c,
        WindowChanges { width: Some(58), height: Some(48), border_width: Some(1), ..none() }
    );
}

#[test]
fn reborder_without_room_is_none() {
    let g = Geometry { x: 0, y: 0, width: 4, height: 100, border_width: 0 };
    assert_eq!(reborder(g, 3), None);
}

#[test]
fn tiled_rectangle_examples() {
    assert_eq!(tiled_rectangle(800, 600, 0), Some(Rectangle::new(16, 16, 768, 568)));
    assert_eq!(tiled_rectangle(800, 600, 4), Some(Rectangle::new(16, 16, 760, 560)));
    assert_eq!(tiled_rectangle(32, 32, 0), Some(Rectangle::new(16, 16, 0, 0)));
    assert_eq!(tiled_rectangle(31, 600, 0), None);
    assert_eq!(tiled_rectangle(800, 600, 300), None);
}

#[test]
fn move_without_windows_issues_nothing() {
    let mut wm = manager();
    assert!(wm.handle_message(&Message::MoveWindow { x: 50, y: 75 }).is_empty());
}

#[test]
fn move_after_map_issues_one_configure() {
    let mut wm = manager();
    wm.handle_event(&Event::MapRequest { window: 5 });
    let r = wm.handle_message(&Message::MoveWindow { x: 50, y: 75 });
    assert_eq!(
        r,
        vec![Request::Configure {
            window: 5,
            changes: WindowChanges { x: Some(50), y: Some(75), ..none() },
        }]
    );
}

#[test]
fn close_kills_focused_and_refocuses() {
    let mut wm = manager();
    wm.handle_event(&Event::MapRequest { window: 1 });
    wm.handle_event(&Event::MapRequest { window: 2 });
    assert_eq!(wm.focused(), Some(2));
    let r = wm.handle_message(&Message::CloseWindow);
    assert_eq!(r, vec![Request::Kill { window: 2 }]);
    assert_eq!(wm.windows(), &vec![1]);
    assert_eq!(wm.focused(), Some(1));
}

#[test]
fn close_gracefully_when_configured() {
    let mut wm = manager();
    wm.set_graceful_close(true);
    wm.handle_event(&Event::MapRequest { window: 1 });
    let r = wm.handle_message(&Message::CloseWindow);
    assert_eq!(r, vec![Request::Close { window: 1 }]);
    assert!(wm.windows().is_empty());
    assert_eq!(wm.focused(), None);
}

#[test]
fn close_without_focus_issues_nothing() {
    let mut wm = manager();
    assert!(wm.handle_message(&Message::CloseWindow).is_empty());
}

#[test]
fn map_request_places_colours_and_maps() {
    let mut wm = manager();
    let r = wm.handle_event(&Event::MapRequest { window: 9 });
    assert_eq!(
        r,
        vec![
            Request::Configure {
                window: 9,
                changes: WindowChanges {
                    x: Some(16),
                    y: Some(16),
                    width: Some(768),
                    height: Some(568),
                    border_width: Some(0),
                    ..none()
                },
            },
            Request::SetBorderColor { window: 9, color: Color::midnight_blue() },
            Request::MapWindow { window: 9 },
        ]
    );
    assert_eq!(wm.windows(), &vec![9]);
    assert_eq!(wm.focused(), Some(9));
}

#[test]
fn map_request_uses_current_border() {
    let mut wm = manager();
    wm.handle_message(&Message::SetBorderWidth { width: 3 });
    wm.handle_message(&Message::SetBorderColor { color: Color::rgb(1, 2, 3) });
    let r = wm.handle_event(&Event::MapRequest { window: 9 });
    assert_eq!(
        r[0],
        Request::Configure {
            window: 9,
            changes: WindowChanges {
                x: Some(16),
                y: Some(16),
                width: Some(762),
                height: Some(562),
                border_width: Some(3),
                ..none()
            },
        }
    );
    assert_eq!(r[1], Request::SetBorderColor { window: 9, color: Color::rgb(1, 2, 3) });
}

#[test]
fn stacking_layout_does_not_place() {
    let mut wm = manager();
    wm.set_layout(LayoutMode::Stacking);
    let r = wm.handle_event(&Event::MapRequest { window: 9 });
    assert_eq!(
        r,
        vec![
            Request::SetBorderColor { window: 9, color: Color::midnight_blue() },
            Request::MapWindow { window: 9 },
        ]
    );
}

#[test]
fn remapping_managed_window_does_not_duplicate() {
    let mut wm = manager();
    wm.handle_event(&Event::MapRequest { window: 1 });
    wm.handle_event(&Event::MapRequest { window: 2 });
    wm.handle_event(&Event::MapRequest { window: 1 });
    assert_eq!(wm.windows(), &vec![1, 2]);
    assert_eq!(wm.focused(), Some(1));
}

#[test]
fn set_border_width_asks_to_reborder_each() {
    let mut wm = manager();
    wm.handle_event(&Event::MapRequest { window: 1 });
    wm.handle_event(&Event::MapRequest { window: 2 });
    let r = wm.handle_message(&Message::SetBorderWidth { width: 6 });
    assert_eq!(
        r,
        vec![
            Request::Reborder { window: 1, border_width: 6 },
            Request::Reborder { window: 2, border_width: 6 },
        ]
    );
    assert_eq!(wm.border_width(), 6);
}

#[test]
fn set_border_color_recolours_each() {
    let mut wm = manager();
    wm.handle_event(&Event::MapRequest { window: 1 });
    wm.handle_event(&Event::MapRequest { window: 2 });
    let c = Color::rgb(255, 0, 0);
    let r = wm.handle_message(&Message::SetBorderColor { color: c });
    assert_eq!(
        r,
        vec![
            Request::SetBorderColor { window: 1, color: c },
            Request::SetBorderColor { window: 2, color: c },
        ]
    );
    assert_eq!(wm.border_color(), c);
}

#[test]
fn quit_destroys_windows_then_meta() {
    let mut wm = manager();
    wm.handle_event(&Event::MapRequest { window: 1 });
    wm.handle_event(&Event::MapRequest { window: 2 });
    let r = wm.handle_message(&Message::Quit);
    assert_eq!(
        r,
        vec![
            Request::Destroy { window: 1 },
            Request::Destroy { window: 2 },
            Request::Destroy { window: META },
        ]
    );
}

#[test]
fn configure_request_passes_through_asked_fields() {
    let c = ConfigureRequest {
        window: 4,
        x: -5,
        y: 6,
        width: 70,
        height: 80,
        border_width: 2,
        sibling: 11,
        stack_mode: StackMode::Below,
        value_mask: CONFIG_X | CONFIG_HEIGHT | CONFIG_SIBLING | CONFIG_STACK_MODE,
    };
    assert_eq!(
        configure_changes(&c),
        WindowChanges {
            x: Some(-5),
            height: Some(80),
            sibling: Some(11),
            stack_mode: Some(StackMode::Below),
            ..none()
        }
    );
    let mut wm = manager();
    let r = wm.handle_event(&Event::ConfigureRequest(c));
    assert_eq!(
        r,
        vec![
            Request::Configure { window: 4, changes: configure_changes(&c) },
            Request::WatchWindow { window: 4 },
        ]
    );
    assert!(wm.windows().is_empty());
}

#[test]
fn button_one_over_child_focuses_it() {
    let mut wm = manager();
    wm.handle_event(&Event::MapRequest { window: 1 });
    assert!(wm.handle_event(&Event::ButtonPress { detail: 3, child: 42 }).is_empty());
    assert_eq!(wm.focused(), Some(1));
    assert!(wm.handle_event(&Event::ButtonPress { detail: 1, child: 0 }).is_empty());
    assert_eq!(wm.focused(), Some(1));
    assert!(wm.handle_event(&Event::ButtonPress { detail: 1, child: 42 }).is_empty());
    assert_eq!(wm.focused(), Some(42));
}

#[test]
fn motion_and_other_events_are_inert() {
    let mut wm = manager();
    assert!(wm.handle_event(&Event::MotionNotify).is_empty());
    assert!(wm.handle_event(&Event::Other).is_empty());
    assert!(wm.windows().is_empty());
    assert_eq!(wm.focused(), None);
}
