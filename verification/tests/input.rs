use cosmic_mapped::geometry::{Point, Size};
use cosmic_mapped::mapped::{CosmicMapped, FocusDirection};
use cosmic_mapped::stack::CosmicStack;
use cosmic_mapped::toplevel::{Toplevel, ToplevelState};
use cosmic_mapped::window::CosmicWindow;

fn mk(surface: u64, client: u64) -> Toplevel {
    Toplevel {
        surface,
        client,
        title: None,
        app_id: None,
        subsurfaces: Vec::new(),
        popups: Vec::new(),
        min_size: Size { w: 0, h: 0 },
        max_size: Size { w: 0, h: 0 },
        size: Size { w: 320, h: 240 },
        buffer: None,
        commit: 0,
        damage: Vec::new(),
        opaque_regions: Vec::new(),
        current: ToplevelState::empty(),
        pending: ToplevelState::empty(),
        pending_size: None,
        sent_configure: None,
        close_requested: false,
    }
}

fn stack3(active: usize) -> CosmicMapped {
    CosmicMapped::from_stack(
        CosmicStack::new(vec![mk(1, 10), mk(2, 10), mk(3, 11)], active, None),
    )
}

/// Pointer enter then leave for one seat: the location is tracked exactly
/// while the pointer is inside.
#[test]
fn cursor_tracked_between_enter_and_leave() {
    let mut m = stack3(0);
    assert_eq!(m.cursor_position(7), None);
    let target = m.pointer_enter(7, Point { x: 30, y: 40 });
    assert_eq!(target, 1);
    assert_eq!(m.cursor_position(7), Some(Point { x: 30, y: 40 }));
    let target = m.pointer_motion(7, Point { x: 31, y: 41 });
    assert_eq!(target, 1);
    assert_eq!(m.cursor_position(7), Some(Point { x: 31, y: 41 }));
    let target = m.pointer_leave(7);
    assert_eq!(target, 1);
    assert_eq!(m.cursor_position(7), None);
}

#[test]
fn cursor_seats_are_independent() {
    let mut m = stack3(1);
    m.pointer_enter(1, Point { x: 1, y: 1 });
    m.pointer_enter(2, Point { x: 2, y: 2 });
    m.pointer_leave(1);
    assert_eq!(m.cursor_position(1), None);
    assert_eq!(m.cursor_position(2), Some(Point { x: 2, y: 2 }));
}

#[test]
fn button_and_axis_leave_cursor_map_alone() {
    let mut m = stack3(2);
    m.pointer_enter(5, Point { x: 9, y: 9 });
    let t1 = m.pointer_button(5, 0x110, true);
    let t2 = m.pointer_axis(5, 0, -10);
    assert_eq!(t1, 3);
    assert_eq!(t2, 3);
    assert_eq!(m.cursor_position(5), Some(Point { x: 9, y: 9 }));
}

#[test]
fn keyboard_events_route_to_active_tab_only() {
    let m = stack3(1);
    assert_eq!(m.keyboard_enter(4), 2);
    assert_eq!(m.key(4, 30, true), 2);
    assert_eq!(m.modifiers(4, 77), 2);
    assert_eq!(m.keyboard_leave(4), 2);
    let single = CosmicMapped::from_window(CosmicWindow::new(mk(8, 12)));
    assert_eq!(single.keyboard_enter(4), 8);
}

#[test]
fn set_active_selects_matching_tab() {
    let mut m = stack3(0);
    m.set_active(3);
    assert_eq!(m.active_window().surface, 3);
    // An unknown surface changes nothing.
    m.set_active(99);
    assert_eq!(m.active_window().surface, 3);
    m.focus_window(2);
    assert_eq!(m.active_window().surface, 2);
    // A single window ignores activation requests.
    let mut single = CosmicMapped::from_window(CosmicWindow::new(mk(8, 12)));
    single.set_active(8);
    assert_eq!(single.active_window().surface, 8);
}

#[test]
fn directional_focus_moves_between_tabs() {
    let mut m = stack3(1);
    assert!(m.handle_focus(FocusDirection::Left));
    assert_eq!(m.active_window().surface, 1);
    assert!(!m.handle_focus(FocusDirection::Left));
    assert!(m.handle_focus(FocusDirection::Right));
    assert!(m.handle_focus(FocusDirection::Right));
    assert_eq!(m.active_window().surface, 3);
    assert!(!m.handle_focus(FocusDirection::Right));
    assert!(!m.handle_focus(FocusDirection::Up));
    assert!(!m.handle_focus(FocusDirection::Down));
    let mut single = CosmicMapped::from_window(CosmicWindow::new(mk(8, 12)));
    assert!(!single.handle_focus(FocusDirection::Left));
}

#[test]
fn same_client_checks_every_tab() {
    let m = stack3(0);
    assert!(m.same_client_as(10));
    assert!(m.same_client_as(11));
    assert!(!m.same_client_as(12));
    let single = CosmicMapped::from_window(CosmicWindow::new(mk(8, 12)));
    assert!(single.same_client_as(12));
    assert!(!single.same_client_as(10));
}

#[test]
fn wl_surface_is_active_tab() {
    let m = stack3(2);
    assert_eq!(m.wl_surface(), Some(3));
}
