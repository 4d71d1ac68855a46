use cosmic_mapped::geometry::{Point, Rectangle, Size};
use cosmic_mapped::mapped::{CosmicMapped, ResizeData, ResizeEdges, ResizeState, WindowSurfaceType};
use cosmic_mapped::stack::CosmicStack;
use cosmic_mapped::toplevel::{Toplevel, ToplevelState};
use cosmic_mapped::window::{CosmicWindow, HeaderBar};

fn mk(surface: u64) -> Toplevel {
    Toplevel {
        surface,
        client: 1,
        title: None,
        app_id: None,
        subsurfaces: Vec::new(),
        popups: Vec::new(),
        min_size: Size { w: 0, h: 0 },
        max_size: Size { w: 0, h: 0 },
        size: Size { w: 500, h: 400 },
        buffer: None,
        commit: 0,
        damage: Vec::new(),
        opaque_regions: Vec::new(),
        current: ToplevelState::empty(),
        pending: ToplevelState::empty(),
        pending_size: None,
        sent_configure: None,
        close_requested: false,
    }
}

fn toplevel_only() -> WindowSurfaceType {
    WindowSurfaceType { toplevel: true, subsurface: false, popup: false }
}

#[test]
fn windows_lists_tabs_with_header_offset() {
    let m = CosmicMapped::from_stack(CosmicStack::new(
        vec![mk(1), mk(2)],
        0,
        Some(HeaderBar { id: 50, height: 30 }),
    ));
    let listed = m.windows();
    assert_eq!(listed.len(), 2);
    assert_eq!(listed[0], (1, Point { x: 0, y: 30 }));
    assert_eq!(listed[1], (2, Point { x: 0, y: 30 }));
}

#[test]
fn windows_without_header_offsets_by_zero() {
    let m = CosmicMapped::from_window(CosmicWindow::new(mk(4)));
    let listed = m.windows();
    assert_eq!(listed, vec![(4, Point { x: 0, y: 0 })]);
}

#[test]
fn active_window_offset_places_content_below_header() {
    let m = CosmicMapped::from_stack(CosmicStack::new(
        vec![mk(1), mk(2)],
        1,
        Some(HeaderBar { id: 50, height: 24 }),
    ));
    let r = m.active_window_offset();
    assert_eq!(
        r,
        Rectangle { loc: Point { x: 0, y: 24 }, size: Size { w: 500, h: 400 } }
    );
}

/// The surface of every tab is found under the top-level kind, and an
/// unrelated surface is not.
#[test]
fn has_surface_finds_every_tab_toplevel() {
    let m = CosmicMapped::from_stack(CosmicStack::new(vec![mk(1), mk(2), mk(3)], 0, None));
    for s in [1u64, 2, 3] {
        assert!(m.has_surface(s, toplevel_only()));
    }
    assert!(!m.has_surface(99, toplevel_only()));
}

#[test]
fn has_surface_respects_query_kinds() {
    let mut a = mk(1);
    a.subsurfaces = vec![11, 12];
    a.popups = vec![21];
    let m = CosmicMapped::from_stack(CosmicStack::new(vec![a, mk(2)], 0, None));

    let sub_only = WindowSurfaceType { toplevel: false, subsurface: true, popup: false };
    let popup_only = WindowSurfaceType { toplevel: false, subsurface: false, popup: true };
    let all = WindowSurfaceType { toplevel: true, subsurface: true, popup: true };

    assert!(m.has_surface(11, sub_only));
    assert!(m.has_surface(12, all));
    assert!(!m.has_surface(11, toplevel_only()));
    assert!(!m.has_surface(11, popup_only));
    assert!(m.has_surface(21, popup_only));
    assert!(!m.has_surface(21, sub_only));
    assert!(m.has_surface(2, all));
    assert!(!m.has_surface(99, all));
}

#[test]
fn auxiliary_state_starts_empty_and_is_stored() {
    let mut m = CosmicMapped::from_window(CosmicWindow::new(mk(1)));
    assert!(m.tiling_node_id().is_none());
    assert_eq!(m.last_geometry(), None);
    assert_eq!(m.resize_state(), None);

    let geo = Rectangle { loc: Point { x: 5, y: 6 }, size: Size { w: 7, h: 8 } };
    m.set_last_geometry(Some(geo));
    assert_eq!(m.last_geometry(), Some(geo));

    let rs = ResizeState::Resizing(ResizeData {
        edges: ResizeEdges { left: true, right: false, top: false, bottom: true },
        initial_window_location: Point { x: 0, y: 0 },
        initial_window_size: Size { w: 100, h: 100 },
    });
    m.set_resize_state(Some(rs));
    assert_eq!(m.resize_state(), Some(rs));
    m.set_resize_state(None);
    assert_eq!(m.resize_state(), None);
}
