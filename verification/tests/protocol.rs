use cosmic_mapped::geometry::Size;
use cosmic_mapped::mapped::{CosmicMapped, CosmicMappedInternal};
use cosmic_mapped::window::HeaderBar;
use cosmic_mapped::stack::CosmicStack;
use cosmic_mapped::toplevel::{Toplevel, ToplevelState};
use cosmic_mapped::window::CosmicWindow;

fn mk(surface: u64) -> Toplevel {
    Toplevel {
        surface,
        client: 1,
        title: None,
        app_id: None,
        subsurfaces: Vec::new(),
        popups: Vec::new(),
        min_size: Size { w: 0, h: 0 },
        max_size: Size { w: 0, h: 0 },
        size: Size { w: 640, h: 480 },
        buffer: None,
        commit: 0,
        damage: Vec::new(),
        opaque_regions: Vec::new(),
        current: ToplevelState::empty(),
        pending: ToplevelState::empty(),
        pending_size: None,
        sent_configure: None,
        close_requested: false,
    }
}

fn stack3(active: usize) -> CosmicMapped {
    CosmicMapped::from_stack(CosmicStack::new(vec![mk(1), mk(2), mk(3)], active, None))
}

fn tabs(m: &CosmicMapped) -> &Vec<Toplevel> {
    match &m.element {
        CosmicMappedInternal::Stack(s) => &s.windows,
        CosmicMappedInternal::Window(_) => panic!("expected a stack"),
    }
}

/// Pending-state visibility: a toggle reads back as set before any
/// acknowledgement, for each of the four shared flags.
#[test]
fn set_then_is_visible_before_ack() {
    let mut m = stack3(1);
    assert!(!m.is_activated() && !m.is_maximized() && !m.is_fullscreen() && !m.is_resizing());
    m.set_activated(true);
    assert!(m.is_activated());
    m.set_maximized(true);
    assert!(m.is_maximized());
    m.set_fullscreen(true);
    assert!(m.is_fullscreen());
    m.set_resizing(true);
    assert!(m.is_resizing());
}

#[test]
fn set_state_fans_out_to_every_tab() {
    let mut m = stack3(0);
    m.set_fullscreen(true);
    for t in tabs(&m) {
        assert!(t.pending.fullscreen);
        assert!(!t.current.fullscreen);
    }
    m.set_fullscreen(false);
    for t in tabs(&m) {
        assert!(!t.pending.fullscreen);
    }
}

#[test]
fn is_state_reads_current_after_ack() {
    let mut m = stack3(2);
    m.set_maximized(true);
    m.configure();
    match &mut m.element {
        CosmicMappedInternal::Stack(s) => {
            for t in s.windows.iter_mut() {
                t.ack_configure();
            }
        }
        CosmicMappedInternal::Window(_) => unreachable!(),
    }
    for t in tabs(&m) {
        assert!(t.current.maximized);
    }
    // Still visible after the pending flag is withdrawn but before the
    // client acknowledges the withdrawal.
    m.set_maximized(false);
    assert!(m.is_maximized());
}

#[test]
fn configure_reaches_every_tab() {
    let mut m = stack3(0);
    m.set_activated(true);
    m.configure();
    for t in tabs(&m) {
        let sent = t.sent_configure.expect("configure was sent");
        assert!(sent.activated);
    }
}

/// Example C: closing a three-tab stack asks only the active tab to close;
/// the two others stay enumerable.
#[test]
fn send_close_hits_active_tab_only() {
    let mut m = stack3(1);
    m.send_close();
    let ts = tabs(&m);
    assert!(!ts[0].close_requested);
    assert!(ts[1].close_requested);
    assert!(!ts[2].close_requested);
    let listed = m.windows();
    assert_eq!(listed.len(), 3);
    let ids: Vec<u64> = listed.iter().map(|(s, _)| *s).collect();
    assert_eq!(ids, vec![1, 2, 3]);
}

#[test]
fn set_tiled_is_noop_on_stacks() {
    let mut m = stack3(0);
    m.set_tiled(true);
    for t in tabs(&m) {
        assert!(!t.pending.tiled_left && !t.pending.tiled_right);
        assert!(!t.pending.tiled_top && !t.pending.tiled_bottom);
    }
    assert!(!m.is_tiled());
}

#[test]
fn set_tiled_sets_all_edges_on_single_windows() {
    let mut m = CosmicMapped::from_window(CosmicWindow::new(mk(9)));
    m.set_tiled(true);
    match &m.element {
        CosmicMappedInternal::Window(w) => {
            assert!(w.window.pending.tiled_left && w.window.pending.tiled_right);
            assert!(w.window.pending.tiled_top && w.window.pending.tiled_bottom);
        }
        CosmicMappedInternal::Stack(_) => unreachable!(),
    }
    // The tiled hint reads from the acknowledged state only.
    assert!(!m.is_tiled());
    m.configure();
    match &mut m.element {
        CosmicMappedInternal::Window(w) => w.window.ack_configure(),
        CosmicMappedInternal::Stack(_) => unreachable!(),
    }
    assert!(m.is_tiled());
}

#[test]
fn set_size_subtracts_header_height() {
    let m0 = CosmicStack::new(vec![mk(1), mk(2)], 0, Some(HeaderBar { id: 100, height: 24 }));
    let mut m = CosmicMapped::from_stack(m0);
    m.set_size(Size { w: 800, h: 600 });
    for t in tabs(&m) {
        assert_eq!(t.pending_size, Some(Size { w: 800, h: 576 }));
    }
    // A request smaller than the header leaves no content height.
    m.set_size(Size { w: 800, h: 10 });
    for t in tabs(&m) {
        assert_eq!(t.pending_size, Some(Size { w: 800, h: 0 }));
    }
}
