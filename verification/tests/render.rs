use cosmic_mapped::geometry::{Point, Rectangle, Scale, Size};
use cosmic_mapped::mapped::CosmicMapped;
use cosmic_mapped::render::{CosmicMappedRenderElement, Transform};
use cosmic_mapped::stack::CosmicStack;
use cosmic_mapped::toplevel::{CommitDamage, Toplevel, ToplevelState};
use cosmic_mapped::window::{CosmicWindow, HeaderBar};

fn mk(surface: u64) -> Toplevel {
    Toplevel {
        surface,
        client: 1,
        title: Some(String::from("editor")),
        app_id: Some(String::from("org.example.editor")),
        subsurfaces: Vec::new(),
        popups: Vec::new(),
        min_size: Size { w: 100, h: 100 },
        max_size: Size { w: 800, h: 800 },
        size: Size { w: 400, h: 300 },
        buffer: Some(7000 + surface),
        commit: 5,
        damage: vec![
            CommitDamage {
                commit: 4,
                rect: Rectangle { loc: Point { x: 0, y: 0 }, size: Size { w: 10, h: 10 } },
            },
            CommitDamage {
                commit: 5,
                rect: Rectangle { loc: Point { x: 20, y: 20 }, size: Size { w: 30, h: 30 } },
            },
        ],
        opaque_regions: vec![Rectangle {
            loc: Point { x: 0, y: 0 },
            size: Size { w: 400, h: 300 },
        }],
        current: ToplevelState::empty(),
        pending: ToplevelState::empty(),
        pending_size: None,
        sent_configure: None,
        close_requested: false,
    }
}

fn scale1() -> Scale {
    Scale { x: 1, y: 1 }
}

#[test]
fn stack_composes_header_then_active_content() {
    let m = CosmicMapped::from_stack(CosmicStack::new(
        vec![mk(1), mk(2)],
        1,
        Some(HeaderBar { id: 900, height: 24 }),
    ));
    let v = m.render_elements(Point { x: 100, y: 200 }, scale1());
    assert_eq!(v.len(), 2);
    match &v[0] {
        CosmicMappedRenderElement::Stack(d) => {
            assert_eq!(d.id, 900);
            assert_eq!(d.loc, Point { x: 100, y: 200 });
            assert_eq!(d.size, Size { w: 400, h: 24 });
            assert_eq!(d.storage, None);
            // The compositor-drawn header is fully opaque.
            assert_eq!(d.opaque_regions.len(), 1);
        }
        _ => panic!("expected a header primitive from the stack"),
    }
    match &v[1] {
        CosmicMappedRenderElement::Stack(d) => {
            assert_eq!(d.id, 2);
            assert_eq!(d.loc, Point { x: 100, y: 224 });
            assert_eq!(d.size, Size { w: 400, h: 300 });
            assert_eq!(d.storage, Some(7002));
        }
        _ => panic!("expected the active tab's content primitive"),
    }
}

#[test]
fn undecorated_single_window_composes_content_only() {
    let m = CosmicMapped::from_window(CosmicWindow::new(mk(4)));
    let v = m.render_elements(Point { x: 0, y: 0 }, Scale { x: 2, y: 2 });
    assert_eq!(v.len(), 1);
    match &v[0] {
        CosmicMappedRenderElement::Window(d) => {
            assert_eq!(d.id, 4);
            assert_eq!(d.loc, Point { x: 0, y: 0 });
        }
        _ => panic!("expected a window content primitive"),
    }
}

#[test]
fn debug_overlay_comes_first_and_describes_active_window() {
    let mut m = CosmicMapped::from_stack(CosmicStack::new(
        vec![mk(1), mk(2)],
        0,
        Some(HeaderBar { id: 900, height: 24 }),
    ));
    m.set_debug(true);
    let v = m.render_elements(Point { x: 0, y: 0 }, scale1());
    assert_eq!(v.len(), 3);
    match &v[0] {
        CosmicMappedRenderElement::Overlay(o) => {
            assert_eq!(o.data.id, 1);
            assert_eq!(o.data.size, Size { w: 400, h: 324 });
            assert_eq!(o.data.storage, None);
            assert_eq!(o.content.title.as_deref(), Some("editor"));
            assert_eq!(o.content.app_id.as_deref(), Some("org.example.editor"));
            assert_eq!(o.content.min_size, Size { w: 100, h: 100 });
            assert_eq!(o.content.max_size, Size { w: 800, h: 800 });
            assert_eq!(o.content.size, Size { w: 400, h: 300 });
        }
        _ => panic!("expected the overlay primitive first"),
    }
    m.set_debug(false);
    let v = m.render_elements(Point { x: 0, y: 0 }, scale1());
    assert_eq!(v.len(), 2);
    assert!(matches!(v[0], CosmicMappedRenderElement::Stack(_)));
}

#[test]
fn element_metadata_queries() {
    let m = CosmicMapped::from_window(CosmicWindow::new(mk(4)));
    let v = m.render_elements(Point { x: 10, y: 20 }, scale1());
    let e = &v[0];
    assert_eq!(e.id(), 4);
    assert_eq!(e.current_commit(), 5);
    assert_eq!(e.transform(), Transform::Normal);
    assert_eq!(
        e.src(),
        Rectangle { loc: Point { x: 0, y: 0 }, size: Size { w: 400, h: 300 } }
    );
    assert_eq!(e.location(scale1()), Point { x: 10, y: 20 });
    assert_eq!(e.underlying_storage(), Some(7004));
    assert_eq!(e.opaque_regions().len(), 1);

    let g = e.geometry(Scale { x: 2, y: 3 });
    assert_eq!(g.loc, Point { x: 10, y: 20 });
    assert_eq!(g.size, Size { w: 800, h: 900 });
}

#[test]
fn damage_since_filters_by_commit() {
    let m = CosmicMapped::from_window(CosmicWindow::new(mk(4)));
    let v = m.render_elements(Point { x: 0, y: 0 }, scale1());
    let e = &v[0];

    // No commit to compare against: the whole content is damaged.
    let full = e.damage_since(None);
    assert_eq!(
        full,
        vec![Rectangle { loc: Point { x: 0, y: 0 }, size: Size { w: 400, h: 300 } }]
    );

    // Only damage newer than the given commit is reported.
    let since4 = e.damage_since(Some(4));
    assert_eq!(
        since4,
        vec![Rectangle { loc: Point { x: 20, y: 20 }, size: Size { w: 30, h: 30 } }]
    );
    let since3 = e.damage_since(Some(3));
    assert_eq!(since3.len(), 2);
    let since5 = e.damage_since(Some(5));
    assert!(since5.is_empty());
}
