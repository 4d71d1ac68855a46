//! Renderer-agnostic draw-primitive composition: one ordered sequence of
//! drawable primitives per mapped window per frame, optionally preceded by a
//! debug-overlay primitive.

use vstd::prelude::*;

use crate::geometry::{Point, Rectangle, Scale, Size};
use crate::mapped::{CosmicMapped, CosmicMappedInternal};
use crate::toplevel::{CommitDamage, Toplevel, ToplevelState};
use crate::window::HeaderBar;

verus! {

/// How an element's content is oriented when drawn.
#[derive(Clone, Copy, Debug, PartialEq, Eq, Structural)]
pub enum Transform {
    Normal,
    Rotated90,
    Rotated180,
    Rotated270,
}

/// The damage and geometry metadata every drawable primitive carries for
/// the compositing pass.
#[derive(Debug)]
pub struct ElementData {
    /// Stable identity of the primitive.
    pub id: u64,
    /// Commit counter of the content the primitive draws.
    pub commit: u64,
    /// Source rectangle, in buffer coordinates.
    pub src: Rectangle,
    /// Placement location, in physical coordinates.
    pub loc: Point,
    /// Content size, in logical coordinates; scaled when queried.
    pub size: Size,
    /// Orientation of the content.
    pub transform: Transform,
    /// Regions known to be opaque, in logical coordinates.
    pub opaque_regions: Vec<Rectangle>,
    /// Damage accumulated per commit, in logical coordinates.
    pub damage: Vec<CommitDamage>,
    /// Backing buffer, when the primitive draws a client buffer directly.
    pub storage: Option<u64>,
}

/// What the debug overlay depicts for the active window.
#[derive(Debug)]
pub struct OverlayContent {
    pub title: Option<String>,
    pub app_id: Option<String>,
    /// The active window's acknowledged configuration, one glyph per flag.
    pub states: ToplevelState,
    /// Declared size constraints and current size, contrasted as rectangles.
    pub min_size: Size,
    pub max_size: Size,
    pub size: Size,
}

/// The debug-overlay primitive: ordinary element metadata plus what the
/// overlay depicts.
#[derive(Debug)]
pub struct OverlayElement {
    pub data: ElementData,
    pub content: OverlayContent,
}

/// One drawable primitive of a mapped window, tagged with the shape it came
/// from.
#[derive(Debug)]
pub enum CosmicMappedRenderElement {
    Stack(ElementData),
    Window(ElementData),
    Overlay(OverlayElement),
}

/// The rectangles of damage newer than the given commit, in order.
pub open spec fn damage_filter(damage: Seq<CommitDamage>, since: u64) -> Seq<Rectangle>
    decreases damage.len(),
{
    if damage.len() == 0 {
        Seq::empty()
    } else {
        let rest = damage_filter(damage.drop_last(), since);
        if damage.last().commit > since {
            rest.push(damage.last().rect)
        } else {
            rest
        }
    }
}

impl CosmicMappedRenderElement {
    /// The metadata of the primitive, whichever shape carries it.
    pub open spec fn spec_data(self) -> ElementData {
        match self {
            CosmicMappedRenderElement::Stack(d) => d,
            CosmicMappedRenderElement::Window(d) => d,
            CosmicMappedRenderElement::Overlay(o) => o.data,
        }
    }

    /// The metadata of the primitive.
    pub fn data(&self) -> (r: &ElementData)
        ensures
            *r == self.spec_data(),
    {
        match self {
            CosmicMappedRenderElement::Stack(d) => d,
            CosmicMappedRenderElement::Window(d) => d,
            CosmicMappedRenderElement::Overlay(o) => &o.data,
        }
    }

    /// Stable identity of the primitive.
    pub fn id(&self) -> (r: u64)
        ensures
            r == self.spec_data().id,
    {
        self.data().id
    }

    /// Commit counter of the content the primitive draws.
    pub fn current_commit(&self) -> (r: u64)
        ensures
            r == self.spec_data().commit,
    {
        self.data().commit
    }

    /// Source rectangle, in buffer coordinates.
    pub fn src(&self) -> (r: Rectangle)
        ensures
            r == self.spec_data().src,
    {
        self.data().src
    }

    /// Placement location in physical coordinates; already scaled when the
    /// primitive was composed.
    #[allow(unused_variables)]
    pub fn location(&self, scale: Scale) -> (r: Point)
        ensures
            r == self.spec_data().loc,
    {
        self.data().loc
    }

    /// Orientation of the content.
    pub fn transform(&self) -> (r: Transform)
        ensures
            r == self.spec_data().transform,
    {
        self.data().transform
    }

    /// Physical geometry of the primitive: its placement location plus its
    /// content size scaled per axis.
    pub fn geometry(&self, scale: Scale) -> (r: Rectangle)
        requires
            1 <= scale.x,
            1 <= scale.y,
            0 <= self.spec_data().size.w,
            0 <= self.spec_data().size.h,
            self.spec_data().size.w * scale.x <= i32::MAX,
            self.spec_data().size.h * scale.y <= i32::MAX,
        ensures
            r.loc == self.spec_data().loc,
            r.size.w == self.spec_data().size.w * scale.x,
            r.size.h == self.spec_data().size.h * scale.y,
    {
        let d = self.data();
        proof {
            assert(d.size.w * scale.x >= 0) by (nonlinear_arith)
                requires
                    d.size.w >= 0,
                    scale.x >= 1,
            ;
            assert(d.size.h * scale.y >= 0) by (nonlinear_arith)
                requires
                    d.size.h >= 0,
                    scale.y >= 1,
            ;
        }
        let w = d.size.w * scale.x;
        let h = d.size.h * scale.y;
        Rectangle { loc: d.loc, size: Size { w, h } }
    }

    /// Damage accumulated since the given commit; with no commit to compare
    /// against, the whole content counts as damaged.
    pub fn damage_since(&self, commit: Option<u64>) -> (r: Vec<Rectangle>)
        ensures
            r@ == match commit {
                Some(c) => damage_filter(self.spec_data().damage@, c),
                None => seq![
                    (Rectangle { loc: Point { x: 0, y: 0 }, size: self.spec_data().size }),
                ],
            },
    {
        let d = self.data();
        match commit {
            None => {
                let full = Rectangle { loc: Point { x: 0, y: 0 }, size: d.size };
                let mut v: Vec<Rectangle> = Vec::new();
                v.push(full);
                proof {
                    assert(v@ =~= seq![full]);
                }
                v
            },
            Some(c) => {
                let n = d.damage.len();
                let mut v: Vec<Rectangle> = Vec::new();
                let mut i: usize = 0;
                while i < n
                    invariant
                        n == d.damage@.len(),
                        i <= n,
                        v@ == damage_filter(d.damage@.take(i as int), c),
                    decreases n - i,
                {
                    proof {
                        assert(d.damage@.take(i as int + 1).drop_last() =~= d.damage@.take(
                            i as int,
                        ));
                        assert(d.damage@.take(i as int + 1).last() == d.damage@[i as int]);
                    }
                    if d.damage[i].commit > c {
                        v.push(d.damage[i].rect);
                    }
                    i += 1;
                }
                proof {
                    assert(d.damage@.take(n as int) =~= d.damage@);
                }
                v
            },
        }
    }

    /// Regions of the primitive known to be opaque.
    pub fn opaque_regions(&self) -> (r: Vec<Rectangle>)
        ensures
            r@ == self.spec_data().opaque_regions@,
    {
        copy_vec(&self.data().opaque_regions)
    }

    /// The client buffer backing the primitive, if it draws one directly;
    /// compositor-drawn primitives (header, overlay) have none.
    pub fn underlying_storage(&self) -> (r: Option<u64>)
        ensures
            r == self.spec_data().storage,
    {
        self.data().storage
    }
}

/// Copies a vector of plain values.
fn copy_vec<T: Copy>(v: &Vec<T>) -> (r: Vec<T>)
    ensures
        r@ == v@,
{
    let n = v.len();
    let mut r: Vec<T> = Vec::new();
    let mut i: usize = 0;
    while i < n
        invariant
            n == v@.len(),
            i <= n,
            r@ == v@.take(i as int),
        decreases n - i,
    {
        proof {
            assert(v@.take(i as int + 1) =~= v@.take(i as int).push(v@[i as int]));
        }
        r.push(v[i]);
        i += 1;
    }
    proof {
        assert(v@.take(n as int) =~= v@);
    }
    r
}

/// Clones an optional string.
fn clone_opt_string(s: &Option<String>) -> (r: Option<String>)
    ensures
        r == *s,
{
    match s {
        Some(x) => Some(x.clone()),
        None => None,
    }
}

/// The primitive drawing one constituent window's content: placed below the
/// shared header, carrying the window's own damage and opacity metadata and
/// its attached buffer.
pub open spec fn is_content_element(
    d: ElementData,
    t: Toplevel,
    header_height: int,
    location: Point,
    scale: Scale,
) -> bool {
    &&& d.id == t.surface
    &&& d.commit == t.commit
    &&& d.src == (Rectangle { loc: Point { x: 0, y: 0 }, size: t.size })
    &&& d.loc.x == location.x
    &&& d.loc.y == location.y + header_height * scale.y
    &&& d.size == t.size
    &&& d.transform is Normal
    &&& d.opaque_regions@ == t.opaque_regions@
    &&& d.damage@ == t.damage@
    &&& d.storage == t.buffer
}

/// The primitive drawing the shared decoration header: compositor-drawn,
/// opaque, spanning the content width at the placement location.
pub open spec fn is_header_element(
    d: ElementData,
    h: HeaderBar,
    width: i32,
    location: Point,
) -> bool {
    &&& d.id == h.id
    &&& d.commit == 0
    &&& d.src == (Rectangle {
        loc: Point { x: 0, y: 0 },
        size: Size { w: width, h: h.height },
    })
    &&& d.loc == location
    &&& d.size == (Size { w: width, h: h.height })
    &&& d.transform is Normal
    &&& d.opaque_regions@ == seq![
        (Rectangle { loc: Point { x: 0, y: 0 }, size: Size { w: width, h: h.height } }),
    ]
    &&& d.damage@ == Seq::<CommitDamage>::empty()
    &&& d.storage is None
}

/// The debug-overlay primitive for the active window: translucent,
/// compositor-drawn, covering header and content, depicting the window's
/// title, application identifier, acknowledged state flags and size
/// constraints.
pub open spec fn is_overlay_element(
    o: OverlayElement,
    t: Toplevel,
    header_height: int,
    location: Point,
) -> bool {
    &&& o.data.id == t.surface
    &&& o.data.commit == t.commit
    &&& o.data.src == (Rectangle {
        loc: Point { x: 0, y: 0 },
        size: Size { w: t.size.w, h: (t.size.h + header_height) as i32 },
    })
    &&& o.data.loc == location
    &&& o.data.size == (Size { w: t.size.w, h: (t.size.h + header_height) as i32 })
    &&& o.data.transform is Normal
    &&& o.data.opaque_regions@ == Seq::<Rectangle>::empty()
    &&& o.data.damage@ == Seq::<CommitDamage>::empty()
    &&& o.data.storage is None
    &&& o.content.title == t.title
    &&& o.content.app_id == t.app_id
    &&& o.content.states == t.current
    &&& o.content.min_size == t.min_size
    &&& o.content.max_size == t.max_size
    &&& o.content.size == t.size
}

/// Builds the content primitive for one constituent window.
fn content_data(t: &Toplevel, header_height: i32, location: Point, scale: Scale) -> (d: ElementData)
    requires
        header_height >= 0,
        scale.y >= 1,
        location.y + header_height * scale.y <= i32::MAX,
    ensures
        is_content_element(d, *t, header_height as int, location, scale),
{
    proof {
        assert(header_height * scale.y >= 0) by (nonlinear_arith)
            requires
                header_height >= 0,
                scale.y >= 1,
        ;
    }
    let y64: i64 = location.y as i64 + (header_height as i64) * (scale.y as i64);
    let y: i32 = y64 as i32;
    ElementData {
        id: t.surface,
        commit: t.commit,
        src: Rectangle { loc: Point { x: 0, y: 0 }, size: t.size },
        loc: Point { x: location.x, y },
        size: t.size,
        transform: Transform::Normal,
        opaque_regions: copy_vec(&t.opaque_regions),
        damage: copy_vec(&t.damage),
        storage: t.buffer,
    }
}

/// Builds the header primitive for the shared decoration.
fn header_data(h: &HeaderBar, width: i32, location: Point) -> (d: ElementData)
    ensures
        is_header_element(d, *h, width, location),
{
    let size = Size { w: width, h: h.height };
    let full = Rectangle { loc: Point { x: 0, y: 0 }, size };
    let mut opaque: Vec<Rectangle> = Vec::new();
    opaque.push(full);
    proof {
        assert(opaque@ =~= seq![full]);
    }
    ElementData {
        id: h.id,
        commit: 0,
        src: full,
        loc: location,
        size,
        transform: Transform::Normal,
        opaque_regions: opaque,
        damage: Vec::new(),
        storage: None,
    }
}

/// Builds the debug-overlay primitive for the active window.
fn overlay_element(t: &Toplevel, header_height: i32, location: Point) -> (o: OverlayElement)
    requires
        header_height >= 0,
        t.size.h >= 0,
        t.size.h + header_height <= i32::MAX,
    ensures
        is_overlay_element(o, *t, header_height as int, location),
{
    let size = Size { w: t.size.w, h: t.size.h + header_height };
    let data = ElementData {
        id: t.surface,
        commit: t.commit,
        src: Rectangle { loc: Point { x: 0, y: 0 }, size },
        loc: location,
        size,
        transform: Transform::Normal,
        opaque_regions: Vec::new(),
        damage: Vec::new(),
        storage: None,
    };
    let content = OverlayContent {
        title: clone_opt_string(&t.title),
        app_id: clone_opt_string(&t.app_id),
        states: t.current,
        min_size: t.min_size,
        max_size: t.max_size,
        size: t.size,
    };
    OverlayElement { data, content }
}

impl CosmicMapped {
    /// Bounds the placement arithmetic of one composition must stay inside.
    pub open spec fn render_in_bounds(self, location: Point, scale: Scale) -> bool {
        &&& 1 <= scale.x
        &&& 1 <= scale.y
        &&& self.active().size.h + self.header_height() <= i32::MAX
        &&& location.y + self.header_height() * scale.y <= i32::MAX
    }

    /// Composes the ordered drawable-primitive sequence for one frame: the
    /// debug-overlay primitive first, when the overlay is enabled, then the
    /// shared header, when one is attached, then the active constituent's
    /// content. Each constituent primitive is tagged with the shape it came
    /// from.
    pub fn render_elements(&self, location: Point, scale: Scale) -> (v: Vec<
        CosmicMappedRenderElement,
    >)
        requires
            self.wf(),
            self.render_in_bounds(location, scale),
        ensures
            v@.len() == (if self.debug is Some { 1int } else { 0 }) + (if self.header() is Some {
                1int
            } else {
                0
            }) + 1,
            self.debug is Some ==> v@[0] is Overlay && is_overlay_element(
                v@[0]->Overlay_0,
                self.active(),
                self.header_height(),
                location,
            ),
            self.header() matches Some(h) ==> ({
                let k: int = if self.debug is Some { 1 } else { 0 };
                &&& is_header_element(v@[k].spec_data(), h, self.active().size.w, location)
                &&& (self.is_stack() ==> v@[k] is Stack)
                &&& (!self.is_stack() ==> v@[k] is Window)
            }),
            ({
                let k: int = (if self.debug is Some { 1int } else { 0 }) + (
                if self.header() is Some { 1int } else { 0 });
                &&& is_content_element(
                    v@[k].spec_data(),
                    self.active(),
                    self.header_height(),
                    location,
                    scale,
                )
                &&& (self.is_stack() ==> v@[k] is Stack)
                &&& (!self.is_stack() ==> v@[k] is Window)
            }),
    {
        let mut v: Vec<CosmicMappedRenderElement> = Vec::new();
        let hh = self.current_header_height();
        if self.debug.is_some() {
            let active = self.active_window();
            v.push(CosmicMappedRenderElement::Overlay(overlay_element(active, hh, location)));
        }
        match &self.element {
            CosmicMappedInternal::Window(w) => {
                if let Some(h) = &w.header {
                    v.push(
                        CosmicMappedRenderElement::Window(
                            header_data(h, w.window.size.w, location),
                        ),
                    );
                }
                v.push(
                    CosmicMappedRenderElement::Window(content_data(&w.window, hh, location, scale)),
                );
            },
            CosmicMappedInternal::Stack(s) => {
                let a = s.active;
                if let Some(h) = &s.header {
                    v.push(
                        CosmicMappedRenderElement::Stack(
                            header_data(h, s.windows[a].size.w, location),
                        ),
                    );
                }
                v.push(
                    CosmicMappedRenderElement::Stack(
                        content_data(&s.windows[a], hh, location, scale),
                    ),
                );
            },
        }
        v
    }
}

} // verus!
