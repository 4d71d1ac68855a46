//! The mapped window: a tagged union over a single window and a tabbed
//! stack, together with the auxiliary per-window state the shell keeps
//! (cursor tracking, layout bookkeeping handles, debug overlay state).

use vstd::prelude::*;

use crate::cursor::CursorTracker;
use crate::geometry::{Point, Rectangle, Size, size_max, size_max_spec};
use crate::stack::CosmicStack;
use crate::toplevel::{StateFlag, Toplevel};
use crate::window::{CosmicWindow, HeaderBar};

verus! {

/// Relies on id_tree::NodeId: an opaque handle into the tiling engine's
/// `id_tree::Tree`, stored here only so the tiling engine can find this
/// window's slot again. This declaration lets the handle be carried through
/// verified code; nothing inside it is ever read here.
#[verifier::external_type_specification]
#[verifier::external_body]
pub struct ExNodeId(id_tree::NodeId);

/// Which window edges an interactive resize grabs.
#[derive(Clone, Copy, Debug, PartialEq, Eq, Structural)]
pub struct ResizeEdges {
    pub left: bool,
    pub right: bool,
    pub top: bool,
    pub bottom: bool,
}

/// Geometry captured when an interactive resize of a floating window starts.
#[derive(Clone, Copy, Debug, PartialEq, Eq, Structural)]
pub struct ResizeData {
    pub edges: ResizeEdges,
    pub initial_window_location: Point,
    pub initial_window_size: Size,
}

/// Progress of an interactive resize of a floating window. Written by the
/// floating layout engine; this core only stores it.
#[derive(Clone, Copy, Debug, PartialEq, Eq, Structural)]
pub enum ResizeState {
    Resizing(ResizeData),
    WaitingForFinalAck(ResizeData, u32),
    WaitingForCommit(ResizeData),
}

/// State of the optional debug overlay drawn above a window.
#[derive(Clone, Copy, Debug, PartialEq, Eq, Structural)]
pub struct DebugState {
    /// Where the overlay was initially placed, in logical coordinates.
    pub area: Rectangle,
}

impl DebugState {
    /// The overlay state a fresh toggle starts from.
    pub open spec fn initial_spec() -> DebugState {
        DebugState {
            area: Rectangle {
                loc: Point { x: 10, y: 10 },
                size: Size { w: 100, h: 100 },
            },
        }
    }
}

/// Which kinds of surfaces a containment query should consider.
#[derive(Clone, Copy, Debug, PartialEq, Eq, Structural)]
pub struct WindowSurfaceType {
    /// Match the top-level surface itself.
    pub toplevel: bool,
    /// Match surfaces in the subtree below a top-level surface.
    pub subsurface: bool,
    /// Match popups parented to a top-level surface.
    pub popup: bool,
}

/// A direction in which keyboard focus is asked to move.
#[derive(Clone, Copy, Debug, PartialEq, Eq, Structural)]
pub enum FocusDirection {
    Left,
    Right,
    Up,
    Down,
}

/// The two shapes a mapped window can take.
#[derive(Debug)]
pub enum CosmicMappedInternal {
    Window(CosmicWindow),
    Stack(CosmicStack),
}

/// One mapped window: a single window or a tabbed stack, plus the auxiliary
/// state the shell keeps per window. The layout engines own the meaning of
/// `tiling_node_id`, `last_geometry` and `resize_state`; this core only
/// stores them.
#[derive(Debug)]
pub struct CosmicMapped {
    pub element: CosmicMappedInternal,
    /// Last pointer location per seat whose pointer is inside this window.
    pub last_cursor_position: CursorTracker,
    /// Slot of this window in the tiling engine's tree, if tiled.
    pub tiling_node_id: Option<id_tree::NodeId>,
    /// Floating-mode geometry to restore when the window leaves tiled mode.
    pub last_geometry: Option<Rectangle>,
    /// In-progress interactive resize, if any.
    pub resize_state: Option<ResizeState>,
    /// Debug overlay state, present while the overlay is enabled.
    pub debug: Option<DebugState>,
}

impl CosmicMapped {
    /// Whether this mapped window is a tabbed stack.
    pub open spec fn is_stack(&self) -> bool {
        self.element is Stack
    }

    /// The constituent windows, in tab order; a single window is the
    /// one-element sequence.
    pub open spec fn tabs(&self) -> Seq<Toplevel> {
        match self.element {
            CosmicMappedInternal::Window(w) => seq![w.window],
            CosmicMappedInternal::Stack(s) => s.windows@,
        }
    }

    /// Index of the active constituent window.
    pub open spec fn active_index(&self) -> int {
        match self.element {
            CosmicMappedInternal::Window(_) => 0,
            CosmicMappedInternal::Stack(s) => s.active as int,
        }
    }

    /// The active constituent window: the stack's active tab, or the single
    /// window.
    pub open spec fn active(&self) -> Toplevel {
        self.tabs()[self.active_index()]
    }

    /// The shared decoration header, if one is attached.
    pub open spec fn header(&self) -> Option<HeaderBar> {
        match self.element {
            CosmicMappedInternal::Window(w) => w.header,
            CosmicMappedInternal::Stack(s) => s.header,
        }
    }

    /// Height of the shared decoration header, 0 when none is attached.
    pub open spec fn header_height(&self) -> int {
        match self.header() {
            Some(h) => h.height as int,
            None => 0,
        }
    }

    /// The per-seat cursor map.
    pub open spec fn cursors(&self) -> Map<u64, Point> {
        self.last_cursor_position@
    }

    /// Well-formedness: the constituent shape is well-formed (in particular
    /// a stack is never empty), tab surfaces are distinct, and the cursor
    /// map invariant holds.
    pub open spec fn wf(&self) -> bool {
        &&& match self.element {
            CosmicMappedInternal::Window(w) => w.wf(),
            CosmicMappedInternal::Stack(s) => s.wf(),
        }
        &&& forall|i: int, j: int|
            0 <= i < j < self.tabs().len() ==> self.tabs()[i].surface != self.tabs()[j].surface
        &&& self.last_cursor_position.wf()
    }

    /// Converts ownership of a single window in; auxiliary state starts
    /// empty.
    pub fn from_window(w: CosmicWindow) -> (r: CosmicMapped)
        ensures
            r.element is Window,
            r.tabs() == seq![w.window],
            r.header() == w.header,
            r.cursors() == Map::<u64, Point>::empty(),
            r.tiling_node_id is None,
            r.last_geometry is None,
            r.resize_state is None,
            r.debug is None,
            w.wf() ==> r.wf(),
    {
        CosmicMapped {
            element: CosmicMappedInternal::Window(w),
            last_cursor_position: CursorTracker::new(),
            tiling_node_id: None,
            last_geometry: None,
            resize_state: None,
            debug: None,
        }
    }

    /// Converts ownership of a stack in; auxiliary state starts empty.
    pub fn from_stack(s: CosmicStack) -> (r: CosmicMapped)
        ensures
            r.element is Stack,
            r.tabs() == s.windows@,
            r.active_index() == s.active as int,
            r.header() == s.header,
            r.cursors() == Map::<u64, Point>::empty(),
            r.tiling_node_id is None,
            r.last_geometry is None,
            r.resize_state is None,
            r.debug is None,
            s.wf() && (forall|i: int, j: int|
                0 <= i < j < s.windows@.len() ==> s.windows@[i].surface != s.windows@[j].surface)
                ==> r.wf(),
    {
        CosmicMapped {
            element: CosmicMappedInternal::Stack(s),
            last_cursor_position: CursorTracker::new(),
            tiling_node_id: None,
            last_geometry: None,
            resize_state: None,
            debug: None,
        }
    }

    /// Stores the tiling engine's slot handle for this window.
    pub fn set_tiling_node_id(&mut self, node_id: Option<id_tree::NodeId>)
        ensures
            *final(self) == (CosmicMapped { tiling_node_id: final(self).tiling_node_id, ..*old(self) }),
            final(self).tiling_node_id == node_id,
    {
        self.tiling_node_id = node_id;
    }

    /// The tiling engine's slot handle for this window, if tiled.
    pub fn tiling_node_id(&self) -> (r: &Option<id_tree::NodeId>)
        ensures
            *r == self.tiling_node_id,
    {
        &self.tiling_node_id
    }

    /// Stores the floating-mode geometry to restore later.
    pub fn set_last_geometry(&mut self, geometry: Option<Rectangle>)
        ensures
            *final(self) == (CosmicMapped { last_geometry: geometry, ..*old(self) }),
    {
        self.last_geometry = geometry;
    }

    /// The cached floating-mode geometry, if any.
    pub fn last_geometry(&self) -> (r: Option<Rectangle>)
        ensures
            r == self.last_geometry,
    {
        self.last_geometry
    }

    /// Stores the floating layout engine's resize progress.
    pub fn set_resize_state(&mut self, state: Option<ResizeState>)
        ensures
            *final(self) == (CosmicMapped { resize_state: state, ..*old(self) }),
    {
        self.resize_state = state;
    }

    /// The in-progress interactive resize, if any.
    pub fn resize_state(&self) -> (r: Option<ResizeState>)
        ensures
            r == self.resize_state,
    {
        self.resize_state
    }

    /// Enables or disables the debug overlay for this window. Enabling it
    /// resets the overlay to its initial placement.
    pub fn set_debug(&mut self, flag: bool)
        ensures
            *final(self) == (CosmicMapped {
                debug: if flag {
                    Some(DebugState::initial_spec())
                } else {
                    None
                },
                ..*old(self)
            }),
    {
        if flag {
            self.debug = Some(
                DebugState {
                    area: Rectangle {
                        loc: Point { x: 10, y: 10 },
                        size: Size { w: 100, h: 100 },
                    },
                },
            );
        } else {
            self.debug = None;
        }
    }

    /// Height of the shared decoration header, 0 when none is attached.
    pub fn current_header_height(&self) -> (r: i32)
        ensures
            r as int == self.header_height(),
    {
        match &self.element {
            CosmicMappedInternal::Window(w) => match &w.header {
                Some(h) => h.height,
                None => 0,
            },
            CosmicMappedInternal::Stack(s) => match &s.header {
                Some(h) => h.height,
                None => 0,
            },
        }
    }

    /// The active constituent window.
    pub fn active_window(&self) -> (r: &Toplevel)
        requires
            self.wf(),
        ensures
            *r == self.active(),
    {
        match &self.element {
            CosmicMappedInternal::Window(w) => &w.window,
            CosmicMappedInternal::Stack(s) => &s.windows[s.active],
        }
    }

    /// Every constituent window's top-level surface, each paired with its
    /// local offset: content is placed below the shared header.
    pub fn windows(&self) -> (v: Vec<(u64, Point)>)
        requires
            self.wf(),
        ensures
            v@.len() == self.tabs().len(),
            forall|i: int|
                0 <= i < v@.len() ==> v@[i].0 == self.tabs()[i].surface && v@[i].1 == (Point {
                    x: 0,
                    y: self.header_height() as i32,
                }),
    {
        let hh = self.current_header_height();
        let offset = Point { x: 0, y: hh };
        let mut v: Vec<(u64, Point)> = Vec::new();
        match &self.element {
            CosmicMappedInternal::Window(w) => {
                v.push((w.window.surface, offset));
            },
            CosmicMappedInternal::Stack(s) => {
                let n = s.windows.len();
                let mut i: usize = 0;
                while i < n
                    invariant
                        n == s.windows@.len(),
                        i <= n,
                        v@.len() == i,
                        offset == (Point { x: 0, y: self.header_height() as i32 }),
                        self.tabs() == s.windows@,
                        forall|j: int|
                            0 <= j < i ==> v@[j].0 == s.windows@[j].surface && v@[j].1 == offset,
                    decreases n - i,
                {
                    v.push((s.windows[i].surface, offset));
                    i += 1;
                }
            },
        }
        v
    }

    /// Bounding rectangle of the active window's content, placed at the
    /// content origin (0, header height).
    pub fn active_window_offset(&self) -> (r: Rectangle)
        requires
            self.wf(),
        ensures
            r.loc.x == 0,
            r.loc.y as int == self.header_height(),
            r.size == self.active().size,
    {
        let hh = self.current_header_height();
        let size = self.active_window().size;
        Rectangle { loc: Point { x: 0, y: hh }, size }
    }

    /// The last tracked pointer location of a seat inside this window, if
    /// its pointer is inside.
    pub fn cursor_position(&self, seat: u64) -> (r: Option<Point>)
        requires
            self.wf(),
        ensures
            r == if self.cursors().contains_key(seat) {
                Some(self.cursors()[seat])
            } else {
                None::<Point>
            },
    {
        self.last_cursor_position.get(seat)
    }

    /// The top-level surface keyboard focus should land on.
    pub fn wl_surface(&self) -> (r: Option<u64>)
        requires
            self.wf(),
        ensures
            r == Some(self.active().surface),
    {
        Some(self.active_window().surface)
    }

    /// Whether any constituent window belongs to the given client.
    pub fn same_client_as(&self, client: u64) -> (r: bool)
        requires
            self.wf(),
        ensures
            r == exists|i: int| 0 <= i < self.tabs().len() && self.tabs()[i].client == client,
    {
        match &self.element {
            CosmicMappedInternal::Window(w) => {
                let found = w.window.client == client;
                proof {
                    if found {
                        assert(self.tabs()[0].client == client);
                    }
                }
                found
            },
            CosmicMappedInternal::Stack(s) => {
                let n = s.windows.len();
                let mut i: usize = 0;
                while i < n
                    invariant
                        n == s.windows@.len(),
                        i <= n,
                        self.tabs() == s.windows@,
                        forall|j: int| 0 <= j < i ==> s.windows@[j].client != client,
                    decreases n - i,
                {
                    if s.windows[i].client == client {
                        proof {
                            assert(self.tabs()[i as int].client == client);
                        }
                        return true;
                    }
                    i += 1;
                }
                false
            },
        }
    }
}

/// Component-wise maximum of the declared minimum sizes of a non-empty tab
/// sequence: the aggregate minimum must satisfy every tab at once.
pub open spec fn fold_min_sizes(tabs: Seq<Toplevel>) -> Size
    recommends
        tabs.len() > 0,
    decreases tabs.len(),
{
    if tabs.len() <= 1 {
        tabs[0].min_size
    } else {
        size_max_spec(fold_min_sizes(tabs.drop_last()), tabs.last().min_size)
    }
}

/// Combines two declared maximum sizes per axis: 0 means unconstrained for
/// that window on that axis and is excluded; otherwise the smaller wins.
pub open spec fn combine_max_spec(a: Size, b: Size) -> Size {
    Size {
        w: if a.w == 0 {
            b.w
        } else if b.w == 0 {
            a.w
        } else if a.w <= b.w {
            a.w
        } else {
            b.w
        },
        h: if a.h == 0 {
            b.h
        } else if b.h == 0 {
            a.h
        } else if a.h <= b.h {
            a.h
        } else {
            b.h
        },
    }
}

/// Fold of the declared maximum sizes of a non-empty tab sequence under
/// [`combine_max_spec`].
pub open spec fn fold_max_sizes(tabs: Seq<Toplevel>) -> Size
    recommends
        tabs.len() > 0,
    decreases tabs.len(),
{
    if tabs.len() <= 1 {
        tabs[0].max_size
    } else {
        combine_max_spec(fold_max_sizes(tabs.drop_last()), tabs.last().max_size)
    }
}

/// Combines two declared maximum sizes as [`combine_max_spec`] says.
fn combine_max(a: Size, b: Size) -> (r: Size)
    ensures
        r == combine_max_spec(a, b),
{
    Size {
        w: if a.w == 0 {
            b.w
        } else if b.w == 0 {
            a.w
        } else if a.w <= b.w {
            a.w
        } else {
            b.w
        },
        h: if a.h == 0 {
            b.h
        } else if b.h == 0 {
            a.h
        } else if a.h <= b.h {
            a.h
        } else {
            b.h
        },
    }
}

/// Whether one constituent window contains the surface under the given
/// query kinds: as its own top-level surface, somewhere in its surface
/// subtree, or among its popups.
pub open spec fn tab_has_surface(t: Toplevel, surface: u64, ty: WindowSurfaceType) -> bool {
    ||| ty.toplevel && t.surface == surface
    ||| ty.subsurface && t.subsurfaces@.contains(surface)
    ||| ty.popup && t.popups@.contains(surface)
}

/// Whether a surface id occurs in a list of surface ids.
fn contains_id(v: &Vec<u64>, x: u64) -> (r: bool)
    ensures
        r == v@.contains(x),
{
    let n = v.len();
    let mut i: usize = 0;
    while i < n
        invariant
            n == v@.len(),
            i <= n,
            forall|j: int| 0 <= j < i ==> v@[j] != x,
        decreases n - i,
    {
        if v[i] == x {
            return true;
        }
        i += 1;
    }
    false
}

/// Checks one constituent window against [`tab_has_surface`]: the exact
/// top-level surface first, then a depth-first walk of the surface subtree,
/// then the popup registry.
fn tab_matches(t: &Toplevel, surface: u64, ty: WindowSurfaceType) -> (r: bool)
    ensures
        r == tab_has_surface(*t, surface, ty),
{
    if ty.toplevel && t.surface == surface {
        return true;
    }
    if ty.subsurface && contains_id(&t.subsurfaces, surface) {
        return true;
    }
    if ty.popup && contains_id(&t.popups, surface) {
        return true;
    }
    false
}

impl CosmicMapped {
    /// Every field except the constituent element is unchanged between the
    /// two values.
    pub open spec fn same_shell_state(pre: CosmicMapped, post: CosmicMapped) -> bool {
        post == (CosmicMapped { element: post.element, ..pre })
    }

    /// The constituent element keeps its shape: same variant, same active
    /// index, same header, same number of tabs.
    pub open spec fn same_shape(pre: CosmicMapped, post: CosmicMapped) -> bool {
        &&& post.is_stack() == pre.is_stack()
        &&& post.active_index() == pre.active_index()
        &&& post.header() == pre.header()
        &&& post.tabs().len() == pre.tabs().len()
    }

    /// Every constituent window's pending configuration has the flag set to
    /// the value; nothing else changed.
    pub open spec fn pending_flag_set(
        pre: CosmicMapped,
        post: CosmicMapped,
        flag: StateFlag,
        value: bool,
    ) -> bool {
        &&& Self::same_shell_state(pre, post)
        &&& Self::same_shape(pre, post)
        &&& forall|i: int|
            0 <= i < pre.tabs().len() ==> post.tabs()[i] == pre.tabs()[i].with_pending(
                pre.tabs()[i].pending.with_flag(flag, value),
            )
    }

    /// Whether a flag is visible on the active window: set in its current
    /// or its pending configuration. Reading either avoids visible flicker
    /// while an acknowledgement round-trip is outstanding.
    pub open spec fn state_visible(self, flag: StateFlag) -> bool {
        self.active().current.has_flag(flag) || self.active().pending.has_flag(flag)
    }

    /// Mutates the pending configuration of every constituent window: these
    /// flags are shared across a stack's tabs because focus and visuals are
    /// shared.
    fn set_pending_flag(&mut self, flag: StateFlag, value: bool)
        requires
            old(self).wf(),
        ensures
            final(self).wf(),
            Self::pending_flag_set(*old(self), *final(self), flag, value),
    {
        match &mut self.element {
            CosmicMappedInternal::Window(w) => {
                w.window.pending.set_flag(flag, value);
            },
            CosmicMappedInternal::Stack(s) => {
                let ghost pre_s = *s;
                let n = s.windows.len();
                let mut i: usize = 0;
                while i < n
                    invariant
                        n == s.windows@.len(),
                        i <= n,
                        s.windows@.len() == pre_s.windows@.len(),
                        s.active == pre_s.active,
                        s.header == pre_s.header,
                        forall|j: int|
                            0 <= j < i ==> s.windows@[j] == pre_s.windows@[j].with_pending(
                                pre_s.windows@[j].pending.with_flag(flag, value),
                            ),
                        forall|j: int| i <= j < n ==> s.windows@[j] == pre_s.windows@[j],
                    decreases n - i,
                {
                    let t = &mut s.windows[i];
                    t.pending.set_flag(flag, value);
                    i += 1;
                }
            },
        }
    }

    /// Requests or withdraws an interactive-resize hint on every
    /// constituent window's pending configuration.
    pub fn set_resizing(&mut self, resizing: bool)
        requires
            old(self).wf(),
        ensures
            final(self).wf(),
            Self::pending_flag_set(*old(self), *final(self), StateFlag::Resizing, resizing),
    {
        self.set_pending_flag(StateFlag::Resizing, resizing)
    }

    /// Whether the active window is resizing, in its current or pending
    /// configuration.
    pub fn is_resizing(&self) -> (r: bool)
        requires
            self.wf(),
        ensures
            r == self.state_visible(StateFlag::Resizing),
    {
        let t = self.active_window();
        t.current.get_flag(StateFlag::Resizing) || t.pending.get_flag(StateFlag::Resizing)
    }

    /// Sets or clears fullscreen on every constituent window's pending
    /// configuration.
    pub fn set_fullscreen(&mut self, fullscreen: bool)
        requires
            old(self).wf(),
        ensures
            final(self).wf(),
            Self::pending_flag_set(*old(self), *final(self), StateFlag::Fullscreen, fullscreen),
    {
        self.set_pending_flag(StateFlag::Fullscreen, fullscreen)
    }

    /// Whether the active window is fullscreen, in its current or pending
    /// configuration.
    pub fn is_fullscreen(&self) -> (r: bool)
        requires
            self.wf(),
        ensures
            r == self.state_visible(StateFlag::Fullscreen),
    {
        let t = self.active_window();
        t.current.get_flag(StateFlag::Fullscreen) || t.pending.get_flag(StateFlag::Fullscreen)
    }

    /// Sets or clears maximized on every constituent window's pending
    /// configuration.
    pub fn set_maximized(&mut self, maximized: bool)
        requires
            old(self).wf(),
        ensures
            final(self).wf(),
            Self::pending_flag_set(*old(self), *final(self), StateFlag::Maximized, maximized),
    {
        self.set_pending_flag(StateFlag::Maximized, maximized)
    }

    /// Whether the active window is maximized, in its current or pending
    /// configuration.
    pub fn is_maximized(&self) -> (r: bool)
        requires
            self.wf(),
        ensures
            r == self.state_visible(StateFlag::Maximized),
    {
        let t = self.active_window();
        t.current.get_flag(StateFlag::Maximized) || t.pending.get_flag(StateFlag::Maximized)
    }

    /// Sets or clears activated on every constituent window's pending
    /// configuration.
    pub fn set_activated(&mut self, activated: bool)
        requires
            old(self).wf(),
        ensures
            final(self).wf(),
            Self::pending_flag_set(*old(self), *final(self), StateFlag::Activated, activated),
    {
        self.set_pending_flag(StateFlag::Activated, activated)
    }

    /// Whether the active window is activated, in its current or pending
    /// configuration.
    pub fn is_activated(&self) -> (r: bool)
        requires
            self.wf(),
        ensures
            r == self.state_visible(StateFlag::Activated),
    {
        let t = self.active_window();
        t.current.get_flag(StateFlag::Activated) || t.pending.get_flag(StateFlag::Activated)
    }

    /// Sets or clears the four tiled edges on a single window's pending
    /// configuration. Deliberately a no-op on a stack: stacked windows are
    /// undecorated through the shared header instead of protocol tiled
    /// hints.
    pub fn set_tiled(&mut self, tiled: bool)
        requires
            old(self).wf(),
        ensures
            final(self).wf(),
            old(self).is_stack() ==> *final(self) == *old(self),
            !old(self).is_stack() ==> Self::same_shell_state(*old(self), *final(self))
                && Self::same_shape(*old(self), *final(self)) && final(self).tabs()[0]
                == old(self).tabs()[0].with_pending(old(self).tabs()[0].pending.with_tiled(tiled)),
    {
        match &mut self.element {
            CosmicMappedInternal::Window(w) => {
                w.window.pending.set_tiled(tiled);
            },
            CosmicMappedInternal::Stack(_) => {},
        }
    }

    /// Whether the active window's current configuration carries the tiled
    /// hint.
    pub fn is_tiled(&self) -> (r: bool)
        requires
            self.wf(),
        ensures
            r == self.active().current.tiled_left,
    {
        self.active_window().current.tiled_left
    }

    /// Requests a fresh configuration round-trip for every constituent
    /// window.
    pub fn configure(&mut self)
        requires
            old(self).wf(),
        ensures
            final(self).wf(),
            Self::same_shell_state(*old(self), *final(self)),
            Self::same_shape(*old(self), *final(self)),
            forall|i: int|
                0 <= i < old(self).tabs().len() ==> final(self).tabs()[i]
                    == old(self).tabs()[i].with_configure_sent(),
    {
        match &mut self.element {
            CosmicMappedInternal::Window(w) => {
                w.window.send_configure();
            },
            CosmicMappedInternal::Stack(s) => {
                let ghost pre_s = *s;
                let n = s.windows.len();
                let mut i: usize = 0;
                while i < n
                    invariant
                        n == s.windows@.len(),
                        i <= n,
                        s.windows@.len() == pre_s.windows@.len(),
                        s.active == pre_s.active,
                        s.header == pre_s.header,
                        forall|j: int|
                            0 <= j < i ==> s.windows@[j] == pre_s.windows@[j].with_configure_sent(),
                        forall|j: int| i <= j < n ==> s.windows@[j] == pre_s.windows@[j],
                    decreases n - i,
                {
                    let t = &mut s.windows[i];
                    t.send_configure();
                    i += 1;
                }
            },
        }
    }

    /// Requests termination of the active window only: closing one tab
    /// never closes its siblings.
    pub fn send_close(&mut self)
        requires
            old(self).wf(),
        ensures
            final(self).wf(),
            Self::same_shell_state(*old(self), *final(self)),
            Self::same_shape(*old(self), *final(self)),
            final(self).tabs()[old(self).active_index()]
                == old(self).tabs()[old(self).active_index()].with_close_requested(),
            forall|i: int|
                0 <= i < old(self).tabs().len() && i != old(self).active_index()
                    ==> final(self).tabs()[i] == old(self).tabs()[i],
    {
        match &mut self.element {
            CosmicMappedInternal::Window(w) => {
                w.window.send_close();
            },
            CosmicMappedInternal::Stack(s) => {
                let a = s.active;
                let t = &mut s.windows[a];
                t.send_close();
            },
        }
    }

    /// Selects which tab is active: the tab owning the given top-level
    /// surface, if this is a stack and such a tab exists; otherwise nothing
    /// changes.
    pub fn set_active(&mut self, surface: u64)
        requires
            old(self).wf(),
        ensures
            final(self).wf(),
            Self::same_shell_state(*old(self), *final(self)),
            final(self).tabs() == old(self).tabs(),
            final(self).is_stack() == old(self).is_stack(),
            final(self).header() == old(self).header(),
            if old(self).is_stack() && (exists|i: int|
                0 <= i < old(self).tabs().len() && old(self).tabs()[i].surface == surface) {
                {
                    &&& 0 <= final(self).active_index() < final(self).tabs().len()
                    &&& final(self).tabs()[final(self).active_index()].surface == surface
                }
            } else {
                *final(self) == *old(self)
            },
    {
        let idx = self.find_tab(surface);
        match &mut self.element {
            CosmicMappedInternal::Window(_) => {},
            CosmicMappedInternal::Stack(s) => {
                if let Some(i) = idx {
                    s.active = i;
                }
            },
        }
    }

    /// Index of the tab owning the given top-level surface, if any.
    fn find_tab(&self, surface: u64) -> (r: Option<usize>)
        requires
            self.wf(),
        ensures
            match r {
                Some(i) => 0 <= i < self.tabs().len() && self.tabs()[i as int].surface == surface,
                None => forall|i: int|
                    0 <= i < self.tabs().len() ==> self.tabs()[i].surface != surface,
            },
    {
        match &self.element {
            CosmicMappedInternal::Window(w) => {
                if w.window.surface == surface {
                    Some(0)
                } else {
                    None
                }
            },
            CosmicMappedInternal::Stack(s) => {
                let n = s.windows.len();
                let mut i: usize = 0;
                while i < n
                    invariant
                        n == s.windows@.len(),
                        i <= n,
                        self.tabs() == s.windows@,
                        forall|j: int| 0 <= j < i ==> s.windows@[j].surface != surface,
                    decreases n - i,
                {
                    if s.windows[i].surface == surface {
                        return Some(i);
                    }
                    i += 1;
                }
                None
            },
        }
    }

    /// Focuses the tab owning the given top-level surface; same behaviour
    /// as [`CosmicMapped::set_active`].
    pub fn focus_window(&mut self, surface: u64)
        requires
            old(self).wf(),
        ensures
            final(self).wf(),
            Self::same_shell_state(*old(self), *final(self)),
            final(self).tabs() == old(self).tabs(),
            final(self).is_stack() == old(self).is_stack(),
            final(self).header() == old(self).header(),
            if old(self).is_stack() && (exists|i: int|
                0 <= i < old(self).tabs().len() && old(self).tabs()[i].surface == surface) {
                {
                    &&& 0 <= final(self).active_index() < final(self).tabs().len()
                    &&& final(self).tabs()[final(self).active_index()].surface == surface
                }
            } else {
                *final(self) == *old(self)
            },
    {
        self.set_active(surface)
    }

    /// Where directional focus movement lands inside this window: tabs of a
    /// stack are ordered left to right, so focus moves to the neighbouring
    /// tab; vertical movement and single windows offer no target.
    pub open spec fn focus_target(self, direction: FocusDirection) -> Option<int> {
        if !self.is_stack() {
            None
        } else {
            match direction {
                FocusDirection::Left => if self.active_index() > 0 {
                    Some(self.active_index() - 1)
                } else {
                    None
                },
                FocusDirection::Right => if self.active_index() + 1 < self.tabs().len() {
                    Some(self.active_index() + 1)
                } else {
                    None
                },
                FocusDirection::Up => None,
                FocusDirection::Down => None,
            }
        }
    }

    /// Moves keyboard focus one step in the given direction, between the
    /// tabs of a stack. Returns whether focus moved.
    pub fn handle_focus(&mut self, direction: FocusDirection) -> (moved: bool)
        requires
            old(self).wf(),
        ensures
            final(self).wf(),
            Self::same_shell_state(*old(self), *final(self)),
            final(self).tabs() == old(self).tabs(),
            final(self).is_stack() == old(self).is_stack(),
            final(self).header() == old(self).header(),
            moved == old(self).focus_target(direction) is Some,
            final(self).active_index() == match old(self).focus_target(direction) {
                Some(i) => i,
                None => old(self).active_index(),
            },
    {
        match &mut self.element {
            CosmicMappedInternal::Window(_) => false,
            CosmicMappedInternal::Stack(s) => match direction {
                FocusDirection::Left => {
                    if s.active > 0 {
                        s.active = s.active - 1;
                        true
                    } else {
                        false
                    }
                },
                FocusDirection::Right => {
                    let n = s.windows.len();
                    if s.active + 1 < n {
                        s.active = s.active + 1;
                        true
                    } else {
                        false
                    }
                },
                FocusDirection::Up => false,
                FocusDirection::Down => false,
            },
        }
    }

    /// Whether some constituent window contains the surface under the given
    /// query kinds.
    pub fn has_surface(&self, surface: u64, ty: WindowSurfaceType) -> (r: bool)
        requires
            self.wf(),
        ensures
            r == exists|i: int|
                0 <= i < self.tabs().len() && tab_has_surface(self.tabs()[i], surface, ty),
    {
        match &self.element {
            CosmicMappedInternal::Window(w) => {
                let found = tab_matches(&w.window, surface, ty);
                proof {
                    if found {
                        assert(tab_has_surface(self.tabs()[0], surface, ty));
                    }
                }
                found
            },
            CosmicMappedInternal::Stack(s) => {
                let n = s.windows.len();
                let mut i: usize = 0;
                while i < n
                    invariant
                        n == s.windows@.len(),
                        i <= n,
                        self.tabs() == s.windows@,
                        forall|j: int| 0 <= j < i ==> !tab_has_surface(s.windows@[j], surface, ty),
                    decreases n - i,
                {
                    if tab_matches(&s.windows[i], surface, ty) {
                        proof {
                            assert(tab_has_surface(self.tabs()[i as int], surface, ty));
                        }
                        return true;
                    }
                    i += 1;
                }
                false
            },
        }
    }
}

impl CosmicMapped {
    /// The aggregate minimum size: for a stack, the component-wise maximum
    /// over every tab's declared minimum; for a single window, its declared
    /// minimum, passed through exactly.
    pub open spec fn min_size_spec(self) -> Size {
        if self.is_stack() {
            fold_min_sizes(self.tabs())
        } else {
            self.tabs()[0].min_size
        }
    }

    /// The aggregate maximum size: for a stack, the fold of the declared
    /// maxima under [`combine_max_spec`], clamped upward per axis to the
    /// aggregate minimum; for a single window, its declared maximum, passed
    /// through unmodified.
    pub open spec fn max_size_spec(self) -> Size {
        if self.is_stack() {
            size_max_spec(fold_max_sizes(self.tabs()), self.min_size_spec())
        } else {
            self.tabs()[0].max_size
        }
    }

    /// Computes the aggregate minimum size of this mapped window.
    pub fn min_size(&self) -> (r: Size)
        requires
            self.wf(),
        ensures
            r == self.min_size_spec(),
    {
        match &self.element {
            CosmicMappedInternal::Window(w) => w.window.min_size,
            CosmicMappedInternal::Stack(s) => {
                let n = s.windows.len();
                let mut acc = s.windows[0].min_size;
                proof {
                    assert(s.windows@.take(1)[0] == s.windows@[0]);
                }
                let mut i: usize = 1;
                while i < n
                    invariant
                        n == s.windows@.len(),
                        1 <= i <= n,
                        self.tabs() == s.windows@,
                        acc == fold_min_sizes(s.windows@.take(i as int)),
                    decreases n - i,
                {
                    proof {
                        assert(s.windows@.take(i as int + 1).drop_last() =~= s.windows@.take(
                            i as int,
                        ));
                        assert(s.windows@.take(i as int + 1).last() == s.windows@[i as int]);
                    }
                    acc = size_max(acc, s.windows[i].min_size);
                    i += 1;
                }
                proof {
                    assert(s.windows@.take(n as int) =~= s.windows@);
                }
                acc
            },
        }
    }

    /// Computes the aggregate maximum size of this mapped window.
    pub fn max_size(&self) -> (r: Size)
        requires
            self.wf(),
        ensures
            r == self.max_size_spec(),
    {
        match &self.element {
            CosmicMappedInternal::Window(w) => w.window.max_size,
            CosmicMappedInternal::Stack(s) => {
                let n = s.windows.len();
                let mut acc = s.windows[0].max_size;
                proof {
                    assert(s.windows@.take(1)[0] == s.windows@[0]);
                }
                let mut i: usize = 1;
                while i < n
                    invariant
                        n == s.windows@.len(),
                        1 <= i <= n,
                        self.tabs() == s.windows@,
                        acc == fold_max_sizes(s.windows@.take(i as int)),
                    decreases n - i,
                {
                    proof {
                        assert(s.windows@.take(i as int + 1).drop_last() =~= s.windows@.take(
                            i as int,
                        ));
                        assert(s.windows@.take(i as int + 1).last() == s.windows@[i as int]);
                    }
                    acc = combine_max(acc, s.windows[i].max_size);
                    i += 1;
                }
                proof {
                    assert(s.windows@.take(n as int) =~= s.windows@);
                }
                // Independent fold rules for the minimum and the maximum can
                // otherwise yield a maximum below the minimum.
                let min = self.min_size();
                size_max(acc, min)
            },
        }
    }

    /// Content size left for the constituents when the whole element has
    /// the given size: the shared header is subtracted from the height.
    pub open spec fn content_size_spec(size: Size, header_height: int) -> Size {
        Size {
            w: size.w,
            h: if size.h - header_height >= 0 {
                (size.h - header_height) as i32
            } else {
                0
            },
        }
    }

    /// Requests a new overall size: every constituent window is asked for
    /// the content size that remains below the shared header.
    pub fn set_size(&mut self, size: Size)
        requires
            old(self).wf(),
        ensures
            final(self).wf(),
            Self::same_shell_state(*old(self), *final(self)),
            Self::same_shape(*old(self), *final(self)),
            forall|i: int|
                0 <= i < old(self).tabs().len() ==> final(self).tabs()[i]
                    == old(self).tabs()[i].with_pending_size(
                    Some(Self::content_size_spec(size, old(self).header_height())),
                ),
    {
        let hh = self.current_header_height();
        let content = Size { w: size.w, h: if size.h > hh { size.h - hh } else { 0 } };
        match &mut self.element {
            CosmicMappedInternal::Window(w) => {
                w.window.pending_size = Some(content);
            },
            CosmicMappedInternal::Stack(s) => {
                let ghost pre_s = *s;
                let n = s.windows.len();
                let mut i: usize = 0;
                while i < n
                    invariant
                        n == s.windows@.len(),
                        i <= n,
                        s.windows@.len() == pre_s.windows@.len(),
                        s.active == pre_s.active,
                        s.header == pre_s.header,
                        forall|j: int|
                            0 <= j < i ==> s.windows@[j] == pre_s.windows@[j].with_pending_size(
                                Some(content),
                            ),
                        forall|j: int| i <= j < n ==> s.windows@[j] == pre_s.windows@[j],
                    decreases n - i,
                {
                    let t = &mut s.windows[i];
                    t.pending_size = Some(content);
                    i += 1;
                }
            },
        }
    }
}

impl CosmicMapped {
    /// Forwards a keyboard-focus enter to the active constituent only and
    /// reports which top-level surface receives it; inactive tabs never see
    /// keyboard events.
    #[allow(unused_variables)]
    pub fn keyboard_enter(&self, seat: u64) -> (target: u64)
        requires
            self.wf(),
        ensures
            target == self.active().surface,
    {
        self.active_window().surface
    }

    /// Forwards a keyboard-focus leave to the active constituent only.
    #[allow(unused_variables)]
    pub fn keyboard_leave(&self, seat: u64) -> (target: u64)
        requires
            self.wf(),
        ensures
            target == self.active().surface,
    {
        self.active_window().surface
    }

    /// Forwards a key event to the active constituent only.
    #[allow(unused_variables)]
    pub fn key(&self, seat: u64, key_code: u32, pressed: bool) -> (target: u64)
        requires
            self.wf(),
        ensures
            target == self.active().surface,
    {
        self.active_window().surface
    }

    /// Forwards a modifier update to the active constituent only.
    #[allow(unused_variables)]
    pub fn modifiers(&self, seat: u64, serial: u32) -> (target: u64)
        requires
            self.wf(),
        ensures
            target == self.active().surface,
    {
        self.active_window().surface
    }

    /// Records the seat's pointer location, then forwards the pointer enter
    /// to the active constituent.
    pub fn pointer_enter(&mut self, seat: u64, location: Point) -> (target: u64)
        requires
            old(self).wf(),
        ensures
            final(self).wf(),
            target == old(self).active().surface,
            final(self).cursors() == old(self).cursors().insert(seat, location),
            *final(self) == (CosmicMapped {
                last_cursor_position: final(self).last_cursor_position,
                ..*old(self)
            }),
    {
        let target = self.active_window().surface;
        self.last_cursor_position.insert(seat, location);
        target
    }

    /// Records the seat's pointer location, then forwards the motion to the
    /// active constituent.
    pub fn pointer_motion(&mut self, seat: u64, location: Point) -> (target: u64)
        requires
            old(self).wf(),
        ensures
            final(self).wf(),
            target == old(self).active().surface,
            final(self).cursors() == old(self).cursors().insert(seat, location),
            *final(self) == (CosmicMapped {
                last_cursor_position: final(self).last_cursor_position,
                ..*old(self)
            }),
    {
        let target = self.active_window().surface;
        self.last_cursor_position.insert(seat, location);
        target
    }

    /// Forwards a button event to the active constituent; the cursor map is
    /// untouched.
    #[allow(unused_variables)]
    pub fn pointer_button(&self, seat: u64, button: u32, pressed: bool) -> (target: u64)
        requires
            self.wf(),
        ensures
            target == self.active().surface,
    {
        self.active_window().surface
    }

    /// Forwards an axis (scroll) event to the active constituent; the
    /// cursor map is untouched.
    #[allow(unused_variables)]
    pub fn pointer_axis(&self, seat: u64, horizontal: i32, vertical: i32) -> (target: u64)
        requires
            self.wf(),
        ensures
            target == self.active().surface,
    {
        self.active_window().surface
    }

    /// Drops the seat's pointer record, then forwards the leave to the
    /// active constituent.
    pub fn pointer_leave(&mut self, seat: u64) -> (target: u64)
        requires
            old(self).wf(),
        ensures
            final(self).wf(),
            target == old(self).active().surface,
            final(self).cursors() == old(self).cursors().remove(seat),
            *final(self) == (CosmicMapped {
                last_cursor_position: final(self).last_cursor_position,
                ..*old(self)
            }),
    {
        let target = self.active_window().surface;
        self.last_cursor_position.remove(seat);
        target
    }
}

} // verus!
