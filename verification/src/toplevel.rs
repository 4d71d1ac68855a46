//! The protocol-level role object of one application window, modelled as
//! plain data: its negotiated configuration (pending vs. current), its
//! declared size constraints, and the surface tree the compositor sees.

use vstd::prelude::*;

use crate::geometry::{Rectangle, Size};

verus! {

/// The set of protocol-visible configuration flags of a window.
#[derive(Clone, Copy, Debug, PartialEq, Eq, Structural)]
pub struct ToplevelState {
    pub activated: bool,
    pub maximized: bool,
    pub fullscreen: bool,
    pub resizing: bool,
    pub tiled_left: bool,
    pub tiled_right: bool,
    pub tiled_top: bool,
    pub tiled_bottom: bool,
}

/// One of the configuration flags that is shared across all tabs of a stack.
#[derive(Clone, Copy, Debug, PartialEq, Eq, Structural)]
pub enum StateFlag {
    Activated,
    Maximized,
    Fullscreen,
    Resizing,
}

impl ToplevelState {
    /// The state with every flag cleared.
    pub open spec fn empty_spec() -> ToplevelState {
        ToplevelState {
            activated: false,
            maximized: false,
            fullscreen: false,
            resizing: false,
            tiled_left: false,
            tiled_right: false,
            tiled_top: false,
            tiled_bottom: false,
        }
    }

    /// Returns the state with every flag cleared.
    pub fn empty() -> (r: ToplevelState)
        ensures
            r == ToplevelState::empty_spec(),
    {
        ToplevelState {
            activated: false,
            maximized: false,
            fullscreen: false,
            resizing: false,
            tiled_left: false,
            tiled_right: false,
            tiled_top: false,
            tiled_bottom: false,
        }
    }

    /// Whether the given shared flag is set.
    pub open spec fn has_flag(self, flag: StateFlag) -> bool {
        match flag {
            StateFlag::Activated => self.activated,
            StateFlag::Maximized => self.maximized,
            StateFlag::Fullscreen => self.fullscreen,
            StateFlag::Resizing => self.resizing,
        }
    }

    /// The state with the given shared flag set or cleared.
    pub open spec fn with_flag(self, flag: StateFlag, value: bool) -> ToplevelState {
        match flag {
            StateFlag::Activated => ToplevelState { activated: value, ..self },
            StateFlag::Maximized => ToplevelState { maximized: value, ..self },
            StateFlag::Fullscreen => ToplevelState { fullscreen: value, ..self },
            StateFlag::Resizing => ToplevelState { resizing: value, ..self },
        }
    }

    /// The state with all four tiled edges set or cleared together.
    pub open spec fn with_tiled(self, value: bool) -> ToplevelState {
        ToplevelState {
            tiled_left: value,
            tiled_right: value,
            tiled_top: value,
            tiled_bottom: value,
            ..self
        }
    }

    /// Reads the given shared flag.
    pub fn get_flag(&self, flag: StateFlag) -> (r: bool)
        ensures
            r == self.has_flag(flag),
    {
        match flag {
            StateFlag::Activated => self.activated,
            StateFlag::Maximized => self.maximized,
            StateFlag::Fullscreen => self.fullscreen,
            StateFlag::Resizing => self.resizing,
        }
    }

    /// Sets or clears the given shared flag.
    pub fn set_flag(&mut self, flag: StateFlag, value: bool)
        ensures
            *final(self) == old(self).with_flag(flag, value),
    {
        match flag {
            StateFlag::Activated => self.activated = value,
            StateFlag::Maximized => self.maximized = value,
            StateFlag::Fullscreen => self.fullscreen = value,
            StateFlag::Resizing => self.resizing = value,
        }
    }

    /// Sets or clears all four tiled edges together.
    pub fn set_tiled(&mut self, value: bool)
        ensures
            *final(self) == old(self).with_tiled(value),
    {
        self.tiled_left = value;
        self.tiled_right = value;
        self.tiled_top = value;
        self.tiled_bottom = value;
    }
}

/// One rectangle of content damage, tagged with the commit that produced it.
#[derive(Clone, Copy, Debug, PartialEq, Eq, Structural)]
pub struct CommitDamage {
    pub commit: u64,
    pub rect: Rectangle,
}

/// One application window as the compositor sees it: its top-level surface,
/// the surfaces below it, its declared size constraints and its negotiated
/// configuration. The pending state holds what the compositor has requested
/// but the client has not acknowledged yet; the current state holds the last
/// acknowledged configuration.
#[derive(Debug)]
pub struct Toplevel {
    /// Identity of the top-level surface.
    pub surface: u64,
    /// Identity of the client connection that owns the window.
    pub client: u64,
    /// Client-supplied window title, if any.
    pub title: Option<String>,
    /// Client-supplied application identifier, if any.
    pub app_id: Option<String>,
    /// Surfaces of the subtree below the top-level surface, the top-level
    /// surface itself excluded.
    pub subsurfaces: Vec<u64>,
    /// Surfaces of the popups parented to the top-level surface.
    pub popups: Vec<u64>,
    /// Declared minimum content size; an axis of 0 means unconstrained.
    pub min_size: Size,
    /// Declared maximum content size; an axis of 0 means unconstrained.
    pub max_size: Size,
    /// Current content geometry size.
    pub size: Size,
    /// Identity of the buffer currently attached to the surface, if any.
    pub buffer: Option<u64>,
    /// Commit counter of the surface content.
    pub commit: u64,
    /// Content damage accumulated so far, per commit.
    pub damage: Vec<CommitDamage>,
    /// Regions of the content known to be opaque.
    pub opaque_regions: Vec<Rectangle>,
    /// Last acknowledged configuration.
    pub current: ToplevelState,
    /// Requested, not yet acknowledged configuration.
    pub pending: ToplevelState,
    /// Requested, not yet acknowledged content size, if any.
    pub pending_size: Option<Size>,
    /// The configuration captured by the most recent round-trip request, if
    /// one was sent.
    pub sent_configure: Option<ToplevelState>,
    /// Whether the compositor has asked this window to close.
    pub close_requested: bool,
}

impl Toplevel {
    /// Sizes the protocol guarantees to be non-negative.
    pub open spec fn wf(self) -> bool {
        &&& self.min_size.non_negative()
        &&& self.max_size.non_negative()
        &&& self.size.non_negative()
    }

    /// This window with a different pending configuration.
    pub open spec fn with_pending(self, pending: ToplevelState) -> Toplevel {
        Toplevel { pending, ..self }
    }

    /// This window with a different requested content size.
    pub open spec fn with_pending_size(self, pending_size: Option<Size>) -> Toplevel {
        Toplevel { pending_size, ..self }
    }

    /// This window after a configuration round-trip was requested: the
    /// pending configuration is captured as sent.
    pub open spec fn with_configure_sent(self) -> Toplevel {
        Toplevel { sent_configure: Some(self.pending), ..self }
    }

    /// This window after the compositor asked it to close.
    pub open spec fn with_close_requested(self) -> Toplevel {
        Toplevel { close_requested: true, ..self }
    }

    /// Requests a fresh configuration round-trip: the pending configuration
    /// is captured and will be acknowledged by the client later.
    pub fn send_configure(&mut self)
        ensures
            *final(self) == old(self).with_configure_sent(),
    {
        self.sent_configure = Some(self.pending);
    }

    /// Acknowledges the most recently sent configuration, if one was sent:
    /// it becomes the current configuration.
    pub fn ack_configure(&mut self)
        ensures
            *final(self) == match old(self).sent_configure {
                Some(s) => (Toplevel { current: s, ..*old(self) }),
                None => *old(self),
            },
    {
        if let Some(s) = self.sent_configure {
            self.current = s;
        }
    }

    /// Requests that the client close this window.
    pub fn send_close(&mut self)
        ensures
            *final(self) == old(self).with_close_requested(),
    {
        self.close_requested = true;
    }
}

} // verus!
