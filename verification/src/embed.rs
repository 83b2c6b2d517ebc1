//! Bookkeeping for the X11 child window that mpv draws into. The X11 calls
//! themselves are made by the caller; this type decides which to make.

use vstd::prelude::*;

verus! {

/// The state of the embedding: the parent window, the child window (0 when
/// there is none), whether the child is live, and whether a display
/// connection is open.
pub struct EmbedView {
    pub parent: u64,
    pub child: u64,
    pub active: bool,
    pub display_open: bool,
}

/// Manages the X11 child window that hosts mpv inside the preview area.
#[derive(Debug)]
pub struct EmbeddedWindow {
    parent: u64,
    child: u64,
    active: bool,
    display_open: bool,
}

/// A child window to create: first destroy `destroy` if given, then create a
/// window of `width` x `height` at (`x`, `y`) inside `parent`.
#[derive(Debug, Clone, Copy, PartialEq, Eq, Structural)]
pub struct CreatePlan {
    pub destroy: Option<u64>,
    pub parent: u64,
    pub x: i32,
    pub y: i32,
    pub width: u32,
    pub height: u32,
}

/// Where to move the live child window.
#[derive(Debug, Clone, Copy, PartialEq, Eq, Structural)]
pub struct Placement {
    pub child: u64,
    pub x: i32,
    pub y: i32,
    pub width: u32,
    pub height: u32,
}

/// X11 refuses empty windows: sizes below one become one.
pub open spec fn at_least_one(n: u32) -> u32 {
    if n < 1 {
        1
    } else {
        n
    }
}

impl View for EmbeddedWindow {
    type V = EmbedView;

    closed spec fn view(&self) -> EmbedView {
        EmbedView {
            parent: self.parent,
            child: self.child,
            active: self.active,
            display_open: self.display_open,
        }
    }
}

/// The child window may be moved, shown or hidden: it is live, it exists and
/// a display connection is open.
pub open spec fn can_act(v: EmbedView) -> bool {
    v.active && v.child != 0 && v.display_open
}

/// The child window that must be destroyed on X11 before it is forgotten.
pub open spec fn child_to_destroy(v: EmbedView) -> Option<u64> {
    if v.child != 0 && v.display_open {
        Some(v.child)
    } else {
        None
    }
}

impl EmbeddedWindow {
    /// A manager with no parent, no child and no display connection yet.
    pub fn new() -> (w: EmbeddedWindow)
        ensures
            w@ == (EmbedView { parent: 0, child: 0, active: false, display_open: false }),
    {
        EmbeddedWindow { parent: 0, child: 0, active: false, display_open: false }
    }

    /// Records the parent window. Returns whether the caller must now open a
    /// display connection (and report it with `display_opened`); nothing
    /// happens while a child window is live.
    pub fn init(&mut self, parent_xid: u64) -> (open_display: bool)
        ensures
            open_display == !old(self)@.active,
            old(self)@.active ==> final(self)@ == old(self)@,
            !old(self)@.active ==> final(self)@ == (EmbedView { parent: parent_xid, ..old(self)@ }),
    {
        if self.active {
            return false;
        }
        self.parent = parent_xid;
        true
    }

    /// Records whether opening the display connection succeeded.
    pub fn display_opened(&mut self, ok: bool)
        ensures
            final(self)@ == (EmbedView { display_open: ok, ..old(self)@ }),
    {
        self.display_open = ok;
    }

    /// Prepares a child window at the given position and size (physical
    /// pixels). `None` when there is no display or parent yet; otherwise the
    /// old child is forgotten (and returned for destruction) and the sizes are
    /// at least one.
    pub fn create(&mut self, x: i32, y: i32, w: u32, h: u32) -> (plan: Option<CreatePlan>)
        ensures
            !old(self)@.display_open || old(self)@.parent == 0 ==> plan is None && final(self)@
                == old(self)@,
            old(self)@.display_open && old(self)@.parent != 0 ==> plan == Some(
                CreatePlan {
                    destroy: child_to_destroy(old(self)@),
                    parent: old(self)@.parent,
                    x,
                    y,
                    width: at_least_one(w),
                    height: at_least_one(h),
                },
            ) && final(self)@ == (EmbedView { child: 0, active: false, ..old(self)@ }),
    {
        if !self.display_open || self.parent == 0 {
            return None;
        }
        let destroy = self.destroy();
        let width = if w < 1 { 1 } else { w };
        let height = if h < 1 { 1 } else { h };
        Some(CreatePlan { destroy, parent: self.parent, x, y, width, height })
    }

    /// Records the window X11 created: 0 means creation failed.
    pub fn created(&mut self, child_xid: u64) -> (r: Option<u64>)
        ensures
            child_xid == 0 ==> r is None && final(self)@ == old(self)@,
            child_xid != 0 ==> r == Some(child_xid) && final(self)@ == (EmbedView {
                child: child_xid,
                active: true,
                ..old(self)@
            }),
    {
        if child_xid == 0 {
            return None;
        }
        self.child = child_xid;
        self.active = true;
        Some(child_xid)
    }

    /// Where to move and resize the child window, if it is live.
    pub fn reposition(&self, x: i32, y: i32, w: u32, h: u32) -> (p: Option<Placement>)
        ensures
            !can_act(self@) ==> p is None,
            can_act(self@) ==> p == Some(
                Placement { child: self@.child, x, y, width: at_least_one(w), height: at_least_one(h) },
            ),
    {
        if !self.active || self.child == 0 || !self.display_open {
            return None;
        }
        let width = if w < 1 { 1 } else { w };
        let height = if h < 1 { 1 } else { h };
        Some(Placement { child: self.child, x, y, width, height })
    }

    /// The window to unmap, if the child is live.
    pub fn hide_child(&self) -> (c: Option<u64>)
        ensures
            c == (if can_act(self@) { Some(self@.child) } else { None::<u64> }),
    {
        if !self.active || self.child == 0 || !self.display_open {
            return None;
        }
        Some(self.child)
    }

    /// The window to map again, if the child is live.
    pub fn show(&self) -> (c: Option<u64>)
        ensures
            c == (if can_act(self@) { Some(self@.child) } else { None::<u64> }),
    {
        if !self.active || self.child == 0 || !self.display_open {
            return None;
        }
        Some(self.child)
    }

    /// Whether a child window is live.
    pub fn is_active(&self) -> (b: bool)
        ensures
            b == (self@.active && self@.child != 0),
    {
        self.active && self.child != 0
    }

    /// Forgets the child window; returns the window to destroy on X11, if any.
    pub fn destroy(&mut self) -> (c: Option<u64>)
        ensures
            c == child_to_destroy(old(self)@),
            final(self)@ == (EmbedView { child: 0, active: false, ..old(self)@ }),
    {
        let c = if self.child != 0 && self.display_open {
            Some(self.child)
        } else {
            None
        };
        self.child = 0;
        self.active = false;
        c
    }

    /// Tears everything down: the window to destroy, if any, and whether a
    /// display connection must be closed.
    pub fn shutdown(&mut self) -> (r: (Option<u64>, bool))
        ensures
            r.0 == child_to_destroy(old(self)@),
            r.1 == old(self)@.display_open,
            final(self)@ == (EmbedView { child: 0, active: false, display_open: false, ..old(self)@ }),
    {
        let c = self.destroy();
        let close = self.display_open;
        self.display_open = false;
        (c, close)
    }
}

} // verus!
