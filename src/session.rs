use vstd::prelude::*;
use resvg::usvg;
use crate::cache::{parse_tree, plainly_malformed, DocumentCache};
use crate::events::{batch_requests_reload, batch_triggers_reload, idle_timeout_ms,
    notification_requests_reload, notification_triggers_reload, Notification, POLL_ACTIVE_MS,
    POLL_INACTIVE_MS};
use crate::viewport::{
    fit_ratio, panned, reset_of, zoomed_by, RenderTransform, ViewportState, ZoomStep, PAN_STEP,
};

verus! {

/// The navigation keys held during one pass of the loop: pan left (H),
/// down (J), up (K) and right (L), zoom in and out, and reset (R).
#[derive(Clone, Copy, Debug, PartialEq, Eq, Default)]
pub struct Keys {
    pub left: bool,
    pub down: bool,
    pub up: bool,
    pub right: bool,
    pub zoom_in: bool,
    pub zoom_out: bool,
    pub reset: bool,
}

impl Keys {
    pub open spec fn any(self) -> bool {
        self.left || self.down || self.up || self.right || self.zoom_in || self.zoom_out
            || self.reset
    }
}

/// The viewport after the held keys are applied in turn: up, down, left,
/// right, zoom in, zoom out, reset.
pub open spec fn after_keys(v: ViewportState, k: Keys) -> ViewportState {
    let v1 = if k.up { panned(v, 0, PAN_STEP as int) } else { v };
    let v2 = if k.down { panned(v1, 0, -PAN_STEP) } else { v1 };
    let v3 = if k.left { panned(v2, PAN_STEP as int, 0) } else { v2 };
    let v4 = if k.right { panned(v3, -PAN_STEP, 0) } else { v3 };
    let v5 = if k.zoom_in { zoomed_by(v4, ZoomStep::In) } else { v4 };
    let v6 = if k.zoom_out { zoomed_by(v5, ZoomStep::Out) } else { v5 };
    if k.reset { reset_of(v6) } else { v6 }
}

/// Whatever else is held with it, the reset key leaves the viewport in the
/// canonical state: no pan, zoom 1, auto-fit on.
pub proof fn lemma_reset_key_restores(v: ViewportState, k: Keys)
    requires
        k.reset,
    ensures
        after_keys(v, k).is_canonical(),
{
}

/// What the loop does at the end of a pass: draw and show a frame, or pump
/// the window once and block for change events up to the timeout.
#[derive(Clone, Copy, Debug, PartialEq, Eq)]
pub enum Step {
    Present,
    Wait { timeout_ms: u64 },
}

/// A window dimension as the loop keeps it: at least 1, at most `u32::MAX`.
pub open spec fn dimension(n: int) -> int {
    if n < 1 {
        1
    } else if n > u32::MAX {
        u32::MAX as int
    } else {
        n
    }
}

fn to_dimension(n: usize) -> (r: u32)
    ensures
        r == dimension(n as int),
{
    if n < 1 {
        1
    } else if n > u32::MAX as usize {
        u32::MAX
    } else {
        n as u32
    }
}

/// The state of the preview loop: the document, the viewport, the window
/// size, whether the frame shown is stale, whether the window had focus on
/// the last pass, and whether a change seen while idle still awaits a reload.
pub struct Session {
    pub cache: DocumentCache,
    pub viewport: ViewportState,
    pub width: u32,
    pub height: u32,
    pub dirty: bool,
    pub was_active: bool,
    pub reload_pending: bool,
}

impl Session {
    pub open spec fn wf(&self) -> bool {
        &&& self.cache.wf()
        &&& self.viewport.wf()
        &&& self.width >= 1
        &&& self.height >= 1
    }

    /// The fit scale that the current window and document call for.
    pub open spec fn fits_window(&self) -> bool {
        match self.cache.current {
            Some(d) => (self.viewport.fit_num as int, self.viewport.fit_den as int) == fit_ratio(
                self.width as int,
                self.height as int,
                d.size,
            ),
            None => true,
        }
    }

    /// A session that starts stale, so that the first frame is drawn, with
    /// the canonical viewport.
    pub fn new(cache: DocumentCache, width: usize, height: usize, active: bool) -> (r: Self)
        requires
            cache.wf(),
        ensures
            r.wf(),
            r.cache == cache,
            r.viewport == ViewportState::new_spec(),
            r.width == dimension(width as int),
            r.height == dimension(height as int),
            r.dirty,
            r.was_active == active,
            !r.reload_pending,
    {
        Session {
            cache,
            viewport: ViewportState::new(),
            width: to_dimension(width),
            height: to_dimension(height),
            dirty: true,
            was_active: active,
            reload_pending: false,
        }
    }

    /// Records the window's focus; regaining it makes the frame stale.
    pub fn note_focus(&mut self, active: bool)
        ensures
            final(self).dirty == (old(self).dirty || (active && !old(self).was_active)),
            final(self).was_active == active,
            final(self).cache == old(self).cache,
            final(self).viewport == old(self).viewport,
            final(self).width == old(self).width,
            final(self).height == old(self).height,
            final(self).reload_pending == old(self).reload_pending,
    {
        if active && !self.was_active {
            self.dirty = true;
        }
        self.was_active = active;
    }

    /// Drains the queued deliveries: true when one of them, or a change seen
    /// while idle, asks for a reload of `target`. The caller then reloads
    /// once, however many records asked.
    pub fn take_reload_request(&mut self, batch: &Vec<Notification>, target: &Vec<u8>) -> (r: bool)
        ensures
            r == (old(self).reload_pending || batch_requests_reload(batch@, target@)),
            !final(self).reload_pending,
            final(self).cache == old(self).cache,
            final(self).viewport == old(self).viewport,
            final(self).width == old(self).width,
            final(self).height == old(self).height,
            final(self).dirty == old(self).dirty,
            final(self).was_active == old(self).was_active,
    {
        let asked = batch_triggers_reload(batch, target);
        let r = self.reload_pending || asked;
        self.reload_pending = false;
        r
    }

    /// Installs a parse result. A parsed tree becomes the cached document,
    /// the viewport returns to the canonical state fitted to the current
    /// window, and the frame is stale; `None` changes nothing.
    pub fn install_parsed(&mut self, parsed: Option<usvg::Tree>) -> (r: bool)
        requires
            old(self).wf(),
        ensures
            final(self).wf(),
            r == parsed.is_some(),
            parsed.is_some() ==> {
                &&& final(self).cache.current.is_some()
                &&& final(self).cache.current.unwrap().tree == parsed.unwrap()
                &&& final(self).viewport.is_canonical()
                &&& final(self).fits_window()
                &&& final(self).dirty
                &&& final(self).width == old(self).width
                &&& final(self).height == old(self).height
                &&& final(self).was_active == old(self).was_active
                &&& final(self).reload_pending == old(self).reload_pending
            },
            parsed.is_none() ==> *final(self) == *old(self),
    {
        let ok = self.cache.install(parsed);
        if ok {
            self.viewport.reset();
            self.dirty = true;
            self.fit_to_window();
        }
        ok
    }

    /// Reloads the document from `data` (`None` when the file could not be
    /// read): parses it and installs the result. On success the viewport
    /// returns to the canonical state, fitted to the current window, and the
    /// frame is stale; on failure nothing changes.
    pub fn reload(&mut self, data: Option<Vec<u8>>, opts: &usvg::Options) -> (r: bool)
        requires
            old(self).wf(),
        ensures
            final(self).wf(),
            data.is_none() ==> !r,
            data.is_some() && plainly_malformed(data.unwrap()@) ==> !r,
            r ==> {
                &&& final(self).cache.current.is_some()
                &&& final(self).viewport.is_canonical()
                &&& final(self).fits_window()
                &&& final(self).dirty
                &&& final(self).width == old(self).width
                &&& final(self).height == old(self).height
                &&& final(self).was_active == old(self).was_active
                &&& final(self).reload_pending == old(self).reload_pending
            },
            !r ==> *final(self) == *old(self),
    {
        match data {
            None => false,
            Some(bytes) => self.install_parsed(parse_tree(bytes.as_slice(), opts)),
        }
    }

    fn fit_to_window(&mut self)
        requires
            old(self).wf(),
        ensures
            final(self).wf(),
            final(self).fits_window(),
            final(self).cache.current.is_none() ==> final(self).viewport == old(self).viewport,
            final(self).viewport == (ViewportState {
                fit_num: final(self).viewport.fit_num,
                fit_den: final(self).viewport.fit_den,
                ..old(self).viewport
            }),
            final(self).cache == old(self).cache,
            final(self).width == old(self).width,
            final(self).height == old(self).height,
            final(self).dirty == old(self).dirty,
            final(self).was_active == old(self).was_active,
            final(self).reload_pending == old(self).reload_pending,
    {
        match self.cache.doc_size() {
            Some(size) => self.viewport.recompute_fit_scale(self.width, self.height, size),
            None => {},
        }
    }

    /// Takes the window's current size; a change makes the frame stale.
    pub fn resize(&mut self, width: usize, height: usize)
        requires
            old(self).wf(),
        ensures
            final(self).wf(),
            final(self).width == dimension(width as int),
            final(self).height == dimension(height as int),
            final(self).dirty == (old(self).dirty || final(self).width != old(self).width
                || final(self).height != old(self).height),
            final(self).cache == old(self).cache,
            final(self).viewport == old(self).viewport,
            final(self).was_active == old(self).was_active,
            final(self).reload_pending == old(self).reload_pending,
    {
        let w = to_dimension(width);
        let h = to_dimension(height);
        if w != self.width || h != self.height {
            self.width = w;
            self.height = h;
            self.dirty = true;
        }
    }

    /// Recomputes the fit scale when the frame is stale and auto-fit is on.
    pub fn refresh_fit(&mut self)
        requires
            old(self).wf(),
        ensures
            final(self).wf(),
            old(self).dirty && old(self).viewport.auto_fit ==> final(self).fits_window(),
            old(self).dirty && old(self).viewport.auto_fit ==> final(self).viewport == (
            ViewportState {
                fit_num: final(self).viewport.fit_num,
                fit_den: final(self).viewport.fit_den,
                ..old(self).viewport
            }),
            !(old(self).dirty && old(self).viewport.auto_fit) ==> *final(self) == *old(self),
            final(self).cache.current.is_none() ==> final(self).viewport == old(self).viewport,
            final(self).cache == old(self).cache,
            final(self).width == old(self).width,
            final(self).height == old(self).height,
            final(self).dirty == old(self).dirty,
            final(self).was_active == old(self).was_active,
            final(self).reload_pending == old(self).reload_pending,
    {
        if self.dirty && self.viewport.auto_fit {
            self.fit_to_window();
        }
    }

    /// Applies the held keys to the viewport; any held key makes the frame
    /// stale.
    pub fn apply_input(&mut self, keys: Keys)
        requires
            old(self).wf(),
        ensures
            final(self).wf(),
            final(self).viewport == after_keys(old(self).viewport, keys),
            final(self).dirty == (old(self).dirty || keys.any()),
            final(self).cache == old(self).cache,
            final(self).width == old(self).width,
            final(self).height == old(self).height,
            final(self).was_active == old(self).was_active,
            final(self).reload_pending == old(self).reload_pending,
    {
        if keys.up {
            self.viewport.apply_pan(0, PAN_STEP);
        }
        if keys.down {
            self.viewport.apply_pan(0, -PAN_STEP);
        }
        if keys.left {
            self.viewport.apply_pan(PAN_STEP, 0);
        }
        if keys.right {
            self.viewport.apply_pan(-PAN_STEP, 0);
        }
        if keys.zoom_in {
            self.viewport.apply_zoom(ZoomStep::In);
        }
        if keys.zoom_out {
            self.viewport.apply_zoom(ZoomStep::Out);
        }
        if keys.reset {
            self.viewport.reset();
        }
        if keys.left || keys.down || keys.up || keys.right || keys.zoom_in || keys.zoom_out
            || keys.reset {
            self.dirty = true;
        }
    }

    /// Handles a delivery received while idle: when it asks for a reload of
    /// `target`, the frame is stale and the reload waits for the next pass.
    pub fn note_idle_notification(&mut self, n: &Notification, target: &Vec<u8>)
        ensures
            notification_requests_reload(*n, target@) ==> final(self).dirty
                && final(self).reload_pending,
            !notification_requests_reload(*n, target@) ==> *final(self) == *old(self),
            final(self).cache == old(self).cache,
            final(self).viewport == old(self).viewport,
            final(self).width == old(self).width,
            final(self).height == old(self).height,
            final(self).was_active == old(self).was_active,
    {
        if notification_triggers_reload(n, target) {
            self.dirty = true;
            self.reload_pending = true;
        }
    }

    /// The transform for painting the cached document, if there is one.
    pub fn render_transform(&self) -> (r: Option<RenderTransform>)
        requires
            self.wf(),
        ensures
            r == match self.cache.current {
                Some(d) => Some(
                    self.viewport.transform_of(self.width as int, self.height as int, d.size),
                ),
                None => None::<RenderTransform>,
            },
    {
        match self.cache.doc_size() {
            Some(size) => Some(self.viewport.transform(self.width, self.height, size)),
            None => None,
        }
    }

    /// A stale frame is drawn now; otherwise the loop waits, briefly while
    /// the window has focus and longer while it has not.
    pub fn next_step(&self, active: bool) -> (r: Step)
        ensures
            self.dirty ==> r == Step::Present,
            !self.dirty ==> r == (Step::Wait {
                timeout_ms: if active { POLL_ACTIVE_MS } else { POLL_INACTIVE_MS },
            }),
    {
        if self.dirty {
            Step::Present
        } else {
            Step::Wait { timeout_ms: idle_timeout_ms(active) }
        }
    }

    /// Marks the frame as drawn and shown.
    pub fn frame_presented(&mut self)
        ensures
            !final(self).dirty,
            final(self).cache == old(self).cache,
            final(self).viewport == old(self).viewport,
            final(self).width == old(self).width,
            final(self).height == old(self).height,
            final(self).was_active == old(self).was_active,
            final(self).reload_pending == old(self).reload_pending,
    {
        self.dirty = false;
    }
}

} // verus!
