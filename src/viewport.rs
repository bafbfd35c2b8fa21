use vstd::prelude::*;

verus! {

/// Pixels moved by one pan step.
pub const PAN_STEP: i32 = 10;

/// Zoom factor 1.0, in fixed point with 16 fractional bits.
pub const ZOOM_ONE: u32 = 65536;

/// Smallest zoom, 1/4096: from here on a zoom-in step always grows the zoom.
pub const ZOOM_MIN: u32 = 16;

/// Intrinsic size of a document, in whole document units.
#[derive(Clone, Copy, Debug, PartialEq, Eq)]
pub struct DocSize {
    pub width: u32,
    pub height: u32,
}

impl DocSize {
    pub open spec fn wf(self) -> bool {
        self.width > 0 && self.height > 0
    }
}

/// One discrete zoom step: in multiplies by 11/10, out by 10/11.
#[derive(Clone, Copy, Debug, PartialEq, Eq)]
pub enum ZoomStep {
    In,
    Out,
}

/// Pan offset in pixels, zoom factor as `zoom / ZOOM_ONE`, auto-fit mode
/// and the fit scale `fit_num / fit_den`.
#[derive(Clone, Copy, Debug, PartialEq, Eq)]
pub struct ViewportState {
    pub pan_x: i32,
    pub pan_y: i32,
    pub zoom: u32,
    pub auto_fit: bool,
    pub fit_num: u32,
    pub fit_den: u32,
}

/// The affine transform a frame is painted with: scale
/// `scale_num / scale_den`, then translation
/// `(offset_x_num / offset_den, offset_y_num / offset_den)`.
#[derive(Clone, Copy, Debug, PartialEq, Eq)]
pub struct RenderTransform {
    pub scale_num: u64,
    pub scale_den: u64,
    pub offset_x_num: i128,
    pub offset_y_num: i128,
    pub offset_den: u64,
}

/// The fit scale `min(w / dw, h / dh)` as a (numerator, denominator) pair.
pub open spec fn fit_ratio(w: int, h: int, doc: DocSize) -> (int, int) {
    if w * doc.height <= h * doc.width {
        (w, doc.width as int)
    } else {
        (h, doc.height as int)
    }
}

pub open spec fn clamp_i32(x: int) -> int {
    if x < i32::MIN {
        i32::MIN as int
    } else if x > i32::MAX {
        i32::MAX as int
    } else {
        x
    }
}

/// The zoom after one step, kept within `ZOOM_MIN ..= u32::MAX`.
pub open spec fn zoomed(z: int, step: ZoomStep) -> int {
    match step {
        ZoomStep::In => {
            if z * 11 / 10 > u32::MAX {
                u32::MAX as int
            } else {
                z * 11 / 10
            }
        },
        ZoomStep::Out => {
            if z * 10 / 11 < ZOOM_MIN {
                ZOOM_MIN as int
            } else {
                z * 10 / 11
            }
        },
    }
}

/// The canonical state that reset returns to: no pan, zoom 1, auto-fit on,
/// the fit scale kept.
pub open spec fn reset_of(v: ViewportState) -> ViewportState {
    ViewportState { pan_x: 0, pan_y: 0, zoom: ZOOM_ONE, auto_fit: true, ..v }
}

/// `a + b`, held within the bounds of `i32`.
pub fn saturating_sum(a: i32, b: i32) -> (r: i32)
    ensures
        r == clamp_i32(a + b),
{
    let s: i64 = a as i64 + b as i64;
    if s < i32::MIN as i64 {
        i32::MIN
    } else if s > i32::MAX as i64 {
        i32::MAX
    } else {
        s as i32
    }
}

/// The state after adding `(dx, dy)` to the pan: auto-fit is left.
pub open spec fn panned(v: ViewportState, dx: int, dy: int) -> ViewportState {
    ViewportState {
        pan_x: clamp_i32(v.pan_x + dx) as i32,
        pan_y: clamp_i32(v.pan_y + dy) as i32,
        auto_fit: false,
        ..v
    }
}

/// The state after one zoom step: auto-fit is left.
pub open spec fn zoomed_by(v: ViewportState, step: ZoomStep) -> ViewportState {
    ViewportState { zoom: zoomed(v.zoom as int, step) as u32, auto_fit: false, ..v }
}

impl ViewportState {
    pub open spec fn wf(self) -> bool {
        self.zoom >= ZOOM_MIN && self.fit_num >= 1 && self.fit_den >= 1
    }

    pub open spec fn is_canonical(self) -> bool {
        self.pan_x == 0 && self.pan_y == 0 && self.zoom == ZOOM_ONE && self.auto_fit
    }

    /// Numerator of the effective scale `fit * zoom`.
    pub open spec fn scale_num_of(self) -> int {
        self.fit_num * self.zoom
    }

    /// Denominator of the effective scale `fit * zoom`.
    pub open spec fn scale_den_of(self) -> int {
        ZOOM_ONE * self.fit_den
    }

    /// Denominator shared by both offsets.
    pub open spec fn offset_den_of(self) -> int {
        2 * self.scale_den_of()
    }

    /// Numerator of `(w - dw * scale) / 2 + pan_x` over `offset_den_of`.
    pub open spec fn offset_x_of(self, w: int, doc: DocSize) -> int {
        w * self.scale_den_of() - doc.width * self.scale_num_of() + self.pan_x
            * self.offset_den_of()
    }

    /// Numerator of `(h - dh * scale) / 2 + pan_y` over `offset_den_of`.
    pub open spec fn offset_y_of(self, h: int, doc: DocSize) -> int {
        h * self.scale_den_of() - doc.height * self.scale_num_of() + self.pan_y
            * self.offset_den_of()
    }

    /// The transform that scales by `fit * zoom` and centres the document,
    /// shifted by the pan.
    pub open spec fn transform_of(self, w: int, h: int, doc: DocSize) -> RenderTransform {
        RenderTransform {
            scale_num: self.scale_num_of() as u64,
            scale_den: self.scale_den_of() as u64,
            offset_x_num: self.offset_x_of(w, doc) as i128,
            offset_y_num: self.offset_y_of(h, doc) as i128,
            offset_den: self.offset_den_of() as u64,
        }
    }

    /// The state a session starts in.
    pub open spec fn new_spec() -> Self {
        ViewportState { pan_x: 0, pan_y: 0, zoom: ZOOM_ONE, auto_fit: true, fit_num: 1, fit_den: 1 }
    }

    /// The start state: canonical, with fit scale 1.
    pub fn new() -> (r: Self)
        ensures
            r == Self::new_spec(),
            r.wf(),
            r.is_canonical(),
    {
        ViewportState { pan_x: 0, pan_y: 0, zoom: ZOOM_ONE, auto_fit: true, fit_num: 1, fit_den: 1 }
    }

    /// Back to the canonical state; the fit scale is left for the next fit.
    pub fn reset(&mut self)
        ensures
            *final(self) == reset_of(*old(self)),
    {
        self.pan_x = 0;
        self.pan_y = 0;
        self.zoom = ZOOM_ONE;
        self.auto_fit = true;
    }

    /// Adds to the pan (saturating at the bounds of `i32`) and leaves auto-fit.
    pub fn apply_pan(&mut self, dx: i32, dy: i32)
        ensures
            *final(self) == panned(*old(self), dx as int, dy as int),
    {
        self.pan_x = saturating_sum(self.pan_x, dx);
        self.pan_y = saturating_sum(self.pan_y, dy);
        self.auto_fit = false;
    }

    /// Multiplies the zoom by one step and leaves auto-fit.
    pub fn apply_zoom(&mut self, step: ZoomStep)
        requires
            old(self).wf(),
        ensures
            final(self).wf(),
            *final(self) == zoomed_by(*old(self), step),
            step == ZoomStep::In && old(self).zoom < u32::MAX ==> final(self).zoom > old(self).zoom,
            step == ZoomStep::Out && old(self).zoom > ZOOM_MIN ==> final(self).zoom < old(self).zoom,
    {
        let z: u64 = self.zoom as u64;
        match step {
            ZoomStep::In => {
                let n: u64 = z * 11 / 10;
                self.zoom = if n > u32::MAX as u64 {
                    u32::MAX
                } else {
                    n as u32
                };
            },
            ZoomStep::Out => {
                let n: u64 = z * 10 / 11;
                self.zoom = if n < ZOOM_MIN as u64 {
                    ZOOM_MIN
                } else {
                    n as u32
                };
            },
        }
        self.auto_fit = false;
    }

    /// Sets the fit scale to `min(w / dw, h / dh)`.
    pub fn recompute_fit_scale(&mut self, w: u32, h: u32, doc: DocSize)
        requires
            old(self).wf(),
            w >= 1,
            h >= 1,
            doc.wf(),
        ensures
            final(self).wf(),
            (final(self).fit_num as int, final(self).fit_den as int) == fit_ratio(
                w as int,
                h as int,
                doc,
            ),
            final(self).pan_x == old(self).pan_x,
            final(self).pan_y == old(self).pan_y,
            final(self).zoom == old(self).zoom,
            final(self).auto_fit == old(self).auto_fit,
    {
        proof {
            lemma_mul_le(w as int, doc.height as int, 0xffff_ffff, 0xffff_ffff);
            lemma_mul_le(h as int, doc.width as int, 0xffff_ffff, 0xffff_ffff);
        }
        if (w as u64) * (doc.height as u64) <= (h as u64) * (doc.width as u64) {
            self.fit_num = w;
            self.fit_den = doc.width;
        } else {
            self.fit_num = h;
            self.fit_den = doc.height;
        }
    }

    /// The transform for painting `doc` into a `w` by `h` surface.
    pub fn transform(&self, w: u32, h: u32, doc: DocSize) -> (r: RenderTransform)
        requires
            self.wf(),
        ensures
            r == self.transform_of(w as int, h as int, doc),
    {
        let fnum: u64 = self.fit_num as u64;
        let fden: u64 = self.fit_den as u64;
        proof {
            lemma_mul_le(fnum as int, self.zoom as int, 0xffff_ffff, 0xffff_ffff);
            lemma_mul_le(ZOOM_ONE as int, fden as int, 0x1_0000, 0xffff_ffff);
        }
        let scale_num: u64 = fnum * (self.zoom as u64);
        let scale_den: u64 = (ZOOM_ONE as u64) * fden;
        let offset_den: u64 = 2 * scale_den;
        let wide: i128 = scale_num as i128;
        let sd: i128 = scale_den as i128;
        let od: i128 = offset_den as i128;
        proof {
            lemma_mul_le(w as int, sd as int, 0xffff_ffff, 0x1_0000_0000_0000);
            lemma_mul_le(h as int, sd as int, 0xffff_ffff, 0x1_0000_0000_0000);
            lemma_mul_le(doc.width as int, wide as int, 0xffff_ffff, 0xffff_ffff_ffff_ffff);
            lemma_mul_le(doc.height as int, wide as int, 0xffff_ffff, 0xffff_ffff_ffff_ffff);
            lemma_signed_mul_le(self.pan_x as int, od as int, 0x8000_0000, 0x2_0000_0000_0000);
            lemma_signed_mul_le(self.pan_y as int, od as int, 0x8000_0000, 0x2_0000_0000_0000);
        }
        let offset_x_num: i128 = (w as i128) * sd - (doc.width as i128) * wide + (self.pan_x as i128)
            * od;
        let offset_y_num: i128 = (h as i128) * sd - (doc.height as i128) * wide + (self.pan_y as i128)
            * od;
        RenderTransform { scale_num, scale_den, offset_x_num, offset_y_num, offset_den }
    }
}

proof fn lemma_mul_le(a: int, b: int, ma: int, mb: int)
    requires
        0 <= a <= ma,
        0 <= b <= mb,
    ensures
        0 <= a * b <= ma * mb,
{
    assert(0 <= a * b <= ma * mb) by (nonlinear_arith)
        requires
            0 <= a <= ma,
            0 <= b <= mb,
    ;
}

proof fn lemma_signed_mul_le(a: int, b: int, ma: int, mb: int)
    requires
        -ma <= a <= ma,
        0 <= b <= mb,
    ensures
        -(ma * mb) <= a * b <= ma * mb,
{
    assert(-(ma * mb) <= a * b <= ma * mb) by (nonlinear_arith)
        requires
            -ma <= a <= ma,
            0 <= b <= mb,
    ;
}

/// Resetting twice gives the state that resetting once gives.
pub proof fn lemma_reset_idempotent(v: ViewportState)
    ensures
        reset_of(reset_of(v)) == reset_of(v),
        reset_of(v).is_canonical(),
{
}

/// With no pan, the document is centred: its left margin
/// `offset_x` and right margin `w - offset_x - dw * scale` are equal, and so
/// are the top and bottom margins.
pub proof fn lemma_centered(v: ViewportState, w: int, h: int, doc: DocSize)
    requires
        v.pan_x == 0,
        v.pan_y == 0,
    ensures
        2 * v.offset_x_of(w, doc) * v.scale_den_of() + doc.width * v.scale_num_of()
            * v.offset_den_of() == w * v.offset_den_of() * v.scale_den_of(),
        2 * v.offset_y_of(h, doc) * v.scale_den_of() + doc.height * v.scale_num_of()
            * v.offset_den_of() == h * v.offset_den_of() * v.scale_den_of(),
{
    let s = v.scale_den_of();
    let n = v.scale_num_of();
    assert(v.offset_x_of(w, doc) == w * s - doc.width * n);
    assert(v.offset_y_of(h, doc) == h * s - doc.height * n);
    assert(2 * (w * s - doc.width * n) * s + doc.width * n * (2 * s) == w * (2 * s) * s)
        by (nonlinear_arith);
    assert(2 * (h * s - doc.height * n) * s + doc.height * n * (2 * s) == h * (2 * s) * s)
        by (nonlinear_arith);
}

} // verus!
