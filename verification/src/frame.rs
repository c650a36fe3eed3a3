use vstd::prelude::*;

use crate::region::{on_outline, outline_hit, Region, OUTLINE_THICKNESS};

verus! {

/// Samples per pixel in a captured color frame: blue, green, red.
pub const COLOR_CHANNELS: usize = 3;

/// Row-major position of the pixel in column `x`, row `y` of a grid
/// `width` pixels wide.
pub open spec fn pix(width: int, x: int, y: int) -> int {
    y * width + x
}

/// A multi-channel color frame as captured: one byte per sample, rows top
/// to bottom, pixels interleaved blue-green-red.
#[derive(Clone, PartialEq, Debug)]
pub struct ColorFrame {
    pub width: usize,
    pub height: usize,
    pub data: Vec<u8>,
}

/// A single-channel intensity frame derived from a color frame: exactly
/// one byte per pixel, rows top to bottom.
#[derive(Clone, PartialEq, Debug)]
pub struct GrayFrame {
    pub width: usize,
    pub height: usize,
    pub data: Vec<u8>,
}

impl ColorFrame {
    /// Exactly three samples for each of the frame's pixels.
    pub open spec fn wf(self) -> bool {
        self.data@.len() == self.width * self.height * COLOR_CHANNELS
    }

    /// The sample of channel `c` (blue 0, green 1, red 2) at column `x`,
    /// row `y`.
    pub open spec fn sample(self, x: int, y: int, c: int) -> u8 {
        self.data@[COLOR_CHANNELS * pix(self.width as int, x, y) + c]
    }
}

impl GrayFrame {
    /// Exactly one sample for each of the frame's pixels.
    pub open spec fn wf(self) -> bool {
        self.data@.len() == self.width * self.height
    }

    /// The intensity sample at column `x`, row `y`.
    pub open spec fn sample(self, x: int, y: int) -> u8 {
        self.data@[pix(self.width as int, x, y)]
    }
}

/// The fixed luminance weighting that reduces one blue-green-red pixel to
/// one intensity sample: 299 parts red, 587 parts green, 114 parts blue,
/// in thousandths, rounded down.
pub open spec fn luma(b: u8, g: u8, r: u8) -> u8 {
    (((299 * (r as int)) + (587 * (g as int)) + (114 * (b as int))) / 1000) as u8
}

/// `g` is the grayscale reduction of `f`: identical width and height,
/// exactly one sample per pixel, and each sample is the fixed luminance
/// weighting of that pixel's blue, green and red samples.
pub open spec fn is_gray_of(g: GrayFrame, f: ColorFrame) -> bool {
    &&& g.width == f.width
    &&& g.height == f.height
    &&& g.wf()
    &&& forall|x: int, y: int|
        0 <= x < f.width && 0 <= y < f.height ==> g.sample(x, y) == luma(
            f.sample(x, y, 0),
            f.sample(x, y, 1),
            f.sample(x, y, 2),
        )
}

/// A pixel of a grid in range has its row-major position in range.
proof fn lemma_pix_bound(w: int, h: int, x: int, y: int)
    requires
        0 <= x < w,
        0 <= y < h,
    ensures
        0 <= pix(w, x, y) < w * h,
{
    assert(0 <= y * w + x < w * h) by (nonlinear_arith)
        requires
            0 <= x < w,
            0 <= y < h,
    ;
}

/// Distinct samples of a color frame live at distinct positions in its
/// byte row: the sample position determines column, row and channel.
proof fn lemma_sample_index_injective(w: int, x1: int, y1: int, c1: int, x2: int, y2: int, c2: int)
    requires
        0 <= x1 < w,
        0 <= y1,
        0 <= c1 < 3,
        0 <= x2 < w,
        0 <= y2,
        0 <= c2 < 3,
        3 * pix(w, x1, y1) + c1 == 3 * pix(w, x2, y2) + c2,
    ensures
        x1 == x2,
        y1 == y2,
        c1 == c2,
{
    let p1 = y1 * w + x1;
    let p2 = y2 * w + x2;
    assert(c1 == c2);
    assert(p1 == p2);
    let d = y1 - y2;
    assert(d * w == x2 - x1) by (nonlinear_arith)
        requires
            p1 == p2,
            p1 == y1 * w + x1,
            p2 == y2 * w + x2,
            d == y1 - y2,
    ;
    if d >= 1 {
        assert(d * w >= w) by (nonlinear_arith)
            requires
                d >= 1,
                w >= 1,
        ;
    }
    if d <= -1 {
        assert(d * w <= -w) by (nonlinear_arith)
            requires
                d <= -1,
                w >= 1,
        ;
    }
}

/// The marker color painted around a detected region, by channel: solid
/// green, written in the frame's blue-green-red sample order.
pub open spec fn marker_sample(c: int) -> u8 {
    if c == 1 {
        255
    } else {
        0
    }
}

/// What one sample of `before` looks like once the outlines of every
/// region in `rs` have been painted: the marker color wherever some
/// region's outline band passes, the original sample everywhere else.
pub open spec fn annotated_sample(before: ColorFrame, rs: Seq<Region>, x: int, y: int, c: int) -> u8 {
    if exists|i: int| 0 <= i < rs.len() && on_outline(rs[i], OUTLINE_THICKNESS as int, x, y) {
        marker_sample(c)
    } else {
        before.sample(x, y, c)
    }
}

/// `after` is `before` with the outline of every region in `rs` painted:
/// same dimensions, and every sample inside the frame is the annotated
/// form of the original. Regions are used exactly as given — a band that
/// leaves the frame is simply cut off by the frame's edge, never moved.
pub open spec fn is_annotated(after: ColorFrame, before: ColorFrame, rs: Seq<Region>) -> bool {
    &&& after.width == before.width
    &&& after.height == before.height
    &&& after.wf()
    &&& forall|x: int, y: int, c: int|
        0 <= x < before.width && 0 <= y < before.height && 0 <= c < COLOR_CHANNELS
            ==> after.sample(x, y, c) == annotated_sample(before, rs, x, y, c)
}

/// With no detection regions there is nothing to paint: every sample
/// keeps its prior value.
pub proof fn lemma_no_regions_no_marks(before: ColorFrame, x: int, y: int, c: int)
    ensures
        annotated_sample(before, Seq::<Region>::empty(), x, y, c) == before.sample(x, y, c),
{
}

/// Runtime evaluation of the fixed luminance weighting.
fn luma_value(b: u8, g: u8, r: u8) -> (v: u8)
    ensures
        v == luma(b, g, r),
{
    let sum: u32 = 299 * (r as u32) + 587 * (g as u32) + 114 * (b as u32);
    assert(sum <= 255000);
    (sum / 1000) as u8
}

impl ColorFrame {
    /// Wrap raw interleaved blue-green-red bytes as a frame when their
    /// number fits the dimensions exactly; reject anything else.
    pub fn from_raw(width: usize, height: usize, data: Vec<u8>) -> (res: Option<ColorFrame>)
        ensures
            match res {
                Some(f) => {
                    &&& f.width == width
                    &&& f.height == height
                    &&& f.data@ == data@
                    &&& f.wf()
                },
                None => data@.len() != width * height * COLOR_CHANNELS,
            },
    {
        let len: usize = data.len();
        if let Some(p) = width.checked_mul(height) {
            if let Some(n) = p.checked_mul(COLOR_CHANNELS) {
                if n == len {
                    return Some(ColorFrame { width, height, data });
                }
            }
        } else {
            proof {
                assert(width * height <= width * height * COLOR_CHANNELS) by (nonlinear_arith);
            }
        }
        None
    }

    /// Reduce to grayscale: same width and height, one sample per pixel,
    /// each the fixed luminance weighting of that pixel.
    pub fn to_gray(&self) -> (g: GrayFrame)
        requires
            self.wf(),
        ensures
            is_gray_of(g, *self),
    {
        let _len: usize = self.data.len();
        assert(self.width * self.height <= _len);
        let n: usize = self.width * self.height;
        let mut out: Vec<u8> = Vec::new();
        let mut i: usize = 0;
        while i < n
            invariant
                self.wf(),
                n == self.width * self.height,
                self.data@.len() == 3 * n,
                self.data@.len() <= usize::MAX,
                i <= n,
                out@.len() == i,
                forall|j: int|
                    0 <= j < i ==> out@[j] == luma(
                        self.data@[3 * j],
                        self.data@[3 * j + 1],
                        self.data@[3 * j + 2],
                    ),
            decreases n - i,
        {
            let b = self.data[3 * i];
            let g = self.data[3 * i + 1];
            let r = self.data[3 * i + 2];
            let v = luma_value(b, g, r);
            out.push(v);
            i += 1;
        }
        let result = GrayFrame { width: self.width, height: self.height, data: out };
        proof {
            assert forall|x: int, y: int|
                0 <= x < self.width && 0 <= y < self.height implies result.sample(x, y) == luma(
                self.sample(x, y, 0),
                self.sample(x, y, 1),
                self.sample(x, y, 2),
            ) by {
                lemma_pix_bound(self.width as int, self.height as int, x, y);
                let j = pix(self.width as int, x, y);
                assert(out@[j] == luma(self.data@[3 * j], self.data@[3 * j + 1], self.data@[3 * j + 2]));
            };
        }
        result
    }

    /// Overwrite the one sample of channel `c` at column `x`, row `y`,
    /// leaving every other sample of the frame unchanged.
    fn set_sample(&mut self, x: usize, y: usize, c: usize, v: u8)
        requires
            old(self).wf(),
            x < old(self).width,
            y < old(self).height,
            c < COLOR_CHANNELS,
        ensures
            final(self).wf(),
            final(self).width == old(self).width,
            final(self).height == old(self).height,
            final(self).sample(x as int, y as int, c as int) == v,
            forall|x2: int, y2: int, c2: int|
                0 <= x2 < old(self).width && 0 <= y2 < old(self).height && 0 <= c2
                    < COLOR_CHANNELS && !(x2 == x as int && y2 == y as int && c2 == c as int)
                    ==> final(self).sample(x2, y2, c2) == old(self).sample(x2, y2, c2),
    {
        proof {
            lemma_pix_bound(self.width as int, self.height as int, x as int, y as int);
        }
        let _len: usize = self.data.len();
        let p: usize = y * self.width + x;
        let idx: usize = COLOR_CHANNELS * p + c;
        self.data[idx] = v;
        proof {
            let w = old(self).width as int;
            let h = old(self).height as int;
            assert forall|x2: int, y2: int, c2: int|
                0 <= x2 < w && 0 <= y2 < h && 0 <= c2 < COLOR_CHANNELS && !(x2 == x as int && y2
                    == y as int && c2 == c as int) implies self.sample(x2, y2, c2) == old(
                self,
            ).sample(x2, y2, c2) by {
                lemma_pix_bound(w, h, x2, y2);
                if COLOR_CHANNELS * pix(w, x2, y2) + c2 == idx {
                    lemma_sample_index_injective(w, x2, y2, c2, x as int, y as int, c as int);
                }
            };
        }
    }

    /// Paint one pixel with the marker color.
    fn set_pixel_marker(&mut self, x: usize, y: usize)
        requires
            old(self).wf(),
            x < old(self).width,
            y < old(self).height,
        ensures
            final(self).wf(),
            final(self).width == old(self).width,
            final(self).height == old(self).height,
            forall|x2: int, y2: int, c2: int|
                0 <= x2 < old(self).width && 0 <= y2 < old(self).height && 0 <= c2
                    < COLOR_CHANNELS ==> final(self).sample(x2, y2, c2) == (if x2 == x as int && y2
                    == y as int {
                    marker_sample(c2)
                } else {
                    old(self).sample(x2, y2, c2)
                }),
    {
        self.set_sample(x, y, 0, 0);
        self.set_sample(x, y, 1, 255);
        self.set_sample(x, y, 2, 0);
    }

    /// Paint the marker outline of one region: every sample whose pixel
    /// lies on the region's outline band and inside the frame takes the
    /// marker color; every other sample is untouched. The region is used
    /// exactly as the detector reported it — nothing is clamped or
    /// resized to the frame.
    pub fn draw_region(&mut self, r: Region)
        requires
            old(self).wf(),
        ensures
            final(self).wf(),
            final(self).width == old(self).width,
            final(self).height == old(self).height,
            forall|x: int, y: int, c: int|
                0 <= x < old(self).width && 0 <= y < old(self).height && 0 <= c < COLOR_CHANNELS
                    ==> final(self).sample(x, y, c) == outlined_sample(*old(self), r, x, y, c),
    {
        let _len: usize = self.data.len();
        let mut y: usize = 0;
        while y < self.height
            invariant
                self.wf(),
                self.width == old(self).width,
                self.height == old(self).height,
                self.data@.len() <= usize::MAX,
                y <= self.height,
                forall|x2: int, y2: int, c2: int|
                    0 <= x2 < old(self).width && 0 <= y2 < y && 0 <= c2 < COLOR_CHANNELS
                        ==> self.sample(x2, y2, c2) == outlined_sample(*old(self), r, x2, y2, c2),
                forall|x2: int, y2: int, c2: int|
                    0 <= x2 < old(self).width && y <= y2 < old(self).height && 0 <= c2
                        < COLOR_CHANNELS ==> self.sample(x2, y2, c2) == old(self).sample(
                        x2,
                        y2,
                        c2,
                    ),
            decreases old(self).height - y,
        {
            let mut x: usize = 0;
            proof {
                assert(self.width * COLOR_CHANNELS <= self.width * self.height * COLOR_CHANNELS
                    && self.height * COLOR_CHANNELS <= self.width * self.height * COLOR_CHANNELS
                    || self.width == 0) by (nonlinear_arith)
                    requires
                        self.height >= 1,
                        self.width >= 0,
                ;
            }
            while x < self.width
                invariant
                    self.wf(),
                    self.width == old(self).width,
                    self.height == old(self).height,
                    x <= self.width,
                    y < self.height,
                    self.width * COLOR_CHANNELS <= usize::MAX || self.width == 0,
                    self.height * COLOR_CHANNELS <= usize::MAX || self.width == 0,
                    forall|x2: int, y2: int, c2: int|
                        0 <= x2 < old(self).width && 0 <= y2 < y && 0 <= c2 < COLOR_CHANNELS
                            ==> self.sample(x2, y2, c2) == outlined_sample(
                            *old(self),
                            r,
                            x2,
                            y2,
                            c2,
                        ),
                    forall|x2: int, c2: int|
                        0 <= x2 < x && 0 <= c2 < COLOR_CHANNELS ==> self.sample(x2, y as int, c2)
                            == outlined_sample(*old(self), r, x2, y as int, c2),
                    forall|x2: int, c2: int|
                        x <= x2 < old(self).width && 0 <= c2 < COLOR_CHANNELS ==> self.sample(
                            x2,
                            y as int,
                            c2,
                        ) == old(self).sample(x2, y as int, c2),
                    forall|x2: int, y2: int, c2: int|
                        0 <= x2 < old(self).width && y < y2 < old(self).height && 0 <= c2
                            < COLOR_CHANNELS ==> self.sample(x2, y2, c2) == old(self).sample(
                            x2,
                            y2,
                            c2,
                        ),
                decreases old(self).width - x,
            {
                if outline_hit(&r, x as i64, y as i64) {
                    self.set_pixel_marker(x, y);
                }
                x += 1;
            }
            y += 1;
        }
    }

    /// Paint the marker outline of every region in the list onto this
    /// frame, in the order the detector reported them. With an empty list
    /// the frame comes back untouched.
    pub fn annotate(&mut self, regions: &Vec<Region>)
        requires
            old(self).wf(),
        ensures
            is_annotated(*final(self), *old(self), regions@),
    {
        let mut k: usize = 0;
        while k < regions.len()
            invariant
                self.wf(),
                self.width == old(self).width,
                self.height == old(self).height,
                k <= regions@.len(),
                forall|x: int, y: int, c: int|
                    0 <= x < old(self).width && 0 <= y < old(self).height && 0 <= c
                        < COLOR_CHANNELS ==> self.sample(x, y, c) == annotated_sample(
                        *old(self),
                        regions@.subrange(0, k as int),
                        x,
                        y,
                        c,
                    ),
            decreases regions@.len() - k,
        {
            let r = regions[k];
            let ghost pre = *self;
            self.draw_region(r);
            proof {
                let t = OUTLINE_THICKNESS as int;
                let rsk = regions@.subrange(0, k as int);
                let rsk1 = regions@.subrange(0, k as int + 1);
                assert forall|x: int, y: int, c: int|
                    0 <= x < old(self).width && 0 <= y < old(self).height && 0 <= c
                        < COLOR_CHANNELS implies self.sample(x, y, c) == annotated_sample(
                    *old(self),
                    rsk1,
                    x,
                    y,
                    c,
                ) by {
                    assert(rsk1[k as int] == r);
                    if on_outline(r, t, x, y) {
                        assert(0 <= k < rsk1.len() && on_outline(rsk1[k as int], t, x, y));
                        assert(self.sample(x, y, c) == marker_sample(c));
                    } else {
                        assert(self.sample(x, y, c) == annotated_sample(*old(self), rsk, x, y, c));
                        if exists|i: int| 0 <= i < rsk1.len() && on_outline(rsk1[i], t, x, y) {
                            let i = choose|i: int|
                                0 <= i < rsk1.len() && on_outline(rsk1[i], t, x, y);
                            assert(i < k);
                            assert(rsk[i] == rsk1[i]);
                            assert(0 <= i < rsk.len() && on_outline(rsk[i], t, x, y));
                        } else {
                            assert(forall|i: int|
                                0 <= i < rsk.len() ==> rsk[i] == rsk1[i] && !on_outline(
                                    rsk1[i],
                                    t,
                                    x,
                                    y,
                                ));
                        }
                    }
                };
            }
            k += 1;
        }
        proof {
            assert(regions@.subrange(0, regions@.len() as int) =~= regions@);
        }
    }
}

/// What one sample of `before` looks like once the outline of the single
/// region `r` has been painted.
pub open spec fn outlined_sample(before: ColorFrame, r: Region, x: int, y: int, c: int) -> u8 {
    if on_outline(r, OUTLINE_THICKNESS as int, x, y) {
        marker_sample(c)
    } else {
        before.sample(x, y, c)
    }
}

} // verus!
