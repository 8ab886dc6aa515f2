//! The framebuffer: a color buffer, a depth buffer, and an emissive buffer,
//! all of length `width * height`, indexed row-major.
//!
//! The depth buffer holds, for every pixel, the smallest depth successfully
//! written since the last clear (`DEPTH_FAR` when nothing was drawn), and the
//! color buffer holds the color written at that minimal depth. Writes outside
//! `[0,width) x [0,height)` are silently dropped.

use vstd::prelude::*;

verus! {

/// The depth value meaning "nothing drawn here yet": larger than every
/// depth a fragment can carry, so the first write always wins.
pub const DEPTH_FAR: i64 = i64::MAX;

/// The mathematical state of a framebuffer: its dimensions, the three
/// per-pixel planes, and the two pen colors.
pub struct FbView {
    pub width: nat,
    pub height: nat,
    pub color: Seq<u32>,
    pub depth: Seq<i64>,
    pub emissive: Seq<u32>,
    pub background: u32,
    pub current: u32,
}

/// Well-formedness: the three planes each hold one entry per pixel.
pub open spec fn fb_wf(v: FbView) -> bool {
    &&& v.color.len() == v.width * v.height
    &&& v.depth.len() == v.width * v.height
    &&& v.emissive.len() == v.width * v.height
}

/// Row-major index of pixel `(x, y)`.
pub open spec fn spec_index(v: FbView, x: int, y: int) -> int {
    y * v.width + x
}

/// Whether `(x, y)` lies inside the pixel rectangle.
pub open spec fn spec_in_bounds(v: FbView, x: int, y: int) -> bool {
    0 <= x < v.width && 0 <= y < v.height
}

/// The color the view holds at pixel `(x, y)`.
pub open spec fn spec_color_at(v: FbView, x: int, y: int) -> u32 {
    v.color[spec_index(v, x, y)]
}

/// The depth-tested point write: if `(x, y)` is in bounds and `depth` is
/// strictly smaller than the stored depth, the current color and the new
/// depth are committed; otherwise nothing changes.
pub open spec fn spec_point(v: FbView, x: int, y: int, depth: i64) -> FbView {
    if spec_in_bounds(v, x, y) {
        let i = spec_index(v, x, y);
        if depth < v.depth[i] {
            FbView {
                color: v.color.update(i, v.current),
                depth: v.depth.update(i, depth),
                ..v
            }
        } else {
            v
        }
    } else {
        v
    }
}

/// The depth-gated emissive write: the same depth comparison as
/// `spec_point`, but only the emissive plane changes and the stored
/// depth is left alone.
pub open spec fn spec_emissive_point(v: FbView, x: int, y: int, color: u32, depth: i64) -> FbView {
    if spec_in_bounds(v, x, y) {
        let i = spec_index(v, x, y);
        if depth < v.depth[i] {
            FbView { emissive: v.emissive.update(i, color), ..v }
        } else {
            v
        }
    } else {
        v
    }
}

/// The cleared state: every pixel takes the background color, the far
/// depth, and zero emission.
pub open spec fn spec_clear(v: FbView) -> FbView {
    FbView {
        color: Seq::new(v.color.len(), |i: int| v.background),
        depth: Seq::new(v.depth.len(), |i: int| DEPTH_FAR),
        emissive: Seq::new(v.emissive.len(), |i: int| 0u32),
        ..v
    }
}

/// A row-major pixel index stays within a `width * height` buffer.
pub proof fn lemma_index_in_bounds(x: int, y: int, w: int, h: int)
    requires
        0 <= x < w,
        0 <= y < h,
    ensures
        0 <= y * w + x < w * h,
{
    assert(0 <= y * w + x && y * w + x < w * h) by (nonlinear_arith)
        requires
            0 <= x < w,
            0 <= y < h,
    ;
}

/// A framebuffer owning its color, depth, and emissive planes.
pub struct Framebuffer {
    pub width: usize,
    pub height: usize,
    pub buffer: Vec<u32>,
    pub zbuffer: Vec<i64>,
    pub emissive_buffer: Vec<u32>,
    pub background_color: u32,
    pub current_color: u32,
}

impl View for Framebuffer {
    type V = FbView;

    open spec fn view(&self) -> FbView {
        FbView {
            width: self.width as nat,
            height: self.height as nat,
            color: self.buffer@,
            depth: self.zbuffer@,
            emissive: self.emissive_buffer@,
            background: self.background_color,
            current: self.current_color,
        }
    }
}

impl Framebuffer {
    /// A framebuffer of the given dimensions: color cleared to zero, depth
    /// to `DEPTH_FAR`, emission to zero, with a black background and a
    /// white pen.
    pub fn new(width: usize, height: usize) -> (fb: Framebuffer)
        requires
            width * height <= usize::MAX,
        ensures
            fb_wf(fb@),
            fb@.width == width,
            fb@.height == height,
            fb@.color == Seq::new((width * height) as nat, |i: int| 0u32),
            fb@.depth == Seq::new((width * height) as nat, |i: int| DEPTH_FAR),
            fb@.emissive == Seq::new((width * height) as nat, |i: int| 0u32),
            fb@.background == 0x000000u32,
            fb@.current == 0xFFFFFFu32,
    {
        let n: usize = width * height;
        let fb = Framebuffer {
            width,
            height,
            buffer: vec![0u32; n],
            zbuffer: vec![DEPTH_FAR; n],
            emissive_buffer: vec![0u32; n],
            background_color: 0x000000,
            current_color: 0xFFFFFF,
        };
        proof {
            assert(fb@.color =~= Seq::new((width * height) as nat, |i: int| 0u32));
            assert(fb@.depth =~= Seq::new((width * height) as nat, |i: int| DEPTH_FAR));
            assert(fb@.emissive =~= Seq::new((width * height) as nat, |i: int| 0u32));
        }
        fb
    }

    /// Resets every pixel to the background color, the far depth, and zero
    /// emission.
    pub fn clear(&mut self)
        requires
            fb_wf(old(self)@),
        ensures
            fb_wf(final(self)@),
            final(self)@ == spec_clear(old(self)@),
    {
        let n: usize = self.buffer.len();
        let bg: u32 = self.background_color;
        let mut i: usize = 0;
        #[verifier::loop_isolation(false)]
        while i < n
            invariant
                self.buffer@.len() == n,
                forall|j: int| 0 <= j < i ==> self.buffer@[j] == bg,
                self.width == old(self).width,
                self.height == old(self).height,
                self.zbuffer == old(self).zbuffer,
                self.emissive_buffer == old(self).emissive_buffer,
                self.background_color == old(self).background_color,
                self.current_color == old(self).current_color,
            decreases n - i,
        {
            self.buffer[i] = bg;
            i = i + 1;
        }
        let mut k: usize = 0;
        #[verifier::loop_isolation(false)]
        while k < n
            invariant
                self.zbuffer@.len() == old(self).zbuffer@.len(),
                forall|j: int| 0 <= j < k ==> self.zbuffer@[j] == DEPTH_FAR,
                self.width == old(self).width,
                self.height == old(self).height,
                self.buffer@ == Seq::new(old(self).buffer@.len(), |j: int| bg),
                self.emissive_buffer == old(self).emissive_buffer,
                self.background_color == old(self).background_color,
                self.current_color == old(self).current_color,
            decreases old(self).zbuffer@.len() - k,
        {
            self.zbuffer[k] = DEPTH_FAR;
            k = k + 1;
        }
        let mut m: usize = 0;
        #[verifier::loop_isolation(false)]
        while m < n
            invariant
                self.emissive_buffer@.len() == old(self).emissive_buffer@.len(),
                forall|j: int| 0 <= j < m ==> self.emissive_buffer@[j] == 0u32,
                self.width == old(self).width,
                self.height == old(self).height,
                self.buffer@ == Seq::new(old(self).buffer@.len(), |j: int| bg),
                self.zbuffer@ == Seq::new(old(self).zbuffer@.len(), |j: int| DEPTH_FAR),
                self.background_color == old(self).background_color,
                self.current_color == old(self).current_color,
            decreases old(self).emissive_buffer@.len() - m,
        {
            self.emissive_buffer[m] = 0;
            m = m + 1;
        }
        proof {
            assert(self.buffer@ =~= spec_clear(old(self)@).color);
            assert(self.zbuffer@ =~= spec_clear(old(self)@).depth);
            assert(self.emissive_buffer@ =~= spec_clear(old(self)@).emissive);
        }
    }

    /// The depth-tested write of the current color at `(x, y)`: commits
    /// color and depth when `depth` beats the stored depth, and silently
    /// drops out-of-bounds or losing writes.
    pub fn point(&mut self, x: usize, y: usize, depth: i64)
        requires
            fb_wf(old(self)@),
        ensures
            fb_wf(final(self)@),
            final(self)@ == spec_point(old(self)@, x as int, y as int, depth),
    {
        if x < self.width && y < self.height {
            let _buffer_len: usize = self.buffer.len();
            proof {
                lemma_index_in_bounds(x as int, y as int, self.width as int, self.height as int);
            }
            let index: usize = y * self.width + x;
            if self.zbuffer[index] > depth {
                let c: u32 = self.current_color;
                self.buffer[index] = c;
                self.zbuffer[index] = depth;
            }
        }
    }

    /// The depth-gated write into the emissive plane at `(x, y)`: the same
    /// comparison as `point`, but only the emissive buffer changes.
    pub fn emissive_point(&mut self, x: usize, y: usize, color: u32, depth: i64)
        requires
            fb_wf(old(self)@),
        ensures
            fb_wf(final(self)@),
            final(self)@ == spec_emissive_point(old(self)@, x as int, y as int, color, depth),
    {
        if x < self.width && y < self.height {
            let _buffer_len: usize = self.buffer.len();
            proof {
                lemma_index_in_bounds(x as int, y as int, self.width as int, self.height as int);
            }
            let index: usize = y * self.width + x;
            if self.zbuffer[index] > depth {
                self.emissive_buffer[index] = color;
            }
        }
    }

    /// Draws a straight pixel line from `(x1, y1)` to `(x2, y2)` into the
    /// color plane (no depth test), clipping pixels outside the buffer.
    /// Each step of the walk clamps at the endpoint coordinate, so the
    /// walk always terminates at the second endpoint.
    #[verifier::rlimit(100)]
    pub fn draw_line(&mut self, x1: usize, y1: usize, x2: usize, y2: usize, color: u32)
        requires
            fb_wf(old(self)@),
            x1 <= 0x4000_0000,
            y1 <= 0x4000_0000,
            x2 <= 0x4000_0000,
            y2 <= 0x4000_0000,
        ensures
            fb_wf(final(self)@),
            final(self)@ == spec_draw_line(
                old(self)@,
                x1 as int,
                y1 as int,
                x2 as int,
                y2 as int,
                color,
            ),
    {
        let xe: i64 = x2 as i64;
        let ye: i64 = y2 as i64;
        let dx: i64 = if x1 < x2 {
            (x2 - x1) as i64
        } else {
            (x1 - x2) as i64
        };
        let dy: i64 = if y1 < y2 {
            (y2 - y1) as i64
        } else {
            (y1 - y2) as i64
        };
        let mut err: i64 = if dx > dy {
            dx / 2
        } else {
            -(dy / 2)
        };
        let mut cx: i64 = x1 as i64;
        let mut cy: i64 = y1 as i64;
        let ghost goal = spec_draw_line(
            old(self)@,
            x1 as int,
            y1 as int,
            x2 as int,
            y2 as int,
            color,
        );
        proof {
            assert(dx / 2 == dx as int / 2);
            assert(dy / 2 == dy as int / 2);
        }
        loop
            invariant_except_break
                fb_wf(self@),
                self@.width == old(self)@.width,
                self@.height == old(self)@.height,
                0 <= cx <= 0x4000_0000,
                0 <= cy <= 0x4000_0000,
                -(dx + dy) <= err <= dx + dy,
                0 <= dx <= 0x4000_0000,
                0 <= dy <= 0x4000_0000,
                xe == x2 && ye == y2,
                0 <= xe <= 0x4000_0000,
                0 <= ye <= 0x4000_0000,
                spec_line_step(
                    self@,
                    cx as int,
                    cy as int,
                    err as int,
                    dx as int,
                    dy as int,
                    xe as int,
                    ye as int,
                    color,
                ) == goal,
            ensures
                fb_wf(self@),
                self@ == goal,
            decreases
                    (if xe - cx < 0 {
                        cx - xe
                    } else {
                        xe - cx
                    }) + (if ye - cy < 0 {
                        cy - ye
                    } else {
                        ye - cy
                    }),
        {
            let ghost head = self@;
            if cx >= 0 && cy >= 0 && (cx as usize) < self.width && (cy as usize) < self.height {
                let _buffer_len: usize = self.buffer.len();
                proof {
                    lemma_index_in_bounds(
                        cx as int,
                        cy as int,
                        self@.width as int,
                        self@.height as int,
                    );
                }
                let idx: usize = (cy as usize) * self.width + (cx as usize);
                self.buffer[idx] = color;
            }
            proof {
                assert(self@ == spec_plot(head, cx as int, cy as int, color));
            }
            if cx == xe && cy == ye {
                break;
            }
            let step_x: bool = err > -dx && cx != xe;
            let step_y: bool = err < dy && cy != ye;
            if !step_x && !step_y {
                break;
            }
            if step_x {
                if cx < xe {
                    cx = cx + 1;
                } else {
                    cx = cx - 1;
                }
                err = err - dy;
            }
            if step_y {
                if cy < ye {
                    cy = cy + 1;
                } else {
                    cy = cy - 1;
                }
                err = err + dx;
            }
        }
    }

    /// Sets the color that `clear` paints the whole color plane with.
    pub fn set_background_color(&mut self, color: u32)
        ensures
            final(self)@ == (FbView { background: color, ..old(self)@ }),
    {
        self.background_color = color;
    }

    /// Sets the pen color that `point` commits on a winning depth test.
    pub fn set_current_color(&mut self, color: u32)
        ensures
            final(self)@ == (FbView { current: color, ..old(self)@ }),
    {
        self.current_color = color;
    }
}

/// A single pixel painted into the color plane (no depth test): writes
/// outside the pixel rectangle are dropped.
pub open spec fn spec_plot(v: FbView, x: int, y: int, color: u32) -> FbView {
    if spec_in_bounds(v, x, y) {
        FbView { color: v.color.update(spec_index(v, x, y), color), ..v }
    } else {
        v
    }
}

/// One run of the line walk from `(cx, cy)` with error term `err`: the
/// current pixel is painted; then, until the endpoint is reached, the
/// walk steps one pixel toward `(x2, y2)` along x when the error allows
/// it, along y likewise, clamping each axis at the endpoint coordinate.
pub open spec fn spec_line_step(
    v: FbView,
    cx: int,
    cy: int,
    err: int,
    dx: int,
    dy: int,
    x2: int,
    y2: int,
    color: u32,
) -> FbView
    decreases
            (if x2 - cx < 0 {
                cx - x2
            } else {
                x2 - cx
            }) + (if y2 - cy < 0 {
                cy - y2
            } else {
                y2 - cy
            }),
{
    let v1 = spec_plot(v, cx, cy, color);
    if cx == x2 && cy == y2 {
        v1
    } else {
        let step_x = err > -dx && cx != x2;
        let step_y = err < dy && cy != y2;
        if !step_x && !step_y {
            v1
        } else {
            let nx = if step_x {
                if cx < x2 {
                    cx + 1
                } else {
                    cx - 1
                }
            } else {
                cx
            };
            let ny = if step_y {
                if cy < y2 {
                    cy + 1
                } else {
                    cy - 1
                }
            } else {
                cy
            };
            let nerr = err - (if step_x {
                dy
            } else {
                0
            }) + (if step_y {
                dx
            } else {
                0
            });
            spec_line_step(v1, nx, ny, nerr, dx, dy, x2, y2, color)
        }
    }
}

/// The whole line from `(x1, y1)` to `(x2, y2)`: the walk started at the
/// first endpoint with the conventional initial error term.
pub open spec fn spec_draw_line(
    v: FbView,
    x1: int,
    y1: int,
    x2: int,
    y2: int,
    color: u32,
) -> FbView {
    let dx = if x2 - x1 < 0 {
        x1 - x2
    } else {
        x2 - x1
    };
    let dy = if y2 - y1 < 0 {
        y1 - y2
    } else {
        y2 - y1
    };
    let err0 = if dx > dy {
        dx / 2
    } else {
        -(dy / 2)
    };
    spec_line_step(v, x1, y1, err0, dx, dy, x2, y2, color)
}

/// Depth monotonicity: writing two colors at the same pixel with depths
/// `d1 > d2` leaves the pixel holding the color of the smaller depth,
/// whichever order the two writes are issued in, provided both depths beat
/// the depth stored before (as after a clear).
pub proof fn lemma_depth_order(v: FbView, x: int, y: int, c1: u32, d1: i64, c2: u32, d2: i64)
    requires
        fb_wf(v),
        spec_in_bounds(v, x, y),
        d2 < d1,
        d1 < v.depth[spec_index(v, x, y)],
    ensures
        ({
            let w1 = spec_point(FbView { current: c1, ..v }, x, y, d1);
            let w12 = spec_point(FbView { current: c2, ..w1 }, x, y, d2);
            w12.color[spec_index(v, x, y)] == c2
        }),
        ({
            let w2 = spec_point(FbView { current: c2, ..v }, x, y, d2);
            let w21 = spec_point(FbView { current: c1, ..w2 }, x, y, d1);
            w21.color[spec_index(v, x, y)] == c2
        }),
{
    lemma_index_in_bounds(x, y, v.width as int, v.height as int);
}

} // verus!
