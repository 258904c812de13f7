//! The LED-matrix display: a 32x32 framebuffer with drawing primitives, and
//! the panel driver that shifts pixel data out through GPIO lines.
//!
//! The panel is an independent, purely synchronous peripheral: nothing here
//! influences scheduling. The driver keeps a shadow of the GPIO direction and
//! output registers and computes every bit it would drive; handing those
//! values to the real memory-mapped registers is the board glue's concern.

use vstd::prelude::*;

verus! {

/// Width of the panel in pixels.
pub const FB_WIDTH: usize = 32;

/// Height of the panel in pixels.
pub const FB_HEIGHT: usize = 32;

/// Total pixel count of one framebuffer.
pub const FB_PIXELS: usize = FB_WIDTH * FB_HEIGHT;

pub const RED: u32 = 0xFF0000;

pub const GREEN: u32 = 0x00FF00;

pub const BLUE: u32 = 0x0000FF;

pub const WHITE: u32 = 0xFFFFFF;

pub const BLACK: u32 = 0x000000;

/// Abstract value of a framebuffer: the pixel sequence in row-major order and
/// the fixed dimensions.
pub struct FrameBufferView {
    pub data: Seq<u32>,
    pub width: int,
    pub height: int,
}

impl FrameBufferView {
    /// The fixed 32x32 shape: one pixel slot per panel position.
    pub open spec fn wf(self) -> bool {
        &&& self.width == FB_WIDTH
        &&& self.height == FB_HEIGHT
        &&& self.data.len() == FB_PIXELS
    }
}

/// The pixel at column `x`, row `y`, in row-major order.
pub open spec fn pixel_at(v: FrameBufferView, x: int, y: int) -> u32 {
    v.data[y * (FB_WIDTH as int) + x]
}

/// A 32x32 row-major pixel buffer.
pub struct FrameBuffer {
    data: Vec<u32>,
    width: usize,
    height: usize,
}

impl View for FrameBuffer {
    type V = FrameBufferView;

    closed spec fn view(&self) -> FrameBufferView {
        FrameBufferView { data: self.data@, width: self.width as int, height: self.height as int }
    }
}

impl FrameBuffer {
    /// A black (all-zero) 32x32 buffer.
    pub fn new() -> (fb: FrameBuffer)
        ensures
            fb@.wf(),
            forall|i: int| 0 <= i < FB_PIXELS ==> fb@.data[i] == BLACK,
    {
        let mut data: Vec<u32> = Vec::new();
        let mut i: usize = 0;
        while i < FB_PIXELS
            invariant
                i <= FB_PIXELS,
                data@.len() == i,
                forall|k: int| 0 <= k < i ==> data@[k] == BLACK,
            decreases FB_PIXELS - i,
        {
            data.push(BLACK);
            i += 1;
        }
        FrameBuffer { data, width: FB_WIDTH, height: FB_HEIGHT }
    }

    /// The panel width.
    pub fn width(&self) -> (r: usize)
        ensures
            r == self@.width,
    {
        self.width
    }

    /// The panel height.
    pub fn height(&self) -> (r: usize)
        ensures
            r == self@.height,
    {
        self.height
    }

    /// Read the pixel at `(x, y)`.
    pub fn pixel(&self, x: usize, y: usize) -> (r: u32)
        requires
            self@.wf(),
            x < FB_WIDTH,
            y < FB_HEIGHT,
        ensures
            r == pixel_at(self@, x as int, y as int),
    {
        self.data[y * self.width + x]
    }

    /// Paint every pixel black.
    pub fn clear(&mut self)
        requires
            old(self)@.wf(),
        ensures
            final(self)@.wf(),
            forall|i: int| 0 <= i < FB_PIXELS ==> final(self)@.data[i] == BLACK,
    {
        let mut i: usize = 0;
        while i < FB_PIXELS
            invariant
                self@.wf(),
                i <= FB_PIXELS,
                forall|k: int| 0 <= k < i ==> self@.data[k] == BLACK,
            decreases FB_PIXELS - i,
        {
            self.data[i] = BLACK;
            i += 1;
        }
    }

    /// Set the pixel at `(x, y)` to `color`; coordinates off the panel are
    /// ignored.
    pub fn set_pixel(&mut self, x: usize, y: usize, color: u32)
        requires
            old(self)@.wf(),
        ensures
            final(self)@.wf(),
            x < FB_WIDTH && y < FB_HEIGHT ==> final(self)@.data == old(self)@.data.update(
                (y * FB_WIDTH + x) as int,
                color,
            ),
            !(x < FB_WIDTH && y < FB_HEIGHT) ==> final(self)@ == old(self)@,
    {
        if x < self.width && y < self.height {
            let idx = y * self.width + x;
            self.data[idx] = color;
        }
    }

    /// Set the pixel at signed coordinates `(x, y)` to `color`; anything off
    /// the panel is ignored.
    fn set_pixel_safe(&mut self, x: i32, y: i32, color: u32)
        requires
            old(self)@.wf(),
        ensures
            final(self)@.wf(),
            0 <= x < FB_WIDTH && 0 <= y < FB_HEIGHT ==> final(self)@.data == old(
                self,
            )@.data.update(y * (FB_WIDTH as int) + x, color),
            !(0 <= x < FB_WIDTH && 0 <= y < FB_HEIGHT) ==> final(self)@ == old(self)@,
    {
        if x >= 0 && x < FB_WIDTH as i32 && y >= 0 && y < FB_HEIGHT as i32 {
            self.set_pixel(x as usize, y as usize, color);
        }
    }

    /// Copy one row of pixels out of the buffer.
    pub fn row_pixels(&self, y: usize) -> (r: Vec<u32>)
        requires
            self@.wf(),
            y < FB_HEIGHT,
        ensures
            r@ == self@.data.subrange((y * FB_WIDTH) as int, (y * FB_WIDTH + FB_WIDTH) as int),
    {
        let mut r: Vec<u32> = Vec::new();
        let mut x: usize = 0;
        while x < FB_WIDTH
            invariant
                self@.wf(),
                y < FB_HEIGHT,
                x <= FB_WIDTH,
                r@.len() == x,
                forall|k: int| 0 <= k < x ==> r@[k] == self@.data[y * FB_WIDTH + k],
            decreases FB_WIDTH - x,
        {
            let v = self.data[y * self.width + x];
            r.push(v);
            x += 1;
        }
        proof {
            assert(r@ =~= self@.data.subrange(
                (y * FB_WIDTH) as int,
                (y * FB_WIDTH + FB_WIDTH) as int,
            ));
        }
        r
    }

    /// Draw a line from `(x0, y0)` to `(x1, y1)` with Bresenham's algorithm.
    /// Pixels off the panel are clipped; the endpoint, when on the panel, is
    /// painted.
    pub fn draw_line(&mut self, x0: i32, y0: i32, x1: i32, y1: i32, color: u32)
        requires
            old(self)@.wf(),
            -COORD_LIMIT <= x0 <= COORD_LIMIT,
            -COORD_LIMIT <= y0 <= COORD_LIMIT,
            -COORD_LIMIT <= x1 <= COORD_LIMIT,
            -COORD_LIMIT <= y1 <= COORD_LIMIT,
        ensures
            final(self)@.wf(),
            draws_only(old(self)@, final(self)@, color),
            0 <= x1 < FB_WIDTH && 0 <= y1 < FB_HEIGHT ==> pixel_at(final(self)@, x1 as int, y1 as int)
                == color,
    {
        let ghost orig = self@;
        let dx: i32 = if x1 >= x0 {
            x1 - x0
        } else {
            x0 - x1
        };
        let dy: i32 = if y1 >= y0 {
            y1 - y0
        } else {
            y0 - y1
        };
        let sx: i32 = if x0 < x1 {
            1
        } else {
            -1
        };
        let sy: i32 = if y0 < y1 {
            1
        } else {
            -1
        };
        let mut err: i32 = dx - dy;
        let mut x: i32 = x0;
        let mut y: i32 = y0;
        let mut steps: i32 = 0;
        while steps <= dx + dy
            invariant
                self@.wf(),
                draws_only(orig, self@, color),
                0 <= dx <= 2 * COORD_LIMIT,
                0 <= dy <= 2 * COORD_LIMIT,
                0 <= steps <= dx + dy + 1,
                sx == 1 || sx == -1,
                sy == 1 || sy == -1,
                x0 - steps <= x <= x0 + steps,
                y0 - steps <= y <= y0 + steps,
                -COORD_LIMIT <= x0 <= COORD_LIMIT,
                -COORD_LIMIT <= y0 <= COORD_LIMIT,
                -2 * (dx + dy) - 2 <= err <= 2 * (dx + dy) + 2,
            ensures
                self@.wf(),
                draws_only(orig, self@, color),
            decreases dx + dy + 1 - steps,
        {
            self.set_pixel_safe(x, y, color);
            if x == x1 && y == y1 {
                break ;
            }
            let e2: i32 = 2 * err;
            if e2 > -dy {
                err = err - dy;
                x = x + sx;
            }
            if e2 < dx {
                err = err + dx;
                y = y + sy;
            }
            steps = steps + 1;
        }
        // The endpoint belongs to the line whatever rounding did on the way.
        self.set_pixel_safe(x1, y1, color);
    }

    /// Draw the one-pixel-wide outline of a rectangle, clipped to the panel.
    pub fn draw_rect(&mut self, x: i32, y: i32, width: i32, height: i32, color: u32)
        requires
            old(self)@.wf(),
            -COORD_LIMIT <= x <= COORD_LIMIT,
            -COORD_LIMIT <= y <= COORD_LIMIT,
            -COORD_LIMIT <= width <= COORD_LIMIT,
            -COORD_LIMIT <= height <= COORD_LIMIT,
        ensures
            final(self)@.wf(),
            draws_only(old(self)@, final(self)@, color),
            forall|px: int, py: int|
                0 <= px < FB_WIDTH && 0 <= py < FB_HEIGHT && ((x <= px < x + width && (py == y
                    || py == y + height - 1)) || (y <= py < y + height && (px == x || px == x
                    + width - 1))) ==> #[trigger] pixel_at(final(self)@, px, py) == color,
    {
        let ghost orig = self@;
        let mut i: i32 = 0;
        while i < width
            invariant
                self@.wf(),
                draws_only(orig, self@, color),
                0 <= i <= COORD_LIMIT,
                -COORD_LIMIT <= x <= COORD_LIMIT,
                -COORD_LIMIT <= y <= COORD_LIMIT,
                -COORD_LIMIT <= width <= COORD_LIMIT,
                -COORD_LIMIT <= height <= COORD_LIMIT,
                forall|idx: int|
                    0 <= idx < FB_PIXELS && x <= idx % (FB_WIDTH as int) < x + i && (idx / (
                    FB_WIDTH as int) == y || idx / (FB_WIDTH as int) == y + height - 1)
                        ==> #[trigger] self@.data[idx] == color,
            decreases width - i,
        {
            self.set_pixel_safe(x + i, y, color);
            self.set_pixel_safe(x + i, y + height - 1, color);
            i = i + 1;
        }
        let mut j: i32 = 0;
        while j < height
            invariant
                self@.wf(),
                draws_only(orig, self@, color),
                0 <= j <= COORD_LIMIT,
                -COORD_LIMIT <= x <= COORD_LIMIT,
                -COORD_LIMIT <= y <= COORD_LIMIT,
                -COORD_LIMIT <= width <= COORD_LIMIT,
                -COORD_LIMIT <= height <= COORD_LIMIT,
                forall|idx: int|
                    0 <= idx < FB_PIXELS && x <= idx % (FB_WIDTH as int) < x + width && (idx / (
                    FB_WIDTH as int) == y || idx / (FB_WIDTH as int) == y + height - 1)
                        ==> #[trigger] self@.data[idx] == color,
                forall|idx: int|
                    0 <= idx < FB_PIXELS && y <= idx / (FB_WIDTH as int) < y + j && (idx % (
                    FB_WIDTH as int) == x || idx % (FB_WIDTH as int) == x + width - 1)
                        ==> #[trigger] self@.data[idx] == color,
            decreases height - j,
        {
            self.set_pixel_safe(x, y + j, color);
            self.set_pixel_safe(x + width - 1, y + j, color);
            j = j + 1;
        }
        proof {
            assert forall|px: int, py: int|
                0 <= px < FB_WIDTH && 0 <= py < FB_HEIGHT && ((x <= px < x + width && (py == y
                    || py == y + height - 1)) || (y <= py < y + height && (px == x || px == x
                    + width - 1))) implies #[trigger] pixel_at(self@, px, py) == color by {
                let idx = py * (FB_WIDTH as int) + px;
                assert(idx % (FB_WIDTH as int) == px);
                assert(idx / (FB_WIDTH as int) == py);
                assert(self@.data[idx] == color);
            }
        }
    }

    /// Fill a rectangle with `color`: every pixel of the rectangle that lies
    /// on the panel is painted, and nothing else changes color.
    pub fn fill_rect(&mut self, x: i32, y: i32, width: i32, height: i32, color: u32)
        requires
            old(self)@.wf(),
            -COORD_LIMIT <= x <= COORD_LIMIT,
            -COORD_LIMIT <= y <= COORD_LIMIT,
            -COORD_LIMIT <= width <= COORD_LIMIT,
            -COORD_LIMIT <= height <= COORD_LIMIT,
        ensures
            final(self)@.wf(),
            draws_only(old(self)@, final(self)@, color),
            forall|px: int, py: int|
                x <= px < x + width && y <= py < y + height && 0 <= px < FB_WIDTH && 0 <= py
                    < FB_HEIGHT ==> #[trigger] pixel_at(final(self)@, px, py) == color,
    {
        let ghost orig = self@;
        let mut i: i32 = 0;
        while i < width
            invariant
                self@.wf(),
                draws_only(orig, self@, color),
                0 <= i <= COORD_LIMIT,
                -COORD_LIMIT <= x <= COORD_LIMIT,
                -COORD_LIMIT <= y <= COORD_LIMIT,
                -COORD_LIMIT <= width <= COORD_LIMIT,
                -COORD_LIMIT <= height <= COORD_LIMIT,
                forall|idx: int|
                    0 <= idx < FB_PIXELS && rect_covers(x as int, y as int, i as int, height as int, idx)
                        ==> #[trigger] self@.data[idx] == color,
            decreases width - i,
        {
            let mut j: i32 = 0;
            while j < height
                invariant
                    self@.wf(),
                    draws_only(orig, self@, color),
                    0 <= i < width,
                    0 <= j <= COORD_LIMIT,
                    -COORD_LIMIT <= x <= COORD_LIMIT,
                    -COORD_LIMIT <= y <= COORD_LIMIT,
                    -COORD_LIMIT <= width <= COORD_LIMIT,
                    -COORD_LIMIT <= height <= COORD_LIMIT,
                    forall|idx: int|
                        0 <= idx < FB_PIXELS && rect_covers(x as int, y as int, i as int, height as int, idx)
                            ==> #[trigger] self@.data[idx] == color,
                    forall|idx: int|
                        0 <= idx < FB_PIXELS && idx % (FB_WIDTH as int) == x + i && y <= idx / (
                        FB_WIDTH as int) < y + j ==> #[trigger] self@.data[idx] == color,
                decreases height - j,
            {
                self.set_pixel_safe(x + i, y + j, color);
                j = j + 1;
            }
            proof {
                assert forall|idx: int|
                    0 <= idx < FB_PIXELS && rect_covers(x as int, y as int, i + 1, height as int, idx) implies #[trigger] self@.data[idx]
                    == color by {
                    if idx % (FB_WIDTH as int) == x + i {
                    } else {
                        assert(rect_covers(x as int, y as int, i as int, height as int, idx));
                    }
                }
            }
            i = i + 1;
        }
        proof {
            assert forall|px: int, py: int|
                x <= px < x + width && y <= py < y + height && 0 <= px < FB_WIDTH && 0 <= py
                    < FB_HEIGHT implies #[trigger] pixel_at(self@, px, py) == color by {
                let idx = py * (FB_WIDTH as int) + px;
                assert(idx % (FB_WIDTH as int) == px);
                assert(idx / (FB_WIDTH as int) == py);
                assert(rect_covers(x as int, y as int, width as int, height as int, idx));
                assert(self@.data[idx] == color);
            }
        }
    }

    /// Draw the outline of a circle around `(x_center, y_center)` with the
    /// midpoint algorithm, clipped to the panel.
    pub fn draw_circle(&mut self, x_center: i32, y_center: i32, radius: i32, color: u32)
        requires
            old(self)@.wf(),
            -COORD_LIMIT <= x_center <= COORD_LIMIT,
            -COORD_LIMIT <= y_center <= COORD_LIMIT,
            -RADIUS_LIMIT <= radius <= RADIUS_LIMIT,
        ensures
            final(self)@.wf(),
            draws_only(old(self)@, final(self)@, color),
            radius >= 0 && 0 <= x_center + radius < FB_WIDTH && 0 <= y_center < FB_HEIGHT
                ==> pixel_at(final(self)@, x_center + radius, y_center as int) == color,
            radius >= 0 && 0 <= x_center - radius < FB_WIDTH && 0 <= y_center < FB_HEIGHT
                ==> pixel_at(final(self)@, x_center - radius, y_center as int) == color,
            radius >= 0 && 0 <= x_center < FB_WIDTH && 0 <= y_center + radius < FB_HEIGHT
                ==> pixel_at(final(self)@, x_center as int, y_center + radius) == color,
            radius >= 0 && 0 <= x_center < FB_WIDTH && 0 <= y_center - radius < FB_HEIGHT
                ==> pixel_at(final(self)@, x_center as int, y_center - radius) == color,
    {
        if radius < 0 {
            return ;
        }
        let ghost orig = self@;
        let mut x: i32 = radius;
        let mut y: i32 = 0;
        let mut err: i64 = 0;
        while x >= y
            invariant
                self@.wf(),
                draws_only(orig, self@, color),
                -COORD_LIMIT <= x_center <= COORD_LIMIT,
                -COORD_LIMIT <= y_center <= COORD_LIMIT,
                0 <= radius <= RADIUS_LIMIT,
                -1 <= x <= radius,
                0 <= y <= x + 2,
                y == 0 ==> x == radius,
                -(y + 1) * 140001 <= err <= (y + 1) * 140001,
                y > 0 && 0 <= x_center + radius < FB_WIDTH && 0 <= y_center < FB_HEIGHT
                    ==> pixel_at(self@, x_center + radius, y_center as int) == color,
                y > 0 && 0 <= x_center - radius < FB_WIDTH && 0 <= y_center < FB_HEIGHT
                    ==> pixel_at(self@, x_center - radius, y_center as int) == color,
                y > 0 && 0 <= x_center < FB_WIDTH && 0 <= y_center + radius < FB_HEIGHT
                    ==> pixel_at(self@, x_center as int, y_center + radius) == color,
                y > 0 && 0 <= x_center < FB_WIDTH && 0 <= y_center - radius < FB_HEIGHT
                    ==> pixel_at(self@, x_center as int, y_center - radius) == color,
            decreases x - y + 2,
        {
            self.set_pixel_safe(x_center + x, y_center + y, color);
            self.set_pixel_safe(x_center + y, y_center + x, color);
            self.set_pixel_safe(x_center - y, y_center + x, color);
            self.set_pixel_safe(x_center - x, y_center + y, color);
            self.set_pixel_safe(x_center - x, y_center - y, color);
            self.set_pixel_safe(x_center - y, y_center - x, color);
            self.set_pixel_safe(x_center + y, y_center - x, color);
            self.set_pixel_safe(x_center + x, y_center - y, color);

            y = y + 1;
            err = err + (1 + 2 * (y as i64));
            if 2 * (err - (x as i64)) + 1 > 0 {
                x = x - 1;
                err = err + (1 - 2 * (x as i64));
            }
        }
    }
}

/// Largest coordinate magnitude the drawing primitives accept; keeps every
/// intermediate coordinate computation inside 32-bit range.
pub const COORD_LIMIT: i32 = 1048576;

/// Largest circle radius magnitude `draw_circle` accepts.
pub const RADIUS_LIMIT: i32 = 32768;

/// Whether flat pixel index `idx` falls inside the rectangle at `(x, y)` of
/// size `w` by `h`, in row-major order.
pub open spec fn rect_covers(x: int, y: int, w: int, h: int, idx: int) -> bool {
    let px = idx % (FB_WIDTH as int);
    let py = idx / (FB_WIDTH as int);
    x <= px < x + w && y <= py < y + h
}

/// Bits of color depth per channel.
pub const PWM_BITS: u8 = 8;

/// Brightness passes per displayed frame under binary-code modulation.
pub const PWM_STEPS: u8 = 8;

/// Whether bit `pin` is set in the GPIO shadow register `reg`.
pub open spec fn bit_set(reg: u32, pin: u32) -> bool {
    reg & (1u32 << pin) != 0
}

/// Setting one bit of a register changes that bit and no other.
proof fn lemma_bit_or(d: u32, p: u32, q: u32)
    by (bit_vector)
    requires
        p < 32,
        q < 32,
    ensures
        bit_set(d | (1u32 << p), q) == (q == p || bit_set(d, q)),
{
}

/// Clearing one bit of a register changes that bit and no other.
proof fn lemma_bit_andnot(d: u32, p: u32, q: u32)
    by (bit_vector)
    requires
        p < 32,
        q < 32,
    ensures
        bit_set(d & !(1u32 << p), q) == (q != p && bit_set(d, q)),
{
}

/// Driver for a 32x32 HUB75 LED panel: six color data lines, three row
/// address lines, latch, output-enable and clock, all driven through GPIO,
/// plus two framebuffers for flicker-free drawing.
pub struct Hub75 {
    pub r1_pin: u32,
    pub g1_pin: u32,
    pub b1_pin: u32,
    pub r2_pin: u32,
    pub g2_pin: u32,
    pub b2_pin: u32,
    pub a_pin: u32,
    pub b_pin: u32,
    pub c_pin: u32,
    pub lat_pin: u32,
    pub oe_pin: u32,
    pub clk_pin: u32,
    /// The panel shown while the other buffer is drawn into.
    pub front_buffer: FrameBuffer,
    /// The buffer drawn into while the other is shown.
    pub back_buffer: FrameBuffer,
    /// Which buffer is being displayed: false = front, true = back.
    pub active_buffer: bool,
    /// Shadow of the GPIO direction register this driver would write.
    pub gpio_dir: u32,
    /// Shadow of the GPIO output register this driver would write.
    pub gpio_out: u32,
}

/// Every pin is a valid GPIO line and no two signals share a line.
pub open spec fn pins_ok(h: Hub75) -> bool {
    &&& h.r1_pin < 32
    &&& h.g1_pin < 32
    &&& h.b1_pin < 32
    &&& h.r2_pin < 32
    &&& h.g2_pin < 32
    &&& h.b2_pin < 32
    &&& h.a_pin < 32
    &&& h.b_pin < 32
    &&& h.c_pin < 32
    &&& h.lat_pin < 32
    &&& h.oe_pin < 32
    &&& h.clk_pin < 32
    &&& h.r1_pin != h.g1_pin
    &&& h.r1_pin != h.b1_pin
    &&& h.r1_pin != h.r2_pin
    &&& h.r1_pin != h.g2_pin
    &&& h.r1_pin != h.b2_pin
    &&& h.r1_pin != h.a_pin
    &&& h.r1_pin != h.b_pin
    &&& h.r1_pin != h.c_pin
    &&& h.r1_pin != h.lat_pin
    &&& h.r1_pin != h.oe_pin
    &&& h.r1_pin != h.clk_pin
    &&& h.g1_pin != h.b1_pin
    &&& h.g1_pin != h.r2_pin
    &&& h.g1_pin != h.g2_pin
    &&& h.g1_pin != h.b2_pin
    &&& h.g1_pin != h.a_pin
    &&& h.g1_pin != h.b_pin
    &&& h.g1_pin != h.c_pin
    &&& h.g1_pin != h.lat_pin
    &&& h.g1_pin != h.oe_pin
    &&& h.g1_pin != h.clk_pin
    &&& h.b1_pin != h.r2_pin
    &&& h.b1_pin != h.g2_pin
    &&& h.b1_pin != h.b2_pin
    &&& h.b1_pin != h.a_pin
    &&& h.b1_pin != h.b_pin
    &&& h.b1_pin != h.c_pin
    &&& h.b1_pin != h.lat_pin
    &&& h.b1_pin != h.oe_pin
    &&& h.b1_pin != h.clk_pin
    &&& h.r2_pin != h.g2_pin
    &&& h.r2_pin != h.b2_pin
    &&& h.r2_pin != h.a_pin
    &&& h.r2_pin != h.b_pin
    &&& h.r2_pin != h.c_pin
    &&& h.r2_pin != h.lat_pin
    &&& h.r2_pin != h.oe_pin
    &&& h.r2_pin != h.clk_pin
    &&& h.g2_pin != h.b2_pin
    &&& h.g2_pin != h.a_pin
    &&& h.g2_pin != h.b_pin
    &&& h.g2_pin != h.c_pin
    &&& h.g2_pin != h.lat_pin
    &&& h.g2_pin != h.oe_pin
    &&& h.g2_pin != h.clk_pin
    &&& h.b2_pin != h.a_pin
    &&& h.b2_pin != h.b_pin
    &&& h.b2_pin != h.c_pin
    &&& h.b2_pin != h.lat_pin
    &&& h.b2_pin != h.oe_pin
    &&& h.b2_pin != h.clk_pin
    &&& h.a_pin != h.b_pin
    &&& h.a_pin != h.c_pin
    &&& h.a_pin != h.lat_pin
    &&& h.a_pin != h.oe_pin
    &&& h.a_pin != h.clk_pin
    &&& h.b_pin != h.c_pin
    &&& h.b_pin != h.lat_pin
    &&& h.b_pin != h.oe_pin
    &&& h.b_pin != h.clk_pin
    &&& h.c_pin != h.lat_pin
    &&& h.c_pin != h.oe_pin
    &&& h.c_pin != h.clk_pin
    &&& h.lat_pin != h.oe_pin
    &&& h.lat_pin != h.clk_pin
    &&& h.oe_pin != h.clk_pin
}

/// The driver's pin assignment, in one sequence.
pub open spec fn pins_of(h: Hub75) -> Seq<u32> {
    seq![
        h.r1_pin,
        h.g1_pin,
        h.b1_pin,
        h.r2_pin,
        h.g2_pin,
        h.b2_pin,
        h.a_pin,
        h.b_pin,
        h.c_pin,
        h.lat_pin,
        h.oe_pin,
        h.clk_pin,
    ]
}

/// `b` has the same pin assignment, buffers and buffer selection as `a`:
/// only the GPIO shadow registers may differ.
pub open spec fn same_config(a: Hub75, b: Hub75) -> bool {
    &&& b.r1_pin == a.r1_pin
    &&& b.g1_pin == a.g1_pin
    &&& b.b1_pin == a.b1_pin
    &&& b.r2_pin == a.r2_pin
    &&& b.g2_pin == a.g2_pin
    &&& b.b2_pin == a.b2_pin
    &&& b.a_pin == a.a_pin
    &&& b.b_pin == a.b_pin
    &&& b.c_pin == a.c_pin
    &&& b.lat_pin == a.lat_pin
    &&& b.oe_pin == a.oe_pin
    &&& b.clk_pin == a.clk_pin
    &&& b.front_buffer == a.front_buffer
    &&& b.back_buffer == a.back_buffer
    &&& b.active_buffer == a.active_buffer
}

impl Hub75 {
    /// Every pin is a valid GPIO line, no two signals share a line, and both
    /// framebuffers have the panel's shape.
    pub open spec fn wf(self) -> bool {
        &&& pins_ok(self)
        &&& self.front_buffer@.wf()
        &&& self.back_buffer@.wf()
    }

    /// A driver on the given GPIO lines with two black framebuffers, the
    /// front buffer displayed first.
    pub fn new(
        r1_pin: u32,
        g1_pin: u32,
        b1_pin: u32,
        r2_pin: u32,
        g2_pin: u32,
        b2_pin: u32,
        a_pin: u32,
        b_pin: u32,
        c_pin: u32,
        lat_pin: u32,
        oe_pin: u32,
        clk_pin: u32,
    ) -> (h: Hub75)
        requires
            r1_pin < 32,
            g1_pin < 32,
            b1_pin < 32,
            r2_pin < 32,
            g2_pin < 32,
            b2_pin < 32,
            a_pin < 32,
            b_pin < 32,
            c_pin < 32,
            lat_pin < 32,
            oe_pin < 32,
            clk_pin < 32,
            r1_pin != g1_pin,
            r1_pin != b1_pin,
            r1_pin != r2_pin,
            r1_pin != g2_pin,
            r1_pin != b2_pin,
            r1_pin != a_pin,
            r1_pin != b_pin,
            r1_pin != c_pin,
            r1_pin != lat_pin,
            r1_pin != oe_pin,
            r1_pin != clk_pin,
            g1_pin != b1_pin,
            g1_pin != r2_pin,
            g1_pin != g2_pin,
            g1_pin != b2_pin,
            g1_pin != a_pin,
            g1_pin != b_pin,
            g1_pin != c_pin,
            g1_pin != lat_pin,
            g1_pin != oe_pin,
            g1_pin != clk_pin,
            b1_pin != r2_pin,
            b1_pin != g2_pin,
            b1_pin != b2_pin,
            b1_pin != a_pin,
            b1_pin != b_pin,
            b1_pin != c_pin,
            b1_pin != lat_pin,
            b1_pin != oe_pin,
            b1_pin != clk_pin,
            r2_pin != g2_pin,
            r2_pin != b2_pin,
            r2_pin != a_pin,
            r2_pin != b_pin,
            r2_pin != c_pin,
            r2_pin != lat_pin,
            r2_pin != oe_pin,
            r2_pin != clk_pin,
            g2_pin != b2_pin,
            g2_pin != a_pin,
            g2_pin != b_pin,
            g2_pin != c_pin,
            g2_pin != lat_pin,
            g2_pin != oe_pin,
            g2_pin != clk_pin,
            b2_pin != a_pin,
            b2_pin != b_pin,
            b2_pin != c_pin,
            b2_pin != lat_pin,
            b2_pin != oe_pin,
            b2_pin != clk_pin,
            a_pin != b_pin,
            a_pin != c_pin,
            a_pin != lat_pin,
            a_pin != oe_pin,
            a_pin != clk_pin,
            b_pin != c_pin,
            b_pin != lat_pin,
            b_pin != oe_pin,
            b_pin != clk_pin,
            c_pin != lat_pin,
            c_pin != oe_pin,
            c_pin != clk_pin,
            lat_pin != oe_pin,
            lat_pin != clk_pin,
            oe_pin != clk_pin,
        ensures
            h.wf(),
            !h.active_buffer,
            h.gpio_dir == 0 && h.gpio_out == 0,
            pins_of(h) == seq![
                r1_pin,
                g1_pin,
                b1_pin,
                r2_pin,
                g2_pin,
                b2_pin,
                a_pin,
                b_pin,
                c_pin,
                lat_pin,
                oe_pin,
                clk_pin,
            ],
    {
        Hub75 {
            r1_pin,
            g1_pin,
            b1_pin,
            r2_pin,
            g2_pin,
            b2_pin,
            a_pin,
            b_pin,
            c_pin,
            lat_pin,
            oe_pin,
            clk_pin,
            front_buffer: FrameBuffer::new(),
            back_buffer: FrameBuffer::new(),
            active_buffer: false,
            gpio_dir: 0,
            gpio_out: 0,
        }
    }

    /// Drive one GPIO line: mark it as an output in the direction register
    /// and set or clear its bit in the output register. No other line moves.
    fn gpio_set(&mut self, pin: u32, value: bool)
        requires
            pin < 32,
        ensures
            same_config(*old(self), *final(self)),
            final(self).gpio_dir == old(self).gpio_dir | (1u32 << pin),
            final(self).gpio_out == if value {
                old(self).gpio_out | (1u32 << pin)
            } else {
                old(self).gpio_out & !(1u32 << pin)
            },
            bit_set(final(self).gpio_out, pin) == value,
            forall|q: u32|
                q < 32 && q != pin ==> #[trigger] bit_set(final(self).gpio_out, q) == bit_set(
                    old(self).gpio_out,
                    q,
                ),
            forall|q: u32|
                q < 32 ==> #[trigger] bit_set(final(self).gpio_dir, q) == (q == pin || bit_set(
                    old(self).gpio_dir,
                    q,
                )),
    {
        self.gpio_dir = self.gpio_dir | (1u32 << pin);
        if value {
            self.gpio_out = self.gpio_out | (1u32 << pin);
        } else {
            self.gpio_out = self.gpio_out & !(1u32 << pin);
        }
        proof {
            assert forall|q: u32| q < 32 implies #[trigger] bit_set(self.gpio_dir, q) == (q == pin
                || bit_set(old(self).gpio_dir, q)) by {
                lemma_bit_or(old(self).gpio_dir, pin, q);
            }
            assert forall|q: u32| q < 32 implies #[trigger] bit_set(self.gpio_out, q) == (if q
                == pin {
                value
            } else {
                bit_set(old(self).gpio_out, q)
            }) by {
                if value {
                    lemma_bit_or(old(self).gpio_out, pin, q);
                } else {
                    lemma_bit_andnot(old(self).gpio_out, pin, q);
                }
            }
        }
    }

    /// Configure every panel line as a GPIO output, initially driven low.
    pub fn init(&mut self)
        requires
            old(self).wf(),
        ensures
            final(self).wf(),
            same_config(*old(self), *final(self)),
            forall|i: int| 0 <= i < 12 ==> bit_set(final(self).gpio_dir, pins_of(*final(self))[i]),
    {
        let pins: [u32; 12] = [
            self.r1_pin,
            self.g1_pin,
            self.b1_pin,
            self.r2_pin,
            self.g2_pin,
            self.b2_pin,
            self.a_pin,
            self.b_pin,
            self.c_pin,
            self.lat_pin,
            self.oe_pin,
            self.clk_pin,
        ];
        let mut i: usize = 0;
        while i < 12
            invariant
                old(self).wf(),
                same_config(*old(self), *self),
                pins@ == pins_of(*old(self)),
                i <= 12,
                forall|k: int| 0 <= k < i ==> bit_set(self.gpio_dir, pins@[k]),
                forall|q: u32|
                    q < 32 ==> (#[trigger] bit_set(self.gpio_dir, q) ==> bit_set(
                        old(self).gpio_dir,
                        q,
                    ) || exists|k: int| 0 <= k < i && pins@[k] == q),
            decreases 12 - i,
        {
            let pin = pins[i];
            self.gpio_set(pin, false);
            i += 1;
        }
    }

    /// Select the row pair `row / 2` on the panel's three address lines.
    pub fn set_row(&mut self, row: u8)
        requires
            old(self).wf(),
        ensures
            final(self).wf(),
            same_config(*old(self), *final(self)),
            bit_set(final(self).gpio_out, final(self).a_pin) == ((row >> 1) & 0b001 != 0),
            bit_set(final(self).gpio_out, final(self).b_pin) == ((row >> 1) & 0b010 != 0),
            bit_set(final(self).gpio_out, final(self).c_pin) == ((row >> 1) & 0b100 != 0),
            forall|q: u32|
                q < 32 && q != old(self).a_pin && q != old(self).b_pin && q != old(self).c_pin
                    ==> #[trigger] bit_set(final(self).gpio_out, q) == bit_set(
                    old(self).gpio_out,
                    q,
                ),
    {
        // Two panel rows share one address, so the pair index drives the
        // lines.
        let row_pair = row >> 1;
        let a = self.a_pin;
        let b = self.b_pin;
        let c = self.c_pin;
        self.gpio_set(a, (row_pair & 0b001) != 0);
        self.gpio_set(b, (row_pair & 0b010) != 0);
        self.gpio_set(c, (row_pair & 0b100) != 0);
    }

    /// Gate the panel's output drivers; the line is active-low, so `enable ==
    /// true` drives the pin low.
    fn enable_output(&mut self, enable: bool)
        requires
            old(self).wf(),
        ensures
            final(self).wf(),
            same_config(*old(self), *final(self)),
            bit_set(final(self).gpio_out, final(self).oe_pin) == !enable,
            forall|q: u32|
                q < 32 && q != old(self).oe_pin ==> #[trigger] bit_set(final(self).gpio_out, q)
                    == bit_set(old(self).gpio_out, q),
    {
        let oe = self.oe_pin;
        self.gpio_set(oe, !enable);
    }

    /// Pulse the latch line to move the shifted column data to the output
    /// stage; the line ends low.
    fn latch(&mut self)
        requires
            old(self).wf(),
        ensures
            final(self).wf(),
            same_config(*old(self), *final(self)),
            !bit_set(final(self).gpio_out, final(self).lat_pin),
            forall|q: u32|
                q < 32 && q != old(self).lat_pin ==> #[trigger] bit_set(final(self).gpio_out, q)
                    == bit_set(old(self).gpio_out, q),
    {
        let lat = self.lat_pin;
        self.gpio_set(lat, true);
        self.gpio_set(lat, false);
    }

    /// Shift one pixel's six color bits (two rows, three channels, six-bit
    /// depth) into the panel's shift register, clocking after each bit. The
    /// clock line ends low; the address, latch and output-enable lines do not
    /// move.
    fn clock_out(&mut self, rgb: u32)
        requires
            old(self).wf(),
        ensures
            final(self).wf(),
            same_config(*old(self), *final(self)),
            !bit_set(final(self).gpio_out, final(self).clk_pin),
            forall|q: u32|
                q < 32 && q != old(self).r1_pin && q != old(self).g1_pin && q != old(self).b1_pin
                    && q != old(self).r2_pin && q != old(self).g2_pin && q != old(self).b2_pin && q
                    != old(self).clk_pin ==> #[trigger] bit_set(final(self).gpio_out, q) == bit_set(
                    old(self).gpio_out,
                    q,
                ),
    {
        // Split into R1 G1 B1 R2 G2 B2 six-bit fields.
        let r1 = (rgb >> 20) & 0x3F;
        let g1 = (rgb >> 14) & 0x3F;
        let b1 = (rgb >> 8) & 0x3F;
        let r2 = (rgb >> 6) & 0x3F;
        let g2 = (rgb >> 2) & 0x3F;
        let b2 = rgb & 0x3F;

        let mut bit: u32 = 0;
        while bit < 6
            invariant
                old(self).wf(),
                self.wf(),
                same_config(*old(self), *self),
                bit <= 6,
                bit > 0 ==> !bit_set(self.gpio_out, self.clk_pin),
                forall|q: u32|
                    q < 32 && q != old(self).r1_pin && q != old(self).g1_pin && q != old(
                        self,
                    ).b1_pin && q != old(self).r2_pin && q != old(self).g2_pin && q != old(
                        self,
                    ).b2_pin && q != old(self).clk_pin ==> #[trigger] bit_set(self.gpio_out, q)
                        == bit_set(old(self).gpio_out, q),
            decreases 6 - bit,
        {
            let p = self.r1_pin;
            self.gpio_set(p, (r1 >> bit) & 1 != 0);
            let p = self.g1_pin;
            self.gpio_set(p, (g1 >> bit) & 1 != 0);
            let p = self.b1_pin;
            self.gpio_set(p, (b1 >> bit) & 1 != 0);
            let p = self.r2_pin;
            self.gpio_set(p, (r2 >> bit) & 1 != 0);
            let p = self.g2_pin;
            self.gpio_set(p, (g2 >> bit) & 1 != 0);
            let p = self.b2_pin;
            self.gpio_set(p, (b2 >> bit) & 1 != 0);

            // Clock pulse.
            let clk = self.clk_pin;
            self.gpio_set(clk, true);
            self.gpio_set(clk, false);

            bit += 1;
        }
    }

    /// Shift a row of pixels out and latch it to the output stage. The latch
    /// and clock lines end low; address and output-enable lines do not move.
    pub fn write_pixels(&mut self, data: &[u32])
        requires
            old(self).wf(),
        ensures
            final(self).wf(),
            same_config(*old(self), *final(self)),
            !bit_set(final(self).gpio_out, final(self).lat_pin),
            forall|q: u32|
                q < 32 && q != old(self).r1_pin && q != old(self).g1_pin && q != old(self).b1_pin
                    && q != old(self).r2_pin && q != old(self).g2_pin && q != old(self).b2_pin && q
                    != old(self).clk_pin && q != old(self).lat_pin ==> #[trigger] bit_set(
                    final(self).gpio_out,
                    q,
                ) == bit_set(old(self).gpio_out, q),
    {
        let mut i: usize = 0;
        while i < data.len()
            invariant
                old(self).wf(),
                self.wf(),
                same_config(*old(self), *self),
                i <= data@.len(),
                forall|q: u32|
                    q < 32 && q != old(self).r1_pin && q != old(self).g1_pin && q != old(
                        self,
                    ).b1_pin && q != old(self).r2_pin && q != old(self).g2_pin && q != old(
                        self,
                    ).b2_pin && q != old(self).clk_pin ==> #[trigger] bit_set(self.gpio_out, q)
                        == bit_set(old(self).gpio_out, q),
            decreases data@.len() - i,
        {
            let pixel = data[i];
            self.clock_out(pixel);
            i += 1;
        }
        self.latch();
    }

    /// Push one row of pixel data to the panel: blank the output, select the
    /// row, shift and latch the data, then re-enable the output.
    pub fn display_row(&mut self, row: u8, data: &[u32])
        requires
            old(self).wf(),
        ensures
            final(self).wf(),
            same_config(*old(self), *final(self)),
            bit_set(final(self).gpio_out, final(self).a_pin) == ((row >> 1) & 0b001 != 0),
            bit_set(final(self).gpio_out, final(self).b_pin) == ((row >> 1) & 0b010 != 0),
            bit_set(final(self).gpio_out, final(self).c_pin) == ((row >> 1) & 0b100 != 0),
            !bit_set(final(self).gpio_out, final(self).oe_pin),
    {
        self.enable_output(false);
        self.set_row(row);
        self.write_pixels(data);
        self.latch();
        self.enable_output(true);
    }

    /// Whether a channel value lights its LED during one binary-code
    /// modulation pass.
    fn should_light(color: u8, brightness_step: u8) -> (r: bool)
        requires
            brightness_step < PWM_BITS,
        ensures
            r == (color & (1u8 << ((PWM_BITS - 1 - brightness_step) as u32)) != 0),
    {
        color & (1u8 << ((PWM_BITS - 1 - brightness_step) as u32)) != 0
    }

    /// Push one row for one binary-code modulation pass: each channel's LED
    /// is lit when the bit of its 8-bit value selected by `brightness_step`
    /// is set.
    pub fn display_row_pwm(&mut self, row: u8, data: &[u32], brightness_step: u8)
        requires
            old(self).wf(),
            brightness_step < PWM_BITS,
        ensures
            final(self).wf(),
            same_config(*old(self), *final(self)),
            bit_set(final(self).gpio_out, final(self).a_pin) == ((row >> 1) & 0b001 != 0),
            bit_set(final(self).gpio_out, final(self).b_pin) == ((row >> 1) & 0b010 != 0),
            bit_set(final(self).gpio_out, final(self).c_pin) == ((row >> 1) & 0b100 != 0),
            !bit_set(final(self).gpio_out, final(self).oe_pin),
    {
        self.enable_output(false);
        self.set_row(row);

        let ghost after_row = *self;
        let mut i: usize = 0;
        while i < data.len()
            invariant
                old(self).wf(),
                self.wf(),
                same_config(after_row, *self),
                brightness_step < PWM_BITS,
                i <= data@.len(),
                forall|q: u32|
                    q < 32 && q != after_row.r1_pin && q != after_row.g1_pin && q
                        != after_row.b1_pin && q != after_row.clk_pin ==> #[trigger] bit_set(
                        self.gpio_out,
                        q,
                    ) == bit_set(after_row.gpio_out, q),
            decreases data@.len() - i,
        {
            let pixel = data[i];
            let r = ((pixel >> 16) & 0xFF) as u8;
            let g = ((pixel >> 8) & 0xFF) as u8;
            let b = (pixel & 0xFF) as u8;

            let p = self.r1_pin;
            self.gpio_set(p, Self::should_light(r, brightness_step));
            let p = self.g1_pin;
            self.gpio_set(p, Self::should_light(g, brightness_step));
            let p = self.b1_pin;
            self.gpio_set(p, Self::should_light(b, brightness_step));

            // Clock the data in.
            let clk = self.clk_pin;
            self.gpio_set(clk, true);
            self.gpio_set(clk, false);

            i += 1;
        }

        self.latch();
        self.enable_output(true);
    }

    /// Display a whole frame once: every binary-code modulation pass over
    /// every row pushed from a row-major pixel slice.
    pub fn display_frame(&mut self, frame_buffer: &[u32], rows: u8)
        requires
            old(self).wf(),
            (rows as int) * (FB_WIDTH as int) <= frame_buffer@.len(),
        ensures
            final(self).wf(),
            same_config(*old(self), *final(self)),
    {
        let mut brightness: u8 = 0;
        while brightness < PWM_STEPS
            invariant
                old(self).wf(),
                self.wf(),
                same_config(*old(self), *self),
                brightness <= PWM_STEPS,
                (rows as int) * (FB_WIDTH as int) <= frame_buffer@.len(),
            decreases PWM_STEPS - brightness,
        {
            let mut row: u8 = 0;
            while row < rows
                invariant
                    old(self).wf(),
                    self.wf(),
                    same_config(*old(self), *self),
                    brightness < PWM_STEPS,
                    row <= rows,
                    (rows as int) * (FB_WIDTH as int) <= frame_buffer@.len(),
                decreases rows - row,
            {
                let row_start = (row as usize) * FB_WIDTH;
                proof {
                    assert((row_start + FB_WIDTH) as int <= (rows as int) * (FB_WIDTH as int))
                        by (nonlinear_arith)
                        requires
                            row < rows,
                            row_start == (row as int) * (FB_WIDTH as int),
                    ;
                }
                let row_data = &frame_buffer[row_start..row_start + FB_WIDTH];
                self.display_row_pwm(row, row_data, brightness);
                row += 1;
            }
            brightness += 1;
        }
    }

    /// Swap which framebuffer is displayed, blanking the output while the
    /// selection flips so no half-frame is visible.
    pub fn swap_buffers(&mut self)
        requires
            old(self).wf(),
        ensures
            final(self).wf(),
            final(self).active_buffer == !old(self).active_buffer,
            final(self).front_buffer == old(self).front_buffer,
            final(self).back_buffer == old(self).back_buffer,
            pins_of(*final(self)) == pins_of(*old(self)),
            !bit_set(final(self).gpio_out, final(self).oe_pin),
    {
        self.enable_output(false);
        self.active_buffer = !self.active_buffer;
        self.enable_output(true);
    }

    /// The buffer that is *not* being displayed: the one to draw into.
    pub fn get_draw_buffer(&mut self) -> (fb: &mut FrameBuffer)
        requires
            old(self).wf(),
        ensures
            *fb == if old(self).active_buffer {
                old(self).front_buffer
            } else {
                old(self).back_buffer
            },
            old(self).active_buffer ==> *final(self) == (Hub75 {
                front_buffer: *final(fb),
                ..*old(self)
            }),
            !old(self).active_buffer ==> *final(self) == (Hub75 {
                back_buffer: *final(fb),
                ..*old(self)
            }),
    {
        if self.active_buffer {
            &mut self.front_buffer
        } else {
            &mut self.back_buffer
        }
    }

    /// Display the buffer currently selected for output, one binary-code
    /// modulation pass and one row at a time.
    pub fn display_current_buffer(&mut self)
        requires
            old(self).wf(),
        ensures
            final(self).wf(),
            same_config(*old(self), *final(self)),
    {
        let mut brightness: u8 = 0;
        while brightness < PWM_STEPS
            invariant
                old(self).wf(),
                self.wf(),
                same_config(*old(self), *self),
                brightness <= PWM_STEPS,
            decreases PWM_STEPS - brightness,
        {
            let mut row: usize = 0;
            while row < FB_HEIGHT
                invariant
                    old(self).wf(),
                    self.wf(),
                    same_config(*old(self), *self),
                    brightness < PWM_STEPS,
                    row <= FB_HEIGHT,
                decreases FB_HEIGHT - row,
            {
                let row_data = if self.active_buffer {
                    self.back_buffer.row_pixels(row)
                } else {
                    self.front_buffer.row_pixels(row)
                };
                self.display_row_pwm(row as u8, row_data.as_slice(), brightness);
                row += 1;
            }
            brightness += 1;
        }
    }
}

/// Every pixel of `v2` is either the same as in `v1` or painted `color`:
/// the frame condition every drawing primitive obeys.
pub open spec fn draws_only(v1: FrameBufferView, v2: FrameBufferView, color: u32) -> bool {
    &&& v2.width == v1.width
    &&& v2.height == v1.height
    &&& v2.data.len() == v1.data.len()
    &&& forall|i: int| 0 <= i < v1.data.len() ==> v2.data[i] == v1.data[i] || v2.data[i] == color
}

} // verus!
