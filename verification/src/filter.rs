//! What the blur programs compute, on images of 8-bit texels.
//!
//! A blur runs as two passes, one along each axis of the image; the second
//! reads what the first wrote. A pass replaces every texel by a combination
//! of texels along its axis. A tap beyond the edge of the image reads the
//! texel at the edge.

use vstd::prelude::*;
use crate::blur_shadow_pipe::Radius;
use crate::depth::{Depth, pack_depth, packed, unpack_depth, unpacked};
use crate::formats::Rgba8;

verus! {

/// The axis of a blur pass.
#[derive(Clone, Copy, Debug, PartialEq, Eq, Structural)]
pub enum Axis {
    /// Along the rows.
    U,
    /// Along the columns.
    V,
}

/// An image: rows of texels, all of the same length.
#[derive(Debug, PartialEq, Eq)]
pub struct Image {
    pub rows: Vec<Vec<Rgba8>>,
}

/// `v` moved into `[0, n)`.
pub open spec fn clamped(v: int, n: int) -> int {
    if v < 0 {
        0
    } else if v >= n {
        n - 1
    } else {
        v
    }
}

/// The grid has at least one row and one column, and all rows have the same length.
pub open spec fn rectangular(grid: Seq<Seq<Rgba8>>) -> bool {
    &&& grid.len() >= 1
    &&& grid[0].len() >= 1
    &&& forall|y: int| 0 <= y < grid.len() ==> (#[trigger] grid[y]).len() == grid[0].len()
}

/// The texel at column `x` of row `y`, both moved into the grid.
pub open spec fn texel_at(grid: Seq<Seq<Rgba8>>, x: int, y: int) -> Rgba8 {
    grid[clamped(y, grid.len() as int)][clamped(x, grid[0].len() as int)]
}

/// The texel that lies `offset` texels from `(x, y)` along the axis.
pub open spec fn tap(grid: Seq<Seq<Rgba8>>, axis: Axis, x: int, y: int, offset: int) -> Rgba8 {
    match axis {
        Axis::U => texel_at(grid, x + offset, y),
        Axis::V => texel_at(grid, x, y + offset),
    }
}

/// Channel `c` of a texel: red, green, blue, then alpha.
pub open spec fn channel(texel: Rgba8, c: int) -> int {
    if c == 0 {
        texel.r as int
    } else if c == 1 {
        texel.g as int
    } else if c == 2 {
        texel.b as int
    } else {
        texel.a as int
    }
}

/// The sum of channel `c` over the `n` taps at the offsets `first`, `first + 1`, ...
pub open spec fn channel_sum(
    grid: Seq<Seq<Rgba8>>,
    axis: Axis,
    x: int,
    y: int,
    first: int,
    n: nat,
    c: int,
) -> int
    decreases n,
{
    if n == 0 {
        0
    } else {
        channel_sum(grid, axis, x, y, first, (n - 1) as nat, c) + channel(
            tap(grid, axis, x, y, first + n - 1),
            c,
        )
    }
}

/// The sum of the packed depths of the `n` taps at the offsets `first`, `first + 1`, ...
pub open spec fn depth_sum(
    grid: Seq<Seq<Rgba8>>,
    axis: Axis,
    x: int,
    y: int,
    first: int,
    n: nat,
) -> int
    decreases n,
{
    if n == 0 {
        0
    } else {
        depth_sum(grid, axis, x, y, first, (n - 1) as nat) + unpacked(
            tap(grid, axis, x, y, first + n - 1),
        )
    }
}

/// A channel value limited to what a channel holds.
pub open spec fn limited(v: int) -> int {
    if v > 255 {
        255
    } else {
        v
    }
}

/// Channel `c` of the box blur of radius `width` at `(x, y)`: the sum of the
/// `2 * width + 1` taps at the offsets `-width` to `width`, divided by
/// `2 * width`, the diameter, and limited to what a channel holds.
pub open spec fn box_blurred_channel(
    grid: Seq<Seq<Rgba8>>,
    axis: Axis,
    width: int,
    x: int,
    y: int,
    c: int,
) -> int {
    limited(channel_sum(grid, axis, x, y, -width, (2 * width + 1) as nat, c) / (2 * width))
}

/// The texel of the box blur of radius `width` at `(x, y)`.
pub open spec fn box_blurred(grid: Seq<Seq<Rgba8>>, axis: Axis, width: int, x: int, y: int) -> Rgba8 {
    Rgba8 {
        r: box_blurred_channel(grid, axis, width, x, y, 0) as u8,
        g: box_blurred_channel(grid, axis, width, x, y, 1) as u8,
        b: box_blurred_channel(grid, axis, width, x, y, 2) as u8,
        a: box_blurred_channel(grid, axis, width, x, y, 3) as u8,
    }
}

/// The image after one pass of the box blur.
pub open spec fn box_blur_grid(grid: Seq<Seq<Rgba8>>, axis: Axis, width: int) -> Seq<Seq<Rgba8>> {
    Seq::new(
        grid.len(),
        |y: int| Seq::new(grid[0].len(), |x: int| box_blurred(grid, axis, width, x, y)),
    )
}

/// Number of taps of the depth blur: twice the whole texels of the radius,
/// and ten at most.
pub open spec fn taps(radius: Radius) -> int {
    if 2 * (radius.raw / 256) > 10 {
        10
    } else {
        2 * (radius.raw / 256)
    }
}

/// The texel of the depth blur at `(x, y)`: the taps start at the offset of
/// minus the whole texels of the radius; the depths that they hold are
/// averaged, and the average is packed.
pub open spec fn depth_blurred(
    grid: Seq<Seq<Rgba8>>,
    axis: Axis,
    radius: Radius,
    x: int,
    y: int,
) -> Rgba8 {
    packed(
        depth_sum(grid, axis, x, y, -(radius.raw / 256), taps(radius) as nat) / taps(radius),
    )
}

/// The image after one pass of the depth blur.
pub open spec fn depth_blur_grid(grid: Seq<Seq<Rgba8>>, axis: Axis, radius: Radius) -> Seq<
    Seq<Rgba8>,
> {
    Seq::new(
        grid.len(),
        |y: int| Seq::new(grid[0].len(), |x: int| depth_blurred(grid, axis, radius, x, y)),
    )
}

/// Number of taps of the depth blur.
pub fn tap_count(radius: Radius) -> (n: u32)
    ensures
        n == taps(radius),
        n <= 10,
        n % 2 == 0,
{
    let whole: u32 = radius.raw / 256;
    if whole > 5 {
        10
    } else {
        2 * whole
    }
}

impl View for Image {
    type V = Seq<Seq<Rgba8>>;

    open spec fn view(&self) -> Seq<Seq<Rgba8>> {
        Seq::new(self.rows@.len(), |y: int| self.rows@[y]@)
    }
}

impl Image {
    /// The image has at least one texel, and all rows have the same length.
    pub open spec fn wf(&self) -> bool {
        rectangular(self@)
    }

    /// An image of `width` by `height` texels, all of them `texel`.
    pub fn filled(width: usize, height: usize, texel: Rgba8) -> (image: Image)
        requires
            width >= 1,
            height >= 1,
        ensures
            image.wf(),
            image@.len() == height,
            image@[0].len() == width,
            forall|x: int, y: int| #[trigger] texel_at(image@, x, y) == texel,
    {
        let mut rows: Vec<Vec<Rgba8>> = Vec::new();
        let mut y: usize = 0;
        while y < height
            invariant
                y <= height,
                rows@.len() == y,
                forall|j: int| 0 <= j < y ==> (#[trigger] rows@[j])@.len() == width,
                forall|j: int, i: int| 0 <= j < y && 0 <= i < width ==> #[trigger] rows@[j]@[i] == texel,
            decreases height - y,
        {
            let mut row: Vec<Rgba8> = Vec::new();
            let mut x: usize = 0;
            while x < width
                invariant
                    x <= width,
                    row@.len() == x,
                    forall|i: int| 0 <= i < x ==> #[trigger] row@[i] == texel,
                decreases width - x,
            {
                row.push(texel);
                x = x + 1;
            }
            rows.push(row);
            y = y + 1;
        }
        let image = Image { rows };
        assert(image.wf());
        assert forall|x: int, y: int| #[trigger] texel_at(image@, x, y) == texel by {
            let cy = clamped(y, image@.len() as int);
            let cx = clamped(x, image@[0].len() as int);
            assert(image@[cy][cx] == image.rows@[cy]@[cx]);
        }
        image
    }

    /// Number of columns.
    pub fn width(&self) -> (w: usize)
        requires
            self.wf(),
        ensures
            w == self@[0].len(),
            w >= 1,
    {
        assert(self@[0] == self.rows@[0]@);
        self.rows[0].len()
    }

    /// Number of rows.
    pub fn height(&self) -> (h: usize)
        requires
            self.wf(),
        ensures
            h == self@.len(),
            h >= 1,
    {
        self.rows.len()
    }

    /// The texel at column `x` of row `y`.
    pub fn get(&self, x: usize, y: usize) -> (texel: Rgba8)
        requires
            self.wf(),
            x < self@[0].len(),
            y < self@.len(),
        ensures
            texel == self@[y as int][x as int],
            texel == texel_at(self@, x as int, y as int),
    {
        assert(self@[y as int] == self.rows@[y as int]@);
        self.rows[y][x]
    }

    /// The texel that lies `step - back` texels from `(x, y)` along the axis.
    fn tap(&self, axis: Axis, x: usize, y: usize, step: usize, back: usize) -> (texel: Rgba8)
        requires
            self.wf(),
            x < self@[0].len(),
            y < self@.len(),
            self@[0].len() + step <= usize::MAX,
            self@.len() + step <= usize::MAX,
        ensures
            texel == tap(self@, axis, x as int, y as int, step - back),
    {
        let w = self.width();
        let h = self.height();
        match axis {
            Axis::U => {
                let cx = clamp_index(x, step, back, w);
                self.get(cx, y)
            },
            Axis::V => {
                let cy = clamp_index(y, step, back, h);
                self.get(x, cy)
            },
        }
    }

    /// Channel `c` of the box blur of radius `width` at `(x, y)`.
    fn box_blur_channel(&self, axis: Axis, width: u32, x: usize, y: usize, c: u8) -> (out: u8)
        requires
            self.wf(),
            width >= 1,
            x < self@[0].len(),
            y < self@.len(),
            c < 4,
            self@[0].len() + 2 * width <= usize::MAX,
            self@.len() + 2 * width <= usize::MAX,
        ensures
            out == box_blurred_channel(self@, axis, width as int, x as int, y as int, c as int),
    {
        let n: usize = 2 * (width as usize) + 1;
        let mut sum: u64 = 0;
        let mut i: usize = 0;
        while i < n
            invariant
                i <= n,
                n == 2 * width + 1,
                self.wf(),
                x < self@[0].len(),
                y < self@.len(),
                c < 4,
                self@[0].len() + 2 * width <= usize::MAX,
                self@.len() + 2 * width <= usize::MAX,
                sum == channel_sum(self@, axis, x as int, y as int, -(width as int), i as nat, c as int),
                sum <= 255 * i,
            decreases n - i,
        {
            let texel = self.tap(axis, x, y, i, width as usize);
            let value: u8 = if c == 0 {
                texel.r
            } else if c == 1 {
                texel.g
            } else if c == 2 {
                texel.b
            } else {
                texel.a
            };
            sum = sum + value as u64;
            i = i + 1;
        }
        let mean: u64 = sum / (2 * (width as u64));
        if mean > 255 {
            255
        } else {
            mean as u8
        }
    }

    /// One pass of the box blur of radius `width` along `axis`.
    pub fn box_blur_pass(&self, axis: Axis, width: u32) -> (out: Image)
        requires
            self.wf(),
            width >= 1,
            self@[0].len() + 2 * width <= usize::MAX,
            self@.len() + 2 * width <= usize::MAX,
        ensures
            out.wf(),
            out@ == box_blur_grid(self@, axis, width as int),
    {
        let w = self.width();
        let h = self.height();
        let mut rows: Vec<Vec<Rgba8>> = Vec::new();
        let mut y: usize = 0;
        while y < h
            invariant
                y <= h,
                h == self@.len(),
                w == self@[0].len(),
                self.wf(),
                width >= 1,
                self@[0].len() + 2 * width <= usize::MAX,
                self@.len() + 2 * width <= usize::MAX,
                rows@.len() == y,
                forall|j: int|
                    0 <= j < y ==> (#[trigger] rows@[j])@ == box_blur_grid(
                        self@,
                        axis,
                        width as int,
                    )[j],
            decreases h - y,
        {
            let mut row: Vec<Rgba8> = Vec::new();
            let mut x: usize = 0;
            while x < w
                invariant
                    x <= w,
                    y < h,
                    h == self@.len(),
                    w == self@[0].len(),
                    self.wf(),
                    width >= 1,
                    self@[0].len() + 2 * width <= usize::MAX,
                    self@.len() + 2 * width <= usize::MAX,
                    row@.len() == x,
                    forall|i: int|
                        0 <= i < x ==> #[trigger] row@[i] == box_blurred(
                            self@,
                            axis,
                            width as int,
                            i,
                            y as int,
                        ),
                decreases w - x,
            {
                let texel = Rgba8 {
                    r: self.box_blur_channel(axis, width, x, y, 0),
                    g: self.box_blur_channel(axis, width, x, y, 1),
                    b: self.box_blur_channel(axis, width, x, y, 2),
                    a: self.box_blur_channel(axis, width, x, y, 3),
                };
                row.push(texel);
                x = x + 1;
            }
            assert(row@ =~= box_blur_grid(self@, axis, width as int)[y as int]);
            rows.push(row);
            y = y + 1;
        }
        let out = Image { rows };
        assert(out@ =~= box_blur_grid(self@, axis, width as int));
        out
    }

    /// The box blur of radius `width`: a pass along the rows, then a pass
    /// along the columns of its result.
    pub fn box_blur(&self, width: u32) -> (out: Image)
        requires
            self.wf(),
            width >= 1,
            self@[0].len() + 2 * width <= usize::MAX,
            self@.len() + 2 * width <= usize::MAX,
        ensures
            out.wf(),
            out@ == box_blur_grid(box_blur_grid(self@, Axis::U, width as int), Axis::V, width as int),
    {
        let horizontal = self.box_blur_pass(Axis::U, width);
        horizontal.box_blur_pass(Axis::V, width)
    }

    /// The depth blur at `(x, y)`.
    fn depth_blur_at(&self, axis: Axis, radius: Radius, x: usize, y: usize) -> (out: Rgba8)
        requires
            self.wf(),
            radius.raw >= 256,
            x < self@[0].len(),
            y < self@.len(),
            self@[0].len() + 10 <= usize::MAX,
            self@.len() + 10 <= usize::MAX,
        ensures
            out == depth_blurred(self@, axis, radius, x as int, y as int),
    {
        let n: u32 = tap_count(radius);
        let back: usize = (radius.raw / 256) as usize;
        let mut sum: u64 = 0;
        let mut i: u32 = 0;
        while i < n
            invariant
                i <= n,
                n == taps(radius),
                n <= 10,
                back == radius.raw / 256,
                self.wf(),
                x < self@[0].len(),
                y < self@.len(),
                self@[0].len() + 10 <= usize::MAX,
                self@.len() + 10 <= usize::MAX,
                sum == depth_sum(self@, axis, x as int, y as int, -(back as int), i as nat),
                sum <= 0x1_0000_0000 * i,
            decreases n - i,
        {
            let texel = self.tap(axis, x, y, i as usize, back);
            let depth = unpack_depth(texel);
            sum = sum + depth.raw;
            i = i + 1;
        }
        pack_depth(Depth { raw: sum / (n as u64) })
    }

    /// One pass of the depth blur along `axis`. A radius below one texel has
    /// no tap to average.
    pub fn depth_blur_pass(&self, axis: Axis, radius: Radius) -> (out: Image)
        requires
            self.wf(),
            radius.raw >= 256,
            self@[0].len() + 10 <= usize::MAX,
            self@.len() + 10 <= usize::MAX,
        ensures
            out.wf(),
            out@ == depth_blur_grid(self@, axis, radius),
    {
        let w = self.width();
        let h = self.height();
        let mut rows: Vec<Vec<Rgba8>> = Vec::new();
        let mut y: usize = 0;
        while y < h
            invariant
                y <= h,
                h == self@.len(),
                w == self@[0].len(),
                self.wf(),
                radius.raw >= 256,
                self@[0].len() + 10 <= usize::MAX,
                self@.len() + 10 <= usize::MAX,
                rows@.len() == y,
                forall|j: int|
                    0 <= j < y ==> (#[trigger] rows@[j])@ == depth_blur_grid(self@, axis, radius)[j],
            decreases h - y,
        {
            let mut row: Vec<Rgba8> = Vec::new();
            let mut x: usize = 0;
            while x < w
                invariant
                    x <= w,
                    y < h,
                    h == self@.len(),
                    w == self@[0].len(),
                    self.wf(),
                    radius.raw >= 256,
                    self@[0].len() + 10 <= usize::MAX,
                    self@.len() + 10 <= usize::MAX,
                    row@.len() == x,
                    forall|i: int|
                        0 <= i < x ==> #[trigger] row@[i] == depth_blurred(
                            self@,
                            axis,
                            radius,
                            i,
                            y as int,
                        ),
                decreases w - x,
            {
                let texel = self.depth_blur_at(axis, radius, x, y);
                row.push(texel);
                x = x + 1;
            }
            assert(row@ =~= depth_blur_grid(self@, axis, radius)[y as int]);
            rows.push(row);
            y = y + 1;
        }
        let out = Image { rows };
        assert(out@ =~= depth_blur_grid(self@, axis, radius));
        out
    }

    /// The depth blur: a pass along the rows, then a pass along the columns
    /// of its result.
    pub fn depth_blur(&self, radius: Radius) -> (out: Image)
        requires
            self.wf(),
            radius.raw >= 256,
            self@[0].len() + 10 <= usize::MAX,
            self@.len() + 10 <= usize::MAX,
        ensures
            out.wf(),
            out@ == depth_blur_grid(depth_blur_grid(self@, Axis::U, radius), Axis::V, radius),
    {
        let horizontal = self.depth_blur_pass(Axis::U, radius);
        horizontal.depth_blur_pass(Axis::V, radius)
    }
}

/// `pos + step - back`, moved into `[0, n)`.
fn clamp_index(pos: usize, step: usize, back: usize, n: usize) -> (r: usize)
    requires
        pos < n,
        n + step <= usize::MAX,
    ensures
        r == clamped(pos + step - back, n as int),
        r < n,
{
    let forward: usize = pos + step;
    if forward < back {
        0
    } else if forward - back >= n {
        n - 1
    } else {
        forward - back
    }
}

/// Every texel of the grid, and so every tap, is `texel`.
pub open spec fn constant(grid: Seq<Seq<Rgba8>>, texel: Rgba8) -> bool {
    forall|x: int, y: int| #[trigger] texel_at(grid, x, y) == texel
}

/// Over a constant image the taps of a channel sum to the channel's value
/// times their number.
pub proof fn lemma_channel_sum_constant(
    grid: Seq<Seq<Rgba8>>,
    axis: Axis,
    x: int,
    y: int,
    first: int,
    n: nat,
    c: int,
    texel: Rgba8,
)
    requires
        constant(grid, texel),
    ensures
        channel_sum(grid, axis, x, y, first, n, c) == n * channel(texel, c),
    decreases n,
{
    if n > 0 {
        lemma_channel_sum_constant(grid, axis, x, y, first, (n - 1) as nat, c, texel);
        assert(tap(grid, axis, x, y, first + n - 1) == texel);
        assert(n * channel(texel, c) == (n - 1) * channel(texel, c) + channel(texel, c))
            by (nonlinear_arith);
    } else {
        assert(n * channel(texel, c) == 0) by (nonlinear_arith)
            requires
                n == 0,
        ;
    }
}

/// Over a constant image the depths of the taps sum to the depth of the
/// texel times their number.
pub proof fn lemma_depth_sum_constant(
    grid: Seq<Seq<Rgba8>>,
    axis: Axis,
    x: int,
    y: int,
    first: int,
    n: nat,
    texel: Rgba8,
)
    requires
        constant(grid, texel),
    ensures
        depth_sum(grid, axis, x, y, first, n) == n * unpacked(texel),
    decreases n,
{
    if n > 0 {
        lemma_depth_sum_constant(grid, axis, x, y, first, (n - 1) as nat, texel);
        assert(tap(grid, axis, x, y, first + n - 1) == texel);
        assert(n * unpacked(texel) == (n - 1) * unpacked(texel) + unpacked(texel))
            by (nonlinear_arith);
    } else {
        assert(n * unpacked(texel) == 0) by (nonlinear_arith)
            requires
                n == 0,
        ;
    }
}

/// A pass of the box blur over a constant image, along either axis, gives
/// every channel `v` the value `v + v / (2 * width)`, limited to what a
/// channel holds: the kernel sums `2 * width + 1` taps and divides by
/// `2 * width`. No channel gets darker.
pub proof fn lemma_box_blur_constant(
    grid: Seq<Seq<Rgba8>>,
    axis: Axis,
    width: int,
    x: int,
    y: int,
    c: int,
    texel: Rgba8,
)
    requires
        constant(grid, texel),
        width >= 1,
    ensures
        box_blurred_channel(grid, axis, width, x, y, c) == limited(
            channel(texel, c) + channel(texel, c) / (2 * width),
        ),
        box_blurred_channel(grid, axis, width, x, y, c) >= channel(texel, c),
{
    let v = channel(texel, c);
    let d = 2 * width;
    lemma_channel_sum_constant(grid, axis, x, y, -width, (d + 1) as nat, c, texel);
    assert((d + 1) * v == v + v * d) by (nonlinear_arith);
    vstd::arithmetic::div_mod::lemma_hoist_over_denominator(v, v, d as nat);
    vstd::arithmetic::div_mod::lemma_div_pos_is_pos(v, d);
}

/// A pass of the box blur, along either axis, keeps a constant image whose
/// channels are all below `2 * width`: there the extra tap is lost in the
/// division.
pub proof fn lemma_box_blur_keeps_dim_constant(
    grid: Seq<Seq<Rgba8>>,
    axis: Axis,
    width: int,
    x: int,
    y: int,
    texel: Rgba8,
)
    requires
        constant(grid, texel),
        width >= 1,
        texel.r < 2 * width,
        texel.g < 2 * width,
        texel.b < 2 * width,
        texel.a < 2 * width,
    ensures
        box_blurred(grid, axis, width, x, y) == texel,
{
    lemma_box_blur_constant(grid, axis, width, x, y, 0, texel);
    lemma_box_blur_constant(grid, axis, width, x, y, 1, texel);
    lemma_box_blur_constant(grid, axis, width, x, y, 2, texel);
    lemma_box_blur_constant(grid, axis, width, x, y, 3, texel);
    vstd::arithmetic::div_mod::lemma_basic_div(texel.r as int, 2 * width);
    vstd::arithmetic::div_mod::lemma_basic_div(texel.g as int, 2 * width);
    vstd::arithmetic::div_mod::lemma_basic_div(texel.b as int, 2 * width);
    vstd::arithmetic::div_mod::lemma_basic_div(texel.a as int, 2 * width);
}

/// A pass of the depth blur over a constant image, along either axis, keeps
/// every texel: the depths of the taps are averaged over their number.
pub proof fn lemma_depth_blur_constant(
    grid: Seq<Seq<Rgba8>>,
    axis: Axis,
    radius: Radius,
    x: int,
    y: int,
    texel: Rgba8,
)
    requires
        constant(grid, texel),
        radius.raw >= 256,
    ensures
        depth_blurred(grid, axis, radius, x, y) == texel,
{
    let n = taps(radius);
    let d = unpacked(texel);
    lemma_depth_sum_constant(grid, axis, x, y, -(radius.raw / 256), n as nat, texel);
    assert(n >= 2);
    assert((n * d) / n == d) by (nonlinear_arith)
        requires
            n >= 2,
    ;
    crate::depth::lemma_pack_unpack(texel);
}

} // verus!
