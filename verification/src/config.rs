//! The fixed parameters of a sandbox: grid dimensions, cell geometry in
//! pixels and the tick rate, together with the mapping between pixels and
//! cells that follows from the geometry.

use vstd::prelude::*;

verus! {

/// Everything that is chosen once, before the first tick.
///
/// Cells are laid out on a uniform pitch of `cell_size + cell_gap` pixels,
/// starting `padding` pixels from the top-left corner of the window.
#[derive(Clone, Copy, Debug, PartialEq, Eq)]
pub struct Config {
    /// Number of grid rows.
    pub rows: usize,
    /// Number of grid columns.
    pub cols: usize,
    /// Side of a drawn cell, in pixels.
    pub cell_size: u32,
    /// Gap between two neighbouring cells, in pixels.
    pub cell_gap: u32,
    /// Margin between the window's edge and the first cell, in pixels.
    pub padding: u32,
    /// Ticks that the host delivers per second; the interval at speed 0.
    pub base_ticks: u32,
}

/// Largest pixel coordinate.
pub open spec fn pixel_max() -> int {
    0x7fff_ffff
}

/// Quotient of `n` by a positive `d`, rounded toward zero.
pub open spec fn div_toward_zero(n: int, d: int) -> int {
    if n >= 0 {
        n / d
    } else {
        -((-n) / d)
    }
}

impl Config {
    /// Distance in pixels between the origins of two neighbouring cells.
    pub open spec fn pitch(self) -> int {
        self.cell_size + self.cell_gap
    }

    /// Pixels that `count` cells and both margins take along one axis.
    pub open spec fn extent(self, count: int) -> int {
        2 * self.padding + count * self.pitch()
    }

    /// A configuration is usable when the pitch is positive, the window fits
    /// in pixel coordinates and the grid fits in memory.
    pub open spec fn wf(self) -> bool {
        &&& self.pitch() > 0
        &&& self.extent(self.cols as int) <= pixel_max()
        &&& self.extent(self.rows as int) <= pixel_max()
        &&& self.rows * self.cols <= usize::MAX
    }

    /// Pixel at which the cell with the given index along one axis begins.
    pub open spec fn origin_of(self, index: int) -> int {
        self.padding + index * self.pitch()
    }

    /// Index along one axis of the cell that a pixel coordinate resolves to.
    ///
    /// The coordinate is taken relative to the first cell's origin, moved by
    /// half a cell, and divided by the pitch, rounding toward zero.
    pub open spec fn index_of(self, pixel: int) -> int {
        div_toward_zero(pixel - self.padding + self.cell_size / 2, self.pitch())
    }

    /// Whether `count` cells and both margins fit in pixel coordinates along
    /// one axis.
    fn axis_fits(&self, count: usize) -> (ok: bool)
        requires
            self.pitch() > 0,
        ensures
            ok == (self.extent(count as int) <= pixel_max()),
    {
        let pitch: u64 = self.cell_size as u64 + self.cell_gap as u64;
        let margin: u64 = 2 * (self.padding as u64);
        let limit: u64 = 0x7fff_ffff;
        if margin > limit {
            assert(count * self.pitch() >= 0) by (nonlinear_arith)
                requires
                    count >= 0,
                    self.pitch() > 0,
            ;
            return false;
        }
        let room: u64 = limit - margin;
        let most: u64 = room / pitch;
        proof {
            lemma_fits_iff_at_most_quotient(count as int, pitch as int, room as int);
        }
        count as u64 <= most
    }

    /// Whether this configuration is usable, as `wf` defines it.
    pub fn is_valid(&self) -> (ok: bool)
        ensures
            ok == self.wf(),
    {
        if self.cell_size == 0 && self.cell_gap == 0 {
            return false;
        }
        if !self.axis_fits(self.cols) || !self.axis_fits(self.rows) {
            return false;
        }
        proof {
            lemma_count_within_extent(self.rows as int, self.pitch());
            lemma_count_within_extent(self.cols as int, self.pitch());
            assert(self.rows * self.cols <= 0x7fff_ffff * 0x7fff_ffff) by (nonlinear_arith)
                requires
                    0 <= self.rows <= 0x7fff_ffff,
                    0 <= self.cols <= 0x7fff_ffff,
            ;
        }
        let cells: u64 = self.rows as u64 * self.cols as u64;
        cells <= usize::MAX as u64
    }

    /// Width and height of the window that shows the whole grid, in pixels.
    pub fn window_size(&self) -> (size: (u32, u32))
        requires
            self.wf(),
        ensures
            size.0 == self.extent(self.cols as int),
            size.1 == self.extent(self.rows as int),
    {
        (self.axis_extent(self.cols), self.axis_extent(self.rows))
    }

    /// Pixels that `count` cells and both margins take along one axis.
    fn axis_extent(&self, count: usize) -> (pixels: u32)
        requires
            self.pitch() > 0,
            self.extent(count as int) <= pixel_max(),
        ensures
            pixels == self.extent(count as int),
    {
        let pitch: u64 = self.cell_size as u64 + self.cell_gap as u64;
        proof {
            lemma_count_within_extent(count as int, self.pitch());
            assert(count * self.pitch() >= 0) by (nonlinear_arith)
                requires
                    count >= 0,
                    self.pitch() > 0,
            ;
        }
        let span: u64 = count as u64 * pitch;
        (2 * (self.padding as u64) + span) as u32
    }

    /// Index along one axis of the cell under a pixel coordinate.
    fn axis_index(&self, pixel: i32) -> (index: i64)
        requires
            self.pitch() > 0,
        ensures
            index == self.index_of(pixel as int),
    {
        let pitch: i64 = self.cell_size as i64 + self.cell_gap as i64;
        let half: i64 = (self.cell_size / 2) as i64;
        let shifted: i64 = pixel as i64 - self.padding as i64 + half;
        if shifted >= 0 {
            shifted / pitch
        } else {
            let back: i64 = -shifted;
            assert(back / pitch <= back) by {
                vstd::arithmetic::div_mod::lemma_div_is_ordered_by_denominator(
                    back as int,
                    1,
                    pitch as int,
                );
            }
            -(back / pitch)
        }
    }

    /// Resolves a pixel position to the `(row, column)` it falls on.
    ///
    /// The result may lie outside the grid, on either side: whoever uses it
    /// as a cell has to test it against the grid first.
    pub fn pixel_to_cell(&self, x: i32, y: i32) -> (cell: (i64, i64))
        requires
            self.pitch() > 0,
        ensures
            cell.0 == self.index_of(y as int),
            cell.1 == self.index_of(x as int),
    {
        (self.axis_index(y), self.axis_index(x))
    }

    /// Pixel at which a cell's index along one axis begins.
    fn axis_origin(&self, index: usize, count: usize) -> (pixel: i32)
        requires
            self.pitch() > 0,
            self.extent(count as int) <= pixel_max(),
            index < count,
        ensures
            pixel == self.origin_of(index as int),
    {
        let pitch: u64 = self.cell_size as u64 + self.cell_gap as u64;
        proof {
            lemma_count_within_extent(count as int, self.pitch());
            assert(0 <= index * self.pitch() <= count * self.pitch()) by (nonlinear_arith)
                requires
                    0 <= index < count,
                    self.pitch() > 0,
            ;
        }
        let span: u64 = index as u64 * pitch;
        (self.padding as u64 + span) as i32
    }

    /// Top-left pixel `(x, y)` of the cell at `(row, col)`.
    ///
    /// Mapping that pixel back with `pixel_to_cell` gives `(row, col)` again.
    pub fn cell_to_pixel(&self, row: usize, col: usize) -> (pixel: (i32, i32))
        requires
            self.wf(),
            row < self.rows,
            col < self.cols,
        ensures
            pixel.0 == self.origin_of(col as int),
            pixel.1 == self.origin_of(row as int),
            self.index_of(pixel.0 as int) == col,
            self.index_of(pixel.1 as int) == row,
    {
        proof {
            lemma_round_trip(*self, row as int);
            lemma_round_trip(*self, col as int);
        }
        (self.axis_origin(col, self.cols), self.axis_origin(row, self.rows))
    }

    /// The classic board: 40 by 40 cells of 12 pixels, 2 pixels apart, behind
    /// a margin of 5 pixels, at 60 ticks per second.
    pub fn standard() -> (config: Config)
        ensures
            config == (Config {
                rows: 40,
                cols: 40,
                cell_size: 12,
                cell_gap: 2,
                padding: 5,
                base_ticks: 60,
            }),
            config.wf(),
    {
        Config { rows: 40, cols: 40, cell_size: 12, cell_gap: 2, padding: 5, base_ticks: 60 }
    }
}

/// With a positive divisor, `count` multiples fit in `room` exactly when
/// `count` is at most the quotient.
proof fn lemma_fits_iff_at_most_quotient(count: int, d: int, room: int)
    requires
        0 <= count,
        0 < d,
        0 <= room,
    ensures
        (count * d <= room) <==> (count <= room / d),
{
    let q = room / d;
    let r = room % d;
    vstd::arithmetic::div_mod::lemma_fundamental_div_mod(room, d);
    vstd::arithmetic::div_mod::lemma_mod_pos_bound(room, d);
    assert(room == d * q + r);
    if count <= q {
        assert(count * d <= d * q) by (nonlinear_arith)
            requires
                count <= q,
                0 < d,
        ;
    } else {
        assert(count * d >= d * q + d) by (nonlinear_arith)
            requires
                count >= q + 1,
                0 < d,
        ;
    }
}

/// A number of cells is never larger than the pixels that they take.
proof fn lemma_count_within_extent(count: int, pitch: int)
    requires
        0 <= count,
        0 < pitch,
    ensures
        count <= count * pitch,
{
    assert(count <= count * pitch) by (nonlinear_arith)
        requires
            0 <= count,
            1 <= pitch,
    ;
}

/// The pixel at which a cell begins resolves to that cell: for every index
/// from zero on, `index_of(origin_of(index)) == index`.
pub proof fn lemma_round_trip(config: Config, index: int)
    requires
        config.pitch() > 0,
        0 <= index,
    ensures
        config.index_of(config.origin_of(index)) == index,
{
    let pitch = config.pitch();
    let half = (config.cell_size / 2) as int;
    assert(0 <= half < pitch);
    assert(index * pitch >= 0) by (nonlinear_arith)
        requires
            index >= 0,
            pitch > 0,
    ;
    assert(config.origin_of(index) - config.padding + config.cell_size / 2 == pitch * index
        + half) by (nonlinear_arith)
        requires
            config.origin_of(index) == config.padding + index * pitch,
            half == config.cell_size / 2,
    ;
    vstd::arithmetic::div_mod::lemma_div_multiples_vanish_fancy(index, half, pitch);
}

} // verus!
