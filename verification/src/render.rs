//! Drawing a level: the canvas it needs, the tiles laid on the canvas, and
//! the place of the canvas on the screen.

use vstd::prelude::*;
use crate::level::Level;
use crate::position::Position;
use crate::rect::Rect;
use crate::scene::{
    blit, cell_blits, ground_tile, object_blits, row_blits, rows_blits, scene, shadow_blits,
    tile_rect, Blit,
};
use crate::shadow::{get_shadow_flags, Shadow, ShadowFlags};
use crate::tile::{
    elevated_top_left, is_pixel, top_left, Tile, TILE_EFFECTIVE_HEIGHT, TILE_HEIGHT, TILE_WIDTH,
};

verus! {

/// The size in pixels, width first, of the canvas that holds a grid of the
/// given extents at full size. Each row but the last shows only its upper part;
/// a grid without rows has no height.
pub open spec fn rendering_size(columns: int, rows: int) -> (int, int) {
    (
        columns * TILE_WIDTH,
        if rows > 0 {
            TILE_HEIGHT + (rows - 1) * TILE_EFFECTIVE_HEIGHT
        } else {
            0
        },
    )
}

/// The size of the canvas of `level`.
pub open spec fn canvas_size(level: Level) -> (int, int) {
    rendering_size(level.columns(), level.rows())
}

/// Whether every pixel of the canvas of `level` has coordinates that an `i32`
/// can hold.
pub open spec fn canvas_fits(level: Level) -> bool {
    canvas_size(level).0 <= i32::MAX && canvas_size(level).1 <= i32::MAX
}

/// The scale at which a canvas of the size `size` is shown on a screen of the
/// size `screen`, as a fraction: numerator first, then the denominator, which
/// is positive. It is the largest scale, and at most 1, at which neither side
/// of the canvas is longer than the screen's.
pub open spec fn fit_ratio(screen: (int, int), size: (int, int)) -> (int, int) {
    let by_width = if size.0 > screen.0 {
        (screen.0, size.0)
    } else {
        (1, 1)
    };
    let by_height = if size.1 > screen.1 {
        (screen.1, size.1)
    } else {
        (1, 1)
    };
    if by_width.0 * by_height.1 <= by_height.0 * by_width.1 {
        by_width
    } else {
        by_height
    }
}

/// A length scaled by `ratio`, rounded down to whole pixels.
pub open spec fn scale(ratio: (int, int), length: int) -> int {
    (ratio.0 * length) / ratio.1
}

/// The size at which a canvas of the size `size` is shown on a screen of the
/// size `screen`.
pub open spec fn scaled_size(screen: (int, int), size: (int, int)) -> (int, int) {
    (scale(fit_ratio(screen, size), size.0), scale(fit_ratio(screen, size), size.1))
}

/// Whether both numbers are lengths: not negative.
pub open spec fn is_size(size: (int, int)) -> bool {
    size.0 >= 0 && size.1 >= 0
}

/// The rectangle of an image of the size `image` that lies in the middle of
/// a screen of the size `screen`.
pub open spec fn centered(screen: (int, int), image: (int, int)) -> Rect {
    Rect {
        x: ((screen.0 - image.0) / 2) as i32,
        y: ((screen.1 - image.1) / 2) as i32,
        width: image.0 as u32,
        height: image.1 as u32,
    }
}

/// A quotient is at most `bound` where the dividend is at most `bound` times
/// the divisor.
proof fn lemma_quotient_bound(dividend: int, divisor: int, bound: int)
    by (nonlinear_arith)
    requires
        divisor > 0,
        0 <= dividend <= bound * divisor,
    ensures
        0 <= dividend / divisor <= bound,
{
}

/// A product of lengths is a length, and grows with each factor.
proof fn lemma_product_grows(a: int, b: int, c: int, d: int)
    by (nonlinear_arith)
    requires
        0 <= a <= c,
        0 <= b <= d,
    ensures
        0 <= a * b <= c * d,
{
}

/// The scale is a fraction between 0 and 1. It is 1 where the canvas is no
/// larger than the screen; else it is the smaller of the two fractions of
/// screen over canvas, taken over the sides that are too long. Either way it
/// is at most the fraction of screen over canvas for each side: it is the
/// least of 1 and those two fractions.
pub proof fn lemma_fit_ratio(screen: (int, int), size: (int, int))
    requires
        is_size(screen),
        is_size(size),
    ensures
        0 <= fit_ratio(screen, size).0 <= fit_ratio(screen, size).1,
        0 < fit_ratio(screen, size).1,
        size.0 <= screen.0 && size.1 <= screen.1 ==> fit_ratio(screen, size) == (1int, 1int),
        size.0 > screen.0 && size.1 <= screen.1 ==> fit_ratio(screen, size) == (screen.0, size.0),
        size.0 <= screen.0 && size.1 > screen.1 ==> fit_ratio(screen, size) == (screen.1, size.1),
        size.0 > screen.0 && size.1 > screen.1 ==> fit_ratio(screen, size) == if screen.0 * size.1
            <= screen.1 * size.0 {
            (screen.0, size.0)
        } else {
            (screen.1, size.1)
        },
        fit_ratio(screen, size).0 * size.0 <= screen.0 * fit_ratio(screen, size).1,
        fit_ratio(screen, size).0 * size.1 <= screen.1 * fit_ratio(screen, size).1,
{
    let (sw, sh) = screen;
    let (w, h) = size;
    assert(sw * 1 == sw && 1 * w == w && 1 * sh == sh && 1 * h == h && sh * 1 == sh && h * 1 == h);
    assert(1int * 1int == 1int);
    assert(w * sh == sh * w && h * sw == sw * h) by (nonlinear_arith);
    if w > sw && h <= sh {
        lemma_product_grows(sw, h, w, sh);
    }
    if h > sh && w <= sw {
        lemma_product_grows(sh, w, h, sw);
    }
}

/// At the scale chosen, the canvas is no larger than the screen in either
/// dimension, and no larger than it is at full size.
pub proof fn lemma_scaled_size_fits(screen: (int, int), size: (int, int))
    requires
        is_size(screen),
        is_size(size),
    ensures
        0 <= scaled_size(screen, size).0 <= screen.0,
        0 <= scaled_size(screen, size).1 <= screen.1,
        scaled_size(screen, size).0 <= size.0,
        scaled_size(screen, size).1 <= size.1,
        size.0 <= screen.0 && size.1 <= screen.1 ==> scaled_size(screen, size) == size,
{
    let ratio = fit_ratio(screen, size);
    lemma_fit_ratio(screen, size);
    if size.0 <= screen.0 && size.1 <= screen.1 {
        assert((1 * size.0) / 1 == size.0 && (1 * size.1) / 1 == size.1);
    }
    lemma_product_grows(ratio.0, size.0, ratio.1, size.0);
    lemma_product_grows(ratio.0, size.1, ratio.1, size.1);
    assert(ratio.1 * size.0 == size.0 * ratio.1) by (nonlinear_arith);
    assert(ratio.1 * size.1 == size.1 * ratio.1) by (nonlinear_arith);
    lemma_quotient_bound(ratio.0 * size.0, ratio.1, size.0);
    lemma_quotient_bound(ratio.0 * size.1, ratio.1, size.1);
    if ratio == (screen.0, size.0) && size.0 > screen.0 {
        lemma_quotient_bound(ratio.0 * size.0, ratio.1, screen.0);
        if size.1 > screen.1 {
            lemma_quotient_bound(ratio.0 * size.1, ratio.1, screen.1);
        }
    } else if ratio == (screen.1, size.1) && size.1 > screen.1 {
        lemma_quotient_bound(ratio.0 * size.1, ratio.1, screen.1);
        if size.0 > screen.0 {
            lemma_quotient_bound(ratio.0 * size.0, ratio.1, screen.0);
        }
    }
}

/// An image that is no larger than the screen, put in its middle, has
/// margins on opposite sides that differ by one pixel at most.
pub proof fn lemma_margins_balanced(screen: (int, int), image: (int, int))
    requires
        0 <= image.0 <= screen.0 <= u32::MAX,
        0 <= image.1 <= screen.1 <= u32::MAX,
    ensures
        ({
            let rect = centered(screen, image);
            let left = rect.x as int;
            let right = screen.0 - rect.right();
            let top = rect.y as int;
            let bottom = screen.1 - rect.bottom();
            &&& 0 <= left <= right <= left + 1
            &&& 0 <= top <= bottom <= top + 1
            &&& left + rect.width + right == screen.0
            &&& top + rect.height + bottom == screen.1
        }),
{
}

/// The canvas is exactly as large as the ground laid on it: the floor tile
/// of every cell lies within the canvas, that of a cell in the last column
/// ends at its right side, and that of a cell in the last row at its bottom.
/// What stands on a cell ends above the bottom of the canvas too.
pub proof fn lemma_ground_fills_canvas(level: Level, pos: Position)
    requires
        level.contains(pos),
    ensures
        0 <= top_left(pos).0,
        0 <= top_left(pos).1,
        top_left(pos).0 + TILE_WIDTH <= canvas_size(level).0,
        top_left(pos).1 + TILE_HEIGHT <= canvas_size(level).1,
        pos.column == level.columns() - 1 ==> top_left(pos).0 + TILE_WIDTH == canvas_size(level).0,
        pos.row == level.rows() - 1 ==> top_left(pos).1 + TILE_HEIGHT == canvas_size(level).1,
        elevated_top_left(pos).1 + TILE_HEIGHT < canvas_size(level).1,
{
}

/// A drawn level, ready to be shown.
///
/// To show it: take a canvas of `canvas_size` pixels, all black. Make each
/// copy of `canvas`, in order, from the tileset onto it. Then clear the
/// screen and copy the part `source` of the canvas, which is all of it, to
/// the part `target` of the screen.
pub struct Frame {
    /// The size of the canvas, width first.
    pub canvas_size: (u32, u32),
    /// The tiles copied onto the canvas, in the order in which they are copied.
    pub canvas: Vec<Blit>,
    /// The part of the canvas that is shown.
    pub source: Rect,
    /// The part of the screen on which it is shown.
    pub target: Rect,
}

/// The Drawer struct is responsible for drawing the game onto the screen.
pub struct Drawer {
    /// The size of the screen in pixels
    screen_size: (u32, u32),
}

impl Drawer {
    /// The size of the screen in pixels, width first.
    pub closed spec fn screen(self) -> (int, int) {
        (self.screen_size.0 as int, self.screen_size.1 as int)
    }

    /// Creates a new Drawer instance, for a screen of the given size.
    pub fn new(screen_size: (u32, u32)) -> (drawer: Drawer)
        ensures
            drawer.screen() == (screen_size.0 as int, screen_size.1 as int),
    {
        Drawer { screen_size }
    }

    /// The size of the screen in pixels, width first.
    pub fn screen_size(&self) -> (size: (u32, u32))
        ensures
            (size.0 as int, size.1 as int) == self.screen(),
    {
        self.screen_size
    }

    /// Whether the canvas of `level` is small enough to be drawn.
    pub fn can_draw(&self, level: &Level) -> (fits: bool)
        ensures
            fits == canvas_fits(*level),
    {
        let (w, h) = level.extents();
        let widest: i32 = i32::MAX / (Tile::width() as i32);
        let tallest: i32 = (i32::MAX - Tile::height() as i32) / (Tile::effective_height() as i32);
        w <= widest && (h == 0 || h - 1 <= tallest)
    }

    /// Draws a level: the canvas with all its tiles, and the place on the
    /// screen at which the canvas is shown, scaled down where it is too large
    /// and centred.
    pub fn draw(&self, level: &Level) -> (frame: Frame)
        requires
            canvas_fits(*level),
        ensures
            (frame.canvas_size.0 as int, frame.canvas_size.1 as int) == canvas_size(*level),
            frame.canvas@ == scene(*level),
            frame.source == (Rect {
                x: 0,
                y: 0,
                width: frame.canvas_size.0,
                height: frame.canvas_size.1,
            }),
            frame.target == centered(
                self.screen(),
                scaled_size(self.screen(), canvas_size(*level)),
            ),
            0 <= frame.target.x && frame.target.right() <= self.screen().0,
            0 <= frame.target.y && frame.target.bottom() <= self.screen().1,
    {
        // Draw a full-size image onto an off-screen buffer
        let fullsize = self.get_rendering_size(level);
        let canvas = self.draw_fullsize(level);

        // Copy onto the screen with appropriate scaling
        let final_rect = self.get_centered_image_rect(self.get_scaled_rendering_size(level));
        Frame {
            canvas_size: fullsize,
            canvas,
            source: Rect::new(0, 0, fullsize.0, fullsize.1),
            target: final_rect,
        }
    }

    /// Draws a full-size image of the given level.
    pub fn draw_fullsize(&self, level: &Level) -> (canvas: Vec<Blit>)
        requires
            canvas_fits(*level),
        ensures
            canvas@ == scene(*level),
    {
        let (cols, rows) = level.extents();
        let mut canvas: Vec<Blit> = Vec::new();

        let mut j: i32 = 0;
        while j < rows
            invariant
                0 <= j <= rows,
                0 <= cols,
                cols == level.columns(),
                rows == level.rows(),
                canvas_fits(*level),
                canvas@ == rows_blits(*level, j as int),
            decreases rows - j,
        {
            let mut i: i32 = 0;
            while i < cols
                invariant
                    0 <= i <= cols,
                    0 <= j < rows,
                    cols == level.columns(),
                    rows == level.rows(),
                    canvas_fits(*level),
                    canvas@ == rows_blits(*level, j as int) + row_blits(*level, j as int, i as int),
                decreases cols - i,
            {
                let pos = Position::new(j, i);
                self.draw_cell(&mut canvas, level, &pos);
                proof {
                    assert(pos == Position::at(j as int, i as int));
                    assert(canvas@ =~= rows_blits(*level, j as int) + row_blits(
                        *level,
                        j as int,
                        i + 1,
                    ));
                }
                i += 1;
            }
            j += 1;
        }
        canvas
    }

    /// Draws the cell at `pos`: its ground, the shadows on it, and on top
    /// what stands there.
    pub fn draw_cell(&self, canvas: &mut Vec<Blit>, level: &Level, pos: &Position)
        requires
            pos.has_surroundings(),
            is_pixel(top_left(*pos)),
            is_pixel(elevated_top_left(*pos)),
        ensures
            final(canvas)@ == old(canvas)@ + cell_blits(*level, *pos),
    {
        let ghost before = canvas@;
        let (x, y) = Tile::get_coordinates(pos);

        // First draw the floor tiles
        if level.is_square(pos) {
            self.draw_tile(canvas, Tile::Square, x, y);
        } else {
            self.draw_tile(canvas, Tile::Floor, x, y);
        }
        assert(canvas@ =~= before + seq![blit(ground_tile(*level, *pos), top_left(*pos))]);

        // Add the shadows
        let flags = get_shadow_flags(level, pos);
        self.draw_shadows(canvas, flags, x, y);
        let ghost shadowed = canvas@;

        // Draw the other items
        let z = y - Tile::offset();
        if level.is_wall(pos) {
            self.draw_tile(canvas, Tile::Wall, x, z);
        }
        if level.is_box(pos) {
            self.draw_tile(canvas, Tile::Rock, x, z);
        }
        if level.is_player(pos) {
            self.draw_tile(canvas, Tile::Player, x, z);
        }
        proof {
            assert((x as int, z as int) == elevated_top_left(*pos));
            assert(canvas@ =~= shadowed + object_blits(*level, *pos));
            assert(canvas@ =~= before + cell_blits(*level, *pos));
        }
    }

    /// Lays over the tile at the given coordinates the shadow of each flag
    /// that is raised, in the order of the overlays.
    pub fn draw_shadows(&self, canvas: &mut Vec<Blit>, flags: ShadowFlags, x: i32, y: i32)
        ensures
            final(canvas)@ == old(canvas)@ + shadow_blits(flags, (x as int, y as int), 8),
    {
        let ghost before = canvas@;
        let order = Shadow::all();
        let mut k: usize = 0;
        assert(canvas@ =~= before + shadow_blits(flags, (x as int, y as int), 0));
        while k < 8
            invariant
                k <= 8,
                order@ == Shadow::in_order(),
                canvas@ == before + shadow_blits(flags, (x as int, y as int), k as int),
            decreases 8 - k,
        {
            let f = order[k];
            if flags.has(f) {
                proof {
                    ShadowFlags::just(f).lemma_sole(f);
                }
                self.draw_tile(canvas, Tile::Shadow(ShadowFlags::only(f)), x, y);
            }
            assert(canvas@ =~= before + shadow_blits(flags, (x as int, y as int), k + 1));
            k += 1;
        }
    }

    /// Draws a tile at the given coordinates.
    pub fn draw_tile(&self, canvas: &mut Vec<Blit>, tile: Tile, x: i32, y: i32)
        requires
            tile.atlas_location() is Some,
        ensures
            final(canvas)@ == old(canvas)@.push(blit(tile, (x as int, y as int))),
    {
        let (col, row) = tile.location().unwrap();
        let source = self.get_tile_rect(col, row);
        canvas.push(Blit { tile, source, target: Rect::new(x, y, Tile::width(), Tile::height()) });
    }

    /// Returns the Rect of the tile located at the given row and column in the texture.
    pub fn get_tile_rect(&self, col: u32, row: u32) -> (rect: Rect)
        requires
            col * TILE_WIDTH <= i32::MAX,
            row * TILE_HEIGHT <= i32::MAX,
        ensures
            rect == tile_rect((col, row)),
            rect.x == col * 101,
            rect.y == row * 171,
            rect.width == 101,
            rect.height == 171,
    {
        let x = (col * Tile::width()) as i32;
        let y = (row * Tile::height()) as i32;
        Rect::new(x, y, Tile::width(), Tile::height())
    }

    /// Returns the full size needed to draw the given level.
    pub fn get_rendering_size(&self, level: &Level) -> (size: (u32, u32))
        requires
            canvas_size(*level).0 <= u32::MAX,
            canvas_size(*level).1 <= u32::MAX,
        ensures
            (size.0 as int, size.1 as int) == canvas_size(*level),
            size.0 == level.columns() * 101,
            level.rows() == 0 ==> size.1 == 0,
            level.rows() >= 1 ==> size.1 == 171 + (level.rows() - 1) * 83,
    {
        let (w, h) = level.extents();
        let width = w as u32 * Tile::width();
        let height = if h > 0 {
            Tile::height() + (h - 1) as u32 * Tile::effective_height()
        } else {
            0
        };

        (width, height)
    }

    /// Returns the size of the drawing scaled to fit onto the screen.
    pub fn get_scaled_rendering_size(&self, level: &Level) -> (size: (u32, u32))
        requires
            canvas_size(*level).0 <= u32::MAX,
            canvas_size(*level).1 <= u32::MAX,
        ensures
            (size.0 as int, size.1 as int) == scaled_size(self.screen(), canvas_size(*level)),
            size.0 <= self.screen().0,
            size.1 <= self.screen().1,
            size.0 <= canvas_size(*level).0,
            size.1 <= canvas_size(*level).1,
            canvas_size(*level).0 <= self.screen().0 && canvas_size(*level).1 <= self.screen().1
                ==> (size.0 as int, size.1 as int) == canvas_size(*level),
    {
        let render_size = self.get_rendering_size(level);
        let (numerator, denominator) = fit(self.screen_size, render_size);
        proof {
            lemma_scaled_size_fits(self.screen(), canvas_size(*level));
        }
        (
            scale_length(numerator, denominator, render_size.0),
            scale_length(numerator, denominator, render_size.1),
        )
    }

    /// Returns the Rect of an image of given dimensions so that it's centered on the screen.
    pub fn get_centered_image_rect(&self, img_size: (u32, u32)) -> (rect: Rect)
        requires
            img_size.0 <= self.screen().0,
            img_size.1 <= self.screen().1,
        ensures
            rect == centered(self.screen(), (img_size.0 as int, img_size.1 as int)),
            rect.width == img_size.0,
            rect.height == img_size.1,
            0 <= rect.x <= self.screen().0 - rect.right() <= rect.x + 1,
            0 <= rect.y <= self.screen().1 - rect.bottom() <= rect.y + 1,
    {
        let x = ((self.screen_size.0 - img_size.0) / 2) as i32;
        let y = ((self.screen_size.1 - img_size.1) / 2) as i32;
        Rect::new(x, y, img_size.0, img_size.1)
    }
}

/// The scale at which a canvas of the size `size` is shown on a screen of the
/// size `screen`: numerator first, then the denominator.
fn fit(screen: (u32, u32), size: (u32, u32)) -> (ratio: (u32, u32))
    ensures
        (ratio.0 as int, ratio.1 as int) == fit_ratio(
            (screen.0 as int, screen.1 as int),
            (size.0 as int, size.1 as int),
        ),
        ratio.0 <= ratio.1,
        0 < ratio.1,
{
    proof {
        lemma_fit_ratio((screen.0 as int, screen.1 as int), (size.0 as int, size.1 as int));
    }
    if size.0 > screen.0 && size.1 > screen.1 {
        proof {
            lemma_product_grows(screen.0 as int, size.1 as int, u32::MAX as int, u32::MAX as int);
            lemma_product_grows(screen.1 as int, size.0 as int, u32::MAX as int, u32::MAX as int);
        }
        if screen.0 as u64 * size.1 as u64 <= screen.1 as u64 * size.0 as u64 {
            (screen.0, size.0)
        } else {
            (screen.1, size.1)
        }
    } else if size.0 > screen.0 {
        (screen.0, size.0)
    } else if size.1 > screen.1 {
        (screen.1, size.1)
    } else {
        (1, 1)
    }
}

/// A length scaled by the fraction of `numerator` over `denominator`, rounded
/// down to whole pixels.
fn scale_length(numerator: u32, denominator: u32, length: u32) -> (scaled: u32)
    requires
        numerator <= denominator,
        0 < denominator,
    ensures
        scaled == scale((numerator as int, denominator as int), length as int),
        scaled <= length,
{
    proof {
        lemma_product_grows(numerator as int, length as int, u32::MAX as int, u32::MAX as int);
        lemma_product_grows(numerator as int, length as int, denominator as int, length as int);
        assert(denominator * length == length * denominator) by (nonlinear_arith);
        lemma_quotient_bound(numerator * length, denominator as int, length as int);
    }
    ((numerator as u64 * length as u64) / denominator as u64) as u32
}

} // verus!
