use vstd::prelude::*;
use crate::emulator::basics::{SCREEN_HEIGHT, SCREEN_WIDTH};

verus! {

/// The pixels of a 64 by 32 display, indexed by column, then by row.
pub type Grid = [[bool; 32]; 64];

/// Whether the coordinate `(column, row)` lies on the display.
pub open spec fn on_screen(p: (u8, u8)) -> bool {
    p.0 < SCREEN_WIDTH && p.1 < SCREEN_HEIGHT
}

/// Whether every coordinate of the sequence lies on the display.
pub open spec fn all_on_screen(pixels: Seq<(u8, u8)>) -> bool {
    forall|i: int| 0 <= i < pixels.len() ==> on_screen(#[trigger] pixels[i])
}

/// The set of lit pixels after the state of `p` is flipped.
pub open spec fn toggle(lit: Set<(u8, u8)>, p: (u8, u8)) -> Set<(u8, u8)> {
    if lit.contains(p) {
        lit.remove(p)
    } else {
        lit.insert(p)
    }
}

/// The set of lit pixels after each coordinate of `pixels` is flipped in
/// turn. A coordinate that occurs twice is flipped twice.
pub open spec fn toggle_all(lit: Set<(u8, u8)>, pixels: Seq<(u8, u8)>) -> Set<(u8, u8)>
    decreases pixels.len(),
{
    if pixels.len() == 0 {
        lit
    } else {
        toggle(toggle_all(lit, pixels.drop_last()), pixels.last())
    }
}

/// Whether flipping the coordinates of `pixels` in turn switches off, at some
/// step, a pixel that is lit at that moment.
pub open spec fn collides(lit: Set<(u8, u8)>, pixels: Seq<(u8, u8)>) -> bool
    decreases pixels.len(),
{
    if pixels.len() == 0 {
        false
    } else {
        collides(lit, pixels.drop_last()) || toggle_all(lit, pixels.drop_last()).contains(
            pixels.last(),
        )
    }
}

/// The set of lit pixels that a grid holds.
pub open spec fn lit_pixels(grid: Grid) -> Set<(u8, u8)> {
    Set::new(|p: (u8, u8)| on_screen(p) && grid[p.0 as int][p.1 as int])
}

/// Flips the pixel at column `x`, row `y`, and tells whether it was lit.
pub fn toggle_pixel(grid: &mut Grid, x: u8, y: u8) -> (was_lit: bool)
    requires
        on_screen((x, y)),
    ensures
        was_lit == lit_pixels(*old(grid)).contains((x, y)),
        lit_pixels(*final(grid)) == toggle(lit_pixels(*old(grid)), (x, y)),
{
    let was_lit = grid[x as usize][y as usize];
    grid[x as usize][y as usize] = !was_lit;
    assert(lit_pixels(*grid) =~= toggle(lit_pixels(*old(grid)), (x, y)));
    was_lit
}

/// Switches every pixel of the grid off.
pub fn clear_grid(grid: &mut Grid)
    ensures
        lit_pixels(*final(grid)) == Set::<(u8, u8)>::empty(),
{
    let mut x: usize = 0;
    while x < 64
        invariant
            x <= 64,
            forall|i: int, j: int| 0 <= i < x && 0 <= j < 32 ==> !(#[trigger] grid[i][j]),
        decreases 64 - x,
    {
        let mut y: usize = 0;
        while y < 32
            invariant
                x < 64,
                y <= 32,
                forall|i: int, j: int| 0 <= i < x && 0 <= j < 32 ==> !(#[trigger] grid[i][j]),
                forall|j: int| 0 <= j < y ==> !(#[trigger] grid[x as int][j]),
            decreases 32 - y,
        {
            grid[x][y] = false;
            y += 1;
        }
        x += 1;
    }
    assert(lit_pixels(*grid) =~= Set::<(u8, u8)>::empty());
}

/// Flips every coordinate of `pixels` on the grid, in order.
pub fn toggle_pixels(grid: &mut Grid, pixels: &[(u8, u8)])
    requires
        all_on_screen(pixels@),
    ensures
        lit_pixels(*final(grid)) == toggle_all(lit_pixels(*old(grid)), pixels@),
{
    let mut i: usize = 0;
    while i < pixels.len()
        invariant
            i <= pixels.len(),
            all_on_screen(pixels@),
            lit_pixels(*grid) == toggle_all(lit_pixels(*old(grid)), pixels@.take(i as int)),
        decreases pixels.len() - i,
    {
        let (x, y) = pixels[i];
        toggle_pixel(grid, x, y);
        assert(pixels@.take(i + 1).drop_last() =~= pixels@.take(i as int));
        i += 1;
    }
    assert(pixels@.take(pixels.len() as int) =~= pixels@);
}

/// A display sink: what the machine draws on. The machine only ever clears it
/// and flips pixels on it; how the pixels are presented is the sink's own
/// affair.
pub trait Display: Send {
    /// The pixels that the flips received so far have left switched on.
    ///
    /// A sink that Verus verifies states here what it holds, and proves the
    /// contracts below of it. A sink written without Verus may leave this
    /// out; the contracts are then nothing but the demand on its author.
    open spec fn lit(&self) -> Set<(u8, u8)> {
        Set::empty()
    }

    /// Switches every pixel off.
    fn clear(&mut self)
        ensures
            final(self).lit() == Set::<(u8, u8)>::empty(),
    ;

    /// Flips each of the given pixels, in order.
    fn draw_pixels(&mut self, pixels: &[(u8, u8)])
        requires
            all_on_screen(pixels@),
        ensures
            final(self).lit() == toggle_all(old(self).lit(), pixels@),
    ;

    /// The brightness, from 0 to 255, at which the pixel is to be shown.
    fn get(&self, x: u8, y: u8) -> (intensity: u8)
        requires
            on_screen((x, y)),
    ;

    /// Advances the presentation by one rendered frame. The lit pixels stay
    /// as they are.
    fn frame(&mut self)
        ensures
            final(self).lit() == old(self).lit(),
    ;
}

/// A sink that shows each pixel either fully bright or dark.
pub struct SimpleDisplay {
    display: Grid,
}

impl SimpleDisplay {
    /// A sink with every pixel off.
    pub fn new() -> (sink: SimpleDisplay)
        ensures
            sink.lit() == Set::<(u8, u8)>::empty(),
    {
        let sink = SimpleDisplay { display: [[false; 32]; 64] };
        assert(sink.lit() =~= Set::<(u8, u8)>::empty());
        sink
    }
}

impl Display for SimpleDisplay {
    closed spec fn lit(&self) -> Set<(u8, u8)> {
        lit_pixels(self.display)
    }

    fn clear(&mut self) {
        clear_grid(&mut self.display);
    }

    fn draw_pixels(&mut self, pixels: &[(u8, u8)]) {
        toggle_pixels(&mut self.display, pixels);
    }

    fn get(&self, x: u8, y: u8) -> (intensity: u8)
        ensures
            intensity == if self.lit().contains((x, y)) { 255u8 } else { 0u8 },
    {
        if self.display[x as usize][y as usize] {
            255
        } else {
            0
        }
    }

    fn frame(&mut self) {
    }
}

/// A sink that holds back what it receives until the next rendered frame:
/// it shows the pixels as they were when the last frame ended.
pub struct BufferedDisplay {
    shown: Grid,
    pending: Grid,
}

impl BufferedDisplay {
    /// The pixels that are being shown.
    pub closed spec fn shown(&self) -> Set<(u8, u8)> {
        lit_pixels(self.shown)
    }

    /// A sink with every pixel off.
    pub fn new() -> (sink: BufferedDisplay)
        ensures
            sink.lit() == Set::<(u8, u8)>::empty(),
            sink.shown() == Set::<(u8, u8)>::empty(),
    {
        let sink = BufferedDisplay { shown: [[false; 32]; 64], pending: [[false; 32]; 64] };
        assert(sink.lit() =~= Set::<(u8, u8)>::empty());
        assert(sink.shown() =~= Set::<(u8, u8)>::empty());
        sink
    }
}

impl Display for BufferedDisplay {
    closed spec fn lit(&self) -> Set<(u8, u8)> {
        lit_pixels(self.pending)
    }

    /// Switches every pixel off; what is shown follows with the next frame.
    fn clear(&mut self)
        ensures
            final(self).shown() == old(self).shown(),
    {
        clear_grid(&mut self.pending);
    }

    /// Flips each of the given pixels, in order; what is shown follows with
    /// the next frame.
    fn draw_pixels(&mut self, pixels: &[(u8, u8)])
        ensures
            final(self).shown() == old(self).shown(),
    {
        toggle_pixels(&mut self.pending, pixels);
    }

    /// Full brightness for a pixel that is shown as lit, none for any other.
    fn get(&self, x: u8, y: u8) -> (intensity: u8)
        ensures
            intensity == if self.shown().contains((x, y)) { 255u8 } else { 0u8 },
    {
        if self.shown[x as usize][y as usize] {
            255
        } else {
            0
        }
    }

    /// One rendered frame: from now on the pixels are shown as they are at
    /// this moment.
    fn frame(&mut self)
        ensures
            final(self).shown() == old(self).lit(),
    {
        self.shown = self.pending;
    }
}

} // verus!
