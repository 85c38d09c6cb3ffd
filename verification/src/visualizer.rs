use vstd::prelude::*;
use crate::emulator::display::{
    all_on_screen, lit_pixels, on_screen, toggle, toggle_all, Display, Grid,
};

verus! {

/// A sink whose pixels fade out instead of going dark at once.
///
/// Each pixel holds a countdown. Switching a pixel on sets its countdown to
/// the fade duration; while the pixel is off, each rendered frame takes one
/// off the countdown until it reaches zero. The brightness of a pixel is its
/// countdown, scaled to 0..=255.
pub struct FadeDisplay {
    fade_duration: u32,
    display: [[u32; 32]; 64],
    true_display: Grid,
}

impl FadeDisplay {
    #[verifier::type_invariant]
    spec fn inv(self) -> bool {
        &&& self.fade_duration > 0
        &&& forall|x: int, y: int|
            0 <= x < 64 && 0 <= y < 32 ==> #[trigger] self.display[x][y] <= self.fade_duration
        &&& forall|x: int, y: int|
            0 <= x < 64 && 0 <= y < 32 && self.true_display[x][y] ==> #[trigger] self.display[x][y]
                == self.fade_duration
    }

    /// The number of frames that a pixel takes to fade out.
    pub closed spec fn fade_duration(&self) -> u32 {
        self.fade_duration
    }

    /// The countdown of the pixel at `p`.
    pub closed spec fn countdown(&self, p: (u8, u8)) -> u32 {
        self.display[p.0 as int][p.1 as int]
    }

    /// A sink with every pixel off and faded out.
    pub fn new(fade_duration: u32) -> (sink: FadeDisplay)
        requires
            fade_duration > 0,
        ensures
            sink.fade_duration() == fade_duration,
            sink.lit() == Set::<(u8, u8)>::empty(),
            forall|p: (u8, u8)| on_screen(p) ==> #[trigger] sink.countdown(p) == 0,
    {
        let sink = FadeDisplay {
            fade_duration,
            display: [[0; 32]; 64],
            true_display: [[false; 32]; 64],
        };
        assert(sink.lit() =~= Set::<(u8, u8)>::empty());
        sink
    }
}

impl Display for FadeDisplay {
    closed spec fn lit(&self) -> Set<(u8, u8)> {
        lit_pixels(self.true_display)
    }

    /// Switches every pixel off and fades it out at once.
    fn clear(&mut self)
        ensures
            final(self).fade_duration() == old(self).fade_duration(),
            forall|p: (u8, u8)| on_screen(p) ==> #[trigger] final(self).countdown(p) == 0,
    {
        proof {
            use_type_invariant(&*self);
        }
        let mut x: usize = 0;
        while x < 64
            invariant
                x <= 64,
                self.fade_duration == old(self).fade_duration,
                self.fade_duration > 0,
                forall|i: int, j: int|
                    0 <= i < 64 && 0 <= j < 32 ==> #[trigger] self.display[i][j]
                        <= self.fade_duration,
                forall|i: int, j: int|
                    0 <= i < 64 && 0 <= j < 32 && self.true_display[i][j]
                        ==> #[trigger] self.display[i][j] == self.fade_duration,
                forall|i: int, j: int|
                    0 <= i < x && 0 <= j < 32 ==> !(#[trigger] self.true_display[i][j]),
                forall|i: int, j: int|
                    0 <= i < x && 0 <= j < 32 ==> #[trigger] self.display[i][j] == 0,
            decreases 64 - x,
        {
            let mut y: usize = 0;
            while y < 32
                invariant
                    x < 64,
                    y <= 32,
                    self.fade_duration == old(self).fade_duration,
                    self.fade_duration > 0,
                    forall|i: int, j: int|
                        0 <= i < 64 && 0 <= j < 32 ==> #[trigger] self.display[i][j]
                            <= self.fade_duration,
                    forall|i: int, j: int|
                        0 <= i < 64 && 0 <= j < 32 && self.true_display[i][j]
                            ==> #[trigger] self.display[i][j] == self.fade_duration,
                    forall|i: int, j: int|
                        0 <= i < x && 0 <= j < 32 ==> !(#[trigger] self.true_display[i][j]),
                    forall|i: int, j: int|
                        0 <= i < x && 0 <= j < 32 ==> #[trigger] self.display[i][j] == 0,
                    forall|j: int| 0 <= j < y ==> !(#[trigger] self.true_display[x as int][j]),
                    forall|j: int| 0 <= j < y ==> #[trigger] self.display[x as int][j] == 0,
                decreases 32 - y,
            {
                self.true_display[x][y] = false;
                self.display[x][y] = 0;
                y += 1;
            }
            x += 1;
        }
        assert(self.lit() =~= Set::<(u8, u8)>::empty());
    }

    /// Flips each of the given pixels, in order. A pixel that is switched on
    /// starts at full brightness; one that is switched off keeps its
    /// countdown and fades from there. So every pixel that was given holds
    /// the full countdown afterwards, and no other countdown changes.
    fn draw_pixels(&mut self, pixels: &[(u8, u8)])
        ensures
            final(self).fade_duration() == old(self).fade_duration(),
            forall|p: (u8, u8)|
                on_screen(p) ==> #[trigger] final(self).countdown(p) == if pixels@.contains(p) {
                    old(self).fade_duration()
                } else {
                    old(self).countdown(p)
                },
    {
        proof {
            use_type_invariant(&*self);
        }
        let mut i: usize = 0;
        while i < pixels.len()
            invariant
                i <= pixels.len(),
                all_on_screen(pixels@),
                self.fade_duration == old(self).fade_duration,
                self.fade_duration > 0,
                forall|a: int, b: int|
                    0 <= a < 64 && 0 <= b < 32 ==> #[trigger] self.display[a][b]
                        <= self.fade_duration,
                forall|a: int, b: int|
                    0 <= a < 64 && 0 <= b < 32 && self.true_display[a][b]
                        ==> #[trigger] self.display[a][b] == self.fade_duration,
                self.lit() == toggle_all(old(self).lit(), pixels@.take(i as int)),
                forall|p: (u8, u8)|
                    on_screen(p) ==> #[trigger] self.countdown(p) == if pixels@.take(
                        i as int,
                    ).contains(p) {
                        self.fade_duration
                    } else {
                        old(self).countdown(p)
                    },
            decreases pixels.len() - i,
        {
            let (x, y) = pixels[i];
            let ghost before = *self;
            assert(on_screen(pixels@[i as int]));
            if self.true_display[x as usize][y as usize] {
                self.true_display[x as usize][y as usize] = false;
            } else {
                self.display[x as usize][y as usize] = self.fade_duration;
                self.true_display[x as usize][y as usize] = true;
            }
            proof {
                let done = pixels@.take(i as int);
                let next = pixels@.take(i + 1);
                assert(next.drop_last() =~= done);
                assert(next.last() == (x, y));
                assert(self.lit() =~= toggle(before.lit(), (x, y)));
                assert forall|p: (u8, u8)| on_screen(p) implies #[trigger] self.countdown(p)
                    == if next.contains(p) {
                    self.fade_duration
                } else {
                    old(self).countdown(p)
                } by {
                    assert(before.countdown(p) == if done.contains(p) {
                        self.fade_duration
                    } else {
                        old(self).countdown(p)
                    });
                    if p == (x, y) {
                        assert(next[i as int] == p);
                        assert(before.display[x as int][y as int] <= self.fade_duration);
                    } else {
                        assert(self.countdown(p) == before.countdown(p));
                        if done.contains(p) {
                            let k = choose|k: int| 0 <= k < done.len() && done[k] == p;
                            assert(next[k] == p);
                        } else if next.contains(p) {
                            let k = choose|k: int| 0 <= k < next.len() && next[k] == p;
                            assert(done[k] == p);
                        }
                    }
                }
            }
            i += 1;
        }
        assert(pixels@.take(pixels.len() as int) =~= pixels@);
    }

    /// The brightness of a pixel: its countdown as a share of the fade
    /// duration, scaled to 0..=255.
    fn get(&self, x: u8, y: u8) -> (intensity: u8)
        ensures
            intensity == self.countdown((x, y)) * 255 / (self.fade_duration() as int),
            self.lit().contains((x, y)) ==> intensity == 255,
    {
        proof {
            use_type_invariant(self);
        }
        let countdown = self.display[x as usize][y as usize];
        assert(countdown * 255 / (self.fade_duration as int) <= 255) by (nonlinear_arith)
            requires
                0 <= countdown <= self.fade_duration,
                self.fade_duration > 0,
        ;
        assert(self.fade_duration * 255 / (self.fade_duration as int) == 255) by (nonlinear_arith)
            requires
                self.fade_duration > 0,
        ;
        (countdown as u64 * 255 / self.fade_duration as u64) as u8
    }

    /// One rendered frame: every pixel that is off and has not faded out yet
    /// comes one step closer to dark.
    fn frame(&mut self)
        ensures
            final(self).fade_duration() == old(self).fade_duration(),
            forall|p: (u8, u8)|
                on_screen(p) ==> #[trigger] final(self).countdown(p) == if !old(self).lit().contains(p)
                    && old(self).countdown(p) > 0 {
                    (old(self).countdown(p) - 1) as u32
                } else {
                    old(self).countdown(p)
                },
    {
        proof {
            use_type_invariant(&*self);
        }
        let mut x: usize = 0;
        while x < 64
            invariant
                x <= 64,
                self.fade_duration == old(self).fade_duration,
                self.true_display == old(self).true_display,
                self.fade_duration > 0,
                forall|i: int, j: int|
                    0 <= i < 64 && 0 <= j < 32 ==> #[trigger] old(self).display[i][j]
                        <= self.fade_duration,
                forall|i: int, j: int|
                    0 <= i < 64 && 0 <= j < 32 && self.true_display[i][j] ==> #[trigger] old(
                        self,
                    ).display[i][j] == self.fade_duration,
                forall|i: int, j: int|
                    0 <= i < 64 && 0 <= j < 32 ==> #[trigger] self.display[i][j] == if i < x
                        && !self.true_display[i][j] && old(self).display[i][j] > 0 {
                        (old(self).display[i][j] - 1) as u32
                    } else {
                        old(self).display[i][j]
                    },
            decreases 64 - x,
        {
            let mut y: usize = 0;
            while y < 32
                invariant
                    x < 64,
                    y <= 32,
                    self.fade_duration == old(self).fade_duration,
                    self.true_display == old(self).true_display,
                    self.fade_duration > 0,
                    forall|i: int, j: int|
                        0 <= i < 64 && 0 <= j < 32 ==> #[trigger] old(self).display[i][j]
                            <= self.fade_duration,
                    forall|i: int, j: int|
                        0 <= i < 64 && 0 <= j < 32 && self.true_display[i][j] ==> #[trigger] old(
                            self,
                        ).display[i][j] == self.fade_duration,
                    forall|i: int, j: int|
                        0 <= i < 64 && 0 <= j < 32 ==> #[trigger] self.display[i][j] == if (i < x
                            || (i == x && j < y)) && !self.true_display[i][j] && old(
                            self,
                        ).display[i][j] > 0 {
                            (old(self).display[i][j] - 1) as u32
                        } else {
                            old(self).display[i][j]
                        },
                decreases 32 - y,
            {
                if !self.true_display[x][y] && self.display[x][y] > 0 {
                    self.display[x][y] -= 1;
                }
                y += 1;
            }
            x += 1;
        }
    }
}

} // verus!
