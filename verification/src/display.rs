use vstd::prelude::*;

verus! {

/// Width of the display in pixels.
pub const WIDTH: usize = 64;

/// Height of the display in pixels.
pub const HEIGHT: usize = 32;

/// Number of pixels on the display.
pub const PIXEL_COUNT: usize = 2048;

/// Colour of a pixel that is off.
pub const BLACK: u32 = 0x000000;

/// Colour of a pixel that is on.
pub const WHITE: u32 = 0xFFFFFF;

/// Index of pixel (x, y) in the row-major pixel buffer.
pub open spec fn pixel_index(x: int, y: int) -> int {
    y * WIDTH + x
}

/// The 64 x 32 black/white pixels of the display, row by row.
pub struct Display {
    pixels: [bool; 2048],
}

impl View for Display {
    type V = Seq<bool>;

    closed spec fn view(&self) -> Seq<bool> {
        self.pixels@
    }
}

/// Every display holds exactly `PIXEL_COUNT` pixels.
pub broadcast proof fn lemma_display_len(d: Display)
    ensures
        #[trigger] d@.len() == PIXEL_COUNT,
{
}

impl Display {
    /// A blank display.
    pub fn new() -> (d: Self)
        ensures
            d@ == Seq::new(PIXEL_COUNT as nat, |k: int| false),
    {
        let d = Display { pixels: [false; 2048] };
        assert(d@ =~= Seq::new(PIXEL_COUNT as nat, |k: int| false));
        d
    }

    /// Turns all the pixels off.
    pub fn clear(&mut self)
        ensures
            final(self)@ == Seq::new(PIXEL_COUNT as nat, |k: int| false),
    {
        self.pixels = [false; 2048];
        assert(self@ =~= Seq::new(PIXEL_COUNT as nat, |k: int| false));
    }

    /// XORs `new` into pixel (x, y); returns whether that turned the pixel off.
    pub fn draw_pixel(&mut self, x: u8, y: u8, new: bool) -> (turned_off: bool)
        requires
            pixel_index(x as int, y as int) < PIXEL_COUNT,
        ensures
            final(self)@ == old(self)@.update(
                pixel_index(x as int, y as int),
                old(self)@[pixel_index(x as int, y as int)] != new,
            ),
            turned_off == (old(self)@[pixel_index(x as int, y as int)] && new),
    {
        let x = x as usize;
        let y = y as usize;

        let prev = self.pixels[y * WIDTH + x];
        self.pixels[y * WIDTH + x] = prev ^ new;

        prev == true && new == true
    }

    /// The colours of the pixels, row by row: `WHITE` where a pixel is on, `BLACK` where
    /// it is off.
    pub fn frame_buffer(&self) -> (buf: Vec<u32>)
        ensures
            buf@.len() == PIXEL_COUNT,
            forall|k: int|
                0 <= k < PIXEL_COUNT ==> #[trigger] buf@[k] == if self@[k] {
                    WHITE
                } else {
                    BLACK
                },
    {
        let mut buf: Vec<u32> = Vec::with_capacity(PIXEL_COUNT);
        let mut k: usize = 0;
        while k < PIXEL_COUNT
            invariant
                k <= PIXEL_COUNT,
                self@.len() == PIXEL_COUNT,
                buf@.len() == k,
                forall|j: int|
                    0 <= j < k ==> #[trigger] buf@[j] == if self@[j] {
                        WHITE
                    } else {
                        BLACK
                    },
            decreases PIXEL_COUNT - k,
        {
            buf.push(if self.pixels[k] { WHITE } else { BLACK });
            k = k + 1;
        }
        buf
    }
}

} // verus!
