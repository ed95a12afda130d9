use vstd::prelude::*;
use crate::color::Color;

verus! {

/// Index of the pixel at (x, y) in a row-major buffer of the given width.
pub open spec fn pixel_index(width: u32, x: u32, y: u32) -> int {
    (y as int) * (width as int) + (x as int)
}

/// A width x height grid of tone-mapped pixels, stored row by row: the
/// pixel at (x, y) sits at index y * width + x of the view.
pub struct ImageBuffer {
    width: u32,
    height: u32,
    pixels: Vec<Color>,
}

impl View for ImageBuffer {
    type V = Seq<Color>;

    closed spec fn view(&self) -> Seq<Color> {
        self.pixels@
    }
}

impl ImageBuffer {
    pub closed spec fn spec_width(&self) -> u32 {
        self.width
    }

    pub closed spec fn spec_height(&self) -> u32 {
        self.height
    }

    #[verifier::type_invariant]
    spec fn wf(self) -> bool {
        self.pixels@.len() == (self.width as int) * (self.height as int)
    }

    /// The pixel the buffer holds at (x, y).
    pub open spec fn spec_pixel(&self, x: u32, y: u32) -> Color {
        self@[pixel_index(self.spec_width(), x, y)]
    }

    pub fn width(&self) -> (w: u32)
        ensures
            w == self.spec_width(),
    {
        self.width
    }

    pub fn height(&self) -> (h: u32)
        ensures
            h == self.spec_height(),
    {
        self.height
    }

    pub fn get_pixel(&self, x: u32, y: u32) -> (c: Color)
        requires
            x < self.spec_width(),
            y < self.spec_height(),
        ensures
            c == self.spec_pixel(x, y),
    {
        proof {
            use_type_invariant(self);
            vstd::std_specs::vec::axiom_spec_len(&self.pixels);
            assert((y as int) * (self.width as int) + (x as int) < (self.width as int) * (
            self.height as int)) by (nonlinear_arith)
                requires
                    x < self.width,
                    y < self.height,
            ;
        }
        let i: usize = (y as usize) * (self.width as usize) + (x as usize);
        self.pixels[i]
    }

    /// The buffer flattened for an image encoder: three bytes per pixel,
    /// red then green then blue, pixels in row-major order.
    pub fn to_raw(&self) -> (bytes: Vec<u8>)
        ensures
            bytes@.len() == 3 * self@.len(),
            forall|j: int|
                0 <= j < self@.len() ==> {
                    &&& bytes@[3 * j] == (#[trigger] self@[j]).red
                    &&& bytes@[3 * j + 1] == self@[j].green
                    &&& bytes@[3 * j + 2] == self@[j].blue
                },
    {
        let mut bytes: Vec<u8> = Vec::new();
        let n: usize = self.pixels.len();
        let mut i: usize = 0;
        while i < n
            invariant
                n == self@.len(),
                i <= n,
                bytes@.len() == 3 * i,
                forall|j: int|
                    0 <= j < i ==> {
                        &&& bytes@[3 * j] == (#[trigger] self@[j]).red
                        &&& bytes@[3 * j + 1] == self@[j].green
                        &&& bytes@[3 * j + 2] == self@[j].blue
                    },
            decreases n - i,
        {
            let c = self.pixels[i];
            bytes.push(c.red);
            bytes.push(c.green);
            bytes.push(c.blue);
            i += 1;
        }
        bytes
    }
}

/// Fills a width x height buffer by asking `renderer` for every pixel,
/// row by row. The buffer's contents depend on nothing but what the
/// renderer answers at each coordinate, so any schedule of the per-pixel
/// calls would produce the same image.
pub fn image<F: Fn(u32, u32) -> Color>(width: u32, height: u32, renderer: F) -> (buf: ImageBuffer)
    requires
        (width as int) * (height as int) <= usize::MAX as int,
        forall|x: u32, y: u32| x < width && y < height ==> call_requires(renderer, (x, y)),
    ensures
        buf.spec_width() == width,
        buf.spec_height() == height,
        buf@.len() == (width as int) * (height as int),
        forall|x: u32, y: u32|
            x < width && y < height ==> call_ensures(
                renderer,
                (x, y),
                #[trigger] buf.spec_pixel(x, y),
            ),
{
    let mut pixels: Vec<Color> = Vec::new();
    let mut y: u32 = 0;
    while y < height
        invariant
            y <= height,
            pixels@.len() == (y as int) * (width as int),
            (width as int) * (height as int) <= usize::MAX as int,
            forall|x2: u32, y2: u32| x2 < width && y2 < height ==> call_requires(renderer, (x2, y2)),
            forall|x2: u32, y2: u32|
                x2 < width && y2 < y ==> call_ensures(
                    renderer,
                    (x2, y2),
                    #[trigger] pixels@[pixel_index(width, x2, y2)],
                ),
        decreases height - y,
    {
        proof {
            assert((y as int) * (width as int) + (width as int) == (y as int + 1) * (width as int)
                && (y as int + 1) * (width as int) <= (height as int) * (width as int) && (
            height as int) * (width as int) == (width as int) * (height as int))
                by (nonlinear_arith)
                requires
                    y < height,
            ;
        }
        let mut x: u32 = 0;
        while x < width
            invariant
                x <= width,
                y < height,
                pixels@.len() == (y as int) * (width as int) + (x as int),
                (y as int) * (width as int) + (width as int) <= usize::MAX as int,
                forall|x2: u32, y2: u32|
                    x2 < width && y2 < height ==> call_requires(renderer, (x2, y2)),
                forall|x2: u32, y2: u32|
                    x2 < width && y2 < y ==> call_ensures(
                        renderer,
                        (x2, y2),
                        #[trigger] pixels@[pixel_index(width, x2, y2)],
                    ),
                forall|x2: u32|
                    x2 < x ==> call_ensures(
                        renderer,
                        (x2, y),
                        #[trigger] pixels@[pixel_index(width, x2, y)],
                    ),
            decreases width - x,
        {
            let c = renderer(x, y);
            proof {
                assert forall|x2: u32, y2: u32| x2 < width && y2 < y implies pixel_index(
                    width,
                    x2,
                    y2,
                ) < (y as int) * (width as int) by {
                    assert((y2 as int) * (width as int) + (x2 as int) < (y as int) * (
                    width as int)) by (nonlinear_arith)
                        requires
                            x2 < width,
                            y2 < y,
                    ;
                }
            }
            pixels.push(c);
            x += 1;
        }
        y += 1;
    }
    proof {
        assert((height as int) * (width as int) == (width as int) * (height as int))
            by (nonlinear_arith);
    }
    ImageBuffer { width, height, pixels }
}

} // verus!
