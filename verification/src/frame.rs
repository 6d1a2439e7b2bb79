//! Frame generation: fixed-size RGBA pixel buffers produced once per
//! simulation tick, plus the `Frame` type whose invariant pins the byte
//! length and the opaque alpha channel of every frame ever delivered.

use vstd::prelude::*;

verus! {

/// The four channel bytes of pixel `p` (row-major index) of a frame
/// generated for tick `frame_number`: red follows the column, green the
/// row, blue the tick counter, and alpha is fully opaque.
pub open spec fn pixel_ok(data: Seq<u8>, width: int, frame_number: int, p: int) -> bool {
    &&& data[4 * p] == (((p % width) % 256) as u8)
    &&& data[4 * p + 1] == (((p / width) % 256) as u8)
    &&& data[4 * p + 2] == ((frame_number % 256) as u8)
    &&& data[4 * p + 3] == 255u8
}

/// Generate the raw RGBA bytes of one frame: a gradient over column and row
/// with a blue channel that follows the tick counter, row-major, four bytes
/// per pixel.
pub fn generate_frame(width: usize, height: usize, frame_number: usize) -> (r: Vec<u8>)
    requires
        width >= 1,
        width * height * 4 <= usize::MAX,
    ensures
        r@.len() == width * height * 4,
        forall|p: int|
            0 <= p < width * height ==> pixel_ok(r@, width as int, frame_number as int, p),
{
    proof {
        assert(width * height >= 0) by (nonlinear_arith);
    }
    let total: usize = width * height;
    let mut data: Vec<u8> = Vec::new();
    let mut p: usize = 0;
    while p < total
        invariant
            total == width * height,
            width >= 1,
            width * height * 4 <= usize::MAX,
            p <= total,
            data@.len() == 4 * p,
            forall|q: int|
                0 <= q < p ==> pixel_ok(data@, width as int, frame_number as int, q),
        decreases total - p,
    {
        let ghost prev = data@;
        let x: usize = p % width;
        let y: usize = p / width;
        data.push((x % 256) as u8);
        data.push((y % 256) as u8);
        data.push((frame_number % 256) as u8);
        data.push(255u8);
        proof {
            assert forall|q: int|
                0 <= q < p + 1 implies pixel_ok(
                data@,
                width as int,
                frame_number as int,
                q,
            ) by {
                if q < p as int {
                    assert(pixel_ok(prev, width as int, frame_number as int, q));
                    assert(data@[4 * q] == prev[4 * q]);
                    assert(data@[4 * q + 1] == prev[4 * q + 1]);
                    assert(data@[4 * q + 2] == prev[4 * q + 2]);
                    assert(data@[4 * q + 3] == prev[4 * q + 3]);
                } else {
                    assert(data@[4 * q] == ((x % 256) as u8));
                    assert(data@[4 * q + 1] == ((y % 256) as u8));
                    assert(data@[4 * q + 2] == ((frame_number % 256) as u8));
                    assert(data@[4 * q + 3] == 255u8);
                }
            }
        }
        p = p + 1;
    }
    data
}

/// One simulation tick's frame at the configured dimensions. A placeholder
/// pixel generator: the coordination design around it does not depend on
/// the colour values, only on the byte length and layout.
pub fn simulate_frame(frame_number: usize) -> (r: Vec<u8>)
    ensures
        r@.len() == crate::FRAME_WIDTH * crate::FRAME_HEIGHT * 4,
        forall|p: int|
            0 <= p < crate::FRAME_WIDTH * crate::FRAME_HEIGHT ==> pixel_ok(
                r@,
                crate::FRAME_WIDTH as int,
                frame_number as int,
                p,
            ),
{
    generate_frame(crate::FRAME_WIDTH, crate::FRAME_HEIGHT, frame_number)
}

/// An owned RGBA frame at the configured dimensions. Ownership moves from
/// the simulation side to the presentation side on delivery; the type
/// invariant guarantees the length and the opaque alpha channel of every
/// frame, wherever it travels.
pub struct Frame {
    data: Vec<u8>,
}

impl View for Frame {
    type V = Seq<u8>;

    closed spec fn view(&self) -> Seq<u8> {
        self.data@
    }
}

impl Frame {
    /// Every frame holds exactly width*height*4 bytes and every pixel's
    /// alpha byte is 255.
    #[verifier::type_invariant]
    closed spec fn well_formed(self) -> bool {
        &&& self.data@.len() == crate::FRAME_WIDTH * crate::FRAME_HEIGHT * 4
        &&& forall|p: int|
            0 <= p < crate::FRAME_WIDTH * crate::FRAME_HEIGHT ==> #[trigger] self.data@[4 * p + 3]
                == 255
    }

    /// Build the frame for one tick from the placeholder generator.
    pub fn for_tick(frame_number: usize) -> (r: Frame)
        ensures
            r@.len() == crate::FRAME_WIDTH * crate::FRAME_HEIGHT * 4,
            forall|p: int|
                0 <= p < crate::FRAME_WIDTH * crate::FRAME_HEIGHT ==> pixel_ok(
                    r@,
                    crate::FRAME_WIDTH as int,
                    frame_number as int,
                    p,
                ),
    {
        let data = simulate_frame(frame_number);
        proof {
            assert forall|p: int|
                0 <= p < crate::FRAME_WIDTH * crate::FRAME_HEIGHT implies #[trigger] data@[4 * p
                + 3] == 255 by {
                assert(pixel_ok(data@, crate::FRAME_WIDTH as int, frame_number as int, p));
            }
        }
        Frame { data }
    }

    /// The raw bytes, in the layout a presentation backend consumes. Every
    /// delivered frame has exactly width*height*4 bytes, and the alpha byte
    /// `4*(y*width + x) + 3` of every pixel is 255.
    pub fn bytes(&self) -> (r: &Vec<u8>)
        ensures
            r@ == self@,
            r@.len() == crate::FRAME_WIDTH * crate::FRAME_HEIGHT * 4,
            forall|x: int, y: int|
                0 <= x < crate::FRAME_WIDTH && 0 <= y < crate::FRAME_HEIGHT ==> #[trigger] r@[4
                    * (y * crate::FRAME_WIDTH + x) + 3] == 255,
    {
        proof {
            use_type_invariant(&*self);
            assert forall|x: int, y: int|
                0 <= x < crate::FRAME_WIDTH && 0 <= y < crate::FRAME_HEIGHT implies #[trigger] self@[4
                * (y * crate::FRAME_WIDTH + x) + 3] == 255 by {
                let p = y * crate::FRAME_WIDTH + x;
                assert(0 <= p < crate::FRAME_WIDTH * crate::FRAME_HEIGHT) by (nonlinear_arith)
                    requires
                        0 <= x < 640,
                        0 <= y < 480,
                        p == y * 640 + x,
                ;
                assert(self.data@[4 * p + 3] == 255);
            }
        }
        &self.data
    }

    /// The byte length, always exactly width*height*4.
    pub fn len(&self) -> (r: usize)
        ensures
            r == self@.len(),
            r == crate::FRAME_WIDTH * crate::FRAME_HEIGHT * 4,
    {
        proof {
            use_type_invariant(&*self);
        }
        self.data.len()
    }

}

} // verus!
