//! Static 5×5 two-level images.

use vstd::prelude::*;
use crate::render::MAX_BRIGHTNESS;
use crate::render::Render;
use crate::render::max_brightness;

verus! {

/// A 5×5 image supporting only two levels of brightness (on and off).
///
/// Each of the 5 rows is packed into one byte: bits 0 to 4 hold columns 0 to
/// 4, with column 0 (leftmost) in bit 0. No constructor ever sets bits 5 to 7.
#[derive(Copy, Clone, Debug)]
pub struct BitImage([u8; 5]);

impl BitImage {
    /// The byte holding row `y`.
    pub closed spec fn spec_row(&self, y: int) -> u8 {
        self.0[y]
    }

    /// True when the pixel at column `x`, row `y` is lit.
    pub open spec fn pixel_on(&self, x: int, y: int) -> bool {
        (self.spec_row(y) >> (x as usize)) & 1 == 1
    }

    /// Only bits 0 to 4 of each row byte are ever set.
    pub open spec fn rows_packed(&self) -> bool {
        forall|y: int| 0 <= y < 5 ==> self.spec_row(y) < 32
    }

    /// Constructs a `BitImage` from an array of brightnesses.
    ///
    /// The data should be an array of 5 rows (top first), each of which is an
    /// array of 5 values (left first). Each value should be either 0 or 1;
    /// anything else is a caller contract violation.
    pub fn new(im: &[[u8; 5]; 5]) -> (r: BitImage)
        requires
            forall|y: int, x: int| 0 <= y < 5 && 0 <= x < 5 ==> im[y][x] <= 1,
        ensures
            forall|y: int, x: int|
                0 <= y < 5 && 0 <= x < 5 ==> (r.pixel_on(x, y) <==> im[y][x] == 1),
            r.rows_packed(),
    {
        BitImage([
            row_byte(im[0]),
            row_byte(im[1]),
            row_byte(im[2]),
            row_byte(im[3]),
            row_byte(im[4]),
        ])
    }

    /// Returns a new blank `BitImage`.
    ///
    /// All pixel values are 0.
    pub fn blank() -> (r: BitImage)
        ensures
            forall|y: int, x: int| 0 <= y < 5 && 0 <= x < 5 ==> !r.pixel_on(x, y),
            r.rows_packed(),
    {
        let r = BitImage([0; 5]);
        proof {
            assert forall|y: int, x: int| 0 <= y < 5 && 0 <= x < 5 implies !r.pixel_on(x, y) by {
                let xs = x as usize;
                assert((0u8 >> xs) & 1 != 1) by (bit_vector);
            }
        }
        r
    }
}

/// Packs one row of five 0-or-1 values into the row's byte.
fn row_byte(row: [u8; 5]) -> (b: u8)
    requires
        forall|x: int| 0 <= x < 5 ==> row[x] <= 1,
    ensures
        forall|x: int| 0 <= x < 5 ==> (((b >> (x as usize)) & 1 == 1) <==> row[x] == 1),
        b < 32,
{
    let b: u8 = row[0] | row[1] << 1u8 | row[2] << 2u8 | row[3] << 3u8 | row[4] << 4u8;
    proof {
        let r0 = row[0];
        let r1 = row[1];
        let r2 = row[2];
        let r3 = row[3];
        let r4 = row[4];
        assert({
            &&& ((b >> 0usize) & 1 == 1) <==> r0 == 1
            &&& ((b >> 1usize) & 1 == 1) <==> r1 == 1
            &&& ((b >> 2usize) & 1 == 1) <==> r2 == 1
            &&& ((b >> 3usize) & 1 == 1) <==> r3 == 1
            &&& ((b >> 4usize) & 1 == 1) <==> r4 == 1
            &&& b < 32
        }) by (bit_vector)
            requires
                b == (r0 | r1 << 1u8 | r2 << 2u8 | r3 << 3u8 | r4 << 4u8),
                r0 <= 1,
                r1 <= 1,
                r2 <= 1,
                r3 <= 1,
                r4 <= 1,
        ;
    }
    b
}

impl Render for BitImage {
    /// Any byte pattern can be sampled safely.
    open spec fn inv(&self) -> bool {
        true
    }

    open spec fn bright(&self, x: int, y: int) -> u8 {
        if self.pixel_on(x, y) {
            MAX_BRIGHTNESS
        } else {
            0
        }
    }

    fn brightness_at(&self, x: usize, y: usize) -> (b: u8) {
        let rowdata = self.0[y];
        if (rowdata >> x) & 1 == 1 {
            max_brightness()
        } else {
            0
        }
    }
}

impl Render for &BitImage {
    open spec fn inv(&self) -> bool {
        true
    }

    open spec fn bright(&self, x: int, y: int) -> u8 {
        (**self).bright(x, y)
    }

    fn brightness_at(&self, x: usize, y: usize) -> (b: u8) {
        (**self).brightness_at(x, y)
    }
}

} // verus!
