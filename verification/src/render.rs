//! The renderer contract: a 5×5 source of per-pixel brightness values.

use vstd::prelude::*;

verus! {

/// The largest brightness value a renderer reports; pixels are either fully
/// off (`0`) or fully on (`MAX_BRIGHTNESS`) for two-level images.
pub const MAX_BRIGHTNESS: u8 = 9;

/// Relies on `tiny_led_matrix::MAX_BRIGHTNESS`: the brightest level the
/// display driver accepts, documented and defined as `9`.
#[verifier::external_body]
pub(crate) fn max_brightness() -> (r: u8)
    ensures
        r == MAX_BRIGHTNESS,
{
    tiny_led_matrix::MAX_BRIGHTNESS
}

/// Anything that can report a brightness for each pixel of a 5×5 grid.
///
/// Both a single [`crate::image::BitImage`] and a whole scrolling sequence
/// satisfy this contract, so a sequence can stand wherever a single image is
/// expected.
pub trait Render {
    /// The well-formedness a value must have before it can be sampled.
    spec fn inv(&self) -> bool;

    /// The brightness this value shows at column `x`, row `y`.
    spec fn bright(&self, x: int, y: int) -> u8;

    /// Report the brightness at column `x`, row `y`.
    ///
    /// Coordinates outside the 5×5 grid are a caller contract violation.
    fn brightness_at(&self, x: usize, y: usize) -> (b: u8)
        requires
            self.inv(),
            x < 5,
            y < 5,
        ensures
            b == self.bright(x as int, y as int),
    ;
}

} // verus!
