//! Support for scrolling ascii text horizontally.
//!
//! Text is resolved to 5×5 images through a caller-supplied glyph table with
//! one [`BitImage`] for each of the 256 byte values, so the table is a total
//! function from an 8-bit character code to an image. The table lives for the
//! whole process, as a glyph font does.
//!
//! [`ScrollingStaticText`] borrows its message from the caller;
//! [`ScrollingBufferedText`] copies it into a fixed-capacity internal buffer.

use vstd::prelude::*;
use vstd::array::array_fill_for_copy_types;
use crate::image::BitImage;
use crate::render::Render;
use crate::scrolling::Scrollable;
use crate::scrolling::ScrollingState;
use crate::scrolling::composite_bright;
use crate::scrolling::scroll_wf;
use crate::scrolling::subimages_inv;

verus! {

/// The images a byte string shows: each byte resolved through the glyph
/// table.
pub open spec fn glyph_images(glyphs: Seq<BitImage>, message: Seq<u8>) -> Seq<BitImage> {
    Seq::new(message.len(), |i: int| glyphs[message[i] as int])
}

/// Hands the borrowed cursor back out through a call, the shape Verus
/// accepts for lending out a field of a type with a type invariant.
fn reborrow_state(st: &mut ScrollingState) -> (r: &mut ScrollingState)
    ensures
        *r == *old(st),
        *final(st) == *final(r),
    no_unwind
{
    st
}

/// A [`Scrollable`] displaying a static ascii byte-string slice.
#[derive(Copy, Clone)]
pub struct ScrollingStaticText {
    message: &'static [u8],
    glyphs: &'static [BitImage; 256],
    state: ScrollingState,
}

impl ScrollingStaticText {
    /// The glyph table the text is resolved through.
    pub closed spec fn spec_glyphs(&self) -> Seq<BitImage> {
        self.glyphs@
    }

    /// The bytes currently displayed.
    pub closed spec fn spec_message(&self) -> Seq<u8> {
        self.message@
    }

    /// An empty message over the given glyph table, at the
    /// start-of-animation state.
    pub fn new(glyphs: &'static [BitImage; 256]) -> (s: ScrollingStaticText)
        ensures
            s.spec_glyphs() == glyphs@,
            s.spec_message() == Seq::<u8>::empty(),
            s.spec_images() == glyph_images(glyphs@, Seq::<u8>::empty()),
            s.spec_state().index == 0,
            s.spec_state().pixel == 0,
    {
        let s = ScrollingStaticText {
            message: &[],
            glyphs,
            state: ScrollingState { index: 0, pixel: 0 },
        };
        proof {
            assert(s.spec_message() =~= Seq::<u8>::empty());
            assert(s.spec_images() =~= glyph_images(glyphs@, Seq::<u8>::empty()));
        }
        s
    }

    /// Specifies the ascii byte-string slice to be displayed.
    ///
    /// This also resets the animation to the beginning.
    pub fn set_message(&mut self, message: &'static [u8])
        requires
            message@.len() < usize::MAX,
        ensures
            final(self).spec_glyphs() == old(self).spec_glyphs(),
            final(self).spec_message() == message@,
            final(self).spec_images() == glyph_images(old(self).spec_glyphs(), message@),
            final(self).spec_state().index == 0,
            final(self).spec_state().pixel == 0,
    {
        self.message = message;
        self.state.reset();
    }
}

impl Scrollable for ScrollingStaticText {
    type Subimage = BitImage;

    closed spec fn spec_images(&self) -> Seq<BitImage> {
        glyph_images(self.glyphs@, self.message@)
    }

    closed spec fn spec_state(&self) -> ScrollingState {
        self.state
    }

    fn length(&self) -> usize {
        self.message.len()
    }

    fn state(&self) -> &ScrollingState {
        &self.state
    }

    fn state_mut(&mut self) -> &mut ScrollingState {
        &mut self.state
    }

    fn subimage(&self, index: usize) -> &BitImage {
        let code = self.message[index];
        &self.glyphs[code as usize]
    }
}

impl Render for ScrollingStaticText {
    /// The text can be sampled whenever its cursor is in bounds.
    open spec fn inv(&self) -> bool {
        &&& scroll_wf(self.spec_state(), self.spec_images().len() as int)
        &&& subimages_inv(self.spec_images())
    }

    open spec fn bright(&self, x: int, y: int) -> u8 {
        composite_bright(self.spec_images(), self.spec_state(), x, y)
    }

    fn brightness_at(&self, x: usize, y: usize) -> u8 {
        self.current_brightness_at(x, y)
    }
}

/// A [`Scrollable`] displaying an ascii byte-string of up to `N` bytes,
/// copied into an internal buffer.
#[derive(Copy, Clone)]
pub struct ScrollingBufferedText<const N: usize> {
    length: usize,
    message: [u8; N],
    glyphs: &'static [BitImage; 256],
    state: ScrollingState,
}

impl<const N: usize> ScrollingBufferedText<N> {
    /// The current message never exceeds the buffer's capacity.
    #[verifier::type_invariant]
    closed spec fn capacity_ok(self) -> bool {
        self.length <= N
    }

    /// The glyph table the text is resolved through.
    pub closed spec fn spec_glyphs(&self) -> Seq<BitImage> {
        self.glyphs@
    }

    /// The bytes currently displayed.
    pub closed spec fn spec_message(&self) -> Seq<u8> {
        self.message@.take(self.length as int)
    }

    /// An empty message over the given glyph table, at the
    /// start-of-animation state.
    pub fn new(glyphs: &'static [BitImage; 256]) -> (s: ScrollingBufferedText<N>)
        ensures
            s.spec_glyphs() == glyphs@,
            s.spec_message() == Seq::<u8>::empty(),
            s.spec_images() == glyph_images(glyphs@, Seq::<u8>::empty()),
            s.spec_state().index == 0,
            s.spec_state().pixel == 0,
    {
        let s = ScrollingBufferedText {
            length: 0,
            message: array_fill_for_copy_types(0u8),
            glyphs,
            state: ScrollingState { index: 0, pixel: 0 },
        };
        proof {
            assert(s.spec_message() =~= Seq::<u8>::empty());
            assert(s.spec_images() =~= glyph_images(glyphs@, Seq::<u8>::empty()));
        }
        s
    }

    /// Specifies the ascii byte-string to be displayed.
    ///
    /// Makes a copy of the byte-string.
    ///
    /// This also resets the animation to the beginning.
    ///
    /// A `message` of more than `N` bytes is a caller contract violation: the
    /// capacity is a build-time choice, and overrunning it is never silently
    /// truncated.
    pub fn set_message(&mut self, message: &[u8])
        requires
            message@.len() <= N,
        ensures
            final(self).spec_glyphs() == old(self).spec_glyphs(),
            final(self).spec_message() == message@,
            final(self).spec_images() == glyph_images(old(self).spec_glyphs(), message@),
            final(self).spec_state().index == 0,
            final(self).spec_state().pixel == 0,
    {
        let mut buf: [u8; N] = array_fill_for_copy_types(0u8);
        let len = message.len();
        let mut i: usize = 0;
        while i < len
            invariant
                i <= len,
                len == message@.len() <= N,
                buf@.len() == N,
                forall|j: int| 0 <= j < i ==> buf@[j] == message@[j],
            decreases len - i,
        {
            buf[i] = message[i];
            i = i + 1;
        }
        self.length = len;
        self.message = buf;
        self.state.index = 0;
        self.state.pixel = 0;
        proof {
            assert(self.spec_message() =~= message@);
            assert(self.spec_images() =~= glyph_images(old(self).spec_glyphs(), message@));
        }
    }
}

impl<const N: usize> Scrollable for ScrollingBufferedText<N> {
    type Subimage = BitImage;

    closed spec fn spec_images(&self) -> Seq<BitImage> {
        glyph_images(self.glyphs@, self.spec_message())
    }

    closed spec fn spec_state(&self) -> ScrollingState {
        self.state
    }

    fn length(&self) -> usize {
        proof {
            use_type_invariant(&*self);
        }
        self.length
    }

    fn state(&self) -> &ScrollingState {
        &self.state
    }

    fn state_mut(&mut self) -> &mut ScrollingState {
        proof {
            use_type_invariant(&*self);
        }
        reborrow_state(&mut self.state)
    }

    fn subimage(&self, index: usize) -> &BitImage {
        proof {
            use_type_invariant(&*self);
        }
        let code = self.message[index];
        &self.glyphs[code as usize]
    }
}

impl<const N: usize> Render for ScrollingBufferedText<N> {
    /// The text can be sampled whenever its cursor is in bounds.
    open spec fn inv(&self) -> bool {
        &&& scroll_wf(self.spec_state(), self.spec_images().len() as int)
        &&& subimages_inv(self.spec_images())
    }

    open spec fn bright(&self, x: int, y: int) -> u8 {
        composite_bright(self.spec_images(), self.spec_state(), x, y)
    }

    fn brightness_at(&self, x: usize, y: usize) -> u8 {
        self.current_brightness_at(x, y)
    }
}

} // verus!

