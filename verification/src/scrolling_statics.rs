//! Support for scrolling arbitrary static images horizontally.
//!
//! [`ScrollingStatics`] can be used for static slices of any type
//! implementing [`Render`].

use vstd::prelude::*;
use crate::render::Render;
use crate::scrolling::Animate;
use crate::scrolling::Scrollable;
use crate::scrolling::ScrollingState;
use crate::scrolling::composite_bright;
use crate::scrolling::scroll_wf;
use crate::scrolling::subimages_inv;

verus! {

/// A [`Scrollable`] displaying a static slice of arbitrary images.
///
/// The underlying images can be any sized type that implements [`Render`];
/// they stay owned by the caller and are only borrowed here.
#[derive(Copy, Clone)]
pub struct ScrollingStatics<T: Render + 'static> {
    images: &'static [T],
    state: ScrollingState,
}

impl<T: Render + 'static> ScrollingStatics<T> {
    /// Specifies the images to be displayed.
    ///
    /// This also resets the animation to the beginning.
    pub fn set_images(&mut self, images: &'static [T])
        requires
            images@.len() < usize::MAX,
        ensures
            final(self).spec_images() == images@,
            final(self).spec_state().index == 0,
            final(self).spec_state().pixel == 0,
    {
        self.images = images;
        self.reset();
    }
}

impl<T: Render + 'static> Default for ScrollingStatics<T> {
    /// An empty sequence at the start-of-animation state.
    fn default() -> (s: ScrollingStatics<T>)
        ensures
            s.spec_images().len() == 0,
            s.spec_state().index == 0,
            s.spec_state().pixel == 0,
    {
        ScrollingStatics { images: &[], state: ScrollingState { index: 0, pixel: 0 } }
    }
}

impl<T: Render + 'static> Scrollable for ScrollingStatics<T> {
    type Subimage = T;

    closed spec fn spec_images(&self) -> Seq<T> {
        self.images@
    }

    closed spec fn spec_state(&self) -> ScrollingState {
        self.state
    }

    fn length(&self) -> usize {
        self.images.len()
    }

    fn state(&self) -> &ScrollingState {
        &self.state
    }

    fn state_mut(&mut self) -> &mut ScrollingState {
        &mut self.state
    }

    fn subimage(&self, index: usize) -> &T {
        &self.images[index]
    }
}

impl<T: Render + 'static> Render for ScrollingStatics<T> {
    /// A sequence can be sampled whenever its cursor is in bounds and its
    /// images can be.
    open spec fn inv(&self) -> bool {
        &&& scroll_wf(self.spec_state(), self.spec_images().len() as int)
        &&& subimages_inv(self.spec_images())
    }

    open spec fn bright(&self, x: int, y: int) -> u8 {
        composite_bright(self.spec_images(), self.spec_state(), x, y)
    }

    fn brightness_at(&self, x: usize, y: usize) -> u8 {
        self.current_brightness_at(x, y)
    }
}

} // verus!
