//! Support for scrolling sequences of 5×5 images horizontally.
//!
//! Each kind of scrolling sequence is represented by a type implementing
//! [`Scrollable`]; such a type gets the animation contract [`Animate`] and
//! the compositing algorithm (`current_brightness_at`) for free.
//!
//! The display window is a 5-wide slit sliding across the virtual strip formed
//! by concatenating the sequence's subimages with no gaps: the cursor's
//! `index` names the element entering the window, and `pixel` is the slit's
//! offset within the current pair of adjacent elements.

use vstd::prelude::*;
use crate::render::Render;

verus! {

/// Data needed to record the state of a scrolling animation.
///
/// Implementations of [`Scrollable`] should contain one of these and make it
/// available via `state()` and `state_mut()`.
#[derive(Copy, Clone, Debug)]
pub struct ScrollingState {
    /// Position of the element currently entering (or already on) the screen.
    ///
    /// Runs from 0 (nothing visible yet) to `length + 1` (fully scrolled off).
    pub index: usize,
    /// Sub-element offset of the sliding window, 0 to 4.
    pub pixel: usize,
}

/// One unguarded cursor advance: the two-digit odometer with a carry when the
/// low digit `pixel` passes 4.
pub open spec fn cursor_step(index: int, pixel: int) -> (int, int) {
    if pixel == 4 {
        (index + 1, 0int)
    } else {
        (index, pixel + 1)
    }
}

/// Whether a cursor at `index` has scrolled past a sequence of `length`
/// elements.
pub open spec fn spec_finished(index: int, length: int) -> bool {
    index > length
}

/// One animation step: the cursor advances, except that a finished animation
/// stays frozen.
pub open spec fn anim_step(index: int, pixel: int, length: int) -> (int, int) {
    if spec_finished(index, length) {
        (index, pixel)
    } else {
        cursor_step(index, pixel)
    }
}

/// The cursor reached from `(index, pixel)` by `n` animation steps.
pub open spec fn anim_steps(index: int, pixel: int, length: int, n: nat) -> (int, int)
    decreases n,
{
    if n == 0 {
        (index, pixel)
    } else {
        let prev = anim_steps(index, pixel, length, (n - 1) as nat);
        anim_step(prev.0, prev.1, length)
    }
}

impl ScrollingState {
    /// Reset the state to the beginning.
    pub fn reset(&mut self)
        ensures
            final(self).index == 0,
            final(self).pixel == 0,
    {
        self.index = 0;
        self.pixel = 0;
    }

    /// Advance the state by one tick of the odometer.
    pub fn tick(&mut self)
        requires
            old(self).pixel < 5,
            old(self).pixel == 4 ==> old(self).index < usize::MAX,
        ensures
            (final(self).index as int, final(self).pixel as int) == cursor_step(
                old(self).index as int,
                old(self).pixel as int,
            ),
    {
        self.pixel = self.pixel + 1;
        if self.pixel == 5 {
            self.pixel = 0;
            self.index = self.index + 1;
        }
    }
}

impl Default for ScrollingState {
    /// The start-of-animation state `(0, 0)`.
    fn default() -> (st: ScrollingState)
        ensures
            st.index == 0,
            st.pixel == 0,
    {
        ScrollingState { index: 0, pixel: 0 }
    }
}

/// The bounds every scrolling sequence keeps while animating: the sub-element
/// offset stays below 5, the cursor never passes `length + 1`, and the length
/// leaves room for the cursor to move one past it.
pub open spec fn scroll_wf(st: ScrollingState, length: int) -> bool {
    &&& 0 <= length
    &&& length < usize::MAX
    &&& st.pixel < 5
    &&& st.index <= length + 1
}

/// Every subimage of the sequence is fit to be sampled.
pub open spec fn subimages_inv<I: Render>(imgs: Seq<I>) -> bool {
    forall|i: int| 0 <= i < imgs.len() ==> (#[trigger] imgs[i]).inv()
}

/// The brightness a scrolling sequence `imgs` shows at `(x, y)` when its
/// cursor is at `st`: the 5-wide window at offset `pixel` over the pair of
/// adjacent subimages `index - 1` and `index`, blank beyond either open end
/// of the strip, and blank everywhere once the animation has finished.
pub open spec fn composite_bright<I: Render>(
    imgs: Seq<I>,
    st: ScrollingState,
    x: int,
    y: int,
) -> u8 {
    let index = st.index as int;
    let pixel = st.pixel as int;
    let col = x + pixel;
    if spec_finished(index, imgs.len() as int) {
        0u8
    } else if col < 5 {
        if index == 0 {
            0u8
        } else {
            imgs[index - 1].bright(col, y)
        }
    } else {
        if index == imgs.len() as int {
            0u8
        } else {
            imgs[index].bright(col - 5, y)
        }
    }
}

/// A horizontally scrolling sequence of 5×5 images.
///
/// `Scrollable`s automatically implement [`Animate`].
///
/// When a `Scrollable` also implements [`Render`], the rendered image is the
/// current state of the animation.
pub trait Scrollable: Sized {
    /// The type of the underlying 5×5 images.
    type Subimage: Render;

    /// The underlying images, in order.
    spec fn spec_images(&self) -> Seq<Self::Subimage>;

    /// The current point in the animation.
    spec fn spec_state(&self) -> ScrollingState;

    /// The number of underlying images.
    fn length(&self) -> (n: usize)
        ensures
            n as int == self.spec_images().len(),
    ;

    /// A [`ScrollingState`] indicating the current point in the animation.
    fn state(&self) -> (st: &ScrollingState)
        ensures
            *st == self.spec_state(),
    ;

    /// A [`ScrollingState`] indicating the current point in the animation, as
    /// a mutable reference.
    ///
    /// Writing through the reference changes the animation state and nothing
    /// else.
    fn state_mut(&mut self) -> (st: &mut ScrollingState)
        ensures
            *st == old(self).spec_state(),
            final(self).spec_state() == *final(st),
            final(self).spec_images() == old(self).spec_images(),
    ;

    /// A reference to the underlying image at the specified index.
    fn subimage(&self, index: usize) -> (im: &Self::Subimage)
        requires
            index < self.spec_images().len(),
        ensures
            *im == self.spec_images()[index as int],
    ;

    /// Returns the brightness value for a single LED in the current state.
    ///
    /// Use this to implement [`Render`].
    fn current_brightness_at(&self, x: usize, y: usize) -> (b: u8)
        requires
            scroll_wf(self.spec_state(), self.spec_images().len() as int),
            subimages_inv(self.spec_images()),
            x < 5,
            y < 5,
        ensures
            b == composite_bright(self.spec_images(), self.spec_state(), x as int, y as int),
    {
        if self.state().index > self.length() {
            return 0;
        }
        let pixel = self.state().pixel;
        let index = self.state().index;
        let (index, x) = if x + pixel < 5 {
            if index == 0 {
                return 0;
            }
            (index - 1, x + pixel)
        } else {
            if index == self.length() {
                return 0;
            }
            (index, x + pixel - 5)
        };
        self.subimage(index).brightness_at(x, y)
    }
}

/// The state of an animation.
///
/// Every [`Scrollable`] gets this contract automatically.
pub trait Animate: Scrollable {
    /// Say whether the animation has completed.
    fn is_finished(&self) -> (r: bool)
        ensures
            r == spec_finished(self.spec_state().index as int, self.spec_images().len() as int),
    {
        self.state().index > self.length()
    }

    /// Reset the animation to the beginning, leaving the sequence itself
    /// unchanged.
    fn reset(&mut self)
        ensures
            final(self).spec_state().index == 0,
            final(self).spec_state().pixel == 0,
            final(self).spec_images() == old(self).spec_images(),
    {
        let st = self.state_mut();
        st.reset();
    }

    /// Advance to the next step of the animation.
    ///
    /// If the animation has completed, does nothing.
    fn tick(&mut self)
        requires
            scroll_wf(old(self).spec_state(), old(self).spec_images().len() as int),
        ensures
            (final(self).spec_state().index as int, final(self).spec_state().pixel as int)
                == anim_step(
                old(self).spec_state().index as int,
                old(self).spec_state().pixel as int,
                old(self).spec_images().len() as int,
            ),
            final(self).spec_images() == old(self).spec_images(),
            scroll_wf(final(self).spec_state(), final(self).spec_images().len() as int),
    {
        if !self.is_finished() {
            let st = self.state_mut();
            st.tick();
        }
    }
}

impl<T: Scrollable> Animate for T {

}

/// A cursor that has not passed the end is not finished; one step past the
/// end it is. In particular the start-of-animation state `(0, 0)` is never
/// finished.
pub proof fn lemma_finished_exactly_past_end(index: int, length: int)
    requires
        0 <= length,
    ensures
        index <= length ==> !spec_finished(index, length),
        index == length + 1 ==> spec_finished(index, length),
        !spec_finished(0, length),
{
}

/// While the animation is still running, `n` steps from the start put the
/// cursor at `(n / 5, n % 5)`.
proof fn lemma_steps_running(length: int, n: nat)
    requires
        0 <= length,
        n <= 5 * (length + 1),
    ensures
        anim_steps(0, 0, length, n) == (n as int / 5, n as int % 5),
    decreases n,
{
    if n > 0 {
        let m = (n - 1) as nat;
        lemma_steps_running(length, m);
        let mi = m as int;
        assert(mi / 5 <= length && 0 <= mi % 5 < 5 && mi == 5 * (mi / 5) + mi % 5);
        if mi % 5 == 4 {
            assert((mi + 1) / 5 == mi / 5 + 1 && (mi + 1) % 5 == 0);
        } else {
            assert((mi + 1) / 5 == mi / 5 && (mi + 1) % 5 == mi % 5 + 1);
        }
    }
}

/// Ticking exactly `5 * (length + 1)` times from the initial state reaches
/// the finished state; no earlier step is finished; and the finished state
/// is a fixed point of the step function, so ticking further changes
/// nothing.
pub proof fn lemma_ticks_to_finish(length: int)
    requires
        0 <= length,
    ensures
        anim_steps(0, 0, length, (5 * (length + 1)) as nat) == (length + 1, 0int),
        forall|n: nat|
            n < 5 * (length + 1) ==> !spec_finished(
                #[trigger] anim_steps(0, 0, length, n).0,
                length,
            ),
        anim_step(length + 1, 0, length) == (length + 1, 0int),
{
    lemma_steps_running(length, (5 * (length + 1)) as nat);
    assert forall|n: nat| n < 5 * (length + 1) implies !spec_finished(
        anim_steps(0, 0, length, n).0,
        length,
    ) by {
        lemma_steps_running(length, n);
        assert(n as int / 5 <= length);
    }
}

/// Full-frame alignment: at sub-pixel offset 0, with the cursor strictly
/// inside the sequence, the composite frame equals subimage `index - 1`
/// exactly, at every coordinate.
pub proof fn lemma_full_frame_alignment<I: Render>(
    imgs: Seq<I>,
    st: ScrollingState,
    x: int,
    y: int,
)
    requires
        st.pixel == 0,
        1 <= st.index <= imgs.len(),
        0 <= x < 5,
        0 <= y < 5,
    ensures
        composite_bright(imgs, st, x, y) == imgs[st.index - 1].bright(x, y),
{
}

/// The initial frame: while no element has entered the receding side
/// (`index == 0`), the window is blank left of the entering element, and
/// shows only the leftmost `pixel` columns of subimage 0 on the right.
pub proof fn lemma_initial_frame<I: Render>(imgs: Seq<I>, st: ScrollingState, x: int, y: int)
    requires
        st.index == 0,
        st.pixel < 5,
        0 <= x < 5,
        0 <= y < 5,
    ensures
        x + st.pixel < 5 ==> composite_bright(imgs, st, x, y) == 0,
        x + st.pixel >= 5 && imgs.len() > 0 ==> composite_bright(imgs, st, x, y) == imgs[0].bright(
            x + st.pixel - 5,
            y,
        ),
{
}

/// Round trip: replacing the content of a sequence puts the cursor at the
/// start-of-animation state, where the whole frame is blank, whatever the
/// new content is.
pub proof fn lemma_fresh_frame_blank<I: Render>(imgs: Seq<I>, st: ScrollingState, x: int, y: int)
    requires
        st.index == 0,
        st.pixel == 0,
        0 <= x < 5,
        0 <= y < 5,
    ensures
        composite_bright(imgs, st, x, y) == 0,
{
}

} // verus!

