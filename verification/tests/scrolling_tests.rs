use microbit_text::image::BitImage;
use microbit_text::render::Render;
use microbit_text::scrolling::Animate;
use microbit_text::scrolling::Scrollable;
use microbit_text::scrolling::ScrollingState;
use microbit_text::scrolling_statics::ScrollingStatics;

fn image_a() -> BitImage {
    BitImage::new(&[
        [1, 0, 0, 0, 1],
        [0, 1, 0, 1, 0],
        [0, 0, 1, 0, 0],
        [0, 1, 0, 1, 0],
        [1, 0, 0, 0, 1],
    ])
}

fn image_b() -> BitImage {
    BitImage::new(&[
        [1, 1, 0, 0, 0],
        [1, 0, 1, 0, 0],
        [0, 1, 0, 1, 0],
        [0, 0, 1, 0, 1],
        [0, 0, 0, 1, 1],
    ])
}

fn frame_of<R: Render>(r: &R) -> [[u8; 5]; 5] {
    let mut f = [[0u8; 5]; 5];
    for y in 0..5 {
        for x in 0..5 {
            f[y][x] = r.brightness_at(x, y);
        }
    }
    f
}

fn blank_frame() -> [[u8; 5]; 5] {
    [[0u8; 5]; 5]
}

fn two_image_scroller() -> ScrollingStatics<BitImage> {
    let images: &'static [BitImage] = Box::leak(vec![image_a(), image_b()].into_boxed_slice());
    let mut s: ScrollingStatics<BitImage> = ScrollingStatics::default();
    s.set_images(images);
    s
}

#[test]
fn initial_frame_is_blank() {
    let s = two_image_scroller();
    assert!(!s.is_finished());
    assert_eq!(s.length(), 2);
    assert_eq!(frame_of(&s), blank_frame());
}

#[test]
fn full_frame_alignment_after_five_ticks() {
    let mut s = two_image_scroller();
    for _ in 0..5 {
        s.tick();
    }
    // index 1, pixel 0: the frame is exactly the first image.
    let expected = [
        [9, 0, 0, 0, 9],
        [0, 9, 0, 9, 0],
        [0, 0, 9, 0, 0],
        [0, 9, 0, 9, 0],
        [9, 0, 0, 0, 9],
    ];
    assert_eq!(frame_of(&s), expected);
}

#[test]
fn window_splits_between_adjacent_images() {
    let mut s = two_image_scroller();
    for _ in 0..7 {
        s.tick();
    }
    // index 1, pixel 2: columns x + 2 below 5 show the first image's columns
    // 2..5, the rest show the second image's columns 0..2.
    let a = image_a();
    let b = image_b();
    let f = frame_of(&s);
    for y in 0..5 {
        for x in 0..5 {
            let col = x + 2;
            let expected = if col < 5 {
                a.brightness_at(col, y)
            } else {
                b.brightness_at(col - 5, y)
            };
            assert_eq!(f[y][x], expected);
        }
    }
}

#[test]
fn finishes_after_exactly_five_times_length_plus_one_ticks() {
    let mut s = two_image_scroller();
    // 5 * (2 + 1) ticks finish the animation; none of the earlier ones do.
    for _ in 0..15 {
        assert!(!s.is_finished());
        s.tick();
    }
    assert!(s.is_finished());
    assert_eq!(frame_of(&s), blank_frame());
    // Ticking a finished animation is a no-op.
    s.tick();
    assert!(s.is_finished());
    assert_eq!(frame_of(&s), blank_frame());
}

#[test]
fn empty_sequence_finishes_after_five_ticks() {
    let mut s: ScrollingStatics<BitImage> = ScrollingStatics::default();
    assert_eq!(s.length(), 0);
    assert!(!s.is_finished());
    assert_eq!(frame_of(&s), blank_frame());
    for _ in 0..5 {
        assert!(!s.is_finished());
        s.tick();
    }
    assert!(s.is_finished());
}

#[test]
fn reset_restarts_from_any_state() {
    let mut s = two_image_scroller();
    for _ in 0..16 {
        s.tick();
    }
    assert!(s.is_finished());
    s.reset();
    assert!(!s.is_finished());
    assert_eq!(frame_of(&s), blank_frame());
    // The sequence itself is unchanged: it realigns after five ticks.
    for _ in 0..5 {
        s.tick();
    }
    assert_eq!(frame_of(&s), frame_of(&image_a()));
}

#[test]
fn set_images_resets_the_animation() {
    let mut s = two_image_scroller();
    for _ in 0..7 {
        s.tick();
    }
    assert_ne!(frame_of(&s), blank_frame());
    let images: &'static [BitImage] = Box::leak(vec![image_b()].into_boxed_slice());
    s.set_images(images);
    assert_eq!(s.length(), 1);
    assert!(!s.is_finished());
    assert_eq!(frame_of(&s), blank_frame());
}

#[test]
fn cursor_odometer_wraps() {
    let mut st = ScrollingState::default();
    for _ in 0..4 {
        st.tick();
    }
    assert_eq!((st.index, st.pixel), (0, 4));
    st.tick();
    assert_eq!((st.index, st.pixel), (1, 0));
    st.reset();
    assert_eq!((st.index, st.pixel), (0, 0));
}

#[test]
fn state_mut_gives_direct_cursor_access() {
    let mut s = two_image_scroller();
    {
        let st = s.state_mut();
        st.index = 1;
        st.pixel = 0;
    }
    assert_eq!(frame_of(&s), frame_of(&image_a()));
}

#[test]
fn image_references_scroll_too() {
    let a: &'static BitImage = Box::leak(Box::new(image_a()));
    let b: &'static BitImage = Box::leak(Box::new(image_b()));
    let images: &'static [&'static BitImage] = Box::leak(vec![a, b].into_boxed_slice());
    let mut s: ScrollingStatics<&'static BitImage> = ScrollingStatics::default();
    s.set_images(images);
    for _ in 0..5 {
        s.tick();
    }
    assert_eq!(frame_of(&s), frame_of(&image_a()));
}

#[test]
fn cursor_state_is_observable() {
    let mut s = two_image_scroller();
    assert_eq!(s.state().index, 0);
    assert_eq!(s.state().pixel, 0);
    for _ in 0..7 {
        s.tick();
    }
    assert_eq!(s.state().index, 1);
    assert_eq!(s.state().pixel, 2);
}
