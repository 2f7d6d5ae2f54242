use livesplit_term::color::{quantize_channel, quantize_color, NormColor, Rgb, CHANNEL_SCALE};
use livesplit_term::layout::region_heights;

#[test]
fn quantize_black_is_zero() {
    let black = NormColor { red: 0, green: 0, blue: 0 };
    assert_eq!(quantize_color(&black), Rgb { red: 0, green: 0, blue: 0 });
}

#[test]
fn quantize_white_is_full_without_wraparound() {
    let white = NormColor { red: CHANNEL_SCALE, green: CHANNEL_SCALE, blue: CHANNEL_SCALE };
    assert_eq!(quantize_color(&white), Rgb { red: 255, green: 255, blue: 255 });
}

#[test]
fn quantize_channel_values() {
    assert_eq!(quantize_channel(0), 0);
    assert_eq!(quantize_channel(CHANNEL_SCALE), 255);
    // half intensity floors to 127, matching floor(0.5 * 255)
    assert_eq!(quantize_channel(CHANNEL_SCALE / 2), 127);
    // a channel over full intensity clamps instead of wrapping
    assert_eq!(quantize_channel(2 * CHANNEL_SCALE), 255);
}

#[test]
fn region_heights_track_segment_count() {
    for n in 0..40usize {
        let h = region_heights(n);
        assert_eq!(h.splits as usize, n + 3);
        assert_eq!(h.title, 3);
        assert_eq!(h.timer, 2);
    }
}

#[test]
fn region_heights_of_four_segments() {
    let h = region_heights(4);
    assert_eq!(
        [h.title, h.splits, h.timer, h.previous_segment, h.sum_of_best, h.possible_time_save],
        [3, 7, 2, 1, 1, 1]
    );
    let total = h.title + h.splits + h.timer + h.previous_segment + h.sum_of_best
        + h.possible_time_save;
    assert_eq!(total, 15);
}

#[test]
fn region_heights_degenerate_with_no_segments() {
    let h = region_heights(0);
    assert_eq!(h.splits, 3);
}
