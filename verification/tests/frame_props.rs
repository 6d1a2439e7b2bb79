use framepipe::frame::{generate_frame, simulate_frame, Frame};
use framepipe::{FRAME_HEIGHT, FRAME_WIDTH};

#[test]
fn frame_length_matches_dimensions() {
    let data = simulate_frame(0);
    assert_eq!(FRAME_WIDTH, 640);
    assert_eq!(FRAME_HEIGHT, 480);
    assert_eq!(data.len(), 1_228_800);
}

#[test]
fn alpha_channel_fully_opaque() {
    let data = simulate_frame(3);
    for p in 0..(FRAME_WIDTH * FRAME_HEIGHT) {
        assert_eq!(data[4 * p + 3], 255);
    }
}

#[test]
fn gradient_formula_exact() {
    let data = simulate_frame(7);
    let idx: usize = (3 * 640 + 5) * 4;
    assert_eq!(data[idx], 5); // red follows the column
    assert_eq!(data[idx + 1], 3); // green follows the row
    assert_eq!(data[idx + 2], 7); // blue follows the tick
    assert_eq!(data[idx + 3], 255);

    let idx: usize = (479 * 640 + 300) * 4;
    assert_eq!(data[idx] as usize, 300 % 256);
    assert_eq!(data[idx + 1] as usize, 479 % 256);
}

#[test]
fn blue_channel_wraps_with_tick() {
    let data = simulate_frame(258);
    assert_eq!(data[2], 2);
}

#[test]
fn generate_frame_small_dimensions() {
    let data = generate_frame(3, 2, 1);
    assert_eq!(data.len(), 24);
    for p in 0..6 {
        assert_eq!(data[4 * p], (p % 3) as u8);
        assert_eq!(data[4 * p + 1], (p / 3) as u8);
        assert_eq!(data[4 * p + 2], 1);
        assert_eq!(data[4 * p + 3], 255);
    }
}

#[test]
fn frame_for_tick_matches_generator() {
    let frame = Frame::for_tick(5);
    assert_eq!(frame.len(), 1_228_800);
    assert_eq!(frame.bytes(), &simulate_frame(5));
}
