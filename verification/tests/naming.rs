use sprite_anim::naming::{decimal_string, frame_name};

#[test]
fn frame_names_follow_the_pattern() {
    assert_eq!(frame_name(1), "Run (1).png");
    assert_eq!(frame_name(3), "Run (3).png");
    assert_eq!(frame_name(8), "Run (8).png");
}

#[test]
fn frame_names_with_more_digits() {
    assert_eq!(frame_name(12), "Run (12).png");
    assert_eq!(frame_name(407), "Run (407).png");
}

#[test]
fn decimal_rendering() {
    assert_eq!(decimal_string(0), "0");
    assert_eq!(decimal_string(7), "7");
    assert_eq!(decimal_string(50), "50");
    assert_eq!(decimal_string(4294967295), "4294967295");
}
