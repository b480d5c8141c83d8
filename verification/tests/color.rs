use psp_gfx::color::{swap_word, Color32};

#[test]
fn rgba_round_trip() {
    for c in [0u32, 1, 0xff, 0x12345678, 0xdeadbeef, 0xffffffff, 0x80000000, 0x00ff00ff] {
        assert_eq!(Color32::from_rgba(c).as_rgba(), c);
    }
}

#[test]
fn abgr_round_trip() {
    for c in [0u32, 1, 0xff, 0x12345678, 0xdeadbeef, 0xffffffff, 0x80000000, 0x00ff00ff] {
        assert_eq!(Color32::from_abgr(c).as_abgr(), c);
    }
}

#[test]
fn rgba_and_abgr_are_byte_reversed() {
    let c = Color32::from_rgba(0x11223344);
    assert_eq!(c.as_abgr(), 0x44332211);
    assert_eq!(c.as_rgba(), 0x11223344);
    assert_eq!(Color32::from_abgr(0x44332211), c);
}

#[test]
fn swap_word_reverses_bytes() {
    assert_eq!(swap_word(0x11223344), 0x44332211);
    assert_eq!(swap_word(0x000000ff), 0xff000000);
    assert_eq!(swap_word(swap_word(0xcafef00d)), 0xcafef00d);
    assert_eq!(swap_word(0x11223344), 0x11223344u32.swap_bytes());
}

#[test]
fn channels_of_rgba() {
    let c = Color32::from_rgba(0x11223344);
    assert_eq!(c.r(), 0x11);
    assert_eq!(c.g(), 0x22);
    assert_eq!(c.b(), 0x33);
    assert_eq!(c.a(), 0x44);
}

#[test]
fn channels_of_abgr() {
    let c = Color32::from_abgr(0x11223344);
    assert_eq!(c.a(), 0x11);
    assert_eq!(c.b(), 0x22);
    assert_eq!(c.g(), 0x33);
    assert_eq!(c.r(), 0x44);
}

#[test]
fn rgb_is_opaque() {
    let c = Color32::from_rgb(0xE40303);
    assert_eq!(c.a(), 0xff);
    assert_eq!(c.r(), 0xE4);
    assert_eq!(c.g(), 0x03);
    assert_eq!(c.b(), 0x03);
    assert_eq!(c.as_rgba(), 0xE40303ff);
    assert_eq!(c.as_abgr(), 0xff0303E4);
}

#[test]
fn rgb_ignores_the_highest_byte() {
    let c = Color32::from_rgb(0xab123456);
    assert_eq!(c.a(), 0xff);
    assert_eq!(c.r(), 0x12);
    assert_eq!(c.g(), 0x34);
    assert_eq!(c.b(), 0x56);
    assert_eq!(c, Color32::from_rgb(0x123456));
}

#[test]
fn named_colors() {
    assert_eq!(Color32::black().as_rgba(), 0x000000ff);
    assert_eq!(Color32::white().as_rgba(), 0xffffffff);
    assert_eq!(Color32::red().as_rgba(), 0xff0000ff);
    assert_eq!(Color32::green().as_rgba(), 0x00ff00ff);
    assert_eq!(Color32::blue().as_rgba(), 0x0000ffff);
    assert_eq!(Color32::yellow().as_rgba(), 0xffff00ff);
    assert_eq!(Color32::cyan().as_rgba(), 0x00ffffff);
    assert_eq!(Color32::magenta().as_rgba(), 0xff00ffff);
    assert_eq!(Color32::purple().as_rgba(), 0x800080ff);
    assert_eq!(Color32::orange().as_rgba(), 0xffa500ff);
    assert_eq!(Color32::brown().as_rgba(), 0xa52a2aff);
    assert_eq!(Color32::pink().as_rgba(), 0xffc0cbff);
    assert_eq!(Color32::gray().as_rgba(), 0x808080ff);
    assert_eq!(Color32::light_gray().as_rgba(), 0xd3d3d3ff);
    assert_eq!(Color32::dark_gray().as_rgba(), 0x404040ff);
    assert_eq!(Color32::transparent().as_rgba(), 0x00000000);
}

#[test]
fn named_colors_in_engine_order() {
    assert_eq!(Color32::red().as_abgr(), 0xff0000ff);
    assert_eq!(Color32::blue().as_abgr(), 0xffff0000);
    assert_eq!(Color32::orange().as_abgr(), 0xff00a5ff);
    assert_eq!(Color32::transparent().as_abgr(), 0);
    assert_eq!(Color32::red().r(), 0xff);
    assert_eq!(Color32::red().g(), 0);
    assert_eq!(Color32::red().a(), 0xff);
}
