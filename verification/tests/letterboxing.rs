use pesto::letterbox::{
    letterbox_transform, real_x_of_virtual, real_y_of_virtual, virtual_x_of_real,
    virtual_y_of_real, SCALE_DEN, VIRTUAL_HEIGHT, VIRTUAL_WIDTH,
};

#[test]
fn virtual_resolution_is_fixed() {
    assert_eq!(VIRTUAL_WIDTH, 1280);
    assert_eq!(VIRTUAL_HEIGHT, 720);
    assert_eq!(SCALE_DEN, 1280 * 720);
}

#[test]
fn default_window_scales_by_three_quarters_with_no_bars() {
    // 960x540 is exactly 3/4 of 1280x720, so the surface fills the window.
    let t = letterbox_transform(960, 540);
    assert_eq!(t.scale_num as u64 * 4, 3 * SCALE_DEN);
    assert_eq!(t.offset_x_num, 0);
    assert_eq!(t.offset_y_num, 0);
}

#[test]
fn wide_window_gets_side_bars() {
    // 1920x720: scale is 1, and 320 real pixels of bar on each side.
    let t = letterbox_transform(1920, 720);
    assert_eq!(t.scale_num, SCALE_DEN);
    assert_eq!(t.offset_x_num, 640 * SCALE_DEN as i64);
    assert_eq!(t.offset_x_num / (2 * SCALE_DEN as i64), 320);
    assert_eq!(t.offset_y_num, 0);
}

#[test]
fn tall_window_gets_top_and_bottom_bars() {
    // 1280x1440: scale is 1, and 360 real pixels of bar above and below.
    let t = letterbox_transform(1280, 1440);
    assert_eq!(t.scale_num, SCALE_DEN);
    assert_eq!(t.offset_x_num, 0);
    assert_eq!(t.offset_y_num / (2 * SCALE_DEN as i64), 360);
}

#[test]
fn degenerate_window_keeps_the_scale_positive() {
    let t = letterbox_transform(0, 0);
    assert_eq!(t.scale_num, 1);
    let t = letterbox_transform(0, 1080);
    assert_eq!(t.scale_num, 1);
}

#[test]
fn pointer_round_trip_is_exact() {
    let t = letterbox_transform(1000, 700);
    // A pointer position with a fractional part: 123.5 = 247/2, 41.25 = 165/4.
    let (vxn, vxd) = virtual_x_of_real(&t, 247, 2);
    let (vyn, vyd) = virtual_y_of_real(&t, 165, 4);
    let (rxn, rxd) = real_x_of_virtual(&t, vxn, vxd);
    let (ryn, ryd) = real_y_of_virtual(&t, vyn, vyd);
    // Equal as rationals: back exactly where the pointer was.
    assert_eq!(rxn * 2, 247 * rxd);
    assert_eq!(ryn * 4, 165 * ryd);
}

#[test]
fn degenerate_window_round_trip_is_still_exact() {
    // The clamp keeps the inverse mapping defined even for a zero-sized
    // window, and the round trip stays exact.
    let t = letterbox_transform(0, 0);
    let (vn, vd) = virtual_x_of_real(&t, 5, 1);
    let (rn, rd) = real_x_of_virtual(&t, vn, vd);
    assert_eq!(rn, 5 * rd);
}

#[test]
fn centered_pointer_maps_to_the_surface_center() {
    // 2560x1440 doubles the virtual surface exactly; the window center must
    // land on the virtual center (640, 360).
    let t = letterbox_transform(2560, 1440);
    let (vxn, vxd) = virtual_x_of_real(&t, 1280, 1);
    let (vyn, vyd) = virtual_y_of_real(&t, 720, 1);
    assert_eq!(vxn, 640 * vxd);
    assert_eq!(vyn, 360 * vyd);
}
