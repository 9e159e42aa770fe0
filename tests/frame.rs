use lib_wgpu_learn::frame::frame_cap_delay_ms;

#[test]
fn zero_cap_never_waits() {
    assert_eq!(frame_cap_delay_ms(0, 0), 0);
    assert_eq!(frame_cap_delay_ms(0, 5), 0);
}

#[test]
fn capped_frame_waits_for_the_rest_of_the_interval() {
    // 60 fps: 16_666 us per frame; 10 ms spent leaves 6 whole ms.
    assert_eq!(frame_cap_delay_ms(60, 10_000), 6);
    // 240 fps: 4_166 us per frame.
    assert_eq!(frame_cap_delay_ms(240, 0), 4);
    assert_eq!(frame_cap_delay_ms(1, 0), 1000);
    assert_eq!(frame_cap_delay_ms(1, 1), 999);
}

#[test]
fn slow_frame_does_not_wait() {
    assert_eq!(frame_cap_delay_ms(60, 16_667), 0);
    assert_eq!(frame_cap_delay_ms(60, 1_000_000), 0);
    assert_eq!(frame_cap_delay_ms(u32::MAX, u64::MAX), 0);
}
