use img2video::frames::{create_frame, extract_channel, pack_bgr, pack_bgra, pack_frame, plane_stride, PackedLayout, RgbFrame};

fn two_pixel_frame() -> RgbFrame {
    RgbFrame { width: 2, height: 1, data: vec![1, 2, 3, 4, 5, 6] }
}

#[test]
fn create_frame_is_the_packed_rgb_bytes() {
    let f = two_pixel_frame();
    assert_eq!(create_frame(&f), vec![1, 2, 3, 4, 5, 6]);
}

#[test]
fn extract_channel_picks_every_step_th_byte() {
    let data = vec![1u8, 2, 3, 4, 5, 6];
    assert_eq!(extract_channel(&data, 3, 0), vec![1, 4]);
    assert_eq!(extract_channel(&data, 3, 1), vec![2, 5]);
    assert_eq!(extract_channel(&data, 3, 2), vec![3, 6]);
}

#[test]
fn extract_channel_of_empty_data_is_empty() {
    let data: Vec<u8> = Vec::new();
    assert_eq!(extract_channel(&data, 3, 1), Vec::<u8>::new());
}

#[test]
fn pack_bgr_swaps_red_and_blue_per_pixel() {
    let f = two_pixel_frame();
    assert_eq!(pack_bgr(&f), vec![3, 2, 1, 6, 5, 4]);
}

#[test]
fn pack_bgra_appends_opaque_alpha() {
    let f = RgbFrame { width: 1, height: 1, data: vec![10, 20, 30] };
    assert_eq!(pack_bgra(&f), vec![30, 20, 10, 255]);
}

#[test]
fn pack_frame_dispatches_on_layout() {
    let f = two_pixel_frame();
    assert_eq!(pack_frame(&f, &PackedLayout::Rgb), vec![1, 2, 3, 4, 5, 6]);
    assert_eq!(pack_frame(&f, &PackedLayout::Bgr), vec![3, 2, 1, 6, 5, 4]);
    assert_eq!(pack_frame(&f, &PackedLayout::Bgra), vec![3, 2, 1, 255, 6, 5, 4, 255]);
}

#[test]
fn plane_stride_rounds_odd_widths_up() {
    assert_eq!(plane_stride(640, 0), 640);
    assert_eq!(plane_stride(640, 1), 320);
    assert_eq!(plane_stride(641, 1), 321);
    assert_eq!(plane_stride(1, 1), 1);
}
