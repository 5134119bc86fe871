use img2video::av1::images_to_av1_video;
use img2video::convert::{convert_images_to_video, Conversion};
use img2video::h264::images_to_h264_video;
use img2video::models::{Colorspace, Config, VideoEncoding, VideoError};
use img2video::output::{output_action, OutputAction};

fn save_test_image(path: &str, side: u32) {
    let mut img = image::RgbImage::new(side, side);
    for (x, y, p) in img.enumerate_pixels_mut() {
        *p = image::Rgb([(x * 7 % 256) as u8, (y * 11 % 256) as u8, ((x + y) % 256) as u8]);
    }
    img.save(path).unwrap();
}

fn av1_config(image_path: &str, side: u32) -> Config {
    let mut c = Config::default_config_with_images(vec![image_path.to_owned()]);
    c.resolustion(side, side);
    c.fpi = Some(1);
    c.video_encoding = VideoEncoding::AV1;
    c
}

#[test]
fn unreadable_path_fails_with_image_load_error_and_no_output() {
    let mut c = Config::default_config_with_images(vec![
        "/nonexistent/img2video/missing.png".to_owned(),
    ]);
    c.video_encoding = VideoEncoding::H264;
    assert!(matches!(convert_images_to_video(&c), Err(VideoError::ImageLoad(_))));
    c.video_encoding = VideoEncoding::AV1;
    assert!(matches!(images_to_av1_video(&c), Err(VideoError::ImageLoad(_))));
}

#[test]
fn planar_colorspace_has_no_packed_mapping() {
    let mut c = Config::default_config_with_images(vec!["a.png".to_owned()]);
    c.colorspace(Colorspace::I420);
    assert!(matches!(images_to_h264_video(&c), Err(VideoError::UnsupportedColorspace(_))));
}

#[test]
fn h264_job_is_normalized_and_packed() {
    let path = "/tmp/img2video_test_h264_src.png";
    save_test_image(path, 10);
    let mut c = Config::default_config_with_images(vec![path.to_owned(), path.to_owned()]);
    c.resolustion(8, 6);
    c.fpi = Some(2);
    let job = images_to_h264_video(&c).unwrap();
    assert_eq!(job.frames.len(), 2);
    assert_eq!(job.params.width, 8);
    assert_eq!(job.params.height, 6);
    assert_eq!(job.params.reps, 2);
    for f in &job.frames {
        assert_eq!(f.len(), 3 * 8 * 6);
    }
}

#[test]
fn av1_pipeline_produces_a_bitstream() {
    let path = "/tmp/img2video_test_av1_src.png";
    save_test_image(path, 24);
    let c = av1_config(path, 16);
    let (bytes, _) = images_to_av1_video(&c).unwrap();
    assert!(!bytes.is_empty());
    let through_entry = convert_images_to_video(&c).unwrap();
    match through_entry {
        Conversion::Encoded(b) => assert_eq!(b, bytes),
        Conversion::Prepared(_) => panic!("the streaming codec finishes in the library"),
    }
}

/// The same job twice on the deterministic single-threaded encoder
/// configuration gives byte-identical output.
#[test]
fn av1_encoding_twice_is_byte_identical() {
    let path = "/tmp/img2video_test_av1_idem.png";
    save_test_image(path, 20);
    let c = av1_config(path, 16);
    let (first, _) = images_to_av1_video(&c).unwrap();
    let (second, _) = images_to_av1_video(&c).unwrap();
    assert_eq!(first, second);
}

#[test]
fn av1_rejects_a_geometry_the_encoder_cannot_take() {
    let path = "/tmp/img2video_test_av1_tiny.png";
    save_test_image(path, 8);
    let c = av1_config(path, 8);
    assert!(matches!(images_to_av1_video(&c), Err(VideoError::EncoderInit(_))));
}

#[test]
fn plain_argument_entry_points_prepare_synchronous_jobs() {
    let r = img2video::convert_images_to_video(Vec::new(), Some(30), None);
    assert!(matches!(r, Err(VideoError::Config(_))));
    let path = "/tmp/img2video_test_entry_src.png";
    save_test_image(path, 12);
    let r2 = img2video::convert_images_to_video2(
        vec![path.to_owned()],
        Some(30),
        Some((8, 8)),
        Some("out.raw".to_owned()),
    );
    match r2.unwrap() {
        Conversion::Prepared(job) => {
            assert_eq!(job.params.reps, 1);
            assert_eq!(job.frames.len(), 1);
            assert_eq!(job.frames[0].len(), 3 * 8 * 8);
        },
        Conversion::Encoded(_) => panic!("the synchronous codec is prepared, not finished"),
    }
}

#[test]
fn mp4_suffix_is_muxed_everything_else_is_written_raw() {
    assert_eq!(output_action(&"out.mp4".to_owned()), OutputAction::MuxMp4);
    assert_eq!(output_action(&"dir/video.mp4".to_owned()), OutputAction::MuxMp4);
    assert_eq!(output_action(&"out.avi".to_owned()), OutputAction::WriteRaw);
    assert_eq!(output_action(&"out".to_owned()), OutputAction::WriteRaw);
    assert_eq!(output_action(&"mp4".to_owned()), OutputAction::WriteRaw);
    assert_eq!(output_action(&"out.mp42".to_owned()), OutputAction::WriteRaw);
    assert_eq!(output_action(&".mp4".to_owned()), OutputAction::WriteRaw);
    assert_eq!(output_action(&"dir/.mp4".to_owned()), OutputAction::WriteRaw);
    assert_eq!(output_action(&"a.mp4".to_owned()), OutputAction::MuxMp4);
    assert_eq!(output_action(&String::new()), OutputAction::WriteRaw);
}
