use img2video::convert::{convert_images_to_video, validate_config};
use img2video::models::{Colorspace, Config, VideoEncoding, VideoError};

fn one_image_config() -> Config {
    let mut c = Config::new();
    c.add_image("a.png".to_owned());
    c
}

#[test]
fn default_config_values() {
    let c = Config::new();
    assert!(c.images.is_empty());
    assert_eq!(c.fps, Some(30));
    assert_eq!(c.height, Some(1920));
    assert_eq!(c.width, Some(1080));
    assert_eq!(c.colorspace, Some(Colorspace::RGB));
    assert!(c.output_path.is_none());
    assert_eq!(c.fpi, Some(3));
    assert_eq!(c.video_encoding, VideoEncoding::H264);
}

#[test]
fn create_config_keeps_arguments() {
    let c = Config::create_config(
        vec!["x.png".to_owned(), "y.png".to_owned()],
        Some(24),
        Some(720),
        Some(1280),
        Some(Colorspace::BGR),
        Some("out.mp4".to_owned()),
    );
    assert_eq!(c.images.len(), 2);
    assert_eq!(c.fps, Some(24));
    assert_eq!(c.height, Some(720));
    assert_eq!(c.width, Some(1280));
    assert_eq!(c.colorspace, Some(Colorspace::BGR));
    assert_eq!(c.output_path, Some("out.mp4".to_owned()));
    assert_eq!(c.fpi, Some(3));
}

#[test]
fn default_config_with_images_keeps_images() {
    let c = Config::default_config_with_images(vec!["p.png".to_owned()]);
    assert_eq!(c.images, vec!["p.png".to_owned()]);
    assert_eq!(c.fps, Some(30));
}

#[test]
fn setters_update_fields() {
    let mut c = Config::new();
    c.add_images(vec!["a.png".to_owned(), "b.png".to_owned()]);
    c.add_image("c.png".to_owned());
    assert_eq!(c.images.len(), 3);
    assert_eq!(c.images[2], "c.png".to_owned());
    c.fps(15);
    assert_eq!(c.fps, Some(15));
    c.output_path("v.raw".to_owned());
    assert_eq!(c.output_path, Some("v.raw".to_owned()));
    c.colorspace(Colorspace::BGRA);
    assert_eq!(c.colorspace, Some(Colorspace::BGRA));
    c.resolustion(640, 480);
    assert_eq!(c.width, Some(640));
    assert_eq!(c.height, Some(480));
}

#[test]
fn empty_image_list_is_config_error() {
    let c = Config::new();
    let r = validate_config(&c);
    assert!(matches!(r, Err(VideoError::Config(_))));
    let r2 = convert_images_to_video(&c);
    assert!(matches!(r2, Err(VideoError::Config(_))));
}

#[test]
fn fps_zero_is_rejected_before_any_image_is_opened() {
    let mut c = one_image_config();
    c.fps(0);
    assert!(matches!(validate_config(&c), Err(VideoError::Config(_))));
    assert!(matches!(convert_images_to_video(&c), Err(VideoError::Config(_))));
}

#[test]
fn fps_sixty_one_is_rejected() {
    let mut c = one_image_config();
    c.fps(61);
    assert!(matches!(validate_config(&c), Err(VideoError::Config(_))));
}

#[test]
fn fps_bounds_are_accepted() {
    let mut c = one_image_config();
    c.fps(1);
    assert!(validate_config(&c).is_ok());
    c.fps(60);
    let p = validate_config(&c).unwrap();
    assert_eq!(p.fps, 60);
    assert_eq!(p.reps, 3);
    assert_eq!(p.width, 1080);
    assert_eq!(p.height, 1920);
}

#[test]
fn zero_repetition_is_config_error() {
    let mut c = one_image_config();
    c.fpi = Some(0);
    assert!(matches!(validate_config(&c), Err(VideoError::Config(_))));
}

#[test]
fn zero_dimension_is_config_error() {
    let mut c = one_image_config();
    c.resolustion(0, 480);
    assert!(matches!(validate_config(&c), Err(VideoError::Config(_))));
}

#[test]
fn error_messages_are_carried() {
    let c = Config::new();
    match validate_config(&c) {
        Err(e) => assert_eq!(e.message(), "No images were provided."),
        Ok(_) => panic!("an empty image list must be rejected"),
    }
}

#[test]
fn plus_100_and_sum() {
    assert_eq!(img2video::plus_100(1), 101);
    assert_eq!(img2video::sum(-3, 5), 2);
}
