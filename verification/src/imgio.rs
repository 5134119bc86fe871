//! The image normalizer.
//!
//! Each source image is loaded from its path, resized to the target
//! geometry with a fixed resampling filter, and handed on as a packed
//! RGB frame. One unreadable or undecodable image fails the whole job;
//! every frame that comes out has the identical geometry, so no later
//! stage needs per-frame dimension checks.

use vstd::prelude::*;
use crate::frames::RgbFrame;
use crate::models::VideoError;

verus! {

#[verifier::external_type_specification]
#[verifier::external_body]
pub struct ExDynamicImage(image::DynamicImage);

/// The resampling filters a codec path may choose. The choice is a
/// fidelity policy, applied consistently per path, not a correctness
/// question.
#[derive(Clone, Copy, PartialEq, Eq, Structural, Debug)]
pub enum ResampleFilter {
    CatmullRom,
    Lanczos3,
    Triangle,
}

/// Relies on image::open: reads the file at `path` and decodes it.
/// What comes back depends on what is on disk, so nothing is promised
/// of the image; a failure is an I/O error (the file could not be
/// read) or any other of the decoder's errors, told apart here so the
/// caller sees an `ImageLoad` only for an unreadable file.
#[verifier::external_body]
fn open_image(path: &String) -> (r: Result<image::DynamicImage, VideoError>)
    ensures
        r matches Err(e) ==> e is ImageLoad || e is ImageDecode,
{
    match image::open(path) {
        Ok(img) => Ok(img),
        Err(image::ImageError::IoError(e)) => Err(VideoError::ImageLoad(
            format!("Failed to open image: {}", e),
        )),
        Err(e) => Err(VideoError::ImageDecode(format!("Failed to decode image: {}", e))),
    }
}

/// Relies on DynamicImage::resize_exact, which returns a new image of
/// exactly the given dimensions ignoring aspect ratio, and on
/// to_rgb8/into_raw, which lay that image out as three bytes per
/// pixel, row-major: the returned buffer holds exactly
/// `3 * width * height` bytes. The pixel values depend on the image
/// alone; nothing is promised of them.
#[verifier::external_body]
fn resample_to_rgb(img: &image::DynamicImage, width: u32, height: u32, filter: &ResampleFilter) -> (r: Vec<u8>)
    requires
        width >= 1,
        height >= 1,
        3 * width * height <= usize::MAX,
    ensures
        r@.len() == 3 * width * height,
{
    let f = match filter {
        ResampleFilter::CatmullRom => image::imageops::FilterType::CatmullRom,
        ResampleFilter::Lanczos3 => image::imageops::FilterType::Lanczos3,
        ResampleFilter::Triangle => image::imageops::FilterType::Triangle,
    };
    img.resize_exact(width, height, f).to_rgb8().into_raw()
}

/// Loads one source image and normalizes it to the target geometry.
pub fn load_frame(path: &String, width: u32, height: u32, filter: &ResampleFilter) -> (r: Result<
    RgbFrame,
    VideoError,
>)
    requires
        width >= 1,
        height >= 1,
        3 * width * height <= usize::MAX,
    ensures
        r matches Ok(f) ==> f.wf() && f.width == width && f.height == height,
        r matches Err(e) ==> e is ImageLoad || e is ImageDecode,
{
    match open_image(path) {
        Ok(img) => {
            let data = resample_to_rgb(&img, width, height, filter);
            Ok(RgbFrame { width, height, data })
        },
        Err(e) => Err(e),
    }
}

/// Normalizes every source image to the identical geometry, in input
/// order. The first unreadable or undecodable image fails the job;
/// nothing is produced then.
pub fn normalize_images(paths: &Vec<String>, width: u32, height: u32, filter: &ResampleFilter) -> (r:
    Result<Vec<RgbFrame>, VideoError>)
    requires
        width >= 1,
        height >= 1,
        3 * width * height <= usize::MAX,
    ensures
        r matches Ok(v) ==> {
            &&& v@.len() == paths@.len()
            &&& forall|i: int|
                0 <= i < v@.len() ==> (#[trigger] v@[i]).wf() && v@[i].width == width
                    && v@[i].height == height
        },
        r matches Err(e) ==> e is ImageLoad || e is ImageDecode,
{
    let mut frames: Vec<RgbFrame> = Vec::new();
    let n: usize = paths.len();
    let mut i: usize = 0;
    while i < n
        invariant
            width >= 1,
            height >= 1,
            3 * width * height <= usize::MAX,
            n == paths@.len(),
            i <= n,
            frames@.len() == i,
            forall|j: int|
                0 <= j < i ==> (#[trigger] frames@[j]).wf() && frames@[j].width == width
                    && frames@[j].height == height,
        decreases n - i,
    {
        let frame = match load_frame(&paths[i], width, height, filter) {
            Ok(f) => f,
            Err(e) => {
                return Err(e);
            },
        };
        frames.push(frame);
        i = i + 1;
    }
    Ok(frames)
}

} // verus!
