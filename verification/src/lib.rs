//! Turns an ordered list of still images into one encoded video
//! bitstream, behind a single configuration: images are normalized to
//! one geometry, mapped into the pixel layout the chosen codec wants,
//! scheduled with a per-image repetition factor, pushed through the
//! encoder, and collected into one buffer in emission order.

use vstd::prelude::*;
use crate::convert::{spec_valid_config, Conversion, JobParams};
use crate::models::{Colorspace, Config, VideoEncoding, VideoError, DEFAULT_FPS, DEFAULT_HEIGHT, DEFAULT_WIDTH};

pub mod av1;
pub mod collect;
pub mod convert;
pub mod frames;
pub mod h264;
pub mod imgio;
pub mod models;
pub mod output;
pub mod schedule;

verus! {

pub fn plus_100(input: u32) -> (r: u32)
    requires
        input + 100 <= u32::MAX,
    ensures
        r == input + 100,
{
    input + 100
}

pub fn sum(a: i32, b: i32) -> (r: i32)
    requires
        i32::MIN <= a + b <= i32::MAX,
    ensures
        r == a + b,
{
    a + b
}

/// When the plain-argument entry points accept their arguments: at
/// least one image, the frame rate (default when absent) within
/// `[1, 60]`, and the resolution (default when absent) positive and
/// addressable. Each image is presented once.
pub open spec fn spec_args_valid(
    images: Seq<String>,
    fps: Option<u32>,
    resolution: Option<(u32, u32)>,
) -> bool {
    let f = match fps {
        Some(f) => f,
        None => DEFAULT_FPS,
    };
    let wh = match resolution {
        Some(wh) => wh,
        None => (DEFAULT_WIDTH, DEFAULT_HEIGHT),
    };
    &&& images.len() >= 1
    &&& 1 <= f <= 60
    &&& wh.0 >= 1
    &&& wh.1 >= 1
    &&& 4 * wh.0 * wh.1 <= usize::MAX
    &&& images.len() <= usize::MAX
}

/// The effective parameters the plain-argument entry points run with:
/// the given frame rate and geometry or their defaults, the RGB packed
/// layout, one frame per image, the synchronous codec.
pub open spec fn spec_args_params(fps: Option<u32>, resolution: Option<(u32, u32)>) -> JobParams {
    JobParams {
        width: match resolution {
            Some(wh) => wh.0,
            None => DEFAULT_WIDTH,
        },
        height: match resolution {
            Some(wh) => wh.1,
            None => DEFAULT_HEIGHT,
        },
        fps: match fps {
            Some(f) => f,
            None => DEFAULT_FPS,
        },
        reps: 1u32,
        colorspace: Colorspace::RGB,
        encoding: VideoEncoding::H264,
    }
}

/// Converts the images into one synchronous-codec job, each presented
/// once at the given frame rate and geometry. The result is what the
/// job's entry point yields for the built configuration; the caller
/// runs the prepared job against its encoder.
pub fn convert_images_to_video(
    images: Vec<String>,
    fps: Option<u32>,
    resolution: Option<(u32, u32)>,
) -> (r: Result<Conversion, VideoError>)
    ensures
        !spec_args_valid(images@, fps, resolution) ==> r is Err,
        r matches Err(e) ==> (e is Config <==> !spec_args_valid(images@, fps, resolution)),
        r matches Ok(c) ==> (c matches Conversion::Prepared(job) && job.wf()
            && job.frames@.len() == images@.len()
            && job.params == spec_args_params(fps, resolution)),
        r matches Err(e) ==> (e is Config || e is ImageLoad || e is ImageDecode),
{
    let ghost gi = images@;
    let config = Config {
        images,
        fps,
        width: match resolution {
            Some(wh) => Some(wh.0),
            None => None,
        },
        height: match resolution {
            Some(wh) => Some(wh.1),
            None => None,
        },
        colorspace: Some(Colorspace::RGB),
        output_path: None,
        fpi: Some(1),
        video_encoding: VideoEncoding::H264,
    };
    proof {
        assert(spec_valid_config(&config) <==> spec_args_valid(gi, fps, resolution));
    }
    crate::convert::convert_images_to_video(&config)
}

/// As `convert_images_to_video`, with a destination path kept in the
/// configuration; persisting the finished bitstream there is the
/// caller's step, under the output sink's decision.
pub fn convert_images_to_video2(
    images: Vec<String>,
    fps: Option<u32>,
    resolution: Option<(u32, u32)>,
    output_path: Option<String>,
) -> (r: Result<Conversion, VideoError>)
    ensures
        !spec_args_valid(images@, fps, resolution) ==> r is Err,
        r matches Err(e) ==> (e is Config <==> !spec_args_valid(images@, fps, resolution)),
        r matches Ok(c) ==> (c matches Conversion::Prepared(job) && job.wf()
            && job.frames@.len() == images@.len()
            && job.params == spec_args_params(fps, resolution)),
        r matches Err(e) ==> (e is Config || e is ImageLoad || e is ImageDecode),
{
    let ghost gi = images@;
    let config = Config {
        images,
        fps,
        width: match resolution {
            Some(wh) => Some(wh.0),
            None => None,
        },
        height: match resolution {
            Some(wh) => Some(wh.1),
            None => None,
        },
        colorspace: Some(Colorspace::RGB),
        output_path,
        fpi: Some(1),
        video_encoding: VideoEncoding::H264,
    };
    proof {
        assert(spec_valid_config(&config) <==> spec_args_valid(gi, fps, resolution));
    }
    crate::convert::convert_images_to_video(&config)
}

} // verus!
