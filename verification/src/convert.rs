//! Job validation and the conversion entry point.
//!
//! A configuration is checked before any image is opened: the image
//! list must be non-empty, the frame rate within `[1, 60]`, the
//! repetition factor positive, both dimensions positive, and the frame
//! and schedule sizes addressable on this machine. Only a valid job
//! reaches the normalizer and an encoder.

use vstd::prelude::*;
use crate::av1::images_to_av1_video;
use crate::h264::{images_to_h264_video, H264Job};
use crate::models::{Colorspace, Config, VideoEncoding, VideoError, DEFAULT_FPS, DEFAULT_FPI, DEFAULT_HEIGHT, DEFAULT_WIDTH};

verus! {

/// The effective parameters of a validated job: every optional field
/// of the configuration resolved to its default.
#[derive(Clone, Copy, PartialEq, Eq, Structural, Debug)]
pub struct JobParams {
    pub width: u32,
    pub height: u32,
    pub fps: u32,
    pub reps: u32,
    pub colorspace: Colorspace,
    pub encoding: VideoEncoding,
}

pub open spec fn spec_eff_fps(c: &Config) -> u32 {
    match c.fps {
        Some(f) => f,
        None => DEFAULT_FPS,
    }
}

pub open spec fn spec_eff_width(c: &Config) -> u32 {
    match c.width {
        Some(w) => w,
        None => DEFAULT_WIDTH,
    }
}

pub open spec fn spec_eff_height(c: &Config) -> u32 {
    match c.height {
        Some(h) => h,
        None => DEFAULT_HEIGHT,
    }
}

pub open spec fn spec_eff_reps(c: &Config) -> u32 {
    match c.fpi {
        Some(r) => r,
        None => DEFAULT_FPI,
    }
}

pub open spec fn spec_eff_colorspace(c: &Config) -> Colorspace {
    match c.colorspace {
        Some(cs) => cs,
        None => Colorspace::RGB,
    }
}

/// When a configuration is accepted: a non-empty image list, frame
/// rate within `[1, 60]`, a positive repetition factor, positive
/// dimensions, and frame buffers and the submission schedule small
/// enough to address on this machine.
pub open spec fn spec_valid_config(c: &Config) -> bool {
    &&& c.images@.len() >= 1
    &&& 1 <= spec_eff_fps(c) <= 60
    &&& spec_eff_reps(c) >= 1
    &&& spec_eff_width(c) >= 1
    &&& spec_eff_height(c) >= 1
    &&& 4 * spec_eff_width(c) * spec_eff_height(c) <= usize::MAX
    &&& c.images@.len() * spec_eff_reps(c) <= usize::MAX
}

/// The parameters `validate_config` hands out for a valid
/// configuration.
pub open spec fn spec_params(c: &Config) -> JobParams {
    JobParams {
        width: spec_eff_width(c),
        height: spec_eff_height(c),
        fps: spec_eff_fps(c),
        reps: spec_eff_reps(c),
        colorspace: spec_eff_colorspace(c),
        encoding: c.video_encoding,
    }
}

/// Checks a configuration before any work begins. Exactly the valid
/// configurations pass; every rejection is a `Config` error.
pub fn validate_config(config: &Config) -> (r: Result<JobParams, VideoError>)
    ensures
        r is Ok <==> spec_valid_config(config),
        r matches Ok(p) ==> p == spec_params(config),
        r matches Err(e) ==> e is Config,
{
    if config.images.len() == 0 {
        return Err(VideoError::Config("No images were provided.".to_owned()));
    }
    let fps: u32 = match config.fps {
        Some(f) => f,
        None => DEFAULT_FPS,
    };
    if fps < 1 || fps > 60 {
        return Err(VideoError::Config("fps should be between 1 and 60.".to_owned()));
    }
    let reps: u32 = match config.fpi {
        Some(r) => r,
        None => DEFAULT_FPI,
    };
    if reps < 1 {
        return Err(VideoError::Config("frames per image should be at least 1.".to_owned()));
    }
    let width: u32 = match config.width {
        Some(w) => w,
        None => DEFAULT_WIDTH,
    };
    let height: u32 = match config.height {
        Some(h) => h,
        None => DEFAULT_HEIGHT,
    };
    if width < 1 || height < 1 {
        return Err(VideoError::Config("width and height should be at least 1.".to_owned()));
    }
    proof {
        assert(4 * (width as u128) * (height as u128) < u128::MAX) by (nonlinear_arith)
            requires width <= u32::MAX, height <= u32::MAX;
    }
    if 4u128 * (width as u128) * (height as u128) > usize::MAX as u128 {
        return Err(VideoError::Config("target frame size does not fit in memory.".to_owned()));
    }
    let n: usize = config.images.len();
    proof {
        assert((n as u128) * (reps as u128) < u128::MAX) by (nonlinear_arith)
            requires n <= usize::MAX, reps <= u32::MAX;
    }
    if (n as u128) * (reps as u128) > usize::MAX as u128 {
        return Err(VideoError::Config("too many frames to schedule.".to_owned()));
    }
    Ok(JobParams { width, height, fps, reps, colorspace: match config.colorspace {
        Some(cs) => cs,
        None => Colorspace::RGB,
    }, encoding: config.video_encoding })
}

/// What one conversion call yields: the streaming codec finishes in
/// the library, the synchronous codec hands the host a prepared job to
/// run under the verified driver.
pub enum Conversion {
    /// The finished bitstream.
    Encoded(Vec<u8>),
    /// A validated, normalized, packed job for the host's encoder.
    Prepared(H264Job),
}

/// The single entry point of a job: rejects an invalid configuration
/// before any image is opened, then runs the codec path the
/// configuration picks. No output of any kind exists on an error.
pub fn convert_images_to_video(config: &Config) -> (r: Result<Conversion, VideoError>)
    ensures
        !spec_valid_config(config) ==> r is Err,
        r matches Err(e) ==> (e is Config <==> !spec_valid_config(config)),
        r matches Err(e) ==> (e is Config || e is UnsupportedColorspace || e is ImageLoad
            || e is ImageDecode || e is EncoderInit || e is Encode || e is PacketRead),
        config.video_encoding is H264 ==> (r matches Err(e) ==> (e is Config
            || e is UnsupportedColorspace || e is ImageLoad || e is ImageDecode)),
        r matches Err(e) ==> (e is UnsupportedColorspace <==> config.video_encoding is H264
            && spec_valid_config(config)
            && crate::h264::spec_layout_of(spec_eff_colorspace(config)) is None),
        config.video_encoding is H264 && spec_valid_config(config)
            && crate::h264::spec_layout_of(spec_eff_colorspace(config)) is None ==> r is Err,
        r matches Ok(c) ==> (c is Encoded <==> config.video_encoding is AV1),
        r matches Ok(c) ==> (c matches Conversion::Prepared(job) ==> job.wf() && job.params
            == spec_params(config) && job.frames@.len() == config.images@.len()
            && crate::h264::spec_layout_of(spec_eff_colorspace(config)) == Some(job.layout)),
{
    match validate_config(config) {
        Ok(_) => {},
        Err(e) => {
            return Err(e);
        },
    }
    match config.video_encoding {
        VideoEncoding::H264 => match images_to_h264_video(config) {
            Ok(job) => Ok(Conversion::Prepared(job)),
            Err(e) => Err(e),
        },
        VideoEncoding::AV1 => match images_to_av1_video(config) {
            Ok(p) => Ok(Conversion::Encoded(p.0)),
            Err(e) => Err(e),
        },
    }
}

} // verus!
