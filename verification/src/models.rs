//! Configuration types for the image-to-video pipeline.
//!
//! A `Config` names the source images, the target geometry, the frame
//! timing and the codec; it is built once by the caller and read-only
//! while a job runs.

use vstd::prelude::*;

verus! {

/// Relies on String::push_str, documented to append the given string
/// slice onto the end of this String.
pub assume_specification[ String::push_str ](s: &mut String, other: &str)
    ensures
        final(s)@ == old(s)@ + other@,
;

pub const DEFAULT_WIDTH: u32 = 1920;

pub const DEFAULT_HEIGHT: u32 = 1080;

pub const DEFAULT_FPS: u32 = 60;

/// The default repetition factor: how many encoder frames one source
/// image contributes when the configuration does not say.
pub const DEFAULT_FPI: u32 = 3;

/// Pixel layouts a caller may ask for. Only the packed layouts
/// (`RGB`, `BGR`, `BGRA`) have a defined mapping from normalized
/// frames; the planar and interleaved-luma layouts are recognized in
/// the configuration but rejected by the plane mapper.
#[derive(Clone, Copy, PartialEq, Eq, Structural, Debug)]
pub enum Colorspace {
    I420,
    YV12,
    NV12,
    NV21,
    I422,
    YV16,
    NV16,
    YUYV,
    UYVY,
    V210,
    I444,
    YV24,
    BGR,
    BGRA,
    RGB,
}

/// The two codec families: a streaming planar encoder and a
/// synchronous packed-pixel encoder.
#[derive(Clone, Copy, PartialEq, Eq, Structural, Debug)]
pub enum VideoEncoding {
    AV1,
    H264,
}

/// Target geometry of one frame.
#[derive(Clone, Copy, PartialEq, Eq, Structural, Debug)]
pub struct Resolution {
    pub height: u32,
    pub width: u32,
}

/// Every failure of a job, as a typed error carrying a readable cause.
#[derive(Debug)]
pub enum VideoError {
    /// The configuration was rejected before any image was opened:
    /// an empty image list, fps outside `[1, 60]`, a zero repetition
    /// factor, a zero dimension, or a frame too large to address.
    Config(String),
    /// A source image could not be read.
    ImageLoad(String),
    /// A source image was read but could not be decoded.
    ImageDecode(String),
    /// The configured colorspace has no defined packed mapping.
    UnsupportedColorspace(String),
    /// A plane's stride does not agree with the buffer handed over.
    DimensionMismatch(String),
    /// The encoder rejected the geometry or its own configuration.
    EncoderInit(String),
    /// A frame submission failed fatally.
    Encode(String),
    /// Draining packets failed with something other than the
    /// end-of-stream sentinel.
    PacketRead(String),
    /// An unrecoverable native fault was caught at the encode boundary.
    EncodingPanic(String),
    /// The destination path could not be created or written.
    OutputPath(String),
}

impl VideoError {
    /// The human-readable cause carried by every variant.
    pub fn message(&self) -> (r: &String)
        ensures
            r@ == self.spec_message(),
    {
        match self {
            VideoError::Config(m) => m,
            VideoError::ImageLoad(m) => m,
            VideoError::ImageDecode(m) => m,
            VideoError::UnsupportedColorspace(m) => m,
            VideoError::DimensionMismatch(m) => m,
            VideoError::EncoderInit(m) => m,
            VideoError::Encode(m) => m,
            VideoError::PacketRead(m) => m,
            VideoError::EncodingPanic(m) => m,
            VideoError::OutputPath(m) => m,
        }
    }

    pub open spec fn spec_message(&self) -> Seq<char> {
        match self {
            VideoError::Config(m) => m@,
            VideoError::ImageLoad(m) => m@,
            VideoError::ImageDecode(m) => m@,
            VideoError::UnsupportedColorspace(m) => m@,
            VideoError::DimensionMismatch(m) => m@,
            VideoError::EncoderInit(m) => m@,
            VideoError::Encode(m) => m@,
            VideoError::PacketRead(m) => m@,
            VideoError::EncodingPanic(m) => m@,
            VideoError::OutputPath(m) => m@,
        }
    }
}

/// The immutable input of one conversion job.
pub struct Config {
    /// Paths of the images to convert, in presentation order.
    pub images: Vec<String>,
    pub fps: Option<u32>,
    pub height: Option<u32>,
    pub width: Option<u32>,
    pub colorspace: Option<Colorspace>,
    pub output_path: Option<String>,
    /// Frames per image: the repetition factor.
    pub fpi: Option<u32>,
    pub video_encoding: VideoEncoding,
}

impl Config {
    pub fn new() -> (c: Config)
        ensures
            c.images@.len() == 0,
            c.fps == Some(30u32),
            c.height == Some(1920u32),
            c.width == Some(1080u32),
            c.colorspace == Some(Colorspace::RGB),
            c.output_path is None,
            c.fpi == Some(3u32),
            c.video_encoding == VideoEncoding::H264,
    {
        Config {
            images: Vec::new(),
            fps: Some(30),
            height: Some(1920),
            width: Some(1080),
            colorspace: Some(Colorspace::RGB),
            output_path: None,
            fpi: Some(3),
            video_encoding: VideoEncoding::H264,
        }
    }

    pub fn create_config(
        images: Vec<String>,
        fps: Option<u32>,
        height: Option<u32>,
        width: Option<u32>,
        colorspace: Option<Colorspace>,
        output_path: Option<String>,
    ) -> (c: Config)
        ensures
            c.images == images,
            c.fps == fps,
            c.height == height,
            c.width == width,
            c.colorspace == colorspace,
            c.output_path == output_path,
            c.fpi == Some(3u32),
            c.video_encoding == VideoEncoding::H264,
    {
        Config { images, fps, height, width, colorspace, output_path, fpi: Some(3), video_encoding: VideoEncoding::H264 }
    }

    pub fn default_config_with_images(images: Vec<String>) -> (c: Config)
        ensures
            c.images == images,
            c.fps == Some(30u32),
            c.height == Some(1920u32),
            c.width == Some(1080u32),
            c.colorspace == Some(Colorspace::RGB),
            c.output_path is None,
            c.fpi == Some(3u32),
            c.video_encoding == VideoEncoding::H264,
    {
        Config {
            images,
            fps: Some(30),
            height: Some(1920),
            width: Some(1080),
            colorspace: Some(Colorspace::RGB),
            output_path: None,
            fpi: Some(3),
            video_encoding: VideoEncoding::H264,
        }
    }

    /// Appends every given path to the image list, keeping order.
    pub fn add_images(&mut self, images: Vec<String>)
        ensures
            final(self).images@ == old(self).images@ + images@,
            final(self).fps == old(self).fps,
            final(self).height == old(self).height,
            final(self).width == old(self).width,
            final(self).colorspace == old(self).colorspace,
            final(self).output_path == old(self).output_path,
            final(self).fpi == old(self).fpi,
            final(self).video_encoding == old(self).video_encoding,
    {
        self.images.extend_from_slice(images.as_slice());
    }

    pub fn add_image(&mut self, image: String)
        ensures
            final(self).images@ == old(self).images@.push(image),
            final(self).fps == old(self).fps,
            final(self).height == old(self).height,
            final(self).width == old(self).width,
            final(self).colorspace == old(self).colorspace,
            final(self).output_path == old(self).output_path,
            final(self).fpi == old(self).fpi,
            final(self).video_encoding == old(self).video_encoding,
    {
        self.images.push(image);
    }

    pub fn fps(&mut self, fps: u32)
        ensures
            *final(self) == (Config { fps: Some(fps), ..*old(self) }),
    {
        self.fps = Some(fps);
    }

    pub fn output_path(&mut self, output_path: String)
        ensures
            *final(self) == (Config { output_path: Some(output_path), ..*old(self) }),
    {
        self.output_path = Some(output_path);
    }

    pub fn colorspace(&mut self, cs: Colorspace)
        ensures
            *final(self) == (Config { colorspace: Some(cs), ..*old(self) }),
    {
        self.colorspace = Some(cs);
    }

    pub fn resolustion(&mut self, width: u32, height: u32)
        ensures
            *final(self) == (Config { width: Some(width), height: Some(height), ..*old(self) }),
    {
        self.width = Some(width);
        self.height = Some(height);
    }
}

} // verus!
