//! The synchronous packed-pixel encoder driver.
//!
//! This codec family is driven call-by-call: the host owns the real
//! encoder, and every decision — which image goes in next, at which
//! presentation index, what happens to the bytes that come back, and
//! when to flush and stop — is made here, in the `SyncDriver` state
//! machine. The host's loop only performs the action the driver asks
//! for and reports the outcome back, so the frame accounting and the
//! collected buffer are verified even though the encoder itself lives
//! outside.
//!
//! States run `AwaitStart -> Sending -> Flushing -> Finished`, with
//! `Failed` reachable from any of them; `Sending` submits exactly
//! `images * repetitions` frames, presentation indices counting up
//! from zero by one.

use vstd::prelude::*;
use crate::collect::{concat_chunks, Collector};
use crate::convert::{spec_eff_colorspace, spec_params, spec_valid_config, validate_config, JobParams};
use crate::frames::{pack_frame, PackedLayout};
use crate::imgio::{normalize_images, ResampleFilter};
use crate::models::{Colorspace, Config, VideoError};

verus! {

/// The defined packed mapping of each configurable colorspace, if any:
/// the packed orders map one to one; the planar and interleaved-luma
/// layouts have none here.
pub open spec fn spec_layout_of(cs: Colorspace) -> Option<PackedLayout> {
    match cs {
        Colorspace::RGB => Some(PackedLayout::Rgb),
        Colorspace::BGR => Some(PackedLayout::Bgr),
        Colorspace::BGRA => Some(PackedLayout::Bgra),
        _ => None,
    }
}

/// Picks the packed layout of a colorspace, exactly where one is
/// defined.
pub fn layout_of(cs: &Colorspace) -> (r: Option<PackedLayout>)
    ensures
        r == spec_layout_of(*cs),
{
    match cs {
        Colorspace::RGB => Some(PackedLayout::Rgb),
        Colorspace::BGR => Some(PackedLayout::Bgr),
        Colorspace::BGRA => Some(PackedLayout::Bgra),
        _ => None,
    }
}

/// A validated, normalized, packed job for the synchronous encoder:
/// everything the host loop needs, with the pixel work already done
/// and checked.
pub struct H264Job {
    pub params: JobParams,
    pub layout: PackedLayout,
    /// One packed pixel buffer per source image, in presentation
    /// order.
    pub frames: Vec<Vec<u8>>,
}

impl H264Job {
    pub open spec fn wf(&self) -> bool {
        &&& self.params.reps >= 1
        &&& self.frames@.len() * self.params.reps <= usize::MAX
        &&& forall|i: int|
            0 <= i < self.frames@.len() ==> (#[trigger] self.frames@[i])@.len()
                == self.layout.spec_bytes_per_pixel() * self.params.width * self.params.height
    }
}

/// What the host must do next.
pub enum H264Action {
    /// Build the encoder for this geometry and frame rate, then write
    /// its headers first.
    Start { fps: u32, width: u32, height: u32 },
    /// Submit image `image`'s packed buffer at presentation index
    /// `pts`.
    Encode { image: usize, pts: usize },
    /// Signal end-of-stream and drain the delayed frames.
    Flush,
    /// The buffer is complete.
    Finish,
    /// The job has failed; nothing more may be collected.
    Abort,
}

#[derive(Clone, Copy, PartialEq, Eq, Structural, Debug)]
pub enum DriverState {
    AwaitStart,
    Sending,
    Flushing,
    Finished,
    Failed,
}

/// The synchronous encoder's driver: owns the schedule position and
/// the collected bitstream; the host owns the encoder.
pub struct SyncDriver {
    params: JobParams,
    layout: PackedLayout,
    frames: Vec<Vec<u8>>,
    sent: usize,
    state: DriverState,
    out: Collector,
}

impl SyncDriver {
    pub closed spec fn state(&self) -> DriverState {
        self.state
    }

    /// Submissions accepted so far.
    pub closed spec fn sent(&self) -> int {
        self.sent as int
    }

    /// Total submissions owed: images times repetition factor.
    pub closed spec fn total(&self) -> int {
        self.frames@.len() * self.params.reps
    }

    /// The chunks collected so far, in arrival order: the headers
    /// first, then one chunk per encoder return.
    pub closed spec fn chunks(&self) -> Seq<Seq<u8>> {
        self.out.chunks()
    }

    /// The collected bitstream: the concatenation of the chunks.
    pub closed spec fn bytes(&self) -> Seq<u8> {
        self.out.bytes()
    }

    pub closed spec fn spec_params(&self) -> JobParams {
        self.params
    }

    pub closed spec fn spec_frames(&self) -> Seq<Seq<u8>> {
        Seq::new(self.frames@.len(), |i: int| self.frames@[i]@)
    }

    pub closed spec fn wf(&self) -> bool {
        &&& self.out.wf()
        &&& self.params.reps >= 1
        &&& 0 <= self.sent <= self.total()
        &&& self.total() <= usize::MAX
        &&& self.state is AwaitStart ==> self.sent == 0 && self.chunks().len() == 0
        &&& self.state is Sending ==> self.sent < self.total()
        &&& (self.state is Flushing || self.state is Finished) ==> self.sent == self.total()
    }

    /// The bitstream is always exactly the concatenation of the
    /// collected chunks, in arrival order.
    pub proof fn lemma_bytes_are_chunks(&self)
        requires
            self.wf(),
        ensures
            self.bytes() == concat_chunks(self.chunks()),
    {
        self.out.lemma_wf();
    }

    /// Law of the schedule: once the driver flushes or finishes, the
    /// submissions accepted are exactly `images * repetitions` — no
    /// image dropped, none repeated beyond its factor.
    pub proof fn lemma_all_submissions_made(&self)
        requires
            self.wf(),
            self.state() is Flushing || self.state() is Finished,
        ensures
            self.sent() == self.spec_frames().len() * self.spec_params().reps,
    {
    }

    /// Bounds of the submission total `images * repetitions`.
    proof fn lemma_total_bounds(len: int, reps: int)
        requires
            len >= 0,
            reps >= 1,
        ensures
            len * reps >= 0,
            len >= 1 ==> len * reps >= 1,
            len == 0 ==> len * reps == 0,
            len * reps >= len,
    {
        assert(len * reps >= 0 && (len >= 1 ==> len * reps >= 1) && (len == 0 ==> len * reps
            == 0) && len * reps >= len) by (nonlinear_arith)
            requires len >= 0, reps >= 1;
    }

    /// Starts a driver on a prepared job.
    pub fn new(job: H264Job) -> (d: SyncDriver)
        requires
            job.wf(),
        ensures
            d.wf(),
            d.state() is AwaitStart,
            d.sent() == 0,
            d.chunks() == Seq::<Seq<u8>>::empty(),
            d.spec_params() == job.params,
            d.spec_frames() == Seq::new(job.frames@.len(), |i: int| job.frames@[i]@),
            d.total() == job.frames@.len() * job.params.reps,
    {
        proof {
            Self::lemma_total_bounds(job.frames@.len() as int, job.params.reps as int);
        }
        SyncDriver {
            params: job.params,
            layout: job.layout,
            frames: job.frames,
            sent: 0,
            state: DriverState::AwaitStart,
            out: Collector::new(),
        }
    }

    /// The packed buffer of one image, for the host to hand to the
    /// encoder.
    pub fn frame_data(&self, image: usize) -> (r: &Vec<u8>)
        requires
            image < self.spec_frames().len(),
        ensures
            r@ == self.spec_frames()[image as int],
    {
        &self.frames[image]
    }

    /// What the host must do next, decided by the state alone. In
    /// `Sending`, submission `sent` presents image `sent / reps` at
    /// presentation index `sent`: indices are contiguous from zero,
    /// and each image occupies `reps` consecutive slots.
    pub fn next_action(&self) -> (r: H264Action)
        requires
            self.wf(),
        ensures
            self.state() is AwaitStart ==> r == (H264Action::Start {
                fps: self.spec_params().fps,
                width: self.spec_params().width,
                height: self.spec_params().height,
            }),
            self.state() is Sending ==> r == (H264Action::Encode {
                image: (self.sent() / self.spec_params().reps as int) as usize,
                pts: self.sent() as usize,
            }) && self.sent() < self.total(),
            self.state() is Flushing ==> r == H264Action::Flush,
            self.state() is Finished ==> r == H264Action::Finish,
            self.state() is Failed ==> r == H264Action::Abort,
    {
        match self.state {
            DriverState::AwaitStart => H264Action::Start {
                fps: self.params.fps,
                width: self.params.width,
                height: self.params.height,
            },
            DriverState::Sending => H264Action::Encode {
                image: self.sent / (self.params.reps as usize),
                pts: self.sent,
            },
            DriverState::Flushing => H264Action::Flush,
            DriverState::Finished => H264Action::Finish,
            DriverState::Failed => H264Action::Abort,
        }
    }

    /// The encoder was built and its headers read: they are the first
    /// chunk of the buffer. An empty job flushes at once.
    pub fn on_started(&mut self, headers: Vec<u8>)
        requires
            old(self).wf(),
            old(self).state() is AwaitStart,
        ensures
            final(self).wf(),
            final(self).chunks() == old(self).chunks().push(headers@),
            final(self).bytes() == old(self).bytes() + headers@,
            final(self).sent() == 0,
            final(self).state() == if final(self).total() > 0 {
                DriverState::Sending
            } else {
                DriverState::Flushing
            },
            final(self).total() == old(self).total(),
            final(self).spec_params() == old(self).spec_params(),
            final(self).spec_frames() == old(self).spec_frames(),
    {
        self.out.append(&headers);
        let n = self.frames.len();
        proof {
            Self::lemma_total_bounds(self.frames@.len() as int, self.params.reps as int);
        }
        if n > 0 {
            self.state = DriverState::Sending;
        } else {
            self.state = DriverState::Flushing;
        }
    }

    /// One submission returned: its bytes (possibly none — the encoder
    /// may delay) are appended in arrival order and the schedule moves
    /// on; after the last owed submission the driver flushes.
    pub fn on_encoded(&mut self, data: Vec<u8>)
        requires
            old(self).wf(),
            old(self).state() is Sending,
        ensures
            final(self).wf(),
            final(self).chunks() == old(self).chunks().push(data@),
            final(self).bytes() == old(self).bytes() + data@,
            final(self).sent() == old(self).sent() + 1,
            final(self).state() == if final(self).sent() == final(self).total() {
                DriverState::Flushing
            } else {
                DriverState::Sending
            },
            final(self).total() == old(self).total(),
            final(self).spec_params() == old(self).spec_params(),
            final(self).spec_frames() == old(self).spec_frames(),
    {
        self.out.append(&data);
        self.sent = self.sent + 1;
        proof {
            Self::lemma_total_bounds(self.frames@.len() as int, self.params.reps as int);
        }
        let total = self.frames.len() * (self.params.reps as usize);
        if self.sent == total {
            self.state = DriverState::Flushing;
        } else {
            self.state = DriverState::Sending;
        }
    }

    /// One delayed packet came out during the flush: appended, still
    /// flushing.
    pub fn on_flush_packet(&mut self, data: Vec<u8>)
        requires
            old(self).wf(),
            old(self).state() is Flushing,
        ensures
            final(self).wf(),
            final(self).chunks() == old(self).chunks().push(data@),
            final(self).bytes() == old(self).bytes() + data@,
            final(self).sent() == old(self).sent(),
            final(self).state() is Flushing,
            final(self).total() == old(self).total(),
            final(self).spec_params() == old(self).spec_params(),
            final(self).spec_frames() == old(self).spec_frames(),
    {
        self.out.append(&data);
    }

    /// The encoder reported no delayed frames left: the buffer is
    /// complete, nothing of it changes after this.
    pub fn on_flush_done(&mut self)
        requires
            old(self).wf(),
            old(self).state() is Flushing,
        ensures
            final(self).wf(),
            final(self).state() is Finished,
            final(self).chunks() == old(self).chunks(),
            final(self).bytes() == old(self).bytes(),
            final(self).sent() == old(self).sent(),
            final(self).total() == old(self).total(),
            final(self).spec_params() == old(self).spec_params(),
    {
        self.state = DriverState::Finished;
    }

    /// Any fatal host-side outcome: the job is failed and no further
    /// bytes may be collected.
    pub fn on_failed(&mut self)
        requires
            old(self).wf(),
        ensures
            final(self).wf(),
            final(self).state() is Failed,
            final(self).chunks() == old(self).chunks(),
            final(self).bytes() == old(self).bytes(),
    {
        self.state = DriverState::Failed;
    }

    /// Hands the finished bitstream out.
    pub fn finish(self) -> (r: Vec<u8>)
        requires
            self.wf(),
            self.state() is Finished,
        ensures
            r@ == self.bytes(),
    {
        self.out.into_bytes()
    }
}

/// Prepares the synchronous path: validates the configuration, picks
/// the packed layout the configured colorspace maps to, normalizes
/// every image, and packs each into that layout. The host runs the
/// returned job against the real encoder under `SyncDriver`'s
/// direction.
pub fn images_to_h264_video(config: &Config) -> (r: Result<H264Job, VideoError>)
    ensures
        r is Ok ==> spec_valid_config(config) && spec_layout_of(spec_eff_colorspace(config))
            is Some,
        r matches Err(e) ==> (e is Config <==> !spec_valid_config(config)),
        r matches Err(e) ==> (e is UnsupportedColorspace <==> spec_valid_config(config)
            && spec_layout_of(spec_eff_colorspace(config)) is None),
        r matches Err(e) ==> (e is Config || e is UnsupportedColorspace || e is ImageLoad
            || e is ImageDecode),
        r matches Ok(job) ==> {
            &&& job.wf()
            &&& job.params == spec_params(config)
            &&& spec_layout_of(spec_eff_colorspace(config)) == Some(job.layout)
            &&& job.frames@.len() == config.images@.len()
        },
{
    let params = match validate_config(config) {
        Ok(p) => p,
        Err(e) => {
            return Err(e);
        },
    };
    let layout = match layout_of(&params.colorspace) {
        Some(l) => l,
        None => {
            return Err(VideoError::UnsupportedColorspace(
                "the configured colorspace has no packed mapping.".to_owned(),
            ));
        },
    };
    proof {
        assert(3 * params.width * params.height <= 4 * params.width * params.height)
            by (nonlinear_arith)
            requires params.width >= 1, params.height >= 1;
    }
    let frames = match normalize_images(
        &config.images,
        params.width,
        params.height,
        &ResampleFilter::Lanczos3,
    ) {
        Ok(v) => v,
        Err(e) => {
            return Err(e);
        },
    };
    let n: usize = frames.len();
    let mut packed: Vec<Vec<u8>> = Vec::new();
    let mut i: usize = 0;
    while i < n
        invariant
            spec_valid_config(config),
            params == spec_params(config),
            n == frames@.len(),
            i <= n,
            packed@.len() == i,
            params.width >= 1,
            params.height >= 1,
            4 * params.width * params.height <= usize::MAX,
            forall|k: int|
                0 <= k < n ==> (#[trigger] frames@[k]).wf() && frames@[k].width == params.width
                    && frames@[k].height == params.height,
            forall|k: int|
                0 <= k < i ==> (#[trigger] packed@[k])@.len() == layout.spec_bytes_per_pixel()
                    * params.width * params.height,
        decreases n - i,
    {
        proof {
            let w = params.width as int;
            let h = params.height as int;
            assert(frames@[i as int].pixel_count() == w * h);
            assert(4 * (w * h) <= usize::MAX) by (nonlinear_arith)
                requires 4 * w * h <= usize::MAX;
        }
        let buf = pack_frame(&frames[i], &layout);
        proof {
            let w = params.width as int;
            let h = params.height as int;
            let b = layout.spec_bytes_per_pixel();
            assert(b * (w * h) == b * w * h) by (nonlinear_arith);
        }
        packed.push(buf);
        i = i + 1;
    }
    Ok(H264Job { params, layout, frames: packed })
}

} // verus!
