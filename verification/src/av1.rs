//! The streaming planar encoder driver.
//!
//! This path feeds the AV1 encoder: every normalized frame is split
//! into three planes (the R, G and B channels reused directly, as the
//! plane mapper documents), each plane is copied into the encoder's
//! frame with its subsampled stride, the frame is submitted once per
//! scheduled repetition, available packets are drained after every
//! submission, and after the end-of-stream signal the encoder is
//! drained to its exhaustion sentinel. Packets land in the collector
//! strictly in emission order.

use vstd::prelude::*;
use crate::collect::{concat_chunks, extends, Collector};
use crate::convert::{spec_params, spec_valid_config, validate_config, JobParams};
use crate::frames::{extract_channel, plane_stride, RgbFrame};
use crate::imgio::{normalize_images, ResampleFilter};
use crate::models::{Config, VideoError};
use crate::schedule::{build_schedule, lemma_schedule_image_in_range};

verus! {

/// An encoder context, opaque here: Verus refuses the declaration of
/// the encoder's own generic type, so the value is held in a hidden
/// field and reached only through the trusted wrappers below.
#[verifier::external_body]
pub struct Av1Context {
    inner: rav1e::Context<u8>,
}

/// An encoder frame of three planes, opaque here for the same reason.
#[verifier::external_body]
pub struct Av1Frame {
    inner: rav1e::Frame<u8>,
}

/// The encoder's own status words, one for one: what `send_frame` and
/// `receive_packet` report besides a packet.
#[derive(Clone, Copy, PartialEq, Eq, Structural, Debug)]
pub enum Av1Status {
    NeedMoreData,
    EnoughData,
    LimitReached,
    Encoded,
    Failure,
    NotReady,
}

/// The readable word of each encoder status.
pub open spec fn spec_status_message(st: Av1Status) -> Seq<char> {
    match st {
        Av1Status::NeedMoreData => "need more data"@,
        Av1Status::EnoughData => "enough data"@,
        Av1Status::LimitReached => "limit reached"@,
        Av1Status::Encoded => "encoded"@,
        Av1Status::Failure => "failure"@,
        Av1Status::NotReady => "not ready"@,
    }
}

/// A readable word for each encoder status.
pub fn status_message(st: &Av1Status) -> (r: String)
    ensures
        r@ == spec_status_message(*st),
        r@.len() > 0,
{
    let msg: &str = match st {
        Av1Status::NeedMoreData => "need more data",
        Av1Status::EnoughData => "enough data",
        Av1Status::LimitReached => "limit reached",
        Av1Status::Encoded => "encoded",
        Av1Status::Failure => "failure",
        Av1Status::NotReady => "not ready",
    };
    let r = msg.to_owned();
    proof {
        reveal_strlit("need more data");
        reveal_strlit("enough data");
        reveal_strlit("limit reached");
        reveal_strlit("encoded");
        reveal_strlit("failure");
        reveal_strlit("not ready");
    }
    r
}

/// Relies on rav1e's Config::new, Config::with_encoder_config and
/// Config::new_context: builds an encoder context for the given
/// geometry with the default (4:2:0) chroma sampling and the given
/// speed preset. new_context validates the configuration and returns
/// an error for a width or height outside `[16, 65535]`; from_preset
/// accepts any speed.
#[verifier::external_body]
fn av1_new_context(width: usize, height: usize, speed: u8) -> (r: Result<
    Av1Context,
    String,
>)
    ensures
        width < 16 || width > 65535 || height < 16 || height > 65535 ==> r is Err,
{
    let enc = rav1e::EncoderConfig {
        width,
        height,
        speed_settings: rav1e::config::SpeedSettings::from_preset(speed),
        ..Default::default()
    };
    let cfg = rav1e::Config::new().with_encoder_config(enc);
    cfg.new_context().map(|c| Av1Context { inner: c }).map_err(|e| format!("Failed to create context: {:?}", e))
}

/// Relies on Context::new_frame: allocates a frame whose three planes
/// match the context's geometry and chroma sampling.
#[verifier::external_body]
fn av1_new_frame(ctx: &Av1Context) -> (r: Av1Frame) {
    Av1Frame { inner: ctx.inner.new_frame() }
}

/// Relies on the frame's public plane configuration: `xdec` is the
/// plane's horizontal subsampling shift. Frames here come from
/// Context::new_frame, whose chroma samplings decimate by at most one
/// bit per axis, so the shift is 0 or 1.
#[verifier::external_body]
fn av1_plane_xdec(frame: &Av1Frame, i: usize) -> (r: usize)
    requires
        i < 3,
    ensures
        r <= 1,
{
    frame.inner.planes[i].cfg.xdec
}

/// Relies on Plane::copy_from_raw_u8: copies the source bytes row by
/// row, `stride` source bytes per plane row, into plane `i`. It
/// asserts both strides are non-zero; a frame from Context::new_frame
/// has positive plane strides because the encoder rejects zero
/// dimensions, and the caller supplies a positive source stride.
#[verifier::external_body]
fn av1_fill_plane(frame: &mut Av1Frame, i: usize, data: &Vec<u8>, stride: usize)
    requires
        i < 3,
        stride >= 1,
{
    frame.inner.planes[i].copy_from_raw_u8(data.as_slice(), stride, 1);
}

/// Relies on Context::send_frame with a frame value: queues the frame
/// for encoding. It fails only with a status word (after a flush, or
/// at the encoder's internal frame limit); the queue is unbounded, so
/// there is no transient rejection to retry and no frame is ever
/// dropped on the success path.
#[verifier::external_body]
fn av1_send_frame(ctx: &mut Av1Context, frame: &Av1Frame) -> (r: Result<
    (),
    Av1Status,
>) {
    match ctx.inner.send_frame(frame.inner.clone()) {
        Ok(()) => Ok(()),
        Err(rav1e::EncoderStatus::NeedMoreData) => Err(Av1Status::NeedMoreData),
        Err(rav1e::EncoderStatus::EnoughData) => Err(Av1Status::EnoughData),
        Err(rav1e::EncoderStatus::LimitReached) => Err(Av1Status::LimitReached),
        Err(rav1e::EncoderStatus::Encoded) => Err(Av1Status::Encoded),
        Err(rav1e::EncoderStatus::Failure) => Err(Av1Status::Failure),
        Err(rav1e::EncoderStatus::NotReady) => Err(Av1Status::NotReady),
    }
}

/// Relies on Context::flush: signals end-of-stream. Documented to
/// panic only if sending the end-of-stream marker itself fails, which
/// the encoder's own documentation rules out.
#[verifier::external_body]
fn av1_flush(ctx: &mut Av1Context) {
    ctx.inner.flush();
}

/// Relies on Context::receive_packet: hands out the next packet's
/// bytes in emission order, or the status word saying why none is
/// ready. What comes back depends on the encoder's internal state, so
/// nothing more is promised of it.
#[verifier::external_body]
fn av1_receive_packet(ctx: &mut Av1Context) -> (r: Result<Vec<u8>, Av1Status>) {
    match ctx.inner.receive_packet() {
        Ok(pkt) => Ok(pkt.data),
        Err(rav1e::EncoderStatus::NeedMoreData) => Err(Av1Status::NeedMoreData),
        Err(rav1e::EncoderStatus::EnoughData) => Err(Av1Status::EnoughData),
        Err(rav1e::EncoderStatus::LimitReached) => Err(Av1Status::LimitReached),
        Err(rav1e::EncoderStatus::Encoded) => Err(Av1Status::Encoded),
        Err(rav1e::EncoderStatus::Failure) => Err(Av1Status::Failure),
        Err(rav1e::EncoderStatus::NotReady) => Err(Av1Status::NotReady),
    }
}

/// Copies a normalized frame into the encoder frame's three planes:
/// plane `i` takes channel `i` of the packed RGB bytes, with the
/// stride the plane's subsampling asks for.
fn fill_av1_frame(frame: &mut Av1Frame, img: &RgbFrame)
    requires
        img.wf(),
        4 * img.width * img.height <= usize::MAX,
{
    proof {
        assert(img.width + 1 <= usize::MAX && img.width as usize <= usize::MAX) by (nonlinear_arith)
            requires
                img.width >= 1,
                img.height >= 1,
                4 * img.width * img.height <= usize::MAX;
    }
    let mut i: usize = 0;
    while i < 3
        invariant
            img.wf(),
            img.width + 1 <= usize::MAX,
            i <= 3,
        decreases 3 - i,
    {
        let xdec = av1_plane_xdec(frame, i);
        let stride = plane_stride(img.width as usize, xdec);
        let channel = extract_channel(&img.data, 3, i);
        av1_fill_plane(frame, i, &channel, stride);
        i = i + 1;
    }
}

/// Drains every packet the encoder has ready mid-stream, appending
/// each to the collector in emission order. Stops when the encoder
/// asks for more input; fails on a fatal status.
fn drain_ready(ctx: &mut Av1Context, out: &mut Collector) -> (r: Result<(), VideoError>)
    requires
        old(out).wf(),
    ensures
        final(out).wf(),
        extends(old(out).chunks(), final(out).chunks()),
        r matches Err(e) ==> e is PacketRead,
{
    let mut fuel: u64 = u64::MAX;
    proof {
        assert(out.chunks().subrange(0, out.chunks().len() as int) =~= out.chunks());
    }
    loop
        invariant
            out.wf(),
            extends(old(out).chunks(), out.chunks()),
        decreases fuel,
    {
        if fuel == 0 {
            return Err(VideoError::PacketRead("packet drain did not settle.".to_owned()));
        }
        fuel = fuel - 1;
        match av1_receive_packet(ctx) {
            Ok(bytes) => {
                out.append(&bytes);
                proof {
                    assert(out.chunks().subrange(0, old(out).chunks().len() as int)
                        =~= old(out).chunks());
                }
            },
            Err(Av1Status::NeedMoreData) => {
                return Ok(());
            },
            Err(Av1Status::LimitReached) => {
                return Ok(());
            },
            Err(Av1Status::Encoded) => {},
            Err(st) => {
                let mut msg = "Failed to read packet: ".to_owned();
                msg.push_str(status_message(&st).as_str());
                return Err(VideoError::PacketRead(msg));
            },
        }
    }
}

/// Drains the flushing encoder to its exhaustion sentinel, appending
/// every packet to the collector in emission order. Only the
/// end-of-stream sentinel ends the job well; a fatal status fails it.
fn drain_flush(ctx: &mut Av1Context, out: &mut Collector) -> (r: Result<(), VideoError>)
    requires
        old(out).wf(),
    ensures
        final(out).wf(),
        extends(old(out).chunks(), final(out).chunks()),
        r matches Err(e) ==> e is PacketRead,
{
    let mut fuel: u64 = u64::MAX;
    proof {
        assert(out.chunks().subrange(0, out.chunks().len() as int) =~= out.chunks());
    }
    loop
        invariant
            out.wf(),
            extends(old(out).chunks(), out.chunks()),
        decreases fuel,
    {
        if fuel == 0 {
            return Err(VideoError::PacketRead("packet drain did not settle.".to_owned()));
        }
        fuel = fuel - 1;
        match av1_receive_packet(ctx) {
            Ok(bytes) => {
                out.append(&bytes);
                proof {
                    assert(out.chunks().subrange(0, old(out).chunks().len() as int)
                        =~= old(out).chunks());
                }
            },
            Err(Av1Status::LimitReached) => {
                return Ok(());
            },
            Err(Av1Status::Encoded) => {},
            Err(Av1Status::NeedMoreData) => {},
            Err(st) => {
                let mut msg = "Failed to read packet: ".to_owned();
                msg.push_str(status_message(&st).as_str());
                return Err(VideoError::PacketRead(msg));
            },
        }
    }
}

/// The geometry the streaming encoder accepts for video.
pub open spec fn spec_av1_geometry_ok(p: JobParams) -> bool {
    &&& 16 <= p.width <= 65535
    &&& 16 <= p.height <= 65535
}

/// Runs the whole streaming path: validates the configuration,
/// normalizes every image, submits each frame once per repetition in
/// presentation order, drains after every submission, flushes, and
/// hands back the collected bitstream beside the ghost list of the
/// packets that built it: the bytes are their concatenation in
/// emission order, nothing transformed and nothing resorted.
pub fn images_to_av1_video(config: &Config) -> (r: Result<
    (Vec<u8>, Ghost<Seq<Seq<u8>>>),
    VideoError,
>)
    ensures
        r matches Ok(p) ==> p.0@ == concat_chunks(p.1@),
        !spec_valid_config(config) ==> r is Err,
        r matches Err(e) ==> (e is Config <==> !spec_valid_config(config)),
        r matches Err(e) ==> (e is Config || e is ImageLoad || e is ImageDecode
            || e is EncoderInit || e is Encode || e is PacketRead),
        spec_valid_config(config) && !spec_av1_geometry_ok(spec_params(config)) ==> (r matches
            Err(e) && (e is ImageLoad || e is ImageDecode || e is EncoderInit)),
{
    let params = match validate_config(config) {
        Ok(p) => p,
        Err(e) => {
            return Err(e);
        },
    };
    proof {
        assert(3 * params.width * params.height <= 4 * params.width * params.height)
            by (nonlinear_arith)
            requires params.width >= 1, params.height >= 1;
    }
    let frames = match normalize_images(
        &config.images,
        params.width,
        params.height,
        &ResampleFilter::CatmullRom,
    ) {
        Ok(v) => v,
        Err(e) => {
            return Err(e);
        },
    };
    let mut ctx = match av1_new_context(params.width as usize, params.height as usize, 9) {
        Ok(c) => c,
        Err(msg) => {
            return Err(VideoError::EncoderInit(msg));
        },
    };
    proof {
        assert(spec_av1_geometry_ok(params));
    }
    let mut out = Collector::new();
    let n: usize = frames.len();
    let mut enc_frames: Vec<Av1Frame> = Vec::new();
    let mut i: usize = 0;
    while i < n
        invariant
            n == frames@.len(),
            i <= n,
            enc_frames@.len() == i,
            params.width >= 1,
            params.height >= 1,
            4 * params.width * params.height <= usize::MAX,
            forall|k: int|
                0 <= k < n ==> (#[trigger] frames@[k]).wf() && frames@[k].width == params.width
                    && frames@[k].height == params.height,
        decreases n - i,
    {
        let mut frame = av1_new_frame(&ctx);
        fill_av1_frame(&mut frame, &frames[i]);
        enc_frames.push(frame);
        i = i + 1;
    }
    let sched = build_schedule(n, params.reps as usize);
    let total: usize = sched.len();
    let mut k: usize = 0;
    while k < total
        invariant
            spec_valid_config(config),
            spec_av1_geometry_ok(spec_params(config)),
            n == enc_frames@.len(),
            total == sched@.len(),
            total == n * params.reps,
            params.reps >= 1,
            k <= total,
            out.wf(),
            forall|j: int| 0 <= j < total ==> (#[trigger] sched@[j]).pts == j,
            forall|j: int| 0 <= j < total ==> (#[trigger] sched@[j]).image
                == j / (params.reps as int),
        decreases total - k,
    {
        proof {
            lemma_schedule_image_in_range(n as int, params.reps as int, k as int);
        }
        let image: usize = sched[k].image;
        match av1_send_frame(&mut ctx, &enc_frames[image]) {
            Ok(()) => {},
            Err(st) => {
                let mut msg = "Failed to send frame: ".to_owned();
                msg.push_str(status_message(&st).as_str());
                return Err(VideoError::Encode(msg));
            },
        }
        match drain_ready(&mut ctx, &mut out) {
            Ok(()) => {},
            Err(e) => {
                return Err(e);
            },
        }
        k = k + 1;
    }
    av1_flush(&mut ctx);
    match drain_flush(&mut ctx, &mut out) {
        Ok(()) => {},
        Err(e) => {
            return Err(e);
        },
    }
    proof {
        out.lemma_wf();
    }
    let ghost chunks = out.chunks();
    let bytes = out.into_bytes();
    Ok((bytes, Ghost(chunks)))
}

} // verus!
