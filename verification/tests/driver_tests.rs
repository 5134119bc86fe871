use img2video::convert::JobParams;
use img2video::h264::{H264Action, H264Job, SyncDriver};
use img2video::models::{Colorspace, VideoEncoding};

fn small_job(n_images: usize, reps: u32) -> H264Job {
    let params = JobParams {
        width: 1,
        height: 1,
        fps: 30,
        reps,
        colorspace: Colorspace::RGB,
        encoding: VideoEncoding::H264,
    };
    let mut frames = Vec::new();
    for i in 0..n_images {
        frames.push(vec![i as u8, i as u8, i as u8]);
    }
    H264Job { params, layout: img2video::frames::PackedLayout::Rgb, frames }
}

/// One image, repetition factor three: exactly three encode calls with
/// presentation indices 0, 1, 2, the buffer beginning with the headers
/// followed by the three returns in order, and the flush packets all
/// drained before the driver finishes.
#[test]
fn one_image_three_repetitions_makes_three_encode_calls() {
    let mut d = SyncDriver::new(small_job(1, 3));
    match d.next_action() {
        H264Action::Start { fps, width, height } => {
            assert_eq!(fps, 30);
            assert_eq!(width, 1);
            assert_eq!(height, 1);
        },
        _ => panic!("the driver must ask for the encoder first"),
    }
    d.on_started(vec![9, 9]);
    let mut encode_calls = 0usize;
    loop {
        match d.next_action() {
            H264Action::Encode { image, pts } => {
                assert_eq!(image, 0);
                assert_eq!(pts, encode_calls);
                assert_eq!(d.frame_data(image), &vec![0, 0, 0]);
                d.on_encoded(vec![10 + pts as u8]);
                encode_calls += 1;
            },
            H264Action::Flush => break,
            _ => panic!("only encode calls and the flush are expected here"),
        }
    }
    assert_eq!(encode_calls, 3);
    d.on_flush_packet(vec![77]);
    d.on_flush_done();
    match d.next_action() {
        H264Action::Finish => {},
        _ => panic!("a flushed driver must finish"),
    }
    assert_eq!(d.finish(), vec![9, 9, 10, 11, 12, 77]);
}

#[test]
fn two_images_twice_each_in_presentation_order() {
    let mut d = SyncDriver::new(small_job(2, 2));
    d.on_started(vec![1]);
    let mut seen: Vec<(usize, usize)> = Vec::new();
    loop {
        match d.next_action() {
            H264Action::Encode { image, pts } => {
                seen.push((image, pts));
                d.on_encoded(Vec::new());
            },
            H264Action::Flush => break,
            _ => panic!("only encode calls and the flush are expected here"),
        }
    }
    assert_eq!(seen, vec![(0, 0), (0, 1), (1, 2), (1, 3)]);
    d.on_flush_done();
    assert_eq!(d.finish(), vec![1]);
}

#[test]
fn empty_job_flushes_at_once() {
    let mut d = SyncDriver::new(small_job(0, 3));
    d.on_started(vec![5]);
    match d.next_action() {
        H264Action::Flush => {},
        _ => panic!("an empty job owes no submissions"),
    }
    d.on_flush_done();
    assert_eq!(d.finish(), vec![5]);
}

#[test]
fn a_failed_driver_aborts() {
    let mut d = SyncDriver::new(small_job(1, 1));
    d.on_failed();
    match d.next_action() {
        H264Action::Abort => {},
        _ => panic!("a failed driver must abort"),
    }
}
