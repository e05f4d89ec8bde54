use std::time::{Duration, Instant};

use frame_pipeline::frame::Frame;
use frame_pipeline::imaging::{Camera, FrameDiffer};
use frame_pipeline::real_time::RealTime;
use frame_pipeline::ring_buffer::{CursorPair, RingBuffer};

fn set_up() -> (Camera, FrameDiffer, RingBuffer, CursorPair) {
    let ring_buffer = RingBuffer::with_capacity(10);
    let ring_read_write_count = CursorPair::new();
    let file_differ = FrameDiffer::new(0, 1000);
    let camera = Camera::new();
    (camera, file_differ, ring_buffer, ring_read_write_count)
}

fn gray_frame(value: u8) -> Frame {
    Frame::from_pixels(vec![value; 640 * 480])
}

#[test]
fn camera_wcet() {
    let (camera, _, mut ring, mut cursors) = set_up();

    // WCET = Worst Case Execution Time
    let mut wcet = Duration::new(0, 0);
    for _ in 0..500 {
        let frame = gray_frame(128);
        let start = Instant::now();
        camera.service(&mut ring, &mut cursors, frame);
        let end = start.elapsed();

        if end > wcet {
            wcet = end;
        }
    }

    println!("WCET: {:?}", wcet);
    assert!(
        wcet < Duration::from_nanos(camera.period()),
        "Requested period is not within WCET"
    );
}

#[test]
fn diff_of_frames() {
    let (_, _, _, _) = set_up();
    let frame0 = gray_frame(10);
    let frame1 = gray_frame(14);

    let diff = FrameDiffer::diff_of_frames(&frame0, &frame1);

    assert_eq!(diff, 4 * 640 * 480);
}

#[test]
fn frame_diff_wcet() {
    let (camera, mut frame_differ, mut ring, mut cursors) = set_up();
    // fill the buffer
    for _ in 0..10 {
        camera.service(&mut ring, &mut cursors, gray_frame(128));
    }

    let mut wcet = Duration::new(0, 0);
    for _ in 0..500 {
        let start_instant = Instant::now();
        frame_differ.service(&ring, &mut cursors);
        let end = start_instant.elapsed();

        if end > wcet {
            wcet = end;
        }
    }

    println!("WCET: {:?}", wcet);
    assert!(
        wcet < Duration::from_nanos(frame_differ.period()),
        "Requested period is not within WCET"
    );
}

#[test]
fn edge_triggered_emission_over_synthetic_run() {
    // Difference-metric sequence: still, still, blur, blur, still, still,
    // still. Exactly one frame must come out, at the first still after the
    // blur run.
    let mut ring = RingBuffer::with_capacity(10);
    let mut cursors = CursorPair::new();
    let camera = Camera::new();
    let mut differ = FrameDiffer::new(0, 1000);

    // Four-pixel frames; consecutive values 0 -> 250 or 250 -> 0 give a
    // metric of 1000 (blur), equal values give 0 (still).
    let values: [u8; 8] = [0, 0, 0, 250, 0, 0, 0, 0];
    for v in values.iter() {
        camera.service(&mut ring, &mut cursors, Frame::from_pixels(vec![*v; 4]));
    }

    let mut emitted: Vec<Option<Frame>> = Vec::new();
    for _ in 0..7 {
        emitted.push(differ.service(&ring, &mut cursors));
    }

    assert!(emitted[0].is_none()); // still, no blur seen yet
    assert!(emitted[1].is_none()); // still
    assert!(emitted[2].is_none()); // blur
    assert!(emitted[3].is_none()); // blur
    let best = emitted[4].as_ref().expect("first still after blur must emit");
    assert_eq!(best.pixels, vec![0u8; 4]);
    assert!(emitted[5].is_none()); // still, already emitted
    assert!(emitted[6].is_none()); // still
}

#[test]
fn differ_idle_when_buffer_has_not_advanced() {
    let mut ring = RingBuffer::with_capacity(4);
    let mut cursors = CursorPair::new();
    let mut differ = FrameDiffer::new(0, 1000);

    // No producer write yet: read cursor (1) is ahead of write cursor (0).
    let emitted = differ.service(&ring, &mut cursors);
    assert!(emitted.is_none());
    assert_eq!(cursors.read, 1);
    assert_eq!(cursors.write, 0);

    // One write is still not enough: the previous-frame slot would be
    // unwritten.
    let camera = Camera::new();
    camera.service(&mut ring, &mut cursors, Frame::from_pixels(vec![7; 4]));
    let emitted = differ.service(&ring, &mut cursors);
    assert!(emitted.is_none());
    assert_eq!(cursors.read, 1);
}

#[test]
fn calibration_takes_min_and_max() {
    let samples: Vec<u64> = vec![5, 3, 9, 7];
    let (still, blurred) = FrameDiffer::still_and_blurred_frame_threshold(&samples);
    assert_eq!(still, 3);
    assert_eq!(blurred, 9);

    let one: Vec<u64> = vec![4];
    assert_eq!(FrameDiffer::still_and_blurred_frame_threshold(&one), (4, 4));
}

#[test]
fn nearest_reference_classification() {
    let differ = FrameDiffer::new(10, 100);
    assert!(!differ.image_did_blur(20)); // closer to the still reference
    assert!(differ.image_did_blur(90)); // closer to the blurred reference
    assert!(!differ.image_did_blur(55)); // equidistant counts as still
    assert!(differ.image_did_blur(1000)); // far past the blurred reference
}

#[test]
fn diff_of_frames_exact_values() {
    let f0 = Frame::from_pixels(vec![1, 5, 3]);
    let f1 = Frame::from_pixels(vec![4, 2, 3]);
    assert_eq!(FrameDiffer::diff_of_frames(&f0, &f1), 6);

    let e0 = Frame::new();
    let e1 = Frame::new();
    assert_eq!(FrameDiffer::diff_of_frames(&e0, &e1), 0);
}

#[test]
fn frame_duplicate_copies_pixels() {
    let frame = Frame::from_pixels(vec![9, 8, 7]);
    let copy = frame.duplicate();
    assert_eq!(copy.pixels, vec![9, 8, 7]);
    assert_eq!(frame.len(), 3);
}

#[test]
fn register_frame_diff_is_edge_triggered() {
    // The same synthetic metric run, fed to the selection machine directly:
    // still, still, blur, blur, still, still, still. Exactly one emission,
    // at the first still after the blur run.
    let mut differ = FrameDiffer::new(0, 1000);
    let metrics: [u64; 7] = [0, 0, 1000, 1000, 0, 0, 0];
    let emitted: Vec<bool> = metrics
        .iter()
        .map(|metric| differ.register_frame_diff(*metric))
        .collect();
    assert_eq!(emitted, vec![false, false, false, false, true, false, false]);
}
