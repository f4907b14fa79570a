use wingif::cancel::{cancellation, WaitOutcome};
use wingif::pacing::{frame_pts, interval_ms, residual_ms, LAST_CHANCE_MS};
use wingif::pixel::{bgra_to_rgba, frame_from_bgra, CaptureError, PixelBuffer, Rgba};
use wingif::session::{Action, CaptureSession, Event, LoopError, Phase};

fn px(v: u8) -> Rgba {
    Rgba { r: v, g: v, b: v, a: 255 }
}

fn buffer(width: usize, height: usize) -> PixelBuffer {
    PixelBuffer::new(vec![px(7); width * height], width, height).unwrap()
}

#[test]
fn pixel_buffer_length_is_width_times_height() {
    let b = PixelBuffer::new(vec![px(1); 6], 3, 2).unwrap();
    assert_eq!(b.len(), 6);
    assert_eq!(b.width(), 3);
    assert_eq!(b.height(), 2);
    assert_eq!(b.pixels().len(), 6);
    let (data, w, h) = b.into_parts();
    assert_eq!(data.len(), w * h);
}

#[test]
fn pixel_buffer_with_wrong_length_is_refused() {
    assert_eq!(PixelBuffer::new(vec![px(1); 5], 3, 2).err(), Some(CaptureError::LengthMismatch));
    assert_eq!(PixelBuffer::new(vec![px(1); 7], 3, 2).err(), Some(CaptureError::LengthMismatch));
    assert_eq!(PixelBuffer::new(vec![px(1); 1], usize::MAX, 2).err(), Some(CaptureError::LengthMismatch));
    assert!(PixelBuffer::new(Vec::new(), 0, 9).is_ok());
}

#[test]
fn raw_pixels_are_reordered_to_rgba() {
    let out = bgra_to_rgba(&[1, 2, 3, 4, 5, 6, 7, 8]);
    assert_eq!(out, vec![Rgba { r: 3, g: 2, b: 1, a: 4 }, Rgba { r: 7, g: 6, b: 5, a: 8 }]);
}

#[test]
fn frame_width_comes_from_row_stride() {
    let raw: Vec<u8> = (0u8..64).collect();
    let f = frame_from_bgra(&raw, 32, 32, 2).unwrap();
    assert_eq!((f.width(), f.height()), (8, 2));
    assert_eq!(f.len(), 16);
    assert_eq!(f.pixels()[3], Rgba { r: 14, g: 13, b: 12, a: 15 });
}

#[test]
fn frame_width_need_not_be_a_multiple_of_eight() {
    let raw: Vec<u8> = vec![9; 72];
    let f = frame_from_bgra(&raw, 36, 32, 2).unwrap();
    assert_eq!((f.width(), f.height(), f.len()), (9, 2, 18));
}

#[test]
fn frame_errors() {
    let raw: Vec<u8> = vec![0; 16];
    assert_eq!(frame_from_bgra(&raw, 8, 0, 2).err(), Some(CaptureError::SubBytePixel));
    assert_eq!(frame_from_bgra(&raw, 8, 4, 2).err(), Some(CaptureError::SubBytePixel));
    assert_eq!(frame_from_bgra(&vec![0; 64], 36, 32, 2).err(), Some(CaptureError::LengthMismatch));
    assert_eq!(frame_from_bgra(&raw[..15], 8, 32, 2).err(), Some(CaptureError::PartialPixel));
    assert_eq!(frame_from_bgra(&raw, 8, 32, 3).err(), Some(CaptureError::LengthMismatch));
    assert_eq!(frame_from_bgra(&raw, 32, 32, 1).err(), Some(CaptureError::LengthMismatch));
}

#[test]
fn interval_is_a_second_divided_by_rate() {
    assert_eq!(interval_ms(5), 200);
    assert_eq!(interval_ms(1), 1000);
    assert_eq!(interval_ms(3), 333);
    assert_eq!(interval_ms(255), 3);
}

#[test]
fn residual_wait() {
    assert_eq!(residual_ms(200, 50), Some(150));
    assert_eq!(residual_ms(200, 0), Some(200));
    assert_eq!(residual_ms(200, 200), None);
    assert_eq!(residual_ms(200, 350), None);
}

#[test]
fn successive_timestamps_at_five_fps_are_a_fifth_apart() {
    for i in 0u64..20 {
        let a = frame_pts(i, 5);
        let b = frame_pts(i + 1, 5);
        assert_eq!(b.ticks - a.ticks, 1);
        assert_eq!(a.per_second, 5);
        assert_eq!((b.ticks - a.ticks) * 1000 / a.per_second as u64, 200);
    }
    assert_eq!(frame_pts(1, 5).ticks as f64 / 5.0, 0.2);
}

fn encode(s: &mut CaptureSession, b: PixelBuffer) -> u64 {
    match s.step(Event::Captured(b)) {
        Ok(Action::Encode(f)) => f.index,
        _ => panic!("frame not sent on"),
    }
}

fn finish_iteration(s: &mut CaptureSession) {
    assert!(matches!(s.step(Event::Forwarded { elapsed_ms: 500 }), Ok(Action::Wait { ms: 1 })));
    assert!(matches!(s.step(Event::Waited { outcome: WaitOutcome::TimedOut }), Ok(Action::Capture)));
}

#[test]
fn frame_indices_are_consecutive() {
    let mut s = CaptureSession::new(5, 4, 3);
    for expect in 0u64..6 {
        assert_eq!(encode(&mut s, buffer(4, 3)), expect);
        finish_iteration(&mut s);
    }
    assert_eq!(s.next_index(), 6);
}

#[test]
fn mismatched_geometry_is_dropped() {
    let mut s = CaptureSession::new(5, 4, 3);
    assert_eq!(encode(&mut s, buffer(4, 3)), 0);
    finish_iteration(&mut s);
    assert!(matches!(s.step(Event::Captured(buffer(5, 3))), Ok(Action::Capture)));
    assert!(matches!(s.step(Event::Captured(buffer(4, 2))), Ok(Action::Capture)));
    assert_eq!(s.next_index(), 1);
    assert_eq!(s.phase(), Phase::Capture);
    assert_eq!(encode(&mut s, buffer(4, 3)), 1);
}

#[test]
fn pacing_waits_the_rest_of_the_interval() {
    let mut s = CaptureSession::new(5, 1, 1);
    encode(&mut s, buffer(1, 1));
    assert!(matches!(s.step(Event::Forwarded { elapsed_ms: 30 }), Ok(Action::Wait { ms: 170 })));
    assert_eq!(s.phase(), Phase::MainWait);
    assert!(matches!(s.step(Event::Waited { outcome: WaitOutcome::TimedOut }), Ok(Action::Wait { ms: LAST_CHANCE_MS })));
    assert_eq!(s.phase(), Phase::LastChance);
    assert!(matches!(s.step(Event::Waited { outcome: WaitOutcome::Fired }), Ok(Action::Stop)));
    assert_eq!(s.phase(), Phase::Stopped);
    assert!(matches!(s.step(Event::Captured(buffer(1, 1))), Ok(Action::Stop)));
}

#[test]
fn cancellation_in_main_wait_stops() {
    let mut s = CaptureSession::new(5, 1, 1);
    encode(&mut s, buffer(1, 1));
    assert!(matches!(s.step(Event::Forwarded { elapsed_ms: 0 }), Ok(Action::Wait { ms: 200 })));
    assert!(matches!(s.step(Event::Waited { outcome: WaitOutcome::Fired }), Ok(Action::Stop)));
    assert_eq!(s.next_index(), 1);
}

#[test]
fn out_of_order_event_is_refused() {
    let mut s = CaptureSession::new(5, 1, 1);
    assert!(matches!(s.step(Event::Waited { outcome: WaitOutcome::Fired }), Err(LoopError::OutOfOrder)));
    assert!(matches!(s.step(Event::Forwarded { elapsed_ms: 1 }), Err(LoopError::OutOfOrder)));
    assert_eq!(s.phase(), Phase::Capture);
    encode(&mut s, buffer(1, 1));
    assert!(matches!(s.step(Event::Captured(buffer(1, 1))), Err(LoopError::OutOfOrder)));
    assert_eq!(s.phase(), Phase::Pace);
}

#[test]
fn cancellation_fired_before_wait_is_seen() {
    let (trigger, mut watch) = cancellation();
    assert!(!watch.fired());
    assert!(trigger.fire());
    assert_eq!(watch.wait_for(0), WaitOutcome::Fired);
    assert!(watch.fired());
    assert_eq!(watch.wait_for(0), WaitOutcome::Fired);
}

#[test]
fn dropped_trigger_is_a_broken_channel() {
    let (trigger, mut watch) = cancellation();
    drop(trigger);
    let outcome = watch.wait_for(5);
    assert_eq!(outcome, WaitOutcome::Disconnected);
    assert!(!watch.fired());
    let mut s = CaptureSession::new(5, 1, 1);
    encode(&mut s, buffer(1, 1));
    assert!(matches!(s.step(Event::Forwarded { elapsed_ms: 0 }), Ok(Action::Wait { ms: 200 })));
    assert!(matches!(s.step(Event::Waited { outcome }), Err(LoopError::ChannelBroken)));
    assert_eq!(s.phase(), Phase::MainWait);
}

#[test]
fn unfired_cancellation_times_out() {
    let (_trigger, mut watch) = cancellation();
    assert_eq!(watch.wait_for(1), WaitOutcome::TimedOut);
    assert!(!watch.fired());
}

#[test]
fn ten_frames_at_five_fps_then_cancel() {
    let (trigger, mut watch) = cancellation();
    let mut s = CaptureSession::new(5, 2, 2);
    let mut encoded: Vec<(u64, f64)> = Vec::new();
    let mut supplied = 0;
    let mut action = Action::Capture;
    loop {
        action = match action {
            Action::Capture => {
                supplied += 1;
                s.step(Event::Captured(buffer(2, 2))).unwrap()
            }
            Action::Encode(f) => {
                encoded.push((f.index, f.pts.ticks as f64 / f.pts.per_second as f64));
                if supplied == 10 {
                    trigger.fire();
                }
                s.step(Event::Forwarded { elapsed_ms: 0 }).unwrap()
            }
            Action::Wait { ms } => {
                let outcome = watch.wait_for(ms);
                s.step(Event::Waited { outcome }).unwrap()
            }
            Action::Stop => break,
        };
    }
    let expected = [0.0, 0.2, 0.4, 0.6, 0.8, 1.0, 1.2, 1.4, 1.6, 1.8];
    assert_eq!(encoded.len(), 10);
    for (i, (index, pts)) in encoded.iter().enumerate() {
        assert_eq!(*index, i as u64);
        assert_eq!(*pts, expected[i]);
    }
}
