use vstd::prelude::*;
use crate::pacing::{interval_ms, interval_of, residual_ms, frame_pts, pts_of, Pts, LAST_CHANCE_MS};
use crate::pixel::PixelBuffer;
use crate::cancel::WaitOutcome;

verus! {

/// Where the capture loop stands.
#[derive(Clone, Copy, Debug, PartialEq, Eq, Structural)]
pub enum Phase {
    /// A capture is due.
    Capture,
    /// A frame went to the encoder; the time it took is due.
    Pace,
    /// The main wait of the interval is running.
    MainWait,
    /// The short last-chance wait is running.
    LastChance,
    /// Cancellation was seen; nothing more is captured.
    Stopped,
}

/// A captured buffer with its place in the sequence and its presentation time.
pub struct Frame {
    pub index: u64,
    pub pts: Pts,
    pub buffer: PixelBuffer,
}

/// What the driver of the loop reports back.
pub enum Event {
    /// A capture returned this buffer.
    Captured(PixelBuffer),
    /// The last frame was handed to the encoder; the iteration has taken
    /// `elapsed_ms` milliseconds since its capture began.
    Forwarded { elapsed_ms: u64 },
    /// A wait on the cancellation channel ended, as `outcome` says.
    Waited { outcome: WaitOutcome },
}

/// What the driver of the loop does next.
pub enum Action {
    /// Capture the window again (and start timing a new iteration).
    Capture,
    /// Hand this frame to the encoder, then report `Forwarded`.
    Encode(Frame),
    /// Wait up to `ms` milliseconds for cancellation, then report `Waited`.
    Wait { ms: u64 },
    /// Stop: the loop is over.
    Stop,
}

/// A broken coordination between the loop and its driver.
#[derive(Clone, Copy, Debug, PartialEq, Eq, Structural)]
pub enum LoopError {
    /// The event does not answer the last action.
    OutOfOrder,
    /// No frame index is left.
    IndexExhausted,
    /// The cancellation channel lost its sending end without a signal.
    ChannelBroken,
}

pub struct SessionView {
    pub fps: u8,
    pub width: nat,
    pub height: nat,
    pub phase: Phase,
    /// The indices of the frames handed to the encoder so far, in order.
    pub delivered: Seq<u64>,
}

/// The decisions of the capture loop for one window at one frame rate. The
/// geometry is fixed when the session starts; captures of any other size are
/// dropped.
pub struct CaptureSession {
    fps: u8,
    width: usize,
    height: usize,
    interval: u64,
    next_index: u64,
    phase: Phase,
    delivered: Ghost<Seq<u64>>,
}

impl View for CaptureSession {
    type V = SessionView;

    closed spec fn view(&self) -> SessionView {
        SessionView {
            fps: self.fps,
            width: self.width as nat,
            height: self.height as nat,
            phase: self.phase,
            delivered: self.delivered@,
        }
    }
}

/// The delivered indices are 0, 1, 2, ... with none left out.
pub open spec fn consecutive_from_zero(s: Seq<u64>) -> bool {
    forall|i: int| 0 <= i < s.len() ==> s[i] == i
}

impl CaptureSession {
    #[verifier::type_invariant]
    spec fn inv(&self) -> bool {
        &&& self.fps > 0
        &&& self.interval == interval_of(self.fps)
        &&& self.next_index == self.delivered@.len()
        &&& consecutive_from_zero(self.delivered@)
    }

    /// Starts a session at `fps` frames per second for frames of `width` by
    /// `height` pixels.
    pub fn new(fps: u8, width: usize, height: usize) -> (r: CaptureSession)
        requires
            fps > 0,
        ensures
            r@.fps == fps,
            r@.width == width,
            r@.height == height,
            r@.phase == Phase::Capture,
            r@.delivered == Seq::<u64>::empty(),
    {
        CaptureSession {
            fps,
            width,
            height,
            interval: interval_ms(fps),
            next_index: 0,
            phase: Phase::Capture,
            delivered: Ghost(Seq::empty()),
        }
    }

    pub fn fps(&self) -> (r: u8)
        ensures
            r == self@.fps,
            r > 0,
    {
        proof {
            use_type_invariant(self);
        }
        self.fps
    }

    pub fn phase(&self) -> (r: Phase)
        ensures
            r == self@.phase,
    {
        self.phase
    }

    /// The index the next accepted frame will carry.
    pub fn next_index(&self) -> (r: u64)
        ensures
            r == self@.delivered.len(),
    {
        proof {
            use_type_invariant(self);
        }
        self.next_index
    }

    /// Takes the driver's report of what happened and says what to do next.
    pub fn step(&mut self, event: Event) -> (r: Result<Action, LoopError>)
        ensures
            consecutive_from_zero(final(self)@.delivered),
            final(self)@.fps == old(self)@.fps,
            final(self)@.width == old(self)@.width,
            final(self)@.height == old(self)@.height,
            // a frame of the session's geometry is numbered and sent on
            old(self)@.phase == Phase::Capture && event is Captured
                && fits(old(self)@, event->Captured_0@) && old(self)@.delivered.len() < u64::MAX
                ==> (r matches Ok(Action::Encode(f))
                && f.index == old(self)@.delivered.len()
                && f.pts == pts_of(f.index, old(self)@.fps)
                && f.buffer@ == event->Captured_0@
                && final(self)@.delivered == old(self)@.delivered.push(f.index)
                && final(self)@.phase == Phase::Pace),
            // a frame of another geometry is dropped, and capture starts over
            old(self)@.phase == Phase::Capture && event is Captured
                && !fits(old(self)@, event->Captured_0@)
                ==> (r matches Ok(Action::Capture) && final(self)@ == old(self)@),
            old(self)@.phase == Phase::Capture && event is Captured
                && fits(old(self)@, event->Captured_0@) && old(self)@.delivered.len() == u64::MAX
                ==> r == Err::<Action, LoopError>(LoopError::IndexExhausted)
                && final(self)@ == old(self)@,
            // after the hand-off, the rest of the interval is waited, or only
            // the last-chance wait when the interval is used up
            old(self)@.phase == Phase::Pace && event is Forwarded
                && event->elapsed_ms < interval_of(old(self)@.fps)
                ==> (r matches Ok(Action::Wait { ms })
                && ms == interval_of(old(self)@.fps) - event->elapsed_ms
                && final(self)@.phase == Phase::MainWait
                && final(self)@.delivered == old(self)@.delivered),
            old(self)@.phase == Phase::Pace && event is Forwarded
                && event->elapsed_ms >= interval_of(old(self)@.fps)
                ==> (r matches Ok(Action::Wait { ms }) && ms == LAST_CHANCE_MS
                && final(self)@.phase == Phase::LastChance
                && final(self)@.delivered == old(self)@.delivered),
            // a cancellation seen in either wait stops the loop
            (old(self)@.phase == Phase::MainWait || old(self)@.phase == Phase::LastChance)
                && event is Waited && event->outcome == WaitOutcome::Fired
                ==> (r matches Ok(Action::Stop) && final(self)@.phase == Phase::Stopped
                && final(self)@.delivered == old(self)@.delivered),
            old(self)@.phase == Phase::MainWait && event is Waited
                && event->outcome == WaitOutcome::TimedOut
                ==> (r matches Ok(Action::Wait { ms }) && ms == LAST_CHANCE_MS
                && final(self)@.phase == Phase::LastChance
                && final(self)@.delivered == old(self)@.delivered),
            old(self)@.phase == Phase::LastChance && event is Waited
                && event->outcome == WaitOutcome::TimedOut
                ==> (r matches Ok(Action::Capture) && final(self)@.phase == Phase::Capture
                && final(self)@.delivered == old(self)@.delivered),
            // a cancellation channel without its sending end is fatal
            (old(self)@.phase == Phase::MainWait || old(self)@.phase == Phase::LastChance)
                && event is Waited && event->outcome == WaitOutcome::Disconnected
                ==> r == Err::<Action, LoopError>(LoopError::ChannelBroken)
                && final(self)@ == old(self)@,
            // once stopped, nothing more happens
            old(self)@.phase == Phase::Stopped ==> (r matches Ok(Action::Stop)
                && final(self)@ == old(self)@),
            // an event that does not answer the last action changes nothing
            !expected(old(self)@.phase, &event)
                ==> r == Err::<Action, LoopError>(LoopError::OutOfOrder)
                && final(self)@ == old(self)@,
    {
        proof {
            use_type_invariant(&*self);
        }
        match self.phase {
            Phase::Stopped => Ok(Action::Stop),
            Phase::Capture => match event {
                Event::Captured(buffer) => {
                    if !buffer.has_geometry(self.width, self.height) {
                        Ok(Action::Capture)
                    } else if self.next_index == u64::MAX {
                        Err(LoopError::IndexExhausted)
                    } else {
                        let index = self.next_index;
                        let frame = Frame { index, pts: frame_pts(index, self.fps), buffer };
                        let ghost delivered = self.delivered@.push(index);
                        assert(consecutive_from_zero(delivered));
                        *self = CaptureSession {
                            fps: self.fps,
                            width: self.width,
                            height: self.height,
                            interval: self.interval,
                            next_index: index + 1,
                            phase: Phase::Pace,
                            delivered: Ghost(delivered),
                        };
                        Ok(Action::Encode(frame))
                    }
                },
                _ => Err(LoopError::OutOfOrder),
            },
            Phase::Pace => match event {
                Event::Forwarded { elapsed_ms } => {
                    match residual_ms(self.interval, elapsed_ms) {
                        Some(ms) => {
                            self.phase = Phase::MainWait;
                            Ok(Action::Wait { ms })
                        },
                        None => {
                            self.phase = Phase::LastChance;
                            Ok(Action::Wait { ms: LAST_CHANCE_MS })
                        },
                    }
                },
                _ => Err(LoopError::OutOfOrder),
            },
            Phase::MainWait => match event {
                Event::Waited { outcome } => match outcome {
                    WaitOutcome::Fired => {
                        self.phase = Phase::Stopped;
                        Ok(Action::Stop)
                    },
                    WaitOutcome::TimedOut => {
                        self.phase = Phase::LastChance;
                        Ok(Action::Wait { ms: LAST_CHANCE_MS })
                    },
                    WaitOutcome::Disconnected => Err(LoopError::ChannelBroken),
                },
                _ => Err(LoopError::OutOfOrder),
            },
            Phase::LastChance => match event {
                Event::Waited { outcome } => match outcome {
                    WaitOutcome::Fired => {
                        self.phase = Phase::Stopped;
                        Ok(Action::Stop)
                    },
                    WaitOutcome::TimedOut => {
                        self.phase = Phase::Capture;
                        Ok(Action::Capture)
                    },
                    WaitOutcome::Disconnected => Err(LoopError::ChannelBroken),
                },
                _ => Err(LoopError::OutOfOrder),
            },
        }
    }
}

/// Whether a buffer has the geometry the session was started with.
pub open spec fn fits(s: SessionView, b: crate::pixel::PixelsView) -> bool {
    b.width == s.width && b.height == s.height
}

/// Whether `event` answers what a session in `phase` last asked for.
pub open spec fn expected(phase: Phase, event: &Event) -> bool {
    match phase {
        Phase::Capture => event is Captured,
        Phase::Pace => event is Forwarded,
        Phase::MainWait | Phase::LastChance => event is Waited,
        Phase::Stopped => true,
    }
}

} // verus!
