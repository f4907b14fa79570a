use vstd::prelude::*;

verus! {

#[verifier::external_type_specification]
#[verifier::external_body]
#[verifier::reject_recursive_types(T)]
pub struct ExSender<T>(std::sync::mpsc::Sender<T>);

#[verifier::external_type_specification]
#[verifier::external_body]
#[verifier::reject_recursive_types(T)]
pub struct ExReceiver<T>(std::sync::mpsc::Receiver<T>);

/// Relies on std::sync::mpsc::channel: a fresh connected pair; a message sent
/// on the first end waits in the channel until the second end takes it.
#[verifier::external_body]
fn open_channel() -> (std::sync::mpsc::Sender<()>, std::sync::mpsc::Receiver<()>) {
    std::sync::mpsc::channel()
}

/// Relies on std::sync::mpsc::Sender::send: whether the message was queued
/// (it is refused only once the receiving end is gone).
#[verifier::external_body]
fn send_unit(tx: &std::sync::mpsc::Sender<()>) -> bool {
    tx.send(()).is_ok()
}

/// How a wait on the cancellation channel ended.
#[derive(Clone, Copy, Debug, PartialEq, Eq, Structural)]
pub enum WaitOutcome {
    /// The signal came.
    Fired,
    /// The time ran out first.
    TimedOut,
    /// The driver's end is gone without a signal: the coordination is broken.
    Disconnected,
}

/// Relies on std::sync::mpsc::Receiver::recv_timeout: a message within `ms`
/// milliseconds, the time running out, or the sending end gone; which one
/// depends on timing, so nothing more is stated.
#[verifier::external_body]
fn receive_within(rx: &std::sync::mpsc::Receiver<()>, ms: u64) -> WaitOutcome {
    match rx.recv_timeout(std::time::Duration::from_millis(ms)) {
        Ok(()) => WaitOutcome::Fired,
        Err(std::sync::mpsc::RecvTimeoutError::Timeout) => WaitOutcome::TimedOut,
        Err(std::sync::mpsc::RecvTimeoutError::Disconnected) => WaitOutcome::Disconnected,
    }
}

/// The driver's end of the cancellation channel.
pub struct CancelTrigger {
    tx: std::sync::mpsc::Sender<()>,
}

/// The capture loop's end of the cancellation channel. Once it has seen the
/// signal it keeps reporting it.
pub struct CancelWatch {
    rx: std::sync::mpsc::Receiver<()>,
    fired: bool,
}

/// A new cancellation channel, not yet fired.
pub fn cancellation() -> (r: (CancelTrigger, CancelWatch))
    ensures
        !r.1.has_fired(),
{
    let (tx, rx) = open_channel();
    (CancelTrigger { tx }, CancelWatch { rx, fired: false })
}

impl CancelTrigger {
    /// Fires the signal. A signal fired before any wait is kept until a wait
    /// takes it. Returns false when the watching end is already gone.
    pub fn fire(&self) -> bool {
        send_unit(&self.tx)
    }
}

impl CancelWatch {
    pub closed spec fn has_fired(&self) -> bool {
        self.fired
    }

    /// Whether the signal has been seen by an earlier wait.
    pub fn fired(&self) -> (r: bool)
        ensures
            r == self.has_fired(),
    {
        self.fired
    }

    /// Waits up to `ms` milliseconds for the signal. A watch that has seen the
    /// signal answers `Fired` at once; otherwise it reports how the wait ended.
    pub fn wait_for(&mut self, ms: u64) -> (r: WaitOutcome)
        ensures
            old(self).has_fired() ==> r == WaitOutcome::Fired,
            final(self).has_fired() == (r == WaitOutcome::Fired),
    {
        if self.fired {
            return WaitOutcome::Fired;
        }
        let outcome = receive_within(&self.rx, ms);
        if outcome == WaitOutcome::Fired {
            self.fired = true;
        }
        outcome
    }
}

} // verus!
