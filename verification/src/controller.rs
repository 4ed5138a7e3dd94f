//! The handle through which a user interface starts and stops the server.
//!
//! The controller keeps what belongs to a run: the handle on which the
//! server's thread can be joined and the sender on which it is told to
//! stop. It keeps them for one run at a time. Spawning, signalling and
//! joining are the caller's business; the controller says when each is due.

use vstd::prelude::*;

verus! {

/// Start, stop and status of one server. `H` is the join handle of the
/// thread that runs the server, `S` the sender of its stop channel.
///
/// A controller is either idle, and then holds neither, or running, and
/// then holds both.
pub struct NtpServerController<H, S> {
    handle: Option<H>,
    stop_sender: Option<S>,
    running: bool,
}

impl<H, S> NtpServerController<H, S> {
    #[verifier::type_invariant]
    spec fn holds_both_or_neither(self) -> bool {
        &&& self.running == self.handle.is_some()
        &&& self.running == self.stop_sender.is_some()
    }

    /// Whether a run is in progress.
    pub closed spec fn running(self) -> bool {
        self.running
    }

    /// The join handle of the run in progress, if there is one.
    pub closed spec fn handle(self) -> Option<H> {
        self.handle
    }

    /// The stop sender of the run in progress, if there is one.
    pub closed spec fn stop_sender(self) -> Option<S> {
        self.stop_sender
    }

    /// An idle controller.
    pub fn new() -> (controller: Self)
        ensures
            !controller.running(),
            controller.handle() is None,
            controller.stop_sender() is None,
    {
        NtpServerController { handle: None, stop_sender: None, running: false }
    }

    /// Tells whether a run is in progress.
    pub fn is_running(&self) -> (running: bool)
        ensures
            running == self.running(),
    {
        self.running
    }

    /// Records a run that has just been started. A controller that is
    /// already running refuses: it stays as it is and hands `handle` and
    /// `stop_sender` back, so that the caller can end the run it started in
    /// vain.
    pub fn start(&mut self, handle: H, stop_sender: S) -> (outcome: Result<(), (H, S)>)
        ensures
            old(self).running() ==> *final(self) == *old(self) && outcome == Err::<(), (H, S)>(
                (handle, stop_sender),
            ),
            !old(self).running() ==> outcome is Ok && final(self).running() && final(self).handle()
                == Some(handle) && final(self).stop_sender() == Some(stop_sender),
    {
        if self.running {
            return Err((handle, stop_sender));
        }
        *self = NtpServerController {
            handle: Some(handle),
            stop_sender: Some(stop_sender),
            running: true,
        };
        Ok(())
    }

    /// Ends the run in progress, if there is one, and leaves the controller
    /// idle. The caller gets what the controller held: it sends the stop
    /// token on the sender, then joins the handle. An idle controller gives
    /// nothing and stays idle.
    pub fn stop(&mut self) -> (held: (Option<S>, Option<H>))
        ensures
            held == (old(self).stop_sender(), old(self).handle()),
            held.0 is Some <==> old(self).running(),
            held.1 is Some <==> old(self).running(),
            !final(self).running(),
            final(self).handle() is None,
            final(self).stop_sender() is None,
    {
        proof {
            use_type_invariant(&*self);
        }
        let mut taken = NtpServerController { handle: None, stop_sender: None, running: false };
        core::mem::swap(self, &mut taken);
        let NtpServerController { handle, stop_sender, running: _ } = taken;
        (stop_sender, handle)
    }
}

} // verus!
