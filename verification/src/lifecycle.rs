//! When the interceptor starts and stops.
//!
//! A global keyboard hook that outlives its purpose degrades input for the
//! whole system, so its handle is the one resource here that must be
//! released, and released once. The loop that services the hook runs until
//! the shutdown flag is cleared; what it does on each turn is decided here,
//! and the back end does the waiting and the dispatching.

use vstd::prelude::*;

verus! {

/// The hook could not be installed. Without it the service cannot do its
/// work, and startup is abandoned.
#[derive(Clone, Copy, Debug, PartialEq, Eq, Structural)]
pub struct HookInstallFailure;

/// Stands for the installed hook, and tells its owner when to uninstall it.
#[derive(Debug)]
pub struct HookHandle {
    live: bool,
}

impl HookHandle {
    /// Whether the hook is installed and not yet released.
    pub closed spec fn live(&self) -> bool {
        self.live
    }

    /// The handle for an attempt to install the hook: a live one where the
    /// attempt succeeded, and the failure where it did not.
    pub fn from_install(succeeded: bool) -> (r: Result<HookHandle, HookInstallFailure>)
        ensures
            match r {
                Ok(handle) => succeeded && handle.live(),
                Err(_) => !succeeded,
            },
    {
        if succeeded {
            Ok(HookHandle { live: true })
        } else {
            Err(HookInstallFailure)
        }
    }

    /// Whether the hook is installed and not yet released.
    pub fn is_live(&self) -> (live: bool)
        ensures
            live == self.live(),
    {
        self.live
    }

    /// Releases the handle. Returns whether the caller is to uninstall the
    /// hook now: `true` on the first release, `false` on every later one.
    pub fn release(&mut self) -> (uninstall: bool)
        ensures
            uninstall == old(self).live(),
            !final(self).live(),
    {
        let uninstall = self.live;
        self.live = false;
        uninstall
    }
}

/// What the servicing loop does next.
#[derive(Clone, Copy, Debug, PartialEq, Eq, Structural)]
pub enum LoopControl {
    /// Service what arrived and take another turn.
    Continue,
    /// Leave the loop, so that the interceptor is torn down.
    Exit,
}

/// A loop that blocks for messages goes on while the shutdown flag is set
/// and the queue has given a message, and ends otherwise.
pub open spec fn message_loop_control(running: bool, message_received: bool) -> LoopControl {
    if running && message_received {
        LoopControl::Continue
    } else {
        LoopControl::Exit
    }
}

/// A loop that polls stays up while the shutdown flag is set and nobody has
/// asked to quit. A request to quit clears the flag.
pub open spec fn poll_loop_control(running: bool, quit_requested: bool) -> (bool, LoopControl) {
    if running && !quit_requested {
        (true, LoopControl::Continue)
    } else {
        (false, LoopControl::Exit)
    }
}

/// Decides one turn of a loop that blocks for messages, from the shutdown
/// flag as read before the wait and whether the wait gave a message.
pub fn message_loop_step(running: bool, message_received: bool) -> (control: LoopControl)
    ensures
        control == message_loop_control(running, message_received),
{
    if running && message_received {
        LoopControl::Continue
    } else {
        LoopControl::Exit
    }
}

/// Decides one turn of a loop that polls, from the shutdown flag and
/// whether a request to quit has arrived. Returns the flag to store and what
/// to do next.
pub fn poll_loop_step(running: bool, quit_requested: bool) -> (r: (bool, LoopControl))
    ensures
        r == poll_loop_control(running, quit_requested),
{
    if running && !quit_requested {
        (true, LoopControl::Continue)
    } else {
        (false, LoopControl::Exit)
    }
}

} // verus!
