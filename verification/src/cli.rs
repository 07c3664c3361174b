//! The exit of the process: which signal asks for what, and the latch that
//! lets exactly one request through to the run loop.

use vstd::prelude::*;

verus! {

/// What ends the run loop.
#[derive(Debug, Clone, Copy, PartialEq, Eq)]
pub enum CliSignal {
    Stop,
    Restart,
}

impl CliSignal {
    /// What the signal with number `sig` asks for, where `restart_sig` is
    /// the number of the signal that asks for a restart: every other signal
    /// asks for a stop.
    pub open spec fn of_signal(sig: i32, restart_sig: i32) -> CliSignal {
        if sig == restart_sig {
            CliSignal::Restart
        } else {
            CliSignal::Stop
        }
    }

    /// What the signal with number `sig` asks for.
    pub fn from_signal(sig: i32, restart_sig: i32) -> (signal: CliSignal)
        ensures
            signal == Self::of_signal(sig, restart_sig),
    {
        if sig == restart_sig {
            CliSignal::Restart
        } else {
            CliSignal::Stop
        }
    }
}

/// The latch between those who ask for the exit and the run loop that waits
/// for it. It is open until the first request passes and shut from then on.
#[derive(Debug, Clone, Copy, PartialEq, Eq)]
pub struct CliTriggerExit<Signal> {
    delivered: Option<Signal>,
}

impl<Signal> CliTriggerExit<Signal> {
    /// What the run loop has been handed, if anything.
    pub closed spec fn delivered(self) -> Option<Signal> {
        self.delivered
    }

    /// The latch after a request with `signal`.
    pub closed spec fn fired(self, signal: Signal) -> Self {
        match self.delivered {
            Some(_) => self,
            None => CliTriggerExit { delivered: Some(signal) },
        }
    }

    /// An open latch.
    pub fn new() -> (latch: Self)
        ensures
            latch.delivered() is None,
    {
        CliTriggerExit { delivered: None }
    }

    /// Asks for the exit with `signal`. The result tells whether this
    /// request is the one that the run loop gets: it is where no request
    /// passed before, and then the latch shuts. A later request changes
    /// nothing.
    pub fn trigger_exit(&mut self, signal: Signal) -> (passed: bool)
        ensures
            *final(self) == old(self).fired(signal),
            passed == (old(self).delivered() is None),
            passed ==> final(self).delivered() == Some(signal),
            !passed ==> *final(self) == *old(self),
    {
        if self.delivered.is_none() {
            self.delivered = Some(signal);
            true
        } else {
            false
        }
    }

    /// Whether a request has passed.
    pub fn is_exited(&self) -> (b: bool)
        ensures
            b == (self.delivered() is Some),
    {
        self.delivered.is_some()
    }
}

impl CliTriggerExit<CliSignal> {
    /// Asks for a restart.
    pub fn trigger_restart(&mut self) -> (passed: bool)
        ensures
            *final(self) == old(self).fired(CliSignal::Restart),
            passed == (old(self).delivered() is None),
    {
        self.trigger_exit(CliSignal::Restart)
    }

    /// Asks for a stop.
    pub fn trigger_stop(&mut self) -> (passed: bool)
        ensures
            *final(self) == old(self).fired(CliSignal::Stop),
            passed == (old(self).delivered() is None),
    {
        self.trigger_exit(CliSignal::Stop)
    }

    /// Handles the signal with number `sig`, where `restart_sig` is the
    /// number of the signal that asks for a restart. The result is what the
    /// run loop is to be handed, if this signal is the first request.
    pub fn signal_received(&mut self, sig: i32, restart_sig: i32) -> (send: Option<CliSignal>)
        ensures
            *final(self) == old(self).fired(CliSignal::of_signal(sig, restart_sig)),
            send == if old(self).delivered() is None {
                Some(CliSignal::of_signal(sig, restart_sig))
            } else {
                None
            },
    {
        let signal = CliSignal::from_signal(sig, restart_sig);
        if self.trigger_exit(signal) {
            Some(signal)
        } else {
            None
        }
    }
}

/// Of two requests, whoever makes them, the run loop gets the first: after
/// it the latch holds that signal, and the second request leaves the latch as
/// it finds it.
pub proof fn lemma_exit_fires_once<Signal>(latch: CliTriggerExit<Signal>, first: Signal, second: Signal)
    ensures
        latch.delivered() is None ==> latch.fired(first).delivered() == Some(first),
        latch.delivered() is Some ==> latch.fired(first) == latch,
        latch.fired(first).delivered() is Some,
        latch.fired(first).fired(second) == latch.fired(first),
{
}

/// The start of exit handling.
#[derive(Debug, Clone, Copy)]
pub struct Exit;

impl Exit {
    /// The latch of a process that has just started: open.
    pub fn into_exit(self) -> (latch: CliTriggerExit<CliSignal>)
        ensures
            latch.delivered() is None,
    {
        CliTriggerExit::new()
    }
}

} // verus!
