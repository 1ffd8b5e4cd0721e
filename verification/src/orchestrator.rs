use vstd::prelude::*;

use crate::debounce::{DebounceState, should_trigger, should_trigger_spec};
use crate::event::ChangeEvent;

verus! {

/// Where the supervised run stands.
#[derive(Clone, Copy, Debug, PartialEq, Eq)]
pub enum Phase {
    /// Before the watch is in place.
    Starting,
    /// The watch is in place; the child process is not yet running.
    Spawning,
    /// Watching and supervising: the receive loop is live.
    Running,
    /// The event stream closed; the run ended normally.
    DoneNormal,
    /// A fatal startup failure ended the run.
    DoneError,
}

/// One item received from the event channel.
pub enum StreamItem {
    /// A change event, as the watch facility reported it.
    Change { event: ChangeEvent },
    /// A non-fatal mid-stream error of the watch facility.
    StreamError,
    /// The channel closed: the producer side is gone.
    Closed,
}

/// What the caller must do after one step of the run.
#[derive(Clone, Copy, Debug, PartialEq, Eq)]
pub enum Action {
    /// Write the reload command to the child's control stream.
    SendReload,
    /// Nothing; keep receiving.
    Continue,
    /// Leave the receive loop.
    Stop,
}

/// Drives one run: holds the phase and the debounce state, and decides for
/// each received item whether a reload fires. The caller performs the
/// outside work - setting up the watch, spawning the child, receiving from
/// the channel, writing to the control stream - and reports each outcome
/// back.
pub struct Orchestrator {
    pub phase: Phase,
    pub debounce: DebounceState,
}

impl Orchestrator {
    /// A fresh run, about to set up its watch. The start of the run counts
    /// as the last accepted trigger, at time zero of the monotonic clock.
    pub fn new(debounce_ms: u64) -> (s: Self)
        ensures
            s.phase is Starting,
            s.debounce.last_trigger_ms == 0,
            s.debounce.min_interval_ms == debounce_ms,
    {
        Orchestrator { phase: Phase::Starting, debounce: DebounceState::new(debounce_ms) }
    }

    /// Report whether the watch was set up. Failure to initialize the watch
    /// is fatal: the run ends in error before anything is spawned.
    pub fn on_watch_result(&mut self, ok: bool)
        requires
            old(self).phase is Starting,
        ensures
            ok ==> final(self).phase is Spawning,
            !ok ==> final(self).phase is DoneError,
            final(self).debounce == old(self).debounce,
    {
        self.phase = if ok {
            Phase::Spawning
        } else {
            Phase::DoneError
        };
    }

    /// Report whether the child process was spawned. Failure is fatal: the
    /// run ends in error before the receive loop begins.
    pub fn on_spawn_result(&mut self, ok: bool)
        requires
            old(self).phase is Spawning,
        ensures
            ok ==> final(self).phase is Running,
            !ok ==> final(self).phase is DoneError,
            final(self).debounce == old(self).debounce,
    {
        self.phase = if ok {
            Phase::Running
        } else {
            Phase::DoneError
        };
    }

    /// Take one item from the event channel, received at `now_ms`, and
    /// decide. A change event fires a reload exactly when the debounce
    /// filter says so, and the accepted trigger is recorded before the
    /// caller writes, so a failed write still counts against the interval.
    /// A mid-stream error of the watch facility is non-fatal: the run goes
    /// on unchanged. A closed channel ends the run normally.
    pub fn on_stream_item(&mut self, item: &StreamItem, now_ms: u64) -> (a: Action)
        requires
            old(self).phase is Running,
        ensures
            item matches StreamItem::Change { event } ==> {
                &&& (a is SendReload) == should_trigger_spec(*event, old(self).debounce, now_ms)
                &&& a is SendReload || a is Continue
                &&& a is SendReload ==> final(self).debounce.last_trigger_ms == now_ms
                &&& a is Continue ==> final(self).debounce == old(self).debounce
                &&& final(self).debounce.min_interval_ms == old(self).debounce.min_interval_ms
                &&& final(self).phase is Running
            },
            item is StreamError ==> a is Continue && *final(self) == *old(self),
            item is Closed ==> a is Stop && final(self).phase is DoneNormal
                && final(self).debounce == old(self).debounce,
    {
        match item {
            StreamItem::Change { event } => {
                if should_trigger(event, &self.debounce, now_ms) {
                    self.debounce.record_trigger(now_ms);
                    Action::SendReload
                } else {
                    Action::Continue
                }
            },
            StreamItem::StreamError => Action::Continue,
            StreamItem::Closed => {
                self.phase = Phase::DoneNormal;
                Action::Stop
            },
        }
    }

    /// Report the outcome of a reload write. A failed write is non-fatal:
    /// the run goes on, and the debounce state keeps the trigger it
    /// recorded, so the failure does not open the window for a burst.
    pub fn on_reload_result(&mut self, _ok: bool)
        requires
            old(self).phase is Running,
        ensures
            *final(self) == *old(self),
    {
    }

    /// The process exit status once the run is over: zero exactly when the
    /// event stream closed normally, one after a fatal startup failure.
    pub fn exit_code(&self) -> (c: i32)
        requires
            self.phase is DoneNormal || self.phase is DoneError,
        ensures
            (c == 0) <==> self.phase is DoneNormal,
            self.phase is DoneError ==> c == 1,
    {
        match self.phase {
            Phase::DoneNormal => 0,
            _ => 1,
        }
    }
}

} // verus!
