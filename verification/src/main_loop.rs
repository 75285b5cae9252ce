//! The main loop's decision step: what to do for one window event.
//!
//! The caller pumps native events, measures elapsed real time, and performs
//! what the step decides: stop on the exit action, produce one frame on an
//! idle tick — after the pacer has drained whole ticks from the elapsed
//! time — and otherwise just carry on.

use crate::event::dispatched_action;
use crate::event::Action;
use crate::event::Event;
use crate::event::EventHandler;
use crate::pacing::drained_accumulator;
use crate::pacing::Pacer;
use vstd::prelude::*;

verus! {

/// What the caller must do after one event was processed.
#[derive(Copy, Clone, PartialEq, Eq, Structural, Debug)]
pub enum LoopCmd {
    /// Nothing to do; pump the next event.
    Continue,
    /// Produce one frame, then pump the next event.
    RenderFrame,
    /// Leave the loop immediately.
    Stop,
}

/// The command each action translates to: exit stops the loop, an idle
/// tick renders one frame, everything else is a no-op.
pub open spec fn spec_loop_cmd(action: Action) -> LoopCmd {
    match action {
        Action::Exit => LoopCmd::Stop,
        Action::Idle => LoopCmd::RenderFrame,
        Action::Nop => LoopCmd::Continue,
        Action::Debug(_) => LoopCmd::Continue,
    }
}

/// Dispatches events and paces frame production.
pub struct MainLoop {
    pub handler: EventHandler,
    pub pacer: Pacer,
}

impl MainLoop {
    /// Starts with the given bindings and an empty accumulator.
    pub fn new(handler: EventHandler) -> (r: Self)
        ensures
            r.handler == handler,
            r.pacer.accrued() == 0,
    {
        MainLoop { handler, pacer: Pacer::new() }
    }

    /// Processes one event: dispatches it, and on an idle tick feeds the
    /// elapsed real time to the pacer before asking for a frame. The
    /// bindings never change, and the accumulator moves only on a tick.
    pub fn step(&mut self, event: Event, elapsed_micros: u64) -> (cmd: LoopCmd)
        requires
            old(self).pacer.accrued() + elapsed_micros <= u64::MAX,
        ensures
            cmd == spec_loop_cmd(dispatched_action(old(self).handler, event)),
            final(self).handler == old(self).handler,
            dispatched_action(old(self).handler, event) == Action::Idle ==> final(self).pacer.accrued() == drained_accumulator(old(self).pacer.accrued() as int, elapsed_micros as int),
            dispatched_action(old(self).handler, event) != Action::Idle ==> final(self).pacer
                == old(self).pacer,
    {
        match self.handler.handle(event) {
            Action::Exit => LoopCmd::Stop,
            Action::Idle => {
                let _ticks: u64 = self.pacer.advance(elapsed_micros);
                LoopCmd::RenderFrame
            },
            Action::Nop => LoopCmd::Continue,
            Action::Debug(_) => LoopCmd::Continue,
        }
    }
}

} // verus!
