//! Window events, the actions they map to, and the dispatcher that binds
//! them together.
//!
//! Dispatch is a total function: every event resolves to exactly one action.
//! An idle poll yields [`Action::Idle`], a bound input yields its bound
//! action, and an unbound input yields the no-op action. Bindings are
//! installed from an ordered list where a later entry for the same input
//! overwrites an earlier one.

use vstd::prelude::*;

verus! {

/// An abstract occurrence reported by the window system: either "nothing is
/// pending" or a concrete input.
pub enum Event {
    Idle,
    Input(Input),
}

/// The inputs the sandbox distinguishes.
#[derive(Copy, Clone, PartialEq, Eq, Structural, Debug)]
pub enum Input {
    Close,
}

/// What the main loop is asked to do in response to an event.
#[derive(Copy, Clone, PartialEq, Debug)]
pub enum Action {
    Nop,
    Idle,
    Exit,
    Debug(&'static str),
}

impl Default for Action {
    /// The default action does nothing.
    fn default() -> (r: Self)
        ensures
            r == Action::Nop,
    {
        Action::Nop
    }
}

/// Maps events to actions through a static binding table.
pub struct EventHandler {
    on_close: Action,
}

/// The action bound to `input` by the ordered binding list `s`: the action of
/// the last entry for `input`, or the no-op action when no entry matches.
pub open spec fn bound_action(s: Seq<(Input, Action)>, input: Input) -> Action
    decreases s.len(),
{
    if s.len() == 0 {
        Action::Nop
    } else if s.last().0 == input {
        s.last().1
    } else {
        bound_action(s.drop_last(), input)
    }
}

/// The action `handler` dispatches for `event`: idle polls yield the idle
/// action, and a close input yields whatever action is bound to it.
pub open spec fn dispatched_action(handler: EventHandler, event: Event) -> Action {
    match event {
        Event::Idle => Action::Idle,
        Event::Input(input) => handler.binding(input),
    }
}

impl EventHandler {
    /// The action currently bound to an input.
    pub closed spec fn binding(&self, input: Input) -> Action {
        match input {
            Input::Close => self.on_close,
        }
    }

    /// Builds a dispatcher from an ordered binding list; a later entry for
    /// the same input overwrites an earlier one.
    pub fn from_bindings(bindings: &Vec<(Input, Action)>) -> (r: Self)
        ensures
            forall|input: Input| r.binding(input) == bound_action(bindings@, input),
    {
        let mut ego = Self { on_close: Action::Nop };
        let mut idx: usize = 0;

        while idx < bindings.len()
            invariant
                idx <= bindings@.len(),
                forall|input: Input|
                    ego.binding(input) == bound_action(bindings@.take(idx as int), input),
            decreases bindings@.len() - idx,
        {
            let (input, action) = bindings[idx];

            match input {
                Input::Close => {
                    ego.on_close = action;
                },
            }

            proof {
                assert forall|q: Input|
                    ego.binding(q) == bound_action(bindings@.take(idx + 1), q) by {
                    let taken = bindings@.take(idx + 1);
                    assert(taken.last() == bindings@[idx as int]);
                    assert(taken.drop_last() =~= bindings@.take(idx as int));
                }
            }

            idx = idx + 1;
        }

        proof {
            assert(bindings@.take(bindings@.len() as int) =~= bindings@);
        }

        ego
    }

    /// Resolves an event to exactly one action.
    pub fn handle(&self, event: Event) -> (r: Action)
        ensures
            r == dispatched_action(*self, event),
    {
        match event {
            Event::Idle => Action::Idle,
            Event::Input(input) => self.handle_input(input),
        }
    }

    /// Resolves a concrete input to its bound action.
    pub fn handle_input(&self, input: Input) -> (r: Action)
        ensures
            r == self.binding(input),
    {
        match input {
            Input::Close => self.on_close,
        }
    }
}

impl Default for EventHandler {
    /// A fresh dispatcher leaves every input unbound, so every input resolves
    /// to the no-op action.
    fn default() -> (r: Self)
        ensures
            forall|input: Input| r.binding(input) == Action::Nop,
    {
        Self { on_close: Action::Nop }
    }
}

/// Dispatch is total: for every dispatcher and every event, exactly one
/// action results — the idle action for an idle poll, the bound action for
/// an input.
pub proof fn lemma_dispatch_total(handler: EventHandler, event: Event)
    ensures
        dispatched_action(handler, event) == (match event {
            Event::Idle => Action::Idle,
            Event::Input(input) => handler.binding(input),
        }),
{
}

/// An input that no entry of the binding list mentions resolves to the no-op
/// action.
pub proof fn lemma_unbound_input_is_nop(s: Seq<(Input, Action)>, input: Input)
    requires
        forall|j: int| 0 <= j < s.len() ==> (#[trigger] s[j]).0 != input,
    ensures
        bound_action(s, input) == Action::Nop,
    decreases s.len(),
{
    if s.len() > 0 {
        lemma_unbound_input_is_nop(s.drop_last(), input);
    }
}

/// Later bindings override earlier ones: appending an entry for an input
/// makes that entry's action the bound one, whatever came before.
pub proof fn lemma_binding_override(s: Seq<(Input, Action)>, input: Input, action: Action)
    ensures
        bound_action(s.push((input, action)), input) == action,
{
    assert(s.push((input, action)).last() == (input, action));
}

} // verus!
