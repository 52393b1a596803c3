//! The event loop, without the terminal.
//!
//! The loop is either running or terminated. While it runs, each turn shows
//! the state, waits for one event and handles it; once an exit was requested
//! the loop is terminated and takes no further event. Showing and waiting are
//! the business of the program around this crate; what the events do to the
//! state, and when the loop ends, is decided here.

use crate::input::{event_command, Command, Event};
use crate::state::{App, AppView};
use vstd::prelude::*;

verus! {

/// Where the event loop stands between two turns.
#[derive(Clone, Copy, Debug, PartialEq, Eq, Structural)]
pub enum LoopState {
    /// The next turn is due: show the state and wait for an event.
    Running,
    /// The loop has ended and takes no further event.
    Terminated,
}

impl AppView {
    /// Where the loop stands in this state: it is terminated exactly when an
    /// exit was requested.
    pub open spec fn loop_state(self) -> LoopState {
        if self.exit_requested {
            LoopState::Terminated
        } else {
            LoopState::Running
        }
    }

    /// The state in which the loop ends up when `events` arrive in this
    /// order: each event is handled in its turn, and the events that come
    /// after the loop has terminated are not taken.
    pub open spec fn run(self, events: Seq<Event>) -> AppView
        decreases events.len(),
    {
        if events.len() == 0 || self.exit_requested {
            self
        } else {
            self.handle_events(events[0]).run(events.drop_first())
        }
    }
}

impl App {
    /// Where the loop stands in the current state.
    pub fn loop_state(&self) -> (state: LoopState)
        ensures
            state == self@.loop_state(),
            state == LoopState::Terminated <==> self@.exit_requested,
    {
        if self.exit_requested() {
            LoopState::Terminated
        } else {
            LoopState::Running
        }
    }

    /// Runs the loop over the events of `events`, first to last, and tells
    /// where the loop stands afterwards.
    ///
    /// Events are handled strictly in the order given. The loop stops taking
    /// events as soon as it has terminated, so the events behind the one that
    /// requested the exit have no effect.
    pub fn run(&mut self, events: &Vec<Event>) -> (state: LoopState)
        ensures
            final(self)@ == old(self)@.run(events@),
            final(self)@.wf(),
            state == final(self)@.loop_state(),
            old(self)@.exit_requested ==> final(self)@ == old(self)@,
    {
        proof {
            use_type_invariant(&*self);
            assert(events@.skip(0) =~= events@);
        }
        let mut taken: usize = 0;
        while taken < events.len() && !self.exit_requested()
            invariant
                taken <= events.len(),
                self@.wf(),
                self@.run(events@.skip(taken as int)) == old(self)@.run(events@),
                old(self)@.exit_requested ==> self@ == old(self)@,
            decreases events.len() - taken,
        {
            proof {
                let rest = events@.skip(taken as int);
                assert(rest[0] == events@[taken as int]);
                assert(rest.drop_first() =~= events@.skip(taken + 1));
            }
            self.handle_events(events[taken]);
            taken += 1;
        }
        proof {
            if taken == events.len() {
                assert(events@.skip(taken as int).len() == 0);
            }
        }
        self.loop_state()
    }
}

/// Once the loop has terminated it stays terminated and the state stays as it
/// is, whatever events arrive.
pub proof fn lemma_terminated_is_absorbing(state: AppView, events: Seq<Event>)
    requires
        state.loop_state() == LoopState::Terminated,
    ensures
        state.run(events) == state,
        state.run(events).loop_state() == LoopState::Terminated,
{
}

/// An exit request is never taken back: if it stands before the loop runs,
/// it stands afterwards.
pub proof fn lemma_exit_is_monotonic(state: AppView, events: Seq<Event>)
    requires
        state.exit_requested,
    ensures
        state.run(events).exit_requested,
{
}

/// Running the loop keeps a well-formed state well formed.
pub proof fn lemma_run_preserves_wf(state: AppView, events: Seq<Event>)
    requires
        state.wf(),
    ensures
        state.run(events).wf(),
    decreases events.len(),
{
    if events.len() != 0 && !state.exit_requested {
        lemma_run_preserves_wf(state.handle_events(events[0]), events.drop_first());
    }
}

/// Events take effect in the order in which they arrive: running the loop
/// over `first` followed by `second` is running it over `first` and then,
/// from the state reached, over `second`.
pub proof fn lemma_run_in_order(state: AppView, first: Seq<Event>, second: Seq<Event>)
    ensures
        state.run(first + second) == state.run(first).run(second),
    decreases first.len(),
{
    if first.len() == 0 {
        assert(first + second =~= second);
    } else if state.exit_requested {
    } else {
        assert((first + second)[0] == first[0]);
        assert((first + second).drop_first() =~= first.drop_first() + second);
        lemma_run_in_order(state.handle_events(first[0]), first.drop_first(), second);
    }
}

/// A press of the quit key ends a running loop at the end of its turn: the
/// state is the one before with the exit requested, and the events behind the
/// press are not taken.
pub proof fn lemma_quit_terminates(state: AppView, quit: Event, later: Seq<Event>)
    requires
        event_command(quit) == Command::Quit,
        state.loop_state() == LoopState::Running,
    ensures
        state.run(seq![quit] + later) == state.exit(),
        state.run(seq![quit] + later).loop_state() == LoopState::Terminated,
{
    let events = seq![quit] + later;
    assert(events[0] == quit);
    assert(events.drop_first() =~= later);
    assert(state.handle_events(quit) == state.exit());
    assert(state.run(events) == state.exit().run(later));
}

/// The confirmed selection stays as it is while no event confirms another
/// one, however often the cursor moves in between.
pub proof fn lemma_selection_persists(state: AppView, events: Seq<Event>)
    requires
        forall|i: int|
            0 <= i < events.len() ==> event_command(#[trigger] events[i])
                != Command::ConfirmSelection,
    ensures
        state.run(events).selected_index == state.selected_index,
    decreases events.len(),
{
    if events.len() != 0 && !state.exit_requested {
        let rest = events.drop_first();
        assert forall|i: int| 0 <= i < rest.len() implies event_command(#[trigger] rest[i])
            != Command::ConfirmSelection by {
            assert(rest[i] == events[i + 1]);
        }
        lemma_selection_persists(state.handle_events(events[0]), rest);
    }
}

/// After a confirmation the confirmed row stays selected, however the
/// cursor is moved afterwards, until an event confirms again.
pub proof fn lemma_confirmed_selection_persists(state: AppView, events: Seq<Event>)
    requires
        state.branches.len() > 0,
        forall|i: int|
            0 <= i < events.len() ==> event_command(#[trigger] events[i])
                != Command::ConfirmSelection,
    ensures
        state.confirm_selection().run(events).selected_index == Some(state.cursor_index),
{
    lemma_selection_persists(state.confirm_selection(), events);
}

} // verus!
