use crate::actions::{AppAction, AppActionView, AppEvent};
use crate::app_state::{lemma_reduce_all_push, AppState, AppStateView};
use crate::dispatcher::ActionDispatcher;
use vstd::prelude::*;

verus! {

/// The store: the one owner of the application state. Everybody else reads
/// through shared borrows; the state changes only where an action is
/// applied here.
#[derive(Debug, PartialEq, Eq)]
pub struct AppModel {
    state: AppState,
}

impl DeepView for AppModel {
    type V = AppStateView;

    open spec fn deep_view(&self) -> AppStateView {
        self.state().deep_view()
    }
}

impl AppModel {
    /// The state that the store holds.
    pub closed spec fn state(&self) -> AppState {
        self.state
    }

    /// A store that holds `state`.
    pub fn new(state: AppState) -> (model: Self)
        ensures
            model.state() == state,
    {
        AppModel { state }
    }

    /// The current state, for reading.
    pub fn get_state(&self) -> (state: &AppState)
        ensures
            *state == self.state(),
    {
        &self.state
    }

    /// Reads a slice of the current state: hands the state to `map` and
    /// returns what `map` picked, or nothing where `map` found that the
    /// slice is not there.
    pub fn map_state_opt<'a, T, F: FnOnce(&'a AppState) -> Option<&'a T>>(&'a self, map: F) -> (slice:
        Option<&'a T>)
        requires
            call_requires(map, (&self.state(),)),
        ensures
            call_ensures(map, (&self.state(),), slice),
    {
        map(&self.state)
    }

    /// Applies `action` to the state and returns the events that tell
    /// what changed.
    pub fn update_state(&mut self, action: AppAction) -> (events: Vec<AppEvent>)
        ensures
            final(self).deep_view() == old(self).deep_view().reduce(action.deep_view()),
            events@ == old(self).deep_view().events_for(action.deep_view()),
    {
        self.state.update_state(action)
    }

    /// Applies `actions` one after the other, from the first to the last,
    /// and returns the events of all of them in the order of emission.
    pub fn update_all(&mut self, actions: Vec<AppAction>) -> (events: Vec<AppEvent>)
        ensures
            final(self).deep_view() == old(self).deep_view().reduce_all(actions.deep_view()),
            events@ == old(self).deep_view().events_for_all(actions.deep_view()),
    {
        let ghost start = self.deep_view();
        let ghost all = actions.deep_view();
        let mut events: Vec<AppEvent> = Vec::new();
        for action in it: actions
            invariant
                it.seq() == actions@,
                all == actions.deep_view(),
                self.deep_view() == start.reduce_all(all.take(it.index())),
                events@ == start.events_for_all(all.take(it.index())),
        {
            proof {
                lemma_reduce_all_push(start, all.take(it.index()), action.deep_view());
                assert(all.take(it.index() + 1) =~= all.take(it.index()).push(action.deep_view()));
            }
            let mut emitted = self.update_state(action);
            events.append(&mut emitted);
        }
        assert(all.take(all.len() as int) =~= all);
        events
    }

    /// Takes the actions that `dispatcher` holds and applies them in the
    /// order in which they were dispatched. The dispatcher keeps its
    /// scheduled tasks.
    pub fn apply_pending(&mut self, dispatcher: &mut ActionDispatcher) -> (events: Vec<AppEvent>)
        ensures
            final(self).deep_view() == old(self).deep_view().reduce_all(old(dispatcher).pending()),
            events@ == old(self).deep_view().events_for_all(old(dispatcher).pending()),
            final(dispatcher).pending() == Seq::<AppActionView>::empty(),
            final(dispatcher).scheduled() == old(dispatcher).scheduled(),
    {
        let actions = dispatcher.take_actions();
        self.update_all(actions)
    }
}

} // verus!
