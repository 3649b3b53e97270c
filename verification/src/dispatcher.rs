use crate::actions::{AppAction, AppActionView};
use crate::api::{ApiRequest, ApiRequestView};
use vstd::prelude::*;

verus! {

/// The pending actions once a deferred task has completed with
/// `produced`: the action it produced goes to the end, and a task that
/// produced none leaves them as they were.
pub open spec fn completed(pending: Seq<AppActionView>, produced: Option<AppActionView>) -> Seq<
    AppActionView,
> {
    match produced {
        Some(action) => pending.push(action),
        None => pending,
    }
}

/// The way from a view-model to the store. It takes actions, and deferred
/// tasks that will produce one, and holds them in the order in which they
/// came until the event loop takes them out. It keeps no state of its own
/// beyond that.
#[derive(Debug, PartialEq, Eq)]
pub struct ActionDispatcher {
    actions: Vec<AppAction>,
    tasks: Vec<ApiRequest>,
}

impl ActionDispatcher {
    /// The actions dispatched and not yet taken out, oldest first.
    pub closed spec fn pending(&self) -> Seq<AppActionView> {
        self.actions.deep_view()
    }

    /// The deferred tasks scheduled and not yet taken out, oldest first.
    pub closed spec fn scheduled(&self) -> Seq<ApiRequestView> {
        self.tasks.deep_view()
    }

    /// A dispatcher that holds nothing.
    pub fn new() -> (dispatcher: Self)
        ensures
            dispatcher.pending() == Seq::<AppActionView>::empty(),
            dispatcher.scheduled() == Seq::<ApiRequestView>::empty(),
    {
        ActionDispatcher { actions: Vec::new(), tasks: Vec::new() }
    }

    /// Hands over `action`: it goes behind the actions dispatched before.
    pub fn dispatch(&mut self, action: AppAction)
        ensures
            final(self).pending() == old(self).pending().push(action.deep_view()),
            final(self).scheduled() == old(self).scheduled(),
    {
        self.actions.push(action);
    }

    /// Schedules the deferred task that performs `task`: it goes behind
    /// the tasks scheduled before. No action is dispatched yet.
    pub fn dispatch_async(&mut self, task: ApiRequest)
        ensures
            final(self).scheduled() == old(self).scheduled().push(task.deep_view()),
            final(self).pending() == old(self).pending(),
    {
        self.tasks.push(task);
    }

    /// Takes the outcome of a deferred task that has completed: the action
    /// it produced is dispatched, and where it produced none nothing
    /// happens.
    pub fn complete_async(&mut self, produced: Option<AppAction>)
        ensures
            final(self).pending() == completed(old(self).pending(), produced.deep_view()),
            final(self).scheduled() == old(self).scheduled(),
    {
        match produced {
            Some(action) => self.dispatch(action),
            None => {},
        }
    }

    /// Takes out the pending actions, oldest first.
    pub fn take_actions(&mut self) -> (actions: Vec<AppAction>)
        ensures
            actions.deep_view() == old(self).pending(),
            final(self).pending() == Seq::<AppActionView>::empty(),
            final(self).scheduled() == old(self).scheduled(),
    {
        let mut actions: Vec<AppAction> = Vec::new();
        actions.append(&mut self.actions);
        actions
    }

    /// Takes out the scheduled tasks, oldest first.
    pub fn take_tasks(&mut self) -> (tasks: Vec<ApiRequest>)
        ensures
            tasks.deep_view() == old(self).scheduled(),
            final(self).scheduled() == Seq::<ApiRequestView>::empty(),
            final(self).pending() == old(self).pending(),
    {
        let mut tasks: Vec<ApiRequest> = Vec::new();
        tasks.append(&mut self.tasks);
        tasks
    }
}

} // verus!
