use vstd::prelude::*;

verus! {

/// A pair of a processing state and the event that is being processed in it.
#[derive(Clone, Copy, Debug, PartialEq, Eq, Hash)]
pub struct Context<St, Ev> {
    pub state: St,
    pub event: Ev,
}

impl<St, Ev> Context<St, Ev> {
    /// Builds a context from a state and an event.
    pub fn new(state: St, event: Ev) -> (res: Self)
        ensures
            res.state == state,
            res.event == event,
    {
        Self { state, event }
    }

    /// Splits the context back into its state and its event.
    pub fn split(self) -> (res: (St, Ev))
        ensures
            res.0 == self.state,
            res.1 == self.event,
    {
        (self.state, self.event)
    }

    /// Replaces the state by the image of `func`; the event is kept.
    pub fn map_state<F, St2>(self, func: F) -> (res: Context<St2, Ev>)
        where
            F: FnOnce(St) -> St2,
        requires
            func.requires((self.state,)),
        ensures
            func.ensures((self.state,), res.state),
            res.event == self.event,
    {
        Context::new(func(self.state), self.event)
    }

    /// Replaces the event by the image of `func`; the state is kept.
    pub fn map_event<F, Ev2>(self, func: F) -> (res: Context<St, Ev2>)
        where
            F: FnOnce(Ev) -> Ev2,
        requires
            func.requires((self.event,)),
        ensures
            res.state == self.state,
            func.ensures((self.event,), res.event),
    {
        Context::new(self.state, func(self.event))
    }

    /// Replaces both the state and the event by the image of `func`.
    pub fn map<F, St2, Ev2>(self, func: F) -> (res: Context<St2, Ev2>)
        where
            F: FnOnce(St, Ev) -> (St2, Ev2),
        requires
            func.requires((self.state, self.event)),
        ensures
            func.ensures((self.state, self.event), (res.state, res.event)),
    {
        let (state, event) = func(self.state, self.event);
        Context::new(state, event)
    }
}

} // verus!
