//! The state a reactive client hook exposes to rendering, and how one fetch
//! moves it.
use vstd::prelude::*;

verus! {

/// What a hook currently holds.
#[derive(Debug, Clone, PartialEq, Eq)]
pub enum DataState<G> {
    /// Nothing has completed yet.
    Loading,
    /// The last fetch failed with this message.
    Error(String),
    /// The last fetch returned this payload.
    Data(G),
    /// The last fetch returned an empty sequence.
    Empty,
}

/// A hook's state and its two busy flags.
#[derive(Debug, Clone, PartialEq, Eq)]
pub struct ApiHook<G> {
    pub state: DataState<G>,
    /// Set while the very first fetch runs.
    pub is_loading: bool,
    /// Set while any fetch runs.
    pub is_updating: bool,
}

/// The state after a fetch completed with `result`.
pub open spec fn state_after<G>(result: Result<G, String>) -> DataState<G> {
    match result {
        Ok(v) => DataState::Data(v),
        Err(m) => DataState::Error(m),
    }
}

/// The state after a fetch of a sequence completed with `result`: an empty
/// sequence is `Empty`.
pub open spec fn sequence_state_after<U>(result: Result<Vec<U>, String>) -> DataState<Vec<U>> {
    match result {
        Ok(v) => if v@.len() == 0 {
            DataState::Empty
        } else {
            DataState::Data(v)
        },
        Err(m) => DataState::Error(m),
    }
}

impl<G> ApiHook<G> {
    /// A hook before its first fetch: `Loading`, not busy.
    pub fn new() -> (r: ApiHook<G>)
        ensures
            r.state is Loading,
            !r.is_loading,
            !r.is_updating,
    {
        ApiHook { state: DataState::Loading, is_loading: false, is_updating: false }
    }

    /// Marks a fetch as started. The first fetch (state still `Loading`) sets
    /// both flags; a later one sets only `is_updating`. The state is kept.
    pub fn begin_fetch(&mut self)
        ensures
            final(self).state == old(self).state,
            final(self).is_updating,
            final(self).is_loading == (old(self).state is Loading || old(self).is_loading),
    {
        if matches!(self.state, DataState::Loading) {
            self.is_loading = true;
            self.is_updating = true;
        } else {
            self.is_updating = true;
        }
    }

    /// Records a completed fetch: its payload or its message, and no flag set.
    pub fn complete(&mut self, result: Result<G, String>)
        ensures
            final(self).state == state_after(result),
            !final(self).is_loading,
            !final(self).is_updating,
    {
        self.state = match result {
            Ok(v) => DataState::Data(v),
            Err(m) => DataState::Error(m),
        };
        self.is_loading = false;
        self.is_updating = false;
    }
}

impl<U> ApiHook<Vec<U>> {
    /// Records a completed fetch of a sequence: an empty one becomes `Empty`,
    /// any other its payload, a failure its message; no flag stays set.
    pub fn complete_sequence(&mut self, result: Result<Vec<U>, String>)
        ensures
            final(self).state == sequence_state_after(result),
            !final(self).is_loading,
            !final(self).is_updating,
    {
        self.state = match result {
            Ok(v) => if v.len() == 0 {
                DataState::Empty
            } else {
                DataState::Data(v)
            },
            Err(m) => DataState::Error(m),
        };
        self.is_loading = false;
        self.is_updating = false;
    }
}

} // verus!
