use vstd::prelude::*;

verus! {

/// Geometry and open/closed status of an editor, kept across window lifetimes.
///
/// The size is in logical pixels, before any scale factor is applied.
#[derive(Clone, Copy, Debug)]
pub struct BaseviewState {
    size: (u32, u32),
    open: bool,
}

/// The abstract value of a [`BaseviewState`].
pub struct StateView {
    pub size: (u32, u32),
    pub open: bool,
}

/// The persisted part of a [`BaseviewState`]: the open flag is never stored.
#[derive(Clone, Copy, Debug)]
pub struct PersistedState {
    pub size: (u32, u32),
}

impl View for BaseviewState {
    type V = StateView;

    closed spec fn view(&self) -> StateView {
        StateView { size: self.size, open: self.open }
    }
}

impl StateView {
    /// The state once a window has been created for it.
    pub open spec fn opened(self) -> StateView {
        StateView { size: self.size, open: true }
    }

    /// The state once its window has been disposed of.
    pub open spec fn closed(self) -> StateView {
        StateView { size: self.size, open: false }
    }

    /// What is written when the state is persisted.
    pub open spec fn persisted(self) -> PersistedState {
        PersistedState { size: self.size }
    }
}

/// A fresh, closed state restored from persisted data.
pub open spec fn restored(p: PersistedState) -> StateView {
    StateView { size: p.size, open: false }
}

impl BaseviewState {
    /// Initialize the editor's state with a window size in logical pixels.
    pub fn from_size(width: u32, height: u32) -> (r: BaseviewState)
        ensures
            r@.size == (width, height),
            !r@.open,
    {
        BaseviewState { size: (width, height), open: false }
    }

    /// The `(width, height)` of the editor in logical pixels.
    pub fn size(&self) -> (r: (u32, u32))
        ensures
            r == self@.size,
    {
        self.size
    }

    /// Whether the editor's window is currently open.
    pub fn is_open(&self) -> (r: bool)
        ensures
            r == self@.open,
    {
        self.open
    }

    /// Record that a window has been fully created.
    pub fn mark_open(&mut self)
        ensures
            final(self)@ == old(self)@.opened(),
    {
        self.open = true;
    }

    /// Record that the window has been disposed of.
    pub fn mark_closed(&mut self)
        ensures
            final(self)@ == old(self)@.closed(),
    {
        self.open = false;
    }

    /// The data to persist: the size alone.
    pub fn persisted(&self) -> (r: PersistedState)
        ensures
            r == self@.persisted(),
    {
        PersistedState { size: self.size }
    }

    /// Restore a fresh, closed state from persisted data.
    pub fn from_persisted(p: PersistedState) -> (r: BaseviewState)
        ensures
            r@ == restored(p),
    {
        BaseviewState { size: p.size, open: false }
    }

    /// Merge a loaded value into the live state: only the size is taken over.
    pub fn set(&mut self, new_value: BaseviewState)
        ensures
            final(self)@ == (StateView { size: new_value@.size, open: old(self)@.open }),
    {
        self.size = new_value.size;
    }
}

/// Persisting a state and restoring it yields a closed state of the same size,
/// whether or not the editor was open when it was persisted.
pub proof fn lemma_persist_round_trip(s: StateView)
    ensures
        restored(s.persisted()).size == s.size,
        !restored(s.persisted()).open,
{
}

/// Opening and then closing a window leaves the size as it was and the editor
/// closed, so that it can be opened again.
pub proof fn lemma_open_close_repeatable(s: StateView)
    requires
        !s.open,
    ensures
        s.opened().open,
        s.opened().size == s.size,
        !s.opened().closed().open,
        s.opened().closed() == s,
{
}

} // verus!
