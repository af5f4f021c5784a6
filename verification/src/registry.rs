use vstd::prelude::*;

verus! {

/// The process-wide selection state: the hostname of the currently selected
/// device. The empty string is the sentinel for "no device selected"; every
/// consumer must treat it as the absence case and refuse to act on it.
///
/// A `Registry` value holds the sequential semantics of the store; callers
/// that share it across tasks wrap it in an exclusive-access primitive and
/// capture a snapshot with `get` before acting on it.
pub struct Registry {
    selected: String,
}

/// The registry state after a write of `h`: a write overwrites
/// unconditionally, with no existence check.
pub open spec fn registry_write(h: Seq<char>) -> Seq<char> {
    h
}

/// What a read returns in a given registry state.
pub open spec fn registry_read(state: Seq<char>) -> Seq<char> {
    state
}

impl View for Registry {
    type V = Seq<char>;

    closed spec fn view(&self) -> Seq<char> {
        self.selected@
    }
}

impl Registry {
    /// No device is selected: the stored hostname is the empty sentinel.
    pub open spec fn spec_is_empty(&self) -> bool {
        self@.len() == 0
    }

    /// A fresh registry with nothing selected.
    pub fn new() -> (r: Registry)
        ensures
            r@ == Seq::<char>::empty(),
    {
        Registry { selected: String::new() }
    }

    /// Snapshot of the currently selected hostname (empty when none).
    pub fn get(&self) -> (r: String)
        ensures
            r@ == registry_read(self@),
    {
        self.selected.clone()
    }

    /// Unconditional overwrite of the selection; no check that the hostname
    /// was ever discovered.
    pub fn set(&mut self, hostname: String)
        ensures
            final(self)@ == registry_write(hostname@),
    {
        self.selected = hostname;
    }

    /// Whether nothing is selected.
    pub fn is_empty(&self) -> (r: bool)
        ensures
            r == self.spec_is_empty(),
    {
        self.selected.as_str().is_empty()
    }
}

/// Law: a read after a write of `h`, with no intervening write, returns
/// exactly `h`, for every hostname `h` including the empty one.
pub proof fn lemma_read_after_write(h: Seq<char>)
    ensures
        registry_read(registry_write(h)) == h,
{
}

} // verus!
