//! Deciding when the shader is rebuilt: on a newer modification time of its
//! source file, or on a manual request.
use vstd::prelude::*;

verus! {

/// What prompts the updater to consider a rebuild.
pub enum UpdateTrigger {
    /// A periodic poll. Holds the modification time of the source file in
    /// nanoseconds, or `None` when it could not be read.
    Poll(Option<u128>),
    /// An explicit request (a key press): always rebuild.
    Manual,
}

/// Remembers the last modification time of the shader source that was
/// acted upon.
pub struct ChangeDetector {
    /// Last observed modification time, in nanoseconds.
    pub last_modified: u128,
}

/// Whether a poll that observed `observed` reports a change, given the
/// stored time `last`.
pub open spec fn poll_changed(last: u128, observed: Option<u128>) -> bool {
    match observed {
        Some(t) => t > last,
        None => false,
    }
}

/// The stored time after a poll that observed `observed`.
pub open spec fn poll_next(last: u128, observed: Option<u128>) -> u128 {
    if poll_changed(last, observed) {
        observed->Some_0
    } else {
        last
    }
}

impl ChangeDetector {
    /// Starts from the modification time `initial`.
    pub fn new(initial: u128) -> (d: Self)
        ensures
            d.last_modified == initial,
    {
        ChangeDetector { last_modified: initial }
    }

    /// Compares an observed modification time with the stored one. Reports a
    /// change, and stores the new time, only when the observed time is
    /// later. A time that could not be read is no change.
    pub fn poll(&mut self, observed: Option<u128>) -> (changed: bool)
        ensures
            changed == poll_changed(old(self).last_modified, observed),
            final(self).last_modified == poll_next(old(self).last_modified, observed),
    {
        match observed {
            Some(t) => {
                if t > self.last_modified {
                    self.last_modified = t;
                    true
                } else {
                    false
                }
            },
            None => false,
        }
    }

    /// Whether `trigger` calls for a rebuild. A manual trigger always does
    /// and leaves the stored time alone; a poll goes through [`Self::poll`].
    pub fn should_rebuild(&mut self, trigger: UpdateTrigger) -> (rebuild: bool)
        ensures
            trigger is Manual ==> rebuild && final(self).last_modified == old(self).last_modified,
            trigger matches UpdateTrigger::Poll(obs) ==> {
                &&& rebuild == poll_changed(old(self).last_modified, obs)
                &&& final(self).last_modified == poll_next(old(self).last_modified, obs)
            },
    {
        match trigger {
            UpdateTrigger::Manual => true,
            UpdateTrigger::Poll(observed) => self.poll(observed),
        }
    }
}

/// A modification is reported once: polling again with the same time after
/// a reported change reports nothing.
pub proof fn lemma_change_reported_once(last: u128, observed: u128)
    ensures
        poll_changed(last, Some(observed)) ==> !poll_changed(
            poll_next(last, Some(observed)),
            Some(observed),
        ),
{
}

} // verus!
