//! Download progress, and the best-effort reads of the shared status.
//!
//! The shared status is read and written without ever waiting for a lock: a
//! read that cannot get the lock answers "unknown" (or "not running"), and a
//! write that cannot get it is dropped. The functions here take the outcome of
//! such a non-blocking read and give the answer.
use vstd::prelude::*;

verus! {

/// A download fraction, as bytes received out of the bytes expected.
#[derive(Clone, Copy, Debug, PartialEq, Eq, Structural)]
pub struct Fraction {
    done: u64,
    total: u64,
}

impl Fraction {
    #[verifier::type_invariant]
    spec fn in_unit_range(self) -> bool {
        0 < self.total && self.done <= self.total
    }

    pub closed spec fn done_spec(self) -> u64 {
        self.done
    }

    pub closed spec fn total_spec(self) -> u64 {
        self.total
    }

    /// `done` out of `total`; there is no fraction when nothing is expected or
    /// more than expected was received.
    pub fn new(done: u64, total: u64) -> (r: Option<Fraction>)
        ensures
            r is Some <==> (0 < total && done <= total),
            r matches Some(f) ==> f.done_spec() == done && f.total_spec() == total,
    {
        if 0 < total && done <= total {
            Some(Fraction { done, total })
        } else {
            None
        }
    }

    pub fn done(&self) -> (r: u64)
        ensures
            r == self.done_spec(),
            r <= self.total_spec(),
    {
        proof { use_type_invariant(self); }
        self.done
    }

    pub fn total(&self) -> (r: u64)
        ensures
            r == self.total_spec(),
            r > 0,
    {
        proof { use_type_invariant(self); }
        self.total
    }
}

/// The last progress that the download reported, kept so that it can be sent
/// again when a UI surface reattaches.
pub struct ProgressState {
    latest: Option<Fraction>,
    seen: Ghost<Set<Fraction>>,
}

impl ProgressState {
    /// The held value, when there is one, was reported by the download.
    pub open spec fn wf(self) -> bool {
        self.latest_spec() matches Some(f) ==> self.seen_spec().contains(f)
    }

    /// The value held: absent before any report, or when the last report was
    /// "unknown".
    pub closed spec fn latest_spec(self) -> Option<Fraction> {
        self.latest
    }

    /// Every fraction the download has reported to this state.
    pub closed spec fn seen_spec(self) -> Set<Fraction> {
        self.seen@
    }

    pub fn new() -> (r: ProgressState)
        ensures
            r.wf(),
            r.latest_spec() is None,
            r.seen_spec() == Set::<Fraction>::empty(),
    {
        ProgressState { latest: None, seen: Ghost(Set::empty()) }
    }

    /// Stores a report from the download and returns what is to be forwarded
    /// to the UI: the report itself, unchanged.
    pub fn record(&mut self, reported: Option<Fraction>) -> (forwarded: Option<Fraction>)
        requires
            old(self).wf(),
        ensures
            final(self).wf(),
            forwarded == reported,
            final(self).latest_spec() == reported,
            final(self).seen_spec() == (match reported {
                Some(f) => old(self).seen_spec().insert(f),
                None => old(self).seen_spec(),
            }),
    {
        self.latest = reported;
        if let Some(f) = reported {
            self.seen = Ghost(self.seen@.insert(f));
        }
        reported
    }

    pub fn latest(&self) -> (r: Option<Fraction>)
        ensures
            r == self.latest_spec(),
    {
        self.latest
    }
}

/// The answer to "is an update running" from a non-blocking read of the flag:
/// the flag when the read got the lock, `false` when it did not.
pub open spec fn flag_reading(read: Option<bool>) -> bool {
    read == Some(true)
}

/// The progress to send again from a non-blocking read of the progress state:
/// the held value when the read got the lock, unknown when it did not.
pub open spec fn progress_reading(read: Option<Option<Fraction>>) -> Option<Fraction> {
    match read {
        Some(p) => p,
        None => None,
    }
}

pub fn flag_or_idle(read: Option<bool>) -> (r: bool)
    ensures
        r == flag_reading(read),
{
    match read {
        Some(flag) => flag,
        None => false,
    }
}

pub fn progress_or_unknown(read: Option<Option<Fraction>>) -> (r: Option<Fraction>)
    ensures
        r == progress_reading(read),
{
    match read {
        Some(p) => p,
        None => None,
    }
}

/// Progress sent again on demand is a fraction that the download reported, or
/// unknown; it is never made up, whether or not the read got the lock.
pub proof fn lemma_resent_progress_was_reported(s: ProgressState, got_lock: bool)
    requires
        s.wf(),
    ensures
        progress_reading(if got_lock { Some(s.latest_spec()) } else { None }) matches Some(f)
            ==> s.seen_spec().contains(f),
{
}

} // verus!
