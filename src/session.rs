//! The state machine of one update attempt.
//!
//! The attempt alternates outside work (fetching, verifying, installing) with
//! decisions. The decisions live here: each finished piece of work is handed
//! in as an [`Event`], and the session answers with the next [`Action`] to
//! perform. Whoever drives the attempt performs the action and reports back.
use vstd::prelude::*;
use crate::location::{ArtifactLocation, UpdateTarget, checksum_url_of};

verus! {

/// How an attempt ended.
#[derive(Clone, Copy, Debug, PartialEq, Eq, Structural)]
pub enum UpdateOutcome {
    /// Fetching the artifact or its checksum failed.
    DownloadFailed,
    /// The downloaded artifact did not match its checksum, or could not be read.
    ChecksumMismatch,
    /// The installer service refused or could not be reached.
    InstallFailed,
    /// The installer service accepted the artifact.
    Success,
}

/// Where an attempt stands.
#[derive(Clone, Copy, Debug, PartialEq, Eq, Structural)]
pub enum Phase {
    /// URLs resolved, nothing started yet.
    Idle,
    /// Artifact and checksum are being fetched concurrently.
    Fetching,
    /// The artifact is being checked against the fetched checksum.
    Verifying,
    /// The verified artifact has been handed to the installer service.
    Installing,
    /// The attempt is over; the terminal notification has been asked for.
    Finished(UpdateOutcome),
}

/// The result of a piece of outside work, reported to the session.
#[derive(Clone, Copy, Debug, PartialEq, Eq, Structural)]
pub enum Event {
    /// The driver is ready to begin the attempt.
    Start,
    /// Both fetches have completed; each flag says whether that fetch succeeded.
    Fetched { artifact_ok: bool, checksum_ok: bool },
    /// Verification has completed; `matched` is false on mismatch or read failure.
    Verified { matched: bool },
    /// The install request has completed; `accepted` is false on any failure.
    Installed { accepted: bool },
}

/// What the driver must do next.
#[derive(Clone, Copy, Debug, PartialEq, Eq, Structural)]
pub enum Action {
    /// Mark the update as in progress, then fetch artifact and checksum concurrently.
    BeginFetch,
    /// Verify the downloaded artifact against the fetched checksum.
    Verify,
    /// Hand the verified artifact and its checksum to the installer service.
    Install,
    /// Clear the in-progress mark and emit the error signal.
    NotifyError,
    /// Clear the in-progress mark and emit the done signal.
    NotifyDone,
    /// The event does not belong to the current phase: nothing to do.
    Ignore,
}

/// Whether an attempt in this phase counts as running.
pub open spec fn phase_active(p: Phase) -> bool {
    p is Fetching || p is Verifying || p is Installing
}

/// One step of the machine: the next phase and the action it asks for.
pub open spec fn step_spec(p: Phase, e: Event) -> (Phase, Action) {
    match (p, e) {
        (Phase::Idle, Event::Start) => (Phase::Fetching, Action::BeginFetch),
        (Phase::Fetching, Event::Fetched { artifact_ok, checksum_ok }) =>
            if artifact_ok && checksum_ok {
                (Phase::Verifying, Action::Verify)
            } else {
                (Phase::Finished(UpdateOutcome::DownloadFailed), Action::NotifyError)
            },
        (Phase::Verifying, Event::Verified { matched }) =>
            if matched {
                (Phase::Installing, Action::Install)
            } else {
                (Phase::Finished(UpdateOutcome::ChecksumMismatch), Action::NotifyError)
            },
        (Phase::Installing, Event::Installed { accepted }) =>
            if accepted {
                (Phase::Finished(UpdateOutcome::Success), Action::NotifyDone)
            } else {
                (Phase::Finished(UpdateOutcome::InstallFailed), Action::NotifyError)
            },
        _ => (p, Action::Ignore),
    }
}

impl Action {
    /// A terminal notification: error or done.
    pub open spec fn is_terminal(self) -> bool {
        self is NotifyError || self is NotifyDone
    }

    /// What the action writes to the in-progress flag, if anything.
    pub open spec fn flag_write_spec(self) -> Option<bool> {
        match self {
            Action::BeginFetch => Some(true),
            Action::NotifyError | Action::NotifyDone => Some(false),
            _ => None,
        }
    }

    pub fn is_notification(&self) -> (r: bool)
        ensures
            r == self.is_terminal(),
    {
        match self {
            Action::NotifyError | Action::NotifyDone => true,
            _ => false,
        }
    }

    /// The value the driver stores in the in-progress flag before performing
    /// this action, or `None` when the flag is left alone.
    pub fn flag_write(&self) -> (r: Option<bool>)
        ensures
            r == self.flag_write_spec(),
    {
        match self {
            Action::BeginFetch => Some(true),
            Action::NotifyError | Action::NotifyDone => Some(false),
            _ => None,
        }
    }
}

/// One update attempt: the resolved URLs and the current phase.
pub struct UpdateSession {
    location: ArtifactLocation,
    phase: Phase,
}

impl UpdateSession {
    pub closed spec fn phase_spec(&self) -> Phase {
        self.phase
    }

    pub closed spec fn artifact_url_spec(&self) -> Seq<char> {
        self.location.artifact_url@
    }

    pub closed spec fn checksum_url_spec(&self) -> Seq<char> {
        self.location.checksum_url@
    }

    /// A fresh attempt for `target`, with its URLs resolved and nothing started.
    pub fn new(target: &UpdateTarget) -> (r: UpdateSession)
        ensures
            r.phase_spec() == Phase::Idle,
            r.artifact_url_spec() == target.artifact_url_spec(),
            r.checksum_url_spec() == checksum_url_of(target.artifact_url_spec()),
    {
        UpdateSession { location: target.location(), phase: Phase::Idle }
    }

    pub fn phase(&self) -> (r: Phase)
        ensures
            r == self.phase_spec(),
    {
        self.phase
    }

    pub fn artifact_url(&self) -> (r: &str)
        ensures
            r@ == self.artifact_url_spec(),
    {
        self.location.artifact_url.as_str()
    }

    pub fn checksum_url(&self) -> (r: &str)
        ensures
            r@ == self.checksum_url_spec(),
    {
        self.location.checksum_url.as_str()
    }

    /// Whether the attempt is running: started, and not yet terminally notified.
    pub fn is_active(&self) -> (r: bool)
        ensures
            r == phase_active(self.phase_spec()),
    {
        match self.phase {
            Phase::Fetching | Phase::Verifying | Phase::Installing => true,
            _ => false,
        }
    }

    /// How the attempt ended, once it has.
    pub fn outcome(&self) -> (r: Option<UpdateOutcome>)
        ensures
            r == (match self.phase_spec() {
                Phase::Finished(o) => Some(o),
                _ => None::<UpdateOutcome>,
            }),
    {
        match self.phase {
            Phase::Finished(o) => Some(o),
            _ => None,
        }
    }

    /// Takes the result of the last piece of work and returns the next action.
    /// An event that does not answer the current phase changes nothing.
    pub fn step(&mut self, event: Event) -> (r: Action)
        ensures
            (final(self).phase_spec(), r) == step_spec(old(self).phase_spec(), event),
            final(self).artifact_url_spec() == old(self).artifact_url_spec(),
            final(self).checksum_url_spec() == old(self).checksum_url_spec(),
    {
        let (next, action) = match (self.phase, event) {
            (Phase::Idle, Event::Start) => (Phase::Fetching, Action::BeginFetch),
            (Phase::Fetching, Event::Fetched { artifact_ok, checksum_ok }) => {
                if artifact_ok && checksum_ok {
                    (Phase::Verifying, Action::Verify)
                } else {
                    (Phase::Finished(UpdateOutcome::DownloadFailed), Action::NotifyError)
                }
            },
            (Phase::Verifying, Event::Verified { matched }) => {
                if matched {
                    (Phase::Installing, Action::Install)
                } else {
                    (Phase::Finished(UpdateOutcome::ChecksumMismatch), Action::NotifyError)
                }
            },
            (Phase::Installing, Event::Installed { accepted }) => {
                if accepted {
                    (Phase::Finished(UpdateOutcome::Success), Action::NotifyDone)
                } else {
                    (Phase::Finished(UpdateOutcome::InstallFailed), Action::NotifyError)
                }
            },
            (p, _) => (p, Action::Ignore),
        };
        self.phase = next;
        action
    }
}

} // verus!
