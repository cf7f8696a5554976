//! Properties of whole attempts, stated over runs of the session machine.
use vstd::prelude::*;
use crate::session::{Action, Event, Phase, UpdateOutcome, phase_active, step_spec};

verus! {

/// The phase reached and the actions asked for when `events` are fed, in
/// order, to a session that stands in phase `p`.
pub open spec fn run(p: Phase, events: Seq<Event>) -> (Phase, Seq<Action>)
    decreases events.len(),
{
    if events.len() == 0 {
        (p, Seq::<Action>::empty())
    } else {
        let (q, a) = step_spec(p, events[0]);
        let (r, rest) = run(q, events.drop_first());
        (r, seq![a] + rest)
    }
}

/// How many terminal notifications (error or done) `acts` holds.
pub open spec fn terminal_count(acts: Seq<Action>) -> nat
    decreases acts.len(),
{
    if acts.len() == 0 {
        0
    } else {
        (if acts[0].is_terminal() { 1nat } else { 0nat }) + terminal_count(acts.drop_first())
    }
}

/// How many times `acts` asks for `a`.
pub open spec fn action_count(acts: Seq<Action>, a: Action) -> nat
    decreases acts.len(),
{
    if acts.len() == 0 {
        0
    } else {
        (if acts[0] == a { 1nat } else { 0nat }) + action_count(acts.drop_first(), a)
    }
}

/// The in-progress flag after a driver that starts from `flag` has applied the
/// flag writes of `acts` in order.
pub open spec fn flag_after(flag: bool, acts: Seq<Action>) -> bool
    decreases acts.len(),
{
    if acts.len() == 0 {
        flag
    } else {
        let next = match acts[0].flag_write_spec() {
            Some(v) => v,
            None => flag,
        };
        flag_after(next, acts.drop_first())
    }
}

/// The events a driver reports when it answers every action of an attempt:
/// start, the joined result of both fetches, then the verification result if
/// both fetches succeeded, then the install result if verification matched.
pub open spec fn attempt_events(artifact_ok: bool, checksum_ok: bool, matched: bool, accepted: bool) -> Seq<Event> {
    let fetched = seq![Event::Start, Event::Fetched { artifact_ok, checksum_ok }];
    if !(artifact_ok && checksum_ok) {
        fetched
    } else if !matched {
        fetched.push(Event::Verified { matched })
    } else {
        fetched.push(Event::Verified { matched }).push(Event::Installed { accepted })
    }
}

proof fn lemma_run_unfold(p: Phase, events: Seq<Event>)
    requires
        events.len() > 0,
    ensures
        ({
            let (q, a) = step_spec(p, events[0]);
            let (r, rest) = run(q, events.drop_first());
            &&& run(p, events).0 == r
            &&& run(p, events).1 == seq![a] + rest
            &&& (seq![a] + rest).len() > 0
            &&& (seq![a] + rest)[0] == a
            &&& (seq![a] + rest).drop_first() == rest
        }),
{
    let (q, a) = step_spec(p, events[0]);
    let (r, rest) = run(q, events.drop_first());
    assert((seq![a] + rest).drop_first() =~= rest);
}

proof fn lemma_run_len(p: Phase, events: Seq<Event>)
    ensures
        run(p, events).1.len() == events.len(),
    decreases events.len(),
{
    if events.len() > 0 {
        let (q, a) = step_spec(p, events[0]);
        lemma_run_len(q, events.drop_first());
    }
}

/// A finished attempt stays finished and asks for nothing more.
pub proof fn lemma_finished_is_inert(o: UpdateOutcome, events: Seq<Event>)
    ensures
        run(Phase::Finished(o), events).0 == Phase::Finished(o),
        forall|i: int| 0 <= i < events.len() ==> #[trigger] run(Phase::Finished(o), events).1[i] == Action::Ignore,
        run(Phase::Finished(o), events).1.len() == events.len(),
    decreases events.len(),
{
    if events.len() > 0 {
        lemma_run_unfold(Phase::Finished(o), events);
        lemma_finished_is_inert(o, events.drop_first());
        let acts = run(Phase::Finished(o), events).1;
        assert forall|i: int| 0 <= i < events.len() implies #[trigger] acts[i] == Action::Ignore by {
            if i > 0 {
                assert(acts[i] == run(Phase::Finished(o), events.drop_first()).1[i - 1]);
            }
        }
    }
}

proof fn lemma_counts_of_inert(acts: Seq<Action>)
    requires
        forall|i: int| 0 <= i < acts.len() ==> #[trigger] acts[i] == Action::Ignore,
    ensures
        terminal_count(acts) == 0,
        action_count(acts, Action::BeginFetch) == 0,
        action_count(acts, Action::Verify) == 0,
        action_count(acts, Action::Install) == 0,
        forall|f: bool| flag_after(f, acts) == f,
    decreases acts.len(),
{
    if acts.len() > 0 {
        assert(acts[0] == Action::Ignore);
        let rest = acts.drop_first();
        assert forall|i: int| 0 <= i < rest.len() implies #[trigger] rest[i] == Action::Ignore by {
            assert(rest[i] == acts[i + 1]);
        }
        lemma_counts_of_inert(rest);
        assert forall|f: bool| flag_after(f, acts) == f by {
            assert(flag_after(f, rest) == f);
        }
    }
}

/// Every run, from any phase: the attempt is finished at the end exactly when
/// it was finished at the start or one terminal notification was asked for;
/// never more than one is asked for; and the in-progress flag, as written by
/// the actions, tracks whether the attempt is running.
proof fn lemma_run_shape(p: Phase, events: Seq<Event>)
    ensures
        terminal_count(run(p, events).1) <= (if p is Finished { 0nat } else { 1nat }),
        (run(p, events).0 is Finished) == (p is Finished || terminal_count(run(p, events).1) == 1),
        flag_after(phase_active(p), run(p, events).1) == phase_active(run(p, events).0),
        p is Idle ==> (run(p, events).0 is Idle) == (action_count(run(p, events).1, Action::BeginFetch) == 0),
        !(p is Idle) ==> action_count(run(p, events).1, Action::BeginFetch) == 0,
        !(p is Idle) ==> !(run(p, events).0 is Idle),
    decreases events.len(),
{
    if events.len() > 0 {
        lemma_run_unfold(p, events);
        let (q, a) = step_spec(p, events[0]);
        lemma_run_shape(q, events.drop_first());
        if let Phase::Finished(o) = q {
            lemma_finished_is_inert(o, events.drop_first());
            lemma_counts_of_inert(run(q, events.drop_first()).1);
        }
    }
}

/// One attempt gives at most one terminal notification, whatever the driver
/// reports and in whatever order; it is over exactly when it gave one.
pub proof fn lemma_at_most_one_terminal(events: Seq<Event>)
    ensures
        terminal_count(run(Phase::Idle, events).1) <= 1,
        (run(Phase::Idle, events).0 is Finished) == (terminal_count(run(Phase::Idle, events).1) == 1),
{
    lemma_run_shape(Phase::Idle, events);
}

/// After a terminal notification the attempt asks for nothing more: no
/// verification, no install, no second notification.
pub proof fn lemma_nothing_after_terminal(events: Seq<Event>, i: int, j: int)
    requires
        0 <= i < j < events.len(),
        run(Phase::Idle, events).1[i].is_terminal(),
    ensures
        run(Phase::Idle, events).1[j] == Action::Ignore,
{
    lemma_nothing_after_terminal_from(Phase::Idle, events, i, j);
}

proof fn lemma_nothing_after_terminal_from(p: Phase, events: Seq<Event>, i: int, j: int)
    requires
        0 <= i < j < events.len(),
        run(p, events).1[i].is_terminal(),
    ensures
        run(p, events).1[j] == Action::Ignore,
    decreases events.len(),
{
    lemma_run_unfold(p, events);
    let (q, a) = step_spec(p, events[0]);
    let rest = events.drop_first();
    lemma_run_len(q, rest);
    if i == 0 {
        if let Phase::Finished(o) = q {
            lemma_finished_is_inert(o, rest);
            assert(run(p, events).1[j] == run(q, rest).1[j - 1]);
        }
    } else {
        assert(run(p, events).1[i] == run(q, rest).1[i - 1]);
        assert(run(p, events).1[j] == run(q, rest).1[j - 1]);
        lemma_nothing_after_terminal_from(q, rest, i - 1, j - 1);
    }
}

/// The in-progress flag, starting false and written by the actions of an
/// attempt, is true exactly when the attempt has begun fetching and has not
/// yet given its terminal notification. Taking `events` to be any prefix of
/// the reports gives this at every moment of the attempt.
pub proof fn lemma_in_progress_flag(events: Seq<Event>)
    ensures
        ({
            let (r, acts) = run(Phase::Idle, events);
            &&& flag_after(false, acts) == phase_active(r)
            &&& phase_active(r) == (action_count(acts, Action::BeginFetch) > 0 && terminal_count(acts) == 0)
        }),
{
    lemma_run_shape(Phase::Idle, events);
}

/// An attempt whose driver answers every action ends with exactly one
/// terminal notification, as its last action, and with the flag cleared.
pub proof fn lemma_exactly_one_terminal(artifact_ok: bool, checksum_ok: bool, matched: bool, accepted: bool)
    ensures
        ({
            let (r, acts) = run(Phase::Idle, attempt_events(artifact_ok, checksum_ok, matched, accepted));
            &&& r is Finished
            &&& terminal_count(acts) == 1
            &&& acts.last().is_terminal()
            &&& !flag_after(false, acts)
        }),
{
    let events = attempt_events(artifact_ok, checksum_ok, matched, accepted);
    reveal_with_fuel(run, 5);
    lemma_run_shape(Phase::Idle, events);
}

/// A failed fetch ends the attempt with an error: nothing is verified and
/// nothing installed.
pub proof fn lemma_fetch_failure_stops(artifact_ok: bool, checksum_ok: bool, matched: bool, accepted: bool)
    requires
        !(artifact_ok && checksum_ok),
    ensures
        ({
            let (r, acts) = run(Phase::Idle, attempt_events(artifact_ok, checksum_ok, matched, accepted));
            &&& r == Phase::Finished(UpdateOutcome::DownloadFailed)
            &&& action_count(acts, Action::Verify) == 0
            &&& action_count(acts, Action::Install) == 0
            &&& acts.last() == Action::NotifyError
        }),
{
    reveal_with_fuel(run, 3);
    reveal_with_fuel(action_count, 3);
}

/// A checksum mismatch ends the attempt with an error: nothing is installed.
pub proof fn lemma_mismatch_stops(artifact_ok: bool, checksum_ok: bool, matched: bool, accepted: bool)
    requires
        artifact_ok && checksum_ok,
        !matched,
    ensures
        ({
            let (r, acts) = run(Phase::Idle, attempt_events(artifact_ok, checksum_ok, matched, accepted));
            &&& r == Phase::Finished(UpdateOutcome::ChecksumMismatch)
            &&& action_count(acts, Action::Install) == 0
            &&& acts.last() == Action::NotifyError
        }),
{
    reveal_with_fuel(run, 4);
    reveal_with_fuel(action_count, 4);
}

} // verus!
