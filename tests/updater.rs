use gui_updater::location::{install_url, ReleaseChannel, UpdateTarget};
use gui_updater::progress::{flag_or_idle, progress_or_unknown, Fraction, ProgressState};
use gui_updater::session::{Action, Event, Phase, UpdateOutcome, UpdateSession};

const BASE: &str = "https://github.com/yuezk/GlobalProtect-openconnect/releases/download";

fn target(version: &str, channel: ReleaseChannel, arch: &str) -> UpdateTarget {
    UpdateTarget::new(version.to_string(), channel, arch.to_string())
}

/// Feeds the events a driver reports and collects the actions asked for.
fn drive(session: &mut UpdateSession, events: &[Event]) -> Vec<Action> {
    events.iter().map(|e| session.step(*e)).collect()
}

/// Applies the flag writes of `actions` to a flag that starts false.
fn flag_after(actions: &[Action]) -> bool {
    let mut flag = false;
    for a in actions {
        if let Some(v) = a.flag_write() {
            flag = v;
        }
    }
    flag
}

fn terminal_count(actions: &[Action]) -> usize {
    actions.iter().filter(|a| a.is_notification()).count()
}

#[test]
fn release_urls_follow_template() {
    let t = target("2.3.4", ReleaseChannel::Release, "x86_64");
    assert_eq!(t.release_tag(), "v2.3.4");
    let loc = t.location();
    assert_eq!(loc.artifact_url, format!("{}/v2.3.4/gpgui_x86_64.bin.tar.xz", BASE));
    assert_eq!(loc.checksum_url, format!("{}/v2.3.4/gpgui_x86_64.bin.tar.xz.sha256", BASE));
}

#[test]
fn snapshot_urls_ignore_version() {
    let t = target("2.3.4", ReleaseChannel::Snapshot, "aarch64");
    assert_eq!(t.release_tag(), "snapshot");
    let loc = t.location();
    assert_eq!(loc.artifact_url, format!("{}/snapshot/gpgui_aarch64.bin.tar.xz", BASE));
    assert_eq!(loc.checksum_url, format!("{}.sha256", loc.artifact_url));
}

#[test]
fn checksum_url_is_artifact_url_plus_suffix() {
    for (v, c, a) in [
        ("1.0.0", ReleaseChannel::Release, "x86_64"),
        ("", ReleaseChannel::Release, "aarch64"),
        ("9.9.9-rc1", ReleaseChannel::Snapshot, "x86_64"),
    ] {
        let loc = target(v, c, a).location();
        assert_eq!(loc.checksum_url, format!("{}.sha256", loc.artifact_url));
        assert!(loc.artifact_url.ends_with(&format!("gpgui_{}.bin.tar.xz", a)));
    }
}

#[test]
fn channel_from_build_configuration() {
    assert_eq!(ReleaseChannel::from_build(true, false), ReleaseChannel::Snapshot);
    assert_eq!(ReleaseChannel::from_build(true, true), ReleaseChannel::Snapshot);
    assert_eq!(ReleaseChannel::from_build(false, true), ReleaseChannel::Snapshot);
    assert_eq!(ReleaseChannel::from_build(false, false), ReleaseChannel::Release);
}

#[test]
fn install_url_appends_update_path() {
    assert_eq!(install_url("http://127.0.0.1:8080"), "http://127.0.0.1:8080/update-gui");
}

#[test]
fn session_resolves_urls() {
    let t = target("2.3.4", ReleaseChannel::Release, "x86_64");
    let s = UpdateSession::new(&t);
    assert_eq!(s.phase(), Phase::Idle);
    assert!(!s.is_active());
    assert_eq!(s.outcome(), None);
    assert_eq!(s.artifact_url(), format!("{}/v2.3.4/gpgui_x86_64.bin.tar.xz", BASE));
    assert_eq!(s.checksum_url(), format!("{}/v2.3.4/gpgui_x86_64.bin.tar.xz.sha256", BASE));
}

#[test]
fn successful_update_ends_done() {
    let mut s = UpdateSession::new(&target("1.0.0", ReleaseChannel::Release, "x86_64"));
    assert_eq!(s.step(Event::Start), Action::BeginFetch);
    assert!(s.is_active());
    assert_eq!(s.step(Event::Fetched { artifact_ok: true, checksum_ok: true }), Action::Verify);
    assert!(s.is_active());
    assert_eq!(s.step(Event::Verified { matched: true }), Action::Install);
    assert!(s.is_active());
    assert_eq!(s.step(Event::Installed { accepted: true }), Action::NotifyDone);
    assert!(!s.is_active());
    assert_eq!(s.outcome(), Some(UpdateOutcome::Success));
}

#[test]
fn scenario_install_accepted() {
    let mut s = UpdateSession::new(&target("1.0.0", ReleaseChannel::Release, "x86_64"));
    let acts = drive(
        &mut s,
        &[
            Event::Start,
            Event::Fetched { artifact_ok: true, checksum_ok: true },
            Event::Verified { matched: true },
            Event::Installed { accepted: true },
        ],
    );
    assert_eq!(terminal_count(&acts), 1);
    assert_eq!(acts.iter().filter(|a| **a == Action::NotifyDone).count(), 1);
    assert!(!flag_after(&acts));
}

#[test]
fn scenario_download_network_error() {
    let mut s = UpdateSession::new(&target("1.0.0", ReleaseChannel::Release, "x86_64"));
    let acts = drive(&mut s, &[Event::Start, Event::Fetched { artifact_ok: false, checksum_ok: true }]);
    assert_eq!(acts, vec![Action::BeginFetch, Action::NotifyError]);
    assert!(!acts.contains(&Action::Verify));
    assert!(!acts.contains(&Action::Install));
    assert!(!flag_after(&acts));
    assert_eq!(s.outcome(), Some(UpdateOutcome::DownloadFailed));
}

#[test]
fn checksum_fetch_error_fails_download() {
    let mut s = UpdateSession::new(&target("1.0.0", ReleaseChannel::Release, "x86_64"));
    s.step(Event::Start);
    assert_eq!(s.step(Event::Fetched { artifact_ok: true, checksum_ok: false }), Action::NotifyError);
    assert_eq!(s.outcome(), Some(UpdateOutcome::DownloadFailed));
}

#[test]
fn scenario_checksum_mismatch() {
    // The fetched checksum "abc123" does not match the computed "def456".
    let expected = "abc123";
    let computed = "def456";
    let mut s = UpdateSession::new(&target("1.0.0", ReleaseChannel::Release, "x86_64"));
    let acts = drive(
        &mut s,
        &[
            Event::Start,
            Event::Fetched { artifact_ok: true, checksum_ok: true },
            Event::Verified { matched: expected == computed },
        ],
    );
    assert_eq!(terminal_count(&acts), 1);
    assert_eq!(acts.last(), Some(&Action::NotifyError));
    assert!(!acts.contains(&Action::Install));
    assert_eq!(s.outcome(), Some(UpdateOutcome::ChecksumMismatch));
}

#[test]
fn scenario_install_server_error() {
    let mut s = UpdateSession::new(&target("1.0.0", ReleaseChannel::Release, "x86_64"));
    let acts = drive(
        &mut s,
        &[
            Event::Start,
            Event::Fetched { artifact_ok: true, checksum_ok: true },
            Event::Verified { matched: true },
            Event::Installed { accepted: false },
        ],
    );
    assert_eq!(terminal_count(&acts), 1);
    assert_eq!(acts.iter().filter(|a| **a == Action::NotifyError).count(), 1);
    assert!(!flag_after(&acts));
    assert_eq!(s.outcome(), Some(UpdateOutcome::InstallFailed));
}

#[test]
fn out_of_phase_events_are_ignored() {
    let mut s = UpdateSession::new(&target("1.0.0", ReleaseChannel::Release, "x86_64"));
    assert_eq!(s.step(Event::Verified { matched: true }), Action::Ignore);
    assert_eq!(s.step(Event::Installed { accepted: true }), Action::Ignore);
    assert_eq!(s.phase(), Phase::Idle);
    s.step(Event::Start);
    assert_eq!(s.step(Event::Start), Action::Ignore);
    assert_eq!(s.step(Event::Installed { accepted: true }), Action::Ignore);
    assert_eq!(s.phase(), Phase::Fetching);
}

#[test]
fn finished_session_asks_for_nothing() {
    let mut s = UpdateSession::new(&target("1.0.0", ReleaseChannel::Release, "x86_64"));
    s.step(Event::Start);
    s.step(Event::Fetched { artifact_ok: false, checksum_ok: false });
    for e in [
        Event::Start,
        Event::Fetched { artifact_ok: true, checksum_ok: true },
        Event::Verified { matched: true },
        Event::Installed { accepted: true },
    ] {
        assert_eq!(s.step(e), Action::Ignore);
    }
    assert_eq!(s.outcome(), Some(UpdateOutcome::DownloadFailed));
}

#[test]
fn in_progress_flag_tracks_attempt() {
    let mut s = UpdateSession::new(&target("1.0.0", ReleaseChannel::Release, "x86_64"));
    let events = [
        Event::Start,
        Event::Fetched { artifact_ok: true, checksum_ok: true },
        Event::Verified { matched: true },
        Event::Installed { accepted: true },
    ];
    let mut acts = Vec::new();
    assert!(!flag_after(&acts));
    for e in events {
        acts.push(s.step(e));
        assert_eq!(flag_after(&acts), s.is_active());
    }
    assert!(!flag_after(&acts));
}

#[test]
fn flag_writes_of_actions() {
    assert_eq!(Action::BeginFetch.flag_write(), Some(true));
    assert_eq!(Action::NotifyError.flag_write(), Some(false));
    assert_eq!(Action::NotifyDone.flag_write(), Some(false));
    assert_eq!(Action::Verify.flag_write(), None);
    assert_eq!(Action::Install.flag_write(), None);
    assert_eq!(Action::Ignore.flag_write(), None);
    assert!(Action::NotifyError.is_notification());
    assert!(!Action::Install.is_notification());
}

#[test]
fn fraction_bounds() {
    let f = Fraction::new(3, 4).unwrap();
    assert_eq!((f.done(), f.total()), (3, 4));
    assert!(Fraction::new(4, 4).is_some());
    assert!(Fraction::new(0, 1).is_some());
    assert!(Fraction::new(0, 0).is_none());
    assert!(Fraction::new(5, 4).is_none());
    assert!(Fraction::new(u64::MAX, u64::MAX).is_some());
}

#[test]
fn progress_state_forwards_reports() {
    let mut p = ProgressState::new();
    assert_eq!(p.latest(), None);
    let half = Fraction::new(1, 2);
    assert_eq!(p.record(half), half);
    assert_eq!(p.latest(), half);
    assert_eq!(p.record(None), None);
    assert_eq!(p.latest(), None);
    let done = Fraction::new(10, 10);
    assert_eq!(p.record(done), done);
    assert_eq!(p.latest(), done);
}

#[test]
fn best_effort_reads() {
    assert!(flag_or_idle(Some(true)));
    assert!(!flag_or_idle(Some(false)));
    assert!(!flag_or_idle(None));
    let f = Fraction::new(1, 3);
    assert_eq!(progress_or_unknown(Some(f)), f);
    assert_eq!(progress_or_unknown(Some(None)), None);
    assert_eq!(progress_or_unknown(None), None);
}
