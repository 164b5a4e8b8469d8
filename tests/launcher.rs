use kok_launcher::feed::{check_for_updates, is_success, release_tag, remote_version, FeedResponse};
use kok_launcher::launcher::{Action, Event, Phase, EXIT_FAILURE, EXIT_SUCCESS};
use kok_launcher::update::{
    after_step, download_url, extracted_dir_name, merge_entry, staged_path, update_plan, EntryKind, FileOp,
    StagedEntry, UpdateProgress, UpdateStep,
};
use kok_launcher::version::{local_version, strip_version_prefix, trim_version_prefix};

fn feed(status: u16, body: &str) -> Option<FeedResponse> {
    Some(FeedResponse { status, body: body.to_string() })
}

fn remote_phase(local: &str) -> Phase {
    Phase::start().next(Event::LocalVersionRead { contents: Some(local.to_string()) })
}

#[test]
fn strip_removes_one_leading_v() {
    assert_eq!(strip_version_prefix("v1.2.0"), "1.2.0");
    assert_eq!(strip_version_prefix("vv1.2.0"), "v1.2.0");
}

#[test]
fn strip_keeps_unprefixed_tags() {
    assert_eq!(strip_version_prefix("1.2.0"), "1.2.0");
    assert_eq!(strip_version_prefix(""), "");
    assert_eq!(strip_version_prefix("1.v2"), "1.v2");
    let once = strip_version_prefix("v1.2.0");
    assert_eq!(strip_version_prefix(&once), once);
}

#[test]
fn trim_prefix_removes_every_leading_v() {
    assert_eq!(trim_version_prefix("vv1.0"), "1.0");
    assert_eq!(trim_version_prefix("1.0"), "1.0");
    assert_eq!(trim_version_prefix("vvv"), "");
}

#[test]
fn local_version_is_trimmed() {
    assert_eq!(local_version("  1.0.0\n"), "1.0.0");
    assert_eq!(local_version("1.0.0"), "1.0.0");
}

#[test]
fn success_statuses_are_the_2xx_class() {
    assert!(is_success(200));
    assert!(is_success(299));
    assert!(!is_success(199));
    assert!(!is_success(300));
    assert!(!is_success(404));
}

#[test]
fn remote_version_strips_tag_on_success() {
    assert_eq!(remote_version(200, Some("v1.1.0".to_string())), Some("1.1.0".to_string()));
    assert_eq!(remote_version(404, Some("v1.1.0".to_string())), None);
    assert_eq!(remote_version(200, None), None);
}

#[test]
fn release_tag_reads_first_release() {
    let body = r#"[{"tag_name":"v1.1.0"},{"tag_name":"v1.0.0"}]"#;
    assert_eq!(release_tag(body), Some("v1.1.0".to_string()));
}

#[test]
fn release_tag_of_bad_feeds_is_none() {
    assert_eq!(release_tag("[]"), None);
    assert_eq!(release_tag("not json"), None);
    assert_eq!(release_tag(""), None);
    assert_eq!(release_tag(r#"[{"name":"x"}]"#), None);
    assert_eq!(release_tag(r#"[{"tag_name":5}]"#), None);
    assert_eq!(release_tag(r#"{"tag_name":"v1.0.0"}"#), None);
}

#[test]
fn check_for_updates_outcomes() {
    assert_eq!(check_for_updates(None), None);
    assert_eq!(check_for_updates(feed(500, r#"[{"tag_name":"v1.1.0"}]"#)), None);
    assert_eq!(check_for_updates(feed(200, "[]")), None);
    assert_eq!(check_for_updates(feed(200, "{")), None);
    assert_eq!(
        check_for_updates(feed(200, r#"[{"tag_name":"v1.1.0"}]"#)),
        Some("1.1.0".to_string())
    );
    assert_eq!(
        check_for_updates(feed(200, r#"[{"tag_name":"2.0"}]"#)),
        Some("2.0".to_string())
    );
}

#[test]
fn archive_url_and_extracted_dir() {
    assert_eq!(download_url("1.1.0"), "https://github.com/Trenclik/KOK/archive/1.1.0.zip");
    assert_eq!(download_url("v1.1.0"), "https://github.com/Trenclik/KOK/archive/v1.1.0.zip");
    assert_eq!(extracted_dir_name("v1.1.0"), "kok-1.1.0");
    assert_eq!(extracted_dir_name("1.1.0"), "kok-1.1.0");
    assert_eq!(staged_path("app.py"), "temp/app.py");
}

#[test]
fn update_plan_runs_download_to_cleanup() {
    let plan = update_plan("1.1.0");
    assert_eq!(plan.len(), 6);
    assert!(matches!(&plan[0], UpdateStep::Download { url, archive }
        if url == "https://github.com/Trenclik/KOK/archive/1.1.0.zip" && archive == "update.zip"));
    assert!(matches!(&plan[1], UpdateStep::Extract { archive, into }
        if archive == "update.zip" && into == "."));
    assert!(matches!(&plan[2], UpdateStep::Rename { from, to }
        if from == "kok-1.1.0" && to == "temp"));
    assert!(matches!(&plan[3], UpdateStep::MergeStaging { staging } if staging == "temp"));
    assert!(matches!(&plan[4], UpdateStep::RemoveDir { path } if path == "temp"));
    assert!(matches!(&plan[5], UpdateStep::RemoveFile { path } if path == "update.zip"));
}

#[test]
fn merge_replaces_existing_file() {
    let entry = StagedEntry {
        name: "app.py".to_string(),
        kind: EntryKind::File,
        existing: Some(EntryKind::File),
    };
    let ops = merge_entry(&entry);
    assert_eq!(ops.len(), 2);
    assert!(matches!(&ops[0], FileOp::RemoveFile { path } if path == "app.py"));
    assert!(matches!(&ops[1], FileOp::CopyFile { from, to }
        if from == "temp/app.py" && to == "app.py"));
}

#[test]
fn merge_copies_new_file() {
    let entry = StagedEntry { name: "new.txt".to_string(), kind: EntryKind::File, existing: None };
    let ops = merge_entry(&entry);
    assert_eq!(ops.len(), 1);
    assert!(matches!(&ops[0], FileOp::CopyFile { from, to }
        if from == "temp/new.txt" && to == "new.txt"));
}

#[test]
fn merge_copies_directory_whole() {
    let entry = StagedEntry {
        name: "assets".to_string(),
        kind: EntryKind::Directory,
        existing: Some(EntryKind::Directory),
    };
    let ops = merge_entry(&entry);
    assert_eq!(ops.len(), 2);
    assert!(matches!(&ops[0], FileOp::RemoveDir { path } if path == "assets"));
    assert!(matches!(&ops[1], FileOp::CopyDir { from, to }
        if from == "temp/assets" && to == "assets"));
}

#[test]
fn update_iff_versions_differ() {
    let offered = remote_version(200, Some("v1.0.0".to_string()));
    let p = remote_phase("1.0.0").next(Event::RemoteVersionChecked { version: offered });
    assert!(matches!(p, Phase::Launching));
    let offered = remote_version(200, Some("v0.9.0".to_string()));
    let p = remote_phase("1.0.0").next(Event::RemoteVersionChecked { version: offered });
    assert!(matches!(&p, Phase::Updating { version } if version == "0.9.0"));
}

#[test]
fn malformed_feed_launches_directly() {
    let offered = check_for_updates(feed(200, "[]"));
    let p = remote_phase("1.0.0").next(Event::RemoteVersionChecked { version: offered });
    assert!(matches!(p, Phase::Launching));
    assert!(matches!(p.action(), Action::Launch));
    let offered = check_for_updates(feed(200, "garbage"));
    let p = remote_phase("1.0.0").next(Event::RemoteVersionChecked { version: offered });
    assert!(matches!(p, Phase::Launching));
}

#[test]
fn equal_versions_launch_directly() {
    let offered = check_for_updates(feed(200, r#"[{"tag_name":"v1.0.0"}]"#));
    let p = remote_phase("1.0.0\n").next(Event::RemoteVersionChecked { version: offered });
    assert!(matches!(p, Phase::Launching));
    let p = p.next(Event::LaunchFinished { started: true });
    assert!(matches!(p.action(), Action::Exit { code } if code == EXIT_SUCCESS));
    assert_eq!(EXIT_SUCCESS, 0);
}

#[test]
fn newer_release_is_applied_then_launched() {
    let offered = check_for_updates(feed(200, r#"[{"tag_name":"v1.1.0"}]"#));
    let p = remote_phase("1.0.0").next(Event::RemoteVersionChecked { version: offered });
    assert!(matches!(p.action(), Action::ApplyUpdate { version } if version == "1.1.0"));
    let p = p.next(Event::UpdateFinished { ok: true });
    assert!(matches!(p.action(), Action::Launch));
    let p = p.next(Event::LaunchFinished { started: true });
    assert!(p.is_done());
    assert!(matches!(p.action(), Action::Exit { code } if code == 0));
}

#[test]
fn failed_update_exits_without_launch() {
    let offered = check_for_updates(feed(200, r#"[{"tag_name":"v1.1.0"}]"#));
    let p = remote_phase("1.0.0").next(Event::RemoteVersionChecked { version: offered });
    let p = p.next(Event::UpdateFinished { ok: false });
    assert!(matches!(p.action(), Action::Exit { code } if code == EXIT_FAILURE));
    assert_eq!(EXIT_FAILURE, 1);
    let p = p.next(Event::LaunchFinished { started: true });
    assert!(matches!(p.action(), Action::Exit { code } if code == 1));
}

#[test]
fn rerun_after_update_is_up_to_date() {
    let offered = check_for_updates(feed(200, r#"[{"tag_name":"v1.1.0"}]"#));
    let p = remote_phase("1.1.0\n").next(Event::RemoteVersionChecked { version: offered });
    assert!(matches!(p, Phase::Launching));
}

#[test]
fn unreadable_version_file_fails_before_feed() {
    let p = Phase::start();
    assert!(matches!(p.action(), Action::ReadLocalVersion));
    let p = p.next(Event::LocalVersionRead { contents: None });
    assert!(matches!(p.action(), Action::Exit { code } if code == 1));
}

#[test]
fn launch_failure_exits_with_failure() {
    let p = remote_phase("1.0.0").next(Event::RemoteVersionChecked { version: None });
    let p = p.next(Event::LaunchFinished { started: false });
    assert!(matches!(p.action(), Action::Exit { code } if code == 1));
}

#[test]
fn foreign_events_leave_phase_unchanged() {
    let p = Phase::start().next(Event::UpdateFinished { ok: true });
    assert!(matches!(p, Phase::CheckingLocalVersion));
    let p = remote_phase("1.0.0").next(Event::LaunchFinished { started: true });
    assert!(matches!(&p, Phase::CheckingRemoteVersion { local } if local == "1.0.0"));
}

#[test]
fn update_run_advances_until_finished() {
    assert_eq!(after_step(0, 6, true), UpdateProgress::Run(1));
    assert_eq!(after_step(4, 6, true), UpdateProgress::Run(5));
    assert_eq!(after_step(5, 6, true), UpdateProgress::Finished);
}

#[test]
fn update_run_stops_at_first_failure() {
    assert_eq!(after_step(0, 6, false), UpdateProgress::Failed);
    assert_eq!(after_step(5, 6, false), UpdateProgress::Failed);
}

#[test]
fn local_version_trims_unicode_whitespace() {
    assert_eq!(local_version("\u{a0}1.0.0\u{3000}\t"), "1.0.0");
    assert_eq!(local_version(" \n "), "");
}
