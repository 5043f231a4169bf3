use desktop_shell::{
    check_for_updates, get_app_version, is_online, startup_notice, Platform, ProbeOutcome,
    UpdaterReport, APP_VERSION, CHECK_FAILED_PREFIX, UNAVAILABLE_MESSAGE, UNSUPPORTED_MESSAGE,
    UPDATE_NOTICE_PREFIX,
};

fn all_reports() -> Vec<UpdaterReport> {
    vec![
        UpdaterReport::Unavailable,
        UpdaterReport::CheckFailed("connection refused".to_string()),
        UpdaterReport::UpToDate,
        UpdaterReport::Available("2.0.0".to_string()),
    ]
}

#[test]
fn version_is_declared_version() {
    assert_eq!(get_app_version(), "0.1.0");
    assert_eq!(get_app_version(), APP_VERSION);
}

#[test]
fn version_is_stable_and_non_empty() {
    let first = get_app_version();
    let second = get_app_version();
    assert!(!first.is_empty());
    assert_eq!(first, second);
    assert_eq!(first.split('.').count(), 3);
    assert!(first.split('.').all(|p| !p.is_empty() && p.chars().all(|c| c.is_ascii_digit())));
}

#[test]
fn offline_when_probe_unreachable() {
    assert!(!is_online(ProbeOutcome::Unreachable));
}

#[test]
fn online_when_probe_returns_200() {
    assert!(is_online(ProbeOutcome::Responded(200)));
}

#[test]
fn online_status_class_edges() {
    assert!(is_online(ProbeOutcome::Responded(204)));
    assert!(is_online(ProbeOutcome::Responded(299)));
    assert!(!is_online(ProbeOutcome::Responded(199)));
    assert!(!is_online(ProbeOutcome::Responded(300)));
    assert!(!is_online(ProbeOutcome::Responded(404)));
    assert!(!is_online(ProbeOutcome::Responded(503)));
}

#[test]
fn mobile_update_check_is_unsupported_for_every_report() {
    for report in all_reports() {
        assert_eq!(
            check_for_updates(Platform::Mobile, report),
            Err("Updates not supported on this platform".to_string())
        );
    }
    assert_eq!(UNSUPPORTED_MESSAGE, "Updates not supported on this platform");
}

#[test]
fn desktop_up_to_date_gives_no_version() {
    assert_eq!(check_for_updates(Platform::Desktop, UpdaterReport::UpToDate), Ok(None));
}

#[test]
fn desktop_available_gives_reported_version() {
    assert_eq!(
        check_for_updates(Platform::Desktop, UpdaterReport::Available("1.4.2-beta.1".to_string())),
        Ok(Some("1.4.2-beta.1".to_string()))
    );
}

#[test]
fn desktop_missing_updater_is_an_error() {
    assert_eq!(
        check_for_updates(Platform::Desktop, UpdaterReport::Unavailable),
        Err("Updater not available".to_string())
    );
    assert_eq!(UNAVAILABLE_MESSAGE, "Updater not available");
}

#[test]
fn desktop_failed_check_carries_the_cause() {
    assert_eq!(
        check_for_updates(
            Platform::Desktop,
            UpdaterReport::CheckFailed("Network error: timed out".to_string())
        ),
        Err("Update check failed: Network error: timed out".to_string())
    );
    assert_eq!(CHECK_FAILED_PREFIX, "Update check failed: ");
}

#[test]
fn desktop_failed_check_with_empty_cause() {
    assert_eq!(
        check_for_updates(Platform::Desktop, UpdaterReport::CheckFailed(String::new())),
        Err("Update check failed: ".to_string())
    );
}

#[test]
fn startup_notice_names_new_version() {
    assert_eq!(
        startup_notice(Platform::Desktop, UpdaterReport::Available("0.2.0".to_string())),
        Some("Update available: 0.2.0".to_string())
    );
    assert_eq!(UPDATE_NOTICE_PREFIX, "Update available: ");
}

#[test]
fn startup_notice_silent_otherwise() {
    assert_eq!(startup_notice(Platform::Desktop, UpdaterReport::UpToDate), None);
    assert_eq!(startup_notice(Platform::Desktop, UpdaterReport::Unavailable), None);
    assert_eq!(
        startup_notice(Platform::Desktop, UpdaterReport::CheckFailed("bad signature".to_string())),
        None
    );
    for report in all_reports() {
        assert_eq!(startup_notice(Platform::Mobile, report), None);
    }
}

#[test]
fn only_desktop_runs_updates() {
    assert!(Platform::Desktop.is_desktop());
    assert!(!Platform::Mobile.is_desktop());
}
