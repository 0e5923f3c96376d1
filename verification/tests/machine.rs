use nextcloud_updater::desktop::DesktopFile;
use nextcloud_updater::orchestrator::{Action, Event, Op, Orchestrator, Outcome, first_version_line};

fn some_home() -> Option<String> {
    Some("/home/u".to_string())
}

#[test]
fn install_when_already_installed_only_reports() {
    let (m, a) = Orchestrator::start(Op::Install, some_home(), None);
    match a {
        Action::ProbeDescriptor { path } => {
            assert_eq!(path, "/home/u/.local/share/applications/nextcloud.desktop")
        },
        _ => panic!("expected a descriptor probe"),
    }
    let (m, a) = m.step(Event::Probed { exists: true });
    assert!(matches!(
        a,
        Some(Action::Report { outcome: Outcome::AlreadyInstalled })
    ));
    // A finished machine stays silent.
    let (_, a) = m.step(Event::Done { ok: true });
    assert!(a.is_none());
}

#[test]
fn install_aborts_before_download_when_dir_exists() {
    let (m, _) = Orchestrator::start(Op::Install, some_home(), Some("v9.9.9".to_string()));
    let (m, a) = m.step(Event::Probed { exists: false });
    // The explicit version resolves locally: no fetch of the latest version.
    match a {
        Some(Action::ProbeInstallDir { path }) => {
            assert_eq!(path, "/home/u/.local/bin/nextcloud")
        },
        _ => panic!("expected an install-directory probe"),
    }
    let (_, a) = m.step(Event::Probed { exists: true });
    match a {
        Some(Action::Report { outcome: Outcome::InstallDirExists { dir } }) => {
            assert_eq!(dir, "/home/u/.local/bin/nextcloud")
        },
        _ => panic!("expected an install-directory report"),
    }
}

#[test]
fn install_scenario_explicit_version() {
    let (m, _) = Orchestrator::start(Op::Install, some_home(), Some("3.2.1".to_string()));
    let (m, a) = m.step(Event::Probed { exists: false });
    assert!(matches!(a, Some(Action::ProbeInstallDir { .. })));
    let (m, a) = m.step(Event::Probed { exists: false });
    match a {
        Some(Action::CreateInstallDir { path }) => {
            assert_eq!(path, "/home/u/.local/bin/nextcloud")
        },
        _ => panic!("expected directory creation"),
    }
    let (m, a) = m.step(Event::Done { ok: true });
    match a {
        Some(Action::Download { url, target }) => {
            assert_eq!(
                url,
                "https://github.com/nextcloud-releases/desktop/releases/download/v3.2.1/Nextcloud-3.2.1-x86_64.AppImage"
            );
            assert_eq!(
                target,
                "/home/u/.local/bin/nextcloud/Nextcloud-3.2.1-x86_64.AppImage"
            );
        },
        _ => panic!("expected a download"),
    }
    let (m, a) = m.step(Event::Done { ok: true });
    match a {
        Some(Action::WriteDescriptor { path, file }) => {
            assert_eq!(path, "/home/u/.local/share/applications/nextcloud.desktop");
            assert_eq!(file.name, "Nextcloud");
            assert_eq!(
                file.exec_path,
                "/home/u/.local/bin/nextcloud/Nextcloud-3.2.1-x86_64.AppImage"
            );
            assert_eq!(file.icon, "@APPLICATION_EXECUTABLE@");
            assert_eq!(file.terminal, false);
            assert_eq!(file.app_type, "Application");
            assert_eq!(file.categories, "Utility");
        },
        _ => panic!("expected a descriptor write"),
    }
    let (_, a) = m.step(Event::Done { ok: true });
    match a {
        Some(Action::Report { outcome: Outcome::Installed { exec_path } }) => {
            assert_eq!(
                exec_path,
                "/home/u/.local/bin/nextcloud/Nextcloud-3.2.1-x86_64.AppImage"
            );
        },
        _ => panic!("expected a success report"),
    }
}

#[test]
fn update_scenario_latest_version() {
    let old = DesktopFile::new(
        "My Name".to_string(),
        "/home/u/.local/bin/nextcloud/Nextcloud-3.2.0-x86_64.AppImage".to_string(),
        "icon".to_string(),
        true,
        "Application".to_string(),
        "Utility".to_string(),
    );
    let (m, _) = Orchestrator::start(Op::Update, some_home(), None);
    let (m, a) = m.step(Event::Probed { exists: true });
    assert!(matches!(a, Some(Action::FetchLatest)));
    let (m, a) = m.step(Event::Latest { version: Some("v3.3.0".to_string()) });
    assert!(matches!(a, Some(Action::ReadDescriptor { .. })));
    let (m, a) = m.step(Event::Parsed { file: Some(old) });
    match a {
        Some(Action::ProbeExec { path }) => {
            assert_eq!(path, "/home/u/.local/bin/nextcloud/Nextcloud-3.2.0-x86_64.AppImage")
        },
        _ => panic!("expected an executable probe"),
    }
    let (m, a) = m.step(Event::Probed { exists: true });
    match a {
        Some(Action::Download { url, target }) => {
            assert_eq!(
                url,
                "https://github.com/nextcloud-releases/desktop/releases/download/v3.3.0/Nextcloud-3.3.0-x86_64.AppImage"
            );
            assert_eq!(
                target,
                "/home/u/.local/bin/nextcloud/Nextcloud-3.3.0-x86_64.AppImage"
            );
        },
        _ => panic!("expected a download"),
    }
    let (m, a) = m.step(Event::Done { ok: true });
    match a {
        Some(Action::WriteDescriptor { path, file }) => {
            assert_eq!(path, "/home/u/.local/share/applications/nextcloud.desktop");
            assert_eq!(file.name, "My Name");
            assert_eq!(
                file.exec_path,
                "/home/u/.local/bin/nextcloud/Nextcloud-3.3.0-x86_64.AppImage"
            );
            assert_eq!(file.icon, "icon");
            assert_eq!(file.terminal, true);
            assert_eq!(file.app_type, "Application");
            assert_eq!(file.categories, "Utility");
        },
        _ => panic!("expected a descriptor write"),
    }
    let (_, a) = m.step(Event::Done { ok: true });
    match a {
        Some(Action::Report { outcome: Outcome::Updated { version } }) => {
            assert_eq!(version, "3.3.0")
        },
        _ => panic!("expected a success report"),
    }
}

#[test]
fn update_without_descriptor_reports_not_installed() {
    let (m, _) = Orchestrator::start(Op::Update, some_home(), None);
    let (m, a) = m.step(Event::Probed { exists: false });
    assert!(matches!(
        a,
        Some(Action::Report { outcome: Outcome::NotInstalled })
    ));
    let (_, a) = m.step(Event::Latest { version: Some("v1".to_string()) });
    assert!(a.is_none());
}

#[test]
fn update_with_missing_executable_reports_corruption() {
    let old = DesktopFile::new(
        "n".to_string(),
        "/gone".to_string(),
        "i".to_string(),
        false,
        "t".to_string(),
        "c".to_string(),
    );
    let (m, _) = Orchestrator::start(Op::Update, some_home(), Some("3.0.0".to_string()));
    let (m, a) = m.step(Event::Probed { exists: true });
    assert!(matches!(a, Some(Action::ReadDescriptor { .. })));
    let (m, a) = m.step(Event::Parsed { file: Some(old) });
    assert!(matches!(a, Some(Action::ProbeExec { .. })));
    let (_, a) = m.step(Event::Probed { exists: false });
    match a {
        Some(Action::Report { outcome: Outcome::Corrupted { exec_path } }) => {
            assert_eq!(exec_path, "/gone")
        },
        _ => panic!("expected a corruption report"),
    }
}

#[test]
fn update_with_unreadable_descriptor() {
    let (m, _) = Orchestrator::start(Op::Update, some_home(), Some("3.0.0".to_string()));
    let (m, _) = m.step(Event::Probed { exists: true });
    let (_, a) = m.step(Event::Parsed { file: None });
    assert!(matches!(
        a,
        Some(Action::Report { outcome: Outcome::Unreadable })
    ));
}

#[test]
fn version_resolution_failure_aborts() {
    let (m, _) = Orchestrator::start(Op::Install, some_home(), None);
    let (m, a) = m.step(Event::Probed { exists: false });
    assert!(matches!(a, Some(Action::FetchLatest)));
    let (_, a) = m.step(Event::Latest { version: None });
    assert!(matches!(
        a,
        Some(Action::Report { outcome: Outcome::VersionUnknown })
    ));
}

#[test]
fn missing_home_directory() {
    let (_, a) = Orchestrator::start(Op::Update, None, None);
    assert!(matches!(
        a,
        Action::Report { outcome: Outcome::NotInstalled }
    ));
    let (_, a) = Orchestrator::start(Op::Status, None, None);
    assert!(matches!(
        a,
        Action::Report { outcome: Outcome::NotInstalled }
    ));
    // Install resolves its explicit version first and then fails on the
    // unknown install location.
    let (_, a) = Orchestrator::start(Op::Install, None, Some("1.0".to_string()));
    assert!(matches!(
        a,
        Action::Report { outcome: Outcome::EnvUnavailable }
    ));
}

#[test]
fn status_reports_version_banner() {
    let d = DesktopFile::new(
        "n".to_string(),
        "/home/u/.local/bin/nextcloud/app".to_string(),
        "i".to_string(),
        false,
        "t".to_string(),
        "c".to_string(),
    );
    let (m, _) = Orchestrator::start(Op::Status, some_home(), None);
    let (m, a) = m.step(Event::Probed { exists: true });
    assert!(matches!(a, Some(Action::ReadDescriptor { .. })));
    let (m, a) = m.step(Event::Parsed { file: Some(d) });
    assert!(matches!(a, Some(Action::ProbeExec { .. })));
    let (m, a) = m.step(Event::Probed { exists: true });
    match a {
        Some(Action::QueryVersion { exec_path }) => {
            assert_eq!(exec_path, "/home/u/.local/bin/nextcloud/app")
        },
        _ => panic!("expected a version query"),
    }
    let output = vec![
        "some noise".to_string(),
        "Nextcloud version 3.2.1".to_string(),
        "Nextcloud version 9.9.9".to_string(),
    ];
    let (_, a) = m.step(Event::Output { lines: Some(output) });
    match a {
        Some(Action::Report { outcome: Outcome::Banner { line } }) => {
            assert_eq!(line, Some("Nextcloud version 3.2.1".to_string()))
        },
        _ => panic!("expected a banner report"),
    }
}

#[test]
fn status_on_missing_descriptor_and_failing_query() {
    let (m, _) = Orchestrator::start(Op::Status, some_home(), None);
    let (_, a) = m.step(Event::Probed { exists: false });
    assert!(matches!(
        a,
        Some(Action::Report { outcome: Outcome::NotInstalled })
    ));

    let d = DesktopFile::new(
        "n".to_string(),
        "/e".to_string(),
        "i".to_string(),
        false,
        "t".to_string(),
        "c".to_string(),
    );
    let (m, _) = Orchestrator::start(Op::Status, some_home(), None);
    let (m, _) = m.step(Event::Probed { exists: true });
    let (m, _) = m.step(Event::Parsed { file: Some(d) });
    let (m, _) = m.step(Event::Probed { exists: true });
    let (_, a) = m.step(Event::Output { lines: None });
    assert!(matches!(
        a,
        Some(Action::Report { outcome: Outcome::QueryFailed })
    ));
}

#[test]
fn banner_scan_takes_the_first_match() {
    let out = vec![
        "x".to_string(),
        "Nextcloud version 1".to_string(),
        "Nextcloud version 2".to_string(),
    ];
    assert_eq!(first_version_line(&out), Some("Nextcloud version 1".to_string()));
    assert_eq!(first_version_line(&vec!["nothing".to_string()]), None);
    assert_eq!(first_version_line(&vec![]), None);
}

#[test]
fn create_dir_failure_aborts_install() {
    let (m, _) = Orchestrator::start(Op::Install, some_home(), Some("1.0".to_string()));
    let (m, _) = m.step(Event::Probed { exists: false });
    let (m, _) = m.step(Event::Probed { exists: false });
    let (_, a) = m.step(Event::Done { ok: false });
    match a {
        Some(Action::Report { outcome: Outcome::CreateDirFailed { dir } }) => {
            assert_eq!(dir, "/home/u/.local/bin/nextcloud")
        },
        _ => panic!("expected a creation failure report"),
    }
}

#[test]
fn download_and_write_failures_abort() {
    let (m, _) = Orchestrator::start(Op::Install, some_home(), Some("1.0".to_string()));
    let (m, _) = m.step(Event::Probed { exists: false });
    let (m, _) = m.step(Event::Probed { exists: false });
    let (m, _) = m.step(Event::Done { ok: true });
    let (_, a) = m.step(Event::Done { ok: false });
    assert!(matches!(
        a,
        Some(Action::Report { outcome: Outcome::DownloadFailed })
    ));

    let (m, _) = Orchestrator::start(Op::Install, some_home(), Some("1.0".to_string()));
    let (m, _) = m.step(Event::Probed { exists: false });
    let (m, _) = m.step(Event::Probed { exists: false });
    let (m, _) = m.step(Event::Done { ok: true });
    let (m, _) = m.step(Event::Done { ok: true });
    let (_, a) = m.step(Event::Done { ok: false });
    assert!(matches!(
        a,
        Some(Action::Report { outcome: Outcome::WriteFailed })
    ));
}

#[test]
fn unexpected_events_change_nothing() {
    let (m, _) = Orchestrator::start(Op::Install, some_home(), None);
    let (m, a) = m.step(Event::Done { ok: true });
    assert!(a.is_none());
    // Still waiting on the probe: the machine answers it as before.
    let (_, a) = m.step(Event::Probed { exists: true });
    assert!(matches!(
        a,
        Some(Action::Report { outcome: Outcome::AlreadyInstalled })
    ));
}
