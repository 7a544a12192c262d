use eawsl::filesystem::file_extension;
use eawsl::metadata::{refresh_after_download, refresh_after_write, refresh_first_step, RefreshStep};
use eawsl::filesystem::{
    file_size_from_metadata, probe_directory_entries, probe_from_metadata, resolve_storage_anchor, validate_probe_path,
    AncestorFact, AnchorSearch, DirEntryFact, FileFacts, FileSizeProbeError, FileSystemPathProbe,
    FileSystemProbeError, PathMetadata, PathVolumeSpaceQueryError, ProbeNext, WriteTextError,
};
use eawsl::metadata::{
    cache_after_download, collect_distribution_metadata, distribution_info_url, format_long_task_history_write_error,
    format_write_error, is_cache_fresh, normalize_optional_string, ArchitectureDownload, DistroMetadataCache,
    LegacyDistribution, ModernDistribution,
};
use eawsl::overview::{
    effective_scope, overview_payload, overview_script_options, overview_script_outcome, overview_timeout_error,
    scope_variable, SystemOverviewQueryError, SystemOverviewScope, HOST_QUERY_TIMEOUT_MS,
};
use eawsl::settings::{
    default_app_settings, normalize_app_settings, normalize_background_refresh, ordered_background_refresh_targets,
    AppSettings, BackgroundRefreshSettings, BackgroundRefreshTarget, SettingsWriteError,
};

const DAY_MS: u64 = 24 * 60 * 60 * 1000;

fn settings(location: &str, interval_minutes: u16, targets: Vec<BackgroundRefreshTarget>) -> AppSettings {
    AppSettings {
        default_install_location: location.to_string(),
        background_refresh: BackgroundRefreshSettings { interval_minutes, targets },
    }
}

// ---------------------------------------------------------------------------
// Settings
// ---------------------------------------------------------------------------

#[test]
fn write_settings_rejects_empty_location() {
    let err = normalize_app_settings(AppSettings {
        default_install_location: "   ".to_string(),
        background_refresh: BackgroundRefreshSettings::default(),
    })
    .expect_err("empty location should fail");

    assert_eq!(err.to_message(), "Default install location cannot be empty.");
}

#[test]
fn write_settings_rejects_invalid_background_refresh() {
    let interval_err = normalize_app_settings(settings("D:\\WSL", 0, vec![BackgroundRefreshTarget::Distros]))
        .expect_err("zero interval should fail");
    assert_eq!(interval_err.to_message(), "Background refresh interval must be between 1 and 1440 minutes, got 0.");

    let interval_err = normalize_app_settings(settings("D:\\WSL", 1441, vec![BackgroundRefreshTarget::Distros]))
        .expect_err("too large interval should fail");
    assert_eq!(interval_err.to_message(), "Background refresh interval must be between 1 and 1440 minutes, got 1441.");

    let targets_err =
        normalize_app_settings(settings("D:\\WSL", 15, Vec::new())).expect_err("empty targets should fail");
    assert_eq!(targets_err.to_message(), "Background refresh targets cannot be empty.");
}

#[test]
fn settings_normalization_trims_location_and_orders_targets() {
    let saved = normalize_app_settings(settings(
        "  D:\\WSL  ",
        5,
        vec![
            BackgroundRefreshTarget::OnlineDistros,
            BackgroundRefreshTarget::Distros,
            BackgroundRefreshTarget::Distros,
            BackgroundRefreshTarget::WslVersion,
        ],
    ))
    .expect("settings should be accepted");

    assert_eq!(saved.default_install_location, r"D:\WSL");
    assert_eq!(saved.background_refresh.interval_minutes, 5);
    assert_eq!(
        saved.background_refresh.targets,
        vec![BackgroundRefreshTarget::Distros, BackgroundRefreshTarget::WslVersion, BackgroundRefreshTarget::OnlineDistros]
    );
    let again = normalize_app_settings(saved.clone()).expect("normalised settings stay valid");
    assert_eq!(again, saved);
}

#[test]
fn default_settings_refresh_three_targets_every_quarter_hour() {
    let defaults = default_app_settings("D:\\DefaultWSL");
    assert_eq!(defaults.default_install_location, "D:\\DefaultWSL");
    assert_eq!(defaults.background_refresh.interval_minutes, 15);
    assert_eq!(
        defaults.background_refresh.targets,
        vec![
            BackgroundRefreshTarget::Distros,
            BackgroundRefreshTarget::SystemOverviewStorage,
            BackgroundRefreshTarget::WslVersion,
        ]
    );
    assert_eq!(ordered_background_refresh_targets().len(), 4);
    assert_eq!(ordered_background_refresh_targets()[3], BackgroundRefreshTarget::OnlineDistros);
}

#[test]
fn refresh_interval_bounds_are_inclusive() {
    let one = normalize_background_refresh(BackgroundRefreshSettings {
        interval_minutes: 1,
        targets: vec![BackgroundRefreshTarget::WslVersion],
    });
    assert!(one.is_ok());
    let day = normalize_background_refresh(BackgroundRefreshSettings {
        interval_minutes: 1440,
        targets: vec![BackgroundRefreshTarget::WslVersion],
    });
    assert!(day.is_ok());
}

#[test]
fn settings_write_errors_name_the_file_problem() {
    let err: SettingsWriteError =
        WriteTextError::Write { path: "C:/s.json".to_string(), source: "denied".to_string() }.into();
    assert!(err.to_message().contains("C:/s.json"));
    assert!(err.to_message().contains("denied"));
}

// ---------------------------------------------------------------------------
// Filesystem facts
// ---------------------------------------------------------------------------

#[test]
fn path_volume_space_errors_use_stable_user_message() {
    let err = resolve_storage_anchor("", Err("unused".to_string())).expect_err("empty path should fail");

    assert_eq!(err.to_user_message(), "Failed to read volume free space information.");
    assert!(matches!(err, PathVolumeSpaceQueryError::InvalidPath));
}

#[test]
fn filesystem_probe_reports_missing_path_without_error() {
    let probe = match probe_from_metadata("C:/missing", PathMetadata::Missing) {
        ProbeNext::Finished(Ok(probe)) => probe,
        other => panic!("missing path should be a valid probe result: {other:?}"),
    };

    assert!(!probe.exists);
    assert!(!probe.is_file);
    assert!(!probe.is_dir);
    assert_eq!(probe.direct_child_count, None);
}

#[test]
fn filesystem_probe_errors_use_stable_user_message() {
    let err = validate_probe_path("").expect_err("empty path should fail");

    assert_eq!(err.to_user_message(), "Failed to read filesystem information.");
    assert!(matches!(err, FileSystemProbeError::InvalidPath));
}

fn file_entry(extension: Option<&str>) -> DirEntryFact {
    DirEntryFact::Read { file_type: Ok(true), extension: extension.map(|e| e.to_string()) }
}

#[test]
fn directory_probe_counts_children_and_vhdx_files() {
    let probe = probe_directory_entries(
        "D:/dir",
        false,
        true,
        Ok(vec![file_entry(Some("vhdx")), file_entry(Some("tar"))]),
        Some(50),
    )
    .expect("directory should be probed");
    assert_eq!(
        probe,
        FileSystemPathProbe {
            exists: true,
            is_file: false,
            is_dir: true,
            direct_child_count: Some(2),
            child_count_limit_exceeded: false,
            direct_vhdx_file_count: Some(1),
            has_direct_children: Some(true),
        }
    );
}

#[test]
fn directory_probe_stops_at_the_child_limit() {
    let probe = probe_directory_entries(
        "D:/dir",
        false,
        true,
        Ok(vec![file_entry(Some("VHDX")), file_entry(Some("vhdx"))]),
        Some(1),
    )
    .expect("directory should be probed");
    assert_eq!(probe.direct_child_count, Some(1));
    assert_eq!(probe.direct_vhdx_file_count, Some(1));
    assert!(probe.child_count_limit_exceeded);
    assert_eq!(probe.has_direct_children, Some(true));
}

#[test]
fn directory_probe_of_empty_directory_and_failures() {
    let empty = probe_directory_entries("D:/e", false, true, Ok(Vec::new()), None).expect("empty directory");
    assert_eq!(empty.direct_child_count, Some(0));
    assert_eq!(empty.has_direct_children, Some(false));

    let subdir = DirEntryFact::Read { file_type: Ok(false), extension: Some("vhdx".to_string()) };
    let counted = probe_directory_entries("D:/e", false, true, Ok(vec![subdir]), None).expect("listing");
    assert_eq!(counted.direct_vhdx_file_count, Some(0));

    let err = probe_directory_entries("D:/e", false, true, Err("denied".to_string()), None).expect_err("read_dir");
    assert_eq!(err, FileSystemProbeError::ReadDir { path: "D:/e".to_string(), source: "denied".to_string() });
    let err = probe_directory_entries("D:/e", false, true, Ok(vec![DirEntryFact::Failed("bad".to_string())]), None)
        .expect_err("entry");
    assert_eq!(err, FileSystemProbeError::ReadEntry { path: "D:/e".to_string(), source: "bad".to_string() });
    assert_eq!(err.to_display_string(), "failed to read directory entry under D:/e: bad");
}

#[test]
fn probe_metadata_decides_what_comes_next() {
    assert_eq!(
        probe_from_metadata("D:/f.txt", PathMetadata::Found { is_file: true, is_dir: false }),
        ProbeNext::Finished(Ok(FileSystemPathProbe {
            exists: true,
            is_file: true,
            is_dir: false,
            direct_child_count: None,
            child_count_limit_exceeded: false,
            direct_vhdx_file_count: None,
            has_direct_children: None,
        }))
    );
    assert_eq!(
        probe_from_metadata("D:/d", PathMetadata::Found { is_file: false, is_dir: true }),
        ProbeNext::ListDirectory { is_file: false, is_dir: true }
    );
    assert_eq!(
        probe_from_metadata("D:/x", PathMetadata::Failed("denied".to_string())),
        ProbeNext::Finished(Err(FileSystemProbeError::Metadata { path: "D:/x".to_string(), source: "denied".to_string() }))
    );
    assert!(validate_probe_path("D:/x").is_ok());
}

#[test]
fn file_size_comes_from_file_metadata_only() {
    assert_eq!(file_size_from_metadata("D:/a.bin", Ok(FileFacts { is_file: true, len: 9 })), Ok(9));
    let err = file_size_from_metadata("D:/dir", Ok(FileFacts { is_file: false, len: 0 })).expect_err("directory");
    assert_eq!(err, FileSizeProbeError::NotAFile("D:/dir".to_string()));
    assert_eq!(err.to_user_message(), "Failed to read file size information.");
    assert_eq!(err.to_display_string(), "D:/dir is not a file");
    let err = file_size_from_metadata("D:/gone", Err("not found".to_string())).expect_err("missing");
    assert!(matches!(err, FileSizeProbeError::Metadata { .. }));
}

fn ancestor(path: &str, exists: bool, is_dir: bool, parent: Option<&str>) -> AncestorFact {
    AncestorFact { path: path.to_string(), exists, is_dir, parent: parent.map(|p| p.to_string()) }
}

#[test]
fn storage_anchor_is_the_nearest_existing_ancestor() {
    let search = AnchorSearch {
        absolute_path: "D:/anchor/nested/missing".to_string(),
        ancestors: vec![
            ancestor("D:/anchor/nested/missing", false, false, Some("D:/anchor/nested")),
            ancestor("D:/anchor/nested", false, false, Some("D:/anchor")),
            ancestor("D:/anchor", true, true, Some("D:/")),
        ],
    };
    assert_eq!(resolve_storage_anchor("anchor/nested/missing", Ok(search)), Ok("D:/anchor".to_string()));

    let file = AnchorSearch {
        absolute_path: "D:/a/file.txt".to_string(),
        ancestors: vec![ancestor("D:/a/file.txt", true, false, Some("D:/a"))],
    };
    assert_eq!(resolve_storage_anchor("D:/a/file.txt", Ok(file)), Ok("D:/a".to_string()));

    let none = AnchorSearch { absolute_path: "Q:/x".to_string(), ancestors: vec![ancestor("Q:/x", false, false, None)] };
    assert_eq!(
        resolve_storage_anchor("Q:/x", Ok(none)),
        Err(PathVolumeSpaceQueryError::AnchorNotFound("Q:/x".to_string()))
    );
    assert_eq!(
        resolve_storage_anchor("x", Err("no cwd".to_string())),
        Err(PathVolumeSpaceQueryError::CurrentDir("no cwd".to_string()))
    );
}

// ---------------------------------------------------------------------------
// Published distro metadata
// ---------------------------------------------------------------------------

fn download(url: &str) -> Option<ArchitectureDownload> {
    Some(ArchitectureDownload { url: Some(url.to_string()) })
}

#[test]
fn parse_distribution_info_maps_modern_and_legacy_entries() {
    let modern = vec![
        ModernDistribution {
            name: "Ubuntu".to_string(),
            friendly_name: "Ubuntu".to_string(),
            amd64_url: download("https://example.test/ubuntu.appx"),
            arm64_url: download("https://example.test/ubuntu-arm64.appx"),
        },
        ModernDistribution {
            name: "NoAmd64".to_string(),
            friendly_name: "No Amd64".to_string(),
            amd64_url: None,
            arm64_url: None,
        },
    ];
    let legacy = vec![
        LegacyDistribution {
            name: "ubuntu".to_string(),
            friendly_name: "Legacy Ubuntu".to_string(),
            amd64_package_url: Some("https://example.test/legacy-ubuntu.appx".to_string()),
            arm64_package_url: None,
        },
        LegacyDistribution {
            name: "Debian".to_string(),
            friendly_name: "Debian GNU/Linux".to_string(),
            amd64_package_url: Some("https://example.test/debian.appx".to_string()),
            arm64_package_url: Some("https://example.test/debian-arm64.appx".to_string()),
        },
    ];
    let metadata = collect_distribution_metadata(&modern, &legacy);
    let ubuntu = metadata.iter().find(|entry| entry.name == "Ubuntu").expect("modern Ubuntu should be returned");
    let no_amd64 =
        metadata.iter().find(|entry| entry.name == "NoAmd64").expect("modern entry without URLs should be returned");
    let debian = metadata.iter().find(|entry| entry.name == "Debian").expect("legacy Debian should be returned");

    assert_eq!(metadata.len(), 3);
    assert!(ubuntu.modern);
    assert_eq!(ubuntu.amd64_url.as_deref(), Some("https://example.test/ubuntu.appx"));
    assert_eq!(ubuntu.arm64_url.as_deref(), Some("https://example.test/ubuntu-arm64.appx"));
    assert_eq!(no_amd64.amd64_url, None);
    assert_eq!(no_amd64.arm64_url, None);
    assert_eq!(debian.amd64_url.as_deref(), Some("https://example.test/debian.appx"));
    assert_eq!(debian.arm64_url.as_deref(), Some("https://example.test/debian-arm64.appx"));
    assert!(!debian.modern);
    assert!(!metadata.iter().any(|entry| entry.friendly_name == "Legacy Ubuntu"));
}

#[test]
fn blank_download_urls_are_dropped() {
    assert_eq!(normalize_optional_string("  "), None);
    assert_eq!(normalize_optional_string(" https://x "), Some("https://x".to_string()));
    let modern = vec![ModernDistribution {
        name: "Blank".to_string(),
        friendly_name: "Blank".to_string(),
        amd64_url: Some(ArchitectureDownload { url: Some(" ".to_string()) }),
        arm64_url: Some(ArchitectureDownload { url: None }),
    }];
    let metadata = collect_distribution_metadata(&modern, &Vec::new());
    assert_eq!(metadata.len(), 1);
    assert_eq!(metadata[0].amd64_url, None);
    assert_eq!(metadata[0].arm64_url, None);
}

#[test]
fn is_cache_fresh_uses_24_hour_interval() {
    let cache = Some(DistroMetadataCache { source_url: distribution_info_url().to_string(), last_success_at_ms: 1_000 });

    assert!(is_cache_fresh(&cache, 1_000 + DAY_MS - 1));
    assert!(!is_cache_fresh(&cache, 1_000 + DAY_MS));
}

#[test]
fn cache_from_another_source_or_missing_is_stale() {
    let other = Some(DistroMetadataCache { source_url: "https://example.test".to_string(), last_success_at_ms: 1_000 });
    assert!(!is_cache_fresh(&other, 1_001));
    assert!(!is_cache_fresh(&None, 0));
    let written = cache_after_download(5_000);
    assert_eq!(written.last_success_at_ms, 5_000);
    assert!(is_cache_fresh(&Some(written.clone()), 4_000));
    assert!(is_cache_fresh(&Some(written), 5_000));
}

#[test]
fn write_errors_name_their_file() {
    let err = WriteTextError::CreateDirectory { path: "C:/m".to_string(), source: "denied".to_string() };
    assert_eq!(format_write_error(&err), "failed to create distro metadata directory C:/m: denied");
    assert_eq!(format_long_task_history_write_error(&err), "failed to create long task history directory C:/m: denied");
    let err = WriteTextError::Write { path: "C:/m/f.json".to_string(), source: "full".to_string() };
    assert_eq!(format_write_error(&err), "failed to write distro metadata file C:/m/f.json: full");
    assert_eq!(format_long_task_history_write_error(&err), "failed to write long task history file C:/m/f.json: full");
}

// ---------------------------------------------------------------------------
// System overview
// ---------------------------------------------------------------------------

#[test]
fn system_overview_errors_use_stable_user_message() {
    let overview_message = "Failed to read system overview information.";
    let json_error = SystemOverviewQueryError::Json("missing field `windows`".to_string());
    assert_eq!(json_error.to_user_message(), overview_message);

    let spawn_error = SystemOverviewQueryError::Spawn("spawn failed".to_string());
    let io_error = SystemOverviewQueryError::Io("read failed".to_string());
    let command_error = SystemOverviewQueryError::CommandFailed { status: Some(1), stderr: "boom".to_string() };
    let timeout_error = SystemOverviewQueryError::TimedOut { timeout_ms: HOST_QUERY_TIMEOUT_MS };

    assert_eq!(spawn_error.to_user_message(), overview_message);
    assert_eq!(io_error.to_user_message(), overview_message);
    assert_eq!(command_error.to_user_message(), overview_message);
    assert_eq!(timeout_error.to_user_message(), "The host command timed out before a stable result was available.");
    assert!(timeout_error.to_display_string().contains("system_overview"));
}

#[test]
fn overview_payload_drops_outer_whitespace_and_byte_order_marks() {
    assert_eq!(overview_payload("  \r\n\u{feff}{\"gpu\":null}\n "), "{\"gpu\":null}");
    assert_eq!(overview_payload("\u{feff}\u{feff}{}"), "{}");
    assert_eq!(overview_payload("  "), "");
}

#[test]
fn overview_scope_defaults_to_full_and_uses_lowercase_names() {
    assert_eq!(effective_scope(None), SystemOverviewScope::Full);
    assert_eq!(effective_scope(Some(SystemOverviewScope::Storage)), SystemOverviewScope::Storage);
    assert_eq!(SystemOverviewScope::Full.as_str(), "full");
    assert_eq!(SystemOverviewScope::Storage.as_str(), "storage");
    assert_eq!(scope_variable(), "EAWSL_SYSTEM_OVERVIEW_SCOPE");
}

#[test]
fn overview_script_results_are_classified() {
    assert_eq!(overview_script_outcome(true, Some(0), b"{}".to_vec(), "ignored"), Ok(b"{}".to_vec()));
    assert_eq!(
        overview_script_outcome(false, Some(2), Vec::new(), "  failed \r\n"),
        Err(SystemOverviewQueryError::CommandFailed { status: Some(2), stderr: "failed".to_string() })
    );
    let failure = overview_script_outcome(false, None, Vec::new(), "x").expect_err("failure");
    assert_eq!(failure.to_display_string(), "PowerShell command failed with status None: x");
    let failure = SystemOverviewQueryError::CommandFailed { status: Some(-3), stderr: "y".to_string() };
    assert_eq!(failure.to_display_string(), "PowerShell command failed with status Some(-3): y");
    assert_eq!(overview_timeout_error(), SystemOverviewQueryError::TimedOut { timeout_ms: 4_000 });
    assert_eq!(
        overview_timeout_error().to_display_string(),
        "host command timed out in system_overview after 4000 ms"
    );
    assert_eq!(
        overview_script_options(),
        vec!["-NoProfile", "-NonInteractive", "-ExecutionPolicy", "Bypass", "-Command"]
    );
}

#[test]
fn refresh_steps_prefer_a_fresh_cache_and_a_written_download() {
    assert_eq!(refresh_first_step(true), RefreshStep::UseCache);
    assert_eq!(refresh_first_step(false), RefreshStep::Download);
    assert_eq!(refresh_after_download(None), RefreshStep::UseCache);
    assert_eq!(refresh_after_download(Some(0)), RefreshStep::UseCache);
    assert_eq!(refresh_after_download(Some(3)), RefreshStep::WriteCache);
    assert_eq!(refresh_after_write(true), RefreshStep::UseDownload);
    assert_eq!(refresh_after_write(false), RefreshStep::UseCache);
}

#[test]
fn file_extension_is_the_text_after_the_last_dot() {
    assert_eq!(file_extension("D:/WSL/ext4.VHDX"), Some("VHDX".to_string()));
    assert_eq!(file_extension("archive.tar.gz"), Some("gz".to_string()));
    assert_eq!(file_extension("noext"), None);
    assert_eq!(file_extension(".vhdx"), None);
}
