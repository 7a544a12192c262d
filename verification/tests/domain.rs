use eawsl::aggregation::aggregate_distros;
use eawsl::distro_policy::{ensure_operation_permitted, is_protected_distro, validate_distro_input, validate_distro_name};
use eawsl::error::{map_wsl_error, map_wsl_error_with_output, summarize_output, WslCommandContext, WslError};
use eawsl::install::{validate_install_options, validate_install_request, InstallOptions};
use eawsl::model::{DistroInfo, DistroState, InstalledDistroSnapshot, RegisteredDistroMetadata};
use eawsl::storage::DiskSize;

fn snapshot(name: &str, state: DistroState, is_default: bool) -> InstalledDistroSnapshot {
    InstalledDistroSnapshot { name: name.to_string(), state, version: 2, is_default }
}

fn registered(name: &str, base_path: &str) -> RegisteredDistroMetadata {
    RegisteredDistroMetadata {
        name: name.to_string(),
        version: 2,
        base_path: Some(base_path.to_string()),
        vhd_file_name: None,
        flavor: None,
        os_version: None,
        default_uid: None,
    }
}

// ---------------------------------------------------------------------------
// Error mapping
// ---------------------------------------------------------------------------

#[test]
fn map_invalid_argument_to_variant() {
    let err = map_wsl_error(WslCommandContext::ListVerbose, "Wsl/E_INVALIDARG");
    match err {
        WslError::InvalidArgument { context, raw_output } => {
            assert_eq!(context, WslCommandContext::ListVerbose);
            assert!(raw_output.is_empty());
        }
        other => panic!("unexpected error variant: {other:?}"),
    }
}

#[test]
fn map_distro_not_found_by_context() {
    let err = map_wsl_error(WslCommandContext::Export, "Wsl/Service/WSL_E_DISTRO_NOT_FOUND");
    assert!(matches!(err, WslError::DistroNotFound));
}

#[test]
fn map_file_not_found_by_context() {
    let err = map_wsl_error(WslCommandContext::Import, "Wsl/ERROR_FILE_NOT_FOUND");
    assert!(matches!(err, WslError::FileNotFound));
}

#[test]
fn map_resize_failure_by_context() {
    let err = map_wsl_error(WslCommandContext::ResizeDistro, "Wsl/Service/E_FAIL");
    assert!(matches!(err, WslError::DiskResizeFailed));
}

#[test]
fn map_unknown_error_falls_back() {
    let err = map_wsl_error(WslCommandContext::Version, "Wsl/UNKNOWN_CODE");
    match err {
        WslError::UnknownWslError { context, code, .. } => {
            assert_eq!(context, WslCommandContext::Version);
            assert_eq!(code, "Wsl/UNKNOWN_CODE");
        }
        other => panic!("unexpected error variant: {other:?}"),
    }
}

#[test]
fn user_message_and_display_are_actionable() {
    let err = WslError::OutputParseFailed {
        context: WslCommandContext::ListOnline,
        detail: "missing header".to_string(),
        raw_output: "NAME".to_string(),
    };

    assert_eq!(err.to_user_message(), "Failed to parse WSL command output.");

    let rendered = err.to_display_string();
    assert!(rendered.contains("list_online"));
    assert!(rendered.contains("missing header"));
    assert!(rendered.contains("NAME"));
}

#[test]
fn timeout_variant_uses_stable_message_and_context() {
    let wsl_timeout = WslError::WslCommandTimedOut { context: WslCommandContext::ListVerbose };

    assert_eq!(
        wsl_timeout.to_user_message(),
        "The WSL command timed out before a stable result was available."
    );
    assert!(wsl_timeout.to_display_string().contains("list_verbose"));
}

#[test]
fn error_codes_are_trimmed_before_matching() {
    let err = map_wsl_error(WslCommandContext::Terminate, "  Wsl/Service/WSL_E_DISTRO_NOT_FOUND\r\n");
    assert!(matches!(err, WslError::DistroNotFound));
}

#[test]
fn distro_not_found_outside_its_contexts_stays_unknown() {
    let err = map_wsl_error(WslCommandContext::Install, "Wsl/Service/WSL_E_DISTRO_NOT_FOUND");
    match err {
        WslError::UnknownWslError { context, code, raw_output } => {
            assert_eq!(context, WslCommandContext::Install);
            assert_eq!(code, "Wsl/Service/WSL_E_DISTRO_NOT_FOUND");
            assert!(raw_output.is_empty());
        }
        other => panic!("unexpected error variant: {other:?}"),
    }
}

#[test]
fn unknown_error_keeps_raw_output_and_trimmed_code() {
    let err = map_wsl_error_with_output(WslCommandContext::Shutdown, " Wsl/OTHER ", "boom".to_string());
    match err {
        WslError::UnknownWslError { context, code, raw_output } => {
            assert_eq!(context, WslCommandContext::Shutdown);
            assert_eq!(code, "Wsl/OTHER");
            assert_eq!(raw_output, "boom");
        }
        other => panic!("unexpected error variant: {other:?}"),
    }
}

#[test]
fn resize_failure_needs_resize_context() {
    let err = map_wsl_error(WslCommandContext::MoveDistro, "Wsl/Service/E_FAIL");
    assert!(matches!(err, WslError::UnknownWslError { .. }));
}

#[test]
fn output_summary_folds_line_breaks_and_marks_empty_output() {
    assert_eq!(summarize_output("  \r\n "), "<empty>");
    assert_eq!(summarize_output(" a\r\nb\nc\rd "), "a | b | c | d");
}

#[test]
fn output_summary_cuts_long_output_at_the_byte_limit() {
    let long = "x".repeat(200);
    let summary = summarize_output(&long);
    assert_eq!(summary, format!("{}...", "x".repeat(160)));
    let exact = "y".repeat(160);
    assert_eq!(summarize_output(&exact), exact);
}

#[test]
fn every_error_has_a_stable_user_message() {
    assert_eq!(WslError::FileNotFound.to_user_message(), "The specified file was not found.");
    assert_eq!(WslError::Cancelled.to_user_message(), "The operation was cancelled by the user.");
    let rendered = WslError::OperationNotPermitted { distro: "docker-desktop".to_string() }.to_display_string();
    assert!(rendered.contains("docker-desktop"));
}

// ---------------------------------------------------------------------------
// Aggregation
// ---------------------------------------------------------------------------

#[test]
fn aggregate_distros_merges_cli_and_registry_metadata() {
    let distros = aggregate_distros(
        vec![InstalledDistroSnapshot {
            name: "Ubuntu".to_string(),
            state: DistroState::Running,
            version: 2,
            is_default: true,
        }],
        vec![RegisteredDistroMetadata {
            name: "Ubuntu".to_string(),
            version: 2,
            base_path: Some("D:/WSL/Ubuntu".into()),
            vhd_file_name: Some("ext4.vhdx".to_string()),
            flavor: Some("ubuntu".to_string()),
            os_version: Some("24.04".to_string()),
            default_uid: Some(1000),
        }],
    );

    assert_eq!(
        distros,
        vec![DistroInfo {
            name: "Ubuntu".to_string(),
            state: DistroState::Running,
            version: 2,
            is_default: true,
            base_path: Some("D:/WSL/Ubuntu".into()),
            vhd_file_name: Some("ext4.vhdx".to_string()),
            flavor: Some("ubuntu".to_string()),
            os_version: Some("24.04".to_string()),
            default_uid: Some(1000),
        }]
    );
}

#[test]
fn aggregate_distros_keeps_cli_only_entries_and_appends_registry_only_as_installing() {
    let distros = aggregate_distros(
        vec![InstalledDistroSnapshot {
            name: "Ubuntu".to_string(),
            state: DistroState::Stopped,
            version: 2,
            is_default: false,
        }],
        vec![RegisteredDistroMetadata {
            name: "docker-desktop".to_string(),
            version: 2,
            base_path: Some("D:/WSL/docker-desktop".into()),
            vhd_file_name: None,
            flavor: None,
            os_version: None,
            default_uid: None,
        }],
    );

    assert_eq!(
        distros,
        vec![
            DistroInfo {
                name: "Ubuntu".to_string(),
                state: DistroState::Stopped,
                version: 2,
                is_default: false,
                base_path: None,
                vhd_file_name: None,
                flavor: None,
                os_version: None,
                default_uid: None,
            },
            DistroInfo {
                name: "docker-desktop".to_string(),
                state: DistroState::Installing,
                version: 2,
                is_default: false,
                base_path: Some("D:/WSL/docker-desktop".into()),
                vhd_file_name: None,
                flavor: None,
                os_version: None,
                default_uid: None,
            },
        ]
    );
}

#[test]
fn aggregate_distros_matches_names_case_insensitively_and_keeps_cli_casing() {
    let distros = aggregate_distros(
        vec![InstalledDistroSnapshot {
            name: "Debian".to_string(),
            state: DistroState::Running,
            version: 2,
            is_default: false,
        }],
        vec![RegisteredDistroMetadata {
            name: "debian".to_string(),
            version: 2,
            base_path: Some("D:/WSL/debian".into()),
            vhd_file_name: Some("ext4.vhdx".to_string()),
            flavor: Some("debian".to_string()),
            os_version: Some("12".to_string()),
            default_uid: Some(1000),
        }],
    );

    assert_eq!(
        distros,
        vec![DistroInfo {
            name: "Debian".to_string(),
            state: DistroState::Running,
            version: 2,
            is_default: false,
            base_path: Some("D:/WSL/debian".into()),
            vhd_file_name: Some("ext4.vhdx".to_string()),
            flavor: Some("debian".to_string()),
            os_version: Some("12".to_string()),
            default_uid: Some(1000),
        }]
    );
}

#[test]
fn aggregate_distros_sorts_registry_only_entries_by_name() {
    let distros = aggregate_distros(
        vec![snapshot("Zeta", DistroState::Running, true)],
        vec![registered("gamma", "G:/"), registered("Alpha", "A:/"), registered("beta", "B:/")],
    );
    let names: Vec<&str> = distros.iter().map(|d| d.name.as_str()).collect();
    assert_eq!(names, vec!["Zeta", "Alpha", "beta", "gamma"]);
    assert!(distros[1..].iter().all(|d| d.state == DistroState::Installing && !d.is_default));
}

#[test]
fn aggregate_distros_uses_last_registry_entry_of_a_name() {
    let distros = aggregate_distros(
        vec![snapshot("Ubuntu", DistroState::Stopped, false)],
        vec![registered("ubuntu", "D:/old"), registered("UBUNTU", "D:/new")],
    );
    assert_eq!(distros.len(), 1);
    assert_eq!(distros[0].base_path, Some("D:/new".to_string()));
}

#[test]
fn aggregate_distros_gives_metadata_to_first_listed_duplicate_only() {
    let distros = aggregate_distros(
        vec![snapshot("Ubuntu", DistroState::Stopped, false), snapshot("ubuntu", DistroState::Running, false)],
        vec![registered("Ubuntu", "D:/u")],
    );
    assert_eq!(distros.len(), 2);
    assert_eq!(distros[0].base_path, Some("D:/u".to_string()));
    assert_eq!(distros[1].base_path, None);
}

#[test]
fn aggregate_distros_of_nothing_is_empty() {
    assert!(aggregate_distros(Vec::new(), Vec::new()).is_empty());
}

// ---------------------------------------------------------------------------
// Distro name and operation rules
// ---------------------------------------------------------------------------

#[test]
fn distro_name_validation_rejects_blank_input() {
    let err = validate_distro_name(WslCommandContext::SetDefault, "   ").expect_err("blank distro names should fail");

    match err {
        WslError::InvalidArgument { context, raw_output } => {
            assert_eq!(context, WslCommandContext::SetDefault);
            assert!(raw_output.contains("required"));
        }
        other => panic!("unexpected error variant: {other:?}"),
    }
}

#[test]
fn distro_name_validation_rejects_whitespace() {
    let err = validate_distro_name(WslCommandContext::SetDefault, "My Ubuntu").expect_err("whitespace should fail");

    match err {
        WslError::InvalidArgument { context, raw_output } => {
            assert_eq!(context, WslCommandContext::SetDefault);
            assert!(raw_output.contains("contains whitespace"));
        }
        other => panic!("unexpected error variant: {other:?}"),
    }
}

#[test]
fn protected_distro_rejects_restricted_operations() {
    let err = ensure_operation_permitted(WslCommandContext::MoveDistro, "docker-desktop")
        .expect_err("docker-desktop move should fail");

    match err {
        WslError::OperationNotPermitted { distro } => {
            assert_eq!(distro, "docker-desktop");
        }
        other => panic!("unexpected error variant: {other:?}"),
    }
}

#[test]
fn protected_distro_is_case_insensitive() {
    let err = validate_distro_input(WslCommandContext::ResizeDistro, "Docker-Desktop")
        .expect_err("protected distro matching should ignore ASCII case");

    match err {
        WslError::OperationNotPermitted { distro } => {
            assert_eq!(distro, "Docker-Desktop");
        }
        other => panic!("unexpected error variant: {other:?}"),
    }
}

#[test]
fn protected_distro_allows_unrestricted_operations() {
    validate_distro_input(WslCommandContext::Export, "docker-desktop").expect("export remains allowed for docker-desktop");
    validate_distro_input(WslCommandContext::SetDefault, "docker-desktop")
        .expect("set-default remains allowed for docker-desktop");
}

#[test]
fn distro_name_whitespace_message_quotes_the_name() {
    let err = validate_distro_name(WslCommandContext::Terminate, "a\tb").expect_err("tab is whitespace");
    match err {
        WslError::InvalidArgument { raw_output, .. } => {
            assert_eq!(raw_output, "Distro name `a\tb` contains whitespace. Project input rules do not allow spaces.");
        }
        other => panic!("unexpected error variant: {other:?}"),
    }
}

#[test]
fn name_rules_come_before_the_protected_distro_rule() {
    let err = validate_distro_input(WslCommandContext::Unregister, " ").expect_err("blank");
    assert!(matches!(err, WslError::InvalidArgument { context: WslCommandContext::Unregister, .. }));
    assert!(is_protected_distro("DOCKER-DESKTOP"));
    assert!(!is_protected_distro("docker-desktop-data"));
    assert!(validate_distro_input(WslCommandContext::Unregister, "Ubuntu").is_ok());
}

// ---------------------------------------------------------------------------
// Install options
// ---------------------------------------------------------------------------

#[test]
fn fixed_vhd_requires_vhd_size() {
    let opts = InstallOptions { name: None, location: None, vhd_size: None, fixed_vhd: true };

    let err = validate_install_options(&opts).expect_err("missing vhd_size should fail");
    match err {
        WslError::InvalidArgument { context, raw_output } => {
            assert_eq!(context, WslCommandContext::Install);
            assert!(raw_output.contains("fixed-vhd"));
        }
        other => panic!("unexpected error variant: {other:?}"),
    }
}

#[test]
fn install_name_accepts_project_valid_names() {
    let opts = InstallOptions { name: Some("custom-ubuntu".to_string()), location: None, vhd_size: None, fixed_vhd: false };

    validate_install_options(&opts).expect("valid install name should pass");
}

#[test]
fn install_name_reuses_distro_name_validation_rules() {
    let opts = InstallOptions { name: Some("My Ubuntu".to_string()), location: None, vhd_size: None, fixed_vhd: false };

    let err = validate_install_options(&opts).expect_err("whitespace in install name should fail");
    match err {
        WslError::InvalidArgument { context, raw_output } => {
            assert_eq!(context, WslCommandContext::Install);
            assert!(raw_output.contains("contains whitespace"));
        }
        other => panic!("unexpected error variant: {other:?}"),
    }
}

#[test]
fn fixed_vhd_with_size_is_accepted() {
    let opts = InstallOptions {
        name: None,
        location: Some("D:/WSL".to_string()),
        vhd_size: Some(DiskSize::parse("20GB").expect("size")),
        fixed_vhd: true,
    };
    assert!(validate_install_options(&opts).is_ok());
    let defaults = InstallOptions::default();
    assert!(defaults.name.is_none() && defaults.vhd_size.is_none() && !defaults.fixed_vhd);
}

#[test]
fn install_request_checks_the_distro_before_the_options() {
    let opts = InstallOptions { name: Some("bad name".to_string()), location: None, vhd_size: None, fixed_vhd: false };
    let err = validate_install_request("Ubuntu 24", &opts).expect_err("distro has whitespace");
    match err {
        WslError::InvalidArgument { raw_output, .. } => assert!(raw_output.contains("`Ubuntu 24`")),
        other => panic!("unexpected error variant: {other:?}"),
    }
    let err = validate_install_request("Ubuntu", &opts).expect_err("name has whitespace");
    match err {
        WslError::InvalidArgument { raw_output, .. } => assert!(raw_output.contains("`bad name`")),
        other => panic!("unexpected error variant: {other:?}"),
    }
}

// ---------------------------------------------------------------------------
// Disk sizes
// ---------------------------------------------------------------------------

#[test]
fn disk_size_accepts_gb_integer_and_tb_decimal_values() {
    let cases = [("20gb", "20GB"), ("20 GB", "20GB"), ("1 tb", "1TB"), ("1.5TB", "1.5TB"), ("0.75TB", "0.75TB")];

    for (input, expected) in cases {
        assert_eq!(DiskSize::parse(input).expect(input).as_str(), expected);
    }
}

#[test]
fn disk_size_rounds_tb_to_two_decimal_places() {
    let cases = [("1.234TB", "1.23TB"), ("1.235TB", "1.24TB"), ("1.999TB", "2TB"), ("0.005TB", "0.01TB")];

    for (input, expected) in cases {
        assert_eq!(DiskSize::parse(input).expect(input).as_str(), expected);
    }
}

#[test]
fn disk_size_rejects_invalid_or_unrealistic_units() {
    for input in ["", "0GB", "01GB", "0TB", "0.00TB", "0.004TB", "-1GB", "20G", "20MB", "20GiB", "1TiB"] {
        assert!(DiskSize::parse(input).is_err(), "{input} should fail");
    }
}

#[test]
fn disk_size_text_parses_back_to_itself() {
    for input in ["20gb", " 1.5 tb ", "0.005TB", "1.999tb", "300GB"] {
        let first = DiskSize::parse(input).expect(input);
        let again = DiskSize::parse(first.as_str()).expect("canonical text parses");
        assert_eq!(again, first);
    }
}

#[test]
fn disk_size_parses_through_from_str_and_names_its_error() {
    let parsed: DiskSize = "2 tb".parse().expect("valid");
    assert_eq!(parsed.as_str(), "2TB");
    let err = "2 PB".parse::<DiskSize>().expect_err("unit");
    assert_eq!(err.message(), "invalid WSL disk size");
}

#[test]
fn rendering_needs_summaries_cut_on_character_boundaries() {
    let mut raw = "a".repeat(159);
    raw.push('é');
    raw.push_str("tail");
    assert!(!eawsl::error::summary_is_defined(&raw));
    let err = WslError::InvalidArgument { context: WslCommandContext::Install, raw_output: raw };
    assert!(!err.is_renderable());
    let ok = WslError::InvalidArgument { context: WslCommandContext::Install, raw_output: "é".repeat(100) };
    assert!(ok.is_renderable());
    assert_eq!(
        ok.to_display_string(),
        format!("invalid argument while running install: {}...", "é".repeat(80))
    );
    assert!(WslError::ProcessKilled.is_renderable());
}

#[test]
fn output_summary_is_one_short_line() {
    let raw = "line one\r\nline two\n".repeat(30);
    let summary = summarize_output(&raw);
    assert!(!summary.contains('\n') && !summary.contains('\r'));
    assert!(summary.len() <= 163);
    assert!(summary.ends_with("..."));
}

#[test]
fn disk_size_canonical_text_and_its_lower_case_parse_back() {
    for input in ["20gb", " 1.5 tb ", "0.005TB", "1.999tb", "300GB", "0.10TB", "12.50 tb"] {
        let size = DiskSize::parse(input).expect(input);
        let lower = size.as_str().to_ascii_lowercase();
        assert_eq!(DiskSize::parse(&lower).expect("lower-case canonical text"), size);
    }
}

#[test]
fn disk_size_canonical_text_has_the_canonical_shape() {
    let cases = [
        ("0020 GB", None),
        ("20 GB", Some("20GB")),
        ("0.10TB", Some("0.1TB")),
        ("3.00TB", Some("3TB")),
        ("0.5tb", Some("0.5TB")),
        ("10.05TB", Some("10.05TB")),
    ];
    for (input, expected) in cases {
        assert_eq!(DiskSize::parse(input).ok().map(|d| d.as_str().to_string()), expected.map(|e| e.to_string()));
    }
}
