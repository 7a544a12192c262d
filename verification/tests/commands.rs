use eawsl::command_error::{map_command_error, message_command_error, non_empty, CommandErrorDto, WslCommandErrorCode};
use eawsl::dto::InstallOptionsPayload;
use eawsl::error::{WslCommandContext, WslError};
use eawsl::filesystem::{has_vhdx_extension, is_vhdx_extension, FileCopyError};
use eawsl::launch::{
    build_distro_explorer_command, build_distro_terminal_command, build_distro_terminal_fallback_command,
    build_distro_vscode_command, build_distro_vscode_exe_command, build_distro_vscode_fallback_command,
    build_legacy_install_command, first_launch_step, launch_step_after, normalize_distro_name,
    terminal_launch_commands, validate_legacy_distro_name, vscode_launch_commands, LaunchStep, LaunchTarget,
};
use eawsl::relocation::{
    map_file_copy_error, plan_from_facts, plan_vhdx_relocation, relocation_failed_message_text,
    target_directory_exists_message_text, RelocationPlan, VhdxRelocation,
};

fn plain(code: WslCommandErrorCode) -> CommandErrorDto {
    CommandErrorDto::Wsl { code, wsl_code: None, details: None, distro: None }
}

// ---------------------------------------------------------------------------
// Install payloads
// ---------------------------------------------------------------------------

#[test]
fn install_options_payload_maps_to_core_options() {
    let payload = InstallOptionsPayload {
        name: Some("custom-ubuntu".to_string()),
        location: Some("D:/WSL/Ubuntu".into()),
        vhd_size: Some("1.235 tb".to_string()),
        fixed_vhd: true,
    };

    let options = payload.into_core().expect("payload should map to core options");

    assert_eq!(options.name.as_deref(), Some("custom-ubuntu"));
    assert_eq!(options.location.as_deref(), Some("D:/WSL/Ubuntu"));
    assert_eq!(options.vhd_size.as_ref().map(|size| size.as_str()), Some("1.24TB"));
    assert!(options.fixed_vhd);
}

#[test]
fn install_options_payload_rejects_invalid_disk_size() {
    let payload = InstallOptionsPayload { name: None, location: None, vhd_size: Some("20G".to_string()), fixed_vhd: false };

    let err = payload.into_core().expect_err("invalid disk size should fail");

    assert!(matches!(err, WslError::InvalidArgument { context: WslCommandContext::Install, .. }));
}

#[test]
fn install_options_payload_reports_the_disk_size_message() {
    let payload = InstallOptionsPayload { name: None, location: None, vhd_size: Some("5MB".to_string()), fixed_vhd: false };
    match payload.into_core() {
        Err(WslError::InvalidArgument { raw_output, .. }) => assert_eq!(raw_output, "invalid WSL disk size"),
        other => panic!("unexpected result: {other:?}"),
    }
    let without_size = InstallOptionsPayload { name: None, location: None, vhd_size: None, fixed_vhd: false };
    assert!(without_size.into_core().expect("no size is fine").vhd_size.is_none());
}

// ---------------------------------------------------------------------------
// Command error payloads
// ---------------------------------------------------------------------------

#[test]
fn serializes_expected_union_shapes() {
    for (err, code) in [
        (
            WslError::InvalidArgument { context: WslCommandContext::Install, raw_output: "bad args".to_string() },
            WslCommandErrorCode::InvalidArgument,
        ),
        (WslError::FileNotFound, WslCommandErrorCode::FileNotFound),
        (WslError::DistroNotFound, WslCommandErrorCode::DistroNotFound),
        (WslError::DiskResizeFailed, WslCommandErrorCode::DiskResizeFailed),
        (
            WslError::RegistryReadFailed { key: Some("HKCU\\...\\Lxss".to_string()), detail: "missing".to_string() },
            WslCommandErrorCode::RegistryReadFailed,
        ),
        (
            WslError::OutputParseFailed {
                context: WslCommandContext::ListOnline,
                detail: "missing header".to_string(),
                raw_output: "raw".to_string(),
            },
            WslCommandErrorCode::OutputParseFailed,
        ),
        (WslError::WslCommandTimedOut { context: WslCommandContext::ListVerbose }, WslCommandErrorCode::WslCommandTimedOut),
        (WslError::ProcessFailed("spawn failed".to_string()), WslCommandErrorCode::ProcessFailed),
        (WslError::ProcessKilled, WslCommandErrorCode::ProcessKilled),
        (WslError::Cancelled, WslCommandErrorCode::Cancelled),
    ] {
        assert_eq!(map_command_error(err), plain(code));
    }

    assert_eq!(
        map_command_error(WslError::OperationNotPermitted { distro: "docker-desktop".to_string() }),
        CommandErrorDto::Wsl {
            code: WslCommandErrorCode::OperationNotPermitted,
            wsl_code: None,
            details: None,
            distro: Some("docker-desktop".to_string()),
        }
    );
    assert_eq!(
        map_command_error(WslError::UnknownWslError {
            context: WslCommandContext::Install,
            code: "exit-status:-1".to_string(),
            raw_output: "bad output".to_string(),
        }),
        CommandErrorDto::Wsl {
            code: WslCommandErrorCode::UnknownWslError,
            wsl_code: Some("exit-status:-1".to_string()),
            details: Some("bad output".to_string()),
            distro: None,
        }
    );

    assert_eq!(
        message_command_error(" emit failed ".to_string()),
        CommandErrorDto::Message { message: "emit failed".to_string() }
    );
}

#[test]
fn unknown_error_without_output_has_no_details() {
    let dto = map_command_error(WslError::UnknownWslError {
        context: WslCommandContext::Export,
        code: "Wsl/X".to_string(),
        raw_output: " \n ".to_string(),
    });
    assert_eq!(
        dto,
        CommandErrorDto::Wsl {
            code: WslCommandErrorCode::UnknownWslError,
            wsl_code: Some("Wsl/X".to_string()),
            details: None,
            distro: None,
        }
    );
    assert_eq!(non_empty("  x y  "), Some("x y".to_string()));
    assert_eq!(non_empty("\t"), None);
    assert_eq!(message_command_error("  ".to_string()), CommandErrorDto::Message { message: "  ".to_string() });
}

// ---------------------------------------------------------------------------
// Launch commands
// ---------------------------------------------------------------------------

#[test]
fn legacy_install_command_uses_interactive_wsl_install_args() {
    let command = build_legacy_install_command("Oraclelinux_7_9");

    assert_eq!(command.program, "wsl.exe");
    assert_eq!(command.args, vec!["--install", "Oraclelinux_7_9"]);
    assert!(command.new_console);
}

#[test]
fn legacy_install_distro_name_rejects_blank_and_whitespace() {
    assert!(validate_legacy_distro_name("Oraclelinux_7_9").is_ok());
    assert!(validate_legacy_distro_name(" ").is_err());
    assert!(validate_legacy_distro_name("Oracle Linux").is_err());
}

#[test]
fn legacy_install_name_errors_name_the_rule() {
    assert_eq!(validate_legacy_distro_name("").unwrap_err(), "Distro name is required.");
    assert_eq!(validate_legacy_distro_name(" Debian").unwrap_err(), "Distro name cannot contain whitespace.");
}

#[test]
fn distro_terminal_command_uses_windows_terminal_new_tab() {
    let command = build_distro_terminal_command("debian");

    assert_eq!(command.program, "wt.exe");
    assert_eq!(command.args, vec!["new-tab", "wsl.exe", "-d", "debian"]);
    assert!(!command.new_console);
}

#[test]
fn distro_terminal_fallback_command_uses_wsl_directly() {
    let command = build_distro_terminal_fallback_command("debian");

    assert_eq!(command.program, "wsl.exe");
    assert_eq!(command.args, vec!["-d", "debian"]);
    assert!(command.new_console);
}

#[test]
fn distro_explorer_command_uses_wsl_share_home_path() {
    let command = build_distro_explorer_command("debian");

    assert_eq!(command.program, "explorer.exe");
    assert_eq!(command.args, vec![r"\\wsl$\debian\home"]);
}

#[test]
fn distro_vscode_command_uses_remote_wsl_authority() {
    let command = build_distro_vscode_command("Debian");

    assert_eq!(command.program, "code");
    assert_eq!(command.args, vec!["--remote", "wsl+Debian"]);
}

#[test]
fn distro_vscode_fallback_command_uses_windows_cmd_launcher() {
    let command = build_distro_vscode_fallback_command("Debian");

    assert_eq!(command.program, "code.cmd");
    assert_eq!(command.args, vec!["--remote", "wsl+Debian"]);
}

#[test]
fn distro_vscode_exe_command_uses_explicit_code_exe_path() {
    let path = r"C:\VSCode\Code.exe".to_string();
    let command = build_distro_vscode_exe_command(path.clone(), "Debian");

    assert_eq!(command.program, path);
    assert_eq!(command.args, vec!["--remote", "wsl+Debian"]);
}

#[test]
fn shortcut_distro_name_rejects_blank_and_trims_value() {
    assert_eq!(normalize_distro_name(" debian ").unwrap(), "debian");
    assert!(normalize_distro_name(" ").is_err());
}

#[test]
fn launch_candidates_come_in_fallback_order() {
    let terminal = terminal_launch_commands("Ubuntu");
    assert_eq!(terminal.len(), 2);
    assert_eq!(terminal[0].program, "wt.exe");
    assert_eq!(terminal[1].program, "wsl.exe");

    let vscode = vscode_launch_commands("Ubuntu", vec!["A.exe".to_string(), "B.exe".to_string()]);
    let programs: Vec<&str> = vscode.iter().map(|c| c.program.as_str()).collect();
    assert_eq!(programs, vec!["code", "code.cmd", "A.exe", "B.exe"]);
    assert!(vscode.iter().all(|c| c.args == vec!["--remote", "wsl+Ubuntu"]));
    assert_eq!(vscode_launch_commands("Ubuntu", Vec::new()).len(), 2);
}

#[test]
fn launch_steps_try_candidates_until_one_starts() {
    assert!(matches!(first_launch_step(0), LaunchStep::Failed));
    assert!(matches!(first_launch_step(3), LaunchStep::Spawn(0)));
    assert!(matches!(launch_step_after(0, 3, false), LaunchStep::Spawn(1)));
    assert!(matches!(launch_step_after(1, 3, true), LaunchStep::Launched));
    assert!(matches!(launch_step_after(2, 3, false), LaunchStep::Failed));
    assert_eq!(LaunchTarget::Terminal.failure_message(), "Failed to open distro terminal.");
    assert_eq!(LaunchTarget::Explorer.failure_message(), "Failed to open distro in Explorer.");
    assert_eq!(LaunchTarget::VsCode.failure_message(), "Failed to open distro in VS Code.");
    assert_eq!(LaunchTarget::LegacyInstall.failure_message(), "Failed to open legacy install terminal.");
}

// ---------------------------------------------------------------------------
// VHDX relocation
// ---------------------------------------------------------------------------

#[test]
fn vhdx_extension_check_is_case_insensitive() {
    assert!(has_vhdx_extension("D:/WSL/ext4.VHDX"));
    assert!(!has_vhdx_extension("D:/WSL/ext4.vhd"));
}

#[test]
fn vhdx_extension_needs_a_real_extension() {
    assert!(has_vhdx_extension(r"C:\images\disk.vhdx"));
    assert!(!has_vhdx_extension("vhdx"));
    assert!(!has_vhdx_extension(".vhdx"));
    assert!(!has_vhdx_extension("disk.vhdx.bak"));
    assert!(is_vhdx_extension(&Some("VhDx".to_string())));
    assert!(!is_vhdx_extension(&None));
}

#[test]
fn target_directory_conflict_message_is_stable() {
    assert_eq!(target_directory_exists_message_text(), "The target VHDX directory already exists.");
}

#[test]
fn relocation_plan_follows_the_source_and_target_facts() {
    let target = Some("D:/WSL/New".to_string());
    let name = Some("ext4.vhdx".to_string());
    assert_eq!(plan_from_facts(Some(true), true, None, false, name.clone()), Ok(RelocationPlan::InPlace));
    assert_eq!(
        plan_from_facts(Some(true), true, target.clone(), false, name.clone()),
        Ok(RelocationPlan::CopyTo { target_dir: "D:/WSL/New".to_string(), file_name: "ext4.vhdx".to_string() })
    );
    let failed = relocation_failed_message_text();
    assert_eq!(plan_from_facts(None, true, None, false, name.clone()), Err(failed.clone()));
    assert_eq!(plan_from_facts(Some(false), true, None, false, name.clone()), Err(failed.clone()));
    assert_eq!(plan_from_facts(Some(true), false, None, false, name.clone()), Err(failed.clone()));
    assert_eq!(plan_from_facts(Some(true), true, Some(String::new()), false, name.clone()), Err(failed.clone()));
    assert_eq!(plan_from_facts(Some(true), true, target.clone(), false, None), Err(failed.clone()));
    assert_eq!(
        plan_from_facts(Some(true), true, target.clone(), true, name.clone()),
        Err(target_directory_exists_message_text())
    );
    assert_eq!(
        plan_vhdx_relocation("D:/images/ext4.vhd", Some(true), None, false, None),
        Err(relocation_failed_message_text())
    );
    assert_eq!(plan_vhdx_relocation("D:/images/ext4.VHDX", Some(true), None, false, None), Ok(RelocationPlan::InPlace));
}

#[test]
fn relocation_cleanup_removes_only_what_it_created() {
    assert_eq!(VhdxRelocation::in_place("D:/a.vhdx".to_string()).cleanup_failed_import(), None);
    let copied = VhdxRelocation::copied("D:/new/a.vhdx".to_string(), "D:/new".to_string());
    assert_eq!(copied.final_vhdx, "D:/new/a.vhdx");
    assert_eq!(copied.cleanup_failed_import(), Some(("D:/new/a.vhdx".to_string(), "D:/new".to_string())));
}

#[test]
fn copy_failures_map_to_stable_or_own_messages() {
    assert_eq!(map_file_copy_error(FileCopyError::Io("disk full".to_string())), "Failed to relocate the VHDX file.");
    assert_eq!(map_file_copy_error(FileCopyError::Progress("emit failed".to_string())), "emit failed");
}
