use s1_mcp_client_rust::config::Settings;
use s1_mcp_client_rust::json::JsonValue;
use s1_mcp_client_rust::lifecycle::{
    close_failure_message, detect_game_version, escape_for_single_quoted_powershell, launch_command,
    launch_failure_message, launch_report, poll_timeout_message, process_info_command, process_name_for_powershell,
    resolve_game_path, tasklist_executable, tasklist_filter, tasklist_shows_running, ConnectionSummary, GameVersion,
    LaunchGameOptions, plan_launch, launch_step, close_step, LaunchAction, LaunchEvent, LaunchPlan, CloseAction,
    CloseEvent, CommandOutcome, poll_step, process_rows, process_rows_of, PollAction, PollEvent, PollState,
    process_report, ListingOutput,
};
use s1_mcp_client_rust::json::JsonNumber;
use s1_mcp_client_rust::models::{ErrorResponse, Response};
use s1_mcp_client_rust::tcp::TcpClientError;

#[test]
fn game_version_parse_ignores_case() {
    assert_eq!(GameVersion::parse("il2cpp").unwrap(), GameVersion::Il2cpp);
    assert_eq!(GameVersion::parse("MONO").unwrap(), GameVersion::Mono);
    assert_eq!(GameVersion::parse("Il2Cpp").unwrap(), GameVersion::Il2cpp);
    assert_eq!(
        GameVersion::parse("x86").unwrap_err(),
        "Error: Invalid version 'x86'. Must be 'il2cpp' or 'mono'."
    );
    assert_eq!(GameVersion::parse("").unwrap_err(), "Error: Invalid version ''. Must be 'il2cpp' or 'mono'.");
    assert_eq!(GameVersion::parse_lowercased("MONO", "mono").unwrap(), GameVersion::Mono);
    assert_eq!(GameVersion::Il2cpp.as_display(), "IL2CPP");
    assert_eq!(GameVersion::Mono.as_display(), "MONO");
}

#[test]
fn resolve_game_path_checks_configuration() {
    let mut settings = Settings::default();
    assert_eq!(
        resolve_game_path(GameVersion::Mono, &settings).unwrap_err(),
        "Error: No game path configured for MONO version.\nPlease set 'game_mono_path' in your config.json file.\nExample: game_config.json.example"
    );
    settings.game_il2cpp_path = "  C:\\Games\\Schedule I  ".to_string();
    assert_eq!(
        resolve_game_path(GameVersion::Il2cpp, &settings).unwrap_err(),
        "Error: game_executable is not configured. Please set it in S1MCPClientRust/config.json."
    );
    settings.game_executable = "Schedule I.exe".to_string();
    assert_eq!(resolve_game_path(GameVersion::Il2cpp, &settings).unwrap(), "C:\\Games\\Schedule I");
}

#[test]
fn detect_game_version_from_layout() {
    assert_eq!(detect_game_version(false, true), None);
    assert_eq!(detect_game_version(true, true), Some(GameVersion::Il2cpp));
    assert_eq!(detect_game_version(true, false), Some(GameVersion::Mono));
}

#[test]
fn powershell_commands() {
    assert_eq!(escape_for_single_quoted_powershell("it's a 'game'"), "it''s a ''game''");
    assert_eq!(launch_command("C:\\G\\Schedule I.exe", false), "Start-Process -FilePath 'C:\\G\\Schedule I.exe'");
    assert_eq!(
        launch_command("C:\\Bob's\\game.exe", true),
        "Start-Process -FilePath 'C:\\Bob''s\\game.exe' -ArgumentList '--melonloader.launchdebugger','--melonloader.debug'"
    );
    assert_eq!(process_name_for_powershell("  Schedule I.exe "), "Schedule I");
    assert_eq!(process_name_for_powershell("game"), "game");
    assert_eq!(process_name_for_powershell("game.EXE"), "game.EXE");
    assert_eq!(
        process_info_command("Schedule I.exe"),
        "Get-Process -Name \"Schedule I\" -ErrorAction SilentlyContinue | Select-Object Id, CPU, WorkingSet, StartTime | ConvertTo-Json"
    );
}

#[test]
fn tasklist_helpers() {
    assert_eq!(tasklist_executable("   "), "Schedule I.exe");
    assert_eq!(tasklist_executable(" game.exe "), "game.exe");
    assert_eq!(tasklist_filter("game.exe"), "IMAGENAME eq game.exe");
    assert!(tasklist_shows_running("Image Name  PID\ngame.exe   1234", "game.exe"));
    assert!(!tasklist_shows_running("INFO: No tasks are running", "game.exe"));
    assert!(!tasklist_shows_running("gam", "game.exe"));
    assert!(tasklist_shows_running("game.exe", "game.exe"));
}

#[test]
fn launch_report_texts() {
    let options = LaunchGameOptions { version: GameVersion::Mono, enable_debugger: true, wait_for_connection: false };
    assert_eq!(
        launch_report(&options, "C:\\G", 120, None),
        "Game launched successfully (MONO)\n  Path: C:\\G\n  Debugger: Enabled\n"
    );
    let options = LaunchGameOptions { version: GameVersion::Il2cpp, enable_debugger: false, wait_for_connection: true };
    let info = JsonValue::Object(vec![
        ("server_name".to_string(), JsonValue::String("S1MCPServer".to_string())),
        ("version".to_string(), JsonValue::String("1.2".to_string())),
    ]);
    let connected = ConnectionSummary {
        connected: true,
        attempts: 2,
        elapsed_text: "23.5".to_string(),
        server_info: Some(info),
        error: None,
    };
    assert_eq!(
        launch_report(&options, "D:\\S1", 120, Some(connected)),
        "Game launched successfully (IL2CPP)\n  Path: D:\\S1\n\nWaiting for game to load and connect (up to 140s)...\n  - Game needs ~20s to load Menu scene before accepting commands\nConnected to game server after 23.5s (2 attempts)\n  Server: S1MCPServer v1.2\n"
    );
    let failed = ConnectionSummary {
        connected: false,
        attempts: 4,
        elapsed_text: "120".to_string(),
        server_info: None,
        error: None,
    };
    let text = launch_report(&options, "D:\\S1", 100, Some(failed));
    assert!(text.contains("(up to 120s)"));
    assert!(text.contains("Failed to connect to game server\n  Attempts: 4\n  Error: Unknown error\n"));
    assert!(text.ends_with("  - Verify the mod is installed correctly\n"));
}

#[test]
fn failure_messages() {
    assert_eq!(launch_failure_message("  \n"), "Error launching game:\nUnknown PowerShell error");
    assert_eq!(launch_failure_message(" denied \n"), "Error launching game:\ndenied");
    assert_eq!(close_failure_message(""), "Error closing game: Unknown taskkill error");
    assert_eq!(poll_timeout_message(120, 7), "Connection timeout after 120 seconds (7 attempts)");
}

fn sample_plan(wait_for_connection: bool) -> LaunchPlan {
    LaunchPlan {
        options: LaunchGameOptions { version: GameVersion::Mono, enable_debugger: false, wait_for_connection },
        game_path: "D:\\Schedule I".to_string(),
        startup_timeout: 60,
        poll_interval: 0,
    }
}

fn finished(action: LaunchAction) -> Result<String, String> {
    match action {
        LaunchAction::Finish(result) => result,
        other => panic!("expected a finished launch, got {other:?}"),
    }
}

#[test]
fn plan_launch_keeps_path_and_timeouts() {
    let mut settings = Settings::default();
    let options = LaunchGameOptions { version: GameVersion::Il2cpp, enable_debugger: true, wait_for_connection: true };
    assert!(plan_launch(&options, &settings).unwrap_err().starts_with("Error: No game path configured for IL2CPP"));
    settings.game_il2cpp_path = " C:\\Game ".to_string();
    settings.game_executable = "Schedule I.exe".to_string();
    let plan = plan_launch(&options, &settings).unwrap();
    assert_eq!(plan.game_path, "C:\\Game");
    assert_eq!(plan.startup_timeout, 120);
    assert_eq!(plan.poll_interval, 2);
    assert!(plan.options.enable_debugger);
}

#[test]
fn launch_step_refuses_missing_path_running_game_and_missing_executable() {
    let plan = sample_plan(false);
    assert_eq!(
        finished(launch_step(&plan, LaunchEvent::PathChecked(false))).unwrap_err(),
        "Error: Game path does not exist: D:\\Schedule I"
    );
    assert!(matches!(launch_step(&plan, LaunchEvent::PathChecked(true)), LaunchAction::CheckRunning));
    assert_eq!(
        finished(launch_step(&plan, LaunchEvent::RunningChecked(true))).unwrap_err(),
        "Error: Game is already running.\nPlease close the game first using s1_close_game, or kill it manually."
    );
    assert!(matches!(launch_step(&plan, LaunchEvent::RunningChecked(false)), LaunchAction::CheckExecutable));
    let missing = LaunchEvent::ExecutableChecked { exe_path: "D:\\Schedule I\\Game.exe".to_string(), exists: false };
    assert_eq!(finished(launch_step(&plan, missing)).unwrap_err(), "Error: Game executable not found: D:\\Schedule I\\Game.exe");
}

#[test]
fn launch_step_runs_the_command_and_reports_failures() {
    let plan = sample_plan(false);
    let found = LaunchEvent::ExecutableChecked { exe_path: "D:\\It's\\Game.exe".to_string(), exists: true };
    match launch_step(&plan, found) {
        LaunchAction::RunLaunch(command) => assert_eq!(command, "Start-Process -FilePath 'D:\\It''s\\Game.exe'"),
        other => panic!("expected the launch command, got {other:?}"),
    }
    let failed = LaunchEvent::LaunchRan(Ok(CommandOutcome { success: false, stderr: "  \n".to_string() }));
    assert_eq!(finished(launch_step(&plan, failed)).unwrap_err(), "Error launching game:\nUnknown PowerShell error");
    let not_run = LaunchEvent::LaunchRan(Err("Error: Command timed out after 10 seconds".to_string()));
    assert_eq!(finished(launch_step(&plan, not_run)).unwrap_err(), "Error: Command timed out after 10 seconds");
    let ran = LaunchEvent::LaunchRan(Ok(CommandOutcome { success: true, stderr: String::new() }));
    assert!(matches!(launch_step(&plan, ran), LaunchAction::AwaitProcess));
}

#[test]
fn launch_step_waits_polls_and_reports() {
    let plan = sample_plan(false);
    assert_eq!(
        finished(launch_step(&plan, LaunchEvent::ProcessAwaited(false))).unwrap(),
        "Warning: Game process not detected after 10 seconds.\nThe game may be starting slowly or failed to launch."
    );
    assert_eq!(
        finished(launch_step(&plan, LaunchEvent::ProcessAwaited(true))).unwrap(),
        "Game launched successfully (MONO)\n  Path: D:\\Schedule I\n"
    );
    let waiting = sample_plan(true);
    match launch_step(&waiting, LaunchEvent::ProcessAwaited(true)) {
        LaunchAction::PollConnection { timeout_secs, interval_secs } => {
            assert_eq!(timeout_secs, 60);
            assert_eq!(interval_secs, 1);
        }
        other => panic!("expected polling, got {other:?}"),
    }
    let summary = ConnectionSummary {
        connected: false,
        attempts: 4,
        elapsed_text: "61.5".to_string(),
        server_info: None,
        error: None,
    };
    let report = finished(launch_step(&waiting, LaunchEvent::ConnectionPolled(summary))).unwrap();
    assert!(report.starts_with("Game launched successfully (MONO)\n  Path: D:\\Schedule I\n\nWaiting for game to load and connect (up to 80s)...\n"));
    assert!(report.contains("Failed to connect to game server\n  Attempts: 4\n  Error: Unknown error\n"));
}

#[test]
fn close_step_kills_and_watches_the_exit() {
    match close_step(CloseEvent::RunningChecked(false)) {
        CloseAction::Finish(Ok(m)) => assert_eq!(m, "Game is not currently running."),
        other => panic!("unexpected {other:?}"),
    }
    assert!(matches!(close_step(CloseEvent::RunningChecked(true)), CloseAction::Kill));
    match close_step(CloseEvent::KillRan(Ok(CommandOutcome { success: false, stderr: " access denied \n".to_string() }))) {
        CloseAction::Finish(Err(m)) => assert_eq!(m, "Error closing game: access denied"),
        other => panic!("unexpected {other:?}"),
    }
    match close_step(CloseEvent::KillRan(Err("Error running command: not found".to_string()))) {
        CloseAction::Finish(Err(m)) => assert_eq!(m, "Error running command: not found"),
        other => panic!("unexpected {other:?}"),
    }
    assert!(matches!(
        close_step(CloseEvent::KillRan(Ok(CommandOutcome { success: true, stderr: String::new() }))),
        CloseAction::CheckExit
    ));
    assert!(matches!(
        close_step(CloseEvent::ExitChecked { running: true, last_check: false }),
        CloseAction::PauseThenCheckExit
    ));
    match close_step(CloseEvent::ExitChecked { running: false, last_check: true }) {
        CloseAction::Finish(Ok(m)) => assert_eq!(m, "Game closed successfully"),
        other => panic!("unexpected {other:?}"),
    }
    match close_step(CloseEvent::ExitChecked { running: true, last_check: true }) {
        CloseAction::Finish(Ok(m)) => assert_eq!(m, "Warning: Game process may still be running"),
        other => panic!("unexpected {other:?}"),
    }
}

#[test]
fn poll_step_counts_attempts_and_calls_the_handshake() {
    let state = PollState { attempts: 2, timeout_secs: 30 };
    let (next, action) = poll_step(&state, PollEvent::Tick { within_timeout: true, client_connected: true });
    assert_eq!(next, PollState { attempts: 3, timeout_secs: 30 });
    assert!(matches!(action, PollAction::CallHandshake { disconnect_first: true }));
    let (next, action) = poll_step(&state, PollEvent::Tick { within_timeout: true, client_connected: false });
    assert_eq!(next.attempts, 3);
    assert!(matches!(action, PollAction::CallHandshake { disconnect_first: false }));
}

#[test]
fn poll_step_finishes_connected_on_a_clean_reply() {
    let state = PollState { attempts: 3, timeout_secs: 30 };
    let reply = Response { id: 0, result: Some(JsonValue::String("srv".to_string())), error: None };
    match poll_step(&state, PollEvent::Handshake(Ok(reply))) {
        (next, PollAction::Finish { connected, attempts, server_info, error }) => {
            assert_eq!(next, state);
            assert!(connected);
            assert_eq!(attempts, 3);
            assert!(matches!(server_info, Some(JsonValue::String(s)) if s == "srv"));
            assert!(error.is_none());
        }
        other => panic!("unexpected {other:?}"),
    }
}

#[test]
fn poll_step_retries_after_failures_and_times_out() {
    let state = PollState { attempts: 3, timeout_secs: 30 };
    let rejected = Response {
        id: 0,
        result: None,
        error: Some(ErrorResponse { code: -32000, message: "loading".to_string() }),
    };
    assert!(matches!(poll_step(&state, PollEvent::Handshake(Ok(rejected))).1, PollAction::Disconnect));
    assert!(matches!(
        poll_step(&state, PollEvent::Handshake(Err(TcpClientError::NotConnected))).1,
        PollAction::Disconnect
    ));
    assert!(matches!(poll_step(&state, PollEvent::Disconnected { within_timeout: true }).1, PollAction::SleepInterval));
    for event in [
        PollEvent::Disconnected { within_timeout: false },
        PollEvent::Tick { within_timeout: false, client_connected: false },
    ] {
        match poll_step(&state, event) {
            (_, PollAction::Finish { connected, attempts, server_info, error }) => {
                assert!(!connected);
                assert_eq!(attempts, 3);
                assert!(server_info.is_none());
                assert_eq!(error.unwrap(), "Connection timeout after 30 seconds (3 attempts)");
            }
            other => panic!("unexpected {other:?}"),
        }
    }
}

#[test]
fn process_rows_reads_the_listing() {
    let stdout = "  [{\"Id\": 12, \"CPU\": 1.5, \"WorkingSet\": 1048576, \"StartTime\": \"/Date(1)/\"},\n {\"Id\": \"x\"}, 3, {\"Id\": -4}]\n";
    let rows = process_rows(true, stdout, "").unwrap();
    assert_eq!(rows.len(), 2);
    assert_eq!(rows[0].pid, 12);
    assert!(matches!(&rows[0].cpu, Some(JsonNumber::Float(t)) if t == "1.5"));
    assert!(matches!(rows[0].working_set, Some(JsonNumber::PosInt(1048576))));
    assert_eq!(rows[0].start_time, "/Date(1)/");
    assert_eq!(rows[1].pid, -4);
    assert!(rows[1].cpu.is_none());
    assert!(rows[1].working_set.is_none());
    assert_eq!(rows[1].start_time, "");

    let single = process_rows(true, "{\"Id\": 7, \"CPU\": \"n/a\"}", "").unwrap();
    assert_eq!(single.len(), 1);
    assert_eq!(single[0].pid, 7);
    assert!(single[0].cpu.is_none());
}

#[test]
fn process_rows_reports_failures_and_blank_output() {
    assert_eq!(process_rows(false, "[]", "  Access denied \r\n").unwrap_err(), "Access denied");
    assert!(process_rows(true, " \n\t ", "").unwrap().is_empty());
    let err = process_rows(true, "not json", "").unwrap_err();
    assert!(err.starts_with("Failed to parse process info JSON: "), "{err}");
    assert!(err.len() > "Failed to parse process info JSON: ".len());
}

#[test]
fn process_rows_of_keeps_only_entries_with_an_integer_id() {
    let big = JsonValue::Object(vec![("Id".to_string(), JsonValue::Number(JsonNumber::PosInt(u64::MAX)))]);
    let fine = JsonValue::Object(vec![("Id".to_string(), JsonValue::Number(JsonNumber::PosInt(9)))]);
    let float_id = JsonValue::Object(vec![("Id".to_string(), JsonValue::Number(JsonNumber::Float("9.5".to_string())))]);
    let rows = process_rows_of(&JsonValue::Array(vec![big, fine, float_id, JsonValue::Null]));
    assert_eq!(rows.len(), 1);
    assert_eq!(rows[0].pid, 9);
    assert!(process_rows_of(&JsonValue::Null).is_empty());
}

#[test]
fn process_report_counts_what_it_lists() {
    let listed = process_report(Ok(ListingOutput {
        success: true,
        stdout: "[{\"Id\": 1}, {\"Id\": 2}, {\"Name\": \"x\"}]".to_string(),
        stderr: String::new(),
    }));
    assert!(listed.running);
    assert_eq!(listed.process_count, 2);
    assert_eq!(listed.rows.len(), 2);
    assert!(listed.error.is_none());

    let blank = process_report(Ok(ListingOutput { success: true, stdout: "\r\n".to_string(), stderr: String::new() }));
    assert!(!blank.running);
    assert_eq!(blank.process_count, 0);
    assert!(blank.error.is_none());

    let failed = process_report(Ok(ListingOutput { success: false, stdout: String::new(), stderr: " denied ".to_string() }));
    assert!(!failed.running);
    assert_eq!(failed.error.as_deref(), Some("denied"));

    let garbled = process_report(Ok(ListingOutput { success: true, stdout: "{".to_string(), stderr: String::new() }));
    assert!(!garbled.running);
    assert!(garbled.error.unwrap().starts_with("Failed to parse process info JSON: "));

    let not_run = process_report(Err("Error: Command timed out after 10 seconds".to_string()));
    assert!(!not_run.running);
    assert_eq!(not_run.process_count, 0);
    assert_eq!(not_run.error.as_deref(), Some("Error: Command timed out after 10 seconds"));
}

#[test]
fn poll_run_connects_only_after_an_attempt() {
    let start = PollState { attempts: 0, timeout_secs: 10 };
    let (state, action) = poll_step(&start, PollEvent::Tick { within_timeout: true, client_connected: false });
    assert!(matches!(action, PollAction::CallHandshake { .. }));
    let reply = Response { id: 0, result: None, error: None };
    match poll_step(&state, PollEvent::Handshake(Ok(reply))) {
        (_, PollAction::Finish { connected: true, attempts, .. }) => assert_eq!(attempts, 1),
        other => panic!("unexpected {other:?}"),
    }
}
