use tes3mp_runner::logging::LogColorizer;
use tes3mp_runner::master::MasterPatterns;
use tes3mp_runner::runner::{
    classify_exit, get_tes3mp_executable, is_log_expired, log_directories, luajit_archive_path,
    luajit_library_path, plan_spawn, process_output_line, windows_executable, windows_executable_candidates,
    choose_windows_launcher, is_verbatim_path, ProcessExit,
    PRUNE_AGE_SECS,
};

#[test]
fn executable_inside_server_directory() {
    assert_eq!(get_tes3mp_executable("/mnt/server"), "/mnt/server/tes3mp-server");
    assert_eq!(get_tes3mp_executable("/mnt/server/"), "/mnt/server/tes3mp-server");
    assert_eq!(get_tes3mp_executable("."), "./tes3mp-server");
    assert_eq!(get_tes3mp_executable(""), "tes3mp-server");
}

#[test]
fn windows_executable_prefers_exe_then_bat() {
    assert_eq!(windows_executable("C:\\srv", true, true), "C:\\srv\\tes3mp-server.exe");
    assert_eq!(windows_executable("C:\\srv", false, true), "C:\\srv\\tes3mp-server.bat");
    assert_eq!(windows_executable("C:\\srv\\", false, false), "C:\\srv\\tes3mp-server.exe");
    assert_eq!(windows_executable("C:", true, false), "C:tes3mp-server.exe");
    assert_eq!(windows_executable("D:/x/", true, false), "D:/x/tes3mp-server.exe");
    let (exe, bat) = windows_executable_candidates("srv");
    assert_eq!(exe, "srv\\tes3mp-server.exe");
    assert_eq!(bat, "srv\\tes3mp-server.bat");
}

#[test]
fn spawn_plan_without_luajit() {
    let plan = plan_spawn("/mnt/server", None);
    assert_eq!(plan.program, "/mnt/server/tes3mp-server");
    assert_eq!(plan.working_dir, "/mnt/server");
    assert_eq!(plan.library_path, "/mnt/server/lib");
    assert_eq!(plan.preload, None);
}

#[test]
fn spawn_plan_with_luajit() {
    let plan = plan_spawn("/srv", Some("/tmp/container"));
    assert_eq!(plan.preload, Some("/tmp/container/bin/libluajit.so".to_string()));
    assert_eq!(luajit_library_path("/tmp/container"), "/tmp/container/bin/libluajit.so");
    assert_eq!(luajit_archive_path("/tmp/x"), "/tmp/x/LuaJIT-Linux.7z");
}

#[test]
fn log_directories_under_config() {
    let (config, logs) = log_directories("/mnt/server");
    assert_eq!(config, "/mnt/server/.config/openmw");
    assert_eq!(logs, "/mnt/server/.config/openmw/logs");
}

#[test]
fn logs_older_than_seven_days_expire() {
    assert_eq!(PRUNE_AGE_SECS, 7 * 24 * 60 * 60);
    assert!(!is_log_expired(0, 0));
    assert!(!is_log_expired(PRUNE_AGE_SECS, 0));
    assert!(is_log_expired(PRUNE_AGE_SECS, 1));
    assert!(is_log_expired(PRUNE_AGE_SECS + 1, 0));
    assert!(!is_log_expired(PRUNE_AGE_SECS - 1, 999_999_999));
}

#[test]
fn output_lines_coloured_only_on_terminal() {
    let c = LogColorizer::new().unwrap();
    let p = MasterPatterns::new().unwrap();
    let tty = process_output_line(&c, &p, "[ERROR] Cannot connect to master", true);
    assert_eq!(tty.text, "\x1b[31m[ERROR] Cannot connect to master\x1b[0m");
    assert!(tty.master_issue);
    let plain = process_output_line(&c, &p, "[ERROR] boom", false);
    assert_eq!(plain.text, "[ERROR] boom");
    assert!(!plain.master_issue);
}

#[test]
fn exit_classification() {
    assert_eq!(classify_exit(true), ProcessExit::Graceful);
    assert_eq!(classify_exit(false), ProcessExit::Unexpected);
}

#[test]
fn luajit_preload_path_is_documented_location() {
    let plan = plan_spawn("/mnt/server", Some(tes3mp_runner::runner::LUAJIT_DIR));
    assert_eq!(plan.preload, Some("/tmp/container/bin/libluajit.so".to_string()));
}

#[test]
fn windows_launcher_choice_and_verbatim_paths() {
    let exe = || "a.exe".to_string();
    let bat = || "a.bat".to_string();
    assert_eq!(choose_windows_launcher(exe(), true, bat(), true), "a.exe");
    assert_eq!(choose_windows_launcher(exe(), false, bat(), true), "a.bat");
    assert_eq!(choose_windows_launcher(exe(), false, bat(), false), "a.exe");
    assert!(is_verbatim_path("\\\\?\\C:\\srv"));
    assert!(!is_verbatim_path("C:\\srv"));
    assert!(!is_verbatim_path("\\\\server\\share"));
    assert!(!is_verbatim_path(""));
}
