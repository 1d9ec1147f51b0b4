use backend_supervisor::launch::{
    decimal, default_runtime, plan, search_path, search_path_variable, server_args, LaunchEnv,
    DEFAULT_BASE_PORT,
};
use backend_supervisor::precheck::{check, command, PrecheckFailure, RunResult};

#[test]
fn defaults() {
    assert_eq!(DEFAULT_BASE_PORT, 37999);
    assert_eq!(default_runtime(), "python");
    assert_eq!(search_path_variable(), "PYTHONPATH");
}

#[test]
fn decimal_writes_every_width() {
    assert_eq!(decimal(0), "0");
    assert_eq!(decimal(7), "7");
    assert_eq!(decimal(10), "10");
    assert_eq!(decimal(409), "409");
    assert_eq!(decimal(8000), "8000");
    assert_eq!(decimal(37999), "37999");
    assert_eq!(decimal(65535), "65535");
}

#[test]
fn decimal_agrees_with_std_on_all_ports() {
    let mut port: u16 = 0;
    loop {
        assert_eq!(decimal(port), port.to_string());
        if port == u16::MAX {
            break;
        }
        port += 1;
    }
}

#[test]
fn server_command_line() {
    assert_eq!(
        server_args(37999),
        vec!["-m", "uvicorn", "webapp.api:app", "--host", "127.0.0.1", "--port", "37999"]
    );
    assert_eq!(server_args(80)[6], "80");
}

#[test]
fn search_path_puts_root_first() {
    assert_eq!(search_path("/opt/app", &None), "/opt/app");
    assert_eq!(search_path("/opt/app", &Some("/usr/lib/py".to_string())), "/opt/app:/usr/lib/py");
    assert_eq!(search_path("/opt/app", &Some("a:b".to_string())), "/opt/app:a:b");
    assert_eq!(search_path("/opt/app", &Some(String::new())), "/opt/app:");
}

#[test]
fn plan_holds_runtime_port_and_path() {
    let env = LaunchEnv {
        root: Some("/opt/app".to_string()),
        search_path: Some("/lib".to_string()),
        process_groups: true,
    };
    let launch = plan("python3", 38001, "/opt/app", &env);
    assert_eq!(launch.line.program, "python3");
    assert_eq!(launch.line.args, server_args(38001));
    assert_eq!(launch.search_path, "/opt/app:/lib");
    assert!(launch.own_process_group);
    let bare = LaunchEnv { root: None, search_path: None, process_groups: false };
    let launch = plan("py", 1, "/r", &bare);
    assert_eq!(launch.search_path, "/r");
    assert!(!launch.own_process_group);
}

#[test]
fn precheck_command_imports_both_libraries() {
    let line = command("python3");
    assert_eq!(line.program, "python3");
    assert_eq!(line.args, vec!["-c", "import uvicorn,fastapi"]);
}

#[test]
fn precheck_passes_only_on_exit_code_zero() {
    assert_eq!(check(RunResult::Exited { code: Some(0) }), Ok(()));
    assert_eq!(check(RunResult::Exited { code: Some(1) }), Err(PrecheckFailure::LibrariesMissing));
    assert_eq!(check(RunResult::Exited { code: Some(-1) }), Err(PrecheckFailure::LibrariesMissing));
    assert_eq!(check(RunResult::Exited { code: None }), Err(PrecheckFailure::LibrariesMissing));
    assert_eq!(
        check(RunResult::NotRun { os_error: "No such file or directory".to_string() }),
        Err(PrecheckFailure::NotExecutable { os_error: "No such file or directory".to_string() })
    );
}

#[test]
fn precheck_messages() {
    let missing = PrecheckFailure::LibrariesMissing;
    assert_eq!(
        missing.start_message("python3"),
        "Python 'python3' missing fastapi/uvicorn. Install with: python3 -m pip install -e '.[web]'"
    );
    assert_eq!(missing.diagnostic_message(), "Missing uvicorn and/or fastapi");
    let absent = PrecheckFailure::NotExecutable { os_error: "not found".to_string() };
    assert_eq!(absent.start_message("python3"), "Failed to run python check: not found");
    assert_eq!(absent.diagnostic_message(), "Python exec error: not found");
}
