use backend_supervisor::bridge::{
    get_api_url, init_api_manager, init_daemon, readiness, restart_pause, shutdown_api_manager, shutdown_daemon, ApiManager,
    BridgeContext, DaemonManager, Readiness, WatchdogDecision, RESTART_FAILURE_PAUSE_SECS,
};
use backend_supervisor::heartbeat::ProcessProbe;
use backend_supervisor::locator::{
    binary_candidates, detect_backend, find_python_executable, first_existing, get_bundled_resource_path, pick_first,
    script_candidates, system_python_names, venv_candidates, LocateError, Platform,
};
use backend_supervisor::types::BackendType;
use backend_supervisor::workspace::{ApiResponse, NodeType, WorkspaceService};

#[test]
fn api_url_needs_an_installed_manager() {
    let mut ctx = BridgeContext::new();
    assert_eq!(get_api_url(&ctx), Err("API manager not initialized".to_string()));
    assert_eq!(init_api_manager(&mut ctx, Err("spawn failed".to_string())), Err("spawn failed".to_string()));
    assert!(ctx.api.is_none());
    assert_eq!(init_api_manager(&mut ctx, Ok(ApiManager::local())), Ok(()));
    assert_eq!(get_api_url(&ctx), Ok("http://127.0.0.1:11017".to_string()));
    assert_eq!(init_api_manager(&mut ctx, Ok(ApiManager::new("http://other:1".to_string()))), Ok(()));
    assert_eq!(get_api_url(&ctx), Ok("http://127.0.0.1:11017".to_string()));
}

#[test]
fn api_shutdown_stops_watchdog() {
    let mut ctx = BridgeContext::new();
    assert_eq!(shutdown_api_manager(&mut ctx), Ok(()));
    init_api_manager(&mut ctx, Ok(ApiManager::local())).unwrap();
    let m = ctx.api.as_ref().unwrap();
    assert_eq!(m.watchdog_decision(ProcessProbe::Exited), WatchdogDecision::Restart);
    assert_eq!(m.watchdog_decision(ProcessProbe::StillRunning), WatchdogDecision::Continue);
    assert_eq!(shutdown_api_manager(&mut ctx), Ok(()));
    let m = ctx.api.as_ref().unwrap();
    assert_eq!(m.watchdog_decision(ProcessProbe::Exited), WatchdogDecision::Stop);
    assert_eq!(m.get_api_url(), "http://127.0.0.1:11017");
}

#[test]
fn daemon_shutdown_cancels_requests() {
    let mut ctx = BridgeContext::new();
    assert_eq!(shutdown_daemon(&mut ctx), Ok(()));
    assert_eq!(init_daemon(&mut ctx, Err("no python".to_string())), Err("no python".to_string()));
    assert_eq!(init_daemon(&mut ctx, Ok(DaemonManager::new())), Ok(()));
    let d = ctx.daemon.as_mut().unwrap();
    let a = d.begin_request().unwrap();
    let b = d.begin_request().unwrap();
    assert_eq!(d.finish_request(Some(b)), Some(b));
    assert_eq!(d.watchdog_decision(ProcessProbe::ProbeError), WatchdogDecision::Restart);
    assert_eq!(shutdown_daemon(&mut ctx), Ok(()));
    let d = ctx.daemon.as_mut().unwrap();
    assert_eq!(d.finish_request(Some(a)), None);
    assert_eq!(d.watchdog_decision(ProcessProbe::Exited), WatchdogDecision::Stop);
}

#[test]
fn replacing_the_worker_cancels_its_requests() {
    let mut d = DaemonManager::new();
    let a = d.begin_request().unwrap();
    assert_eq!(d.replace_worker(), vec![a]);
    assert_eq!(d.begin_request(), Some(a + 1));
}

#[test]
fn binary_candidates_follow_priority_and_suffix() {
    assert_eq!(
        binary_candidates(Platform::Windows, Some("C:/app")),
        vec![
            "C:/app/_up_/backend/excel-backend/excel-backend.exe".to_string(),
            "../backend/excel-backend/excel-backend.exe".to_string(),
            "backend/excel-backend/excel-backend.exe".to_string(),
        ]
    );
    assert_eq!(
        binary_candidates(Platform::Linux, None),
        vec!["../backend/excel-backend/excel-backend".to_string(), "backend/excel-backend/excel-backend".to_string()]
    );
}

#[test]
fn interpreter_and_script_candidates() {
    assert_eq!(venv_candidates(Platform::MacOs)[0], "../src-python/.venv/bin/python");
    assert_eq!(venv_candidates(Platform::Windows)[3], ".venv/Scripts/python3.exe");
    assert_eq!(system_python_names(Platform::Windows), vec!["python.exe", "python3.exe", "python"]);
    assert_eq!(system_python_names(Platform::Linux), vec!["python3", "python"]);
    assert_eq!(script_candidates(), vec!["../src-python/src/main.py", "../src-python/main.py"]);
    assert_eq!(
        get_bundled_resource_path(Platform::MacOs, "backend", "excel-backend", "x"),
        "../Resources/_up_/backend/excel-backend/x"
    );
    assert_eq!(get_bundled_resource_path(Platform::Linux, "a", "b", "c"), "resources/a/b/c");
}

#[test]
fn first_existing_candidate_wins() {
    assert_eq!(first_existing(&[false, true, true]), Some(1));
    assert_eq!(first_existing(&[]), None);
    let c = vec!["a".to_string(), "b".to_string()];
    assert_eq!(pick_first(&c, &[false, false]), None);
    assert_eq!(pick_first(&c, &[true, true]), Some("a".to_string()));
}

#[test]
fn binary_beats_script_and_venv_beats_system() {
    assert_eq!(
        detect_backend(Some("bin".to_string()), Ok("py".to_string()), Some("main.py".to_string())),
        Ok(BackendType::Binary { binary_path: "bin".to_string() })
    );
    assert_eq!(
        detect_backend(None, Ok("py".to_string()), Some("main.py".to_string())),
        Ok(BackendType::PythonScript { python_path: "py".to_string(), script_path: "main.py".to_string() })
    );
    assert_eq!(detect_backend(None, Ok("py".to_string()), None), Err(LocateError::BackendNotFound));
    assert_eq!(find_python_executable(Some("v".to_string()), Some("s".to_string())), Ok("v".to_string()));
    assert_eq!(find_python_executable(None, Some("s".to_string())), Ok("s".to_string()));
    assert_eq!(find_python_executable(None, None), Err(LocateError::PythonNotFound));
    assert_eq!(LocateError::PythonNotFound.message(), "No Python executable found");
}

#[test]
fn workspace_naming_rules() {
    assert_eq!(WorkspaceService::file_name("ws1"), "ws1.json");
    assert!(WorkspaceService::check_save_id(&"a".to_string(), &"a".to_string()).is_ok());
    let e = WorkspaceService::check_save_id(&"a".to_string(), &"b".to_string()).unwrap_err();
    assert_eq!(e.error_type, "IDMismatch");
    assert_eq!(e.message, "Workspace ID in config (a) does not match save ID (b).");
    let s = WorkspaceService::summary_for("ws".to_string(), "Sales".to_string(), Some("ws".to_string())).unwrap();
    assert_eq!((s.id.as_str(), s.name.as_str()), ("ws", "Sales"));
    assert!(WorkspaceService::summary_for("ws".to_string(), "Sales".to_string(), Some("other".to_string())).is_none());
    assert!(WorkspaceService::summary_for("ws".to_string(), "Sales".to_string(), None).is_none());
    assert_eq!(NodeType::RowFilter.tag(), "rowFilter");
    let ok = ApiResponse::success(3);
    assert_eq!((ok.status.as_str(), ok.data), ("success", Some(3)));
    let err = ApiResponse::<u8>::error("nope".to_string());
    assert_eq!((err.status.as_str(), err.message.as_deref()), ("error", Some("nope")));
}

#[test]
fn responses_are_routed_by_id_and_noise_is_dropped() {
    let mut d = DaemonManager::new();
    let a = d.begin_request().unwrap();
    let b = d.begin_request().unwrap();
    assert_eq!(d.route_response(b"not json at all"), None);
    assert_eq!(d.route_response(br#"{"success":true,"data":1}"#), None);
    let line_b = format!(r#"{{"id":{},"success":true,"data":"second"}}"#, b);
    let line_a = format!(r#"{{"id":{},"success":false,"error":"first failed"}}"#, a);
    assert_eq!(d.route_response(line_b.as_bytes()), Some((b, Ok("\"second\"".to_string()))));
    assert_eq!(d.route_response(line_a.as_bytes()), Some((a, Err("first failed".to_string()))));
    assert_eq!(d.route_response(line_b.as_bytes()), None);
    let c = d.begin_request().unwrap();
    let line_c = format!(r#"{{"id":{},"success":false}}"#, c);
    assert_eq!(d.route_response(line_c.as_bytes()), Some((c, Err("Unknown error".to_string()))));
}

#[test]
fn readiness_retries_up_to_thirty_checks() {
    assert_eq!(readiness(0, true, true), Readiness::Ready);
    assert_eq!(readiness(0, true, false), Readiness::Retry);
    assert_eq!(readiness(28, false, false), Readiness::Retry);
    assert_eq!(readiness(29, true, false), Readiness::GiveUp);
    assert_eq!(readiness(29, true, true), Readiness::Ready);
}

#[test]
fn restart_pause_only_after_a_failed_spawn() {
    assert_eq!(restart_pause(true), None);
    assert_eq!(restart_pause(false), Some(RESTART_FAILURE_PAUSE_SECS));
    assert_eq!(RESTART_FAILURE_PAUSE_SECS, 10);
}

#[test]
fn api_urls_join_base_and_path() {
    let m = ApiManager::local();
    assert_eq!(m.health_url(), "http://127.0.0.1:11017/health");
    assert_eq!(m.shutdown_url(), "http://127.0.0.1:11017/shutdown");
}
