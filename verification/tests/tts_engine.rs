use voicepicker::tts::engine::{
    decode_synthesis, get_python_path, health_body_ready, health_reply_ready,
    http_status_error, script_path, after_service_start, start_after_first_check, start_after_spawn, synthesis_gate,
    status_is_success, venv_python_path, wait_after_check, wait_before_check, AttemptStep,
    GateStep, HealthReply, StartStep, StartupChecks, SynthesisAttempts, SynthesizeResponse, TtsError, TtsService,
    WaitStep,
};
use voicepicker::tts::external::{base64_decode, decode_error_text, read_json_bool_member, Base64Failure};

#[test]
fn service_address() {
    let s = TtsService::new();
    assert_eq!(s.host(), "127.0.0.1");
    assert_eq!(s.port(), 8765);
    assert_eq!(s.base_url(), "http://127.0.0.1:8765");
    assert_eq!(s.health_url(), "http://127.0.0.1:8765/health");
    assert_eq!(s.synthesize_url(), "http://127.0.0.1:8765/synthesize");
}

#[test]
fn running_from_health_status() {
    let s = TtsService::new();
    assert!(s.is_running(Some(200)));
    assert!(s.is_running(Some(204)));
    assert!(s.is_running(Some(502)));
    assert!(!s.is_running(Some(404)));
    assert!(!s.is_running(Some(500)));
    assert!(!s.is_running(None));
}

#[test]
fn success_statuses() {
    assert!(status_is_success(200));
    assert!(status_is_success(299));
    assert!(!status_is_success(199));
    assert!(!status_is_success(300));
}

#[test]
fn readiness_from_health_body() {
    assert!(health_body_ready(200, "{\"model_loaded\": true}"));
    assert!(!health_body_ready(200, "{\"model_loaded\": false}"));
    assert!(!health_body_ready(200, "{\"status\": \"ok\"}"));
    assert!(!health_body_ready(200, "{\"model_loaded\": \"yes\"}"));
    assert!(!health_body_ready(200, "[true]"));
    assert!(health_body_ready(200, "service up"));
    assert!(!health_body_ready(502, "{\"model_loaded\": true}"));
    assert!(!health_body_ready(503, "not json"));
    assert!(!health_reply_ready(201, Some(Some(true))));
    assert!(health_reply_ready(200, None));
}

#[test]
fn json_member_reading() {
    assert_eq!(read_json_bool_member("{\"a\": true}", "a"), Some(Some(true)));
    assert_eq!(read_json_bool_member("{\"a\": 1}", "a"), Some(None));
    assert_eq!(read_json_bool_member("{\"b\": false}", "a"), Some(None));
    assert_eq!(read_json_bool_member("{", "a"), None);
}

#[test]
fn waiting_deadline() {
    assert_eq!(wait_before_check(30, 0), WaitStep::Check);
    assert_eq!(wait_before_check(30, 29), WaitStep::Check);
    assert_eq!(
        wait_before_check(30, 30),
        WaitStep::Finish { result: Err(TtsError::ServiceNotRunning) }
    );
    assert_eq!(
        wait_before_check(0, 0),
        WaitStep::Finish { result: Err(TtsError::ServiceNotRunning) }
    );
}

fn health(status: u16, body: &str) -> Option<HealthReply> {
    Some(HealthReply { status, body: body.to_string() })
}

#[test]
fn waiting_after_replies() {
    assert_eq!(
        wait_after_check(health(200, "{\"model_loaded\": true}")),
        WaitStep::Finish { result: Ok(()) }
    );
    assert_eq!(wait_after_check(health(200, "plain text")), WaitStep::Finish { result: Ok(()) });
    assert_eq!(
        wait_after_check(health(200, "{\"model_loaded\": false}")),
        WaitStep::PauseThenCheck { pause_secs: 2 }
    );
    assert_eq!(
        wait_after_check(health(502, "{\"model_loaded\": true}")),
        WaitStep::PauseThenCheck { pause_secs: 2 }
    );
    assert_eq!(wait_after_check(None), WaitStep::PauseThenCheck { pause_secs: 2 });
}

#[test]
fn startup_steps() {
    assert_eq!(start_after_first_check(true), StartStep::Finish { result: Ok(()) });
    assert_eq!(start_after_first_check(false), StartStep::Spawn);
    assert_eq!(start_after_spawn(Ok(())), StartStep::PauseThenCheck { pause_ms: 500 });
    assert_eq!(
        start_after_spawn(Err("not found".to_string())),
        StartStep::Finish { result: Err(TtsError::IoError("not found".to_string())) }
    );
    let mut checks = StartupChecks::new();
    assert_eq!(checks.checked(), 0);
    assert_eq!(checks.after_check(true), StartStep::Finish { result: Ok(()) });
    assert_eq!(checks.checked(), 0);
}

#[test]
fn startup_gives_up_after_sixty_checks() {
    let mut checks = StartupChecks::new();
    let mut made = 0;
    loop {
        made += 1;
        match checks.after_check(false) {
            StartStep::PauseThenCheck { pause_ms } => assert_eq!(pause_ms, 500),
            StartStep::Finish { result } => {
                assert_eq!(result, Err(TtsError::ServiceNotRunning));
                break;
            }
            StartStep::Spawn => panic!("no launch after the checks began"),
        }
    }
    assert_eq!(made, 60);
    assert_eq!(checks.checked(), 59);
    assert_eq!(checks.after_check(true), StartStep::Finish { result: Ok(()) });
}

#[test]
fn shared_service_gate() {
    assert_eq!(synthesis_gate(true), GateStep::Synthesize);
    assert_eq!(synthesis_gate(false), GateStep::StartService);
    assert_eq!(after_service_start(Ok(())), (true, GateStep::Synthesize));
    assert_eq!(
        after_service_start(Err(TtsError::IoError("spawn".to_string()))),
        (false, GateStep::Fail { error: TtsError::IoError("spawn".to_string()) })
    );
}

#[test]
fn server_arguments() {
    let s = TtsService::new();
    assert_eq!(s.server_options(), vec!["--preload", "--host", "127.0.0.1", "--port", "8765"]);
    let args = s.server_args("/proj/python/tts_service.py");
    assert_eq!(
        args,
        vec!["/proj/python/tts_service.py", "--preload", "--host", "127.0.0.1", "--port", "8765"]
    );
}

#[test]
fn paths_under_project_root() {
    assert_eq!(script_path("/proj"), "/proj/python/tts_service.py");
    assert_eq!(venv_python_path("/proj"), "/proj/python/.venv/bin/python3");
    assert_eq!(get_python_path("/proj", true), Ok("/proj/python/.venv/bin/python3".to_string()));
    assert_eq!(get_python_path("/proj", false), Ok("python3".to_string()));
}

#[test]
fn error_messages() {
    assert_eq!(TtsError::HttpError("x".to_string()).message(), "HTTP 请求失败：x");
    assert_eq!(TtsError::ServiceNotRunning.message(), "Python 服务未启动");
    assert_eq!(TtsError::JsonError("y".to_string()).message(), "JSON 错误：y");
    assert_eq!(TtsError::IoError("z".to_string()).message(), "IO 错误：z");
    assert_eq!(http_status_error("boom"), TtsError::HttpError("HTTP 错误：boom".to_string()));
}

fn reply(success: bool, audio: &str, error: Option<&str>) -> SynthesizeResponse {
    SynthesizeResponse {
        success,
        audio_data: audio.to_string(),
        error: error.map(|e| e.to_string()),
    }
}

#[test]
fn synthesis_reply_decoding() {
    assert_eq!(decode_synthesis(Ok(reply(true, "aGVsbG8=", None))), Ok(b"hello".to_vec()));
    assert_eq!(decode_synthesis(Ok(reply(true, "", None))), Ok(Vec::new()));
    assert_eq!(
        decode_synthesis(Ok(reply(false, "aGVsbG8=", Some("model busy")))),
        Err(TtsError::HttpError("model busy".to_string()))
    );
    assert_eq!(
        decode_synthesis(Ok(reply(false, "", None))),
        Err(TtsError::HttpError(String::new()))
    );
    assert_eq!(
        decode_synthesis(Err("expected value".to_string())),
        Err(TtsError::JsonError("JSON 解析错误：expected value".to_string()))
    );
    let failure = base64_decode("aGVsbG8").unwrap_err();
    assert_eq!(
        decode_synthesis(Ok(reply(true, "aGVsbG8", None))),
        Err(TtsError::HttpError(format!("Base64 解码失败：{}", decode_error_text(&failure))))
    );
    assert_eq!(
        decode_synthesis(Ok(reply(true, "a@==", None))),
        Err(TtsError::HttpError("Base64 解码失败：Invalid symbol 64, offset 1.".to_string()))
    );
}

#[test]
fn base64_wrapper_decodes() {
    assert_eq!(base64_decode("AAEC").unwrap(), vec![0u8, 1, 2]);
    assert!(base64_decode("A").is_err());
    assert!(base64_decode("====").is_err());
    assert_eq!(base64_decode("a@=="), Err(Base64Failure::InvalidByte { offset: 1, byte: 64 }));
}

#[test]
fn base64_error_messages() {
    assert_eq!(
        decode_error_text(&Base64Failure::InvalidByte { offset: 3, byte: 64 }),
        "Invalid symbol 64, offset 3."
    );
    assert_eq!(
        decode_error_text(&Base64Failure::InvalidLength { length: 5 }),
        "Invalid input length: 5"
    );
    assert_eq!(
        decode_error_text(&Base64Failure::InvalidLastSymbol { offset: 2, byte: 66 }),
        "Invalid last symbol 66, offset 2."
    );
    assert_eq!(decode_error_text(&Base64Failure::InvalidPadding), "Invalid padding");
}

#[test]
fn attempts_retry_on_busy_and_give_up() {
    let mut a = SynthesisAttempts::new();
    assert_eq!(a.attempt(), 1);
    assert_eq!(a.after_send(Some(502)), AttemptStep::Retry { pause_secs: 2 });
    assert_eq!(a.attempt(), 2);
    assert_eq!(a.after_send(None), AttemptStep::Retry { pause_secs: 2 });
    assert_eq!(a.attempt(), 3);
    assert_eq!(
        a.after_send(Some(502)),
        AttemptStep::GiveUp { pause_secs: 2, error: TtsError::ServiceNotRunning }
    );
    assert_eq!(a.attempt(), 3);
    assert_eq!(
        a.after_send(None),
        AttemptStep::GiveUp { pause_secs: 0, error: TtsError::ServiceNotRunning }
    );
}

#[test]
fn attempts_read_replies() {
    let mut a = SynthesisAttempts::new();
    assert_eq!(a.after_send(Some(200)), AttemptStep::ReadResponse);
    assert_eq!(a.after_send(Some(500)), AttemptStep::ReadErrorText);
    assert_eq!(a.after_send(Some(404)), AttemptStep::ReadErrorText);
    assert_eq!(a.attempt(), 1);
}
