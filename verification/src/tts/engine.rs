//! The speech service client's logic: the service's address, how its health and
//! synthesis replies are read, how many times a request is tried, and how the
//! service is started and waited for. The HTTP requests, the process and the
//! waiting are done by the caller, which hands the outcomes in.

use crate::text::{decimal, join_path, path_join, u16_to_decimal};
use crate::tts::external::{
    base64_decode, base64_error_message, base64_standard_decode, decode_error_text, json_bool_member,
    read_json_bool_member,
};
use vstd::prelude::*;

verus! {

/// The errors of the speech service client.
#[derive(Debug, Clone, PartialEq, Eq)]
pub enum TtsError {
    /// An HTTP request failed or the service reported a failure.
    HttpError(String),
    /// The service is not running.
    ServiceNotRunning,
    /// A reply could not be read as JSON.
    JsonError(String),
    /// Starting the service failed.
    IoError(String),
}

/// A `TtsError` with its texts as character sequences.
pub ghost enum TtsErrorView {
    Http(Seq<char>),
    ServiceNotRunning,
    Json(Seq<char>),
    Io(Seq<char>),
}

impl View for TtsError {
    type V = TtsErrorView;

    open spec fn view(&self) -> TtsErrorView {
        match self {
            TtsError::HttpError(s) => TtsErrorView::Http(s@),
            TtsError::ServiceNotRunning => TtsErrorView::ServiceNotRunning,
            TtsError::JsonError(s) => TtsErrorView::Json(s@),
            TtsError::IoError(s) => TtsErrorView::Io(s@),
        }
    }
}

/// The message that describes an error.
pub open spec fn error_message(e: TtsErrorView) -> Seq<char> {
    match e {
        TtsErrorView::Http(s) => "HTTP 请求失败："@ + s,
        TtsErrorView::ServiceNotRunning => "Python 服务未启动"@,
        TtsErrorView::Json(s) => "JSON 错误："@ + s,
        TtsErrorView::Io(s) => "IO 错误："@ + s,
    }
}

impl TtsError {
    /// The message that describes this error (see `error_message`).
    pub fn message(&self) -> (m: String)
        ensures
            m@ == error_message(self@),
    {
        match self {
            TtsError::HttpError(s) => String::from_str("HTTP 请求失败：").concat(s.as_str()),
            TtsError::ServiceNotRunning => String::from_str("Python 服务未启动"),
            TtsError::JsonError(s) => String::from_str("JSON 错误：").concat(s.as_str()),
            TtsError::IoError(s) => String::from_str("IO 错误：").concat(s.as_str()),
        }
    }
}

/// The address of the service on `host` and `port`: `http://host:port`.
pub open spec fn service_url(host: Seq<char>, port: u16) -> Seq<char> {
    "http://"@ + host + ":"@ + decimal(port as nat)
}

/// The host the service listens on.
pub open spec fn default_host() -> Seq<char> {
    "127.0.0.1"@
}

/// The port the service listens on.
pub const DEFAULT_PORT: u16 = 8765;

/// The speech service: where it listens and its address.
#[derive(Debug, Clone, PartialEq, Eq)]
pub struct TtsService {
    host: String,
    port: u16,
    base_url: String,
}

/// The abstract value of a `TtsService`.
pub ghost struct TtsServiceView {
    pub host: Seq<char>,
    pub port: u16,
    pub base_url: Seq<char>,
}

impl View for TtsService {
    type V = TtsServiceView;

    closed spec fn view(&self) -> TtsServiceView {
        TtsServiceView { host: self.host@, port: self.port, base_url: self.base_url@ }
    }
}

impl TtsService {
    /// The service on the local host at the usual port, with its address.
    pub fn new() -> (s: Self)
        ensures
            s@.host == default_host(),
            s@.port == DEFAULT_PORT,
            s@.base_url == service_url(s@.host, s@.port),
    {
        let host = String::from_str("127.0.0.1");
        let port: u16 = DEFAULT_PORT;
        let base_url = String::from_str("http://").concat(host.as_str()).concat(":").concat(
            u16_to_decimal(port).as_str(),
        );
        TtsService { host, port, base_url }
    }

    /// The host the service listens on.
    pub fn host(&self) -> (h: &str)
        ensures
            h@ == self@.host,
    {
        self.host.as_str()
    }

    /// The port the service listens on.
    pub fn port(&self) -> (p: u16)
        ensures
            p == self@.port,
    {
        self.port
    }

    /// The address of the service.
    pub fn base_url(&self) -> (u: &str)
        ensures
            u@ == self@.base_url,
    {
        self.base_url.as_str()
    }

    /// The address of the health check: the base address followed by `/health`.
    pub fn health_url(&self) -> (u: String)
        ensures
            u@ == self@.base_url + "/health"@,
    {
        String::from_str(self.base_url.as_str()).concat("/health")
    }

    /// The address of synthesis: the base address followed by `/synthesize`.
    pub fn synthesize_url(&self) -> (u: String)
        ensures
            u@ == self@.base_url + "/synthesize"@,
    {
        String::from_str(self.base_url.as_str()).concat("/synthesize")
    }

    /// Whether the service counts as running, given the status of its health check
    /// (`None` where the request failed): a success status means it runs, and so does
    /// 502, which the service answers while it is still starting.
    pub fn is_running(&self, health_status: Option<u16>) -> (r: bool)
        ensures
            r == match health_status {
                Some(status) => is_success_status(status) || status == 502,
                None => false,
            },
    {
        match health_status {
            Some(status) => status_is_success(status) || status == 502,
            None => false,
        }
    }

    /// The options that follow the service script on its command line: `--preload`,
    /// `--host` with the host, and `--port` with the port in decimal.
    pub fn server_options(&self) -> (opts: Vec<String>)
        ensures
            opts@.len() == 5,
            opts@[0]@ == "--preload"@,
            opts@[1]@ == "--host"@,
            opts@[2]@ == self@.host,
            opts@[3]@ == "--port"@,
            opts@[4]@ == decimal(self@.port as nat),
    {
        let mut opts: Vec<String> = Vec::new();
        opts.push(String::from_str("--preload"));
        opts.push(String::from_str("--host"));
        opts.push(String::from_str(self.host.as_str()));
        opts.push(String::from_str("--port"));
        opts.push(u16_to_decimal(self.port));
        opts
    }

    /// The arguments that start the service script at `script_path`: the script,
    /// then `server_options`.
    pub fn server_args(&self, script_path: &str) -> (args: Vec<String>)
        ensures
            args@.len() == 6,
            args@[0]@ == script_path@,
            args@[1]@ == "--preload"@,
            args@[2]@ == "--host"@,
            args@[3]@ == self@.host,
            args@[4]@ == "--port"@,
            args@[5]@ == decimal(self@.port as nat),
    {
        let mut args: Vec<String> = Vec::new();
        args.push(String::from_str(script_path));
        let mut opts = self.server_options();
        args.append(&mut opts);
        args
    }
}

/// Whether an HTTP status is a success (200 through 299).
pub open spec fn is_success_status(status: u16) -> bool {
    200 <= status <= 299
}

/// Decides `is_success_status`.
pub fn status_is_success(status: u16) -> (r: bool)
    ensures
        r == is_success_status(status),
{
    200 <= status && status <= 299
}

// ----------------------------------------------------------------------------
// Waiting for the service to be ready

/// The member of the health reply that says whether the model is loaded.
pub open spec fn model_loaded_key() -> Seq<char> {
    "model_loaded"@
}

/// Whether a health reply means the service is ready, given its status and what
/// reading its `model_loaded` member gave (see `json_bool_member`): a reply with
/// status 200 is ready when the model is reported loaded, and also when its body is
/// not JSON at all; any other reply is not.
pub open spec fn reply_is_ready(status: u16, model_loaded: Option<Option<bool>>) -> bool {
    status == 200 && match model_loaded {
        None => true,
        Some(Some(loaded)) => loaded,
        Some(None) => false,
    }
}

/// Only a health reply with status 200 can mean ready: 502 (still starting) and
/// every other status keep the wait going, whatever the body; a failed request does
/// too.
pub proof fn lemma_only_status_200_is_ready(status: u16, model_loaded: Option<Option<bool>>)
    ensures
        reply_is_ready(status, model_loaded) ==> status == 200,
        status != 200 ==> !reply_is_ready(status, model_loaded),
        reply_is_ready(200, Some(Some(false))) == false,
        reply_is_ready(200, Some(None)) == false,
{
}

/// Decides `reply_is_ready`.
pub fn health_reply_ready(status: u16, model_loaded: Option<Option<bool>>) -> (r: bool)
    ensures
        r == reply_is_ready(status, model_loaded),
{
    if status != 200 {
        return false;
    }
    match model_loaded {
        None => true,
        Some(Some(loaded)) => loaded,
        Some(None) => false,
    }
}

/// Whether the health reply with `status` and `body` means the service is ready
/// (see `reply_is_ready`), reading the body's `model_loaded` member as JSON.
pub fn health_body_ready(status: u16, body: &str) -> (r: bool)
    ensures
        r == reply_is_ready(status, json_bool_member(body@, model_loaded_key())),
{
    let model_loaded = read_json_bool_member(body, "model_loaded");
    health_reply_ready(status, model_loaded)
}

/// A reply to a health check.
#[derive(Debug, Clone, PartialEq, Eq)]
pub struct HealthReply {
    pub status: u16,
    pub body: String,
}

/// The pause between two health checks of a wait, in seconds.
pub const READY_POLL_PAUSE_SECS: u64 = 2;

/// What a wait for the service to be ready does next.
#[derive(Debug, PartialEq, Eq)]
pub enum WaitStep {
    /// Send a health check and hand its reply to `wait_after_check`.
    Check,
    /// Pause this many seconds, then hand the time waited to `wait_before_check`.
    PauseThenCheck { pause_secs: u64 },
    /// The wait is over, with this result.
    Finish { result: Result<(), TtsError> },
}

/// A wait's step before each health check: a check while the time waited, in whole
/// seconds since the wait began, is below the timeout; once it is not, the wait
/// ends with `ServiceNotRunning`.
pub fn wait_before_check(timeout_secs: u64, waited_secs: u64) -> (step: WaitStep)
    ensures
        waited_secs < timeout_secs ==> step == WaitStep::Check,
        waited_secs >= timeout_secs ==> (step matches WaitStep::Finish { result: Err(e) } && e@
            == TtsErrorView::ServiceNotRunning),
{
    if waited_secs < timeout_secs {
        WaitStep::Check
    } else {
        WaitStep::Finish { result: Err(TtsError::ServiceNotRunning) }
    }
}

/// A wait's step after a health check, given its reply (`None` where the request
/// failed): a reply that means ready (see `health_body_ready`) ends the wait with
/// `Ok` at once; anything else pauses for `READY_POLL_PAUSE_SECS` before the next
/// deadline check. A wait therefore ends only with `Ok`, right after a ready reply,
/// or with `ServiceNotRunning` once the timeout has passed.
pub fn wait_after_check(reply: Option<HealthReply>) -> (step: WaitStep)
    ensures
        match reply {
            Some(r) => if reply_is_ready(r.status, json_bool_member(r.body@, model_loaded_key())) {
                step == (WaitStep::Finish { result: Ok(()) })
            } else {
                step == (WaitStep::PauseThenCheck { pause_secs: READY_POLL_PAUSE_SECS })
            },
            None => step == (WaitStep::PauseThenCheck { pause_secs: READY_POLL_PAUSE_SECS }),
        },
{
    match reply {
        Some(r) => {
            if health_body_ready(r.status, r.body.as_str()) {
                WaitStep::Finish { result: Ok(()) }
            } else {
                WaitStep::PauseThenCheck { pause_secs: READY_POLL_PAUSE_SECS }
            }
        },
        None => WaitStep::PauseThenCheck { pause_secs: READY_POLL_PAUSE_SECS },
    }
}

// ----------------------------------------------------------------------------
// Starting the service

/// How many times the start-up checks whether the service runs after launching it.
pub const STARTUP_POLLS: u32 = 60;

/// The pause before each start-up check, in milliseconds.
pub const STARTUP_POLL_INTERVAL_MS: u64 = 500;

/// What a start of the service does next.
#[derive(Debug, PartialEq, Eq)]
pub enum StartStep {
    /// Launch the service process (interpreter from `get_python_path`, arguments
    /// from `TtsService::server_args`) and hand the outcome to `start_after_spawn`.
    Spawn,
    /// Pause this many milliseconds, then check whether the service runs and hand the
    /// answer to `StartupChecks::after_check`.
    PauseThenCheck { pause_ms: u64 },
    /// The start is over, with this result.
    Finish { result: Result<(), TtsError> },
}

/// A start's first step, given whether the service already answers as running:
/// if it does, the start ends with `Ok` and nothing is launched; else the process
/// is launched.
pub fn start_after_first_check(running: bool) -> (step: StartStep)
    ensures
        running ==> step == (StartStep::Finish { result: Ok(()) }),
        !running ==> step == StartStep::Spawn,
{
    if running {
        StartStep::Finish { result: Ok(()) }
    } else {
        StartStep::Spawn
    }
}

/// A start's step after launching the process, given the outcome (`Err` with the
/// system's message where it could not be launched): a failed launch ends the start
/// with an I/O error carrying the message; else the first check follows a pause.
pub fn start_after_spawn(spawned: Result<(), String>) -> (step: StartStep)
    ensures
        match spawned {
            Ok(()) => step == (StartStep::PauseThenCheck { pause_ms: STARTUP_POLL_INTERVAL_MS }),
            Err(m) => step matches StartStep::Finish { result: Err(e) } && e@ == TtsErrorView::Io(
                m@,
            ),
        },
{
    match spawned {
        Ok(()) => StartStep::PauseThenCheck { pause_ms: STARTUP_POLL_INTERVAL_MS },
        Err(m) => StartStep::Finish { result: Err(TtsError::IoError(m)) },
    }
}

/// Whether another start-up check follows check number `checked` (counted from
/// zero) when that check found the service not running.
pub open spec fn startup_continues(checked: nat, running: bool) -> bool {
    !running && checked + 1 < STARTUP_POLLS
}

/// How many start-up checks are made, from check number `checked` on, when the
/// checks find the service running or not as `answers` says (and no more checks are
/// made once the answers run out).
pub open spec fn startup_checks_made(checked: nat, answers: Seq<bool>) -> nat
    decreases answers.len(),
{
    if answers.len() == 0 {
        0
    } else if startup_continues(checked, answers[0]) {
        1 + startup_checks_made(checked + 1, answers.drop_first())
    } else {
        1
    }
}

/// Start-up checks never number more than `STARTUP_POLLS`, whatever they find, and
/// since each follows a pause of `STARTUP_POLL_INTERVAL_MS`, the start-up waits at
/// most 30 seconds for the service.
pub proof fn lemma_startup_checks_bounded(checked: nat, answers: Seq<bool>)
    requires
        checked < STARTUP_POLLS,
    ensures
        startup_checks_made(checked, answers) <= STARTUP_POLLS - checked,
        startup_checks_made(0, answers) * STARTUP_POLL_INTERVAL_MS <= 30_000,
    decreases answers.len(),
{
    lemma_startup_checks_count(checked, answers);
    lemma_startup_checks_from_zero(answers);
}

proof fn lemma_startup_checks_from_zero(answers: Seq<bool>)
    ensures
        startup_checks_made(0, answers) * STARTUP_POLL_INTERVAL_MS <= 30_000,
{
    lemma_startup_checks_count(0, answers);
    assert(startup_checks_made(0, answers) * 500 <= 60 * 500) by (nonlinear_arith)
        requires
            startup_checks_made(0, answers) <= 60,
    ;
}

proof fn lemma_startup_checks_count(checked: nat, answers: Seq<bool>)
    requires
        checked < STARTUP_POLLS,
    ensures
        startup_checks_made(checked, answers) <= STARTUP_POLLS - checked,
    decreases answers.len(),
{
    if answers.len() > 0 && startup_continues(checked, answers[0]) {
        lemma_startup_checks_count(checked + 1, answers.drop_first());
    }
}

/// The checks that follow the launch of the service: how many of them were made.
pub struct StartupChecks {
    checked: u32,
}

impl View for StartupChecks {
    type V = nat;

    /// The number of the check under way, counted from zero.
    closed spec fn view(&self) -> nat {
        self.checked as nat
    }
}

impl StartupChecks {
    #[verifier::type_invariant]
    spec fn inv(self) -> bool {
        self.checked < STARTUP_POLLS
    }

    /// Before the first check.
    pub fn new() -> (c: Self)
        ensures
            c@ == 0,
    {
        StartupChecks { checked: 0 }
    }

    /// The number of the check under way, counted from zero; always below
    /// `STARTUP_POLLS`.
    pub fn checked(&self) -> (n: u32)
        ensures
            n == self@,
            n < STARTUP_POLLS,
    {
        proof { use_type_invariant(self); }
        self.checked
    }

    /// A start's step after the check under way found the service `running` or not:
    /// a running service ends the start with `Ok`; otherwise another check follows a
    /// pause (and the count moves on), until `STARTUP_POLLS` checks have failed and the
    /// start ends with `ServiceNotRunning`.
    pub fn after_check(&mut self, running: bool) -> (step: StartStep)
        ensures
            old(self)@ < STARTUP_POLLS,
            running ==> step == (StartStep::Finish { result: Ok(()) }) && final(self)@ == old(
                self,
            )@,
            startup_continues(old(self)@, running) ==> step == (StartStep::PauseThenCheck {
                pause_ms: STARTUP_POLL_INTERVAL_MS,
            }) && final(self)@ == old(self)@ + 1,
            !running && !startup_continues(old(self)@, running) ==> (step matches StartStep::Finish {
                result: Err(e),
            } && e@ == TtsErrorView::ServiceNotRunning && final(self)@ == old(self)@),
    {
        proof { use_type_invariant(&*self); }
        if running {
            StartStep::Finish { result: Ok(()) }
        } else if self.checked + 1 < STARTUP_POLLS {
            self.checked = self.checked + 1;
            StartStep::PauseThenCheck { pause_ms: STARTUP_POLL_INTERVAL_MS }
        } else {
            StartStep::Finish { result: Err(TtsError::ServiceNotRunning) }
        }
    }
}

/// The service script under the project root: `python/tts_service.py`.
pub open spec fn script_path_of(project_root: Seq<char>) -> Seq<char> {
    path_join(path_join(project_root, "python"@), "tts_service.py"@)
}

/// The interpreter of the project's virtual environment under the project root:
/// `python/.venv/bin/python3`.
pub open spec fn venv_python_of(project_root: Seq<char>) -> Seq<char> {
    path_join(
        path_join(path_join(path_join(project_root, "python"@), ".venv"@), "bin"@),
        "python3"@,
    )
}

/// The path of the service script under `project_root`.
pub fn script_path(project_root: &str) -> (p: String)
    ensures
        p@ == script_path_of(project_root@),
{
    let dir = join_path(project_root, "python");
    join_path(dir.as_str(), "tts_service.py")
}

/// The path of the virtual environment's interpreter under `project_root`.
pub fn venv_python_path(project_root: &str) -> (p: String)
    ensures
        p@ == venv_python_of(project_root@),
{
    let a = join_path(project_root, "python");
    let b = join_path(a.as_str(), ".venv");
    let c = join_path(b.as_str(), "bin");
    join_path(c.as_str(), "python3")
}

/// The Python interpreter that runs the service: the virtual environment's one under
/// `project_root` where it exists (`venv_exists`), else `python3` from the search path.
pub fn get_python_path(project_root: &str, venv_exists: bool) -> (p: Result<String, TtsError>)
    ensures
        p matches Ok(path) && path@ == (if venv_exists {
            venv_python_of(project_root@)
        } else {
            "python3"@
        }),
{
    if venv_exists {
        Ok(venv_python_path(project_root))
    } else {
        Ok(String::from_str("python3"))
    }
}

// ----------------------------------------------------------------------------
// Synthesis

/// The body of a synthesis reply.
#[derive(Debug, Clone, PartialEq, Eq)]
pub struct SynthesizeResponse {
    pub success: bool,
    /// The audio, Base64-encoded.
    pub audio_data: String,
    pub error: Option<String>,
}

/// The error for a synthesis reply whose status is not a success, given the reply's
/// text: an HTTP error whose text is `HTTP 错误：` followed by that text.
pub fn http_status_error(reply_text: &str) -> (e: TtsError)
    ensures
        e@ == TtsErrorView::Http("HTTP 错误："@ + reply_text@),
{
    TtsError::HttpError(String::from_str("HTTP 错误：").concat(reply_text))
}

/// The audio of a successful synthesis reply, given the reply's body as read from
/// JSON (`Err` with the reader's message where it could not be read):
/// - an unreadable body is a JSON error `JSON 解析错误：` followed by the message;
/// - a body that reports no success is an HTTP error with the reported error text
///   (empty where there is none);
/// - otherwise the audio is the Base64 decoding of `audio_data`, and where that fails,
///   an HTTP error whose text is `Base64 解码失败：` followed by the decoder's message.
pub fn decode_synthesis(parsed: Result<SynthesizeResponse, String>) -> (r: Result<
    Vec<u8>,
    TtsError,
>)
    ensures
        match parsed {
            Err(msg) => r matches Err(e) && e@ == TtsErrorView::Json("JSON 解析错误："@ + msg@),
            Ok(resp) => if !resp.success {
                r matches Err(e) && e@ == TtsErrorView::Http(
                    match resp.error {
                        Some(t) => t@,
                        None => Seq::<char>::empty(),
                    },
                )
            } else {
                match base64_standard_decode(resp.audio_data@) {
                    Ok(bytes) => r matches Ok(audio) && audio@ == bytes,
                    Err(f) => r matches Err(e) && e@ == TtsErrorView::Http(
                        "Base64 解码失败："@ + base64_error_message(f),
                    ),
                }
            },
        },
{
    match parsed {
        Err(msg) => Err(TtsError::JsonError(String::from_str("JSON 解析错误：").concat(msg.as_str()))),
        Ok(resp) => {
            if !resp.success {
                let text = match resp.error {
                    Some(t) => t,
                    None => String::new(),
                };
                return Err(TtsError::HttpError(text));
            }
            match base64_decode(resp.audio_data.as_str()) {
                Ok(audio) => Ok(audio),
                Err(e) => {
                    let prefix = String::from_str("Base64 解码失败：");
                    let detail = decode_error_text(&e);
                    let text = prefix.concat(detail.as_str());
                    Err(TtsError::HttpError(text))
                },
            }
        },
    }
}

/// What a synthesis through the shared service does next.
#[derive(Debug, PartialEq, Eq)]
pub enum GateStep {
    /// Start the service (`TtsService::start`) and hand the result to
    /// `after_service_start`.
    StartService,
    /// Send the synthesis request.
    Synthesize,
    /// Give up with this error.
    Fail { error: TtsError },
}

/// The first step of a synthesis through the shared service, given whether the
/// service was started before: start it if not, else synthesize at once.
pub fn synthesis_gate(started: bool) -> (step: GateStep)
    ensures
        started ==> step == GateStep::Synthesize,
        !started ==> step == GateStep::StartService,
{
    if started {
        GateStep::Synthesize
    } else {
        GateStep::StartService
    }
}

/// The step after starting the shared service, and whether it now counts as
/// started: a successful start is remembered and the synthesis goes on; a failed one
/// is not remembered, and the synthesis fails with the start's error.
pub fn after_service_start(result: Result<(), TtsError>) -> (r: (bool, GateStep))
    ensures
        match result {
            Ok(()) => r.0 && r.1 == GateStep::Synthesize,
            Err(e) => !r.0 && (r.1 matches GateStep::Fail { error } && error@ == e@),
        },
{
    match result {
        Ok(()) => (true, GateStep::Synthesize),
        Err(e) => (false, GateStep::Fail { error: e }),
    }
}

/// How many times a blocking synthesis request is sent at most.
pub const SYNTHESIS_ATTEMPTS: u32 = 3;

/// The pause, in seconds, before a request is sent again.
pub const RETRY_PAUSE_SECS: u64 = 2;

/// What a blocking synthesis does after a request was sent.
#[derive(Debug, Clone, PartialEq, Eq)]
pub enum AttemptStep {
    /// The status is a success: read the body and finish with `decode_synthesis`.
    ReadResponse,
    /// The status is another failure: read the reply's text and finish with
    /// `http_status_error`.
    ReadErrorText,
    /// Pause this many seconds and send the request again.
    Retry { pause_secs: u64 },
    /// Pause this many seconds, then finish with this error.
    GiveUp { pause_secs: u64, error: TtsError },
}

/// Whether a blocking synthesis sends its request again after attempt `attempt`,
/// whose reply had `status` (`None` where it could not be sent): after a busy
/// service (502) or a failed send, while attempts remain.
pub open spec fn retry_follows(attempt: nat, status: Option<u16>) -> bool {
    attempt < SYNTHESIS_ATTEMPTS && match status {
        Some(s) => s == 502,
        None => true,
    }
}

/// How many requests a blocking synthesis sends, from attempt `attempt` on, when the
/// sends go as `outcomes` says (and no more are sent once the outcomes run out).
pub open spec fn requests_sent(attempt: nat, outcomes: Seq<Option<u16>>) -> nat
    decreases outcomes.len(),
{
    if outcomes.len() == 0 {
        0
    } else if retry_follows(attempt, outcomes[0]) {
        1 + requests_sent(attempt + 1, outcomes.drop_first())
    } else {
        1
    }
}

/// A blocking synthesis sends at most `SYNTHESIS_ATTEMPTS` requests, whatever their
/// replies.
pub proof fn lemma_requests_bounded(attempt: nat, outcomes: Seq<Option<u16>>)
    requires
        1 <= attempt <= SYNTHESIS_ATTEMPTS,
    ensures
        requests_sent(attempt, outcomes) <= SYNTHESIS_ATTEMPTS + 1 - attempt,
        requests_sent(1, outcomes) <= SYNTHESIS_ATTEMPTS,
{
    lemma_requests_count(attempt, outcomes);
    lemma_requests_count(1, outcomes);
}

proof fn lemma_requests_count(attempt: nat, outcomes: Seq<Option<u16>>)
    requires
        1 <= attempt <= SYNTHESIS_ATTEMPTS,
    ensures
        requests_sent(attempt, outcomes) <= SYNTHESIS_ATTEMPTS + 1 - attempt,
    decreases outcomes.len(),
{
    if outcomes.len() > 0 && retry_follows(attempt, outcomes[0]) {
        lemma_requests_count(attempt + 1, outcomes.drop_first());
    }
}

/// The attempts of a blocking synthesis request: which attempt is under way.
pub struct SynthesisAttempts {
    attempt: u32,
}

impl View for SynthesisAttempts {
    type V = nat;

    closed spec fn view(&self) -> nat {
        self.attempt as nat
    }
}

impl SynthesisAttempts {
    #[verifier::type_invariant]
    spec fn inv(self) -> bool {
        1 <= self.attempt <= SYNTHESIS_ATTEMPTS
    }

    /// The first attempt.
    pub fn new() -> (a: Self)
        ensures
            a@ == 1,
    {
        SynthesisAttempts { attempt: 1 }
    }

    /// The number of the attempt under way, from 1 to `SYNTHESIS_ATTEMPTS`.
    pub fn attempt(&self) -> (n: u32)
        ensures
            n == self@,
            1 <= n <= SYNTHESIS_ATTEMPTS,
    {
        proof { use_type_invariant(self); }
        self.attempt
    }

    /// The next step after the request of this attempt, given its reply's status
    /// (`None` where it could not be sent):
    /// - status 502 (the service is busy) and a failed send are tried again after a
    ///   pause while attempts remain; after the last attempt the synthesis gives up with
    ///   `ServiceNotRunning`, after a pause for 502 and at once for a failed send;
    /// - a success status reads the reply's body, any other status its text.
    /// A retry moves on to the next attempt; every other step leaves the count alone.
    pub fn after_send(&mut self, status: Option<u16>) -> (step: AttemptStep)
        ensures
            (step is Retry) == retry_follows(old(self)@, status),
            match status {
                Some(s) => if s == 502 {
                    if old(self)@ < SYNTHESIS_ATTEMPTS {
                        step matches AttemptStep::Retry { pause_secs } && pause_secs
                            == RETRY_PAUSE_SECS && final(self)@ == old(self)@ + 1
                    } else {
                        step matches AttemptStep::GiveUp { pause_secs, error } && pause_secs
                            == RETRY_PAUSE_SECS && error@ == TtsErrorView::ServiceNotRunning
                            && final(self)@ == old(self)@
                    }
                } else if is_success_status(s) {
                    step matches AttemptStep::ReadResponse && final(self)@ == old(self)@
                } else {
                    step matches AttemptStep::ReadErrorText && final(self)@ == old(self)@
                },
                None => if old(self)@ < SYNTHESIS_ATTEMPTS {
                    step matches AttemptStep::Retry { pause_secs } && pause_secs
                        == RETRY_PAUSE_SECS && final(self)@ == old(self)@ + 1
                } else {
                    step matches AttemptStep::GiveUp { pause_secs, error } && pause_secs == 0
                        && error@ == TtsErrorView::ServiceNotRunning && final(self)@ == old(
                        self,
                    )@
                },
            },
    {
        proof { use_type_invariant(&*self); }
        let retry_possible = self.attempt < SYNTHESIS_ATTEMPTS;
        match status {
            Some(s) => {
                if s == 502 {
                    if retry_possible {
                        self.attempt = self.attempt + 1;
                        AttemptStep::Retry { pause_secs: RETRY_PAUSE_SECS }
                    } else {
                        AttemptStep::GiveUp {
                            pause_secs: RETRY_PAUSE_SECS,
                            error: TtsError::ServiceNotRunning,
                        }
                    }
                } else if status_is_success(s) {
                    AttemptStep::ReadResponse
                } else {
                    AttemptStep::ReadErrorText
                }
            },
            None => {
                if retry_possible {
                    self.attempt = self.attempt + 1;
                    AttemptStep::Retry { pause_secs: RETRY_PAUSE_SECS }
                } else {
                    AttemptStep::GiveUp { pause_secs: 0, error: TtsError::ServiceNotRunning }
                }
            },
        }
    }
}

} // verus!
