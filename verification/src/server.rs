//! The local control API: which requests are admitted, and what each
//! handler decides from the shared recorder state and the outcomes of the
//! work it hands out (creating the output folder, running FFmpeg).

use vstd::prelude::*;
use crate::capture::{recording_file_name, screenshot_file_name, ProcessPoll};
use crate::settings::{fps_in_range, is_valid_fps, DEFAULT_FPS};
use crate::text::{decimal, spec_strip_prefix, str_eq, strip_prefix};
use crate::windows_capture::{find_window, spec_find_window, WindowTarget};

verus! {

/// The address the control API listens on.
pub const LISTEN_ADDRESS: &'static str = "127.0.0.1:17321";

/// The frame rate a start request asks for.
pub struct StartRequest {
    pub fps: u32,
}

/// The frame rate of a start request that names none.
pub fn default_fps() -> (r: u32)
    ensures
        r == DEFAULT_FPS,
{
    DEFAULT_FPS
}

impl StartRequest {
    /// A start request at the default frame rate.
    pub fn new() -> (r: StartRequest)
        ensures
            r.fps == DEFAULT_FPS,
    {
        StartRequest { fps: default_fps() }
    }
}

/// A refused request: the HTTP status and the message sent back.
#[derive(Debug, PartialEq, Eq)]
pub struct ApiError {
    pub status: u16,
    pub message: String,
}

impl View for ApiError {
    type V = (u16, Seq<char>);

    open spec fn view(&self) -> (u16, Seq<char>) {
        (self.status, self.message@)
    }
}

/// A result of the API with its error taken by its view.
pub open spec fn api_result<T>(r: Result<T, ApiError>) -> Result<T, (u16, Seq<char>)> {
    match r {
        Ok(t) => Ok(t),
        Err(e) => Err(e@),
    }
}

/// HTTP status: bad request.
pub const BAD_REQUEST: u16 = 400;

/// HTTP status: missing or wrong credentials.
pub const UNAUTHORIZED: u16 = 401;

/// HTTP status: refused.
pub const FORBIDDEN: u16 = 403;

/// HTTP status: no such resource.
pub const NOT_FOUND: u16 = 404;

/// HTTP status: conflicts with the current state.
pub const CONFLICT: u16 = 409;

/// HTTP status: the server failed.
pub const INTERNAL_SERVER_ERROR: u16 = 500;

/// HTTP status: a dependency is missing.
pub const SERVICE_UNAVAILABLE: u16 = 503;

fn api_error(status: u16, message: &str) -> (r: ApiError)
    ensures
        r@ == (status, message@),
{
    ApiError { status, message: message.to_owned() }
}

/// Whether a Host header names the API's own loopback address.
pub open spec fn is_loopback_host(host: Seq<char>) -> bool {
    host == "127.0.0.1:17321"@ || host == "localhost:17321"@
}

/// Whether an Origin header names the API's own loopback origin.
pub open spec fn is_loopback_origin(origin: Seq<char>) -> bool {
    origin == "http://127.0.0.1:17321"@ || origin == "http://localhost:17321"@
}

/// A request header as received.
#[derive(Clone, Copy, Debug, PartialEq, Eq)]
pub enum HeaderValue<'a> {
    /// The request has no such header.
    Absent,
    /// The header's value, which is visible ASCII.
    Text(&'a str),
    /// The header is there but its value is not visible ASCII.
    Unreadable,
}

/// Whether a request with these Host and Origin headers is admitted: the
/// Host must be a loopback address of the API, and an Origin, where there
/// is one, too; a header that cannot be read is not a loopback address.
pub open spec fn spec_is_local_request(host: HeaderValue, origin: HeaderValue) -> bool {
    &&& match host {
        HeaderValue::Text(h) => is_loopback_host(h@),
        _ => false,
    }
    &&& match origin {
        HeaderValue::Text(o) => is_loopback_origin(o@),
        HeaderValue::Absent => true,
        HeaderValue::Unreadable => false,
    }
}

/// The text view of an optional header value.
pub open spec fn opt_view(s: Option<&str>) -> Option<Seq<char>> {
    match s {
        Some(v) => Some(v@),
        None => None,
    }
}

/// Admits only requests addressed to the API's loopback address; others
/// are refused with 403.
pub fn check_local_request(host: HeaderValue, origin: HeaderValue) -> (r: Result<(), ApiError>)
    ensures
        spec_is_local_request(host, origin) ==> r is Ok,
        !spec_is_local_request(host, origin) ==> api_result(r) == Err::<(), (u16, Seq<char>)>(
            (FORBIDDEN, "loopback requests only"@),
        ),
{
    let host_ok = match host {
        HeaderValue::Text(h) => str_eq(h, "127.0.0.1:17321") || str_eq(h, "localhost:17321"),
        _ => false,
    };
    let origin_ok = match origin {
        HeaderValue::Text(o) => str_eq(o, "http://127.0.0.1:17321") || str_eq(
            o,
            "http://localhost:17321",
        ),
        HeaderValue::Absent => true,
        HeaderValue::Unreadable => false,
    };
    if !host_ok || !origin_ok {
        return Err(api_error(FORBIDDEN, "loopback requests only"));
    }
    Ok(())
}

/// Whether an Authorization header (`None` where absent or not visible
/// ASCII) carries exactly `Bearer ` followed by the token.
pub open spec fn spec_is_authorized(authorization: Option<Seq<char>>, token: Seq<char>) -> bool {
    match authorization {
        Some(a) => spec_strip_prefix(a, "Bearer "@) == Some(token),
        None => false,
    }
}

/// The API token as shown to the user: "Bearer " followed by the token.
pub fn bearer_header(token: &str) -> (r: String)
    ensures
        r@ == "Bearer "@ + token@,
{
    let mut s = "Bearer ".to_owned();
    s.append(token);
    s
}

/// The header that `bearer_header` makes is the one `authorize` admits.
pub proof fn lemma_bearer_header_is_authorized(token: Seq<char>)
    ensures
        spec_is_authorized(Some("Bearer "@ + token), token),
{
    let h = "Bearer "@ + token;
    assert(h.take("Bearer "@.len() as int) =~= "Bearer "@);
    assert(h.skip("Bearer "@.len() as int) =~= token);
}

/// The text views of the parts of the recorder state.
pub struct AppStateView {
    pub ffmpeg: Option<Seq<char>>,
    pub output_dir: Seq<char>,
    pub recording: Option<Seq<char>>,
    pub selected_target: Option<WindowTarget>,
    pub token: Seq<char>,
}

/// A recording in progress: the file it is written to.
#[derive(Debug, PartialEq, Eq)]
pub struct RecordingProcess {
    pub path: String,
}

/// The state the control API and the window share: where FFmpeg is, the
/// output folder, the recording in progress, the window to capture, and
/// the API token.
pub struct AppState {
    pub ffmpeg: Option<String>,
    pub output_dir: String,
    pub recording: Option<RecordingProcess>,
    pub selected_target: Option<WindowTarget>,
    pub token: String,
}

/// The text view of an optional string.
pub open spec fn opt_string_view(s: Option<String>) -> Option<Seq<char>> {
    match s {
        Some(v) => Some(v@),
        None => None,
    }
}

impl View for AppState {
    type V = AppStateView;

    open spec fn view(&self) -> AppStateView {
        AppStateView {
            ffmpeg: opt_string_view(self.ffmpeg),
            output_dir: self.output_dir@,
            recording: match self.recording {
                Some(p) => Some(p.path@),
                None => None,
            },
            selected_target: self.selected_target,
            token: self.token@,
        }
    }
}

/// What the status request reports.
#[derive(Debug, PartialEq, Eq)]
pub struct Status {
    pub recording: bool,
    pub recording_file: Option<String>,
    pub output_dir: String,
    pub ffmpeg_available: bool,
    pub ffmpeg_path: String,
    pub capture_target: Option<WindowTarget>,
}

/// The text views of a status report.
pub struct StatusView {
    pub recording: bool,
    pub recording_file: Option<Seq<char>>,
    pub output_dir: Seq<char>,
    pub ffmpeg_available: bool,
    pub ffmpeg_path: Seq<char>,
    pub capture_target: Option<WindowTarget>,
}

impl View for Status {
    type V = StatusView;

    open spec fn view(&self) -> StatusView {
        StatusView {
            recording: self.recording,
            recording_file: opt_string_view(self.recording_file),
            output_dir: self.output_dir@,
            ffmpeg_available: self.ffmpeg_available,
            ffmpeg_path: self.ffmpeg_path@,
            capture_target: self.capture_target,
        }
    }
}

/// The status of the recorder in state `s`.
pub open spec fn spec_status(s: AppStateView) -> StatusView {
    StatusView {
        recording: s.recording is Some,
        recording_file: s.recording,
        output_dir: s.output_dir,
        ffmpeg_available: s.ffmpeg is Some,
        ffmpeg_path: match s.ffmpeg {
            Some(p) => p,
            None => Seq::empty(),
        },
        capture_target: s.selected_target,
    }
}

/// The message of a selected window that can no longer be captured.
pub open spec fn target_gone_message() -> Seq<char> {
    "selected app window is no longer available; refresh and select it again"@
}

/// The window to capture: the whole desktop (`None`) where no window is
/// selected; else the listed window with the selected handle, where it
/// still belongs to the same process and has the same title.
pub open spec fn spec_capture_target(selected: Option<WindowTarget>, windows: Seq<WindowTarget>) -> Result<
    Option<WindowTarget>,
    Seq<char>,
> {
    match selected {
        None => Ok(None),
        Some(t) => match spec_find_window(windows, t.hwnd) {
            Some(active) => if active.process_id == t.process_id && active.title@ == t.title@ {
                Ok(Some(active))
            } else {
                Err(target_gone_message())
            },
            None => Err(target_gone_message()),
        },
    }
}

/// The response to a window selection in state `s`, and the window
/// selected afterwards.
pub open spec fn spec_select_target(
    s: AppStateView,
    hwnd: Option<usize>,
    windows: Seq<WindowTarget>,
) -> Result<Option<WindowTarget>, (u16, Seq<char>)> {
    if s.recording is Some {
        Err((CONFLICT, "stop recording before changing the capture target"@))
    } else {
        match hwnd {
            None => Ok(None),
            Some(h) => match spec_find_window(windows, h) {
                Some(t) => Ok(Some(t)),
                None => Err((NOT_FOUND, "window handle is not available"@)),
            },
        }
    }
}

/// A capture to run: the name of the output file in the output folder,
/// and the window to capture (`None` for the whole desktop).
#[derive(Debug, PartialEq, Eq)]
pub struct CaptureJob {
    pub file_name: String,
    pub target: Option<WindowTarget>,
}

impl View for CaptureJob {
    type V = (Seq<char>, Option<WindowTarget>);

    open spec fn view(&self) -> (Seq<char>, Option<WindowTarget>) {
        (self.file_name@, self.target)
    }
}

/// A planned capture with its job taken by its view.
pub open spec fn job_result(r: Result<CaptureJob, ApiError>) -> Result<
    (Seq<char>, Option<WindowTarget>),
    (u16, Seq<char>),
> {
    match r {
        Ok(j) => Ok(j@),
        Err(e) => Err(e@),
    }
}

/// The output folder's outcome with its error taken by its view.
pub open spec fn dir_result(r: Result<(), String>) -> Result<(), Seq<char>> {
    match r {
        Ok(()) => Ok(()),
        Err(e) => Err(e@),
    }
}

/// The response to a screenshot request, checked in this order: FFmpeg
/// must be there (503), the output folder must have been made (500), the
/// selected window must still be there (409).
pub open spec fn spec_plan_screenshot(
    s: AppStateView,
    output_dir: Result<(), Seq<char>>,
    windows: Seq<WindowTarget>,
    timestamp: nat,
) -> Result<(Seq<char>, Option<WindowTarget>), (u16, Seq<char>)> {
    if s.ffmpeg is None {
        Err((SERVICE_UNAVAILABLE, "FFmpeg not found"@))
    } else {
        match output_dir {
            Err(e) => Err((INTERNAL_SERVER_ERROR, e)),
            Ok(()) => match spec_capture_target(s.selected_target, windows) {
                Err(e) => Err((CONFLICT, e)),
                Ok(t) => Ok(("screenshot-"@ + decimal(timestamp) + ".png"@, t)),
            },
        }
    }
}

/// The response to a start request, checked in this order: the frame rate
/// (400), FFmpeg (503), the output folder (500), no recording in progress
/// (409), the selected window (409).
pub open spec fn spec_plan_recording(
    s: AppStateView,
    fps: u32,
    output_dir: Result<(), Seq<char>>,
    windows: Seq<WindowTarget>,
    timestamp: nat,
) -> Result<(Seq<char>, Option<WindowTarget>), (u16, Seq<char>)> {
    if !fps_in_range(fps as int) {
        Err((BAD_REQUEST, "fps must be between 10 and 60"@))
    } else if s.ffmpeg is None {
        Err((SERVICE_UNAVAILABLE, "FFmpeg not found"@))
    } else {
        match output_dir {
            Err(e) => Err((INTERNAL_SERVER_ERROR, e)),
            Ok(()) => if s.recording is Some {
                Err((CONFLICT, "recording is already active"@))
            } else {
                match spec_capture_target(s.selected_target, windows) {
                    Err(e) => Err((CONFLICT, e)),
                    Ok(t) => Ok(("recording-"@ + decimal(timestamp) + ".mp4"@, t)),
                }
            },
        }
    }
}

/// The state once a recording to `file` has started.
pub open spec fn spec_after_start(s: AppStateView, file: Seq<char>) -> AppStateView {
    AppStateView { recording: Some(file), ..s }
}

/// The state once the recording in progress has been taken to be stopped.
pub open spec fn spec_after_stop(s: AppStateView) -> AppStateView {
    AppStateView { recording: None, ..s }
}

/// What a stop request is answered where nothing is recorded.
pub open spec fn not_recording_message() -> Seq<char> {
    "recording is not active"@
}

impl AppState {
    /// A recorder with nothing recorded and the whole desktop selected.
    pub fn new(ffmpeg: Option<String>, output_dir: String, token: String) -> (r: AppState)
        ensures
            r.ffmpeg == ffmpeg,
            r.output_dir == output_dir,
            r.token == token,
            r.recording is None,
            r.selected_target is None,
    {
        AppState { ffmpeg, output_dir, recording: None, selected_target: None, token }
    }

    /// Admits a request whose Authorization header carries the bearer
    /// token; others are refused with 401.
    pub fn authorize(&self, authorization: Option<&str>) -> (r: Result<(), ApiError>)
        ensures
            spec_is_authorized(opt_view(authorization), self.token@) ==> r is Ok,
            !spec_is_authorized(opt_view(authorization), self.token@) ==> api_result(r) == Err::<
                (),
                (u16, Seq<char>),
            >((UNAUTHORIZED, "missing or invalid bearer token"@)),
    {
        let supplied = match authorization {
            Some(a) => strip_prefix(a, "Bearer "),
            None => None,
        };
        let ok = match supplied {
            Some(t) => str_eq(t, self.token.as_str()),
            None => false,
        };
        if !ok {
            return Err(api_error(UNAUTHORIZED, "missing or invalid bearer token"));
        }
        Ok(())
    }

    /// The status report.
    pub fn status(&self) -> (r: Status)
        ensures
            r@ == spec_status(self@),
    {
        let recording_file = match &self.recording {
            Some(p) => Some(p.path.clone()),
            None => None,
        };
        let ffmpeg_path = match &self.ffmpeg {
            Some(p) => p.clone(),
            None => String::new(),
        };
        Status {
            recording: recording_file.is_some(),
            recording_file,
            output_dir: self.output_dir.clone(),
            ffmpeg_available: self.ffmpeg.is_some(),
            ffmpeg_path,
            capture_target: match &self.selected_target {
                Some(t) => Some(t.clone()),
                None => None,
            },
        }
    }

    /// Forgets a recording whose FFmpeg process has already exited.
    pub fn clear_finished_recording(&mut self, exited: bool)
        ensures
            final(self)@ == (if exited {
                spec_after_stop(old(self)@)
            } else {
                old(self)@
            }),
    {
        if exited && self.recording.is_some() {
            self.recording = None;
        }
    }

    /// The window to capture, checked again against the listed `windows`.
    pub fn capture_target(&self, windows: &[WindowTarget]) -> (r: Result<
        Option<WindowTarget>,
        String,
    >)
        ensures
            match r {
                Ok(t) => spec_capture_target(self.selected_target, windows@) == Ok::<
                    Option<WindowTarget>,
                    Seq<char>,
                >(t),
                Err(e) => spec_capture_target(self.selected_target, windows@) == Err::<
                    Option<WindowTarget>,
                    Seq<char>,
                >(e@),
            },
    {
        match &self.selected_target {
            None => Ok(None),
            Some(target) => {
                match find_window(windows, target.hwnd) {
                    Some(active) => {
                        if active.process_id == target.process_id && str_eq(
                            active.title.as_str(),
                            target.title.as_str(),
                        ) {
                            Ok(Some(active))
                        } else {
                            Err(
                                "selected app window is no longer available; refresh and select it again".to_owned(),
                            )
                        }
                    },
                    None => Err(
                        "selected app window is no longer available; refresh and select it again".to_owned(),
                    ),
                }
            },
        }
    }

    /// Selects the window with handle `hwnd` (the whole desktop for
    /// `None`) for later captures; refused while recording and for a
    /// handle that is not listed, leaving the state as it was.
    pub fn select_target(&mut self, hwnd: Option<usize>, windows: &[WindowTarget]) -> (r: Result<
        Option<WindowTarget>,
        ApiError,
    >)
        ensures
            api_result(r) == spec_select_target(old(self)@, hwnd, windows@),
            match r {
                Ok(t) => final(self)@ == (AppStateView { selected_target: t, ..old(self)@ }),
                Err(_) => final(self)@ == old(self)@,
            },
    {
        if self.recording.is_some() {
            return Err(api_error(CONFLICT, "stop recording before changing the capture target"));
        }
        let target = match hwnd {
            Some(h) => match find_window(windows, h) {
                Some(t) => Some(t),
                None => {
                    return Err(api_error(NOT_FOUND, "window handle is not available"));
                },
            },
            None => None,
        };
        self.selected_target = match &target {
            Some(t) => Some(t.clone()),
            None => None,
        };
        Ok(target)
    }

    /// Refuses a screenshot at once where FFmpeg is missing (503), before
    /// the output folder is made.
    pub fn check_ffmpeg(&self) -> (r: Result<(), ApiError>)
        ensures
            self.ffmpeg is Some ==> r is Ok,
            self.ffmpeg is None ==> api_result(r) == Err::<(), (u16, Seq<char>)>(
                (SERVICE_UNAVAILABLE, "FFmpeg not found"@),
            ),
    {
        if self.ffmpeg.is_none() {
            return Err(api_error(SERVICE_UNAVAILABLE, "FFmpeg not found"));
        }
        Ok(())
    }

    /// Decides a screenshot request, given whether the output folder could
    /// be made and the listed windows.
    pub fn plan_screenshot(
        &self,
        output_dir: Result<(), String>,
        windows: &[WindowTarget],
        timestamp: u128,
    ) -> (r: Result<CaptureJob, ApiError>)
        ensures
            job_result(r) == spec_plan_screenshot(
                self@,
                dir_result(output_dir),
                windows@,
                timestamp as nat,
            ),
    {
        if self.ffmpeg.is_none() {
            return Err(api_error(SERVICE_UNAVAILABLE, "FFmpeg not found"));
        }
        if let Err(e) = output_dir {
            return Err(ApiError { status: INTERNAL_SERVER_ERROR, message: e });
        }
        match self.capture_target(windows) {
            Err(e) => Err(ApiError { status: CONFLICT, message: e }),
            Ok(target) => Ok(CaptureJob { file_name: screenshot_file_name(timestamp), target }),
        }
    }

    /// Refuses a start request at once for a frame rate out of range (400)
    /// or a missing FFmpeg (503), before the output folder is made.
    pub fn check_recording_request(&self, fps: u32) -> (r: Result<(), ApiError>)
        ensures
            !fps_in_range(fps as int) ==> api_result(r) == Err::<(), (u16, Seq<char>)>(
                (BAD_REQUEST, "fps must be between 10 and 60"@),
            ),
            fps_in_range(fps as int) && self.ffmpeg is None ==> api_result(r) == Err::<
                (),
                (u16, Seq<char>),
            >((SERVICE_UNAVAILABLE, "FFmpeg not found"@)),
            fps_in_range(fps as int) && self.ffmpeg is Some ==> r is Ok,
    {
        if !is_valid_fps(fps as u64) {
            return Err(api_error(BAD_REQUEST, "fps must be between 10 and 60"));
        }
        self.check_ffmpeg()
    }

    /// Decides a start request, given whether the output folder could be
    /// made and the listed windows.
    pub fn plan_recording(
        &self,
        fps: u32,
        output_dir: Result<(), String>,
        windows: &[WindowTarget],
        timestamp: u128,
    ) -> (r: Result<CaptureJob, ApiError>)
        ensures
            job_result(r) == spec_plan_recording(
                self@,
                fps,
                dir_result(output_dir),
                windows@,
                timestamp as nat,
            ),
    {
        if !is_valid_fps(fps as u64) {
            return Err(api_error(BAD_REQUEST, "fps must be between 10 and 60"));
        }
        if self.ffmpeg.is_none() {
            return Err(api_error(SERVICE_UNAVAILABLE, "FFmpeg not found"));
        }
        if let Err(e) = output_dir {
            return Err(ApiError { status: INTERNAL_SERVER_ERROR, message: e });
        }
        if self.recording.is_some() {
            return Err(api_error(CONFLICT, "recording is already active"));
        }
        match self.capture_target(windows) {
            Err(e) => Err(ApiError { status: CONFLICT, message: e }),
            Ok(target) => Ok(CaptureJob { file_name: recording_file_name(timestamp), target }),
        }
    }

    /// Records the outcome of starting FFmpeg for a recording to `file`:
    /// refused with 409 where a recording is already in progress; else the
    /// recording is in progress where it started, and the request fails
    /// with 500 where it did not. A refused start leaves the state as it
    /// was.
    pub fn finish_recording_start(&mut self, file: String, launched: Result<(), String>) -> (r:
        Result<String, ApiError>)
        ensures
            old(self)@.recording is Some ==> api_result(r) == Err::<String, (u16, Seq<char>)>(
                (CONFLICT, "recording is already active"@),
            ) && final(self)@ == old(self)@,
            old(self)@.recording is None ==> match launched {
                Ok(()) => r is Ok && r->Ok_0 == file && final(self)@ == spec_after_start(
                    old(self)@,
                    file@,
                ),
                Err(e) => api_result(r) == Err::<String, (u16, Seq<char>)>(
                    (INTERNAL_SERVER_ERROR, e@),
                ) && final(self)@ == old(self)@,
            },
    {
        if self.recording.is_some() {
            return Err(api_error(CONFLICT, "recording is already active"));
        }
        match launched {
            Ok(()) => {
                self.recording = Some(RecordingProcess { path: file.clone() });
                Ok(file)
            },
            Err(e) => Err(ApiError { status: INTERNAL_SERVER_ERROR, message: e }),
        }
    }

    /// Takes the recording in progress to stop it; where there is none the
    /// stop fails and the state stays as it was.
    pub fn take_recording(&mut self) -> (r: Result<RecordingProcess, String>)
        ensures
            match old(self)@.recording {
                Some(path) => r is Ok && r->Ok_0.path@ == path && final(self)@ == spec_after_stop(
                    old(self)@,
                ),
                None => r is Err && r->Err_0@ == not_recording_message() && final(self)@ == old(
                    self,
                )@,
            },
    {
        match self.recording.take() {
            Some(p) => Ok(p),
            None => Err("recording is not active".to_owned()),
        }
    }
}

/// Answers a screenshot that was run: the file where FFmpeg succeeded,
/// else 500 with FFmpeg's error.
pub fn finish_screenshot(file: String, captured: Result<(), String>) -> (r: Result<
    String,
    ApiError,
>)
    ensures
        match captured {
            Ok(()) => r is Ok && r->Ok_0 == file,
            Err(e) => api_result(r) == Err::<String, (u16, Seq<char>)>(
                (INTERNAL_SERVER_ERROR, e@),
            ),
        },
{
    match captured {
        Ok(()) => Ok(file),
        Err(e) => Err(ApiError { status: INTERNAL_SERVER_ERROR, message: e }),
    }
}

/// Answers a stop request: the file where the recording was finished, else
/// 409 with the reason.
pub fn finish_stop(stopped: Result<String, String>) -> (r: Result<String, ApiError>)
    ensures
        match stopped {
            Ok(f) => r is Ok && r->Ok_0 == f,
            Err(e) => api_result(r) == Err::<String, (u16, Seq<char>)>((CONFLICT, e@)),
        },
{
    match stopped {
        Ok(f) => Ok(f),
        Err(e) => Err(ApiError { status: CONFLICT, message: e }),
    }
}

/// What to do next while stopping a recording.
#[derive(Debug, PartialEq, Eq)]
pub enum StopStep {
    /// The recording is finished and its file is there.
    Finished,
    /// Stopping failed for this reason.
    Fail { message: String },
    /// Wait a moment and poll again.
    Wait,
    /// Kill the process, wait for it, and fail for this reason.
    KillAndFail { message: String },
}

/// The seconds FFmpeg is given to finish a recording once asked to stop.
pub const STOP_TIMEOUT_SECS: u64 = 8;

/// The step after a poll of the FFmpeg process that was asked to stop:
/// finished where it exited successfully and the file exists; failed where
/// it exited otherwise or could not be polled; wait while it runs before
/// the deadline; kill it after the deadline.
pub fn stop_step(poll: ProcessPoll, before_deadline: bool, output_exists: bool) -> (r: StopStep)
    ensures
        match poll {
            ProcessPoll::Exited { success, status } => if success && output_exists {
                r == StopStep::Finished
            } else {
                r matches StopStep::Fail { message } && message@ == "FFmpeg ended with "@
                    + status@
            },
            ProcessPoll::Running => if before_deadline {
                r == StopStep::Wait
            } else {
                r matches StopStep::KillAndFail { message } && message@
                    == "FFmpeg did not stop cleanly within 8 seconds"@
            },
            ProcessPoll::Failed { error } => r matches StopStep::Fail { message } && message@
                == "could not stop FFmpeg: "@ + error@,
        },
{
    match poll {
        ProcessPoll::Exited { success, status } => {
            if success && output_exists {
                StopStep::Finished
            } else {
                let mut message = "FFmpeg ended with ".to_owned();
                message.append(status.as_str());
                StopStep::Fail { message }
            }
        },
        ProcessPoll::Running => {
            if before_deadline {
                StopStep::Wait
            } else {
                StopStep::KillAndFail {
                    message: "FFmpeg did not stop cleanly within 8 seconds".to_owned(),
                }
            }
        },
        ProcessPoll::Failed { error } => {
            let mut message = "could not stop FFmpeg: ".to_owned();
            message.append(error.as_str());
            StopStep::Fail { message }
        },
    }
}

/// A window found by its handle has that handle.
pub proof fn lemma_found_window_has_handle(windows: Seq<WindowTarget>, hwnd: usize)
    ensures
        spec_find_window(windows, hwnd) matches Some(w) ==> w.hwnd == hwnd,
    decreases windows.len(),
{
    if windows.len() > 0 && windows[0].hwnd != hwnd {
        lemma_found_window_has_handle(windows.drop_first(), hwnd);
    }
}

/// A window that was just selected is the one captured, as long as the
/// listed windows are the same.
pub proof fn lemma_selected_window_is_captured(
    s: AppStateView,
    hwnd: usize,
    windows: Seq<WindowTarget>,
)
    requires
        spec_select_target(s, Some(hwnd), windows) is Ok,
    ensures
        spec_capture_target(spec_select_target(s, Some(hwnd), windows)->Ok_0, windows)
            == Ok::<Option<WindowTarget>, Seq<char>>(
            spec_select_target(s, Some(hwnd), windows)->Ok_0,
        ),
{
    lemma_found_window_has_handle(windows, hwnd);
}

/// Where a window is selected, the capture is of that window (same handle,
/// process and title) or is refused; it never falls back to the whole
/// desktop.
pub proof fn lemma_selected_window_never_becomes_desktop(
    selected: WindowTarget,
    windows: Seq<WindowTarget>,
)
    ensures
        spec_capture_target(Some(selected), windows) matches Ok(t) ==> (t matches Some(w) && w.hwnd
            == selected.hwnd && w.process_id == selected.process_id && w.title@
            == selected.title@),
{
    lemma_found_window_has_handle(windows, selected.hwnd);
}

/// A recording started through the API records the selected window while
/// it is still listed, the whole desktop where nothing is selected, and
/// always the same source a screenshot would capture.
pub proof fn lemma_recording_records_selected_source(
    s: AppStateView,
    fps: u32,
    windows: Seq<WindowTarget>,
    timestamp: nat,
    shot_timestamp: nat,
)
    requires
        spec_plan_recording(s, fps, Ok(()), windows, timestamp) is Ok,
    ensures
        s.selected_target is None ==> spec_plan_recording(s, fps, Ok(()), windows, timestamp)->Ok_0.1
            is None,
        forall|w: WindowTarget|
            s.selected_target == Some(w) && spec_find_window(windows, w.hwnd) == Some(w) ==> (
            #[trigger] spec_plan_recording(s, fps, Ok(()), windows, timestamp)->Ok_0.1) == Some(
                w,
            ),
        s.selected_target matches Some(w) ==> (spec_plan_recording(
            s,
            fps,
            Ok(()),
            windows,
            timestamp,
        )->Ok_0.1 matches Some(r) && r.hwnd == w.hwnd && r.process_id == w.process_id && r.title@
            == w.title@),
        spec_plan_screenshot(s, Ok(()), windows, shot_timestamp) is Ok,
        spec_plan_recording(s, fps, Ok(()), windows, timestamp)->Ok_0.1 == spec_plan_screenshot(
            s,
            Ok(()),
            windows,
            shot_timestamp,
        )->Ok_0.1,
{
    if let Some(w) = s.selected_target {
        lemma_found_window_has_handle(windows, w.hwnd);
    }
}

/// Only requests whose Host is one of the two loopback addresses are
/// admitted, and then exactly those whose Origin is absent or one of the two
/// loopback origins; the Origin is judged on its own, whichever loopback
/// Host came with it.
pub proof fn lemma_loopback_admission(h: &str, h2: &str, o: &str)
    ensures
        (h@ == "127.0.0.1:17321"@ || h@ == "localhost:17321"@) ==> spec_is_local_request(
            HeaderValue::Text(h),
            HeaderValue::Absent,
        ),
        (h@ == "127.0.0.1:17321"@ || h@ == "localhost:17321"@) && (o@ == "http://127.0.0.1:17321"@
            || o@ == "http://localhost:17321"@) ==> spec_is_local_request(
            HeaderValue::Text(h),
            HeaderValue::Text(o),
        ),
        spec_is_local_request(HeaderValue::Text(h), HeaderValue::Text(o)) ==> (o@
            == "http://127.0.0.1:17321"@ || o@ == "http://localhost:17321"@),
        forall|origin: HeaderValue|
            spec_is_local_request(HeaderValue::Text(h), origin) ==> (h@ == "127.0.0.1:17321"@
                || h@ == "localhost:17321"@),
        forall|origin: HeaderValue|
            spec_is_local_request(HeaderValue::Text(h), origin) && (h2@ == "127.0.0.1:17321"@
                || h2@ == "localhost:17321"@) ==> spec_is_local_request(
                HeaderValue::Text(h2),
                origin,
            ),
        forall|origin: HeaderValue| !spec_is_local_request(HeaderValue::Unreadable, origin),
        forall|origin: HeaderValue| !spec_is_local_request(HeaderValue::Absent, origin),
        !spec_is_local_request(HeaderValue::Text(h), HeaderValue::Unreadable),
{
}

/// The status reports the window selected for capture: the one a
/// successful selection chose (with the requested handle), and nothing
/// after selecting the whole desktop.
pub proof fn lemma_status_reports_selection(
    s: AppStateView,
    hwnd: Option<usize>,
    windows: Seq<WindowTarget>,
)
    ensures
        spec_status(s).capture_target == s.selected_target,
        spec_select_target(s, hwnd, windows) is Ok ==> {
            let t = spec_select_target(s, hwnd, windows)->Ok_0;
            let after = AppStateView { selected_target: t, ..s };
            &&& spec_status(after).capture_target == t
            &&& hwnd is None ==> spec_status(after).capture_target is None
            &&& hwnd matches Some(h) ==> (spec_status(after).capture_target matches Some(w)
                && w.hwnd == h && spec_find_window(windows, h) == Some(w))
        },
{
    if let Some(h) = hwnd {
        lemma_found_window_has_handle(windows, h);
    }
}

/// With no window selected, the whole desktop is captured.
pub proof fn lemma_no_selection_captures_desktop(windows: Seq<WindowTarget>)
    ensures
        spec_capture_target(None, windows) == Ok::<Option<WindowTarget>, Seq<char>>(None),
{
}

/// While a recording is in progress, the capture window cannot be changed
/// and a second recording cannot be started.
pub proof fn lemma_recording_blocks_changes(
    s: AppStateView,
    hwnd: Option<usize>,
    fps: u32,
    windows: Seq<WindowTarget>,
    timestamp: nat,
)
    requires
        s.recording is Some,
        s.ffmpeg is Some,
        fps_in_range(fps as int),
    ensures
        spec_select_target(s, hwnd, windows) == Err::<Option<WindowTarget>, (u16, Seq<char>)>(
            (CONFLICT, "stop recording before changing the capture target"@),
        ),
        spec_plan_recording(s, fps, Ok(()), windows, timestamp) == Err::<
            (Seq<char>, Option<WindowTarget>),
            (u16, Seq<char>),
        >((CONFLICT, "recording is already active"@)),
{
}

/// Once a recording to `file` has started, the status reports it, and
/// stopping gives back `file` and leaves nothing recorded.
pub proof fn lemma_start_then_stop(s: AppStateView, file: Seq<char>)
    ensures
        spec_status(spec_after_start(s, file)).recording,
        spec_status(spec_after_start(s, file)).recording_file == Some(file),
        spec_after_start(s, file).recording == Some(file),
        spec_after_stop(spec_after_start(s, file)) == spec_after_stop(s),
        !spec_status(spec_after_stop(s)).recording,
{
}

} // verus!
