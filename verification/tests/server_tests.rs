use recordscreen::capture::ProcessPoll;
use recordscreen::server::{
    bearer_header, check_local_request, default_fps, finish_screenshot, finish_stop, stop_step,
    ApiError, AppState, CaptureJob, HeaderValue, RecordingProcess, StartRequest, Status, StopStep,
};
use recordscreen::windows_capture::WindowTarget;
use HeaderValue::{Absent, Text, Unreadable};

fn w(hwnd: usize, title: &str, pid: u32) -> WindowTarget {
    WindowTarget { hwnd, title: title.to_string(), process_id: pid }
}

fn err(status: u16, message: &str) -> ApiError {
    ApiError { status, message: message.to_string() }
}

fn state() -> AppState {
    AppState::new(Some("C:\\ffmpeg.exe".into()), "D:\\out".into(), "secret-token".into())
}

#[test]
fn start_request_defaults_to_30() {
    assert_eq!(default_fps(), 30);
    assert_eq!(StartRequest::new().fps, 30);
}

#[test]
fn only_loopback_requests_are_admitted() {
    assert_eq!(check_local_request(Text("127.0.0.1:17321"), Absent), Ok(()));
    assert_eq!(check_local_request(Text("localhost:17321"), Text("http://localhost:17321")), Ok(()));
    assert_eq!(
        check_local_request(Text("127.0.0.1:17321"), Text("http://127.0.0.1:17321")),
        Ok(())
    );
    let refused = Err(err(403, "loopback requests only"));
    assert_eq!(check_local_request(Absent, Absent), refused);
    assert_eq!(check_local_request(Unreadable, Absent), refused);
    assert_eq!(check_local_request(Text("127.0.0.1:17321"), Unreadable), refused);
    assert_eq!(check_local_request(Text("evil.example:17321"), Absent), refused);
    assert_eq!(check_local_request(Text("127.0.0.1"), Absent), refused);
    assert_eq!(
        check_local_request(Text("127.0.0.1:17321"), Text("http://evil.example")),
        refused
    );
}

#[test]
fn bearer_token_is_required() {
    let s = state();
    assert_eq!(s.authorize(Some("Bearer secret-token")), Ok(()));
    let refused = Err(err(401, "missing or invalid bearer token"));
    assert_eq!(s.authorize(None), refused);
    assert_eq!(s.authorize(Some("Bearer wrong")), refused);
    assert_eq!(s.authorize(Some("bearer secret-token")), refused);
    assert_eq!(s.authorize(Some("secret-token")), refused);
    assert_eq!(s.authorize(Some("Bearer secret-token ")), refused);
    let header = bearer_header("secret-token");
    assert_eq!(header, "Bearer secret-token");
    assert_eq!(s.authorize(Some(&header)), Ok(()));
}

#[test]
fn status_reports_state() {
    let mut s = state();
    assert_eq!(
        s.status(),
        Status {
            recording: false,
            recording_file: None,
            output_dir: "D:\\out".into(),
            ffmpeg_available: true,
            ffmpeg_path: "C:\\ffmpeg.exe".into(),
            capture_target: None,
        }
    );
    s.recording = Some(RecordingProcess { path: "D:\\out\\recording-1.mp4".into() });
    let st = s.status();
    assert!(st.recording);
    assert_eq!(st.recording_file, Some("D:\\out\\recording-1.mp4".to_string()));
    let none = AppState::new(None, "o".into(), "t".into());
    let st = none.status();
    assert!(!st.ffmpeg_available);
    assert_eq!(st.ffmpeg_path, "");
}

#[test]
fn select_target_and_capture_it() {
    let mut s = state();
    let windows = vec![w(10, "Editor", 4), w(11, "Browser", 5)];
    assert_eq!(s.select_target(Some(11), &windows), Ok(Some(w(11, "Browser", 5))));
    assert_eq!(s.selected_target, Some(w(11, "Browser", 5)));
    assert_eq!(s.capture_target(&windows), Ok(Some(w(11, "Browser", 5))));
    assert_eq!(s.select_target(Some(12), &windows), Err(err(404, "window handle is not available")));
    assert_eq!(s.selected_target, Some(w(11, "Browser", 5)));
    assert_eq!(s.select_target(None, &windows), Ok(None));
    assert_eq!(s.selected_target, None);
    assert_eq!(s.capture_target(&windows), Ok(None));
}

#[test]
fn selected_window_that_changed_is_refused() {
    let mut s = state();
    s.selected_target = Some(w(11, "Browser", 5));
    let gone = Err("selected app window is no longer available; refresh and select it again".to_string());
    assert_eq!(s.capture_target(&[w(11, "Browser - new tab", 5)]), gone);
    assert_eq!(s.capture_target(&[w(11, "Browser", 6)]), gone);
    assert_eq!(s.capture_target(&[]), gone);
}

#[test]
fn target_cannot_change_while_recording() {
    let mut s = state();
    s.recording = Some(RecordingProcess { path: "r.mp4".into() });
    let windows = vec![w(10, "Editor", 4)];
    assert_eq!(
        s.select_target(Some(10), &windows),
        Err(err(409, "stop recording before changing the capture target"))
    );
    assert_eq!(s.selected_target, None);
}

#[test]
fn screenshot_plan_checks_in_order() {
    let no_ffmpeg = AppState::new(None, "o".into(), "t".into());
    assert_eq!(no_ffmpeg.check_ffmpeg(), Err(err(503, "FFmpeg not found")));
    assert_eq!(
        no_ffmpeg.plan_screenshot(Err("denied".into()), &[], 5),
        Err(err(503, "FFmpeg not found"))
    );
    let mut s = state();
    assert_eq!(s.check_ffmpeg(), Ok(()));
    assert_eq!(s.plan_screenshot(Err("access denied".into()), &[], 5), Err(err(500, "access denied")));
    assert_eq!(
        s.plan_screenshot(Ok(()), &[], 1725029869123),
        Ok(CaptureJob { file_name: "screenshot-1725029869123.png".into(), target: None })
    );
    s.selected_target = Some(w(3, "Gone", 1));
    assert_eq!(
        s.plan_screenshot(Ok(()), &[], 1),
        Err(err(409, "selected app window is no longer available; refresh and select it again"))
    );
    assert_eq!(
        s.plan_screenshot(Ok(()), &[w(3, "Gone", 1)], 2),
        Ok(CaptureJob { file_name: "screenshot-2.png".into(), target: Some(w(3, "Gone", 1)) })
    );
    assert_eq!(finish_screenshot("f.png".into(), Ok(())), Ok("f.png".to_string()));
    assert_eq!(finish_screenshot("f.png".into(), Err("bad".into())), Err(err(500, "bad")));
}

#[test]
fn recording_plan_checks_in_order() {
    let s = state();
    assert_eq!(s.check_recording_request(9), Err(err(400, "fps must be between 10 and 60")));
    assert_eq!(s.check_recording_request(30), Ok(()));
    let no_ffmpeg = AppState::new(None, "o".into(), "t".into());
    assert_eq!(no_ffmpeg.check_recording_request(30), Err(err(503, "FFmpeg not found")));
    assert_eq!(no_ffmpeg.check_recording_request(61), Err(err(400, "fps must be between 10 and 60")));
    assert_eq!(s.plan_recording(61, Ok(()), &[], 1), Err(err(400, "fps must be between 10 and 60")));
    assert_eq!(s.plan_recording(30, Err("disk".into()), &[], 1), Err(err(500, "disk")));
    assert_eq!(
        s.plan_recording(30, Ok(()), &[], 42),
        Ok(CaptureJob { file_name: "recording-42.mp4".into(), target: None })
    );
}

#[test]
fn start_then_stop() {
    let mut s = state();
    assert_eq!(s.take_recording(), Err("recording is not active".to_string()));
    assert_eq!(
        s.finish_recording_start("D:\\out\\recording-1.mp4".into(), Err("spawn failed".into())),
        Err(err(500, "spawn failed"))
    );
    assert!(s.recording.is_none());
    assert_eq!(
        s.finish_recording_start("D:\\out\\recording-1.mp4".into(), Ok(())),
        Ok("D:\\out\\recording-1.mp4".to_string())
    );
    assert!(s.status().recording);
    assert_eq!(s.plan_recording(30, Ok(()), &[], 2), Err(err(409, "recording is already active")));
    assert_eq!(
        s.finish_recording_start("D:\\out\\recording-2.mp4".into(), Ok(())),
        Err(err(409, "recording is already active"))
    );
    assert_eq!(s.status().recording_file, Some("D:\\out\\recording-1.mp4".to_string()));
    let taken = s.take_recording().unwrap();
    assert_eq!(taken.path, "D:\\out\\recording-1.mp4");
    assert!(!s.status().recording);
    assert_eq!(finish_stop(Ok("f.mp4".into())), Ok("f.mp4".to_string()));
    assert_eq!(finish_stop(Err("recording is not active".into())), Err(err(409, "recording is not active")));
}

#[test]
fn finished_recording_is_cleared() {
    let mut s = state();
    s.recording = Some(RecordingProcess { path: "r.mp4".into() });
    s.clear_finished_recording(false);
    assert!(s.recording.is_some());
    s.clear_finished_recording(true);
    assert!(s.recording.is_none());
}

#[test]
fn stop_steps() {
    let exited = |success| ProcessPoll::Exited { success, status: "exit code: 1".into() };
    assert_eq!(stop_step(exited(true), true, true), StopStep::Finished);
    assert_eq!(
        stop_step(exited(true), true, false),
        StopStep::Fail { message: "FFmpeg ended with exit code: 1".into() }
    );
    assert_eq!(
        stop_step(exited(false), false, true),
        StopStep::Fail { message: "FFmpeg ended with exit code: 1".into() }
    );
    assert_eq!(stop_step(ProcessPoll::Running, true, false), StopStep::Wait);
    assert_eq!(
        stop_step(ProcessPoll::Running, false, false),
        StopStep::KillAndFail { message: "FFmpeg did not stop cleanly within 8 seconds".into() }
    );
    assert_eq!(
        stop_step(ProcessPoll::Failed { error: "os error 5".into() }, true, true),
        StopStep::Fail { message: "could not stop FFmpeg: os error 5".into() }
    );
}
