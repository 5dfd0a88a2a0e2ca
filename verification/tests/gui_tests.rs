use recordscreen::gui::{
    controls, gui_capture_check, gui_finish_recording_start,
    gui_plan_screenshot, gui_recording_check, recorded_seconds_text, screenshot_message,
    source_label, stop_message, sync_selected_target, window_label, Controls, GuiRecordingPlan,
    RecorderPanel, UiMessage,
};
use recordscreen::language::Language;
use recordscreen::server::{AppState, RecordingProcess};
use recordscreen::settings::Settings;
use recordscreen::windows_capture::WindowTarget;

fn w(hwnd: usize, title: &str, pid: u32) -> WindowTarget {
    WindowTarget { hwnd, title: title.to_string(), process_id: pid }
}

fn settings(language: &str) -> Settings {
    Settings { language: language.into(), output_dir: "D:\\out".into(), fps: 30 }
}

#[test]
fn messages_in_both_languages() {
    let en = Language::English;
    let zh = Language::TraditionalChinese;
    assert_eq!(UiMessage::Ready.text(en), "Ready");
    assert_eq!(UiMessage::Ready.text(zh), "準備就緒");
    assert_eq!(UiMessage::ScreenshotSaved("a.png".into()).text(en), "Screenshot saved: a.png");
    assert_eq!(UiMessage::ScreenshotSaved("a.png".into()).text(zh), "截圖已儲存：a.png");
    assert_eq!(UiMessage::CouldNotSaveSettings("denied".into()).text(en), "Could not save settings: denied");
    assert_eq!(UiMessage::CouldNotCreateOutputFolder("x".into()).text(zh), "無法建立輸出資料夾: x");
    assert_eq!(UiMessage::FolderUnavailable("x".into()).text(en), "無法建立資料夾：x");
    assert_eq!(UiMessage::RecordingTo("r.mp4".into()).text(zh), "錄影中：r.mp4");
    assert_eq!(UiMessage::RecordingSaved("r.mp4".into()).text(en), "Recording saved: r.mp4");
    assert_eq!(UiMessage::CouldNotStopRecording("e".into()).text(zh), "停止錄影失敗：e");
    assert_eq!(UiMessage::CouldNotStartRecording("e".into()).text(en), "Could not start recording: e");
    assert_eq!(UiMessage::ScreenshotFailed("e".into()).text(en), "Screenshot failed: e");
    assert_eq!(
        UiMessage::FfmpegNotFound.text(en),
        "FFmpeg not found. Install it and add it to PATH."
    );
    assert_eq!(UiMessage::RecordingAlreadyInProgress.text(zh), "錄影已在進行中");
    assert_eq!(UiMessage::RecordingStateUnavailable.text(en), "Recording state is unavailable.");
    assert_eq!(UiMessage::SettingsApplied.text(zh), "設定已套用");
    assert_eq!(UiMessage::ChooseOutputFolder.text(en), "Choose an output folder.");
    assert_eq!(recorded_seconds_text(12, en), "Recorded 12 seconds");
    assert_eq!(recorded_seconds_text(0, zh), "已錄影 0 秒");
}

#[test]
fn window_labels() {
    assert_eq!(window_label(&w(0x2a, "Editor", 1234)), "Editor  (PID 1234, HWND 0x2a)");
    let ws = vec![w(0x2a, "Editor", 1234)];
    assert_eq!(source_label(None, &ws, Language::English), "Entire desktop");
    assert_eq!(source_label(None, &ws, Language::TraditionalChinese), "整個桌面");
    assert_eq!(source_label(Some(0x2a), &ws, Language::English), "Editor  (PID 1234, HWND 0x2a)");
    assert_eq!(source_label(Some(7), &ws, Language::English), "Window closed; refresh the list");
}

#[test]
fn button_states() {
    assert_eq!(
        controls(false, true, false),
        Controls { apply_settings: false, start_recording: true, stop_recording: false, take_screenshot: true }
    );
    assert_eq!(
        controls(true, true, false),
        Controls { apply_settings: false, start_recording: false, stop_recording: true, take_screenshot: true }
    );
    assert_eq!(
        controls(false, false, true),
        Controls { apply_settings: true, start_recording: false, stop_recording: false, take_screenshot: false }
    );
}

#[test]
fn panel_starts_from_settings() {
    let p = RecorderPanel::new(settings("zh-TW"), None);
    assert_eq!(p.language, Language::TraditionalChinese);
    assert_eq!(p.status_message, "準備就緒");
    assert!(!p.settings_needs_save);
    assert!(!p.has_pending_settings());
    let p = RecorderPanel::new(settings("en-US"), Some("Could not read file".into()));
    assert_eq!(p.status_message, "Could not read file");
    assert!(p.settings_needs_save);
    assert!(p.has_pending_settings());
}

#[test]
fn pending_settings_and_apply() {
    let mut p = RecorderPanel::new(settings("en-US"), None);
    p.output_text = "  D:\\out  ".into();
    assert!(!p.has_pending_settings());
    p.fps = 45;
    assert!(p.has_pending_settings());
    p.language = Language::TraditionalChinese;
    p.output_text = " E:\\new ".into();
    let prepared = p.prepare_settings().unwrap();
    assert_eq!(prepared, Settings { language: "zh-TW".into(), output_dir: "E:\\new".into(), fps: 45 });
    let mut state = AppState::new(None, "D:\\out".into(), "t".into());
    p.settings_applied(&mut state, prepared);
    assert_eq!(state.output_dir, "E:\\new");
    assert!(!p.has_pending_settings());
    assert_eq!(p.status_message, "設定已套用");
    p.output_text = "   ".into();
    assert_eq!(p.prepare_settings(), None);
    assert_eq!(p.status_message, "請指定輸出資料夾。");
    p.show(UiMessage::RecordingTo("r.mp4".into()));
    assert_eq!(p.status_message, "錄影中：r.mp4");
}

#[test]
fn chosen_source_is_taken_over() {
    let ws = vec![w(1, "A", 1), w(2, "B", 2)];
    let mut s = AppState::new(None, "o".into(), "t".into());
    sync_selected_target(&mut s, Some(2), &ws);
    assert_eq!(s.selected_target, Some(w(2, "B", 2)));
    sync_selected_target(&mut s, Some(2), &[]);
    assert_eq!(s.selected_target, Some(w(2, "B", 2)));
    sync_selected_target(&mut s, Some(9), &ws);
    assert_eq!(s.selected_target, None);
    sync_selected_target(&mut s, Some(1), &ws);
    s.recording = Some(RecordingProcess { path: "r".into() });
    sync_selected_target(&mut s, None, &ws);
    assert_eq!(s.selected_target, Some(w(1, "A", 1)));
}

#[test]
fn window_capture_steps() {
    assert_eq!(gui_capture_check(false), Err(UiMessage::FfmpegNotFound));
    assert_eq!(gui_capture_check(true), Ok(()));
    assert_eq!(gui_plan_screenshot(false, Ok(()), 1), Err(UiMessage::FfmpegNotFound));
    assert_eq!(
        gui_plan_screenshot(true, Err("denied".into()), 1),
        Err(UiMessage::FolderUnavailable("denied".into()))
    );
    assert_eq!(gui_plan_screenshot(true, Ok(()), 12), Ok("screenshot-12.png".to_string()));
    let mut panel = RecorderPanel::new(settings("en-US"), None);
    panel.fps = 55;
    assert_eq!(panel.capture_folder(), "D:\\out");
    assert_eq!(
        panel.plan_recording(true, Ok(()), 13),
        Ok(GuiRecordingPlan { file_name: "recording-13.mp4".into(), fps: 30 })
    );
    assert_eq!(
        panel.plan_recording(true, Err("x".into()), 13),
        Err(UiMessage::FolderUnavailable("x".into()))
    );
    assert_eq!(panel.plan_recording(false, Err("x".into()), 13), Err(UiMessage::FfmpegNotFound));
    assert_eq!(
        screenshot_message("a.png".into(), Ok(())),
        UiMessage::ScreenshotSaved("a.png".into())
    );
    assert_eq!(
        screenshot_message("a.png".into(), Err("e".into())),
        UiMessage::ScreenshotFailed("e".into())
    );
    assert_eq!(stop_message(Ok("r.mp4".into())), UiMessage::RecordingSaved("r.mp4".into()));
    assert_eq!(
        stop_message(Err("recording is not active".into())),
        UiMessage::CouldNotStopRecording("recording is not active".into())
    );
}

#[test]
fn window_recording_start() {
    let mut s = AppState::new(Some("f".into()), "o".into(), "t".into());
    assert_eq!(gui_recording_check(&s), Ok(()));
    assert_eq!(
        gui_finish_recording_start(&mut s, "r.mp4".into(), Err("no ffmpeg".into())),
        UiMessage::CouldNotStartRecording("no ffmpeg".into())
    );
    assert!(s.recording.is_none());
    assert_eq!(
        gui_finish_recording_start(&mut s, "r.mp4".into(), Ok(())),
        UiMessage::RecordingTo("r.mp4".into())
    );
    assert_eq!(s.recording, Some(RecordingProcess { path: "r.mp4".into() }));
    assert_eq!(gui_recording_check(&s), Err(UiMessage::RecordingAlreadyInProgress));
    assert_eq!(
        gui_finish_recording_start(&mut s, "other.mp4".into(), Ok(())),
        UiMessage::RecordingAlreadyInProgress
    );
    assert_eq!(s.recording, Some(RecordingProcess { path: "r.mp4".into() }));
}
