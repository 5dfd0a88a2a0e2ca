//! The desktop window's logic: its messages in both languages, the
//! settings form, which buttons are enabled, and how the capture source is
//! shown and kept in step with the shared state.

use vstd::prelude::*;
use crate::language::Language;
use crate::capture::{recording_file_name, screenshot_file_name};
use crate::server::{spec_after_start, AppState, AppStateView};
use crate::settings::Settings;
use crate::text::{decimal, decimal_string, hex, hex_string, str_eq, trim, trimmed};
use crate::windows_capture::{find_window, spec_find_window, WindowTarget};

verus! {

/// A message shown in the status line of the window.
#[derive(Debug, PartialEq, Eq)]
pub enum UiMessage {
    Ready,
    ChooseOutputFolder,
    CouldNotCreateOutputFolder(String),
    CouldNotSaveSettings(String),
    SettingsApplied,
    FfmpegNotFound,
    /// The output folder could not be made before a capture.
    FolderUnavailable(String),
    RecordingStateUnavailable,
    RecordingAlreadyInProgress,
    ScreenshotSaved(String),
    ScreenshotFailed(String),
    RecordingTo(String),
    CouldNotStartRecording(String),
    RecordingSaved(String),
    CouldNotStopRecording(String),
}

/// `en` or `zh`, by language.
pub open spec fn pick(language: Language, en: Seq<char>, zh: Seq<char>) -> Seq<char> {
    match language {
        Language::English => en,
        Language::TraditionalChinese => zh,
    }
}

impl UiMessage {
    /// The text of the message in `language`.
    pub open spec fn spec_text(&self, language: Language) -> Seq<char> {
        match self {
            UiMessage::Ready => pick(language, "Ready"@, "準備就緒"@),
            UiMessage::ChooseOutputFolder => pick(
                language,
                "Choose an output folder."@,
                "請指定輸出資料夾。"@,
            ),
            UiMessage::CouldNotCreateOutputFolder(e) => pick(
                language,
                "Could not create output folder"@,
                "無法建立輸出資料夾"@,
            ) + ": "@ + e@,
            UiMessage::CouldNotSaveSettings(e) => pick(
                language,
                "Could not save settings"@,
                "無法儲存設定"@,
            ) + ": "@ + e@,
            UiMessage::SettingsApplied => pick(language, "Settings applied"@, "設定已套用"@),
            UiMessage::FfmpegNotFound => pick(
                language,
                "FFmpeg not found. Install it and add it to PATH."@,
                "找不到 FFmpeg，請先安裝並加入 PATH"@,
            ),
            UiMessage::FolderUnavailable(e) => "無法建立資料夾："@ + e@,
            UiMessage::RecordingStateUnavailable => pick(
                language,
                "Recording state is unavailable."@,
                "錄影狀態無法使用"@,
            ),
            UiMessage::RecordingAlreadyInProgress => pick(
                language,
                "Recording is already in progress."@,
                "錄影已在進行中"@,
            ),
            UiMessage::ScreenshotSaved(p) => pick(
                language,
                "Screenshot saved: "@,
                "截圖已儲存："@,
            ) + p@,
            UiMessage::ScreenshotFailed(e) => pick(
                language,
                "Screenshot failed: "@,
                "截圖失敗："@,
            ) + e@,
            UiMessage::RecordingTo(p) => pick(language, "Recording: "@, "錄影中："@) + p@,
            UiMessage::CouldNotStartRecording(e) => pick(
                language,
                "Could not start recording: "@,
                "無法開始錄影："@,
            ) + e@,
            UiMessage::RecordingSaved(p) => pick(
                language,
                "Recording saved: "@,
                "錄影已完成："@,
            ) + p@,
            UiMessage::CouldNotStopRecording(e) => pick(
                language,
                "Could not stop recording: "@,
                "停止錄影失敗："@,
            ) + e@,
        }
    }

    /// The text of the message in `language`.
    pub fn text(&self, language: Language) -> (r: String)
        ensures
            r@ == self.spec_text(language),
    {
        match self {
            UiMessage::Ready => language.text("Ready", "準備就緒").to_owned(),
            UiMessage::ChooseOutputFolder => language.text(
                "Choose an output folder.",
                "請指定輸出資料夾。",
            ).to_owned(),
            UiMessage::CouldNotCreateOutputFolder(e) => {
                let mut s = language.text(
                    "Could not create output folder",
                    "無法建立輸出資料夾",
                ).to_owned();
                s.append(": ");
                s.append(e.as_str());
                s
            },
            UiMessage::CouldNotSaveSettings(e) => {
                let mut s = language.text("Could not save settings", "無法儲存設定").to_owned();
                s.append(": ");
                s.append(e.as_str());
                s
            },
            UiMessage::SettingsApplied => language.text(
                "Settings applied",
                "設定已套用",
            ).to_owned(),
            UiMessage::FfmpegNotFound => language.text(
                "FFmpeg not found. Install it and add it to PATH.",
                "找不到 FFmpeg，請先安裝並加入 PATH",
            ).to_owned(),
            UiMessage::FolderUnavailable(e) => {
                let mut s = "無法建立資料夾：".to_owned();
                s.append(e.as_str());
                s
            },
            UiMessage::RecordingStateUnavailable => language.text(
                "Recording state is unavailable.",
                "錄影狀態無法使用",
            ).to_owned(),
            UiMessage::RecordingAlreadyInProgress => language.text(
                "Recording is already in progress.",
                "錄影已在進行中",
            ).to_owned(),
            UiMessage::ScreenshotSaved(p) => {
                let mut s = language.text("Screenshot saved: ", "截圖已儲存：").to_owned();
                s.append(p.as_str());
                s
            },
            UiMessage::ScreenshotFailed(e) => {
                let mut s = language.text("Screenshot failed: ", "截圖失敗：").to_owned();
                s.append(e.as_str());
                s
            },
            UiMessage::RecordingTo(p) => {
                let mut s = language.text("Recording: ", "錄影中：").to_owned();
                s.append(p.as_str());
                s
            },
            UiMessage::CouldNotStartRecording(e) => {
                let mut s = language.text("Could not start recording: ", "無法開始錄影：").to_owned();
                s.append(e.as_str());
                s
            },
            UiMessage::RecordingSaved(p) => {
                let mut s = language.text("Recording saved: ", "錄影已完成：").to_owned();
                s.append(p.as_str());
                s
            },
            UiMessage::CouldNotStopRecording(e) => {
                let mut s = language.text("Could not stop recording: ", "停止錄影失敗：").to_owned();
                s.append(e.as_str());
                s
            },
        }
    }
}

/// The text of "recorded for `seconds` seconds" in `language`.
pub fn recorded_seconds_text(seconds: u64, language: Language) -> (r: String)
    ensures
        r@ == pick(language, "Recorded "@, "已錄影 "@) + decimal(seconds as nat) + pick(
            language,
            " seconds"@,
            " 秒"@,
        ),
{
    let mut s = language.text("Recorded ", "已錄影 ").to_owned();
    let n = decimal_string(seconds as u128);
    s.append(n.as_str());
    s.append(language.text(" seconds", " 秒"));
    s
}

/// How a listed window is named in the capture source list.
pub open spec fn spec_window_label(w: WindowTarget) -> Seq<char> {
    w.title@ + "  (PID "@ + decimal(w.process_id as nat) + ", HWND 0x"@ + hex(w.hwnd as nat)
        + ")"@
}

/// The name of a listed window: its title, process id and handle.
pub fn window_label(w: &WindowTarget) -> (r: String)
    ensures
        r@ == spec_window_label(*w),
{
    let mut s = w.title.clone();
    s.append("  (PID ");
    let pid = decimal_string(w.process_id as u128);
    s.append(pid.as_str());
    s.append(", HWND 0x");
    let h = hex_string(w.hwnd as u128);
    s.append(h.as_str());
    s.append(")");
    s
}

/// How the chosen capture source is shown.
pub open spec fn spec_source_label(
    selected_hwnd: Option<usize>,
    windows: Seq<WindowTarget>,
    language: Language,
) -> Seq<char> {
    match selected_hwnd {
        None => pick(language, "Entire desktop"@, "整個桌面"@),
        Some(h) => match spec_find_window(windows, h) {
            Some(w) => spec_window_label(w),
            None => pick(language, "Window closed; refresh the list"@, "原視窗已關閉，請重新整理"@),
        },
    }
}

/// The shown capture source: the whole desktop, the chosen window, or a
/// note that the chosen window has closed.
pub fn source_label(selected_hwnd: Option<usize>, windows: &[WindowTarget], language: Language) -> (r:
    String)
    ensures
        r@ == spec_source_label(selected_hwnd, windows@, language),
{
    match selected_hwnd {
        None => language.text("Entire desktop", "整個桌面").to_owned(),
        Some(h) => match find_window(windows, h) {
            Some(w) => window_label(&w),
            None => language.text(
                "Window closed; refresh the list",
                "原視窗已關閉，請重新整理",
            ).to_owned(),
        },
    }
}

/// Which buttons of the window can be pressed.
#[derive(Clone, Copy, Debug, PartialEq, Eq, Structural)]
pub struct Controls {
    pub apply_settings: bool,
    pub start_recording: bool,
    pub stop_recording: bool,
    pub take_screenshot: bool,
}

/// The buttons that can be pressed: settings are applied only while idle
/// and changed; captures need FFmpeg and applied settings; a recording can
/// only be started while idle and stopped while recording.
pub fn controls(recording: bool, ffmpeg_available: bool, pending_settings: bool) -> (r: Controls)
    ensures
        r.apply_settings == (!recording && pending_settings),
        r.start_recording == (!recording && ffmpeg_available && !pending_settings),
        r.stop_recording == recording,
        r.take_screenshot == (ffmpeg_available && !pending_settings),
{
    Controls {
        apply_settings: !recording && pending_settings,
        start_recording: !recording && ffmpeg_available && !pending_settings,
        stop_recording: recording,
        take_screenshot: ffmpeg_available && !pending_settings,
    }
}

/// The settings form of the window and its status line.
pub struct RecorderPanel {
    pub settings: Settings,
    pub output_text: String,
    pub fps: u32,
    pub status_message: String,
    pub language: Language,
    pub settings_needs_save: bool,
}

/// Whether the form differs from the applied settings, or the settings
/// still have to be saved.
pub open spec fn spec_has_pending_settings(p: RecorderPanel) -> bool {
    ||| p.settings_needs_save
    ||| trimmed(p.output_text@) != p.settings.output_dir@
    ||| p.fps != p.settings.fps
    ||| p.language.spec_code() != p.settings.language@
}

impl RecorderPanel {
    /// The form filled from `settings`; where they could not be read,
    /// `settings_error` is shown and the settings are marked for saving.
    pub fn new(settings: Settings, settings_error: Option<String>) -> (r: RecorderPanel)
        ensures
            r.language == (if settings.language@ == "zh-TW"@ {
                Language::TraditionalChinese
            } else {
                Language::English
            }),
            r.output_text == settings.output_dir,
            r.fps == settings.fps,
            r.settings == settings,
            r.settings_needs_save == settings_error is Some,
            match settings_error {
                Some(e) => r.status_message == e,
                None => r.status_message@ == UiMessage::Ready.spec_text(r.language),
            },
    {
        let language = Language::from_code(settings.language.as_str());
        let settings_needs_save = settings_error.is_some();
        let status_message = match settings_error {
            Some(e) => e,
            None => UiMessage::Ready.text(language),
        };
        RecorderPanel {
            output_text: settings.output_dir.clone(),
            fps: settings.fps,
            status_message,
            settings,
            language,
            settings_needs_save,
        }
    }

    /// Shows `message` in the status line.
    pub fn show(&mut self, message: UiMessage)
        ensures
            final(self).status_message@ == message.spec_text(old(self).language),
            final(self).settings == old(self).settings,
            final(self).output_text == old(self).output_text,
            final(self).fps == old(self).fps,
            final(self).language == old(self).language,
            final(self).settings_needs_save == old(self).settings_needs_save,
    {
        self.status_message = message.text(self.language);
    }

    /// Whether the form holds changes that are not applied yet.
    pub fn has_pending_settings(&self) -> (r: bool)
        ensures
            r == spec_has_pending_settings(*self),
    {
        self.settings_needs_save || !str_eq(
            trim(self.output_text.as_str()),
            self.settings.output_dir.as_str(),
        ) || self.fps != self.settings.fps || !str_eq(
            self.language.code(),
            self.settings.language.as_str(),
        )
    }

    /// The settings that applying the form would save: its language, its
    /// output folder without surrounding white space, its frame rate. With
    /// no folder given, nothing is applied and the user is asked for one.
    pub fn prepare_settings(&mut self) -> (r: Option<Settings>)
        ensures
            trimmed(old(self).output_text@).len() == 0 ==> r is None
                && final(self).status_message@ == UiMessage::ChooseOutputFolder.spec_text(
                old(self).language,
            ),
            trimmed(old(self).output_text@).len() > 0 ==> r is Some && r->0.language@
                == old(self).language.spec_code() && r->0.output_dir@ == trimmed(
                old(self).output_text@,
            ) && r->0.fps == old(self).fps && final(self).status_message == old(
                self,
            ).status_message,
            final(self).settings == old(self).settings,
            final(self).output_text == old(self).output_text,
            final(self).fps == old(self).fps,
            final(self).language == old(self).language,
            final(self).settings_needs_save == old(self).settings_needs_save,
    {
        let folder = trim(self.output_text.as_str());
        if folder.is_empty() {
            self.show(UiMessage::ChooseOutputFolder);
            return None;
        }
        let folder = folder.to_owned();
        Some(Settings { language: self.language.code().to_owned(), output_dir: folder, fps: self.fps })
    }

    /// Takes in settings that were saved: they are the applied settings,
    /// their output folder is the one the control API uses, nothing is left
    /// to save, and the user is told so.
    pub fn settings_applied(&mut self, state: &mut AppState, settings: Settings)
        ensures
            final(self).settings == settings,
            !final(self).settings_needs_save,
            final(self).status_message@ == UiMessage::SettingsApplied.spec_text(old(self).language),
            final(self).output_text == old(self).output_text,
            final(self).fps == old(self).fps,
            final(self).language == old(self).language,
            final(state).output_dir == settings.output_dir,
            final(state)@ == (AppStateView { output_dir: settings.output_dir@, ..old(state)@ }),
    {
        state.output_dir = settings.output_dir.clone();
        self.settings = settings;
        self.settings_needs_save = false;
        self.show(UiMessage::SettingsApplied);
    }
}

/// Once the form's settings have been applied, nothing is pending, as long
/// as the form is not edited in between.
pub proof fn lemma_applied_settings_are_not_pending(p: RecorderPanel, applied: RecorderPanel)
    requires
        trimmed(p.output_text@).len() > 0,
        applied.settings.language@ == p.language.spec_code(),
        applied.settings.output_dir@ == trimmed(p.output_text@),
        applied.settings.fps == p.fps,
        !applied.settings_needs_save,
        applied.output_text == p.output_text,
        applied.fps == p.fps,
        applied.language == p.language,
    ensures
        !spec_has_pending_settings(applied),
{
}

/// The window selected once the chosen source `visible_hwnd` is taken
/// over into the shared state: left alone while recording or where it
/// already has that handle; else the listed window with that handle, or
/// the whole desktop.
pub open spec fn spec_synced_target(
    s: AppStateView,
    visible_hwnd: Option<usize>,
    windows: Seq<WindowTarget>,
) -> Option<WindowTarget> {
    let current = match s.selected_target {
        Some(t) => Some(t.hwnd),
        None => None,
    };
    if s.recording is Some || current == visible_hwnd {
        s.selected_target
    } else {
        match visible_hwnd {
            Some(h) => spec_find_window(windows, h),
            None => None,
        }
    }
}

/// While nothing is recorded, taking the chosen source over leaves the
/// shared selection on that source: the whole desktop where the desktop is
/// chosen, a window with the chosen handle where one is selected, and one
/// where a listed window has that handle. While recording, the selection
/// stays as it was.
pub proof fn lemma_synced_target_follows_choice(
    s: AppStateView,
    visible_hwnd: Option<usize>,
    windows: Seq<WindowTarget>,
)
    ensures
        s.recording is Some ==> spec_synced_target(s, visible_hwnd, windows) == s.selected_target,
        s.recording is None && visible_hwnd is None ==> spec_synced_target(
            s,
            visible_hwnd,
            windows,
        ) is None,
        s.recording is None ==> (spec_synced_target(s, visible_hwnd, windows) matches Some(w)
            ==> visible_hwnd == Some(w.hwnd)),
        s.recording is None && (visible_hwnd matches Some(h) && spec_find_window(windows, h)
            is Some) ==> spec_synced_target(s, visible_hwnd, windows) is Some,
{
    if let Some(h) = visible_hwnd {
        crate::server::lemma_found_window_has_handle(windows, h);
    }
}

/// Takes the source chosen in the window over into the shared state.
pub fn sync_selected_target(state: &mut AppState, visible_hwnd: Option<usize>, windows: &[WindowTarget])
    ensures
        final(state)@ == (AppStateView {
            selected_target: spec_synced_target(old(state)@, visible_hwnd, windows@),
            ..old(state)@
        }),
{
    if state.recording.is_some() {
        return;
    }
    let current = match &state.selected_target {
        Some(t) => Some(t.hwnd),
        None => None,
    };
    if current != visible_hwnd {
        state.selected_target = match visible_hwnd {
            Some(h) => find_window(windows, h),
            None => None,
        };
    }
}

/// Refuses a capture from the window at once where FFmpeg is missing,
/// before the output folder is made.
pub fn gui_capture_check(ffmpeg_available: bool) -> (r: Result<(), UiMessage>)
    ensures
        ffmpeg_available ==> r is Ok,
        !ffmpeg_available ==> r == Err::<(), UiMessage>(UiMessage::FfmpegNotFound),
{
    if !ffmpeg_available {
        return Err(UiMessage::FfmpegNotFound);
    }
    Ok(())
}

/// The file a screenshot from the window is saved to, given whether FFmpeg
/// is there and whether the output folder could be made; else the message
/// shown.
pub fn gui_plan_screenshot(
    ffmpeg_available: bool,
    output_dir: Result<(), String>,
    timestamp: u128,
) -> (r: Result<String, UiMessage>)
    ensures
        !ffmpeg_available ==> r == Err::<String, UiMessage>(UiMessage::FfmpegNotFound),
        ffmpeg_available ==> match output_dir {
            Err(e) => r == Err::<String, UiMessage>(UiMessage::FolderUnavailable(e)),
            Ok(()) => r is Ok && r->Ok_0@ == "screenshot-"@ + decimal(timestamp as nat) + ".png"@,
        },
{
    if !ffmpeg_available {
        return Err(UiMessage::FfmpegNotFound);
    }
    match output_dir {
        Err(e) => Err(UiMessage::FolderUnavailable(e)),
        Ok(()) => Ok(screenshot_file_name(timestamp)),
    }
}

/// The message once a screenshot from the window was run.
pub fn screenshot_message(path: String, captured: Result<(), String>) -> (r: UiMessage)
    ensures
        match captured {
            Ok(()) => r == UiMessage::ScreenshotSaved(path),
            Err(e) => r == UiMessage::ScreenshotFailed(e),
        },
{
    match captured {
        Ok(()) => UiMessage::ScreenshotSaved(path),
        Err(e) => UiMessage::ScreenshotFailed(e),
    }
}

/// A recording started from the window: the file name in the output
/// folder and the frame rate.
#[derive(Debug, PartialEq, Eq)]
pub struct GuiRecordingPlan {
    pub file_name: String,
    pub fps: u32,
}

impl RecorderPanel {
    /// The folder the window's captures go to: that of the applied
    /// settings.
    pub fn capture_folder(&self) -> (r: String)
        ensures
            r == self.settings.output_dir,
    {
        self.settings.output_dir.clone()
    }

    /// The recording started from the window, given whether FFmpeg is there
    /// and whether the output folder could be made: it is recorded at the
    /// applied settings' frame rate (not the form's); else the message shown.
    pub fn plan_recording(
        &self,
        ffmpeg_available: bool,
        output_dir: Result<(), String>,
        timestamp: u128,
    ) -> (r: Result<GuiRecordingPlan, UiMessage>)
        ensures
            !ffmpeg_available ==> r == Err::<GuiRecordingPlan, UiMessage>(UiMessage::FfmpegNotFound),
            ffmpeg_available ==> match output_dir {
                Err(e) => r == Err::<GuiRecordingPlan, UiMessage>(UiMessage::FolderUnavailable(e)),
                Ok(()) => r is Ok && r->Ok_0.file_name@ == "recording-"@ + decimal(timestamp as nat)
                    + ".mp4"@ && r->Ok_0.fps == self.settings.fps,
            },
    {
        if !ffmpeg_available {
            return Err(UiMessage::FfmpegNotFound);
        }
        match output_dir {
            Err(e) => Err(UiMessage::FolderUnavailable(e)),
            Ok(()) => Ok(GuiRecordingPlan { file_name: recording_file_name(timestamp), fps: self.settings.fps }),
        }
    }
}

/// Refuses to start a recording from the window while one is in progress.
pub fn gui_recording_check(state: &AppState) -> (r: Result<(), UiMessage>)
    ensures
        state@.recording is Some ==> r == Err::<(), UiMessage>(
            UiMessage::RecordingAlreadyInProgress,
        ),
        state@.recording is None ==> r is Ok,
{
    if state.recording.is_some() {
        return Err(UiMessage::RecordingAlreadyInProgress);
    }
    Ok(())
}

/// Records the outcome of starting FFmpeg from the window for a recording
/// to `file`, and the message shown: refused while a recording is in
/// progress; in progress where FFmpeg started; else its error.
pub fn gui_finish_recording_start(state: &mut AppState, file: String, launched: Result<(), String>) -> (r:
    UiMessage)
    ensures
        old(state)@.recording is Some ==> r == UiMessage::RecordingAlreadyInProgress
            && final(state)@ == old(state)@,
        old(state)@.recording is None ==> match launched {
            Ok(()) => r == UiMessage::RecordingTo(file) && final(state)@ == spec_after_start(
                old(state)@,
                file@,
            ),
            Err(e) => r == UiMessage::CouldNotStartRecording(e) && final(state)@ == old(state)@,
        },
{
    if state.recording.is_some() {
        return UiMessage::RecordingAlreadyInProgress;
    }
    match launched {
        Ok(()) => {
            let shown = file.clone();
            match state.finish_recording_start(file, Ok(())) {
                Ok(_) => UiMessage::RecordingTo(shown),
                Err(e) => UiMessage::CouldNotStartRecording(e.message),
            }
        },
        Err(e) => UiMessage::CouldNotStartRecording(e),
    }
}

/// The message once stopping a recording from the window was tried.
pub fn stop_message(stopped: Result<String, String>) -> (r: UiMessage)
    ensures
        match stopped {
            Ok(path) => r == UiMessage::RecordingSaved(path),
            Err(e) => r == UiMessage::CouldNotStopRecording(e),
        },
{
    match stopped {
        Ok(path) => UiMessage::RecordingSaved(path),
        Err(e) => UiMessage::CouldNotStopRecording(e),
    }
}

} // verus!
