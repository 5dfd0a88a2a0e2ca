//! How FFmpeg is asked to capture: the output file names, the command-line
//! arguments, and how the outcome of a run is read.

use vstd::prelude::*;
use crate::text::{decimal, decimal_string, hex, hex_string, trim, trimmed};
use crate::windows_capture::WindowTarget;

verus! {

/// The file name of a screenshot taken at `timestamp` (milliseconds since
/// the Unix epoch).
pub fn screenshot_file_name(timestamp: u128) -> (r: String)
    ensures
        r@ == "screenshot-"@ + decimal(timestamp as nat) + ".png"@,
{
    let mut s = "screenshot-".to_owned();
    let digits = decimal_string(timestamp);
    s.append(digits.as_str());
    s.append(".png");
    s
}

/// The file name of a recording started at `timestamp` (milliseconds since
/// the Unix epoch).
pub fn recording_file_name(timestamp: u128) -> (r: String)
    ensures
        r@ == "recording-"@ + decimal(timestamp as nat) + ".mp4"@,
{
    let mut s = "recording-".to_owned();
    let digits = decimal_string(timestamp);
    s.append(digits.as_str());
    s.append(".mp4");
    s
}

/// The text that names the whole desktop, or the window, to gdigrab.
pub open spec fn spec_capture_input(target: Option<WindowTarget>) -> Seq<char> {
    match target {
        Some(w) => "hwnd=0x"@ + hex(w.hwnd as nat),
        None => "desktop"@,
    }
}

/// The gdigrab input for the window, or for the whole desktop.
pub fn capture_input(target: Option<&WindowTarget>) -> (r: String)
    ensures
        r@ == spec_capture_input(match target {
            Some(w) => Some(*w),
            None => None,
        }),
{
    match target {
        Some(w) => {
            let mut s = "hwnd=0x".to_owned();
            let digits = hex_string(w.hwnd as u128);
            s.append(digits.as_str());
            s
        },
        None => "desktop".to_owned(),
    }
}

/// The text views of a list of arguments.
pub open spec fn arg_views(args: Seq<String>) -> Seq<Seq<char>> {
    args.map_values(|a: String| a@)
}

fn push_arg(args: &mut Vec<String>, arg: &str)
    ensures
        arg_views(final(args)@) == arg_views(old(args)@).push(arg@),
{
    args.push(arg.to_owned());
    assert(arg_views(args@) =~= arg_views(old(args)@).push(arg@));
}

/// The FFmpeg arguments, before the output path, that grab one frame of
/// the window or desktop into a PNG file.
pub open spec fn spec_screenshot_args(target: Option<WindowTarget>) -> Seq<Seq<char>> {
    seq![
        "-hide_banner"@,
        "-loglevel"@,
        "error"@,
        "-y"@,
        "-f"@,
        "gdigrab"@,
        "-draw_mouse"@,
        "1"@,
        "-framerate"@,
        "1"@,
        "-i"@,
        spec_capture_input(target),
        "-frames:v"@,
        "1"@,
        "-update"@,
        "1"@,
    ]
}

/// The FFmpeg arguments for a screenshot; the output path follows them.
pub fn screenshot_args(target: Option<&WindowTarget>) -> (r: Vec<String>)
    ensures
        arg_views(r@) == spec_screenshot_args(match target {
            Some(w) => Some(*w),
            None => None,
        }),
{
    let mut args: Vec<String> = Vec::new();
    assert(arg_views(args@) =~= Seq::<Seq<char>>::empty());
    push_arg(&mut args, "-hide_banner");
    push_arg(&mut args, "-loglevel");
    push_arg(&mut args, "error");
    push_arg(&mut args, "-y");
    push_arg(&mut args, "-f");
    push_arg(&mut args, "gdigrab");
    push_arg(&mut args, "-draw_mouse");
    push_arg(&mut args, "1");
    push_arg(&mut args, "-framerate");
    push_arg(&mut args, "1");
    push_arg(&mut args, "-i");
    let input = capture_input(target);
    push_arg(&mut args, input.as_str());
    push_arg(&mut args, "-frames:v");
    push_arg(&mut args, "1");
    push_arg(&mut args, "-update");
    push_arg(&mut args, "1");
    assert(arg_views(args@) =~= spec_screenshot_args(
        match target {
            Some(w) => Some(*w),
            None => None,
        },
    ));
    args
}

/// The FFmpeg arguments, before the output path, that record the window or
/// desktop at `fps` frames per second into an H.264 MP4 file.
pub open spec fn spec_recording_args(fps: u32, target: Option<WindowTarget>) -> Seq<Seq<char>> {
    seq![
        "-hide_banner"@,
        "-loglevel"@,
        "error"@,
        "-y"@,
        "-f"@,
        "gdigrab"@,
        "-draw_mouse"@,
        "1"@,
        "-framerate"@,
        decimal(fps as nat),
        "-i"@,
        spec_capture_input(target),
        "-vf"@,
        "scale=trunc(iw/2)*2:trunc(ih/2)*2"@,
        "-c:v"@,
        "libx264"@,
        "-preset"@,
        "ultrafast"@,
        "-crf"@,
        "23"@,
        "-pix_fmt"@,
        "yuv420p"@,
        "-movflags"@,
        "+faststart"@,
        "-f"@,
        "mp4"@,
    ]
}

/// The FFmpeg arguments for a recording; the output path follows them.
pub fn recording_args(fps: u32, target: Option<&WindowTarget>) -> (r: Vec<String>)
    ensures
        arg_views(r@) == spec_recording_args(
            fps,
            match target {
                Some(w) => Some(*w),
                None => None,
            },
        ),
{
    let mut args: Vec<String> = Vec::new();
    assert(arg_views(args@) =~= Seq::<Seq<char>>::empty());
    push_arg(&mut args, "-hide_banner");
    push_arg(&mut args, "-loglevel");
    push_arg(&mut args, "error");
    push_arg(&mut args, "-y");
    push_arg(&mut args, "-f");
    push_arg(&mut args, "gdigrab");
    push_arg(&mut args, "-draw_mouse");
    push_arg(&mut args, "1");
    push_arg(&mut args, "-framerate");
    let rate = decimal_string(fps as u128);
    push_arg(&mut args, rate.as_str());
    push_arg(&mut args, "-i");
    let input = capture_input(target);
    push_arg(&mut args, input.as_str());
    push_arg(&mut args, "-vf");
    push_arg(&mut args, "scale=trunc(iw/2)*2:trunc(ih/2)*2");
    push_arg(&mut args, "-c:v");
    push_arg(&mut args, "libx264");
    push_arg(&mut args, "-preset");
    push_arg(&mut args, "ultrafast");
    push_arg(&mut args, "-crf");
    push_arg(&mut args, "23");
    push_arg(&mut args, "-pix_fmt");
    push_arg(&mut args, "yuv420p");
    push_arg(&mut args, "-movflags");
    push_arg(&mut args, "+faststart");
    push_arg(&mut args, "-f");
    push_arg(&mut args, "mp4");
    assert(arg_views(args@) =~= spec_recording_args(
        fps,
        match target {
            Some(w) => Some(*w),
            None => None,
        },
    ));
    args
}

/// What polling an FFmpeg process gave.
#[derive(Debug, PartialEq, Eq)]
pub enum ProcessPoll {
    /// The process has exited; `status` is how its exit status reads.
    Exited { success: bool, status: String },
    /// The process is still running.
    Running,
    /// The process could not be polled; `error` is how the error reads.
    Failed { error: String },
}

/// The reason given where FFmpeg could not be started.
pub fn launch_error(error: &str) -> (r: String)
    ensures
        r@ == "啟動 FFmpeg 失敗："@ + error@,
{
    let mut s = "啟動 FFmpeg 失敗：".to_owned();
    s.append(error);
    s
}

/// The outcome of a screenshot run: done where FFmpeg succeeded and the
/// file exists, else FFmpeg's error output without surrounding white space.
pub fn screenshot_outcome(success: bool, output_exists: bool, stderr: &str) -> (r: Result<
    (),
    String,
>)
    ensures
        success && output_exists ==> r is Ok,
        !(success && output_exists) ==> r is Err && r->Err_0@ == trimmed(stderr@),
{
    if success && output_exists {
        Ok(())
    } else {
        Err(trim(stderr).to_owned())
    }
}

/// The outcome of a recording, read half a second after FFmpeg was
/// started: still running means it is recording; exited means it could not
/// grab the desktop; a failed poll gives the poll's error.
pub fn recording_launch_outcome(poll: ProcessPoll) -> (r: Result<(), String>)
    ensures
        match poll {
            ProcessPoll::Running => r is Ok,
            ProcessPoll::Exited { success: _, status } => r is Err && r->Err_0@
                == "FFmpeg 無法擷取桌面（結束代碼 "@ + status@
                + "）。請確認工作階段未鎖定，並查看 FFmpeg 是否支援 gdigrab。"@,
            ProcessPoll::Failed { error } => r is Err && r->Err_0@ == error@,
        },
{
    match poll {
        ProcessPoll::Running => Ok(()),
        ProcessPoll::Exited { success: _, status } => {
            let mut s = "FFmpeg 無法擷取桌面（結束代碼 ".to_owned();
            s.append(status.as_str());
            s.append("）。請確認工作階段未鎖定，並查看 FFmpeg 是否支援 gdigrab。");
            Err(s)
        },
        ProcessPoll::Failed { error } => Err(error),
    }
}

/// The input FFmpeg grabs from names the given window by its handle,
/// written in hexadecimal, or the whole desktop only where no window is
/// given; screenshots and recordings grab the same input.
pub proof fn lemma_capture_args_grab_the_target(target: Option<WindowTarget>, fps: u32)
    ensures
        spec_screenshot_args(target)[10] == "-i"@,
        spec_recording_args(fps, target)[10] == "-i"@,
        spec_screenshot_args(target)[11] == spec_recording_args(fps, target)[11],
        target is None ==> spec_screenshot_args(target)[11] == "desktop"@,
        target matches Some(w) ==> spec_screenshot_args(target)[11] == "hwnd=0x"@ + hex(
            w.hwnd as nat,
        ),
        target is Some ==> spec_screenshot_args(target)[11] != "desktop"@,
{
    reveal_strlit("desktop");
    reveal_strlit("hwnd=0x");
    if let Some(w) = target {
        let input = "hwnd=0x"@ + hex(w.hwnd as nat);
        assert(input[0] == 'h');
        assert("desktop"@[0] == 'd');
    }
}

} // verus!
