//! The stored settings: language, output folder and frame rate.

use vstd::prelude::*;
use crate::text::{str_eq, trim, trimmed};

verus! {

/// The lowest frame rate that can be recorded.
pub const MIN_FPS: u32 = 10;

/// The highest frame rate that can be recorded.
pub const MAX_FPS: u32 = 60;

/// The frame rate used where none is given.
pub const DEFAULT_FPS: u32 = 30;

/// Whether `fps` is a frame rate that can be recorded (10 to 60).
pub open spec fn fps_in_range(fps: int) -> bool {
    MIN_FPS <= fps <= MAX_FPS
}

/// Whether `fps` is a frame rate that can be recorded (10 to 60).
pub fn is_valid_fps(fps: u64) -> (r: bool)
    ensures
        r == fps_in_range(fps as int),
{
    MIN_FPS as u64 <= fps && fps <= MAX_FPS as u64
}

/// The settings kept between runs.
#[derive(Debug, PartialEq, Eq)]
pub struct Settings {
    pub language: String,
    pub output_dir: String,
    pub fps: u32,
}

impl Clone for Settings {
    fn clone(&self) -> (r: Self)
        ensures
            r == *self,
    {
        Settings {
            language: self.language.clone(),
            output_dir: self.output_dir.clone(),
            fps: self.fps,
        }
    }
}

impl Settings {
    /// What is wrong with these settings, checked in this order: the
    /// language, the output folder, the frame rate; `None` where nothing is.
    pub open spec fn validation_error(self) -> Option<Seq<char>> {
        if self.language@ != "en-US"@ && self.language@ != "zh-TW"@ {
            Some("Language must be en-US or zh-TW"@)
        } else if self.output_dir@.len() == 0 {
            Some("Output folder cannot be empty"@)
        } else if !fps_in_range(self.fps as int) {
            Some("Frame rate must be between 10 and 60 FPS"@)
        } else {
            None
        }
    }

    /// Checks the settings before they are used or saved.
    pub fn validate(&self) -> (r: Result<(), String>)
        ensures
            match r {
                Ok(()) => self.validation_error() is None,
                Err(e) => self.validation_error() == Some(e@),
            },
    {
        if !str_eq(self.language.as_str(), "en-US") && !str_eq(self.language.as_str(), "zh-TW") {
            return Err("Language must be en-US or zh-TW".to_owned());
        }
        if self.output_dir.as_str().is_empty() {
            return Err("Output folder cannot be empty".to_owned());
        }
        if !is_valid_fps(self.fps as u64) {
            return Err("Frame rate must be between 10 and 60 FPS".to_owned());
        }
        Ok(())
    }

    /// The settings written on the first run: the language kept from an
    /// older language file where it held "zh-TW" (white space around it
    /// aside), else "en-US"; the given output folder; 30 FPS.
    pub fn from_legacy_language(legacy_language: &str, default_output_dir: String) -> (r: Settings)
        ensures
            r.language@ == (if trimmed(legacy_language@) == "zh-TW"@ {
                "zh-TW"@
            } else {
                "en-US"@
            }),
            r.output_dir == default_output_dir,
            r.fps == DEFAULT_FPS,
            default_output_dir@.len() > 0 ==> r.validation_error() is None,
    {
        let language = trim(legacy_language);
        let language = if str_eq(language, "zh-TW") {
            "zh-TW".to_owned()
        } else {
            "en-US".to_owned()
        };
        Settings { language, output_dir: default_output_dir, fps: DEFAULT_FPS }
    }

    /// The settings used when the settings file cannot be read: English,
    /// the given output folder, 30 FPS.
    pub fn fallback(default_output_dir: String) -> (r: Settings)
        ensures
            r.language@ == "en-US"@,
            r.output_dir == default_output_dir,
            r.fps == DEFAULT_FPS,
            default_output_dir@.len() > 0 ==> r.validation_error() is None,
    {
        Settings { language: "en-US".to_owned(), output_dir: default_output_dir, fps: DEFAULT_FPS }
    }
}

/// What reading the settings file gave.
#[derive(Debug, PartialEq, Eq)]
pub enum StoredSettings {
    /// The file was read and parsed into these settings.
    Parsed(Settings),
    /// The file was read but could not be parsed; the parser's error.
    Unparsable(String),
    /// There is no settings file.
    Missing,
    /// The file could not be read; the error.
    Unreadable(String),
}

/// What to do once the settings file was read.
#[derive(Debug, PartialEq, Eq)]
pub enum SettingsLoad {
    /// Use these settings.
    Loaded(Settings),
    /// Write first-run settings (from the older language file) and use them.
    StartFresh,
    /// The settings cannot be used, for this reason.
    Failed(String),
}

/// The reason given where the settings file at `path` could not be read.
pub open spec fn read_error_message(path: Seq<char>, error: Seq<char>) -> Seq<char> {
    "Could not read "@ + path + ": "@ + error
}

fn read_error(path: &str, error: &str) -> (r: String)
    ensures
        r@ == read_error_message(path@, error@),
{
    let mut s = "Could not read ".to_owned();
    s.append(path);
    s.append(": ");
    s.append(error);
    s
}

/// Decides on the settings from what reading the settings file at `path`
/// gave: parsed settings are used where they are valid, else their
/// validation error is the reason; a file that could not be parsed or read
/// fails with "Could not read {path}: {error}"; with no file, first-run
/// settings are written.
pub fn settings_load_step(path: &str, stored: StoredSettings) -> (r: SettingsLoad)
    ensures
        match stored {
            StoredSettings::Parsed(s) => match s.validation_error() {
                None => r == SettingsLoad::Loaded(s),
                Some(e) => r matches SettingsLoad::Failed(m) && m@ == e,
            },
            StoredSettings::Unparsable(e) => r matches SettingsLoad::Failed(m) && m@
                == read_error_message(path@, e@),
            StoredSettings::Missing => r == SettingsLoad::StartFresh,
            StoredSettings::Unreadable(e) => r matches SettingsLoad::Failed(m) && m@
                == read_error_message(path@, e@),
        },
{
    match stored {
        StoredSettings::Parsed(s) => match s.validate() {
            Ok(()) => SettingsLoad::Loaded(s),
            Err(e) => SettingsLoad::Failed(e),
        },
        StoredSettings::Unparsable(e) => SettingsLoad::Failed(read_error(path, e.as_str())),
        StoredSettings::Missing => SettingsLoad::StartFresh,
        StoredSettings::Unreadable(e) => SettingsLoad::Failed(read_error(path, e.as_str())),
    }
}

} // verus!
