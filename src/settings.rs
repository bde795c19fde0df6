//! Capture settings, their validation and defaults, and the application-wide
//! settings record.

use vstd::prelude::*;

verus! {

pub const MIN_PAGE_TURN_DELAY_MS: u32 = 500;

pub const MAX_PAGE_TURN_DELAY_MS: u32 = 10000;

pub const MAX_CAPTURE_ATTEMPTS: u32 = 10;

/// The encoding of captured images.
#[derive(Debug, Clone, Copy, PartialEq, Eq, Structural)]
pub enum ImageFormat {
    PNG { compression_level: u8 },
}

/// The global shortcuts of the capture commands.
#[derive(Debug, Clone)]
pub struct KeyboardShortcuts {
    pub start_capture: String,
    pub pause_capture: String,
    pub stop_capture: String,
    pub emergency_stop: String,
}

/// Where and how captured files are stored.
#[derive(Debug, Clone)]
pub struct StorageSettings {
    pub base_directory: String,
    pub organize_by_date: bool,
    pub max_disk_usage_mb: Option<u64>,
    pub cleanup_failed_sessions: bool,
}

/// The settings that a session is created with.
#[derive(Debug, Clone)]
pub struct CaptureSettings {
    pub page_turn_delay_ms: u32,
    pub screenshot_format: ImageFormat,
    pub filename_pattern: String,
    pub auto_detect_completion: bool,
    pub max_capture_attempts: u32,
    pub keyboard_shortcuts: KeyboardShortcuts,
    pub storage_settings: StorageSettings,
}

/// The settings that a session accepts: delay in [500, 10000] ms, attempts in
/// [1, 10], a filename pattern that is not empty.
pub open spec fn settings_valid(s: CaptureSettings) -> bool {
    &&& MIN_PAGE_TURN_DELAY_MS <= s.page_turn_delay_ms <= MAX_PAGE_TURN_DELAY_MS
    &&& 1 <= s.max_capture_attempts <= MAX_CAPTURE_ATTEMPTS
    &&& s.filename_pattern@.len() > 0
}

pub open spec fn delay_message() -> Seq<char> {
    "Page turn delay must be between 500ms and 10,000ms"@
}

pub open spec fn attempts_message() -> Seq<char> {
    "Max capture attempts must be between 1 and 10"@
}

pub open spec fn pattern_message() -> Seq<char> {
    "Filename pattern cannot be empty"@
}

/// The message that `validate` gives for settings, checked in order: delay,
/// attempts, pattern.
pub open spec fn validation_message(s: CaptureSettings) -> Seq<char> {
    if !(MIN_PAGE_TURN_DELAY_MS <= s.page_turn_delay_ms <= MAX_PAGE_TURN_DELAY_MS) {
        delay_message()
    } else if !(1 <= s.max_capture_attempts <= MAX_CAPTURE_ATTEMPTS) {
        attempts_message()
    } else {
        pattern_message()
    }
}

/// How paths are written on the target platform.
#[derive(Debug, Clone, Copy, PartialEq, Eq, Structural)]
pub enum PathStyle {
    /// `/` separates components.
    Unix,
    /// `\` separates components, and `/` is read as a separator too.
    Windows,
}

pub open spec fn is_separator(style: PathStyle, c: char) -> bool {
    c == '/' || (style is Windows && c == '\\')
}

pub open spec fn separator_text(style: PathStyle) -> Seq<char> {
    match style {
        PathStyle::Unix => "/"@,
        PathStyle::Windows => "\\"@,
    }
}

/// A relative `name` appended to the folder `d` as a path component: a
/// separator goes between them unless `d` is empty or already ends in one.
/// (A bare Windows drive such as `C:` is treated as any other folder.)
pub open spec fn joined(style: PathStyle, d: Seq<char>, name: Seq<char>) -> Seq<char> {
    if d.len() == 0 || is_separator(style, d.last()) {
        d + name
    } else {
        d + separator_text(style) + name
    }
}

/// `BookScreenshots` inside the documents folder, or inside `~/Documents`
/// where there is none.
pub open spec fn default_base_directory(style: PathStyle, documents: Option<Seq<char>>) -> Seq<char> {
    match documents {
        Some(d) => joined(style, d, "BookScreenshots"@),
        None => joined(style, "~/Documents"@, "BookScreenshots"@),
    }
}

/// Appends `BookScreenshots` to a folder as a path component.
fn join_book_screenshots(style: PathStyle, d: String) -> (r: String)
    ensures
        r@ == joined(style, d@, "BookScreenshots"@),
{
    proof {
        reveal_strlit("BookScreenshots");
        reveal_strlit("/");
        reveal_strlit("\\");
    }
    let n = d.as_str().unicode_len();
    let ends_in_sep = n > 0 && {
        let c = d.as_str().get_char(n - 1);
        c == '/' || (matches!(style, PathStyle::Windows) && c == '\\')
    };
    if n == 0 || ends_in_sep {
        d.concat("BookScreenshots")
    } else {
        let sep = match style {
            PathStyle::Unix => "/",
            PathStyle::Windows => "\\",
        };
        d.concat(sep).concat("BookScreenshots")
    }
}

impl CaptureSettings {
    /// Checks the settings; the error names the first rule broken.
    pub fn validate(&self) -> (r: Result<(), String>)
        ensures
            r is Ok <==> settings_valid(*self),
            r matches Err(m) ==> m@ == validation_message(*self),
    {
        if self.page_turn_delay_ms < MIN_PAGE_TURN_DELAY_MS || self.page_turn_delay_ms > MAX_PAGE_TURN_DELAY_MS {
            proof { reveal_strlit("Page turn delay must be between 500ms and 10,000ms"); }
            return Err("Page turn delay must be between 500ms and 10,000ms".to_string());
        }
        if self.max_capture_attempts == 0 || self.max_capture_attempts > MAX_CAPTURE_ATTEMPTS {
            proof { reveal_strlit("Max capture attempts must be between 1 and 10"); }
            return Err("Max capture attempts must be between 1 and 10".to_string());
        }
        if self.filename_pattern.as_str().is_empty() {
            proof { reveal_strlit("Filename pattern cannot be empty"); }
            return Err("Filename pattern cannot be empty".to_string());
        }
        Ok(())
    }
}

impl Default for KeyboardShortcuts {
    fn default() -> (r: Self)
        ensures
            r.start_capture@ == "CmdOrCtrl+Shift+S"@,
            r.pause_capture@ == "CmdOrCtrl+Shift+P"@,
            r.stop_capture@ == "CmdOrCtrl+Shift+Q"@,
            r.emergency_stop@ == "CmdOrCtrl+Shift+Escape"@,
    {
        KeyboardShortcuts {
            start_capture: "CmdOrCtrl+Shift+S".to_string(),
            pause_capture: "CmdOrCtrl+Shift+P".to_string(),
            stop_capture: "CmdOrCtrl+Shift+Q".to_string(),
            emergency_stop: "CmdOrCtrl+Shift+Escape".to_string(),
        }
    }
}

impl StorageSettings {
    /// Storage under `BookScreenshots` in the given documents folder (or in
    /// `~/Documents` where there is none), organised by date, capped at
    /// 10000 MB, cleaning up after failed sessions.
    pub fn with_documents_dir(documents: Option<String>, style: PathStyle) -> (r: Self)
        ensures
            r.base_directory@ == default_base_directory(
                style,
                match documents { Some(d) => Some(d@), None => None },
            ),
            r.organize_by_date,
            r.max_disk_usage_mb == Some(10000u64),
            r.cleanup_failed_sessions,
    {
        proof { reveal_strlit("~/Documents"); }
        let base = match documents {
            Some(d) => join_book_screenshots(style, d),
            None => join_book_screenshots(style, "~/Documents".to_string()),
        };
        StorageSettings {
            base_directory: base,
            organize_by_date: true,
            max_disk_usage_mb: Some(10000),
            cleanup_failed_sessions: true,
        }
    }
}

impl CaptureSettings {
    /// The default capture settings, storing under the given documents
    /// folder: a 2000 ms delay, PNG at level 6, completion detection on,
    /// 3 attempts per page, the default shortcuts.
    pub fn default_in(documents: Option<String>, style: PathStyle) -> (r: Self)
        ensures
            r.page_turn_delay_ms == 2000,
            r.screenshot_format == (ImageFormat::PNG { compression_level: 6 }),
            r.filename_pattern@ == "page_{page:04d}_{timestamp}.png"@,
            r.auto_detect_completion,
            r.max_capture_attempts == 3,
            r.keyboard_shortcuts.start_capture@ == "CmdOrCtrl+Shift+S"@,
            r.keyboard_shortcuts.pause_capture@ == "CmdOrCtrl+Shift+P"@,
            r.keyboard_shortcuts.stop_capture@ == "CmdOrCtrl+Shift+Q"@,
            r.keyboard_shortcuts.emergency_stop@ == "CmdOrCtrl+Shift+Escape"@,
            r.storage_settings.base_directory@ == default_base_directory(
                style,
                match documents { Some(d) => Some(d@), None => None },
            ),
            r.storage_settings.organize_by_date,
            r.storage_settings.max_disk_usage_mb == Some(10000u64),
            r.storage_settings.cleanup_failed_sessions,
            settings_valid(r),
    {
        proof { reveal_strlit("page_{page:04d}_{timestamp}.png"); }
        CaptureSettings {
            page_turn_delay_ms: 2000,
            screenshot_format: ImageFormat::PNG { compression_level: 6 },
            filename_pattern: "page_{page:04d}_{timestamp}.png".to_string(),
            auto_detect_completion: true,
            max_capture_attempts: 3,
            keyboard_shortcuts: KeyboardShortcuts::default(),
            storage_settings: StorageSettings::with_documents_dir(documents, style),
        }
    }
}

/// Colour scheme of the interface.
#[derive(Debug, Clone, Copy, PartialEq, Eq, Structural)]
pub enum Theme {
    Light,
    Dark,
    System,
}

/// Interface preferences.
#[derive(Debug, Clone, Copy, PartialEq, Eq, Structural)]
pub struct UIPreferences {
    pub theme: Theme,
    pub show_progress_notifications: bool,
    pub minimize_to_tray: bool,
    pub start_minimized: bool,
}

impl Default for UIPreferences {
    fn default() -> (r: Self)
        ensures
            r == (UIPreferences {
                theme: Theme::System,
                show_progress_notifications: true,
                minimize_to_tray: false,
                start_minimized: false,
            }),
    {
        UIPreferences {
            theme: Theme::System,
            show_progress_notifications: true,
            minimize_to_tray: false,
            start_minimized: false,
        }
    }
}

/// Whether, when and for which version the user accepted the terms.
#[derive(Debug, Clone)]
pub struct LegalConsent {
    pub has_accepted_terms: bool,
    pub acceptance_date: Option<i64>,
    pub version: String,
}

impl Default for LegalConsent {
    fn default() -> (r: Self)
        ensures
            !r.has_accepted_terms,
            r.acceptance_date is None,
            r.version@ == "1.0"@,
    {
        LegalConsent { has_accepted_terms: false, acceptance_date: None, version: "1.0".to_string() }
    }
}

impl LegalConsent {
    /// The consent recorded by the user's answer at time `now`: a date only
    /// when the terms were accepted.
    pub fn record(accepted: bool, version: String, now: i64) -> (r: Self)
        ensures
            r.has_accepted_terms == accepted,
            r.acceptance_date == (if accepted { Some(now) } else { None }),
            r.version@ == version@,
    {
        LegalConsent {
            has_accepted_terms: accepted,
            acceptance_date: if accepted { Some(now) } else { None },
            version,
        }
    }
}

/// The application settings record.
#[derive(Debug, Clone)]
pub struct AppSettings {
    pub default_capture_settings: CaptureSettings,
    pub global_shortcuts: KeyboardShortcuts,
    pub ui_preferences: UIPreferences,
    pub legal_consent: LegalConsent,
}

/// A partial update of capture settings: each field that is present replaces
/// the current one.
#[derive(Debug, Clone)]
pub struct SettingsPatch {
    pub page_turn_delay_ms: Option<u32>,
    pub screenshot_format: Option<ImageFormat>,
    pub filename_pattern: Option<String>,
    pub auto_detect_completion: Option<bool>,
    pub max_capture_attempts: Option<u32>,
    pub keyboard_shortcuts: Option<KeyboardShortcuts>,
    pub storage_settings: Option<StorageSettings>,
}

pub open spec fn pick<T>(o: Option<T>, d: T) -> T {
    match o {
        Some(v) => v,
        None => d,
    }
}

/// The settings after a patch: each field that the patch holds replaces the
/// current one.
pub open spec fn patched(s: CaptureSettings, p: SettingsPatch) -> CaptureSettings {
    CaptureSettings {
        page_turn_delay_ms: pick(p.page_turn_delay_ms, s.page_turn_delay_ms),
        screenshot_format: pick(p.screenshot_format, s.screenshot_format),
        filename_pattern: pick(p.filename_pattern, s.filename_pattern),
        auto_detect_completion: pick(p.auto_detect_completion, s.auto_detect_completion),
        max_capture_attempts: pick(p.max_capture_attempts, s.max_capture_attempts),
        keyboard_shortcuts: pick(p.keyboard_shortcuts, s.keyboard_shortcuts),
        storage_settings: pick(p.storage_settings, s.storage_settings),
    }
}

impl CaptureSettings {
    /// Applies a patch; the result is checked by the caller.
    pub fn apply_patch(self, p: SettingsPatch) -> (r: CaptureSettings)
        ensures
            r == patched(self, p),
    {
        let CaptureSettings {
            page_turn_delay_ms,
            screenshot_format,
            filename_pattern,
            auto_detect_completion,
            max_capture_attempts,
            keyboard_shortcuts,
            storage_settings,
        } = self;
        let SettingsPatch {
            page_turn_delay_ms: pd,
            screenshot_format: pf,
            filename_pattern: pp,
            auto_detect_completion: pa,
            max_capture_attempts: pm,
            keyboard_shortcuts: pk,
            storage_settings: ps,
        } = p;
        CaptureSettings {
            page_turn_delay_ms: match pd { Some(v) => v, None => page_turn_delay_ms },
            screenshot_format: match pf { Some(v) => v, None => screenshot_format },
            filename_pattern: match pp { Some(v) => v, None => filename_pattern },
            auto_detect_completion: match pa { Some(v) => v, None => auto_detect_completion },
            max_capture_attempts: match pm { Some(v) => v, None => max_capture_attempts },
            keyboard_shortcuts: match pk { Some(v) => v, None => keyboard_shortcuts },
            storage_settings: match ps { Some(v) => v, None => storage_settings },
        }
    }
}

impl KeyboardShortcuts {
    /// A copy equal to this one.
    pub fn duplicate(&self) -> (r: Self)
        ensures
            r == *self,
    {
        KeyboardShortcuts {
            start_capture: self.start_capture.clone(),
            pause_capture: self.pause_capture.clone(),
            stop_capture: self.stop_capture.clone(),
            emergency_stop: self.emergency_stop.clone(),
        }
    }
}

impl StorageSettings {
    /// A copy equal to this one.
    pub fn duplicate(&self) -> (r: Self)
        ensures
            r == *self,
    {
        StorageSettings {
            base_directory: self.base_directory.clone(),
            organize_by_date: self.organize_by_date,
            max_disk_usage_mb: self.max_disk_usage_mb,
            cleanup_failed_sessions: self.cleanup_failed_sessions,
        }
    }
}

impl CaptureSettings {
    /// A copy equal to this one.
    pub fn duplicate(&self) -> (r: Self)
        ensures
            r == *self,
    {
        CaptureSettings {
            page_turn_delay_ms: self.page_turn_delay_ms,
            screenshot_format: self.screenshot_format,
            filename_pattern: self.filename_pattern.clone(),
            auto_detect_completion: self.auto_detect_completion,
            max_capture_attempts: self.max_capture_attempts,
            keyboard_shortcuts: self.keyboard_shortcuts.duplicate(),
            storage_settings: self.storage_settings.duplicate(),
        }
    }
}

} // verus!
