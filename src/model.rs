//! Plain data types shared by the engine, the command surface and the events.
//!
//! Identifiers are 128-bit UUID values, timestamps are milliseconds since the
//! Unix epoch, and paths are strings.

use vstd::prelude::*;

verus! {

/// The lifecycle state of a capture session.
#[derive(Debug, Clone, Copy, PartialEq, Eq, Structural)]
pub enum SessionStatus {
    Initializing,
    WaitingForStart,
    Capturing,
    Paused,
    Completed,
    Cancelled,
    Failed,
}

impl SessionStatus {
    /// The three final states: no transition leaves them.
    pub open spec fn spec_is_terminal(self) -> bool {
        self is Completed || self is Cancelled || self is Failed
    }

    #[verifier::when_used_as_spec(spec_is_terminal)]
    pub fn is_terminal(self) -> (r: bool)
        ensures
            r == self.spec_is_terminal(),
    {
        match self {
            SessionStatus::Completed | SessionStatus::Cancelled | SessionStatus::Failed => true,
            _ => false,
        }
    }
}

/// One of the three values of an operating-system permission.
#[derive(Debug, Clone, Copy, PartialEq, Eq, Structural)]
pub enum PermissionState {
    Granted,
    Denied,
    NotDetermined,
}

/// The operating-system capabilities that the engine depends on.
#[derive(Debug, Clone, Copy, PartialEq, Eq, Structural)]
pub enum PermissionType {
    ScreenRecording,
    Accessibility,
    GlobalShortcuts,
}

/// A process-wide snapshot of the three permissions.
#[derive(Debug, Clone, Copy, PartialEq, Eq, Structural)]
pub struct PermissionStatus {
    pub screen_recording: PermissionState,
    pub accessibility: PermissionState,
    pub global_shortcuts: PermissionState,
}

impl PermissionStatus {
    pub open spec fn spec_state_of(self, t: PermissionType) -> PermissionState {
        match t {
            PermissionType::ScreenRecording => self.screen_recording,
            PermissionType::Accessibility => self.accessibility,
            PermissionType::GlobalShortcuts => self.global_shortcuts,
        }
    }

    /// The state of one permission in this snapshot.
    #[verifier::when_used_as_spec(spec_state_of)]
    pub fn state_of(self, t: PermissionType) -> (r: PermissionState)
        ensures
            r == self.spec_state_of(t),
    {
        match t {
            PermissionType::ScreenRecording => self.screen_recording,
            PermissionType::Accessibility => self.accessibility,
            PermissionType::GlobalShortcuts => self.global_shortcuts,
        }
    }

    /// What the capture loop needs: screen recording and accessibility.
    pub open spec fn spec_allows_capture(self) -> bool {
        self.screen_recording is Granted && self.accessibility is Granted
    }

    #[verifier::when_used_as_spec(spec_allows_capture)]
    pub fn allows_capture(self) -> (r: bool)
        ensures
            r == self.spec_allows_capture(),
    {
        matches!(self.screen_recording, PermissionState::Granted)
            && matches!(self.accessibility, PermissionState::Granted)
    }
}

impl PermissionStatus {
    /// Whether each permission in `required` is `Granted` in this snapshot.
    pub fn grants_all(&self, required: &Vec<PermissionType>) -> (r: bool)
        ensures
            r == forall|i: int| 0 <= i < required@.len() ==> self.spec_state_of(#[trigger] required@[i]) is Granted,
    {
        let mut i: usize = 0;
        while i < required.len()
            invariant
                i <= required@.len(),
                forall|j: int| 0 <= j < i ==> self.spec_state_of(#[trigger] required@[j]) is Granted,
            decreases required@.len() - i,
        {
            if !matches!(self.state_of(required[i]), PermissionState::Granted) {
                return false;
            }
            i = i + 1;
        }
        true
    }
}

/// The outcome of asking the operating system for permissions.
#[derive(Debug, Clone)]
pub struct PermissionRequestResult {
    pub success: bool,
    pub granted_permissions: Vec<PermissionType>,
    pub denied_permissions: Vec<PermissionType>,
    pub error: Option<String>,
}

/// Emitted when a permission changes state.
#[derive(Debug, Clone, Copy, PartialEq, Eq, Structural)]
pub struct PermissionChangeEvent {
    pub permission_type: PermissionType,
    pub old_state: PermissionState,
    pub new_state: PermissionState,
}

/// How the target application is told to turn a page: a closed set of
/// variants, each holding only the data it needs.
#[derive(Debug, Clone)]
pub enum AutomationStrategy {
    KeyboardEvents { page_forward_key: String, page_backward_key: String, modifier_keys: Vec<String> },
    AccessibilityAPI { forward_action: String, backward_action: String },
    AppleScript { forward_script: String, backward_script: String },
}

/// Which way a page turn goes.
#[derive(Debug, Clone, Copy, PartialEq, Eq, Structural)]
pub enum PageDirection {
    Forward,
    Backward,
}

/// The kind of an automation strategy, as the automation test names it.
#[derive(Debug, Clone, Copy, PartialEq, Eq, Structural)]
pub enum StrategyKind {
    KeyboardEvent,
    Accessibility,
    AppleScript,
}

pub open spec fn kind_name(k: StrategyKind) -> Seq<char> {
    match k {
        StrategyKind::KeyboardEvent => "keyboardEvent"@,
        StrategyKind::Accessibility => "accessibility"@,
        StrategyKind::AppleScript => "appleScript"@,
    }
}

impl StrategyKind {
    /// The kind named by an automation test, if the name is one of
    /// "keyboardEvent", "accessibility" and "appleScript".
    pub fn from_name(name: &String) -> (r: Option<StrategyKind>)
        ensures
            r matches Some(k) ==> kind_name(k) == name@,
            r is None ==> forall|k: StrategyKind| kind_name(k) != name@,
    {
        let keyboard = "keyboardEvent".to_string();
        let accessibility = "accessibility".to_string();
        let script = "appleScript".to_string();
        proof {
            reveal_strlit("keyboardEvent");
            reveal_strlit("accessibility");
            reveal_strlit("appleScript");
        }
        if *name == keyboard {
            Some(StrategyKind::KeyboardEvent)
        } else if *name == accessibility {
            Some(StrategyKind::Accessibility)
        } else if *name == script {
            Some(StrategyKind::AppleScript)
        } else {
            proof {
                assert forall|k: StrategyKind| kind_name(k) != name@ by {
                    match k {
                        StrategyKind::KeyboardEvent => assert(keyboard@ == kind_name(k)),
                        StrategyKind::Accessibility => assert(accessibility@ == kind_name(k)),
                        StrategyKind::AppleScript => assert(script@ == kind_name(k)),
                    }
                }
            }
            None
        }
    }
}

/// The key, action name or script that turns a page in a direction.
pub open spec fn command_of(s: AutomationStrategy, d: PageDirection) -> Seq<char> {
    match s {
        AutomationStrategy::KeyboardEvents { page_forward_key, page_backward_key, .. } => match d {
            PageDirection::Forward => page_forward_key@,
            PageDirection::Backward => page_backward_key@,
        },
        AutomationStrategy::AccessibilityAPI { forward_action, backward_action } => match d {
            PageDirection::Forward => forward_action@,
            PageDirection::Backward => backward_action@,
        },
        AutomationStrategy::AppleScript { forward_script, backward_script } => match d {
            PageDirection::Forward => forward_script@,
            PageDirection::Backward => backward_script@,
        },
    }
}

impl AutomationStrategy {
    /// The kind of this strategy.
    pub fn kind(&self) -> (r: StrategyKind)
        ensures
            (r is KeyboardEvent) == (self is KeyboardEvents),
            (r is Accessibility) == (self is AccessibilityAPI),
            (r is AppleScript) == (self is AppleScript),
    {
        match self {
            AutomationStrategy::KeyboardEvents { .. } => StrategyKind::KeyboardEvent,
            AutomationStrategy::AccessibilityAPI { .. } => StrategyKind::Accessibility,
            AutomationStrategy::AppleScript { .. } => StrategyKind::AppleScript,
        }
    }

    /// The key, action name or script that turns a page in direction `d`;
    /// for key events the modifier keys go with it.
    pub fn command(&self, d: PageDirection) -> (r: String)
        ensures
            r@ == command_of(*self, d),
    {
        match self {
            AutomationStrategy::KeyboardEvents { page_forward_key, page_backward_key, .. } => match d {
                PageDirection::Forward => page_forward_key.clone(),
                PageDirection::Backward => page_backward_key.clone(),
            },
            AutomationStrategy::AccessibilityAPI { forward_action, backward_action } => match d {
                PageDirection::Forward => forward_action.clone(),
                PageDirection::Backward => backward_action.clone(),
            },
            AutomationStrategy::AppleScript { forward_script, backward_script } => match d {
                PageDirection::Forward => forward_script.clone(),
                PageDirection::Backward => backward_script.clone(),
            },
        }
    }
}

/// The result of trying an automation strategy on a target.
#[derive(Debug, Clone)]
pub struct AutomationTestResult {
    pub success: bool,
    pub response_time_ms: u32,
    pub error: Option<String>,
    pub recommended_strategy: Option<AutomationStrategy>,
}

/// The application window that a session drives and captures.
#[derive(Debug, Clone)]
pub struct AppTarget {
    pub id: u128,
    pub app_name: String,
    pub bundle_identifier: String,
    pub process_id: u32,
    pub window_id: u64,
    pub window_title: String,
    pub detection_time: i64,
    pub automation_strategy: AutomationStrategy,
    pub last_interaction: i64,
    pub is_active: bool,
}

/// Display and content data of one captured image. The display scale is
/// held in hundredths (a scale of 2.0 is 200).
#[derive(Debug, Clone)]
pub struct ScreenshotMetadata {
    pub display_scale_percent: u32,
    pub color_space: String,
    pub checksum: String,
}

/// One captured page, owned by its session.
#[derive(Debug, Clone)]
pub struct Screenshot {
    pub id: u128,
    pub file_path: String,
    pub page_number: u32,
    pub timestamp: i64,
    pub book_session_id: u128,
    pub file_size_bytes: u64,
    pub image_width: u32,
    pub image_height: u32,
    pub capture_duration_ms: u32,
    pub metadata: ScreenshotMetadata,
}

/// Figures computed once when a session ends. Rates are held in thousandths:
/// `pages_per_minute_milli` is pages per minute times 1000, `error_rate_milli`
/// is errors per capture attempt times 1000, `total_file_size_kb` is the sum
/// of the file sizes in kibibytes, rounded down.
#[derive(Debug, Clone, Copy, PartialEq, Eq, Structural)]
pub struct SessionSummary {
    pub total_duration_ms: u64,
    pub pages_per_minute_milli: u64,
    pub average_capture_time_ms: u64,
    pub total_file_size_kb: u64,
    pub error_rate_milli: u64,
}

/// Severity of a system-level error report.
#[derive(Debug, Clone, Copy, PartialEq, Eq, Structural)]
pub enum ErrorSeverity {
    Info,
    Warning,
    Error,
    Critical,
}

/// A system-level error report.
#[derive(Debug, Clone)]
pub struct SystemError {
    pub id: u128,
    pub message: String,
    pub timestamp: i64,
    pub severity: ErrorSeverity,
}

/// A snapshot of the process: permissions, active sessions and resources.
#[derive(Debug, Clone)]
pub struct SystemStatus {
    pub version: String,
    pub platform: String,
    pub permissions: PermissionStatus,
    pub active_sessions: u32,
    pub disk_space_available: u64,
    pub memory_usage: u64,
    pub errors: Vec<SystemError>,
}

/// Progress of a running session. `capture_rate_milli` is pages per minute
/// times 1000.
#[derive(Debug, Clone, Copy, PartialEq, Eq, Structural)]
pub struct CaptureProgressEvent {
    pub session_id: u128,
    pub current_page: u32,
    pub total_pages: Option<u32>,
    pub elapsed_time_ms: u64,
    pub estimated_remaining_ms: Option<u64>,
    pub capture_rate_milli: u64,
}

/// One failed attempt at a page.
#[derive(Debug, Clone)]
pub struct CaptureErrorEvent {
    pub session_id: u128,
    pub page_number: u32,
    pub error: String,
    pub retry_attempt: u32,
    pub max_retries: u32,
}

/// Two consecutive captures of a session had the same checksum: the target
/// may have stopped turning pages.
#[derive(Debug, Clone)]
pub struct CaptureAnomalyEvent {
    pub session_id: u128,
    pub page_number: u32,
    pub checksum: String,
}

/// A change of a session's status.
#[derive(Debug, Clone, Copy, PartialEq, Eq, Structural)]
pub struct SessionStatusEvent {
    pub session_id: u128,
    pub old_status: SessionStatus,
    pub new_status: SessionStatus,
    pub timestamp: i64,
}

/// The success shape of a command result.
#[derive(Debug, Clone)]
pub struct CommandSuccess<T> {
    pub success: bool,
    pub data: Option<T>,
}

/// The failure shape of a command result.
#[derive(Debug, Clone)]
pub struct CommandError {
    pub success: bool,
    pub error: String,
}

/// Arguments of the session creation command.
#[derive(Debug, Clone)]
pub struct CreateSessionArgs {
    pub book_title: String,
    pub app_target_id: u128,
    pub settings: crate::settings::CaptureSettings,
}

/// Arguments of the session lookup command.
#[derive(Debug, Clone, Copy)]
pub struct GetSessionArgs {
    pub session_id: u128,
}

/// Arguments of the session update command: a partial settings update.
#[derive(Debug, Clone)]
pub struct UpdateSessionArgs {
    pub session_id: u128,
    pub settings: crate::settings::SettingsPatch,
}

/// Arguments of the session deletion command.
#[derive(Debug, Clone, Copy)]
pub struct DeleteSessionArgs {
    pub session_id: u128,
    pub delete_files: bool,
}

/// Arguments of the start command.
#[derive(Debug, Clone, Copy)]
pub struct StartCaptureArgs {
    pub session_id: u128,
}

/// Arguments of the pause command.
#[derive(Debug, Clone, Copy)]
pub struct PauseCaptureArgs {
    pub session_id: u128,
}

/// Arguments of the resume command.
#[derive(Debug, Clone, Copy)]
pub struct ResumeCaptureArgs {
    pub session_id: u128,
}

/// Arguments of the stop command.
#[derive(Debug, Clone, Copy)]
pub struct StopCaptureArgs {
    pub session_id: u128,
}

/// Arguments of the automation test command: the strategy kind is one of
/// "keyboardEvent", "accessibility" and "appleScript".
#[derive(Debug, Clone)]
pub struct TestAutomationArgs {
    pub app_target_id: u128,
    pub test_type: String,
}

/// Arguments of the screenshot listing command.
#[derive(Debug, Clone, Copy)]
pub struct GetScreenshotsArgs {
    pub session_id: u128,
    pub limit: Option<u32>,
    pub offset: Option<u32>,
}

/// Arguments of the screenshot deletion command.
#[derive(Debug, Clone)]
pub struct DeleteScreenshotsArgs {
    pub screenshot_ids: Vec<u128>,
}

/// Arguments of the export command: the format is one of "png", "jpeg" and
/// "pdf".
#[derive(Debug, Clone)]
pub struct ExportScreenshotsArgs {
    pub session_id: u128,
    pub output_directory: String,
    pub format: String,
    pub quality: Option<u8>,
}

/// Arguments of the application settings update: a partial capture
/// settings update.
#[derive(Debug, Clone)]
pub struct UpdateSettingsArgs {
    pub settings: crate::settings::SettingsPatch,
}

/// Arguments of the session listing command.
#[derive(Debug, Clone, Copy)]
pub struct ListSessionsArgs {
    pub limit: Option<u32>,
    pub offset: Option<u32>,
    pub status: Option<SessionStatus>,
}

/// Arguments of the application details command.
#[derive(Debug, Clone, Copy)]
pub struct GetAppDetailsArgs {
    pub process_id: u32,
}

/// Arguments of the permission request command.
#[derive(Debug, Clone)]
pub struct RequestPermissionsArgs {
    pub permission_types: Vec<PermissionType>,
}

/// Arguments of the legal consent command.
#[derive(Debug, Clone)]
pub struct RecordLegalConsentArgs {
    pub accepted: bool,
    pub version: String,
}

/// Result of exporting a session's screenshots.
#[derive(Debug, Clone)]
pub struct ExportScreenshotsResponse {
    pub success: bool,
    pub export_path: Option<String>,
    pub file_count: Option<u32>,
    pub error: Option<String>,
}

/// Result of a deletion command.
#[derive(Debug, Clone)]
pub struct DeleteResponse {
    pub success: bool,
    pub deleted_count: Option<u32>,
    pub error: Option<String>,
}

/// Result of stopping a session.
#[derive(Debug, Clone)]
pub struct StopCaptureResponse {
    pub success: bool,
    pub session_summary: Option<SessionSummary>,
    pub error: Option<String>,
}

/// Result of the emergency stop: the sessions it cancelled.
#[derive(Debug, Clone)]
pub struct EmergencyStopResponse {
    pub success: bool,
    pub stopped_sessions: Vec<u128>,
    pub error: Option<String>,
}

/// The legal disclaimer and its version.
#[derive(Debug, Clone)]
pub struct LegalDisclaimerResponse {
    pub disclaimer_text: String,
    pub version: String,
}

} // verus!
