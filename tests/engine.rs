use book_capture::control::{AutomationError, CaptureError, EngineEvent, LoopDecision, LoopInput};
use book_capture::export::{import_entries, ImportError};
use book_capture::model::{
    PageDirection, PermissionType, StrategyKind,
    AppTarget, AutomationStrategy, PermissionState, PermissionStatus, Screenshot, ScreenshotMetadata,
    SessionStatus,
};
use book_capture::registry::SessionRegistry;
use book_capture::session::{BookSession, EngineError};
use book_capture::settings::{
    PathStyle, CaptureSettings, ImageFormat, KeyboardShortcuts, LegalConsent, SettingsPatch, StorageSettings, Theme,
    UIPreferences,
};

fn target(window_id: u64) -> AppTarget {
    AppTarget {
        id: 7,
        app_name: "Reader".to_string(),
        bundle_identifier: "com.example.reader".to_string(),
        process_id: 42,
        window_id,
        window_title: "Book".to_string(),
        detection_time: 1_000,
        automation_strategy: AutomationStrategy::KeyboardEvents {
            page_forward_key: "Right".to_string(),
            page_backward_key: "Left".to_string(),
            modifier_keys: vec![],
        },
        last_interaction: 1_000,
        is_active: true,
    }
}

fn settings(max_attempts: u32, auto_detect: bool) -> CaptureSettings {
    CaptureSettings {
        page_turn_delay_ms: 1000,
        screenshot_format: ImageFormat::PNG { compression_level: 6 },
        filename_pattern: "page_{page}.png".to_string(),
        auto_detect_completion: auto_detect,
        max_capture_attempts: max_attempts,
        keyboard_shortcuts: KeyboardShortcuts::default(),
        storage_settings: StorageSettings::with_documents_dir(Some("/home/u/Documents".to_string()), PathStyle::Unix),
    }
}

fn shot(checksum: &str) -> Screenshot {
    Screenshot {
        id: 99,
        file_path: format!("/tmp/{}.png", checksum),
        page_number: 0,
        timestamp: 5_000,
        book_session_id: 0,
        file_size_bytes: 2048,
        image_width: 800,
        image_height: 600,
        capture_duration_ms: 100,
        metadata: ScreenshotMetadata {
            display_scale_percent: 200,
            color_space: "sRGB".to_string(),
            checksum: checksum.to_string(),
        },
    }
}

fn granted() -> PermissionStatus {
    PermissionStatus {
        screen_recording: PermissionState::Granted,
        accessibility: PermissionState::Granted,
        global_shortcuts: PermissionState::Granted,
    }
}

fn capturing_session(max_attempts: u32, auto_detect: bool) -> BookSession {
    let mut s = BookSession::new(1, "Book".to_string(), target(10), settings(max_attempts, auto_detect), 1_000).unwrap();
    s.start(1_000).unwrap();
    s
}

fn capture_page(s: &mut BookSession, checksum: &str, now: i64) -> LoopDecision {
    assert_eq!(s.step(LoopInput::Permissions(granted()), now).decision, LoopDecision::Proceed);
    assert_eq!(s.step(LoopInput::Target(true), now).decision, LoopDecision::Proceed);
    assert_eq!(s.step(LoopInput::Automation(Ok(20)), now).decision, LoopDecision::Proceed);
    s.step(LoopInput::Capture(Ok(shot(checksum))), now).decision
}

#[test]
fn default_settings_are_valid() {
    let d = CaptureSettings::default_in(Some("/home/u/Documents".to_string()), PathStyle::Unix);
    assert_eq!(d.page_turn_delay_ms, 2000);
    assert_eq!(d.max_capture_attempts, 3);
    assert!(d.auto_detect_completion);
    assert_eq!(d.filename_pattern, "page_{page:04d}_{timestamp}.png");
    assert_eq!(d.screenshot_format, ImageFormat::PNG { compression_level: 6 });
    assert!(d.validate().is_ok());
    assert_eq!(d.keyboard_shortcuts.emergency_stop, "CmdOrCtrl+Shift+Escape");
    assert_eq!(d.storage_settings.max_disk_usage_mb, Some(10_000));
    assert_eq!(d.storage_settings.base_directory, "/home/u/Documents/BookScreenshots");
}

#[test]
fn storage_base_directory() {
    let s = StorageSettings::with_documents_dir(Some("/home/u/Documents".to_string()), PathStyle::Unix);
    assert_eq!(s.base_directory, "/home/u/Documents/BookScreenshots");
    let t = StorageSettings::with_documents_dir(None, PathStyle::Unix);
    assert_eq!(t.base_directory, "~/Documents/BookScreenshots");
}

#[test]
fn validate_rejects_each_rule() {
    let mut s = settings(3, true);
    s.page_turn_delay_ms = 499;
    assert_eq!(s.validate(), Err("Page turn delay must be between 500ms and 10,000ms".to_string()));
    s.page_turn_delay_ms = 10_001;
    assert!(s.validate().is_err());
    s.page_turn_delay_ms = 500;
    assert!(s.validate().is_ok());
    s.page_turn_delay_ms = 10_000;
    assert!(s.validate().is_ok());
    s.max_capture_attempts = 0;
    assert_eq!(s.validate(), Err("Max capture attempts must be between 1 and 10".to_string()));
    s.max_capture_attempts = 11;
    assert!(s.validate().is_err());
    s.max_capture_attempts = 10;
    s.filename_pattern = String::new();
    assert_eq!(s.validate(), Err("Filename pattern cannot be empty".to_string()));
}

#[test]
fn other_defaults() {
    let u = UIPreferences::default();
    assert_eq!(u.theme, Theme::System);
    assert!(u.show_progress_notifications);
    let c = LegalConsent::default();
    assert!(!c.has_accepted_terms);
    assert_eq!(c.version, "1.0");
    let r = LegalConsent::record(true, "2.0".to_string(), 77);
    assert_eq!(r.acceptance_date, Some(77));
    assert_eq!(LegalConsent::record(false, "2.0".to_string(), 77).acceptance_date, None);
}

#[test]
fn creation_checks_settings_then_target() {
    let mut bad = settings(3, true);
    bad.max_capture_attempts = 0;
    assert!(matches!(BookSession::new(1, "B".to_string(), target(1), bad, 0), Err(EngineError::Validation(_))));
    let mut stale = target(1);
    stale.is_active = false;
    assert!(matches!(BookSession::new(1, "B".to_string(), stale, settings(3, true), 0), Err(EngineError::StaleTarget)));
    let s = BookSession::new(1, "B".to_string(), target(1), settings(3, true), 0).unwrap();
    assert_eq!(s.status, SessionStatus::WaitingForStart);
    assert!(s.can_be_started());
    assert!(!s.can_be_paused());
    assert!(!s.is_active());
}

#[test]
fn transitions_outside_the_table_are_refused() {
    let mut s = BookSession::new(1, "B".to_string(), target(1), settings(3, true), 0).unwrap();
    assert!(matches!(s.pause(1), Err(EngineError::InvalidState(SessionStatus::WaitingForStart))));
    assert!(matches!(s.resume(1), Err(EngineError::InvalidState(SessionStatus::WaitingForStart))));
    assert!(matches!(s.stop(1), Err(EngineError::InvalidState(SessionStatus::WaitingForStart))));
    let ev = s.start(2).unwrap();
    assert_eq!(ev.old_status, SessionStatus::WaitingForStart);
    assert_eq!(ev.new_status, SessionStatus::Capturing);
    assert!(s.start(3).is_err());
    s.pause(4).unwrap();
    assert_eq!(s.status, SessionStatus::Paused);
    s.resume(5).unwrap();
    assert_eq!(s.status, SessionStatus::Capturing);
    s.fail(6).unwrap();
    assert_eq!(s.status, SessionStatus::Failed);
    assert!(s.cancel(7).is_none());
    assert!(s.start(8).is_err());
    assert_eq!(s.status, SessionStatus::Failed);
    assert_eq!(s.end_time, Some(6));
}

#[test]
fn pages_never_go_backwards() {
    let mut s = capturing_session(3, false);
    let mut last = s.last_page_captured;
    for (k, sum) in ["a", "b", "c", "d"].iter().enumerate() {
        assert_eq!(capture_page(&mut s, sum, 2_000 + k as i64), LoopDecision::NextPage);
        assert!(s.last_page_captured > last);
        assert!(s.last_page_captured <= s.total_pages_captured);
        last = s.last_page_captured;
    }
    let pages: Vec<u32> = s.screenshots.iter().map(|x| x.page_number).collect();
    assert_eq!(pages, vec![1, 2, 3, 4]);
}

#[test]
fn pause_keeps_pages_and_resume_continues() {
    let mut s = capturing_session(3, false);
    capture_page(&mut s, "a", 2_000);
    capture_page(&mut s, "b", 3_000);
    // a capture in flight when the pause arrives is still recorded, once
    assert_eq!(s.step(LoopInput::Automation(Ok(5)), 3_500).decision, LoopDecision::Proceed);
    s.pause(3_600).unwrap();
    let out = s.step(LoopInput::Capture(Ok(shot("c"))), 3_700);
    assert_eq!(out.decision, LoopDecision::Halt);
    assert_eq!(s.last_page_captured, 3);
    assert_eq!(s.screenshots.len(), 3);
    assert_eq!(s.step(LoopInput::Permissions(granted()), 3_800).decision, LoopDecision::Halt);
    s.resume(4_000).unwrap();
    capture_page(&mut s, "d", 5_000);
    let pages: Vec<u32> = s.screenshots.iter().map(|x| x.page_number).collect();
    assert_eq!(pages, vec![1, 2, 3, 4]);
}

#[test]
fn stop_twice_returns_same_summary() {
    let mut s = capturing_session(3, false);
    capture_page(&mut s, "a", 61_000);
    let first = s.stop(61_000).unwrap();
    assert_eq!(s.status, SessionStatus::Cancelled);
    assert_eq!(first.total_duration_ms, 60_000);
    assert_eq!(first.pages_per_minute_milli, 1_000);
    assert_eq!(first.average_capture_time_ms, 100);
    assert_eq!(first.total_file_size_kb, 2);
    assert_eq!(first.error_rate_milli, 0);
    let second = s.stop(90_000).unwrap();
    assert_eq!(first, second);
    assert_eq!(s.end_time, Some(61_000));
}

#[test]
fn export_then_import_keeps_order_and_checksums() {
    let mut s = capturing_session(3, false);
    for (k, sum) in ["x1", "x2", "x3"].iter().enumerate() {
        capture_page(&mut s, sum, 2_000 + k as i64);
    }
    let entries = s.export_screenshots();
    let back = import_entries(&entries, s.id).unwrap();
    assert_eq!(back.len(), 3);
    for i in 0..3 {
        assert_eq!(back[i].page_number, s.screenshots[i].page_number);
        assert_eq!(back[i].metadata.checksum, s.screenshots[i].metadata.checksum);
        assert_eq!(back[i].book_session_id, s.id);
    }
    let mut swapped = s.export_screenshots();
    swapped.swap(0, 1);
    assert_eq!(import_entries(&swapped, s.id).unwrap_err(), ImportError::PageOrder(1));
}

#[test]
fn retry_then_success_on_page_five() {
    let mut s = capturing_session(3, false);
    for (k, sum) in ["c1", "c2", "c3", "c4"].iter().enumerate() {
        capture_page(&mut s, sum, 2_000 + k as i64);
    }
    let errors_before = s.error_count;
    let mut error_events = 0;
    for attempt in 1..=2u32 {
        let out = s.step(LoopInput::Automation(Err(AutomationError::Timeout)), 3_000);
        assert_eq!(out.decision, LoopDecision::RetryPage);
        assert_eq!(out.events.len(), 1);
        match &out.events[0] {
            EngineEvent::Error(e) => {
                assert_eq!(e.page_number, 5);
                assert_eq!(e.retry_attempt, attempt);
                assert_eq!(e.max_retries, 3);
                assert_eq!(e.error, "automation timed out");
            },
            _ => panic!("expected an error event"),
        }
        error_events += 1;
    }
    assert_eq!(s.step(LoopInput::Automation(Ok(30)), 3_100).decision, LoopDecision::Proceed);
    let out = s.step(LoopInput::Capture(Ok(shot("c5"))), 3_200);
    assert_eq!(out.decision, LoopDecision::NextPage);
    assert!(matches!(out.events[0], EngineEvent::Progress(_)));
    assert_eq!(error_events, 2);
    assert_eq!(s.last_page_captured, 5);
    assert_eq!(s.error_count, errors_before);
}

#[test]
fn permission_revoked_fails_session() {
    let mut s = capturing_session(3, false);
    capture_page(&mut s, "a", 2_000);
    let mut revoked = granted();
    revoked.screen_recording = PermissionState::Denied;
    let out = s.step(LoopInput::Permissions(revoked), 3_000);
    assert_eq!(out.decision, LoopDecision::Halt);
    assert_eq!(out.events.len(), 1);
    match &out.events[0] {
        EngineEvent::Status(e) => {
            assert_eq!(e.old_status, SessionStatus::Capturing);
            assert_eq!(e.new_status, SessionStatus::Failed);
        },
        _ => panic!("expected a status event"),
    }
    assert_eq!(s.status, SessionStatus::Failed);
    assert!(s.session_summary.is_some());
    let again = s.step(LoopInput::Automation(Ok(1)), 3_100);
    assert_eq!(again.decision, LoopDecision::Halt);
    assert!(again.events.is_empty());
    assert_eq!(s.step(LoopInput::Capture(Ok(shot("b"))), 3_200).decision, LoopDecision::Halt);
    assert_eq!(s.total_pages_captured, 1);
}

#[test]
fn emergency_stop_two_sessions() {
    let mut reg = SessionRegistry::new();
    let a = reg.create_session_with(11, 0, "A".to_string(), target(1), settings(3, true)).unwrap();
    let b = reg.create_session_with(12, 0, "B".to_string(), target(2), settings(3, true)).unwrap();
    reg.start_capture(a, 10).unwrap();
    reg.start_capture(b, 10).unwrap();
    reg.pause_capture(b, 20).unwrap();
    let stopped = reg.emergency_stop(30);
    assert_eq!(stopped, vec![11, 12]);
    for id in [a, b] {
        let s = reg.get_session(id).unwrap();
        assert_eq!(s.status, SessionStatus::Cancelled);
        assert!(s.session_summary.is_some());
        assert_eq!(s.end_time, Some(30));
    }
    assert!(reg.emergency_stop(40).is_empty());
}

#[test]
fn update_refused_while_capturing() {
    let mut reg = SessionRegistry::new();
    let id = reg.create_session_with(5, 0, "A".to_string(), target(1), settings(3, true)).unwrap();
    reg.start_capture(id, 1).unwrap();
    let patch = SettingsPatch {
        page_turn_delay_ms: Some(3000),
        screenshot_format: None,
        filename_pattern: None,
        auto_detect_completion: None,
        max_capture_attempts: None,
        keyboard_shortcuts: None,
        storage_settings: None,
    };
    assert!(matches!(reg.update_session(id, patch.clone()), Err(EngineError::Validation(_))));
    assert_eq!(reg.get_session(id).unwrap().settings.page_turn_delay_ms, 1000);
    assert_eq!(reg.get_session(id).unwrap().status, SessionStatus::Capturing);
    reg.pause_capture(id, 2).unwrap();
    reg.update_session(id, patch).unwrap();
    assert_eq!(reg.get_session(id).unwrap().settings.page_turn_delay_ms, 3000);
    let bad = SettingsPatch {
        page_turn_delay_ms: None,
        screenshot_format: None,
        filename_pattern: None,
        auto_detect_completion: None,
        max_capture_attempts: Some(0),
        keyboard_shortcuts: None,
        storage_settings: None,
    };
    assert!(matches!(reg.update_session(id, bad), Err(EngineError::Validation(_))));
    assert_eq!(reg.get_session(id).unwrap().settings.max_capture_attempts, 3);
}

#[test]
fn duplicate_checksums_complete_session() {
    let mut s = capturing_session(3, true);
    assert_eq!(capture_page(&mut s, "same", 2_000), LoopDecision::NextPage);
    let out = s.step(LoopInput::Capture(Ok(shot("same"))), 3_000);
    assert_eq!(out.decision, LoopDecision::Halt);
    assert_eq!(out.events.len(), 3);
    assert!(matches!(out.events[0], EngineEvent::Progress(_)));
    assert!(matches!(out.events[1], EngineEvent::Anomaly(_)));
    assert!(matches!(out.events[2], EngineEvent::Status(_)));
    assert_eq!(s.status, SessionStatus::Completed);
    assert!(s.session_summary.is_some());
    assert_eq!(s.step(LoopInput::Permissions(granted()), 3_100).decision, LoopDecision::Halt);
}

#[test]
fn estimated_total_completes_session() {
    let mut s = capturing_session(3, false);
    s.total_pages_estimated = Some(2);
    capture_page(&mut s, "a", 2_000);
    let out = s.step(LoopInput::Capture(Ok(shot("b"))), 3_000);
    assert_eq!(out.decision, LoopDecision::Halt);
    assert_eq!(s.status, SessionStatus::Completed);
}

#[test]
fn progress_event_figures() {
    let mut s = capturing_session(3, false);
    s.total_pages_estimated = Some(10);
    assert_eq!(capture_page(&mut s, "a", 61_000), LoopDecision::NextPage);
    let p = s.progress(61_000);
    assert_eq!(p.current_page, 1);
    assert_eq!(p.elapsed_time_ms, 60_000);
    assert_eq!(p.capture_rate_milli, 1_000);
    assert_eq!(p.estimated_remaining_ms, Some(540_000));
}

#[test]
fn quota_exceeded_fails_at_once() {
    let mut s = capturing_session(3, false);
    let out = s.step(LoopInput::Capture(Err(CaptureError::DiskWrite { quota_exceeded: true })), 2_000);
    assert_eq!(out.decision, LoopDecision::Halt);
    assert_eq!(s.status, SessionStatus::Failed);
}

#[test]
fn three_skipped_pages_fail_session() {
    let mut s = capturing_session(1, false);
    let e = CaptureError::EncodeFailure("bad frame".to_string());
    let first = s.step(LoopInput::Capture(Err(e.clone())), 2_000);
    assert_eq!(first.decision, LoopDecision::NextPage);
    assert_eq!(s.error_count, 1);
    match &first.events[0] {
        EngineEvent::Error(ev) => assert_eq!(ev.error, "bad frame"),
        _ => panic!("expected an error event"),
    }
    assert_eq!(s.step(LoopInput::Capture(Err(e.clone())), 2_100).decision, LoopDecision::NextPage);
    let third = s.step(LoopInput::Capture(Err(e)), 2_200);
    assert_eq!(third.decision, LoopDecision::Halt);
    assert_eq!(third.events.len(), 2);
    assert_eq!(s.status, SessionStatus::Failed);
    assert_eq!(s.error_count, 3);
}

#[test]
fn stale_target_fails_session() {
    let mut s = capturing_session(3, false);
    let out = s.step(LoopInput::Target(false), 2_000);
    assert_eq!(out.decision, LoopDecision::Halt);
    assert_eq!(s.status, SessionStatus::Failed);
}

#[test]
fn registry_lists_deletes_and_guards_windows() {
    let mut reg = SessionRegistry::new();
    reg.create_session_with(1, 0, "A".to_string(), target(1), settings(3, true)).unwrap();
    reg.create_session_with(2, 0, "B".to_string(), target(1), settings(3, true)).unwrap();
    reg.create_session_with(3, 0, "C".to_string(), target(2), settings(3, true)).unwrap();
    assert!(matches!(
        reg.create_session_with(3, 0, "D".to_string(), target(3), settings(3, true)),
        Err(EngineError::DuplicateId(3))
    ));
    reg.start_capture(1, 1).unwrap();
    assert!(matches!(reg.start_capture(2, 1), Err(EngineError::WindowBusy(1))));
    reg.start_capture(3, 1).unwrap();
    assert_eq!(reg.list_sessions(None, None, None), vec![1, 2, 3]);
    assert_eq!(reg.list_sessions(None, None, Some(SessionStatus::Capturing)), vec![1, 3]);
    assert_eq!(reg.list_sessions(Some(1), Some(1), None), vec![2]);
    assert_eq!(reg.list_sessions(Some(5), Some(2), None), vec![3]);
    assert!(reg.list_sessions(None, Some(9), None).is_empty());
    assert!(matches!(reg.delete_session(1), Err(EngineError::InvalidState(SessionStatus::Capturing))));
    assert!(matches!(reg.delete_session(8), Err(EngineError::NotFound(8))));
    reg.stop_capture(1, 5).unwrap();
    let removed = reg.delete_session(1).unwrap();
    assert_eq!(removed.id, 1);
    assert_eq!(reg.len(), 2);
    assert!(reg.get_session(1).is_none());
    reg.start_capture(2, 6).unwrap();
    let out = reg.apply_step(2, LoopInput::Permissions(granted()), 7).unwrap();
    assert_eq!(out.decision, LoopDecision::Proceed);
    assert!(reg.apply_step(9, LoopInput::Target(true), 7).is_err());
}

#[test]
fn error_texts() {
    assert_eq!(AutomationError::FocusLost.describe(), "target window lost focus");
    assert_eq!(AutomationError::ScriptFailed("boom".to_string()).describe(), "boom");
    assert_eq!(CaptureError::WindowUnavailable.describe(), "target window unavailable");
    assert_eq!(CaptureError::DiskWrite { quota_exceeded: false }.describe(), "disk write failed");
    assert_eq!(CaptureError::DiskWrite { quota_exceeded: true }.describe(), "disk quota exceeded");
}

#[test]
fn permission_lookup() {
    let mut p = granted();
    assert!(p.allows_capture());
    p.accessibility = PermissionState::NotDetermined;
    assert!(!p.allows_capture());
    assert_eq!(p.state_of(PermissionType::Accessibility), PermissionState::NotDetermined);
    assert!(SessionStatus::Cancelled.is_terminal());
    assert!(!SessionStatus::Paused.is_terminal());
}

#[test]
fn permission_gate_over_required_set() {
    let mut p = granted();
    p.global_shortcuts = PermissionState::Denied;
    assert!(p.grants_all(&vec![PermissionType::ScreenRecording, PermissionType::Accessibility]));
    assert!(!p.grants_all(&vec![PermissionType::ScreenRecording, PermissionType::GlobalShortcuts]));
    assert!(p.grants_all(&vec![]));
}

#[test]
fn strategy_commands_and_kinds() {
    let k = target(1).automation_strategy;
    assert_eq!(k.command(PageDirection::Forward), "Right");
    assert_eq!(k.command(PageDirection::Backward), "Left");
    assert_eq!(k.kind(), StrategyKind::KeyboardEvent);
    let a = AutomationStrategy::AccessibilityAPI { forward_action: "AXNext".to_string(), backward_action: "AXPrev".to_string() };
    assert_eq!(a.command(PageDirection::Backward), "AXPrev");
    assert_eq!(a.kind(), StrategyKind::Accessibility);
    let s = AutomationStrategy::AppleScript { forward_script: "fwd".to_string(), backward_script: "back".to_string() };
    assert_eq!(s.command(PageDirection::Forward), "fwd");
    assert_eq!(StrategyKind::from_name(&"appleScript".to_string()), Some(StrategyKind::AppleScript));
    assert_eq!(StrategyKind::from_name(&"keyboardEvent".to_string()), Some(StrategyKind::KeyboardEvent));
    assert_eq!(StrategyKind::from_name(&"accessibility".to_string()), Some(StrategyKind::Accessibility));
    assert_eq!(StrategyKind::from_name(&"mouse".to_string()), None);
}

#[test]
fn screenshots_by_session_paginated() {
    let mut reg = SessionRegistry::new();
    let id = reg.create_session_with(4, 0, "A".to_string(), target(1), settings(3, false)).unwrap();
    reg.start_capture(id, 1).unwrap();
    for (k, sum) in ["s1", "s2", "s3"].iter().enumerate() {
        let now = 10 + k as i64;
        reg.apply_step(id, LoopInput::Automation(Ok(1)), now).unwrap();
        let out = reg.apply_step(id, LoopInput::Capture(Ok(shot(sum))), now).unwrap();
        assert_eq!(out.decision, LoopDecision::NextPage);
    }
    let page = reg.get_screenshots(id, Some(2), Some(1)).unwrap();
    let pages: Vec<u32> = page.iter().map(|e| e.page_number).collect();
    assert_eq!(pages, vec![2, 3]);
    assert_eq!(page[0].checksum, "s2");
    assert_eq!(reg.get_screenshots(id, None, None).unwrap().len(), 3);
    assert!(matches!(reg.get_screenshots(77, None, None), Err(EngineError::NotFound(77))));
}

#[test]
fn repeated_checksum_raises_anomaly_without_completion() {
    let mut s = capturing_session(3, false);
    capture_page(&mut s, "same", 2_000);
    let out = s.step(LoopInput::Automation(Ok(1)), 3_000);
    assert_eq!(out.decision, LoopDecision::Proceed);
    let out = s.step(LoopInput::Capture(Ok(shot("same"))), 3_000);
    assert_eq!(out.decision, LoopDecision::NextPage);
    assert_eq!(out.events.len(), 2);
    match &out.events[1] {
        EngineEvent::Anomaly(a) => {
            assert_eq!(a.page_number, 2);
            assert_eq!(a.checksum, "same");
        },
        _ => panic!("expected an anomaly event"),
    }
    assert_eq!(s.status, SessionStatus::Capturing);
    let next = s.step(LoopInput::Capture(Ok(shot("other"))), 3_100);
    assert_eq!(next.events.len(), 1);
}

#[test]
fn failure_threshold_is_configurable() {
    let mut s = BookSession::new(1, "B".to_string(), target(1), settings(1, false), 0).unwrap();
    assert_eq!(s.failure_threshold, 3);
    assert!(matches!(s.set_failure_threshold(0), Err(EngineError::Validation(_))));
    s.set_failure_threshold(1).unwrap();
    s.start(1).unwrap();
    assert!(matches!(s.set_failure_threshold(5), Err(EngineError::Validation(_))));
    let out = s.step(LoopInput::Capture(Err(CaptureError::WindowUnavailable)), 2);
    assert_eq!(out.decision, LoopDecision::Halt);
    assert_eq!(s.status, SessionStatus::Failed);
}

#[test]
fn base_directory_has_one_separator() {
    let s = StorageSettings::with_documents_dir(Some("/home/u/Documents/".to_string()), PathStyle::Unix);
    assert_eq!(s.base_directory, "/home/u/Documents/BookScreenshots");
    let w = StorageSettings::with_documents_dir(Some("C:\\Users\\u\\".to_string()), PathStyle::Windows);
    assert_eq!(w.base_directory, "C:\\Users\\u\\BookScreenshots");
}

#[test]
fn paths_join_per_platform() {
    let u = StorageSettings::with_documents_dir(Some("/docs\\".to_string()), PathStyle::Unix);
    assert_eq!(u.base_directory, "/docs\\/BookScreenshots");
    let w = StorageSettings::with_documents_dir(Some("C:\\Users\\u".to_string()), PathStyle::Windows);
    assert_eq!(w.base_directory, "C:\\Users\\u\\BookScreenshots");
    let w2 = StorageSettings::with_documents_dir(Some("C:/Users/u/".to_string()), PathStyle::Windows);
    assert_eq!(w2.base_directory, "C:/Users/u/BookScreenshots");
    let n = StorageSettings::with_documents_dir(None, PathStyle::Windows);
    assert_eq!(n.base_directory, "~/Documents\\BookScreenshots");
    let e = StorageSettings::with_documents_dir(Some(String::new()), PathStyle::Unix);
    assert_eq!(e.base_directory, "BookScreenshots");
}

#[test]
fn patch_replaces_shortcuts_and_storage() {
    let mut s = BookSession::new(1, "B".to_string(), target(1), settings(3, true), 0).unwrap();
    let mut keys = KeyboardShortcuts::default();
    keys.emergency_stop = "F12".to_string();
    let patch = SettingsPatch {
        page_turn_delay_ms: None,
        screenshot_format: None,
        filename_pattern: None,
        auto_detect_completion: None,
        max_capture_attempts: None,
        keyboard_shortcuts: Some(keys),
        storage_settings: Some(StorageSettings::with_documents_dir(None, PathStyle::Unix)),
    };
    s.update_settings(patch).unwrap();
    assert_eq!(s.settings.keyboard_shortcuts.emergency_stop, "F12");
    assert_eq!(s.settings.storage_settings.base_directory, "~/Documents/BookScreenshots");
}
