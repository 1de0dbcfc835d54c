use sunsama_shell::haptics::{
    trigger_haptic, HapticFeedback, HapticType, ImpactFeedbackStyle, NotificationFeedbackType,
};
use sunsama_shell::notifications::{
    notification_shown, request_notification_permission, set_badge_count, show_notification,
    CapabilityError, Notification, NotificationOptions, PermissionState,
};
use sunsama_shell::platform::{get_platform, is_desktop, is_mobile};
use sunsama_shell::text::same_text;

#[test]
fn notification_shows_title_and_body() {
    let options = NotificationOptions {
        title: "Stand-up".to_string(),
        body: Some("In five minutes".to_string()),
        action_type_id: Some("meeting".to_string()),
    };
    assert_eq!(
        show_notification(options),
        Notification { title: "Stand-up".to_string(), body: Some("In five minutes".to_string()) }
    );
}

#[test]
fn notification_without_a_body_has_none() {
    let options =
        NotificationOptions { title: "Done".to_string(), body: None, action_type_id: None };
    assert_eq!(show_notification(options), Notification { title: "Done".to_string(), body: None });
    let options = NotificationOptions {
        title: String::new(),
        body: Some(String::new()),
        action_type_id: None,
    };
    assert_eq!(
        show_notification(options),
        Notification { title: String::new(), body: Some(String::new()) }
    );
}

#[test]
fn notification_failure_is_reported_with_a_prefix() {
    assert_eq!(notification_shown(Ok(())), Ok(()));
    assert_eq!(
        notification_shown(Err("not permitted".to_string())),
        Err("Failed to show notification: not permitted".to_string())
    );
    assert_eq!(
        notification_shown(Err(String::new())),
        Err("Failed to show notification: ".to_string())
    );
}

#[test]
fn only_a_grant_permits_notifications() {
    assert_eq!(request_notification_permission(Ok(PermissionState::Granted)), Ok(true));
    assert_eq!(request_notification_permission(Ok(PermissionState::Denied)), Ok(false));
    assert_eq!(request_notification_permission(Ok(PermissionState::Undetermined)), Ok(false));
    assert_eq!(
        request_notification_permission(Err("no service".to_string())),
        Err("no service".to_string())
    );
}

#[test]
fn badge_count_is_unsupported() {
    for count in [0, 1, 99, u32::MAX] {
        assert_eq!(set_badge_count(count), Err(CapabilityError::Unsupported));
    }
}

#[test]
fn haptic_kinds_map_to_their_calls() {
    assert_eq!(
        trigger_haptic(HapticType::Light),
        HapticFeedback::Impact { style: ImpactFeedbackStyle::Light }
    );
    assert_eq!(
        trigger_haptic(HapticType::Medium),
        HapticFeedback::Impact { style: ImpactFeedbackStyle::Medium }
    );
    assert_eq!(
        trigger_haptic(HapticType::Heavy),
        HapticFeedback::Impact { style: ImpactFeedbackStyle::Heavy }
    );
    assert_eq!(trigger_haptic(HapticType::Selection), HapticFeedback::Selection);
    assert_eq!(
        trigger_haptic(HapticType::Success),
        HapticFeedback::Notification { kind: NotificationFeedbackType::Success }
    );
    assert_eq!(
        trigger_haptic(HapticType::Warning),
        HapticFeedback::Notification { kind: NotificationFeedbackType::Warning }
    );
    assert_eq!(
        trigger_haptic(HapticType::Error),
        HapticFeedback::Notification { kind: NotificationFeedbackType::Error }
    );
}

#[test]
fn haptic_kinds_do_not_share_a_call() {
    let kinds = [
        HapticType::Light,
        HapticType::Medium,
        HapticType::Heavy,
        HapticType::Selection,
        HapticType::Success,
        HapticType::Warning,
        HapticType::Error,
    ];
    for a in kinds {
        for b in kinds {
            assert_eq!(trigger_haptic(a) == trigger_haptic(b), a == b);
        }
    }
}

#[test]
fn mobile_platforms_are_android_and_ios() {
    assert!(is_mobile("android"));
    assert!(is_mobile("ios"));
    for other in ["linux", "macos", "windows", "", "Android", "iOS", "ios ", "androi"] {
        assert!(!is_mobile(other));
    }
    assert!(is_desktop());
}

#[test]
fn platform_is_named_on_mobile_only() {
    assert_eq!(get_platform("android"), "android");
    assert_eq!(get_platform("ios"), "ios");
    assert_eq!(get_platform("linux"), "unknown");
    assert_eq!(get_platform("macos"), "unknown");
    assert_eq!(get_platform(""), "unknown");
    assert_eq!(get_platform("unknown"), "unknown");
}

#[test]
fn same_text_compares_characters() {
    assert!(same_text("", ""));
    assert!(same_text("reload", "reload"));
    assert!(!same_text("reload", "reloaD"));
    assert!(!same_text("reload", "reloa"));
    assert!(!same_text("reload", "reloads"));
    assert!(!same_text("", "a"));
    assert!(same_text("caf\u{e9}", "caf\u{e9}"));
    assert!(!same_text("caf\u{e9}", "cafe\u{301}"));
    assert!(!same_text("\u{1f600}", "\u{1f601}"));
}
