use snx_platform::error::PlatformError;
use snx_platform::notification::{notification_result, send_notification, NotificationCall};

#[test]
fn connection_error_notification() {
    let call = send_notification("Connection error", "details");
    assert_eq!(
        call,
        NotificationCall {
            app_name: String::from("SNX-RS VPN client"),
            replaces_id: 0,
            app_icon: String::from("emblem-error"),
            summary: String::from("Connection error"),
            body: String::from("details"),
            actions: Vec::new(),
            hints: Vec::new(),
            expire_timeout: 10000,
        }
    );
}

#[test]
fn notification_keeps_summary_and_body_apart() {
    let call = send_notification("", "only a body");
    assert_eq!(call.summary, "");
    assert_eq!(call.body, "only a body");
    assert_eq!(call.replaces_id, 0);
    assert_eq!(call.expire_timeout, 10000);
    assert!(call.actions.is_empty());
    assert!(call.hints.is_empty());
}

#[test]
fn unreachable_service_is_notification_failed() {
    assert_eq!(notification_result(None), Err(PlatformError::NotificationFailed));
}

#[test]
fn delivered_notification_is_success() {
    assert_eq!(notification_result(Some(0)), Ok(()));
    assert_eq!(notification_result(Some(42)), Ok(()));
    assert_eq!(notification_result(Some(u32::MAX)), Ok(()));
}
