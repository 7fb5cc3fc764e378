use std::cell::Cell;

use workspace_notifications::adapter::notify_err;
use workspace_notifications::message::{MessageNotification, Toast};
use workspace_notifications::tracker::NotificationTracker;
use workspace_notifications::workspace::{Workspace, MESSAGE_NOTIFICATION_KIND};

#[test]
fn new_workspace_has_no_notifications() {
    let workspace = Workspace::new();
    assert_eq!(workspace.iterate().len(), 0);
}

#[test]
fn show_appends_in_insertion_order() {
    let mut workspace = Workspace::new();
    workspace.show_notification(1, 1, MessageNotification::new("A".to_string()));
    workspace.show_notification(2, 2, MessageNotification::new("B".to_string()));
    workspace.show_notification(3, 3, MessageNotification::new("C".to_string()));
    let active = workspace.iterate();
    assert_eq!(active.len(), 3);
    assert_eq!(active[0].handle.message, "A");
    assert_eq!(active[1].handle.message, "B");
    assert_eq!(active[2].handle.message, "C");
}

#[test]
fn show_duplicate_key_keeps_first_and_discards_second() {
    let mut workspace = Workspace::new();
    workspace.show_notification(7, 1, MessageNotification::new("first".to_string()));
    workspace.show_notification(7, 1, MessageNotification::new("second".to_string()));
    let active = workspace.iterate();
    assert_eq!(active.len(), 1);
    assert_eq!(active[0].kind, 7);
    assert_eq!(active[0].id, 1);
    assert_eq!(active[0].handle.message, "first");
    for entry in active.iter() {
        assert_ne!(entry.handle.message, "second");
    }
}

#[test]
fn distinct_kinds_never_collide_on_one_id() {
    let mut workspace = Workspace::new();
    workspace.show_notification(1, 9, MessageNotification::new("A".to_string()));
    workspace.show_notification(2, 9, MessageNotification::new("B".to_string()));
    assert_eq!(workspace.iterate().len(), 2);
}

#[test]
fn dismiss_removes_matching_entry() {
    let mut workspace = Workspace::new();
    workspace.show_notification(4, 2, MessageNotification::new("gone".to_string()));
    workspace.dismiss_notification(4, 2);
    let active = workspace.iterate();
    for entry in active.iter() {
        assert!(!(entry.kind == 4 && entry.id == 2));
    }
    assert_eq!(active.len(), 0);
}

#[test]
fn dismiss_missing_key_is_a_noop() {
    let mut workspace = Workspace::new();
    workspace.show_notification(4, 2, MessageNotification::new("stays".to_string()));
    workspace.dismiss_notification(4, 3);
    workspace.dismiss_notification(5, 2);
    let active = workspace.iterate();
    assert_eq!(active.len(), 1);
    assert_eq!(active[0].handle.message, "stays");
}

#[test]
fn once_shown_persists_after_dismiss() {
    let mut workspace = Workspace::new();
    let mut tracker = NotificationTracker::new();
    assert!(!workspace.has_shown_notification_once(&tracker, 2, 9));
    workspace.show_notification_once(&mut tracker, 2, 9, || {
        MessageNotification::new("once".to_string())
    });
    assert!(workspace.has_shown_notification_once(&tracker, 2, 9));
    workspace.dismiss_notification(2, 9);
    assert_eq!(workspace.iterate().len(), 0);
    assert!(workspace.has_shown_notification_once(&tracker, 2, 9));
}

#[test]
fn second_show_once_never_runs_the_builder() {
    let mut workspace = Workspace::new();
    let mut tracker = NotificationTracker::new();
    let builds = Cell::new(0);
    workspace.show_notification_once(&mut tracker, 2, 9, || {
        builds.set(builds.get() + 1);
        MessageNotification::new("once".to_string())
    });
    assert_eq!(builds.get(), 1);
    assert_eq!(workspace.iterate().len(), 1);
    workspace.show_notification_once(&mut tracker, 2, 9, || {
        builds.set(builds.get() + 1);
        MessageNotification::new("again".to_string())
    });
    assert_eq!(builds.get(), 1);
    assert_eq!(workspace.iterate().len(), 1);
    assert_eq!(workspace.iterate()[0].handle.message, "once");
}

#[test]
fn show_once_under_other_kind_still_builds() {
    let mut workspace = Workspace::new();
    let mut tracker = NotificationTracker::new();
    workspace.show_notification_once(&mut tracker, 2, 9, || {
        MessageNotification::new("kind two".to_string())
    });
    workspace.show_notification_once(&mut tracker, 3, 9, || {
        MessageNotification::new("kind three".to_string())
    });
    assert!(workspace.has_shown_notification_once(&tracker, 2, 9));
    assert!(workspace.has_shown_notification_once(&tracker, 3, 9));
    assert!(!workspace.has_shown_notification_once(&tracker, 2, 8));
    assert_eq!(workspace.iterate().len(), 2);
}

#[test]
fn toast_with_same_id_replaces_not_stacks() {
    let mut workspace = Workspace::new();
    workspace.show_toast(Toast { id: 5, msg: "A".to_string(), on_click: None });
    workspace.show_toast(Toast { id: 5, msg: "B".to_string(), on_click: None });
    let active = workspace.iterate();
    assert_eq!(active.len(), 1);
    assert_eq!(active[0].kind, MESSAGE_NOTIFICATION_KIND);
    assert_eq!(active[0].id, 5);
    assert_eq!(active[0].handle.message, "B");
}

#[test]
fn toast_click_action_is_carried() {
    let mut workspace = Workspace::new();
    workspace.show_toast(Toast {
        id: 6,
        msg: "saved".to_string(),
        on_click: Some(("Open".to_string(), 42)),
    });
    let active = workspace.iterate();
    assert_eq!(active.len(), 1);
    assert_eq!(active[0].handle.message, "saved");
    assert_eq!(active[0].handle.click_message, Some("Open".to_string()));
    assert_eq!(active[0].handle.on_click_action, Some(42));
}

#[test]
fn dismiss_toast_removes_the_toast() {
    let mut workspace = Workspace::new();
    workspace.show_toast(Toast { id: 5, msg: "A".to_string(), on_click: None });
    workspace.dismiss_toast(5);
    assert_eq!(workspace.iterate().len(), 0);
}

#[test]
fn show_error_is_one_prefixed_entry_at_id_zero() {
    let mut workspace = Workspace::new();
    workspace.show_error("SomeError");
    let active = workspace.iterate();
    assert_eq!(active.len(), 1);
    assert_eq!(active[0].kind, MESSAGE_NOTIFICATION_KIND);
    assert_eq!(active[0].id, 0);
    assert_eq!(active[0].handle.message, "Error: SomeError");
    assert!(active[0].handle.message.starts_with("Error: "));
}

#[test]
fn second_error_replaces_the_first() {
    let mut workspace = Workspace::new();
    workspace.show_error("SomeError");
    workspace.show_error("OtherError");
    let active = workspace.iterate();
    assert_eq!(active.len(), 1);
    assert_eq!(active[0].kind, MESSAGE_NOTIFICATION_KIND);
    assert_eq!(active[0].id, 0);
    assert_eq!(active[0].handle.message, "Error: OtherError");
}

#[test]
fn dismissal_signal_removes_entry_and_keeps_others() {
    let mut workspace = Workspace::new();
    workspace.show_toast(Toast { id: 1, msg: "left".to_string(), on_click: None });
    workspace.show_toast(Toast { id: 2, msg: "middle".to_string(), on_click: None });
    workspace.show_toast(Toast { id: 3, msg: "right".to_string(), on_click: None });
    // The middle toast emits its dismissal signal; the subscription made at
    // show time delivers it as a dismissal of that entry's key.
    workspace.dismiss_notification(MESSAGE_NOTIFICATION_KIND, 2);
    let active = workspace.iterate();
    assert_eq!(active.len(), 2);
    assert_eq!(active[0].handle.message, "left");
    assert_eq!(active[1].handle.message, "right");
}

#[test]
fn insertion_order_preserved_after_dismissing_middle() {
    let mut workspace = Workspace::new();
    workspace.show_notification(10, 1, MessageNotification::new("A".to_string()));
    workspace.show_notification(11, 2, MessageNotification::new("B".to_string()));
    workspace.show_notification(12, 3, MessageNotification::new("C".to_string()));
    workspace.dismiss_notification(11, 2);
    let active = workspace.iterate();
    assert_eq!(active.len(), 2);
    assert_eq!(active[0].handle.message, "A");
    assert_eq!(active[0].id, 1);
    assert_eq!(active[1].handle.message, "C");
    assert_eq!(active[1].id, 3);
}

#[test]
fn tracker_records_and_reports_per_kind() {
    let mut tracker = NotificationTracker::new();
    assert!(!tracker.has_shown(1, 7));
    tracker.record_shown(1, 7);
    assert!(tracker.has_shown(1, 7));
    assert!(!tracker.has_shown(2, 7));
    assert!(!tracker.has_shown(1, 8));
    tracker.record_shown(2, 7);
    assert!(tracker.has_shown(2, 7));
    assert!(tracker.has_shown(1, 7));
}

#[test]
fn message_notification_builders_fill_fields() {
    let plain = MessageNotification::new("hello".to_string());
    assert_eq!(plain.message, "hello");
    assert_eq!(plain.click_message, None);
    assert_eq!(plain.on_click_action, None);
    let clickable = MessageNotification::new("hello".to_string())
        .with_click_message("Undo".to_string())
        .on_click(9);
    assert_eq!(clickable.message, "hello");
    assert_eq!(clickable.click_message, Some("Undo".to_string()));
    assert_eq!(clickable.on_click_action, Some(9));
}

#[test]
fn notify_err_passes_ok_through_untouched() {
    let mut workspace = Workspace::new();
    let handled = notify_err(Ok::<u32, String>(17), &mut workspace);
    assert_eq!(handled, Some(17));
    assert_eq!(workspace.iterate().len(), 0);
}

#[test]
fn notify_err_sinks_failure_into_error_notification() {
    let mut workspace = Workspace::new();
    let handled = notify_err(Err::<u32, String>("disk full".to_string()), &mut workspace);
    assert_eq!(handled, None);
    let active = workspace.iterate();
    assert_eq!(active.len(), 1);
    assert_eq!(active[0].kind, MESSAGE_NOTIFICATION_KIND);
    assert_eq!(active[0].id, 0);
    assert_eq!(active[0].handle.message, "Error: disk full");
}
