//! The generic message-notification widget's value object, and the toast
//! description that maps onto it.
//!
//! A `MessageNotification` holds what the rendered widget displays: a message,
//! and optionally a labelled click action. Click actions are carried as opaque
//! action tokens; the surrounding application maps each token to the closure it
//! runs when the button is clicked, so the core never stores code.

use vstd::prelude::*;

verus! {

/// The displayable content of a generic message notification.
pub struct MessageNotification {
    /// The message text shown to the user.
    pub message: String,
    /// The label of the optional click button.
    pub click_message: Option<String>,
    /// The opaque token of the action run when the button is clicked.
    pub on_click_action: Option<u64>,
}

impl MessageNotification {
    /// A plain message notification with no click action.
    pub fn new(message: String) -> (n: MessageNotification)
        ensures
            n.message == message,
            n.click_message is None,
            n.on_click_action is None,
    {
        MessageNotification { message, click_message: None, on_click_action: None }
    }

    /// The same notification with the click button labelled `message`.
    pub fn with_click_message(self, message: String) -> (n: MessageNotification)
        ensures
            n.message == self.message,
            n.click_message == Some(message),
            n.on_click_action == self.on_click_action,
    {
        MessageNotification {
            message: self.message,
            click_message: Some(message),
            on_click_action: self.on_click_action,
        }
    }

    /// The same notification with `action` run when the button is clicked.
    pub fn on_click(self, action: u64) -> (n: MessageNotification)
        ensures
            n.message == self.message,
            n.click_message == self.click_message,
            n.on_click_action == Some(action),
    {
        MessageNotification {
            message: self.message,
            click_message: self.click_message,
            on_click_action: Some(action),
        }
    }
}

/// A toast: a generic message notification identified by a caller-supplied
/// instance id, with an optional (button label, action token) pair. Every
/// toast is shown under the one reserved message-notification kind.
pub struct Toast {
    /// Caller-supplied instance id; at most one toast per id is active.
    pub id: usize,
    /// The message text shown to the user.
    pub msg: String,
    /// Optional click button: its label and the token of its action.
    pub on_click: Option<(String, u64)>,
}

/// The notification a toast displays as: its message, and its click button
/// if it has one.
pub open spec fn toast_notification(toast: Toast) -> MessageNotification {
    match toast.on_click {
        Some(pair) => MessageNotification {
            message: toast.msg,
            click_message: Some(pair.0),
            on_click_action: Some(pair.1),
        },
        None => MessageNotification {
            message: toast.msg,
            click_message: None,
            on_click_action: None,
        },
    }
}

} // verus!
