//! The per-workspace notification registry and its lifecycle operations.
//!
//! A workspace holds the ordered sequence of currently-active notifications,
//! each keyed by (kind, instance id). At most one entry is active per key;
//! insertion order is the display order and removal never reorders the rest.
//!
//! Kinds are opaque caller-supplied tokens: two call sites using different
//! tokens never collide, even at the same instance id. Toasts and generic
//! errors deliberately share the one reserved message-notification kind, so
//! they replace and deduplicate against each other.
//!
//! Dismissal signals are delivered synchronously by the execution context that
//! owns the workspace: when a displayed notification emits its dismissal
//! signal (for example, the user clicked close), the owner calls
//! [`Workspace::dismiss_notification`] with the entry's key.

use vstd::prelude::*;
use vstd::string::StringExecFns;
use crate::message::{MessageNotification, Toast, toast_notification};
use crate::tracker::NotificationTracker;

verus! {

/// The reserved kind under which every toast and every generic error
/// notification is shown.
pub const MESSAGE_NOTIFICATION_KIND: u64 = 0;

/// An active notification: its deduplication key and the handle to its
/// displayable content.
pub struct NotificationEntry {
    /// The notification's kind token, half of the deduplication key.
    pub kind: u64,
    /// The caller-supplied instance id, the other half of the key.
    pub id: usize,
    /// The displayable content of this notification.
    pub handle: MessageNotification,
}

/// Whether `entry` is keyed by (kind, id).
pub open spec fn key_matches(entry: NotificationEntry, kind: u64, id: usize) -> bool {
    entry.kind == kind && entry.id == id
}

/// Whether some entry of `s` is keyed by (kind, id).
pub open spec fn has_key(s: Seq<NotificationEntry>, kind: u64, id: usize) -> bool {
    exists|j: int| 0 <= j < s.len() && key_matches(s[j], kind, id)
}

/// At most one entry per (kind, id) key.
pub open spec fn registry_wf(s: Seq<NotificationEntry>) -> bool {
    forall|a: int, b: int|
        0 <= a < b < s.len() ==> !(s[a].kind == s[b].kind && s[a].id == s[b].id)
}

/// What showing a notification does to the active sequence: appends the new
/// entry, unless an entry with the same key is already active, in which case
/// the sequence is untouched and the new handle is discarded.
pub open spec fn spec_show(
    s: Seq<NotificationEntry>,
    kind: u64,
    id: usize,
    handle: MessageNotification,
) -> Seq<NotificationEntry> {
    if has_key(s, kind, id) {
        s
    } else {
        s.push(NotificationEntry { kind, id, handle })
    }
}

/// What dismissing a key does to the active sequence: removes every entry
/// keyed by (kind, id) and keeps all others in their original order.
pub open spec fn spec_dismiss(s: Seq<NotificationEntry>, kind: u64, id: usize) -> Seq<
    NotificationEntry,
>
    decreases s.len(),
{
    if s.len() == 0 {
        Seq::empty()
    } else if key_matches(s.first(), kind, id) {
        spec_dismiss(s.drop_first(), kind, id)
    } else {
        seq![s.first()] + spec_dismiss(s.drop_first(), kind, id)
    }
}

/// Whether `post` is `pre` after showing the generic error notification for
/// the error text `err`: any error notification already active — the key
/// (reserved message-notification kind, instance id 0) — is dismissed, and a
/// plain widget whose message is `err` prefixed with "Error: " is appended.
/// A duplicate failure thus replaces the old text rather than stacking or
/// being discarded, and exactly one error notification is active afterwards.
pub open spec fn error_shown(
    pre: Seq<NotificationEntry>,
    post: Seq<NotificationEntry>,
    err: Seq<char>,
) -> bool {
    &&& post.len() == spec_dismiss(pre, MESSAGE_NOTIFICATION_KIND, 0).len() + 1
    &&& post == spec_dismiss(pre, MESSAGE_NOTIFICATION_KIND, 0).push(post.last())
    &&& post.last().kind == MESSAGE_NOTIFICATION_KIND
    &&& post.last().id == 0
    &&& post.last().handle.message@ == "Error: "@ + err
    &&& post.last().handle.click_message is None
    &&& post.last().handle.on_click_action is None
}

/// A workspace's notification state: the ordered active notifications.
pub struct Workspace {
    notifications: Vec<NotificationEntry>,
}

impl Workspace {
    /// The active notifications, in insertion order.
    pub closed spec fn entries(self) -> Seq<NotificationEntry> {
        self.notifications@
    }

    /// The registry invariant: at most one active entry per (kind, id).
    pub open spec fn wf(self) -> bool {
        registry_wf(self.entries())
    }

    /// A workspace with no active notifications.
    pub fn new() -> (workspace: Workspace)
        ensures
            workspace.wf(),
            workspace.entries() == Seq::<NotificationEntry>::empty(),
    {
        Workspace { notifications: Vec::new() }
    }

    /// The active notifications in insertion order, for the renderer.
    pub fn iterate(&self) -> (active: &Vec<NotificationEntry>)
        ensures
            active@ == self.entries(),
    {
        &self.notifications
    }

    /// Whether an entry keyed (kind, id) is active.
    fn contains_key(&self, kind: u64, id: usize) -> (present: bool)
        ensures
            present == has_key(self.entries(), kind, id),
    {
        let n: usize = self.notifications.len();
        let mut i: usize = 0;
        while i < n
            invariant
                i <= n,
                n == self.notifications@.len(),
                forall|j: int| 0 <= j < i ==> !key_matches(self.notifications@[j], kind, id),
            decreases n - i,
        {
            if self.notifications[i].kind == kind && self.notifications[i].id == id {
                return true;
            }
            i += 1;
        }
        false
    }

    /// Shows `notification` under (kind, id): appends it as the newest active
    /// notification, unless that key is already active, in which case the call
    /// changes nothing and `notification` is dropped undisplayed.
    pub fn show_notification(&mut self, kind: u64, id: usize, notification: MessageNotification)
        requires
            old(self).wf(),
        ensures
            final(self).wf(),
            final(self).entries() == spec_show(old(self).entries(), kind, id, notification),
    {
        if !self.contains_key(kind, id) {
            proof {
                crate::lemmas::lemma_show_preserves_wf(
                    self.entries(),
                    kind,
                    id,
                    notification,
                );
            }
            self.notifications.push(NotificationEntry { kind, id, handle: notification });
        }
    }

    /// Removes every active entry keyed (kind, id); a no-op when none is.
    /// This is also how a notification's dismissal signal is delivered: the
    /// owning context calls it with the key the signal's subscription carries.
    pub fn dismiss_notification(&mut self, kind: u64, id: usize)
        requires
            old(self).wf(),
        ensures
            final(self).wf(),
            final(self).entries() == spec_dismiss(old(self).entries(), kind, id),
    {
        self.dismiss_notification_internal(kind, id);
    }

    /// True iff (kind, id) was ever shown according to `tracker`.
    pub fn has_shown_notification_once(
        &self,
        tracker: &NotificationTracker,
        kind: u64,
        id: usize,
    ) -> (shown: bool)
        ensures
            shown == tracker.spec_has_shown(kind, id),
    {
        tracker.has_shown(kind, id)
    }

    /// Shows the notification built by `build_notification` under (kind, id),
    /// and records the pair in `tracker`, unless the pair was ever shown
    /// before, in which case nothing happens and the builder is never run.
    pub fn show_notification_once<F: FnOnce() -> MessageNotification>(
        &mut self,
        tracker: &mut NotificationTracker,
        kind: u64,
        id: usize,
        build_notification: F,
    )
        requires
            old(self).wf(),
            old(tracker).wf(),
            call_requires(build_notification, ()),
        ensures
            final(self).wf(),
            final(tracker).wf(),
            final(tracker).spec_has_shown(kind, id),
            old(tracker).spec_has_shown(kind, id)
                ==> *final(self) == *old(self) && *final(tracker) == *old(tracker),
            !old(tracker).spec_has_shown(kind, id) ==> {
                &&& final(tracker).shown_ids(kind) == old(tracker).shown_ids(kind).push(id)
                &&& forall|k: u64|
                    k != kind ==> final(tracker).shown_ids(k) == old(tracker).shown_ids(k)
                &&& exists|built: MessageNotification|
                    call_ensures(build_notification, (), built) && final(self).entries()
                        == spec_show(old(self).entries(), kind, id, built)
            },
            forall|k: u64, i: usize|
                old(tracker).spec_has_shown(k, i) ==> final(tracker).spec_has_shown(k, i),
            old(tracker).once_per_kind() ==> final(tracker).once_per_kind(),
    {
        if !self.has_shown_notification_once(tracker, kind, id) {
            tracker.record_shown(kind, id);
            let built = build_notification();
            self.show_notification(kind, id, built);
            assert(call_ensures(build_notification, (), built) && self.entries() == spec_show(
                old(self).entries(),
                kind,
                id,
                built,
            ));
        }
    }

    /// Formats the already-rendered debug text of an error into the message
    /// "Error: {err}" and shows it as a plain message notification under the
    /// reserved kind at instance id 0. A generic error already on display is
    /// dismissed first: the new failure replaces the old text rather than
    /// stacking, so exactly one error notification is ever active.
    pub fn show_error(&mut self, err: &str)
        requires
            old(self).wf(),
        ensures
            final(self).wf(),
            error_shown(old(self).entries(), final(self).entries(), err@),
    {
        self.dismiss_notification(MESSAGE_NOTIFICATION_KIND, 0);
        proof {
            crate::lemmas::lemma_dismiss_removes_key(
                old(self).entries(),
                MESSAGE_NOTIFICATION_KIND,
                0,
            );
        }
        let message = String::from_str("Error: ").concat(err);
        self.show_notification(MESSAGE_NOTIFICATION_KIND, 0, MessageNotification::new(message));
    }

    /// Shows `toast` under the reserved message-notification kind: any active
    /// toast or error notification with the same id is dismissed first, then
    /// the toast's widget — plain, or with its click button — is appended.
    pub fn show_toast(&mut self, toast: Toast)
        requires
            old(self).wf(),
        ensures
            final(self).wf(),
            final(self).entries() == spec_dismiss(
                old(self).entries(),
                MESSAGE_NOTIFICATION_KIND,
                toast.id,
            ).push(
                NotificationEntry {
                    kind: MESSAGE_NOTIFICATION_KIND,
                    id: toast.id,
                    handle: toast_notification(toast),
                },
            ),
    {
        self.dismiss_toast(toast.id);
        proof {
            crate::lemmas::lemma_dismiss_removes_key(
                old(self).entries(),
                MESSAGE_NOTIFICATION_KIND,
                toast.id,
            );
        }
        let notification = match toast.on_click {
            Some(pair) => MessageNotification::new(toast.msg).with_click_message(pair.0).on_click(
                pair.1,
            ),
            None => MessageNotification::new(toast.msg),
        };
        self.show_notification(MESSAGE_NOTIFICATION_KIND, toast.id, notification);
    }

    /// Dismisses the toast (or generic error notification) with instance `id`.
    pub fn dismiss_toast(&mut self, id: usize)
        requires
            old(self).wf(),
        ensures
            final(self).wf(),
            final(self).entries() == spec_dismiss(
                old(self).entries(),
                MESSAGE_NOTIFICATION_KIND,
                id,
            ),
    {
        self.dismiss_notification(MESSAGE_NOTIFICATION_KIND, id);
    }

    /// Removes the entries keyed (kind, id) from the ordered sequence,
    /// leaving the order of all other entries untouched.
    fn dismiss_notification_internal(&mut self, kind: u64, id: usize)
        requires
            old(self).wf(),
        ensures
            final(self).wf(),
            final(self).entries() == spec_dismiss(old(self).entries(), kind, id),
    {
        let n: usize = self.notifications.len();
        let mut i: usize = 0;
        while i < n
            invariant
                i <= n,
                n == self.notifications@.len(),
                self.notifications@ == old(self).notifications@,
                old(self).wf(),
                forall|j: int| 0 <= j < i ==> !key_matches(self.notifications@[j], kind, id),
            decreases n - i,
        {
            if self.notifications[i].kind == kind && self.notifications[i].id == id {
                proof {
                    crate::lemmas::lemma_dismiss_unique_match(
                        self.notifications@,
                        kind,
                        id,
                        i as int,
                    );
                    crate::lemmas::lemma_remove_preserves_wf(self.notifications@, i as int);
                }
                self.notifications.remove(i);
                return ;
            }
            i += 1;
        }
        proof {
            crate::lemmas::lemma_dismiss_absent(self.notifications@, kind, id);
        }
    }
}

} // verus!
