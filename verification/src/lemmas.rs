//! Proofs of the registry's and tracker's guarantees: deduplication leaves
//! exactly one entry per key, dismissal removes exactly the matching entry and
//! keeps the order of the rest, and a pair once recorded as shown stays shown.

use vstd::prelude::*;
use crate::message::MessageNotification;
use crate::tracker::NotificationTracker;
use crate::workspace::{NotificationEntry, has_key, key_matches, registry_wf, spec_dismiss, spec_show};

verus! {

/// How many entries of `s` are keyed by (kind, id).
pub open spec fn count_key(s: Seq<NotificationEntry>, kind: u64, id: usize) -> nat
    decreases s.len(),
{
    if s.len() == 0 {
        0
    } else {
        (if key_matches(s.first(), kind, id) {
            1nat
        } else {
            0nat
        }) + count_key(s.drop_first(), kind, id)
    }
}

/// Showing a notification preserves the at-most-one-entry-per-key invariant.
pub proof fn lemma_show_preserves_wf(
    s: Seq<NotificationEntry>,
    kind: u64,
    id: usize,
    handle: MessageNotification,
)
    requires
        registry_wf(s),
    ensures
        registry_wf(spec_show(s, kind, id, handle)),
{
    if !has_key(s, kind, id) {
        let r = s.push(NotificationEntry { kind, id, handle });
        assert forall|a: int, b: int| 0 <= a < b < r.len() implies !(r[a].kind == r[b].kind
            && r[a].id == r[b].id) by {
            if b == s.len() {
                assert(r[a] == s[a]);
                assert(!key_matches(s[a], kind, id));
            } else {
                assert(r[a] == s[a]);
                assert(r[b] == s[b]);
            }
        }
    }
}

/// Dismissing a key that is not active changes nothing.
pub proof fn lemma_dismiss_absent(s: Seq<NotificationEntry>, kind: u64, id: usize)
    requires
        !has_key(s, kind, id),
    ensures
        spec_dismiss(s, kind, id) == s,
    decreases s.len(),
{
    if s.len() == 0 {
        assert(spec_dismiss(s, kind, id) =~= s);
    } else {
        assert(!key_matches(s[0], kind, id));
        assert forall|j: int| 0 <= j < s.drop_first().len() implies !key_matches(
            s.drop_first()[j],
            kind,
            id,
        ) by {
            assert(s.drop_first()[j] == s[j + 1]);
        }
        lemma_dismiss_absent(s.drop_first(), kind, id);
        assert(spec_dismiss(s, kind, id) =~= s);
    }
}

/// After a dismissal, no entry with the dismissed key remains active.
pub proof fn lemma_dismiss_removes_key(s: Seq<NotificationEntry>, kind: u64, id: usize)
    ensures
        !has_key(spec_dismiss(s, kind, id), kind, id),
    decreases s.len(),
{
    if s.len() == 0 {
    } else if key_matches(s.first(), kind, id) {
        lemma_dismiss_removes_key(s.drop_first(), kind, id);
    } else {
        lemma_dismiss_removes_key(s.drop_first(), kind, id);
        let rest = spec_dismiss(s.drop_first(), kind, id);
        let r = seq![s.first()] + rest;
        assert forall|j: int| 0 <= j < r.len() implies !key_matches(r[j], kind, id) by {
            if j == 0 {
                assert(r[0] == s.first());
            } else {
                assert(r[j] == rest[j - 1]);
            }
        }
    }
}

/// Dismissing a key removes exactly the one matching entry: what remains is
/// the sequence with that entry deleted, every other entry in its old order.
pub proof fn lemma_dismiss_unique_match(s: Seq<NotificationEntry>, kind: u64, id: usize, m: int)
    requires
        registry_wf(s),
        0 <= m < s.len(),
        key_matches(s[m], kind, id),
        forall|j: int| 0 <= j < m ==> !key_matches(s[j], kind, id),
    ensures
        spec_dismiss(s, kind, id) == s.remove(m),
        spec_dismiss(s, kind, id) == s.subrange(0, m) + s.subrange(m + 1, s.len() as int),
    decreases s.len(),
{
    if m == 0 {
        assert(key_matches(s.first(), kind, id));
        assert forall|j: int| 0 <= j < s.drop_first().len() implies !key_matches(
            s.drop_first()[j],
            kind,
            id,
        ) by {
            assert(s.drop_first()[j] == s[j + 1]);
            assert(!(s[0].kind == s[j + 1].kind && s[0].id == s[j + 1].id));
        }
        lemma_dismiss_absent(s.drop_first(), kind, id);
        assert(spec_dismiss(s, kind, id) =~= s.remove(0));
    } else {
        assert(!key_matches(s.first(), kind, id));
        assert forall|a: int, b: int| 0 <= a < b < s.drop_first().len() implies !(
        s.drop_first()[a].kind == s.drop_first()[b].kind && s.drop_first()[a].id
            == s.drop_first()[b].id) by {
            assert(s.drop_first()[a] == s[a + 1]);
            assert(s.drop_first()[b] == s[b + 1]);
        }
        assert forall|j: int| 0 <= j < m - 1 implies !key_matches(s.drop_first()[j], kind, id) by {
            assert(s.drop_first()[j] == s[j + 1]);
        }
        assert(s.drop_first()[m - 1] == s[m]);
        lemma_dismiss_unique_match(s.drop_first(), kind, id, m - 1);
        assert(spec_dismiss(s, kind, id) =~= s.remove(m));
    }
    assert(s.remove(m) == s.subrange(0, m) + s.subrange(m + 1, s.len() as int));
}

/// Deleting one entry preserves the at-most-one-entry-per-key invariant.
pub proof fn lemma_remove_preserves_wf(s: Seq<NotificationEntry>, m: int)
    requires
        registry_wf(s),
        0 <= m < s.len(),
    ensures
        registry_wf(s.remove(m)),
{
    let r = s.remove(m);
    assert forall|a: int, b: int| 0 <= a < b < r.len() implies !(r[a].kind == r[b].kind && r[a].id
        == r[b].id) by {
        let a0 = if a < m {
            a
        } else {
            a + 1
        };
        let b0 = if b < m {
            b
        } else {
            b + 1
        };
        assert(r[a] == s[a0]);
        assert(r[b] == s[b0]);
    }
}

/// A key is absent from a sequence exactly when no entry of it counts.
pub proof fn lemma_count_zero_iff_absent(s: Seq<NotificationEntry>, kind: u64, id: usize)
    ensures
        (count_key(s, kind, id) == 0) <==> !has_key(s, kind, id),
    decreases s.len(),
{
    if s.len() == 0 {
    } else {
        lemma_count_zero_iff_absent(s.drop_first(), kind, id);
        if key_matches(s.first(), kind, id) {
            assert(has_key(s, kind, id));
        } else {
            if has_key(s, kind, id) {
                let w = choose|w: int| 0 <= w < s.len() && key_matches(s[w], kind, id);
                assert(s.drop_first()[w - 1] == s[w]);
                assert(has_key(s.drop_first(), kind, id));
            }
            if has_key(s.drop_first(), kind, id) {
                let w = choose|w: int|
                    0 <= w < s.drop_first().len() && key_matches(s.drop_first()[w], kind, id);
                assert(s[w + 1] == s.drop_first()[w]);
                assert(has_key(s, kind, id));
            }
        }
    }
}

/// Under the registry invariant, no key counts more than one entry.
pub proof fn lemma_count_at_most_one(s: Seq<NotificationEntry>, kind: u64, id: usize)
    requires
        registry_wf(s),
    ensures
        count_key(s, kind, id) <= 1,
    decreases s.len(),
{
    if s.len() == 0 {
    } else {
        assert forall|a: int, b: int| 0 <= a < b < s.drop_first().len() implies !(
        s.drop_first()[a].kind == s.drop_first()[b].kind && s.drop_first()[a].id
            == s.drop_first()[b].id) by {
            assert(s.drop_first()[a] == s[a + 1]);
            assert(s.drop_first()[b] == s[b + 1]);
        }
        lemma_count_at_most_one(s.drop_first(), kind, id);
        if key_matches(s.first(), kind, id) {
            assert forall|j: int| 0 <= j < s.drop_first().len() implies !key_matches(
                s.drop_first()[j],
                kind,
                id,
            ) by {
                assert(s.drop_first()[j] == s[j + 1]);
                assert(!(s[0].kind == s[j + 1].kind && s[0].id == s[j + 1].id));
            }
            lemma_count_zero_iff_absent(s.drop_first(), kind, id);
        }
    }
}

/// Showing twice under one key before any dismissal: the second call changes
/// nothing — its handle is discarded — and exactly one entry with that key is
/// active afterwards.
pub proof fn lemma_show_twice_keeps_one(
    s: Seq<NotificationEntry>,
    kind: u64,
    id: usize,
    first: MessageNotification,
    second: MessageNotification,
)
    requires
        registry_wf(s),
    ensures
        spec_show(spec_show(s, kind, id, first), kind, id, second) == spec_show(
            s,
            kind,
            id,
            first,
        ),
        count_key(spec_show(spec_show(s, kind, id, first), kind, id, second), kind, id) == 1,
{
    let once = spec_show(s, kind, id, first);
    lemma_show_preserves_wf(s, kind, id, first);
    if !has_key(s, kind, id) {
        assert(once[s.len() as int] == NotificationEntry { kind, id, handle: first });
        assert(has_key(once, kind, id));
    }
    lemma_count_zero_iff_absent(once, kind, id);
    lemma_count_at_most_one(once, kind, id);
}

/// A pair once recorded as shown stays shown across any later recording, of
/// any pair. Together with the fact that no dismissal operation touches the
/// tracker, a pair shown once is reported as shown for the rest of the
/// process, whether or not its notification is still active.
pub proof fn lemma_once_shown_persists(
    before: NotificationTracker,
    after: NotificationTracker,
    kind: u64,
    id: usize,
    later_kind: u64,
    later_id: usize,
)
    requires
        before.spec_has_shown(kind, id),
        after.shown_ids(later_kind) == before.shown_ids(later_kind).push(later_id),
        forall|k: u64| k != later_kind ==> after.shown_ids(k) == before.shown_ids(k),
    ensures
        after.spec_has_shown(kind, id),
{
    if kind == later_kind {
        let w = choose|w: int|
            0 <= w < before.shown_ids(kind).len() && before.shown_ids(kind)[w] == id;
        assert(after.shown_ids(kind)[w] == id);
    }
}

} // verus!
