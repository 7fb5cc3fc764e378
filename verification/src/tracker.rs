//! Process-wide record of which (kind, instance id) pairs have ever been
//! shown, so that "show once" notifications are not repeated.
//!
//! The tracker maps each notification kind to the ordered sequence of instance
//! ids already shown under it. It only ever grows: an id, once recorded, is
//! never removed for the lifetime of the process.

use vstd::prelude::*;

verus! {

/// How many ids a kind's record holds of a given kind token.
pub open spec fn kind_present(s: Seq<(u64, Vec<usize>)>, kind: u64) -> bool {
    exists|j: int| 0 <= j < s.len() && s[j].0 == kind
}

/// The ids recorded under `kind`: those of the first record carrying `kind`,
/// or the empty sequence when there is none.
pub open spec fn recorded_ids(s: Seq<(u64, Vec<usize>)>, kind: u64) -> Seq<usize>
    decreases s.len(),
{
    if s.len() == 0 {
        Seq::empty()
    } else if s.first().0 == kind {
        s.first().1@
    } else {
        recorded_ids(s.drop_first(), kind)
    }
}

/// Process-wide once-shown bookkeeping: one record per kind, each holding the
/// ordered ids already shown under that kind.
pub struct NotificationTracker {
    sent: Vec<(u64, Vec<usize>)>,
}

impl NotificationTracker {
    /// The tracker's records, one per kind.
    pub closed spec fn records(self) -> Seq<(u64, Vec<usize>)> {
        self.sent@
    }

    /// The ordered ids already shown under `kind`.
    pub open spec fn shown_ids(self, kind: u64) -> Seq<usize> {
        recorded_ids(self.records(), kind)
    }

    /// Whether (kind, id) has ever been shown.
    pub open spec fn spec_has_shown(self, kind: u64, id: usize) -> bool {
        self.shown_ids(kind).contains(id)
    }

    /// Each kind owns at most one record.
    pub closed spec fn wf(self) -> bool {
        forall|a: int, b: int|
            0 <= a < b < self.sent@.len() ==> self.sent@[a].0 != self.sent@[b].0
    }

    /// No id is recorded twice under one kind.
    pub open spec fn once_per_kind(self) -> bool {
        forall|kind: u64, a: int, b: int|
            0 <= a < b < self.shown_ids(kind).len() ==> self.shown_ids(kind)[a]
                != self.shown_ids(kind)[b]
    }

    /// A fresh tracker with nothing shown yet.
    pub fn new() -> (tracker: NotificationTracker)
        ensures
            tracker.wf(),
            tracker.once_per_kind(),
            forall|kind: u64| tracker.shown_ids(kind) == Seq::<usize>::empty(),
    {
        NotificationTracker { sent: Vec::new() }
    }

    /// True iff (kind, id) has ever been recorded as shown.
    pub fn has_shown(&self, kind: u64, id: usize) -> (shown: bool)
        ensures
            shown == self.spec_has_shown(kind, id),
    {
        let n = self.sent.len();
        let mut i: usize = 0;
        while i < n
            invariant
                i <= n,
                n == self.sent@.len(),
                forall|j: int| 0 <= j < i ==> self.sent@[j].0 != kind,
            decreases n - i,
        {
            if self.sent[i].0 == kind {
                proof {
                    lemma_recorded_ids_first(self.sent@, kind, i as int);
                }
                return contains_id(&self.sent[i].1, id);
            }
            i += 1;
        }
        proof {
            lemma_recorded_ids_absent(self.sent@, kind);
        }
        false
    }

    /// Appends `id` to `kind`'s record, leaving every other kind untouched.
    /// Recording a pair twice is harmless for `has_shown`, but only callers
    /// that check first keep the once-per-kind invariant.
    pub fn record_shown(&mut self, kind: u64, id: usize)
        requires
            old(self).wf(),
        ensures
            final(self).wf(),
            final(self).shown_ids(kind) == old(self).shown_ids(kind).push(id),
            forall|k: u64| k != kind ==> final(self).shown_ids(k) == old(self).shown_ids(k),
            final(self).spec_has_shown(kind, id),
            forall|k: u64, i: usize|
                old(self).spec_has_shown(k, i) ==> final(self).spec_has_shown(k, i),
            old(self).once_per_kind() && !old(self).spec_has_shown(kind, id)
                ==> final(self).once_per_kind(),
    {
        let n = self.sent.len();
        let mut i: usize = 0;
        while i < n
            invariant
                i <= n,
                n == self.sent@.len(),
                self.sent@ == old(self).sent@,
                old(self).wf(),
                forall|j: int| 0 <= j < i ==> self.sent@[j].0 != kind,
            decreases n - i,
        {
            if self.sent[i].0 == kind {
                let record = vstd::std_specs::vec::vec_index_mut(&mut self.sent, i);
                record.1.push(id);
                proof {
                    lemma_record_shown_update(old(self).sent@, self.sent@, kind, id, i as int);
                }
                proof {
                    self.lemma_tracker_grows(*old(self), kind, id);
                }
                return ;
            }
            i += 1;
        }
        let mut fresh_ids: Vec<usize> = Vec::new();
        fresh_ids.push(id);
        self.sent.push((kind, fresh_ids));
        proof {
            lemma_record_shown_append(old(self).sent@, self.sent@, kind, id);
        }
        proof {
            self.lemma_tracker_grows(*old(self), kind, id);
        }
    }

    /// From the two exact clauses on `shown_ids`, everything already shown
    /// stays shown, (kind, id) is now shown, and recording a pair that was
    /// not yet shown keeps every kind's record free of duplicates.
    proof fn lemma_tracker_grows(self, pre: NotificationTracker, kind: u64, id: usize)
        requires
            self.shown_ids(kind) == pre.shown_ids(kind).push(id),
            forall|k: u64| k != kind ==> self.shown_ids(k) == pre.shown_ids(k),
        ensures
            self.spec_has_shown(kind, id),
            forall|k: u64, i: usize| pre.spec_has_shown(k, i) ==> self.spec_has_shown(k, i),
            pre.once_per_kind() && !pre.spec_has_shown(kind, id) ==> self.once_per_kind(),
    {
        let pushed = pre.shown_ids(kind).push(id);
        assert(pushed[pushed.len() - 1] == id);
        assert(self.spec_has_shown(kind, id));
        assert forall|k: u64, i: usize| pre.spec_has_shown(k, i) implies self.spec_has_shown(
            k,
            i,
        ) by {
            if k == kind {
                let w = choose|w: int|
                    0 <= w < pre.shown_ids(k).len() && pre.shown_ids(k)[w] == i;
                assert(pushed[w] == i);
            }
        }
        if pre.once_per_kind() && !pre.spec_has_shown(kind, id) {
            assert forall|k: u64, a: int, b: int|
                0 <= a < b < self.shown_ids(k).len() implies self.shown_ids(k)[a]
                != self.shown_ids(k)[b] by {
                if k == kind {
                    let ids = pre.shown_ids(kind);
                    if b == ids.len() {
                        assert(pushed[a] == ids[a]);
                        assert(ids.contains(ids[a]));
                    }
                }
            }
        }
    }
}

/// True iff `ids` holds `id`.
fn contains_id(ids: &Vec<usize>, id: usize) -> (present: bool)
    ensures
        present == ids@.contains(id),
{
    let n = ids.len();
    let mut i: usize = 0;
    while i < n
        invariant
            i <= n,
            n == ids@.len(),
            forall|j: int| 0 <= j < i ==> ids@[j] != id,
        decreases n - i,
    {
        if ids[i] == id {
            return true;
        }
        i += 1;
    }
    false
}

/// The ids recorded under a kind are those of its first record.
pub proof fn lemma_recorded_ids_first(s: Seq<(u64, Vec<usize>)>, kind: u64, m: int)
    requires
        0 <= m < s.len(),
        s[m].0 == kind,
        forall|j: int| 0 <= j < m ==> s[j].0 != kind,
    ensures
        recorded_ids(s, kind) == s[m].1@,
    decreases s.len(),
{
    if m > 0 {
        lemma_recorded_ids_first(s.drop_first(), kind, m - 1);
    }
}

/// A kind with no record has nothing recorded.
pub proof fn lemma_recorded_ids_absent(s: Seq<(u64, Vec<usize>)>, kind: u64)
    requires
        forall|j: int| 0 <= j < s.len() ==> s[j].0 != kind,
    ensures
        recorded_ids(s, kind) == Seq::<usize>::empty(),
    decreases s.len(),
{
    if s.len() > 0 {
        lemma_recorded_ids_absent(s.drop_first(), kind);
    }
}

/// Pushing `id` onto the first record of `kind` appends it to that kind's
/// recorded ids and leaves every other kind's ids unchanged.
proof fn lemma_record_shown_update(
    pre: Seq<(u64, Vec<usize>)>,
    post: Seq<(u64, Vec<usize>)>,
    kind: u64,
    id: usize,
    m: int,
)
    requires
        0 <= m < pre.len(),
        pre[m].0 == kind,
        forall|j: int| 0 <= j < m ==> pre[j].0 != kind,
        forall|a: int, b: int| 0 <= a < b < pre.len() ==> pre[a].0 != pre[b].0,
        post.len() == pre.len(),
        post[m].0 == kind,
        post[m].1@ == pre[m].1@.push(id),
        forall|j: int| 0 <= j < pre.len() && j != m ==> post[j] == pre[j],
    ensures
        forall|a: int, b: int| 0 <= a < b < post.len() ==> post[a].0 != post[b].0,
        recorded_ids(post, kind) == recorded_ids(pre, kind).push(id),
        forall|k: u64| k != kind ==> recorded_ids(post, k) == recorded_ids(pre, k),
{
    assert forall|a: int, b: int| 0 <= a < b < post.len() implies post[a].0 != post[b].0 by {
        assert(pre[a].0 != pre[b].0);
    }
    lemma_recorded_ids_first(pre, kind, m);
    lemma_recorded_ids_first(post, kind, m);
    assert forall|k: u64| k != kind implies recorded_ids(post, k) == recorded_ids(pre, k) by {
        if kind_present(pre, k) {
            let w = choose|w: int| 0 <= w < pre.len() && pre[w].0 == k;
            let f = first_index_of_kind(pre, k, w);
            lemma_recorded_ids_first(pre, k, f);
            lemma_recorded_ids_first(post, k, f);
        } else {
            lemma_recorded_ids_absent(pre, k);
            assert(forall|j: int| 0 <= j < post.len() ==> post[j].0 != k);
            lemma_recorded_ids_absent(post, k);
        }
    }
}

/// Appending a fresh record for an absent kind records exactly its one id and
/// leaves every other kind's ids unchanged.
proof fn lemma_record_shown_append(
    pre: Seq<(u64, Vec<usize>)>,
    post: Seq<(u64, Vec<usize>)>,
    kind: u64,
    id: usize,
)
    requires
        forall|j: int| 0 <= j < pre.len() ==> pre[j].0 != kind,
        forall|a: int, b: int| 0 <= a < b < pre.len() ==> pre[a].0 != pre[b].0,
        post.len() == pre.len() + 1,
        forall|j: int| 0 <= j < pre.len() ==> post[j] == pre[j],
        post[pre.len() as int].0 == kind,
        post[pre.len() as int].1@ == Seq::<usize>::empty().push(id),
    ensures
        forall|a: int, b: int| 0 <= a < b < post.len() ==> post[a].0 != post[b].0,
        recorded_ids(post, kind) == recorded_ids(pre, kind).push(id),
        forall|k: u64| k != kind ==> recorded_ids(post, k) == recorded_ids(pre, k),
{
    assert forall|a: int, b: int| 0 <= a < b < post.len() implies post[a].0 != post[b].0 by {
        if b < pre.len() {
            assert(pre[a].0 != pre[b].0);
        }
    }
    lemma_recorded_ids_absent(pre, kind);
    lemma_recorded_ids_first(post, kind, pre.len() as int);
    assert forall|k: u64| k != kind implies recorded_ids(post, k) == recorded_ids(pre, k) by {
        if kind_present(pre, k) {
            let w = choose|w: int| 0 <= w < pre.len() && pre[w].0 == k;
            let f = first_index_of_kind(pre, k, w);
            lemma_recorded_ids_first(pre, k, f);
            lemma_recorded_ids_first(post, k, f);
        } else {
            lemma_recorded_ids_absent(pre, k);
            assert(forall|j: int| 0 <= j < post.len() ==> post[j].0 != k);
            lemma_recorded_ids_absent(post, k);
        }
    }
}

/// The least index at or before `w` whose record carries `kind`, given that
/// the record at `w` does.
proof fn first_index_of_kind(s: Seq<(u64, Vec<usize>)>, kind: u64, w: int) -> (f: int)
    requires
        0 <= w < s.len(),
        s[w].0 == kind,
    ensures
        0 <= f < s.len(),
        s[f].0 == kind,
        forall|j: int| 0 <= j < f ==> s[j].0 != kind,
    decreases w,
{
    if exists|j: int| 0 <= j < w && s[j].0 == kind {
        let w2 = choose|j: int| 0 <= j < w && s[j].0 == kind;
        first_index_of_kind(s, kind, w2)
    } else {
        w
    }
}

} // verus!
