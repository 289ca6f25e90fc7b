//! The notification queue: zero or more transient, dismissible messages,
//! appended from any call site and rendered in insertion order by the portal
//! host.
//!
//! Entries carry a unique, monotonically assigned id. `enqueue` appends and
//! returns the id; `dismiss` removes the entry with that id if present and is
//! a no-op otherwise. The portal host only borrows the current entries for
//! rendering and never mutates them.

use vstd::prelude::*;

verus! {

/// Style classification of a transient message.
#[derive(Clone, Copy, PartialEq, Eq, Structural, Debug)]
pub enum NotificationStyle {
    Error,
    Confirmation,
    Info,
}

/// One transient message: unique id, display text, style classification.
#[derive(Debug)]
pub struct NotificationEntry {
    pub id: u64,
    pub text: String,
    pub style: NotificationStyle,
}

/// Holds the currently visible transient messages in insertion order and the
/// next id to assign.
#[derive(Debug)]
pub struct NotificationQueue {
    pub entries: Vec<NotificationEntry>,
    pub next_id: u64,
}

impl NotificationQueue {
    /// Every entry's id was assigned before `next_id`, and ids appear in
    /// strictly increasing (insertion) order, so no two entries share an id.
    pub open spec fn wf(self) -> bool {
        &&& forall|i: int, j: int|
            0 <= i < j < self.entries@.len() ==> self.entries@[i].id < self.entries@[j].id
        &&& forall|i: int| 0 <= i < self.entries@.len() ==> self.entries@[i].id < self.next_id
    }

    /// Whether an entry with the given id is currently visible.
    pub open spec fn has_entry(self, id: u64) -> bool {
        exists|i: int| 0 <= i < self.entries@.len() && self.entries@[i].id == id
    }

    /// The predicate that `dismiss(id)` keeps an entry by.
    pub open spec fn keeps(id: u64) -> spec_fn(NotificationEntry) -> bool {
        |e: NotificationEntry| e.id != id
    }

    /// An empty queue, assigning ids from zero.
    pub fn new() -> (q: NotificationQueue)
        ensures
            q.wf(),
            q.entries@ == Seq::<NotificationEntry>::empty(),
            q.next_id == 0,
    {
        NotificationQueue { entries: Vec::new(), next_id: 0 }
    }

    /// Appends a new entry and returns its id for later dismissal.
    pub fn enqueue(&mut self, text: String, style: NotificationStyle) -> (id: u64)
        requires
            old(self).wf(),
            old(self).next_id < u64::MAX,
        ensures
            final(self).wf(),
            id == old(self).next_id,
            final(self).next_id == old(self).next_id + 1,
            final(self).entries@ == old(self).entries@.push(
                NotificationEntry { id: old(self).next_id, text: text, style: style },
            ),
    {
        let id = self.next_id;
        self.entries.push(NotificationEntry { id, text, style });
        self.next_id = self.next_id + 1;
        id
    }

    /// Removes the entry with the given id. Dismissing an id that is not
    /// present leaves the queue unchanged; a second dismissal of the same id
    /// is therefore a no-op.
    pub fn dismiss(&mut self, id: u64)
        requires
            old(self).wf(),
        ensures
            final(self).wf(),
            final(self).next_id == old(self).next_id,
            final(self).entries@ == old(self).entries@.filter(Self::keeps(id)),
            !old(self).has_entry(id) ==> final(self).entries@ == old(self).entries@,
            !final(self).has_entry(id),
    {
        let ghost s0 = self.entries@;
        let n = self.entries.len();
        let mut i: usize = 0;
        let mut found: Option<usize> = None;
        while i < n
            invariant
                n == s0.len(),
                self.entries@ == s0,
                i <= n,
                match found {
                    Some(k) => k < n && s0[k as int].id == id,
                    None => forall|j: int| 0 <= j < i ==> s0[j].id != id,
                },
            decreases n - i,
        {
            if self.entries[i].id == id {
                found = Some(i);
                i = n;
            } else {
                i = i + 1;
            }
        }
        match found {
            Some(k) => {
                self.entries.remove(k);
                proof {
                    lemma_remove_found_is_filter(s0, id, k as int);
                    lemma_filter_keeps_has_no_id(s0, id);
                    assert(final(self).wf()) by {
                        assert forall|a: int, b: int|
                            0 <= a < b < self.entries@.len() implies self.entries@[a].id
                            < self.entries@[b].id by {
                            if a < k {
                                assert(self.entries@[a] == s0[a]);
                            } else {
                                assert(self.entries@[a] == s0[a + 1]);
                            }
                            if b < k {
                                assert(self.entries@[b] == s0[b]);
                            } else {
                                assert(self.entries@[b] == s0[b + 1]);
                            }
                        }
                    }
                }
            },
            None => {
                proof {
                    lemma_filter_no_match_is_identity(s0, id);
                }
            },
        }
    }

    /// The current entries, in insertion order, borrowed for rendering.
    pub fn render(&self) -> (r: &Vec<NotificationEntry>)
        ensures
            r@ == self.entries@,
    {
        &self.entries
    }
}

/// If no entry carries the id, filtering by "keeps id" changes nothing.
proof fn lemma_filter_no_match_is_identity(s: Seq<NotificationEntry>, id: u64)
    requires
        forall|j: int| 0 <= j < s.len() ==> s[j].id != id,
    ensures
        s.filter(NotificationQueue::keeps(id)) == s,
    decreases s.len(),
{
    reveal(Seq::filter);
    if s.len() > 0 {
        lemma_filter_no_match_is_identity(s.drop_last(), id);
        assert(s.drop_last().push(s.last()) =~= s);
    }
}

/// Filtering out an id that occurs exactly once, at index `k`, removes
/// exactly the element at `k`.
proof fn lemma_remove_found_is_filter(s: Seq<NotificationEntry>, id: u64, k: int)
    requires
        forall|i: int, j: int| 0 <= i < j < s.len() ==> s[i].id < s[j].id,
        0 <= k < s.len(),
        s[k].id == id,
    ensures
        s.filter(NotificationQueue::keeps(id)) == s.remove(k),
    decreases s.len(),
{
    reveal(Seq::filter);
    if k == s.len() - 1 {
        assert(forall|j: int| 0 <= j < s.drop_last().len() ==> s.drop_last()[j].id != id);
        lemma_filter_no_match_is_identity(s.drop_last(), id);
        assert(s.remove(k) =~= s.drop_last());
    } else {
        lemma_remove_found_is_filter(s.drop_last(), id, k);
        assert(s.last().id != id);
        assert(s.filter(NotificationQueue::keeps(id)) == s.drop_last().filter(
            NotificationQueue::keeps(id),
        ).push(s.last()));
        assert(s.remove(k) =~= s.drop_last().remove(k).push(s.last()));
    }
}

/// One queue operation, as history for the queue's law.
pub enum QueueOp {
    Enqueue { text: Seq<char>, style: NotificationStyle },
    Dismiss { id: nat },
}

/// Mathematical image of one entry.
#[verifier::ext_equal]
pub struct EntryModel {
    pub id: nat,
    pub text: Seq<char>,
    pub style: NotificationStyle,
}

/// Mathematical image of the queue.
#[verifier::ext_equal]
pub struct QueueModel {
    pub next: nat,
    pub entries: Seq<EntryModel>,
}

/// The image of one entry.
pub open spec fn entry_model(e: NotificationEntry) -> EntryModel {
    EntryModel { id: e.id as nat, text: e.text@, style: e.style }
}

/// The model-level predicate that dismissing an id keeps an entry by.
pub open spec fn keeps_model(id: nat) -> spec_fn(EntryModel) -> bool {
    |e: EntryModel| e.id != id
}

impl NotificationQueue {
    /// The queue's mathematical image.
    pub open spec fn model(self) -> QueueModel {
        QueueModel {
            next: self.next_id as nat,
            entries: self.entries@.map_values(|e: NotificationEntry| entry_model(e)),
        }
    }
}

/// One operation applied to the queue model: an enqueue appends the entry
/// under the next id, a dismissal keeps exactly the entries with other ids.
pub open spec fn step_op(m: QueueModel, op: QueueOp) -> QueueModel {
    match op {
        QueueOp::Enqueue { text, style } => QueueModel {
            next: m.next + 1,
            entries: m.entries.push(EntryModel { id: m.next, text, style }),
        },
        QueueOp::Dismiss { id } => QueueModel {
            next: m.next,
            entries: m.entries.filter(keeps_model(id)),
        },
    }
}

/// The queue model a history of operations leaves behind, starting empty.
pub open spec fn run_ops(ops: Seq<QueueOp>) -> QueueModel
    decreases ops.len(),
{
    if ops.len() == 0 {
        QueueModel { next: 0, entries: Seq::empty() }
    } else {
        step_op(run_ops(ops.drop_last()), ops.last())
    }
}

/// Whether some operation after position `j` dismisses the id.
pub open spec fn dismissed_after(ops: Seq<QueueOp>, j: int, id: nat) -> bool {
    exists|k: int| j < k < ops.len() && ops[k] == (QueueOp::Dismiss { id })
}

/// How many enqueues stand at position `j` or later.
pub open spec fn enqueues_from(ops: Seq<QueueOp>, j: int) -> nat
    decreases ops.len() - j when j <= ops.len()
{
    if j < 0 || j >= ops.len() {
        0
    } else {
        (if ops[j] is Enqueue {
            1nat
        } else {
            0nat
        }) + enqueues_from(ops, j + 1)
    }
}

/// The entries a history leaves visible, read off the history itself: scan
/// from position `j` with ids counted from `next`; each enqueued entry
/// survives exactly when nothing later dismisses its id, in insertion order.
pub open spec fn surviving_from(ops: Seq<QueueOp>, j: int, next: nat) -> Seq<EntryModel>
    decreases ops.len() - j when j <= ops.len()
{
    if j < 0 || j >= ops.len() {
        Seq::empty()
    } else {
        match ops[j] {
            QueueOp::Enqueue { text, style } => {
                let rest = surviving_from(ops, j + 1, next + 1);
                if dismissed_after(ops, j, next) {
                    rest
                } else {
                    seq![EntryModel { id: next, text, style }] + rest
                }
            },
            QueueOp::Dismiss { .. } => surviving_from(ops, j + 1, next),
        }
    }
}

/// Insertion order minus the ids dismissed after their insertion.
pub open spec fn surviving(ops: Seq<QueueOp>) -> Seq<EntryModel> {
    surviving_from(ops, 0, 0)
}

/// Appending an enqueue introduces no dismissal.
proof fn lemma_dismissed_after_push_enqueue(
    ops: Seq<QueueOp>,
    op: QueueOp,
    j: int,
    id: nat,
)
    requires
        op is Enqueue,
        0 <= j,
    ensures
        dismissed_after(ops.push(op), j, id) <==> dismissed_after(ops, j, id),
{
    if dismissed_after(ops, j, id) {
        let k = choose|k: int| j < k < ops.len() && ops[k] == (QueueOp::Dismiss { id });
        assert(ops.push(op)[k] == (QueueOp::Dismiss { id }));
    }
    if dismissed_after(ops.push(op), j, id) {
        let k = choose|k: int|
            j < k < ops.push(op).len() && ops.push(op)[k] == (QueueOp::Dismiss { id });
        assert(ops.push(op)[ops.len() as int] == op);
        assert(k < ops.len());
        assert(ops.push(op)[k] == ops[k]);
        assert(ops[k] == (QueueOp::Dismiss { id }));
    }
}

/// Appending a dismissal dismisses exactly its id, everywhere before it.
proof fn lemma_dismissed_after_push_dismiss(ops: Seq<QueueOp>, j: int, id: nat, d: nat)
    requires
        0 <= j < ops.len(),
    ensures
        dismissed_after(ops.push(QueueOp::Dismiss { id: d }), j, id) <==> (dismissed_after(
            ops,
            j,
            id,
        ) || id == d),
{
    let pushed = ops.push(QueueOp::Dismiss { id: d });
    if dismissed_after(ops, j, id) {
        let k = choose|k: int| j < k < ops.len() && ops[k] == (QueueOp::Dismiss { id });
        assert(pushed[k] == (QueueOp::Dismiss { id }));
    }
    if id == d {
        assert(pushed[ops.len() as int] == (QueueOp::Dismiss { id }));
    }
    if dismissed_after(pushed, j, id) && !dismissed_after(ops, j, id) {
        let k = choose|k: int| j < k < pushed.len() && pushed[k] == (QueueOp::Dismiss { id });
        if k < ops.len() {
            assert(ops[k] == (QueueOp::Dismiss { id }));
        } else {
            assert(pushed[k] == (QueueOp::Dismiss { id: d }));
        }
    }
}

/// Appending an enqueue appends one surviving entry, whose id continues the
/// count of the enqueues already scanned past.
proof fn lemma_surviving_push_enqueue(
    ops: Seq<QueueOp>,
    text: Seq<char>,
    style: NotificationStyle,
    j: int,
    next: nat,
)
    requires
        0 <= j <= ops.len(),
    ensures
        surviving_from(ops.push(QueueOp::Enqueue { text, style }), j, next) == surviving_from(
            ops,
            j,
            next,
        ).push(EntryModel { id: next + enqueues_from(ops, j), text, style }),
    decreases ops.len() - j,
{
    let op = QueueOp::Enqueue { text, style };
    let pushed = ops.push(op);
    let appended = EntryModel { id: next + enqueues_from(ops, j), text, style };
    if j == ops.len() {
        assert(pushed[j] == op);
        assert(!dismissed_after(pushed, j, next));
        assert(surviving_from(pushed, j + 1, next + 1) =~= Seq::<EntryModel>::empty());
        assert(enqueues_from(ops, j) == 0);
        assert(surviving_from(pushed, j, next) =~= Seq::empty().push(appended));
        assert(surviving_from(ops, j, next) =~= Seq::<EntryModel>::empty());
    } else {
        assert(pushed[j] == ops[j]);
        lemma_dismissed_after_push_enqueue(ops, op, j, next);
        match ops[j] {
            QueueOp::Enqueue { .. } => {
                lemma_surviving_push_enqueue(ops, text, style, j + 1, next + 1);
                if dismissed_after(ops, j, next) {
                } else {
                    assert(seq![surviving_from(ops, j, next)[0]] + surviving_from(
                        ops,
                        j + 1,
                        next + 1,
                    ).push(appended) =~= (seq![surviving_from(ops, j, next)[0]] + surviving_from(
                        ops,
                        j + 1,
                        next + 1,
                    )).push(appended));
                }
            },
            QueueOp::Dismiss { .. } => {
                lemma_surviving_push_enqueue(ops, text, style, j + 1, next);
            },
        }
    }
}

/// Filtering an empty sequence yields an empty sequence.
proof fn lemma_filter_empty(pred: spec_fn(EntryModel) -> bool)
    ensures
        Seq::<EntryModel>::empty().filter(pred) == Seq::<EntryModel>::empty(),
{
    reveal(Seq::filter);
}

/// Filtering distributes over a single prepended element.
proof fn lemma_filter_cons(e: EntryModel, s: Seq<EntryModel>, pred: spec_fn(EntryModel) -> bool)
    ensures
        (seq![e] + s).filter(pred) == if pred(e) {
            seq![e] + s.filter(pred)
        } else {
            s.filter(pred)
        },
{
    broadcast use vstd::seq_lib::group_filter_ensures;

    Seq::filter_distributes_over_add(seq![e], s, pred);
    reveal(Seq::filter);
    assert(seq![e].drop_last() =~= Seq::<EntryModel>::empty());
    lemma_filter_empty(pred);
    if pred(e) {
        assert(seq![e].filter(pred) =~= seq![e]);
    } else {
        assert(seq![e].filter(pred) =~= Seq::<EntryModel>::empty());
        assert(Seq::<EntryModel>::empty() + s.filter(pred) =~= s.filter(pred));
    }
}

/// Appending a dismissal filters the survivors by its id.
proof fn lemma_surviving_push_dismiss(ops: Seq<QueueOp>, d: nat, j: int, next: nat)
    requires
        0 <= j <= ops.len(),
    ensures
        surviving_from(ops.push(QueueOp::Dismiss { id: d }), j, next) == surviving_from(
            ops,
            j,
            next,
        ).filter(keeps_model(d)),
    decreases ops.len() - j,
{
    let op = QueueOp::Dismiss { id: d };
    let pushed = ops.push(op);
    if j == ops.len() {
        assert(pushed[j] == op);
        assert(surviving_from(pushed, j + 1, next) =~= Seq::<EntryModel>::empty());
        assert(surviving_from(pushed, j, next) =~= Seq::<EntryModel>::empty());
        lemma_filter_empty(keeps_model(d));
    } else {
        assert(pushed[j] == ops[j]);
        match ops[j] {
            QueueOp::Enqueue { text, style } => {
                lemma_dismissed_after_push_dismiss(ops, j, next, d);
                lemma_surviving_push_dismiss(ops, d, j + 1, next + 1);
                let e = EntryModel { id: next, text, style };
                let rest = surviving_from(ops, j + 1, next + 1);
                if !dismissed_after(ops, j, next) {
                    lemma_filter_cons(e, rest, keeps_model(d));
                }
            },
            QueueOp::Dismiss { .. } => {
                lemma_surviving_push_dismiss(ops, d, j + 1, next);
            },
        }
    }
}

/// Appending an operation extends the enqueue count accordingly.
proof fn lemma_enqueues_from_push(ops: Seq<QueueOp>, op: QueueOp, j: int)
    requires
        0 <= j <= ops.len(),
    ensures
        enqueues_from(ops.push(op), j) == enqueues_from(ops, j) + (if op is Enqueue {
            1nat
        } else {
            0nat
        }),
    decreases ops.len() - j,
{
    if j < ops.len() {
        assert(ops.push(op)[j] == ops[j]);
        lemma_enqueues_from_push(ops, op, j + 1);
    } else {
        assert(ops.push(op)[j] == op);
        assert(enqueues_from(ops.push(op), j + 1) == 0);
    }
}

/// The queue law: after any history of enqueues and dismissals, the visible
/// entries are exactly the enqueued entries in insertion order minus those
/// whose id a later operation dismissed — dismissal is order-preserving and
/// idempotent — and the next id is the number of enqueues so far.
pub proof fn lemma_queue_history(ops: Seq<QueueOp>)
    ensures
        run_ops(ops).entries == surviving(ops),
        run_ops(ops).next == enqueues_from(ops, 0),
    decreases ops.len(),
{
    if ops.len() == 0 {
    } else {
        let front = ops.drop_last();
        lemma_queue_history(front);
        assert(front.push(ops.last()) =~= ops);
        lemma_enqueues_from_push(front, ops.last(), 0);
        match ops.last() {
            QueueOp::Enqueue { text, style } => {
                lemma_surviving_push_enqueue(front, text, style, 0, 0);
            },
            QueueOp::Dismiss { id } => {
                lemma_surviving_push_dismiss(front, id, 0, 0);
            },
        }
    }
}

/// Filtering the entries commutes with taking their image: the kept-by-id
/// predicate reads only the id, which the image preserves.
proof fn lemma_model_filter_commutes(s: Seq<NotificationEntry>, id: u64)
    ensures
        s.filter(NotificationQueue::keeps(id)).map_values(
            |e: NotificationEntry| entry_model(e),
        ) == s.map_values(|e: NotificationEntry| entry_model(e)).filter(
            keeps_model(id as nat),
        ),
    decreases s.len(),
{
    reveal(Seq::filter);
    let to_model = |e: NotificationEntry| entry_model(e);
    if s.len() == 0 {
        assert(s.map_values(to_model) =~= Seq::<EntryModel>::empty());
    } else {
        lemma_model_filter_commutes(s.drop_last(), id);
        assert(s.map_values(to_model).drop_last() =~= s.drop_last().map_values(to_model));
        if s.last().id != id {
            assert(s.filter(NotificationQueue::keeps(id)).map_values(to_model)
                =~= s.drop_last().filter(NotificationQueue::keeps(id)).map_values(to_model).push(
                to_model(s.last()),
            ));
        }
    }
}

/// `enqueue` advances the queue's image by one enqueue step of the law's
/// interpreter.
pub proof fn lemma_enqueue_steps_model(
    q0: NotificationQueue,
    q1: NotificationQueue,
    text: String,
    style: NotificationStyle,
)
    requires
        q1.next_id == q0.next_id + 1,
        q1.entries@ == q0.entries@.push(
            NotificationEntry { id: q0.next_id, text: text, style: style },
        ),
    ensures
        q1.model() == step_op(q0.model(), QueueOp::Enqueue { text: text@, style }),
{
    let to_model = |e: NotificationEntry| entry_model(e);
    assert(q1.entries@.map_values(to_model) =~= q0.entries@.map_values(to_model).push(
        EntryModel { id: q0.next_id as nat, text: text@, style },
    ));
    assert(q1.model() =~= step_op(q0.model(), QueueOp::Enqueue { text: text@, style }));
}

/// `dismiss` advances the queue's image by one dismiss step of the law's
/// interpreter.
pub proof fn lemma_dismiss_steps_model(q0: NotificationQueue, q1: NotificationQueue, id: u64)
    requires
        q1.next_id == q0.next_id,
        q1.entries@ == q0.entries@.filter(NotificationQueue::keeps(id)),
    ensures
        q1.model() == step_op(q0.model(), QueueOp::Dismiss { id: id as nat }),
{
    lemma_model_filter_commutes(q0.entries@, id);
    assert(q1.model() =~= step_op(q0.model(), QueueOp::Dismiss { id: id as nat }));
}

/// The round trip: enqueueing an entry on a well-formed queue and then
/// dismissing the returned id leaves no visible entry with that id —
/// indeed it restores the visible entries exactly.
pub proof fn lemma_enqueue_dismiss_round_trip(
    q0: NotificationQueue,
    q1: NotificationQueue,
    q2: NotificationQueue,
    text: String,
    style: NotificationStyle,
)
    requires
        q0.wf(),
        q1.entries@ == q0.entries@.push(
            NotificationEntry { id: q0.next_id, text: text, style: style },
        ),
        q2.entries@ == q1.entries@.filter(NotificationQueue::keeps(q0.next_id)),
    ensures
        forall|i: int| 0 <= i < q2.entries@.len() ==> q2.entries@[i].id != q0.next_id,
        q2.entries@ == q0.entries@,
{
    lemma_filter_keeps_has_no_id(q1.entries@, q0.next_id);
    broadcast use vstd::seq_lib::group_filter_ensures;

    q0.entries@.lemma_filter_push(
        NotificationEntry { id: q0.next_id, text: text, style: style },
        NotificationQueue::keeps(q0.next_id),
    );
    lemma_filter_no_match_is_identity(q0.entries@, q0.next_id);
}

/// After filtering by "keeps id", no entry carries the id.
proof fn lemma_filter_keeps_has_no_id(s: Seq<NotificationEntry>, id: u64)
    ensures
        forall|j: int|
            0 <= j < s.filter(NotificationQueue::keeps(id)).len() ==> s.filter(
                NotificationQueue::keeps(id),
            )[j].id != id,
{
    broadcast use vstd::seq_lib::group_filter_ensures;

}

} // verus!
