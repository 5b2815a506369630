//! Bounded undo/redo ring of edit-stack snapshots with same-kind coalescing.
//! Per-open-image; not persisted (only the resulting edit stack persists).
use vstd::prelude::*;

verus! {

/// The kind of edit a history step records. Consecutive pushes of the same
/// kind coalesce into one undo step (a slider drag is one step, not one per
/// frame).
#[derive(Clone, Copy, Debug, PartialEq, Eq, Structural)]
pub enum OpKind {
    Exposure,
    Contrast,
    WhiteBalance,
    ToneCurve,
    Hsl,
    ColorGrade,
    Sharpen,
    Dehaze,
    LensCorrection,
    LocalAdjustments,
}

/// Bounded history of snapshots: `entries[cursor]` is the current state,
/// everything before it can be undone to, everything after it redone to.
pub struct History<S> {
    entries: Vec<S>,
    cursor: usize,
    cap: usize,
    last_kind: Option<OpKind>,
}

/// Mathematical model of a [`History`].
pub struct HistoryModel<S> {
    pub entries: Seq<S>,
    pub cursor: nat,
    pub cap: nat,
    pub last_kind: Option<OpKind>,
}

impl<S> HistoryModel<S> {
    /// The structural invariant every history maintains: at least one and at
    /// most `cap` entries, and the cursor points at one of them.
    pub open spec fn wf(self) -> bool {
        &&& self.cap >= 1
        &&& 1 <= self.entries.len() <= self.cap
        &&& self.cursor < self.entries.len()
    }

    /// The snapshot the history currently stands on.
    pub open spec fn current(self) -> S {
        self.entries[self.cursor as int]
    }

    pub open spec fn can_undo(self) -> bool {
        self.cursor > 0
    }

    pub open spec fn can_redo(self) -> bool {
        self.cursor + 1 < self.entries.len()
    }

    /// Whether a push of `kind` replaces the tip instead of adding a step.
    pub open spec fn coalesces(self, kind: OpKind) -> bool {
        self.last_kind == Some(kind) && self.cursor > 0
    }

    /// The history after recording `stack` as an edit of `kind`: the redo tail
    /// is dropped, then the tip is either replaced (same kind as the previous
    /// push, coalescing) or a new step is appended; if that exceeds the
    /// capacity, the oldest entry is dropped.
    pub open spec fn push(self, kind: OpKind, stack: S) -> HistoryModel<S> {
        let kept = self.entries.take((self.cursor + 1) as int);
        if self.coalesces(kind) {
            HistoryModel {
                entries: kept.update(self.cursor as int, stack),
                cursor: self.cursor,
                cap: self.cap,
                last_kind: self.last_kind,
            }
        } else if kept.len() + 1 > self.cap {
            HistoryModel {
                entries: kept.push(stack).drop_first(),
                cursor: self.cursor,
                cap: self.cap,
                last_kind: Some(kind),
            }
        } else {
            HistoryModel {
                entries: kept.push(stack),
                cursor: self.cursor + 1,
                cap: self.cap,
                last_kind: Some(kind),
            }
        }
    }

    /// The history after an undo (unchanged when there is nothing to undo).
    pub open spec fn undo(self) -> HistoryModel<S> {
        if self.can_undo() {
            HistoryModel {
                entries: self.entries,
                cursor: (self.cursor - 1) as nat,
                cap: self.cap,
                last_kind: None,
            }
        } else {
            self
        }
    }

    /// The history after a redo (unchanged when there is nothing to redo).
    pub open spec fn redo(self) -> HistoryModel<S> {
        if self.can_redo() {
            HistoryModel {
                entries: self.entries,
                cursor: self.cursor + 1,
                cap: self.cap,
                last_kind: None,
            }
        } else {
            self
        }
    }
}

impl<S> View for History<S> {
    type V = HistoryModel<S>;

    closed spec fn view(&self) -> HistoryModel<S> {
        HistoryModel {
            entries: self.entries@,
            cursor: self.cursor as nat,
            cap: self.cap as nat,
            last_kind: self.last_kind,
        }
    }
}

impl<S: Clone> History<S> {
    /// A history holding only `initial`, bounded to `max(cap, 1)` entries.
    pub fn new(initial: S, cap: usize) -> (h: Self)
        ensures
            h@.wf(),
            h@.entries == seq![initial],
            h@.cursor == 0,
            h@.cap == (if cap >= 1 { cap } else { 1 }),
            h@.last_kind is None,
    {
        let mut entries = Vec::new();
        entries.push(initial);
        History { entries, cursor: 0, cap: if cap >= 1 { cap } else { 1 }, last_kind: None }
    }

    pub fn current(&self) -> (s: &S)
        requires
            self@.wf(),
        ensures
            *s == self@.current(),
    {
        &self.entries[self.cursor]
    }

    pub fn can_undo(&self) -> (b: bool)
        requires
            self@.wf(),
        ensures
            b == self@.can_undo(),
    {
        self.cursor > 0
    }

    pub fn can_redo(&self) -> (b: bool)
        requires
            self@.wf(),
        ensures
            b == self@.can_redo(),
    {
        self.cursor + 1 < self.entries.len()
    }

    /// Record `stack` as the result of an edit of `kind`.
    pub fn push(&mut self, kind: OpKind, stack: S)
        requires
            old(self)@.wf(),
        ensures
            final(self)@.wf(),
            final(self)@ == old(self)@.push(kind, stack),
    {
        // Drop any redo tail.
        self.entries.truncate(self.cursor + 1);
        assert(self.entries@ =~= old(self)@.entries.take((old(self)@.cursor + 1) as int));
        let coalesce = match self.last_kind {
            Some(k) => k == kind && self.cursor > 0,
            None => false,
        };
        if coalesce {
            // Replace the tip rather than append a new step.
            let c: usize = self.cursor;
            self.entries.set(c, stack);
        } else {
            self.entries.push(stack);
            self.cursor = self.cursor + 1;
            self.last_kind = Some(kind);
        }
        // Enforce the bound (drop oldest).
        assert(coalesce == old(self)@.coalesces(kind));
        let ghost before = self.entries@;
        proof {
            let o = old(self)@;
            let kept = o.entries.take((o.cursor + 1) as int);
            if coalesce {
                assert(before =~= kept.update(o.cursor as int, stack));
            } else {
                assert(before =~= kept.push(stack));
            }
        }
        let ghost c0 = self.cursor;
        let ghost lk = self.last_kind;
        while self.entries.len() > self.cap
            invariant
                self.cap == old(self).cap,
                self.last_kind == lk,
                self.cap >= 1,
                before.len() <= self.cap + 1,
                c0 + 1 == before.len() || before.len() <= self.cap,
                c0 < before.len(),
                self.entries.len() == before.len()
                    || (before.len() == self.cap + 1 && self.entries.len() == self.cap),
                self.entries@ =~= before.subrange(before.len() - self.entries@.len(), before.len() as int),
                self.cursor + before.len() == c0 + self.entries.len(),
            decreases self.entries.len(),
        {
            self.entries.remove(0);
            self.cursor = self.cursor - 1;
        }
        proof {
            let o = old(self)@;
            let kept = o.entries.take((o.cursor + 1) as int);
            if !o.coalesces(kind) && kept.len() + 1 > o.cap {
                assert(self.entries@ =~= kept.push(stack).drop_first());
            } else if !o.coalesces(kind) {
                assert(self.entries@ =~= kept.push(stack));
            } else {
                assert(self.entries@ =~= kept.update(o.cursor as int, stack));
            }
            assert(self@ == o.push(kind, stack));
        }
    }

    /// Step back one snapshot, returning a clone of the snapshot now current;
    /// `None` when there is nothing to undo.
    pub fn undo(&mut self) -> (r: Option<S>)
        requires
            old(self)@.wf(),
        ensures
            final(self)@.wf(),
            final(self)@ == old(self)@.undo(),
            r is Some <==> old(self)@.can_undo(),
            r matches Some(s) ==> cloned(final(self)@.current(), s),
    {
        if !self.can_undo() {
            return None;
        }
        self.cursor = self.cursor - 1;
        self.last_kind = None; // next edit starts a fresh step
        Some(self.entries[self.cursor].clone())
    }

    /// Step forward one snapshot, returning a clone of the snapshot now
    /// current; `None` when there is nothing to redo.
    pub fn redo(&mut self) -> (r: Option<S>)
        requires
            old(self)@.wf(),
        ensures
            final(self)@.wf(),
            final(self)@ == old(self)@.redo(),
            r is Some <==> old(self)@.can_redo(),
            r matches Some(s) ==> cloned(final(self)@.current(), s),
    {
        if !self.can_redo() {
            return None;
        }
        self.cursor = self.cursor + 1;
        self.last_kind = None;
        Some(self.entries[self.cursor].clone())
    }
}

/// Every history operation keeps the structural invariant: between one and
/// `cap` snapshots, with the cursor on one of them.
pub proof fn lemma_operations_keep_history_bounded<S>(h: HistoryModel<S>, kind: OpKind, stack: S)
    requires
        h.wf(),
    ensures
        h.push(kind, stack).wf(),
        h.undo().wf(),
        h.redo().wf(),
        h.push(kind, stack).entries.len() <= h.cap,
{
}

/// Undoing and then redoing returns to the same snapshot and position.
pub proof fn lemma_undo_then_redo_restores<S>(h: HistoryModel<S>)
    requires
        h.wf(),
        h.can_undo(),
    ensures
        h.undo().can_redo(),
        h.undo().redo().entries == h.entries,
        h.undo().redo().cursor == h.cursor,
        h.undo().redo().current() == h.current(),
{
}

/// Redoing and then undoing returns to the same snapshot and position.
pub proof fn lemma_redo_then_undo_restores<S>(h: HistoryModel<S>)
    requires
        h.wf(),
        h.can_redo(),
    ensures
        h.redo().can_undo(),
        h.redo().undo().entries == h.entries,
        h.redo().undo().cursor == h.cursor,
        h.redo().undo().current() == h.current(),
{
}

/// A push makes the pushed snapshot current and drops everything that could
/// have been redone.
pub proof fn lemma_push_makes_current_and_drops_redo<S>(h: HistoryModel<S>, kind: OpKind, stack: S)
    requires
        h.wf(),
    ensures
        h.push(kind, stack).current() == stack,
        !h.push(kind, stack).can_redo(),
{
}

/// A push that starts a new step (not coalescing with the previous one),
/// followed by an undo, returns to the snapshot that was current before the
/// push, as long as the history can hold at least two snapshots.
pub proof fn lemma_push_then_undo_restores<S>(h: HistoryModel<S>, kind: OpKind, stack: S)
    requires
        h.wf(),
        !h.coalesces(kind),
        h.cap >= 2,
    ensures
        h.push(kind, stack).can_undo(),
        h.push(kind, stack).undo().current() == h.current(),
{
    let kept = h.entries.take((h.cursor + 1) as int);
    if kept.len() + 1 > h.cap {
        assert(kept.push(stack).drop_first()[h.cursor - 1] == kept[h.cursor as int]);
    }
}

/// Two consecutive pushes of the same kind form a single undo step: one
/// undo returns to the state before the first of them.
pub proof fn lemma_same_kind_pushes_coalesce<S>(h: HistoryModel<S>, kind: OpKind, a: S, b: S)
    requires
        h.wf(),
        !h.coalesces(kind),
        h.cap >= 2,
    ensures
        h.push(kind, a).coalesces(kind),
        h.push(kind, a).push(kind, b).current() == b,
        h.push(kind, a).push(kind, b).undo().current() == h.current(),
{
    let h1 = h.push(kind, a);
    lemma_push_then_undo_restores(h, kind, a);
    let kept = h1.entries.take((h1.cursor + 1) as int);
    assert(kept =~= h1.entries);
    assert(h1.push(kind, b).entries =~= h1.entries.update(h1.cursor as int, b));
}

/// After an undo (or redo) the next push never coalesces: it starts a fresh
/// step instead of overwriting the snapshot that was just restored.
pub proof fn lemma_no_coalescing_after_undo_or_redo<S>(h: HistoryModel<S>, kind: OpKind)
    requires
        h.wf(),
    ensures
        h.can_undo() ==> !h.undo().coalesces(kind),
        h.can_redo() ==> !h.redo().coalesces(kind),
{
}

} // verus!
