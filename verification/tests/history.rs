use ferrolite_app::history::{History, OpKind};

/// A stand-in edit stack: the snapshots the history stores are opaque to it.
#[derive(Clone, Debug, Default, PartialEq)]
struct Stack {
    exposure: Option<f32>,
    contrast: Option<f32>,
}

impl Stack {
    fn with_exposure(&self, ev: f32) -> Stack {
        Stack { exposure: Some(ev), ..self.clone() }
    }
    fn with_contrast(&self, amount: f32) -> Stack {
        Stack { contrast: Some(amount), ..self.clone() }
    }
}

fn ev(stack: &Stack, v: f32) -> Stack {
    stack.with_exposure(v)
}

#[test]
fn coalesces_same_kind_into_one_step() {
    let mut h = History::new(Stack::default(), 50);
    let s1 = ev(&Stack::default(), 0.1);
    let s2 = ev(&Stack::default(), 0.2);
    let s3 = ev(&Stack::default(), 0.3);
    h.push(OpKind::Exposure, s1);
    h.push(OpKind::Exposure, s2);
    h.push(OpKind::Exposure, s3.clone());
    assert_eq!(h.current(), &s3);
    // One undo returns to the pre-drag state (identity), not 0.2/0.1.
    assert_eq!(h.undo(), Some(Stack::default()));
    assert!(!h.can_undo());
}

#[test]
fn different_kind_starts_new_step() {
    let mut h = History::new(Stack::default(), 50);
    let s1 = ev(&Stack::default(), 0.5);
    let s2 = s1.with_contrast(0.3);
    h.push(OpKind::Exposure, s1.clone());
    h.push(OpKind::Contrast, s2.clone());
    assert_eq!(h.undo(), Some(s1));
    assert_eq!(h.undo(), Some(Stack::default()));
}

#[test]
fn redo_after_undo_then_push_truncates() {
    let mut h = History::new(Stack::default(), 50);
    let a = ev(&Stack::default(), 0.5);
    h.push(OpKind::Exposure, a.clone());
    assert_eq!(h.undo(), Some(Stack::default()));
    assert_eq!(h.redo(), Some(a));
    assert_eq!(h.undo(), Some(Stack::default()));
    // A new push after an undo drops the redo tail.
    let b = Stack::default().with_contrast(0.2);
    h.push(OpKind::Contrast, b);
    assert!(!h.can_redo(), "redo tail dropped after a fresh push");
}

#[test]
fn cap_drops_oldest() {
    let mut h = History::new(Stack::default(), 2); // initial + 1 more
    h.push(OpKind::Exposure, ev(&Stack::default(), 0.1));
    h.push(OpKind::Contrast, Stack::default().with_contrast(0.2));
    // Capacity 2 means at most 2 entries; the oldest (identity) was dropped.
    let mut steps = 0;
    while h.undo().is_some() {
        steps += 1;
    }
    assert_eq!(steps, 1, "cap=2: exactly one undo step survives after eviction");
}

#[test]
fn no_coalesce_after_undo() {
    let ev = |v: f32| Stack::default().with_exposure(v);
    let mut h = History::new(Stack::default(), 50);
    h.push(OpKind::Exposure, ev(0.1));
    h.push(OpKind::Exposure, ev(0.2)); // coalesces -> one step at tip
    assert_eq!(h.undo(), Some(Stack::default()), "back to pre-drag state");
    // After undo, the same-kind push must NOT coalesce into the pre-undo
    // step: it starts a fresh step.
    h.push(OpKind::Exposure, ev(0.5));
    assert!(!h.can_redo(), "push after undo dropped the redo tail");
    assert_eq!(h.undo(), Some(Stack::default()), "fresh step undoes to identity");
    assert!(!h.can_undo(), "only one step existed after the undo+push");
}

#[test]
fn undo_then_redo_returns_to_the_same_snapshot() {
    let mut h = History::new(Stack::default(), 10);
    let a = ev(&Stack::default(), 1.0);
    let b = a.with_contrast(0.4);
    h.push(OpKind::Exposure, a.clone());
    h.push(OpKind::Contrast, b.clone());
    assert_eq!(h.undo(), Some(a.clone()));
    assert_eq!(h.redo(), Some(b.clone()));
    assert_eq!(h.current(), &b);
    assert_eq!(h.redo(), None);
    assert!(h.can_undo());
}

#[test]
fn zero_capacity_is_raised_to_one() {
    let mut h = History::new(Stack::default(), 0);
    h.push(OpKind::Exposure, ev(&Stack::default(), 0.7));
    assert_eq!(h.current(), &ev(&Stack::default(), 0.7));
    assert!(!h.can_undo());
    assert_eq!(h.undo(), None);
}

#[test]
fn nothing_to_undo_or_redo_on_a_fresh_history() {
    let mut h = History::new(Stack::default(), 5);
    assert!(!h.can_undo());
    assert!(!h.can_redo());
    assert_eq!(h.undo(), None);
    assert_eq!(h.redo(), None);
    assert_eq!(h.current(), &Stack::default());
}
