use ferrolite_app::thumbs::{ThumbUploads, MAX_THUMB_UPLOADS_PER_FRAME};

#[test]
fn uploads_within_budget_go_out_at_once() {
    let mut q: ThumbUploads<i64> = ThumbUploads::new();
    assert!(q.begin_frame().is_empty());
    for id in 0..MAX_THUMB_UPLOADS_PER_FRAME as i64 {
        assert_eq!(q.offer(id), Some(id));
    }
    assert_eq!(q.uploaded_this_frame(), MAX_THUMB_UPLOADS_PER_FRAME);
    assert!(!q.has_backlog());
}

#[test]
fn over_budget_thumbnails_queue_and_drain_in_order_next_frames() {
    let mut q: ThumbUploads<i64> = ThumbUploads::new();
    q.begin_frame();
    let total = 2 * MAX_THUMB_UPLOADS_PER_FRAME as i64 + 3;
    let mut now = Vec::new();
    for id in 0..total {
        if let Some(x) = q.offer(id) {
            now.push(x);
        }
    }
    assert_eq!(now, (0..16).collect::<Vec<i64>>());
    assert!(q.has_backlog());

    // Next frame: the oldest 16 waiting ones, then the budget is spent.
    let batch = q.begin_frame();
    assert_eq!(batch, (16..32).collect::<Vec<i64>>());
    assert_eq!(q.uploaded_this_frame(), 16);
    // A thumbnail decoded now does not overtake the three still waiting.
    assert_eq!(q.offer(99), None);

    let batch = q.begin_frame();
    assert_eq!(batch, vec![32, 33, 34, 99]);
    assert_eq!(q.uploaded_this_frame(), 4);
    assert!(!q.has_backlog());
    assert_eq!(q.offer(100), Some(100));
    assert_eq!(q.uploaded_this_frame(), 5);
}
