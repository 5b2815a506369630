use ferrolite_app::cache::{
    warm_window, CacheKey, DisplayEntry, FullEntry, WarmCache, WarmHit, WARM_FULL_COUNT,
};

type Cache = WarmCache<u32, u32>;

fn disp(bytes: u64) -> DisplayEntry<u32> {
    DisplayEntry { tex: None, dims: (0, 0), bytes }
}

fn key(id: i64, hash: u64) -> CacheKey {
    CacheKey { image_id: id, op_stack_hash: hash }
}

fn full_e(bytes: u64) -> FullEntry<u32> {
    FullEntry { payload: 0, bytes }
}

#[test]
fn display_hit_after_insert_and_miss_otherwise() {
    let mut c = Cache::new(1 << 30);
    assert!(matches!(c.get(key(1, 0)), WarmHit::Miss));
    c.insert_display(key(1, 0), disp(100));
    assert!(matches!(c.get(key(1, 0)), WarmHit::Display(_)));
    // Different op_stack_hash for the same image is a distinct key (edit miss).
    assert!(matches!(c.get(key(1, 9)), WarmHit::Miss));
}

#[test]
fn resident_bytes_sums_display_entries() {
    let mut c = Cache::new(1 << 30);
    c.insert_display(key(1, 0), disp(100));
    c.insert_display(key(2, 0), disp(250));
    assert_eq!(c.resident_bytes(), 350);
    // Re-inserting the same key replaces (does not double-count).
    c.insert_display(key(1, 0), disp(400));
    assert_eq!(c.resident_bytes(), 650);
}

#[test]
fn evicts_least_recently_touched_over_budget() {
    let mut c = Cache::new(300);
    c.insert_display(key(1, 0), disp(100)); // touch 1
    c.insert_display(key(2, 0), disp(100)); // touch 2
    c.insert_display(key(3, 0), disp(100)); // touch 3 -> 300, at budget
    assert_eq!(c.resident_bytes(), 300);
    // Touch #1 so it is now most-recent.
    assert!(matches!(c.get(key(1, 0)), WarmHit::Display(_)));
    // Insert #4 -> over budget by 100 -> evict the LRU, which is now #2.
    c.insert_display(key(4, 0), disp(100));
    assert_eq!(c.resident_bytes(), 300);
    assert!(matches!(c.get(key(2, 0)), WarmHit::Miss), "LRU #2 evicted");
    assert!(matches!(c.get(key(1, 0)), WarmHit::Display(_)), "#1 kept (touched)");
}

#[test]
fn never_evicts_the_open_image() {
    let mut c = Cache::new(150);
    c.insert_display(key(1, 0), disp(100)); // oldest
    c.set_open(Some(key(1, 0)));
    c.insert_display(key(2, 0), disp(100));
    assert!(matches!(c.get(key(1, 0)), WarmHit::Display(_)), "open image never evicted");
}

#[test]
fn open_image_survives_even_when_it_alone_exceeds_budget() {
    let mut c = Cache::new(50);
    c.set_open(Some(key(1, 0)));
    c.insert_display(key(1, 0), disp(100)); // 100 > budget 50, but open
    assert_eq!(c.resident_bytes(), 100, "open image kept despite exceeding budget");
    // Re-run eviction via a no-op budget set; open entry must still not be dropped.
    c.set_budget(50);
    assert_eq!(c.resident_bytes(), 100, "open image kept despite exceeding budget");
    assert!(matches!(c.get(key(1, 0)), WarmHit::Display(_)));
}

#[test]
fn full_tier_caps_at_warm_full_count() {
    let mut c = Cache::new(1 << 30);
    for i in 0..(WARM_FULL_COUNT as i64 + 2) {
        c.insert_display(key(i, 0), disp(10));
        c.insert_full(key(i, 0), full_e(10));
    }
    assert_eq!(c.len_full(), WARM_FULL_COUNT, "full tier bounded by count");
}

#[test]
fn warm_window_is_forward_biased_and_clamped() {
    let ids = [10, 20, 30, 40, 50, 60, 70];
    // current=30 (pos 2), forward 3 back 1 -> [40,50,60] forward + [20] back,
    // forward first (culling direction), current excluded.
    assert_eq!(warm_window(&ids, 30, 3, 1), vec![40, 50, 60, 20]);
    // Clamp at the end.
    assert_eq!(warm_window(&ids, 70, 3, 1), vec![60]);
    // current absent -> empty.
    assert!(warm_window(&ids, 999, 3, 1).is_empty());
}

#[test]
fn get_returns_full_when_both_tiers_present() {
    let mut c = Cache::new(1 << 30);
    c.insert_display(key(1, 0), disp(10));
    c.insert_full(key(1, 0), full_e(10));
    assert!(matches!(c.get(key(1, 0)), WarmHit::Full { .. }));
    // Full without display degrades to nothing (full needs its display too).
    c.insert_full(key(2, 0), full_e(10));
    assert!(matches!(c.get(key(2, 0)), WarmHit::Miss));
}

#[test]
fn warm_window_lists_back_neighbors_nearest_first() {
    let ids = [1, 2, 3, 4, 5];
    assert_eq!(warm_window(&ids, 4, 0, 3), vec![3, 2, 1]);
    assert_eq!(warm_window(&ids, 1, 2, 2), vec![2, 3]);
    // A huge window is clamped to the list on both sides.
    assert_eq!(warm_window(&ids, 3, usize::MAX, usize::MAX), vec![4, 5, 2, 1]);
    // The first occurrence of a repeated id is the anchor.
    assert_eq!(warm_window(&[7, 8, 7, 9], 7, 1, 1), vec![8]);
}

#[test]
fn hit_returns_the_stored_entry_and_touch_reorders_eviction() {
    let mut c = Cache::new(200);
    c.insert_display(key(1, 0), DisplayEntry { tex: Some(11), dims: (4, 3), bytes: 100 });
    c.insert_full(key(1, 0), FullEntry { payload: 77, bytes: 50 });
    match c.get(key(1, 0)) {
        WarmHit::Full { full, display } => {
            assert_eq!(full.payload, 77);
            assert_eq!(full.bytes, 50);
            assert_eq!(display.tex, Some(11));
            assert_eq!(display.dims, (4, 3));
            assert_eq!(display.bytes, 100);
        }
        _ => panic!("expected a full hit"),
    }
    assert_eq!(c.resident_bytes(), 150);
    // Over budget: the display entry of key 1 is the only non-open candidate.
    c.insert_display(key(2, 0), disp(100));
    assert_eq!(c.resident_bytes(), 150);
    assert!(matches!(c.get(key(1, 0)), WarmHit::Miss));
    assert_eq!(c.len_display(), 1);
}

#[test]
fn open_full_entry_is_never_dropped_by_the_count_bound() {
    let mut c = Cache::new(1 << 30);
    c.set_open(Some(key(1, 0)));
    c.insert_full(key(1, 0), full_e(1));
    c.insert_full(key(2, 0), full_e(1));
    c.insert_full(key(3, 0), full_e(1));
    c.insert_display(key(1, 0), disp(1));
    assert_eq!(c.len_full(), 2);
    assert!(matches!(c.get(key(1, 0)), WarmHit::Full { .. }));
}

#[test]
fn budget_pass_never_evicts_full_entries() {
    let mut c = Cache::new(100);
    c.insert_full(key(1, 0), full_e(200));
    // Over budget, but the full tier is bounded by count only.
    assert_eq!(c.len_full(), 1);
    c.insert_display(key(2, 0), disp(10));
    // The display entry is evicted; the full entry stays.
    assert_eq!(c.len_display(), 0);
    assert_eq!(c.len_full(), 1);
    assert_eq!(c.resident_bytes(), 200);
    c.set_budget(50);
    assert_eq!(c.len_full(), 1);
}

#[test]
fn overshoot_is_the_open_display_entry_plus_the_full_tier() {
    let mut c = Cache::new(100);
    c.insert_display(key(2, 0), disp(30));
    c.insert_full(key(2, 0), full_e(30));
    c.set_open(Some(key(1, 0)));
    c.insert_display(key(1, 0), disp(50));
    c.insert_full(key(1, 0), full_e(90));
    // Only the non-open display entry goes: 50 + 30 + 90 resident.
    assert_eq!(c.len_display(), 1);
    assert_eq!(c.len_full(), 2);
    assert_eq!(c.resident_bytes(), 170);
    assert!(matches!(c.get(key(1, 0)), WarmHit::Full { .. }));
    assert!(matches!(c.get(key(2, 0)), WarmHit::Miss));
}

#[test]
fn display_entries_are_evicted_lru_first_under_budget() {
    let mut c = Cache::new(100);
    c.insert_display(key(1, 0), disp(40));
    c.insert_full(key(1, 0), full_e(40));
    // 40 + 40 + 40 = 120 > 100: the least recent display entry (#1) goes,
    // and the full entry of #1 stays.
    c.insert_display(key(2, 0), disp(40));
    assert_eq!(c.len_display(), 1);
    assert_eq!(c.len_full(), 1);
    assert_eq!(c.resident_bytes(), 80);
    assert!(matches!(c.get(key(2, 0)), WarmHit::Display(_)));
}
