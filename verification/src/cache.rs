//! Develop warm-navigation cache: a two-level in-RAM cache of recently shown
//! render state, keyed by `(image_id, op_stack_hash)`, so filmstrip navigation
//! reveals instantly. The resident total of both tiers is held to a byte
//! budget by least-recently-touched eviction of display entries; the
//! full-pipeline tier is bounded by count instead and never budget-evicted.
//! The open image is never evicted. Payloads (GPU handles) are opaque: the
//! cache only reads their byte sizes.
//!
//! Each tier is a `Vec` of slots with unique keys rather than a hash map:
//! the key is a struct with derived `Eq` and `Hash`, and over such keys
//! Verus's `HashMap` specifications prove next to nothing (not even the
//! length after one insert), whereas the slot sequence lets every contract
//! below state exactly which entries stay and which go.
use vstd::prelude::*;

verus! {

/// Neighbors warmed AHEAD of the current image (the culling direction).
pub const WARM_WINDOW_FORWARD: usize = 4;

/// Neighbors warmed BEHIND the current image.
pub const WARM_WINDOW_BACK: usize = 2;

/// How many most-recent images also retain the full pipeline (instant 1:1).
pub const WARM_FULL_COUNT: usize = 2;

/// The neighbors `warm_window` selects when `current` sits at `pos`: up to
/// `forward` ids after it (nearest first), then up to `back` ids before it
/// (nearest first).
pub open spec fn warm_window_spec(ids: Seq<i64>, pos: int, forward: nat, back: nat) -> Seq<i64> {
    let end = if pos + 1 + forward < ids.len() { pos + 1 + forward } else { ids.len() as int };
    let n_back = if back < pos { back as int } else { pos };
    ids.subrange(pos + 1, end) + Seq::new(n_back as nat, |j: int| ids[pos - 1 - j])
}

/// Forward-biased neighbor selection for warm prefetch: up to `forward` ids
/// ahead of the first occurrence of `current` (listed first), then up to
/// `back` behind it, clamped to the list, excluding `current`. Empty if
/// `current` is absent.
pub fn warm_window(ids: &[i64], current: i64, forward: usize, back: usize) -> (out: Vec<i64>)
    ensures
        (forall|i: int| 0 <= i < ids@.len() ==> ids@[i] != current) ==> out@ == Seq::<i64>::empty(),
        forall|p: int|
            0 <= p < ids@.len() && ids@[p] == current && (forall|j: int| 0 <= j < p ==> ids@[j]
                != current) ==> out@ == warm_window_spec(ids@, p, forward as nat, back as nat),
{
    let len: usize = ids.len();
    let mut pos: usize = 0;
    while pos < len && ids[pos] != current
        invariant
            pos <= len,
            len == ids@.len(),
            forall|j: int| 0 <= j < pos ==> ids@[j] != current,
        decreases len - pos,
    {
        pos = pos + 1;
    }
    if pos == len {
        return Vec::new();
    }
    let mut out: Vec<i64> = Vec::new();
    let end: usize = if forward < len - pos - 1 { pos + 1 + forward } else { len };
    let mut i: usize = pos + 1;
    while i < end
        invariant
            pos < len,
            len == ids@.len(),
            pos + 1 <= i <= end <= len,
            out@ == ids@.subrange(pos + 1, i as int),
        decreases end - i,
    {
        out.push(ids[i]);
        i = i + 1;
    }
    let n_back: usize = if back < pos { back } else { pos };
    let ghost fwd = out@;
    let mut k: usize = 0;
    while k < n_back
        invariant
            n_back <= pos < len,
            len == ids@.len(),
            k <= n_back,
            out@ == fwd + Seq::new(k as nat, |j: int| ids@[pos - 1 - j]),
        decreases n_back - k,
    {
        out.push(ids[pos - 1 - k]);
        k = k + 1;
        assert(out@ =~= fwd + Seq::new(k as nat, |j: int| ids@[pos - 1 - j]));
    }
    proof {
        assert forall|p: int|
            0 <= p < ids@.len() && ids@[p] == current && (forall|j: int| 0 <= j < p ==> ids@[j]
                != current) implies out@ == warm_window_spec(ids@, p, forward as nat, back as nat) by {
            assert(p == pos);
            assert(out@ =~= warm_window_spec(ids@, p, forward as nat, back as nat));
        }
    }
    out
}

/// Identity of a cached render: an edit (new op stack) yields a new hash, so
/// the stale entry is a natural miss and ages out by LRU.
#[derive(Debug, Clone, Copy, PartialEq, Eq, Hash, Structural)]
pub struct CacheKey {
    pub image_id: i64,
    pub op_stack_hash: u64,
}

/// Display-tier payload: the edited display texture (`None` only where no GPU
/// is present), its pixel dimensions, and its resident size in bytes.
pub struct DisplayEntry<T> {
    pub tex: Option<T>,
    pub dims: (u32, u32),
    pub bytes: u64,
}

/// Full-pipeline payload for the most recent images: the GPU pyramid, tile
/// source and render parameters travel together as `payload`.
pub struct FullEntry<F> {
    pub payload: F,
    pub bytes: u64,
}

/// Result of consulting the cache for a key.
pub enum WarmHit<T, F> {
    Full { full: FullEntry<F>, display: DisplayEntry<T> },
    Display(DisplayEntry<T>),
    Miss,
}

/// One cached entry with its key, its resident size and the tick at which it
/// was last touched (the LRU stamp).
pub struct Slot<E> {
    pub key: CacheKey,
    pub entry: E,
    pub bytes: u64,
    pub touched: u64,
}

/// Sum of the resident sizes of a tier's slots.
pub open spec fn total<E>(s: Seq<Slot<E>>) -> nat
    decreases s.len(),
{
    if s.len() == 0 {
        0
    } else {
        total(s.drop_last()) + s.last().bytes as nat
    }
}

/// No key occurs twice in a tier.
pub open spec fn keys_unique<E>(s: Seq<Slot<E>>) -> bool {
    forall|i: int, j: int| 0 <= i < j < s.len() ==> s[i].key != s[j].key
}

/// Whether some slot of the tier holds `key`.
pub open spec fn has_key<E>(s: Seq<Slot<E>>, key: CacheKey) -> bool {
    exists|i: int| 0 <= i < s.len() && s[i].key == key
}

/// The position of `key` in a tier (unique in a well-formed tier).
pub open spec fn index_of<E>(s: Seq<Slot<E>>, key: CacheKey) -> Option<int> {
    if has_key(s, key) {
        Some(choose|i: int| 0 <= i < s.len() && s[i].key == key)
    } else {
        None
    }
}

/// Whether `key` is the protected open image.
pub open spec fn is_open_key(open: Option<CacheKey>, key: CacheKey) -> bool {
    open == Some(key)
}

/// The eviction victim of a tier: the position of the least recently touched
/// slot that is not the open image (the earliest such on ties), or `None`
/// when only the open image (or nothing) remains.
pub open spec fn victim<E>(s: Seq<Slot<E>>, open: Option<CacheKey>) -> Option<int>
    decreases s.len(),
{
    if s.len() == 0 {
        None
    } else {
        let last = s.len() - 1;
        let rest = victim(s.drop_last(), open);
        if is_open_key(open, s[last].key) {
            rest
        } else {
            match rest {
                None => Some(last),
                Some(i) => if s[last].touched < s[i].touched {
                    Some(last)
                } else {
                    Some(i)
                },
            }
        }
    }
}

/// The tier after inserting `slot`: it replaces the slot with the same key,
/// or is appended when the key is new.
pub open spec fn upsert<E>(s: Seq<Slot<E>>, slot: Slot<E>) -> Seq<Slot<E>> {
    match index_of(s, slot.key) {
        Some(i) => s.update(i, slot),
        None => s.push(slot),
    }
}

/// The tier with the slot at `i` stamped as touched at `now`.
pub open spec fn touch<E>(s: Seq<Slot<E>>, i: int, now: u64) -> Seq<Slot<E>> {
    s.update(i, Slot { key: s[i].key, entry: s[i].entry, bytes: s[i].bytes, touched: now })
}

/// The display tier after byte-budget eviction: while the resident total
/// (this tier plus `other` bytes of the full tier) exceeds `budget`, the
/// eviction victim is removed; stops when within budget or when only the
/// open image remains.
pub open spec fn evict<E>(s: Seq<Slot<E>>, other: nat, budget: u64, open: Option<CacheKey>) -> Seq<
    Slot<E>,
>
    decreases s.len(),
{
    if total(s) + other <= budget {
        s
    } else {
        match victim(s, open) {
            None => s,
            Some(i) => if 0 <= i < s.len() {
                evict(s.remove(i), other, budget, open)
            } else {
                s
            },
        }
    }
}

/// The full tier after bounding it to `WARM_FULL_COUNT` entries by removing
/// eviction victims (never the open image).
pub open spec fn cap_count<E>(s: Seq<Slot<E>>, open: Option<CacheKey>) -> Seq<Slot<E>>
    decreases s.len(),
{
    if s.len() <= WARM_FULL_COUNT {
        s
    } else {
        match victim(s, open) {
            None => s,
            Some(i) => if 0 <= i < s.len() {
                cap_count(s.remove(i), open)
            } else {
                s
            },
        }
    }
}

/// Bytes a tier holds for `key` (0 when the key is absent).
pub open spec fn key_bytes<E>(s: Seq<Slot<E>>, key: CacheKey) -> nat {
    match index_of(s, key) {
        Some(i) => s[i].bytes as nat,
        None => 0,
    }
}

/// Every slot of the tier was touched at or before `clock`.
pub open spec fn stamps_upto<E>(s: Seq<Slot<E>>, clock: u64) -> bool {
    forall|i: int| 0 <= i < s.len() ==> s[i].touched <= clock
}

/// No two slots of a tier carry the same touch stamp.
pub open spec fn stamps_distinct<E>(s: Seq<Slot<E>>) -> bool {
    forall|i: int, j: int| 0 <= i < j < s.len() ==> s[i].touched != s[j].touched
}

/// Mathematical model of a [`WarmCache`].
pub struct WarmCacheModel<T, F> {
    pub budget: u64,
    pub clock: u64,
    pub open: Option<CacheKey>,
    pub display: Seq<Slot<DisplayEntry<T>>>,
    pub full: Seq<Slot<FullEntry<F>>>,
}

impl<T, F> WarmCacheModel<T, F> {
    /// Keys are unique within each tier, every slot was touched at or before
    /// the clock with no two slots of a tier sharing a stamp, and the resident
    /// total fits a `u64`.
    pub open spec fn wf(self) -> bool {
        &&& keys_unique(self.display)
        &&& keys_unique(self.full)
        &&& stamps_upto(self.display, self.clock)
        &&& stamps_upto(self.full, self.clock)
        &&& stamps_distinct(self.display)
        &&& stamps_distinct(self.full)
        &&& total(self.display) + total(self.full) <= u64::MAX
    }

    pub open spec fn resident(self) -> nat {
        total(self.display) + total(self.full)
    }

    /// Bytes of the open image's display entry (0 with no open image or no
    /// such entry).
    pub open spec fn open_display_bytes(self) -> nat {
        match self.open {
            Some(k) => key_bytes(self.display, k),
            None => 0,
        }
    }

    /// The model after inserting a display entry stamped at the next tick,
    /// before the budget pass.
    pub open spec fn with_display(self, key: CacheKey, entry: DisplayEntry<T>) -> WarmCacheModel<
        T,
        F,
    > {
        let now = (self.clock + 1) as u64;
        WarmCacheModel {
            budget: self.budget,
            clock: now,
            open: self.open,
            display: upsert(self.display, Slot { key, entry, bytes: entry.bytes, touched: now }),
            full: self.full,
        }
    }

    /// The model after inserting a full entry stamped at the next tick and
    /// bounding the full tier by count, before the budget pass.
    pub open spec fn with_full(self, key: CacheKey, entry: FullEntry<F>) -> WarmCacheModel<T, F> {
        let now = (self.clock + 1) as u64;
        WarmCacheModel {
            budget: self.budget,
            clock: now,
            open: self.open,
            display: self.display,
            full: cap_count(
                upsert(self.full, Slot { key, entry, bytes: entry.bytes, touched: now }),
                self.open,
            ),
        }
    }

    /// The budget pass: while the resident total (both tiers) is over budget,
    /// the least recently touched display entry that is not the open image's
    /// is evicted. The full tier is bounded by count, not evicted here, so
    /// the cache may stay over budget by the open image's display bytes plus
    /// the full tier's bytes.
    pub open spec fn budget_pass(self) -> WarmCacheModel<T, F> {
        WarmCacheModel {
            budget: self.budget,
            clock: self.clock,
            open: self.open,
            display: evict(self.display, total(self.full), self.budget, self.open),
            full: self.full,
        }
    }
}

/// The two-tier warm cache.
pub struct WarmCache<T, F> {
    budget: u64,
    clock: u64,
    open: Option<CacheKey>,
    display: Vec<Slot<DisplayEntry<T>>>,
    full: Vec<Slot<FullEntry<F>>>,
}

impl<T, F> View for WarmCache<T, F> {
    type V = WarmCacheModel<T, F>;

    closed spec fn view(&self) -> WarmCacheModel<T, F> {
        WarmCacheModel {
            budget: self.budget,
            clock: self.clock,
            open: self.open,
            display: self.display@,
            full: self.full@,
        }
    }
}

// ---------------------------------------------------------------------------
// Lemmas about tiers
// ---------------------------------------------------------------------------

proof fn lemma_total_push<E>(s: Seq<Slot<E>>, x: Slot<E>)
    ensures
        total(s.push(x)) == total(s) + x.bytes,
{
    assert(s.push(x).drop_last() =~= s);
}

proof fn lemma_total_remove<E>(s: Seq<Slot<E>>, i: int)
    requires
        0 <= i < s.len(),
    ensures
        total(s.remove(i)) + s[i].bytes == total(s),
    decreases s.len(),
{
    if i == s.len() - 1 {
        assert(s.remove(i) =~= s.drop_last());
    } else {
        lemma_total_remove(s.drop_last(), i);
        assert(s.remove(i).drop_last() =~= s.drop_last().remove(i));
    }
}

proof fn lemma_total_update<E>(s: Seq<Slot<E>>, i: int, x: Slot<E>)
    requires
        0 <= i < s.len(),
    ensures
        total(s.update(i, x)) + s[i].bytes == total(s) + x.bytes,
    decreases s.len(),
{
    if i == s.len() - 1 {
        assert(s.update(i, x).drop_last() =~= s.drop_last());
    } else {
        lemma_total_update(s.drop_last(), i, x);
        assert(s.update(i, x).drop_last() =~= s.drop_last().update(i, x));
    }
}

proof fn lemma_total_prefix<E>(s: Seq<Slot<E>>, i: int)
    requires
        0 <= i <= s.len(),
    ensures
        total(s.take(i)) <= total(s),
        i < s.len() ==> total(s.take(i + 1)) == total(s.take(i)) + s[i].bytes,
    decreases s.len(),
{
    if i < s.len() {
        assert(s.take(i + 1).drop_last() =~= s.take(i));
    }
    if i == s.len() {
        assert(s.take(i) =~= s);
    } else {
        lemma_total_prefix(s.drop_last(), i);
        assert(s.take(i) =~= s.drop_last().take(i));
    }
}

proof fn lemma_index_of<E>(s: Seq<Slot<E>>, key: CacheKey)
    requires
        keys_unique(s),
    ensures
        index_of(s, key) is None <==> !has_key(s, key),
        forall|i: int| 0 <= i < s.len() && s[i].key == key ==> index_of(s, key) == Some(i),
{
}

proof fn lemma_victim<E>(s: Seq<Slot<E>>, open: Option<CacheKey>)
    ensures
        victim(s, open) matches Some(i) ==> {
            &&& 0 <= i < s.len()
            &&& !is_open_key(open, s[i].key)
            &&& forall|j: int|
                0 <= j < s.len() && !is_open_key(open, s[j].key) ==> s[i].touched <= s[j].touched
        },
        victim(s, open) is None ==> forall|j: int| 0 <= j < s.len() ==> is_open_key(open, s[j].key),
    decreases s.len(),
{
    if s.len() > 0 {
        let r = s.drop_last();
        lemma_victim(r, open);
        assert forall|j: int| 0 <= j < r.len() implies r[j] == s[j] by {}
    }
}

proof fn lemma_unique_remove<E>(s: Seq<Slot<E>>, i: int)
    requires
        keys_unique(s),
        0 <= i < s.len(),
    ensures
        keys_unique(s.remove(i)),
        forall|x: Slot<E>| s.remove(i).contains(x) ==> s.contains(x),
        stamps_distinct(s) ==> stamps_distinct(s.remove(i)),
        forall|c: u64| stamps_upto(s, c) ==> stamps_upto(s.remove(i), c),
{
    let r = s.remove(i);
    assert forall|k: int| 0 <= k < r.len() implies r[k] == (if k < i { s[k] } else { s[k + 1] }) by {}
    if stamps_distinct(s) {
        assert forall|a: int, b: int| 0 <= a < b < r.len() implies r[a].touched != r[b].touched by {
            let sa = if a < i { a } else { a + 1 };
            let sb = if b < i { b } else { b + 1 };
            assert(r[a] == s[sa] && r[b] == s[sb] && sa < sb);
        }
    }
    assert forall|c: u64| stamps_upto(s, c) implies stamps_upto(r, c) by {
        assert forall|k: int| 0 <= k < r.len() implies r[k].touched <= c by {
            if k < i {
                assert(r[k] == s[k]);
            } else {
                assert(r[k] == s[k + 1]);
            }
        }
    }
    assert forall|x: Slot<E>| s.remove(i).contains(x) implies s.contains(x) by {
        let k = choose|k: int| 0 <= k < s.remove(i).len() && s.remove(i)[k] == x;
        if k < i {
            assert(s[k] == x);
        } else {
            assert(s[k + 1] == x);
        }
    }
}

proof fn lemma_upsert<E>(s: Seq<Slot<E>>, slot: Slot<E>)
    requires
        keys_unique(s),
    ensures
        keys_unique(upsert(s, slot)),
        has_key(upsert(s, slot), slot.key),
        index_of(s, slot.key) matches Some(i) ==> total(upsert(s, slot)) + s[i].bytes == total(s)
            + slot.bytes,
        index_of(s, slot.key) is None ==> total(upsert(s, slot)) == total(s) + slot.bytes,
{
    lemma_index_of(s, slot.key);
    match index_of(s, slot.key) {
        Some(i) => {
            lemma_total_update(s, i, slot);
            assert(upsert(s, slot)[i].key == slot.key);
        },
        None => {
            lemma_total_push(s, slot);
            assert(upsert(s, slot)[s.len() as int].key == slot.key);
        },
    }
}

/// Eviction keeps keys unique, only ever removes slots, and never lowers the
/// resident total below what it removes.
proof fn lemma_evict_basics<E>(s: Seq<Slot<E>>, other: nat, budget: u64, open: Option<CacheKey>)
    requires
        keys_unique(s),
    ensures
        keys_unique(evict(s, other, budget, open)),
        total(evict(s, other, budget, open)) <= total(s),
        forall|x: Slot<E>| evict(s, other, budget, open).contains(x) ==> s.contains(x),
        stamps_distinct(s) ==> stamps_distinct(evict(s, other, budget, open)),
        forall|c: u64| stamps_upto(s, c) ==> stamps_upto(evict(s, other, budget, open), c),
        evict(s, other, budget, open).len() <= s.len(),
    decreases s.len(),
{
    if total(s) + other > budget {
        lemma_victim(s, open);
        if let Some(i) = victim(s, open) {
            lemma_unique_remove(s, i);
            lemma_total_remove(s, i);
            lemma_evict_basics(s.remove(i), other, budget, open);
        }
    }
}

proof fn lemma_cap_count_basics<E>(s: Seq<Slot<E>>, open: Option<CacheKey>)
    requires
        keys_unique(s),
    ensures
        keys_unique(cap_count(s, open)),
        total(cap_count(s, open)) <= total(s),
        forall|x: Slot<E>| cap_count(s, open).contains(x) ==> s.contains(x),
        cap_count(s, open).len() <= WARM_FULL_COUNT || cap_count(s, open).len() <= s.len(),
        stamps_distinct(s) ==> stamps_distinct(cap_count(s, open)),
        forall|c: u64| stamps_upto(s, c) ==> stamps_upto(cap_count(s, open), c),
    decreases s.len(),
{
    if s.len() > WARM_FULL_COUNT {
        lemma_victim(s, open);
        if let Some(i) = victim(s, open) {
            lemma_unique_remove(s, i);
            lemma_total_remove(s, i);
            lemma_cap_count_basics(s.remove(i), open);
        }
    }
}

proof fn lemma_upsert_stamps<E>(s: Seq<Slot<E>>, slot: Slot<E>, clock: u64)
    requires
        keys_unique(s),
        stamps_upto(s, clock),
        stamps_distinct(s),
        clock < slot.touched,
    ensures
        stamps_upto(upsert(s, slot), slot.touched),
        stamps_distinct(upsert(s, slot)),
{
    lemma_index_of(s, slot.key);
    let u = upsert(s, slot);
    match index_of(s, slot.key) {
        Some(i) => {
            assert forall|a: int, b: int| 0 <= a < b < u.len() implies u[a].touched
                != u[b].touched by {
                if a != i && b != i {
                    assert(u[a] == s[a] && u[b] == s[b]);
                }
            }
        },
        None => {
            assert forall|a: int, b: int| 0 <= a < b < u.len() implies u[a].touched
                != u[b].touched by {
                if b < s.len() {
                    assert(u[a] == s[a] && u[b] == s[b]);
                }
            }
        },
    }
}

proof fn lemma_touch_stamps<E>(s: Seq<Slot<E>>, i: int, clock: u64, now: u64)
    requires
        0 <= i < s.len(),
        keys_unique(s),
        stamps_upto(s, clock),
        stamps_distinct(s),
        clock < now,
    ensures
        keys_unique(touch(s, i, now)),
        stamps_upto(touch(s, i, now), now),
        stamps_distinct(touch(s, i, now)),
        total(touch(s, i, now)) == total(s),
{
    let t = touch(s, i, now);
    lemma_total_update(s, i, t[i]);
    assert forall|a: int, b: int| 0 <= a < b < t.len() implies t[a].key != t[b].key
        && t[a].touched != t[b].touched by {
        assert(t[a].key == s[a].key && t[b].key == s[b].key);
    }
}

/// A tier whose slots are all taken from `s` keeps the stamps bound of `s`.
proof fn lemma_stamps_subset<E>(s: Seq<Slot<E>>, r: Seq<Slot<E>>, clock: u64)
    requires
        stamps_upto(s, clock),
        forall|x: Slot<E>| r.contains(x) ==> s.contains(x),
    ensures
        stamps_upto(r, clock),
{
    assert forall|k: int| 0 <= k < r.len() implies r[k].touched <= clock by {
        assert(r.contains(r[k]));
        let j = choose|j: int| 0 <= j < s.len() && s[j] == r[k];
    }
}

/// A tier that keeps every slot of `key` from `s` (and takes all its slots
/// from `s`) holds the same bytes for `key`.
proof fn lemma_key_bytes_kept<E>(s: Seq<Slot<E>>, r: Seq<Slot<E>>, key: CacheKey)
    requires
        keys_unique(s),
        keys_unique(r),
        forall|x: Slot<E>| r.contains(x) ==> s.contains(x),
        forall|x: Slot<E>| s.contains(x) && x.key == key ==> r.contains(x),
    ensures
        key_bytes(r, key) == key_bytes(s, key),
{
    lemma_index_of(s, key);
    lemma_index_of(r, key);
    if has_key(s, key) {
        let i = choose|i: int| 0 <= i < s.len() && s[i].key == key;
        assert(s.contains(s[i]));
        assert(r.contains(s[i]));
        let j = choose|j: int| 0 <= j < r.len() && r[j] == s[i];
        assert(index_of(r, key) == Some(j));
    } else if has_key(r, key) {
        let j = choose|j: int| 0 <= j < r.len() && r[j].key == key;
        assert(r.contains(r[j]));
        assert(s.contains(r[j]));
        let i = choose|i: int| 0 <= i < s.len() && s[i] == r[j];
        assert(s[i].key == key);
    }
}

/// A tier holding only slots of the open image holds exactly the open
/// image's bytes.
proof fn lemma_all_open_total<E>(s: Seq<Slot<E>>, open: Option<CacheKey>)
    requires
        keys_unique(s),
        forall|i: int| 0 <= i < s.len() ==> is_open_key(open, s[i].key),
    ensures
        total(s) == (match open {
            Some(k) => key_bytes(s, k),
            None => 0,
        }),
{
    if s.len() > 1 {
        assert(s[0].key != s[1].key);
    }
    if s.len() == 0 {
    } else {
        assert(is_open_key(open, s[0].key));
        assert(s.len() == 1);
        assert(total(s.drop_last()) == 0);
        assert(total(s) == s[0].bytes);
        lemma_index_of(s, s[0].key);
        assert(index_of(s, s[0].key) == Some(0int));
    }
}

proof fn lemma_upsert_members<E>(s: Seq<Slot<E>>, slot: Slot<E>)
    requires
        keys_unique(s),
    ensures
        upsert(s, slot).contains(slot),
        forall|x: Slot<E>| upsert(s, slot).contains(x) ==> x == slot || s.contains(x),
        forall|k: CacheKey| has_key(s, k) ==> has_key(upsert(s, slot), k),
{
    lemma_index_of(s, slot.key);
    let u = upsert(s, slot);
    match index_of(s, slot.key) {
        Some(i) => {
            assert(u[i] == slot);
            assert forall|x: Slot<E>| u.contains(x) implies x == slot || s.contains(x) by {
                let k = choose|k: int| 0 <= k < u.len() && u[k] == x;
                if k != i {
                    assert(s[k] == x);
                }
            }
            assert forall|k: CacheKey| has_key(s, k) implies has_key(u, k) by {
                let j = choose|j: int| 0 <= j < s.len() && s[j].key == k;
                assert(u[j].key == k);
            }
        },
        None => {
            assert(u[s.len() as int] == slot);
            assert forall|x: Slot<E>| u.contains(x) implies x == slot || s.contains(x) by {
                let k = choose|k: int| 0 <= k < u.len() && u[k] == x;
                if k < s.len() {
                    assert(s[k] == x);
                }
            }
            assert forall|k: CacheKey| has_key(s, k) implies has_key(u, k) by {
                let j = choose|j: int| 0 <= j < s.len() && s[j].key == k;
                assert(u[j].key == k);
            }
        },
    }
}

/// A slot touched strictly after every other slot of the tier survives the
/// count bound: at most one slot is the open image, so an older non-open
/// slot is always chosen before it.
proof fn lemma_cap_count_keeps_newest<E>(s: Seq<Slot<E>>, open: Option<CacheKey>, x: Slot<E>)
    requires
        keys_unique(s),
        s.contains(x),
        forall|y: Slot<E>| s.contains(y) && y != x ==> y.touched < x.touched,
    ensures
        cap_count(s, open).contains(x),
    decreases s.len(),
{
    if s.len() > WARM_FULL_COUNT {
        lemma_victim(s, open);
        if let Some(i) = victim(s, open) {
            let kx = choose|k: int| 0 <= k < s.len() && s[k] == x;
            if i == kx {
                assert(s[0].key != s[1].key && s[0].key != s[2].key && s[1].key != s[2].key);
                let other: int = if kx != 0 && !is_open_key(open, s[0].key) {
                    0
                } else if kx != 1 && !is_open_key(open, s[1].key) {
                    1
                } else {
                    2
                };
                assert(s.contains(s[other]));
                assert(s[other] != x);
                assert(s[kx].touched <= s[other].touched);
            }
            lemma_unique_remove(s, i);
            if kx < i {
                assert(s.remove(i)[kx] == x);
            } else {
                assert(s.remove(i)[kx - 1] == x);
            }
            assert forall|y: Slot<E>| s.remove(i).contains(y) && y != x implies y.touched
                < x.touched by {
                assert(s.contains(y));
            }
            lemma_cap_count_keeps_newest(s.remove(i), open, x);
        }
    }
}

// ---------------------------------------------------------------------------
// Executable helpers over one tier
// ---------------------------------------------------------------------------

fn is_open(open: Option<CacheKey>, key: CacheKey) -> (b: bool)
    ensures
        b == is_open_key(open, key),
{
    match open {
        Some(k) => k == key,
        None => false,
    }
}

fn find_slot<E>(v: &Vec<Slot<E>>, key: CacheKey) -> (r: Option<usize>)
    requires
        keys_unique(v@),
    ensures
        r is None <==> index_of(v@, key) is None,
        r matches Some(i) ==> index_of(v@, key) == Some(i as int) && i < v@.len(),
{
    proof {
        lemma_index_of(v@, key);
    }
    let mut i: usize = 0;
    while i < v.len()
        invariant
            i <= v@.len(),
            keys_unique(v@),
            forall|j: int| 0 <= j < i ==> v@[j].key != key,
        decreases v@.len() - i,
    {
        if v[i].key == key {
            return Some(i);
        }
        i = i + 1;
    }
    None
}

fn lru_victim<E>(v: &Vec<Slot<E>>, open: Option<CacheKey>) -> (r: Option<usize>)
    ensures
        r is None <==> victim(v@, open) is None,
        r matches Some(i) ==> victim(v@, open) == Some(i as int),
{
    let mut best: Option<usize> = None;
    let mut i: usize = 0;
    while i < v.len()
        invariant
            i <= v@.len(),
            best is None <==> victim(v@.take(i as int), open) is None,
            best matches Some(b) ==> victim(v@.take(i as int), open) == Some(b as int) && b < i,
        decreases v@.len() - i,
    {
        proof {
            assert(v@.take(i + 1).drop_last() =~= v@.take(i as int));
            assert(v@.take(i + 1)[i as int] == v@[i as int]);
            if let Some(b) = best {
                assert(v@.take(i + 1)[b as int] == v@[b as int]);
            }
        }
        if !is_open(open, v[i].key) {
            match best {
                None => {
                    best = Some(i);
                },
                Some(b) => {
                    if v[i].touched < v[b].touched {
                        best = Some(i);
                    }
                },
            }
        }
        i = i + 1;
    }
    proof {
        assert(v@.take(v@.len() as int) =~= v@);
    }
    best
}

fn tier_bytes<E>(v: &Vec<Slot<E>>) -> (r: u64)
    requires
        total(v@) <= u64::MAX,
    ensures
        r == total(v@),
{
    let mut sum: u64 = 0;
    let mut i: usize = 0;
    while i < v.len()
        invariant
            i <= v@.len(),
            total(v@) <= u64::MAX,
            sum == total(v@.take(i as int)),
        decreases v@.len() - i,
    {
        proof {
            lemma_total_prefix(v@, i as int);
            lemma_total_prefix(v@, i + 1);
        }
        sum = sum + v[i].bytes;
        i = i + 1;
    }
    proof {
        assert(v@.take(v@.len() as int) =~= v@);
    }
    sum
}

fn upsert_slot<E>(v: &mut Vec<Slot<E>>, slot: Slot<E>)
    requires
        keys_unique(old(v)@),
    ensures
        final(v)@ == upsert(old(v)@, slot),
{
    match find_slot(v, slot.key) {
        Some(i) => {
            v.set(i, slot);
        },
        None => {
            v.push(slot);
        },
    }
}

impl<T: Clone, F: Clone> WarmCache<T, F> {
    /// An empty cache with the given byte budget.
    pub fn new(budget: u64) -> (c: Self)
        ensures
            c@.wf(),
            c@.budget == budget,
            c@.clock == 0,
            c@.open is None,
            c@.display == Seq::<Slot<DisplayEntry<T>>>::empty(),
            c@.full == Seq::<Slot<FullEntry<F>>>::empty(),
    {
        WarmCache { budget, clock: 0, open: None, display: Vec::new(), full: Vec::new() }
    }

    fn tick(&mut self) -> (now: u64)
        requires
            old(self).clock < u64::MAX,
        ensures
            now == old(self).clock + 1,
            final(self).clock == now,
            final(self).budget == old(self).budget,
            final(self).open == old(self).open,
            final(self).display == old(self).display,
            final(self).full == old(self).full,
    {
        self.clock = self.clock + 1;
        self.clock
    }

    /// Change the byte budget and run the budget pass.
    pub fn set_budget(&mut self, budget: u64)
        requires
            old(self)@.wf(),
        ensures
            final(self)@.wf(),
            final(self)@ == (WarmCacheModel { budget, ..old(self)@ }).budget_pass(),
            final(self)@.resident() <= budget + final(self)@.open_display_bytes() + total(
                final(self)@.full,
            ),
            final(self)@.open_display_bytes() == old(self)@.open_display_bytes(),
    {
        self.budget = budget;
        proof {
            lemma_budget_pass_bound(self@);
        }
        self.evict_to_budget();
    }

    /// Mark which key is the currently open image; it is never evicted.
    pub fn set_open(&mut self, open: Option<CacheKey>)
        requires
            old(self)@.wf(),
        ensures
            final(self)@ == (WarmCacheModel { open, ..old(self)@ }),
    {
        self.open = open;
    }

    /// Look up `key`, stamping every tier slot that holds it as touched now.
    /// Both tiers present: `Full`; only the display tier: `Display`;
    /// otherwise `Miss` (a full entry without its display entry is unusable).
    pub fn get(&mut self, key: CacheKey) -> (hit: WarmHit<T, F>)
        requires
            old(self)@.wf(),
            old(self)@.clock < u64::MAX,
        ensures
            final(self)@.wf(),
            final(self)@.clock == old(self)@.clock + 1,
            final(self)@.budget == old(self)@.budget,
            final(self)@.open == old(self)@.open,
            final(self)@.full == (match index_of(old(self)@.full, key) {
                Some(i) => touch(old(self)@.full, i, final(self)@.clock),
                None => old(self)@.full,
            }),
            final(self)@.display == (match index_of(old(self)@.display, key) {
                Some(j) => touch(old(self)@.display, j, final(self)@.clock),
                None => old(self)@.display,
            }),
            hit matches WarmHit::Full { full, display } ==> {
                &&& index_of(old(self)@.full, key) matches Some(i) && {
                    &&& full.bytes == old(self)@.full[i].entry.bytes
                    &&& cloned(old(self)@.full[i].entry.payload, full.payload)
                }
                &&& index_of(old(self)@.display, key) matches Some(j) && {
                    &&& display.bytes == old(self)@.display[j].entry.bytes
                    &&& display.dims == old(self)@.display[j].entry.dims
                    &&& display.tex is Some <==> old(self)@.display[j].entry.tex is Some
                    &&& (display.tex matches Some(t) ==> cloned(
                        old(self)@.display[j].entry.tex.unwrap(),
                        t,
                    ))
                }
            },
            hit matches WarmHit::Display(display) ==> {
                &&& index_of(old(self)@.full, key) is None
                &&& index_of(old(self)@.display, key) matches Some(j) && {
                    &&& display.bytes == old(self)@.display[j].entry.bytes
                    &&& display.dims == old(self)@.display[j].entry.dims
                    &&& display.tex is Some <==> old(self)@.display[j].entry.tex is Some
                    &&& (display.tex matches Some(t) ==> cloned(
                        old(self)@.display[j].entry.tex.unwrap(),
                        t,
                    ))
                }
            },
            hit is Miss <==> index_of(old(self)@.display, key) is None,
    {
        let now: u64 = self.tick();
        let fi = find_slot(&self.full, key);
        let di = find_slot(&self.display, key);
        proof {
            lemma_index_of(self.full@, key);
            lemma_index_of(self.display@, key);
        }
        let mut full_hit: Option<FullEntry<F>> = None;
        if let Some(i) = fi {
            let ghost before = self.full@;
            self.full[i].touched = now;
            proof {
                assert(self.full@ =~= touch(before, i as int, now));
                lemma_touch_stamps(before, i as int, old(self)@.clock, now);
            }
            full_hit = Some(
                FullEntry { payload: self.full[i].entry.payload.clone(), bytes: self.full[i].entry.bytes },
            );
        }
        match di {
            Some(j) => {
                let ghost before = self.display@;
                self.display[j].touched = now;
                proof {
                    assert(self.display@ =~= touch(before, j as int, now));
                    lemma_touch_stamps(before, j as int, old(self)@.clock, now);
                }
                let d = &self.display[j].entry;
                let display = DisplayEntry { tex: d.tex.clone(), dims: d.dims, bytes: d.bytes };
                match full_hit {
                    Some(full) => WarmHit::Full { full, display },
                    None => WarmHit::Display(display),
                }
            },
            None => WarmHit::Miss,
        }
    }

    /// Insert (or replace) a display-tier entry, then run the budget pass
    /// (see [`WarmCacheModel::budget_pass`]).
    pub fn insert_display(&mut self, key: CacheKey, entry: DisplayEntry<T>)
        requires
            old(self)@.wf(),
            old(self)@.clock < u64::MAX,
            old(self)@.with_display(key, entry).resident() <= u64::MAX,
        ensures
            final(self)@.wf(),
            final(self)@ == old(self)@.with_display(key, entry).budget_pass(),
            final(self)@.resident() <= final(self)@.budget + final(self)@.open_display_bytes()
                + total(final(self)@.full),
            final(self)@.open_display_bytes() == old(self)@.with_display(
                key,
                entry,
            ).open_display_bytes(),
    {
        let now: u64 = self.tick();
        let bytes: u64 = entry.bytes;
        let slot = Slot { key, entry, bytes, touched: now };
        proof {
            lemma_upsert(self.display@, slot);
            lemma_upsert_stamps(self.display@, slot, old(self)@.clock);
        }
        upsert_slot(&mut self.display, slot);
        proof {
            assert(self@ == old(self)@.with_display(key, entry));
            lemma_budget_pass_bound(self@);
        }
        self.evict_to_budget();
    }

    /// Insert (or replace) a full-tier entry, bound the full tier to
    /// `WARM_FULL_COUNT` entries by evicting its least recently touched
    /// entries (never the open image), then run the budget pass.
    pub fn insert_full(&mut self, key: CacheKey, entry: FullEntry<F>)
        requires
            old(self)@.wf(),
            old(self)@.clock < u64::MAX,
            total(old(self)@.display) + total(
                upsert(
                    old(self)@.full,
                    Slot { key, entry, bytes: entry.bytes, touched: (old(self)@.clock + 1) as u64 },
                ),
            ) <= u64::MAX,
        ensures
            final(self)@.wf(),
            final(self)@ == old(self)@.with_full(key, entry).budget_pass(),
            final(self)@.full.len() <= WARM_FULL_COUNT,
            final(self)@.resident() <= final(self)@.budget + final(self)@.open_display_bytes()
                + total(final(self)@.full),
            final(self)@.open_display_bytes() == old(self)@.open_display_bytes(),
    {
        let now: u64 = self.tick();
        let bytes: u64 = entry.bytes;
        let slot = Slot { key, entry, bytes, touched: now };
        proof {
            lemma_upsert(self.full@, slot);
            lemma_upsert_stamps(self.full@, slot, old(self)@.clock);
        }
        upsert_slot(&mut self.full, slot);
        let ghost target = cap_count(self.full@, self.open);
        proof {
            lemma_cap_count_basics(self.full@, self.open);
            lemma_cap_count_bounded(self.full@, self.open);
        }
        while self.full.len() > WARM_FULL_COUNT
            invariant
                keys_unique(self.full@),
                keys_unique(self.display@),
                stamps_upto(self.full@, now),
                stamps_distinct(self.full@),
                stamps_upto(self.display@, now),
                stamps_distinct(self.display@),
                total(self.display@) + total(self.full@) <= u64::MAX,
                cap_count(self.full@, self.open) == target,
                self.budget == old(self).budget,
                self.clock == now,
                self.open == old(self).open,
                self.display@ == old(self).display@,
            ensures
                keys_unique(self.full@),
                keys_unique(self.display@),
                stamps_upto(self.full@, now),
                stamps_distinct(self.full@),
                stamps_upto(self.display@, now),
                stamps_distinct(self.display@),
                total(self.display@) + total(self.full@) <= u64::MAX,
                self.full@ == target,
                self.budget == old(self).budget,
                self.clock == now,
                self.open == old(self).open,
                self.display@ == old(self).display@,
            decreases self.full@.len(),
        {
            match lru_victim(&self.full, self.open) {
                Some(k) => {
                    proof {
                        lemma_victim(self.full@, self.open);
                        lemma_unique_remove(self.full@, k as int);
                        lemma_total_remove(self.full@, k as int);
                    }
                    self.full.remove(k);
                },
                None => {
                    break ;
                },
            }
        }
        proof {
            assert(self@ == old(self)@.with_full(key, entry));
            lemma_budget_pass_bound(self@);
        }
        self.evict_to_budget();
    }

    /// Number of full-tier entries.
    pub fn len_full(&self) -> (n: usize)
        ensures
            n == self@.full.len(),
    {
        self.full.len()
    }

    /// Number of display-tier entries.
    pub fn len_display(&self) -> (n: usize)
        ensures
            n == self@.display.len(),
    {
        self.display.len()
    }

    /// Total resident bytes across both tiers.
    pub fn resident_bytes(&self) -> (r: u64)
        requires
            self@.wf(),
        ensures
            r == self@.resident(),
    {
        let d: u64 = tier_bytes(&self.display);
        let f: u64 = tier_bytes(&self.full);
        d + f
    }

    /// The budget pass: evict least recently touched display entries (never
    /// the open image's) while the resident total is over budget. The full
    /// tier is bounded by count, not evicted here.
    fn evict_to_budget(&mut self)
        requires
            old(self)@.wf(),
        ensures
            final(self)@.wf(),
            final(self)@ == old(self)@.budget_pass(),
    {
        let ghost target = evict(self.display@, total(self.full@), self.budget, self.open);
        loop
            invariant
                self@.wf(),
                self.budget == old(self).budget,
                self.clock == old(self).clock,
                self.open == old(self).open,
                self.full@ == old(self).full@,
                evict(self.display@, total(self.full@), self.budget, self.open) == target,
            ensures
                self@.wf(),
                self.budget == old(self).budget,
                self.clock == old(self).clock,
                self.open == old(self).open,
                self.full@ == old(self).full@,
                self.display@ == target,
            decreases self.display@.len(),
        {
            let resident: u64 = self.resident_bytes();
            if resident <= self.budget {
                break ;
            }
            match lru_victim(&self.display, self.open) {
                Some(k) => {
                    proof {
                        lemma_victim(self.display@, self.open);
                        lemma_unique_remove(self.display@, k as int);
                        lemma_total_remove(self.display@, k as int);
                    }
                    self.display.remove(k);
                },
                None => {
                    break ;
                },
            }
        }
    }
}

// ---------------------------------------------------------------------------
// Laws of the cache
// ---------------------------------------------------------------------------

/// Budget eviction never drops the open image: every slot of the open image
/// survives `evict`.
pub proof fn lemma_evict_keeps_open_image<E>(
    s: Seq<Slot<E>>,
    other: nat,
    budget: u64,
    open: Option<CacheKey>,
    x: Slot<E>,
)
    requires
        s.contains(x),
        is_open_key(open, x.key),
    ensures
        evict(s, other, budget, open).contains(x),
    decreases s.len(),
{
    if total(s) + other > budget {
        lemma_victim(s, open);
        if let Some(i) = victim(s, open) {
            let k = choose|k: int| 0 <= k < s.len() && s[k] == x;
            assert(k != i);
            if k < i {
                assert(s.remove(i)[k] == x);
            } else {
                assert(s.remove(i)[k - 1] == x);
            }
            lemma_evict_keeps_open_image(s.remove(i), other, budget, open, x);
        }
    }
}

/// One tier's eviction ends within budget (counting `other` bytes held
/// elsewhere), or with nothing left in the tier but the open image's slot.
pub proof fn lemma_evict_reaches_budget_or_only_open_remains<E>(
    s: Seq<Slot<E>>,
    other: nat,
    budget: u64,
    open: Option<CacheKey>,
)
    requires
        keys_unique(s),
    ensures
        ({
            let r = evict(s, other, budget, open);
            total(r) + other <= budget || (r.len() <= 1 && forall|i: int|
                0 <= i < r.len() ==> is_open_key(open, r[i].key))
        }),
    decreases s.len(),
{
    lemma_victim(s, open);
    if total(s) + other > budget {
        if let Some(i) = victim(s, open) {
            lemma_unique_remove(s, i);
            lemma_evict_reaches_budget_or_only_open_remains(s.remove(i), other, budget, open);
        } else if s.len() > 1 {
            assert(s[0].key != s[1].key);
        }
    }
}

/// The cache's memory bound: after the budget pass the cache is within
/// budget, or no display entry but the open image's is left; so the resident
/// bytes are at most the budget plus the open image's display bytes plus the
/// full tier's bytes (that tier is bounded by count instead). The open
/// image's display entry is kept and the full tier is left as it was.
pub proof fn lemma_budget_pass_bound<T, F>(m: WarmCacheModel<T, F>)
    requires
        m.wf(),
    ensures
        m.budget_pass().wf(),
        m.budget_pass().full == m.full,
        m.budget_pass().resident() <= m.budget || forall|i: int|
            0 <= i < m.budget_pass().display.len() ==> is_open_key(
                m.open,
                #[trigger] m.budget_pass().display[i].key,
            ),
        m.budget_pass().resident() <= m.budget + m.budget_pass().open_display_bytes() + total(
            m.full,
        ),
        m.budget_pass().open_display_bytes() == m.open_display_bytes(),
{
    let d = evict(m.display, total(m.full), m.budget, m.open);
    lemma_evict_basics(m.display, total(m.full), m.budget, m.open);
    lemma_stamps_subset(m.display, d, m.clock);
    lemma_evict_reaches_budget_or_only_open_remains(m.display, total(m.full), m.budget, m.open);
    if let Some(k) = m.open {
        assert forall|x: Slot<DisplayEntry<T>>| m.display.contains(x) && x.key == k implies d.contains(
            x,
        ) by {
            lemma_evict_keeps_open_image(m.display, total(m.full), m.budget, m.open, x);
        }
        lemma_key_bytes_kept(m.display, d, k);
    }
    if total(d) + total(m.full) > m.budget {
        lemma_all_open_total(d, m.open);
    }
}

/// Eviction is least-recently-touched first: any evicted (non-open) slot
/// was touched no later than any surviving non-open slot.
pub proof fn lemma_evict_is_lru<E>(
    s: Seq<Slot<E>>,
    other: nat,
    budget: u64,
    open: Option<CacheKey>,
    x: Slot<E>,
    y: Slot<E>,
)
    requires
        keys_unique(s),
        s.contains(x),
        !evict(s, other, budget, open).contains(x),
        evict(s, other, budget, open).contains(y),
        !is_open_key(open, y.key),
    ensures
        x.touched <= y.touched,
    decreases s.len(),
{
    if total(s) + other > budget {
        lemma_victim(s, open);
        if let Some(i) = victim(s, open) {
            let r = s.remove(i);
            lemma_unique_remove(s, i);
            lemma_evict_basics(r, other, budget, open);
            assert(r.contains(y));
            assert(s.contains(y));
            let ky = choose|k: int| 0 <= k < s.len() && s[k] == y;
            if x == s[i] {
                assert(s[i].touched <= s[ky].touched);
            } else {
                let kx = choose|k: int| 0 <= k < s.len() && s[k] == x;
                assert(kx != i);
                if kx < i {
                    assert(r[kx] == x);
                } else {
                    assert(r[kx - 1] == x);
                }
                lemma_evict_is_lru(r, other, budget, open, x, y);
            }
        }
    }
}

/// The full tier never holds more than `WARM_FULL_COUNT` entries after
/// bounding, since at most one of its (unique) keys is the protected open
/// image.
pub proof fn lemma_cap_count_bounded<E>(s: Seq<Slot<E>>, open: Option<CacheKey>)
    requires
        keys_unique(s),
    ensures
        cap_count(s, open).len() <= WARM_FULL_COUNT,
    decreases s.len(),
{
    if s.len() > WARM_FULL_COUNT {
        lemma_victim(s, open);
        match victim(s, open) {
            Some(i) => {
                lemma_unique_remove(s, i);
                lemma_cap_count_bounded(s.remove(i), open);
            },
            None => {
                assert(s[0].key != s[1].key);
                assert(is_open_key(open, s[0].key) && is_open_key(open, s[1].key));
            },
        }
    }
}

/// The count bound is least-recently-touched first too: any slot it drops
/// was touched no later than any surviving non-open slot.
pub proof fn lemma_cap_count_is_lru<E>(
    s: Seq<Slot<E>>,
    open: Option<CacheKey>,
    x: Slot<E>,
    y: Slot<E>,
)
    requires
        keys_unique(s),
        s.contains(x),
        !cap_count(s, open).contains(x),
        cap_count(s, open).contains(y),
        !is_open_key(open, y.key),
    ensures
        x.touched <= y.touched,
    decreases s.len(),
{
    if s.len() > WARM_FULL_COUNT {
        lemma_victim(s, open);
        if let Some(i) = victim(s, open) {
            let r = s.remove(i);
            lemma_unique_remove(s, i);
            lemma_cap_count_basics(r, open);
            assert(r.contains(y));
            assert(s.contains(y));
            let ky = choose|k: int| 0 <= k < s.len() && s[k] == y;
            if x == s[i] {
                assert(s[i].touched <= s[ky].touched);
            } else {
                let kx = choose|k: int| 0 <= k < s.len() && s[k] == x;
                assert(kx != i);
                if kx < i {
                    assert(r[kx] == x);
                } else {
                    assert(r[kx - 1] == x);
                }
                lemma_cap_count_is_lru(r, open, x, y);
            }
        }
    }
}

/// Bounding the full tier never drops the open image either.
pub proof fn lemma_cap_count_keeps_open_image<E>(s: Seq<Slot<E>>, open: Option<CacheKey>, x: Slot<E>)
    requires
        s.contains(x),
        is_open_key(open, x.key),
    ensures
        cap_count(s, open).contains(x),
    decreases s.len(),
{
    if s.len() > WARM_FULL_COUNT {
        lemma_victim(s, open);
        if let Some(i) = victim(s, open) {
            let k = choose|k: int| 0 <= k < s.len() && s[k] == x;
            assert(k != i);
            if k < i {
                assert(s.remove(i)[k] == x);
            } else {
                assert(s.remove(i)[k - 1] == x);
            }
            lemma_cap_count_keeps_open_image(s.remove(i), open, x);
        }
    }
}

/// Inserting the open image's display entry always leaves it cached, even
/// when it alone exceeds the budget: a later `get` of that key is a hit.
pub proof fn lemma_open_image_insert_is_kept<T, F>(
    m: WarmCacheModel<T, F>,
    key: CacheKey,
    entry: DisplayEntry<T>,
    now: u64,
)
    requires
        m.wf(),
        m.open == Some(key),
    ensures
        has_key(
            evict(
                upsert(m.display, Slot { key, entry, bytes: entry.bytes, touched: now }),
                total(m.full),
                m.budget,
                m.open,
            ),
            key,
        ),
{
    let slot = Slot { key, entry, bytes: entry.bytes, touched: now };
    let u = upsert(m.display, slot);
    lemma_upsert(m.display, slot);
    lemma_index_of(m.display, key);
    let k = choose|k: int| 0 <= k < u.len() && u[k].key == key;
    assert(u[k] == slot);
    lemma_evict_keeps_open_image(u, total(m.full), m.budget, m.open, slot);
    let r = evict(u, total(m.full), m.budget, m.open);
    let j = choose|j: int| 0 <= j < r.len() && r[j] == slot;
    assert(r[j].key == key);
}

/// Re-inserting a key replaces its entry instead of adding a second copy:
/// the tier keeps its length and the resident total changes by the size
/// difference only.
pub proof fn lemma_reinsert_replaces<E>(s: Seq<Slot<E>>, slot: Slot<E>)
    requires
        keys_unique(s),
        has_key(s, slot.key),
    ensures
        upsert(s, slot).len() == s.len(),
        keys_unique(upsert(s, slot)),
        index_of(s, slot.key) matches Some(i) && total(upsert(s, slot)) + s[i].bytes == total(s)
            + slot.bytes,
{
    lemma_upsert(s, slot);
}

/// What `insert_display` does to the cache, in one statement: the cache
/// ends within budget unless no display entry but the open image's is left;
/// the display keys are the old ones plus at most the new key; the full tier
/// is untouched; the open image's display entry stays; and every evicted
/// display entry was touched no later than every surviving non-open one.
pub proof fn lemma_insert_display_law<T, F>(m: WarmCacheModel<T, F>, key: CacheKey, entry: DisplayEntry<T>)
    requires
        m.wf(),
        m.clock < u64::MAX,
        m.with_display(key, entry).resident() <= u64::MAX,
    ensures
        ({
            let p = m.with_display(key, entry);
            let r = p.budget_pass();
            &&& r.resident() <= m.budget || forall|i: int|
                0 <= i < r.display.len() ==> is_open_key(m.open, #[trigger] r.display[i].key)
            &&& r.resident() <= m.budget + r.open_display_bytes() + total(m.full)
            &&& r.open_display_bytes() == p.open_display_bytes()
            &&& forall|i: int|
                0 <= i < r.display.len() ==> has_key(m.display, #[trigger] r.display[i].key)
                    || r.display[i].key == key
            &&& r.full == m.full
            &&& forall|o: CacheKey|
                m.open == Some(o) && (has_key(m.display, o) || o == key) ==> #[trigger] has_key(
                    r.display,
                    o,
                )
            &&& forall|x: Slot<DisplayEntry<T>>, y: Slot<DisplayEntry<T>>|
                p.display.contains(x) && !r.display.contains(x) && #[trigger] r.display.contains(y)
                    && !is_open_key(m.open, y.key) ==> #[trigger] x.touched <= y.touched
        }),
{
    let now = (m.clock + 1) as u64;
    let slot = Slot { key, entry, bytes: entry.bytes, touched: now };
    let p = m.with_display(key, entry);
    lemma_upsert(m.display, slot);
    lemma_upsert_stamps(m.display, slot, m.clock);
    lemma_upsert_members(m.display, slot);
    lemma_budget_pass_bound(p);
    let r = p.budget_pass();
    let d = r.display;
    lemma_evict_basics(p.display, total(m.full), m.budget, m.open);
    assert forall|i: int| 0 <= i < d.len() implies has_key(m.display, #[trigger] d[i].key)
        || d[i].key == key by {
        assert(d.contains(d[i]));
        assert(p.display.contains(d[i]));
        if d[i] != slot {
            let j = choose|j: int| 0 <= j < m.display.len() && m.display[j] == d[i];
        }
    }
    assert forall|o: CacheKey|
        m.open == Some(o) && (has_key(m.display, o) || o == key) implies #[trigger] has_key(d, o) by {
        assert(has_key(p.display, o));
        let j = choose|j: int| 0 <= j < p.display.len() && p.display[j].key == o;
        lemma_evict_keeps_open_image(p.display, total(m.full), m.budget, m.open, p.display[j]);
        let k = choose|k: int| 0 <= k < d.len() && d[k] == p.display[j];
    }
    assert forall|x: Slot<DisplayEntry<T>>, y: Slot<DisplayEntry<T>>|
        p.display.contains(x) && !d.contains(x) && #[trigger] d.contains(y) && !is_open_key(
            m.open,
            y.key,
        ) implies #[trigger] x.touched <= y.touched by {
        lemma_evict_is_lru(p.display, total(m.full), m.budget, m.open, x, y);
    }
}

/// What `insert_full` does to the cache, in one statement: the new key is a
/// full key afterwards; the full tier holds at most `WARM_FULL_COUNT`
/// entries, its keys being the old ones plus the new key; the open image's
/// entries stay; every full entry dropped by the count bound was touched no
/// later than every kept non-open one; and the budget pass then evicts
/// display entries only (display keys are a subset of the old ones), leaving
/// the cache within budget unless no display entry but the open image's is
/// left.
pub proof fn lemma_insert_full_law<T, F>(m: WarmCacheModel<T, F>, key: CacheKey, entry: FullEntry<F>)
    requires
        m.wf(),
        m.clock < u64::MAX,
        total(m.display) + total(
            upsert(m.full, Slot { key, entry, bytes: entry.bytes, touched: (m.clock + 1) as u64 }),
        ) <= u64::MAX,
    ensures
        ({
            let p = m.with_full(key, entry);
            let r = p.budget_pass();
            let u = upsert(m.full, Slot { key, entry, bytes: entry.bytes, touched: p.clock });
            &&& has_key(r.full, key)
            &&& r.full.len() <= WARM_FULL_COUNT
            &&& r.full == p.full
            &&& r.resident() <= m.budget || forall|i: int|
                0 <= i < r.display.len() ==> is_open_key(m.open, #[trigger] r.display[i].key)
            &&& r.resident() <= m.budget + r.open_display_bytes() + total(r.full)
            &&& r.open_display_bytes() == m.open_display_bytes()
            &&& forall|i: int|
                0 <= i < r.full.len() ==> has_key(m.full, #[trigger] r.full[i].key)
                    || r.full[i].key == key
            &&& forall|i: int|
                0 <= i < r.display.len() ==> has_key(m.display, #[trigger] r.display[i].key)
            &&& forall|o: CacheKey|
                m.open == Some(o) && (has_key(m.full, o) || o == key) ==> #[trigger] has_key(
                    r.full,
                    o,
                )
            &&& forall|o: CacheKey|
                m.open == Some(o) && has_key(m.display, o) ==> #[trigger] has_key(r.display, o)
            &&& forall|x: Slot<FullEntry<F>>, y: Slot<FullEntry<F>>|
                u.contains(x) && !r.full.contains(x) && #[trigger] r.full.contains(y)
                    && !is_open_key(m.open, y.key) ==> #[trigger] x.touched <= y.touched
        }),
{
    let now = (m.clock + 1) as u64;
    let slot = Slot { key, entry, bytes: entry.bytes, touched: now };
    let u = upsert(m.full, slot);
    let p = m.with_full(key, entry);
    lemma_upsert(m.full, slot);
    lemma_upsert_stamps(m.full, slot, m.clock);
    lemma_upsert_members(m.full, slot);
    lemma_cap_count_basics(u, m.open);
    lemma_cap_count_bounded(u, m.open);
    lemma_stamps_subset(u, p.full, now);
    assert forall|y: Slot<FullEntry<F>>| u.contains(y) && y != slot implies y.touched
        < slot.touched by {
        let j = choose|j: int| 0 <= j < m.full.len() && m.full[j] == y;
    }
    lemma_cap_count_keeps_newest(u, m.open, slot);
    let kc = choose|k: int| 0 <= k < p.full.len() && p.full[k] == slot;
    assert(p.full[kc].key == key);
    assert(p.wf());
    lemma_budget_pass_bound(p);
    let r = p.budget_pass();
    let d = r.display;
    lemma_evict_basics(m.display, total(p.full), m.budget, m.open);
    assert forall|i: int| 0 <= i < r.full.len() implies has_key(m.full, #[trigger] r.full[i].key)
        || r.full[i].key == key by {
        assert(p.full.contains(r.full[i]));
        assert(u.contains(r.full[i]));
        if r.full[i] != slot {
            let j = choose|j: int| 0 <= j < m.full.len() && m.full[j] == r.full[i];
        }
    }
    assert forall|i: int| 0 <= i < d.len() implies has_key(m.display, #[trigger] d[i].key) by {
        assert(d.contains(d[i]));
        assert(m.display.contains(d[i]));
        let j = choose|j: int| 0 <= j < m.display.len() && m.display[j] == d[i];
        assert(m.display[j].key == d[i].key);
    }
    assert forall|o: CacheKey|
        m.open == Some(o) && (has_key(m.full, o) || o == key) implies #[trigger] has_key(r.full, o) by {
        assert(has_key(u, o));
        let j = choose|j: int| 0 <= j < u.len() && u[j].key == o;
        lemma_cap_count_keeps_open_image(u, m.open, u[j]);
        let k = choose|k: int| 0 <= k < r.full.len() && r.full[k] == u[j];
    }
    assert forall|o: CacheKey| m.open == Some(o) && has_key(m.display, o) implies #[trigger] has_key(
        d,
        o,
    ) by {
        let j = choose|j: int| 0 <= j < m.display.len() && m.display[j].key == o;
        lemma_evict_keeps_open_image(m.display, total(p.full), m.budget, m.open, m.display[j]);
        let k = choose|k: int| 0 <= k < d.len() && d[k] == m.display[j];
    }
    assert forall|x: Slot<FullEntry<F>>, y: Slot<FullEntry<F>>|
        u.contains(x) && !r.full.contains(x) && #[trigger] r.full.contains(y) && !is_open_key(
            m.open,
            y.key,
        ) implies #[trigger] x.touched <= y.touched by {
        lemma_cap_count_is_lru(u, m.open, x, y);
    }
}

} // verus!
