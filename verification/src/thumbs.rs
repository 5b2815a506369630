//! Per-frame budget for thumbnail texture uploads. Decoded thumbnails beyond
//! the budget wait in a first-in-first-out backlog, which the following
//! frames drain before any newly decoded thumbnail is uploaded.
use vstd::prelude::*;

verus! {

/// Thumbnail texture uploads allowed in one frame.
pub const MAX_THUMB_UPLOADS_PER_FRAME: usize = 16;

/// The backlog of decoded thumbnails and the uploads spent this frame.
pub struct ThumbUploads<T> {
    pending: Vec<T>,
    uploaded: usize,
}

/// Mathematical model of [`ThumbUploads`].
pub struct ThumbUploadsModel<T> {
    pub pending: Seq<T>,
    pub uploaded: nat,
}

impl<T> ThumbUploadsModel<T> {
    /// The frame's uploads stay within the budget, and a thumbnail only waits
    /// while the budget is spent.
    pub open spec fn wf(self) -> bool {
        &&& self.uploaded <= MAX_THUMB_UPLOADS_PER_FRAME
        &&& self.pending.len() > 0 ==> self.uploaded == MAX_THUMB_UPLOADS_PER_FRAME
    }

    /// How many backlog entries the start of a frame hands out.
    pub open spec fn drain_count(self) -> nat {
        if self.pending.len() < MAX_THUMB_UPLOADS_PER_FRAME {
            self.pending.len()
        } else {
            MAX_THUMB_UPLOADS_PER_FRAME as nat
        }
    }

    /// The state after starting a frame: the drained prefix counts against
    /// the new frame's budget.
    pub open spec fn begin_frame(self) -> ThumbUploadsModel<T> {
        ThumbUploadsModel {
            pending: self.pending.skip(self.drain_count() as int),
            uploaded: self.drain_count(),
        }
    }

    /// Whether a thumbnail offered now is uploaded at once.
    pub open spec fn uploads_now(self) -> bool {
        self.uploaded < MAX_THUMB_UPLOADS_PER_FRAME
    }

    /// The state after offering `item`: uploaded when budget remains,
    /// otherwise appended to the backlog.
    pub open spec fn offer(self, item: T) -> ThumbUploadsModel<T> {
        if self.uploads_now() {
            ThumbUploadsModel { pending: self.pending, uploaded: self.uploaded + 1 }
        } else {
            ThumbUploadsModel { pending: self.pending.push(item), uploaded: self.uploaded }
        }
    }
}

impl<T> View for ThumbUploads<T> {
    type V = ThumbUploadsModel<T>;

    closed spec fn view(&self) -> ThumbUploadsModel<T> {
        ThumbUploadsModel { pending: self.pending@, uploaded: self.uploaded as nat }
    }
}

impl<T> ThumbUploads<T> {
    /// No backlog and no uploads spent.
    pub fn new() -> (q: Self)
        ensures
            q@.wf(),
            q@.pending == Seq::<T>::empty(),
            q@.uploaded == 0,
    {
        ThumbUploads { pending: Vec::new(), uploaded: 0 }
    }

    /// Start a frame: returns the oldest waiting thumbnails, at most the
    /// per-frame budget of them, in arrival order; they are this frame's
    /// first uploads.
    pub fn begin_frame(&mut self) -> (batch: Vec<T>)
        requires
            old(self)@.wf(),
        ensures
            final(self)@.wf(),
            final(self)@ == old(self)@.begin_frame(),
            batch@ == old(self)@.pending.take(old(self)@.drain_count() as int),
    {
        let take: usize = if self.pending.len() < MAX_THUMB_UPLOADS_PER_FRAME {
            self.pending.len()
        } else {
            MAX_THUMB_UPLOADS_PER_FRAME
        };
        let mut batch = self.pending.split_off(take);
        std::mem::swap(&mut self.pending, &mut batch);
        self.uploaded = take;
        proof {
            let o = old(self)@;
            assert(self.pending@ =~= o.pending.skip(o.drain_count() as int));
            assert(batch@ =~= o.pending.take(o.drain_count() as int));
        }
        batch
    }

    /// Offer a freshly decoded thumbnail: `Some` hands it back to upload now
    /// (counting against the budget); `None` means it joined the backlog.
    pub fn offer(&mut self, item: T) -> (now: Option<T>)
        requires
            old(self)@.wf(),
        ensures
            final(self)@.wf(),
            final(self)@ == old(self)@.offer(item),
            old(self)@.uploads_now() ==> now == Some(item),
            !old(self)@.uploads_now() ==> now is None,
    {
        if self.uploaded < MAX_THUMB_UPLOADS_PER_FRAME {
            self.uploaded = self.uploaded + 1;
            Some(item)
        } else {
            self.pending.push(item);
            None
        }
    }

    /// Whether thumbnails are still waiting (the UI keeps repainting so the
    /// next frames drain them).
    pub fn has_backlog(&self) -> (b: bool)
        ensures
            b == (self@.pending.len() > 0),
    {
        self.pending.len() > 0
    }

    /// Uploads spent in the current frame.
    pub fn uploaded_this_frame(&self) -> (n: usize)
        ensures
            n == self@.uploaded,
    {
        self.uploaded
    }
}

/// A newly decoded thumbnail never overtakes an older waiting one: while the
/// backlog is non-empty, an offered thumbnail is queued behind it.
pub proof fn lemma_no_overtaking<T>(q: ThumbUploadsModel<T>, item: T)
    requires
        q.wf(),
        q.pending.len() > 0,
    ensures
        !q.uploads_now(),
        q.offer(item).pending == q.pending.push(item),
{
}

/// Within a frame, the drained backlog plus the thumbnails uploaded at once
/// never exceed the budget, whatever is offered.
pub proof fn lemma_frame_budget<T>(q: ThumbUploadsModel<T>, items: Seq<T>)
    requires
        q.wf(),
    ensures
        offer_all(q.begin_frame(), items).wf(),
        offer_all(q.begin_frame(), items).uploaded <= MAX_THUMB_UPLOADS_PER_FRAME,
{
    lemma_offer_all_keeps_wf(q.begin_frame(), items);
}

/// The state after offering each of `items` in turn.
pub open spec fn offer_all<T>(q: ThumbUploadsModel<T>, items: Seq<T>) -> ThumbUploadsModel<T>
    decreases items.len(),
{
    if items.len() == 0 {
        q
    } else {
        offer_all(q.offer(items[0]), items.drop_first())
    }
}

proof fn lemma_offer_all_keeps_wf<T>(q: ThumbUploadsModel<T>, items: Seq<T>)
    requires
        q.wf(),
    ensures
        offer_all(q, items).wf(),
    decreases items.len(),
{
    if items.len() > 0 {
        lemma_offer_all_keeps_wf(q.offer(items[0]), items.drop_first());
    }
}

/// Every thumbnail comes out exactly once and in arrival order: what one
/// frame drains, followed by what stays queued, is the backlog it started
/// with.
pub proof fn lemma_drain_preserves_order<T>(q: ThumbUploadsModel<T>)
    ensures
        q.pending.take(q.drain_count() as int) + q.begin_frame().pending == q.pending,
{
    assert(q.pending.take(q.drain_count() as int) + q.pending.skip(q.drain_count() as int)
        =~= q.pending);
}

} // verus!
