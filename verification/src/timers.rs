//! An arena of scheduled-task identifiers.
//!
//! Timer handles are opaque tokens handed out by this arena; the driver
//! around the library maps each token to a real one-shot or recurring
//! timer. A handle is *live* from the moment it is armed until it is
//! cancelled. Cancelling is "remove from the arena if present": it is
//! idempotent and safe to call on an already-cancelled handle.

use vstd::prelude::*;

verus! {

/// The arena. `next_id` is the token the next `arm` call hands out;
/// every live token was handed out earlier, so it is below `next_id`.
pub struct TimerArena {
    pub next_id: u64,
    pub live: Vec<u64>,
}

impl TimerArena {
    /// Every live handle was armed before, so it lies below `next_id`.
    pub open spec fn wf(self) -> bool {
        forall|i: int| 0 <= i < self.live@.len() ==> self.live@[i] < self.next_id
    }

    /// A handle is live when it has been armed and not yet cancelled.
    pub open spec fn is_live(self, h: u64) -> bool {
        self.live@.contains(h)
    }

    /// An empty arena with no live handles.
    pub fn new() -> (arena: TimerArena)
        ensures
            arena.wf(),
            arena.next_id == 0,
            forall|h: u64| !arena.is_live(h),
    {
        TimerArena { next_id: 0, live: Vec::new() }
    }

    /// Arm a new timer: hand out a fresh handle and mark it live.
    pub fn arm(&mut self) -> (h: u64)
        requires
            old(self).wf(),
            old(self).next_id < u64::MAX,
        ensures
            final(self).wf(),
            h == old(self).next_id,
            !old(self).is_live(h),
            final(self).next_id == old(self).next_id + 1,
            final(self).is_live(h),
            forall|x: u64| x != h ==> final(self).is_live(x) == old(self).is_live(x),
    {
        let h = self.next_id;
        self.live.push(h);
        self.next_id = self.next_id + 1;
        assert(self.live@[self.live@.len() - 1] == h);
        assert(self.is_live(h));
        assert forall|x: u64| x != h implies self.is_live(x) == old(self).is_live(x) by {
            assert(self.live@ == old(self).live@.push(h));
            if old(self).is_live(x) {
                let i = choose|i: int| 0 <= i < old(self).live@.len() && old(self).live@[i] == x;
                assert(self.live@[i] == x);
            }
            if self.is_live(x) {
                let i = choose|i: int| 0 <= i < self.live@.len() && self.live@[i] == x;
                assert(old(self).live@[i] == x);
            }
        }
        h
    }

    /// Cancel a handle: after the call it is not live; every other
    /// handle's liveness is untouched. Idempotent.
    pub fn cancel(&mut self, h: u64)
        requires
            old(self).wf(),
        ensures
            final(self).wf(),
            final(self).next_id == old(self).next_id,
            !final(self).is_live(h),
            forall|x: u64| x != h ==> final(self).is_live(x) == old(self).is_live(x),
    {
        let ghost orig = self.live@;
        let mut kept: Vec<u64> = Vec::new();
        let mut i: usize = 0;
        while i < self.live.len()
            invariant
                i <= self.live@.len(),
                self.live@ == orig,
                self.wf(),
                forall|k: int| 0 <= k < kept@.len() ==> kept@[k] != h,
                forall|k: int| 0 <= k < kept@.len() ==> kept@[k] < self.next_id,
                forall|x: u64|
                    x != h ==> (kept@.contains(x) == orig.subrange(0, i as int).contains(x)),
            decreases self.live@.len() - i,
        {
            let ghost old_kept = kept@;
            let ghost pre = orig.subrange(0, i as int);
            let ghost post = orig.subrange(0, i + 1 as int);
            proof {
                assert(post =~= pre.push(orig[i as int]));
            }
            let v = self.live[i];
            if v != h {
                kept.push(v);
                proof {
                    assert forall|x: u64| x != h implies (kept@.contains(x) == post.contains(
                        x,
                    )) by {
                        if post.contains(x) {
                            let k = choose|k: int| 0 <= k < post.len() && post[k] == x;
                            if k < i as int {
                                assert(pre[k] == x);
                                assert(pre.contains(x));
                                assert(old_kept.contains(x));
                                let j = choose|j: int| 0 <= j < old_kept.len() && old_kept[j] == x;
                                assert(kept@ == old_kept.push(v));
                                assert(kept@[j] == x);
                            } else {
                                assert(x == orig[i as int]);
                                assert(kept@[kept@.len() - 1] == x);
                            }
                            assert(kept@.contains(x));
                        }
                        if kept@.contains(x) {
                            let k = choose|k: int| 0 <= k < kept@.len() && kept@[k] == x;
                            assert(kept@ == old_kept.push(v));
                            if k < old_kept.len() {
                                assert(old_kept[k] == x);
                                assert(old_kept.contains(x));
                                assert(pre.contains(x));
                                let j = choose|j: int| 0 <= j < pre.len() && pre[j] == x;
                                assert(post[j] == x);
                            } else {
                                assert(x == v);
                                assert(post[i as int] == x);
                            }
                            assert(post.contains(x));
                        }
                    }
                }
            } else {
                proof {
                    assert forall|x: u64| x != h implies (kept@.contains(x) == post.contains(
                        x,
                    )) by {
                        if post.contains(x) {
                            let k = choose|k: int| 0 <= k < post.len() && post[k] == x;
                            assert(k < i as int);
                            assert(pre.contains(x));
                        }
                        if pre.contains(x) {
                            let j = choose|j: int| 0 <= j < pre.len() && pre[j] == x;
                            assert(post[j] == x);
                            assert(post.contains(x));
                        }
                    }
                }
            }
            i = i + 1;
        }
        proof {
            assert(orig.subrange(0, orig.len() as int) =~= orig);
        }
        self.live = kept;
    }
}

} // verus!
