//! The receive engine's decision half: the ring-ownership state
//! machine over the receive frame set, and the decoding of each filled
//! frame into a responder.
//!
//! Every receive descriptor is, at any instant, in exactly one of three
//! states — `Free`, `InFillQueue`, `FilledByDriver` — and the methods
//! here allow only the legal transitions between them.  Polling the
//! ring, sleeping and waking the driver are the caller's side of the
//! protocol; it reports each driver event here and this type decides
//! what it means.

use vstd::prelude::*;

use crate::codec::decode_response;
use crate::codec::spec_decode;
use crate::errors::ScanError;
use crate::net::SpecTarget;
use crate::net::Target;
use crate::pool::FrameDesc;
use crate::pool::FramePool;

verus! {

/// The ownership state of one receive descriptor.
#[derive(Clone, Copy, Debug, PartialEq, Eq)]
pub enum DescState {
    /// Available to the application, not known to the driver.
    Free,
    /// Offered to the driver as an empty buffer for incoming packets.
    InFillQueue,
    /// Holding a received frame, owned by the application.
    FilledByDriver,
}

/// How many descriptors of `s` are in state `st`.
pub open spec fn spec_count(s: Seq<DescState>, st: DescState) -> int
    decreases s.len(),
{
    if s.len() == 0 {
        0
    } else {
        spec_count(s.drop_last(), st) + if s.last() == st {
            1int
        } else {
            0int
        }
    }
}

/// Each descriptor is in exactly one state, so the three counts
/// partition the set.
pub proof fn lemma_states_partition(s: Seq<DescState>)
    ensures
        spec_count(s, DescState::Free) + spec_count(s, DescState::InFillQueue) + spec_count(
            s,
            DescState::FilledByDriver,
        ) == s.len(),
    decreases s.len(),
{
    if s.len() > 0 {
        lemma_states_partition(s.drop_last());
    }
}

/// The spec-level view of a vector of responders.
pub open spec fn spec_targets_view(s: Seq<Target>) -> Seq<SpecTarget> {
    s.map_values(|t: Target| t@)
}

/// The responders decoded from the first `k` filled frames, in the
/// order the driver returned them.
pub open spec fn spec_decoded(pool: FramePool, descs: Seq<FrameDesc>, k: int) -> Seq<SpecTarget>
    decreases k,
{
    if k <= 0 {
        Seq::empty()
    } else {
        spec_decoded(pool, descs, k - 1) + match spec_decode(pool.frame_bytes(descs[k - 1])) {
            Some(t) => seq![t],
            None => Seq::empty(),
        }
    }
}

/// Whether the driver must be woken explicitly after a poll: only when
/// the poll returned nothing and the fill ring reports that the driver
/// is sleeping on it.  Skipping this wake under an opportunistically
/// sleeping driver stalls the scan silently, so the decision is pinned
/// here.
pub fn should_wakeup(frames_rcvd: usize, fill_needs_wakeup: bool) -> (r: bool)
    ensures
        r == (frames_rcvd == 0 && fill_needs_wakeup),
{
    frames_rcvd == 0 && fill_needs_wakeup
}

/// The receive engine's state: one ownership state per receive
/// descriptor, and the responders accumulated so far.
pub struct RecvEngine {
    states: Vec<DescState>,
    responders: Vec<Target>,
}

impl RecvEngine {
    /// The ownership state of each receive descriptor.
    pub closed spec fn states(&self) -> Seq<DescState> {
        self.states@
    }

    /// The responders accumulated so far.
    pub closed spec fn responders(&self) -> Seq<Target> {
        self.responders@
    }

    /// A fresh engine over `n` receive frames, all free, nothing
    /// accumulated.
    pub fn new(n: usize) -> (r: RecvEngine)
        ensures
            r.states().len() == n,
            forall|i: int| 0 <= i < n ==> r.states()[i] is Free,
            r.responders() == Seq::<Target>::empty(),
    {
        let mut states: Vec<DescState> = Vec::new();
        let mut i: usize = 0;
        while i < n
            invariant
                states@.len() == i <= n,
                forall|j: int| 0 <= j < i ==> states@[j] is Free,
            decreases n - i,
        {
            states.push(DescState::Free);
            i = i + 1;
        }
        RecvEngine { states, responders: Vec::new() }
    }

    /// The one-time arming step: the whole receive set was offered to
    /// the fill ring, which accepted `accepted` of it.  The fill ring
    /// was sized to exceed the set, so anything short is fatal and
    /// changes nothing.
    pub fn arm(&mut self, accepted: usize) -> (r: Result<(), ScanError>)
        requires
            forall|i: int| 0 <= i < old(self).states().len() ==> old(self).states()[i] is Free,
        ensures
            r is Ok <==> accepted == old(self).states().len(),
            final(self).states().len() == old(self).states().len(),
            final(self).responders() == old(self).responders(),
            r is Ok ==> forall|i: int|
                0 <= i < final(self).states().len() ==> final(self).states()[i] is InFillQueue,
            r is Err ==> final(self).states() == old(self).states() && (r matches Err(e)
                && e == (ScanError::ShortSubmission {
                expected: old(self).states().len() as usize,
                accepted,
            })),
    {
        let n = self.states.len();
        if accepted != n {
            return Err(ScanError::ShortSubmission { expected: n, accepted });
        }
        let mut i: usize = 0;
        while i < n
            invariant
                n == self.states@.len(),
                i <= n,
                self.responders@ == old(self).responders(),
                forall|j: int| 0 <= j < i ==> self.states@[j] is InFillQueue,
            decreases n - i,
        {
            self.states.set(i, DescState::InFillQueue);
            i = i + 1;
        }
        Ok(())
    }

    /// The driver wrote a received packet into descriptor `i` and
    /// returned it through the receive ring.
    pub fn mark_filled(&mut self, i: usize)
        requires
            i < old(self).states().len(),
            old(self).states()[i as int] is InFillQueue,
        ensures
            final(self).states() == old(self).states().update(i as int, DescState::FilledByDriver),
            final(self).responders() == old(self).responders(),
    {
        self.states.set(i, DescState::FilledByDriver);
    }

    /// The application read descriptor `i`'s frame and gave it up.
    pub fn recycle(&mut self, i: usize)
        requires
            i < old(self).states().len(),
            old(self).states()[i as int] is FilledByDriver,
        ensures
            final(self).states() == old(self).states().update(i as int, DescState::Free),
            final(self).responders() == old(self).responders(),
    {
        self.states.set(i, DescState::Free);
    }

    /// Descriptor `i` was submitted to the fill ring again.
    pub fn submit(&mut self, i: usize)
        requires
            i < old(self).states().len(),
            old(self).states()[i as int] is Free,
        ensures
            final(self).states() == old(self).states().update(i as int, DescState::InFillQueue),
            final(self).responders() == old(self).responders(),
    {
        self.states.set(i, DescState::InFillQueue);
    }

    /// Decodes the frame `d` names and accumulates its responder, if
    /// the frame is a well-formed TCP answer.
    pub fn note_response(&mut self, pool: &FramePool, d: &FrameDesc)
        requires
            pool.wf(),
            pool.valid_desc(*d),
        ensures
            final(self).states() == old(self).states(),
            spec_targets_view(final(self).responders()) == spec_targets_view(
                old(self).responders(),
            ) + match spec_decode(pool.frame_bytes(*d)) {
                Some(t) => seq![t],
                None => Seq::<SpecTarget>::empty(),
            },
    {
        let bytes = pool.read_frame(d);
        self.note_response_bytes(&bytes);
    }

    /// Decodes a received frame already copied out of the pool and
    /// accumulates its responder, if it is a well-formed TCP answer.
    pub fn note_response_bytes(&mut self, bytes: &Vec<u8>)
        ensures
            final(self).states() == old(self).states(),
            spec_targets_view(final(self).responders()) == spec_targets_view(
                old(self).responders(),
            ) + match spec_decode(bytes@) {
                Some(t) => seq![t],
                None => Seq::<SpecTarget>::empty(),
            },
    {
        match decode_response(&bytes) {
            Some(t) => {
                self.responders.push(t);
                proof {
                    assert(spec_targets_view(self.responders@) =~= spec_targets_view(
                        old(self).responders(),
                    ) + seq![t@]);
                }
            },
            None => {
                proof {
                    assert(spec_targets_view(self.responders@) =~= spec_targets_view(
                        old(self).responders(),
                    ) + Seq::<SpecTarget>::empty());
                }
            },
        }
    }

    /// One whole poll iteration: the driver returned `k` filled frames,
    /// `descs[j]` naming the frame whose receive-set index is
    /// `idxs[j]`.  Each is read, decoded, recycled and resubmitted to
    /// the fill ring, so exactly as many descriptors return to the fill
    /// queue as the poll removed from the receive ring, and the engine's
    /// states end where they began.
    pub fn process_batch(
        &mut self,
        pool: &FramePool,
        descs: &Vec<FrameDesc>,
        k: usize,
        idxs: &Vec<usize>,
    )
        requires
            pool.wf(),
            k <= descs@.len(),
            idxs@.len() == k,
            forall|j: int| 0 <= j < k ==> pool.valid_desc(#[trigger] descs@[j]),
            forall|j: int| 0 <= j < k ==> #[trigger] idxs@[j] < old(self).states().len(),
            forall|j: int|
                0 <= j < k ==> old(self).states()[#[trigger] idxs@[j] as int] is InFillQueue,
            forall|j1: int, j2: int| 0 <= j1 < j2 < k ==> idxs@[j1] != idxs@[j2],
        ensures
            final(self).states() == old(self).states(),
            spec_targets_view(final(self).responders()) == spec_targets_view(
                old(self).responders(),
            ) + spec_decoded(*pool, descs@, k as int),
    {
        let mut j: usize = 0;
        while j < k
            invariant
                pool.wf(),
                k <= descs@.len(),
                idxs@.len() == k,
                j <= k,
                forall|jj: int| 0 <= jj < k ==> pool.valid_desc(#[trigger] descs@[jj]),
                forall|jj: int| 0 <= jj < k ==> #[trigger] idxs@[jj] < self.states().len(),
                forall|jj: int|
                    0 <= jj < k ==> old(self).states()[#[trigger] idxs@[jj] as int] is InFillQueue,
                self.states() == old(self).states(),
                spec_targets_view(self.responders()) == spec_targets_view(old(self).responders())
                    + spec_decoded(*pool, descs@, j as int),
            decreases k - j,
        {
            let ghost pre = self.states();
            let idx = idxs[j];
            self.mark_filled(idx);
            self.note_response(pool, &descs[j]);
            self.recycle(idx);
            self.submit(idx);
            proof {
                assert(self.states() =~= pre);
                assert(spec_decoded(*pool, descs@, j + 1) =~= spec_decoded(*pool, descs@, j as int)
                    + match spec_decode(pool.frame_bytes(descs@[j as int])) {
                    Some(t) => seq![t],
                    None => Seq::<SpecTarget>::empty(),
                });
            }
            j = j + 1;
        }
    }

    /// How many descriptors are free, in the fill queue, and filled by
    /// the driver, in that order.
    pub fn state_counts(&self) -> (r: (usize, usize, usize))
        ensures
            r.0 == spec_count(self.states(), DescState::Free),
            r.1 == spec_count(self.states(), DescState::InFillQueue),
            r.2 == spec_count(self.states(), DescState::FilledByDriver),
    {
        let n = self.states.len();
        let mut free: usize = 0;
        let mut in_fill: usize = 0;
        let mut filled: usize = 0;
        let mut i: usize = 0;
        while i < n
            invariant
                n == self.states@.len(),
                i <= n,
                free == spec_count(self.states@.take(i as int), DescState::Free),
                in_fill == spec_count(self.states@.take(i as int), DescState::InFillQueue),
                filled == spec_count(self.states@.take(i as int), DescState::FilledByDriver),
                free + in_fill + filled == i,
            decreases n - i,
        {
            proof {
                assert(self.states@.take(i + 1).drop_last() =~= self.states@.take(i as int));
                assert(self.states@.take(i + 1).last() == self.states@[i as int]);
            }
            match self.states[i] {
                DescState::Free => {
                    free = free + 1;
                },
                DescState::InFillQueue => {
                    in_fill = in_fill + 1;
                },
                DescState::FilledByDriver => {
                    filled = filled + 1;
                },
            }
            i = i + 1;
        }
        proof {
            assert(self.states@.take(n as int) =~= self.states@);
        }
        (free, in_fill, filled)
    }

    /// The scan is over: hand back the accumulated responder list.
    pub fn into_responders(self) -> (r: Vec<Target>)
        ensures
            r@ == self.responders(),
    {
        self.responders
    }
}

} // verus!
