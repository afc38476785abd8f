//! The send engine's decision half: encode one probe per target into
//! the transmit frame set.
//!
//! Target `i` is encoded into transmit frame `i`, and the frame's
//! descriptor is left carrying exactly the probe's length.  Frames past
//! the target count — and every byte outside the written frames — are
//! left untouched.  Submitting the batch to the transmit ring is the
//! driver's side of the protocol; `check_submission` decides whether
//! the ring's answer honoured the sizing contract.

use vstd::arithmetic::div_mod::lemma_fundamental_div_mod;
use vstd::arithmetic::mul::lemma_mul_inequality;
use vstd::arithmetic::mul::lemma_mul_is_commutative;
use vstd::arithmetic::mul::lemma_mul_is_distributive_add_other_way;
use vstd::prelude::*;

use crate::codec::encode_probe;
use crate::codec::spec_encode_probe;
use crate::codec::spec_probe_len;
use crate::errors::ScanError;
use crate::net::SrcConfig;
use crate::net::Target;
use crate::pool::FrameDesc;
use crate::pool::FramePool;

verus! {

/// Two distinct frame-aligned addresses are at least one frame apart.
proof fn lemma_aligned_disjoint(a: int, b: int, fs: int)
    requires
        fs >= 1,
        0 <= a,
        0 <= b,
        a % fs == 0,
        b % fs == 0,
        a != b,
    ensures
        a + fs <= b || b + fs <= a,
{
    lemma_fundamental_div_mod(a, fs);
    lemma_fundamental_div_mod(b, fs);
    let pa = a / fs;
    let pb = b / fs;
    lemma_mul_is_commutative(fs, pa);
    lemma_mul_is_commutative(fs, pb);
    if pa < pb {
        lemma_mul_is_distributive_add_other_way(fs, pa, 1);
        lemma_mul_inequality(pa + 1, pb, fs);
    } else if pb < pa {
        lemma_mul_is_distributive_add_other_way(fs, pb, 1);
        lemma_mul_inequality(pb + 1, pa, fs);
    }
}

/// The whole fixed-size region of the frame `d` names, independent of
/// the payload length it currently carries.
pub open spec fn spec_full_frame(pool: FramePool, d: FrameDesc) -> Seq<u8> {
    pool.contents().subrange(d.addr as int, d.addr + pool.frame_size())
}

/// Encodes one probe per target into the transmit frame set: target `i`
/// goes into frame `i`, whose descriptor afterwards carries exactly the
/// probe's encoded length.  Descriptors and frames past the target
/// count are untouched.
pub fn encode_targets(
    pool: &mut FramePool,
    descs: &mut Vec<FrameDesc>,
    src: &SrcConfig,
    targets: &Vec<Target>,
)
    requires
        old(pool).wf(),
        old(pool).frame_size() >= 74,
        targets@.len() <= old(descs)@.len(),
        forall|j: int| 0 <= j < old(descs)@.len() ==> old(pool).valid_desc(#[trigger] old(descs)@[j]),
        forall|j: int, k: int|
            0 <= j < k < old(descs)@.len() ==> old(descs)@[j].addr != old(descs)@[k].addr,
    ensures
        final(pool).wf(),
        final(pool).frame_size() == old(pool).frame_size(),
        final(pool).frame_count() == old(pool).frame_count(),
        final(pool).contents().len() == old(pool).contents().len(),
        final(descs)@.len() == old(descs)@.len(),
        forall|j: int|
            0 <= j < old(descs)@.len() ==> (#[trigger] final(descs)@[j]).addr == old(
                descs,
            )@[j].addr,
        forall|j: int|
            0 <= j < targets@.len() ==> (#[trigger] final(descs)@[j]).len == spec_probe_len(
                src@,
                targets@[j]@,
            ),
        forall|j: int|
            0 <= j < targets@.len() ==> final(pool).frame_bytes(#[trigger] final(descs)@[j])
                == spec_encode_probe(src@, targets@[j]@),
        forall|j: int|
            targets@.len() <= j < old(descs)@.len() ==> final(descs)@[j] == old(descs)@[j],
        forall|j: int|
            targets@.len() <= j < old(descs)@.len() ==> spec_full_frame(
                *final(pool),
                #[trigger] final(descs)@[j],
            ) == spec_full_frame(*old(pool), old(descs)@[j]),
{
    let n = targets.len();
    let mut i: usize = 0;
    while i < n
        invariant
            pool.wf(),
            pool.frame_size() == old(pool).frame_size() >= 74,
            pool.frame_count() == old(pool).frame_count(),
            pool.contents().len() == old(pool).contents().len(),
            n == targets@.len(),
            i <= n <= descs@.len() == old(descs)@.len(),
            forall|j: int|
                0 <= j < descs@.len() ==> (#[trigger] descs@[j]).addr == old(descs)@[j].addr,
            forall|j: int| i <= j < descs@.len() ==> descs@[j] == old(descs)@[j],
            forall|j: int| 0 <= j < descs@.len() ==> pool.valid_desc(#[trigger] descs@[j]),
            forall|j: int, k: int| 0 <= j < k < descs@.len() ==> descs@[j].addr != descs@[k].addr,
            forall|j: int|
                0 <= j < i ==> (#[trigger] descs@[j]).len == spec_probe_len(src@, targets@[j]@),
            forall|j: int|
                0 <= j < i ==> pool.frame_bytes(#[trigger] descs@[j]) == spec_encode_probe(
                    src@,
                    targets@[j]@,
                ),
            forall|j: int|
                i <= j < descs@.len() ==> spec_full_frame(*pool, #[trigger] descs@[j])
                    == spec_full_frame(*old(pool), old(descs)@[j]),
        decreases n - i,
    {
        let ghost pre_pool = *pool;
        let ghost pre_descs = descs@;
        let probe = encode_probe(src, &targets[i]);
        let mut d = descs[i];
        let res = pool.write_frame(&mut d, &probe);
        match res {
            Ok(()) => {},
            Err(_) => {
                // the probe is at most 74 bytes and a frame holds at least that
                vstd::pervasive::unreached::<()>()
            },
        }
        descs.set(i, d);
        proof {
            let fs = pool.frame_size();
            assert forall|j: int| 0 <= j < descs@.len() && j != i implies spec_full_frame(
                *pool,
                #[trigger] descs@[j],
            ) == spec_full_frame(pre_pool, pre_descs[j]) by {
                lemma_aligned_disjoint(descs@[j].addr as int, d.addr as int, fs);
                assert(spec_full_frame(*pool, descs@[j]) =~= spec_full_frame(
                    pre_pool,
                    pre_descs[j],
                ));
            }
            assert forall|j: int| 0 <= j < i implies pool.frame_bytes(#[trigger] descs@[j])
                == spec_encode_probe(src@, targets@[j]@) by {
                lemma_aligned_disjoint(descs@[j].addr as int, d.addr as int, fs);
                assert(pool.frame_bytes(descs@[j]) =~= pre_pool.frame_bytes(pre_descs[j]));
            }
            assert(pool.frame_bytes(descs@[i as int]) == probe@);
        }
        i = i + 1;
    }
}

/// Decides whether a ring submission honoured the sizing contract: the
/// ring was sized to take the whole batch, so accepting fewer frames
/// than offered is a fatal protocol violation, not a retry condition.
pub fn check_submission(expected: usize, accepted: usize) -> (r: Result<(), ScanError>)
    ensures
        r is Ok <==> accepted == expected,
        r matches Err(e) ==> e == (ScanError::ShortSubmission { expected, accepted }),
{
    if accepted == expected {
        Ok(())
    } else {
        Err(ScanError::ShortSubmission { expected, accepted })
    }
}

/// The used prefix of the transmit frame set: the one batch submitted
/// to the transmit ring, holding exactly one frame per target.
pub fn tx_batch(descs: &Vec<FrameDesc>, n: usize) -> (r: Vec<FrameDesc>)
    requires
        n <= descs@.len(),
    ensures
        r@ == descs@.take(n as int),
{
    let mut r: Vec<FrameDesc> = Vec::new();
    let mut i: usize = 0;
    while i < n
        invariant
            n <= descs@.len(),
            r@.len() == i <= n,
            forall|j: int| 0 <= j < i ==> r@[j] == descs@[j],
        decreases n - i,
    {
        r.push(descs[i]);
        i = i + 1;
    }
    proof {
        assert(r@ =~= descs@.take(n as int));
    }
    r
}

} // verus!
