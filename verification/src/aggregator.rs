//! The signature aggregator: collects BLS signature shares per
//! `(payload, key index)` until `threshold + 1` distinct signers have
//! contributed, deduplicates, ages entries out, and combines exactly once.

use vstd::prelude::*;
use crate::bls::{bls_combine, bls_verify_share, combined_of, pks_threshold, pks_threshold_of,
    pks_wf, share_valid, shares_view};
use crate::types::BlsSignatureBytes;
use vstd::pervasive::VecAdditionalExecFns;

verus! {

/// How long a started accumulation lives without completing, in
/// milliseconds of the caller's clock.
pub const SHARE_TTL_MS: u64 = 300_000;

/// One accumulation in progress.
#[derive(Clone, Debug, Eq, PartialEq)]
pub struct AggEntry {
    /// The payload the shares sign.
    pub payload: Vec<u8>,
    /// The key generation the shares belong to.
    pub key_index: u64,
    /// The distinct signers' shares collected so far.
    pub shares: Vec<(u64, BlsSignatureBytes)>,
    /// When the entry was created, on the caller's clock.
    pub born: u64,
}

/// Mathematical view of one accumulation.
pub struct AggEntryView {
    /// The payload the shares sign.
    pub payload: Seq<u8>,
    /// The key generation the shares belong to.
    pub key_index: u64,
    /// The signers' shares collected so far.
    pub shares: Seq<(u64, Seq<u8>)>,
    /// When the entry was created.
    pub born: u64,
}

impl View for AggEntry {
    type V = AggEntryView;

    open spec fn view(&self) -> AggEntryView {
        AggEntryView {
            payload: self.payload@,
            key_index: self.key_index,
            shares: shares_view(self.shares@),
            born: self.born,
        }
    }
}

/// View of the live accumulations.
pub open spec fn entries_view(v: Seq<AggEntry>) -> Seq<AggEntryView> {
    v.map_values(|e: AggEntry| e@)
}

/// Whether the entry accumulates for this payload and key generation.
pub open spec fn entry_matches(e: AggEntryView, p: Seq<u8>, k: u64) -> bool {
    e.payload == p && e.key_index == k
}

/// Whether this signer has already contributed to the entry.
pub open spec fn has_signer(e: AggEntryView, signer: u64) -> bool {
    exists|i: int| 0 <= i < e.shares.len() && e.shares[i].0 == signer
}

/// Whether the entry is still live at time `now`.
pub open spec fn entry_live(e: AggEntryView, now: u64) -> bool {
    e.born + SHARE_TTL_MS >= now
}

/// The entries that survive aging out at time `now`.
pub open spec fn spec_prune(s: Seq<AggEntryView>, now: u64) -> Seq<AggEntryView> {
    s.filter(|e: AggEntryView| entry_live(e, now))
}

/// Index of the first entry for `(p, k)` at or after `j`.
pub open spec fn find_from(s: Seq<AggEntryView>, p: Seq<u8>, k: u64, j: int) -> Option<int>
    decreases s.len() - j,
{
    if j < 0 || j >= s.len() {
        None
    } else if entry_matches(s[j], p, k) {
        Some(j)
    } else {
        find_from(s, p, k, j + 1)
    }
}

/// A found index points at an entry for `(p, k)`.
pub proof fn lemma_find_from_match(s: Seq<AggEntryView>, p: Seq<u8>, k: u64, j: int)
    ensures
        match find_from(s, p, k, j) {
            Some(i) => j <= i < s.len() && entry_matches(s[i], p, k),
            None => true,
        },
    decreases s.len() - j,
{
    if j < 0 || j >= s.len() {
    } else if entry_matches(s[j], p, k) {
    } else {
        lemma_find_from_match(s, p, k, j + 1);
    }
}

/// What `add_share` answers.
#[derive(Clone, Copy, Debug, Eq, PartialEq)]
pub enum AddShareResult {
    /// The share did not verify for this signer and payload; nothing was
    /// stored.
    InvalidShare,
    /// The share was taken (or was a duplicate and dropped without error),
    /// and the threshold is not yet reached.
    NotEnough,
    /// The threshold was reached just now: the combined signature, produced
    /// exactly once.
    Combined(BlsSignatureBytes),
    /// The threshold was reached but the key set refused to combine; the
    /// accumulation was discarded.
    CombineFailed,
}

/// What `add_share` answers, at the specification level: as
/// `AddShareResult`, with the combined signature as a byte sequence.
pub enum SpecOutcome {
    /// The share did not verify.
    Invalid,
    /// Stored (or duplicate), threshold not reached.
    NotEnough,
    /// Threshold reached; the combined signature.
    Combined(Seq<u8>),
    /// Threshold reached but the key set refused to combine.
    CombineFailed,
}

/// The aggregator's transition on one share, after aging out old entries:
/// the new entry list and the answer.
pub open spec fn spec_add_share(
    pks: Seq<u8>,
    threshold: int,
    entries0: Seq<AggEntryView>,
    payload: Seq<u8>,
    key_index: u64,
    signer: u64,
    share: Seq<u8>,
    now: u64,
) -> (Seq<AggEntryView>, SpecOutcome) {
    let entries = spec_prune(entries0, now);
    if !share_valid(pks, signer, share, payload) {
        (entries, SpecOutcome::Invalid)
    } else {
        match find_from(entries, payload, key_index, 0) {
            None => {
                let shares = seq![(signer, share)];
                if threshold == 0 {
                    match combined_of(pks, shares) {
                        Some(sig) => (entries, SpecOutcome::Combined(sig)),
                        None => (entries, SpecOutcome::CombineFailed),
                    }
                } else {
                    let e = AggEntryView {
                        payload: payload,
                        key_index: key_index,
                        shares: shares,
                        born: now,
                    };
                    (entries.push(e), SpecOutcome::NotEnough)
                }
            },
            Some(i) => {
                if has_signer(entries[i], signer) {
                    (entries, SpecOutcome::NotEnough)
                } else {
                    let updated = AggEntryView {
                        payload: entries[i].payload,
                        key_index: entries[i].key_index,
                        shares: entries[i].shares.push((signer, share)),
                        born: entries[i].born,
                    };
                    if updated.shares.len() >= threshold + 1 {
                        match combined_of(pks, updated.shares) {
                            Some(sig) => (entries.remove(i), SpecOutcome::Combined(sig)),
                            None => (entries.remove(i), SpecOutcome::CombineFailed),
                        }
                    } else {
                        (entries.update(i, updated), SpecOutcome::NotEnough)
                    }
                }
            },
        }
    }
}

/// Whether an executable answer matches a specification-level outcome.
pub open spec fn outcome_matches(r: AddShareResult, o: SpecOutcome) -> bool {
    match o {
        SpecOutcome::Invalid => r == AddShareResult::InvalidShare,
        SpecOutcome::NotEnough => r == AddShareResult::NotEnough,
        SpecOutcome::Combined(sig) => r matches AddShareResult::Combined(s) && s@ == sig,
        SpecOutcome::CombineFailed => r == AddShareResult::CombineFailed,
    }
}

/// Collects signature shares until `threshold + 1` distinct signers have
/// contributed for one `(payload, key index)`.
pub struct SignatureAggregator {
    /// The serialized public key set shares verify against.
    pub pks_bytes: Vec<u8>,
    /// The key set's threshold.
    pub threshold: usize,
    /// Accumulations in progress.
    pub entries: Vec<AggEntry>,
}

impl SignatureAggregator {
    /// Well-formedness: the key set parses, the threshold is its, and every
    /// stored entry holds at most `threshold` distinct signers' shares, all
    /// valid for the entry's payload.
    pub open spec fn wf(self) -> bool {
        &&& pks_wf(self.pks_bytes@)
        &&& self.threshold == pks_threshold_of(self.pks_bytes@)
        &&& forall|i: int|
            0 <= i < self.entries@.len() ==> entry_wf(
                #[trigger] entries_view(self.entries@)[i],
                self.pks_bytes@,
                self.threshold as int,
            )
    }

    /// A new aggregator for one key set; fails when the serialized key set
    /// does not parse.
    pub fn new(pks_bytes: Vec<u8>) -> (r: Result<SignatureAggregator, ()>)
        ensures
            match r {
                Ok(agg) => {
                    &&& agg.wf()
                    &&& agg.pks_bytes@ == pks_bytes@
                    &&& agg.entries@.len() == 0
                },
                Err(_) => !pks_wf(pks_bytes@),
            },
    {
        let threshold = match pks_threshold(&pks_bytes) {
            Some(t) => t,
            None => {
                return Err(());
            },
        };
        Ok(SignatureAggregator { pks_bytes, threshold, entries: Vec::new() })
    }

    /// Feeds one signer's share for `(payload, key_index)` at time `now`.
    /// Invalid shares are rejected; a duplicate signer leaves the prior
    /// share unchanged and reports `NotEnough` without error; the share
    /// that completes `threshold + 1` distinct signers triggers one
    /// combination and drops the accumulation, so a combined signature is
    /// produced exactly once.
    pub fn add_share(
        &mut self,
        payload: Vec<u8>,
        key_index: u64,
        signer: u64,
        share: BlsSignatureBytes,
        now: u64,
    ) -> (r: AddShareResult)
        requires
            old(self).wf(),
        ensures
            final(self).wf(),
            final(self).pks_bytes@ == old(self).pks_bytes@,
            final(self).threshold == old(self).threshold,
            ({
                let (entries2, outcome) = spec_add_share(
                    old(self).pks_bytes@,
                    old(self).threshold as int,
                    entries_view(old(self).entries@),
                    payload@,
                    key_index,
                    signer,
                    share@,
                    now,
                );
                &&& entries_view(final(self).entries@) == entries2
                &&& outcome_matches(r, outcome)
            }),
    {
        self.prune(now);
        let ghost pks = self.pks_bytes@;
        let ghost t = self.threshold as int;
        if !bls_verify_share(&self.pks_bytes, signer, &share, &payload) {
            return AddShareResult::InvalidShare;
        }
        let idx = match self.find(&payload, key_index) {
            None => {
                let mut shares: Vec<(u64, BlsSignatureBytes)> = Vec::new();
                shares.push((signer, share));
                proof {
                    assert(shares_view(shares@) =~= seq![(signer, share@)]);
                }
                if self.threshold == 0 {
                    let r = match bls_combine(&self.pks_bytes, &shares) {
                        Some(sig) => AddShareResult::Combined(sig),
                        None => AddShareResult::CombineFailed,
                    };
                    return r;
                }
                let entry = AggEntry { payload, key_index, shares, born: now };
                let ghost before = entries_view(self.entries@);
                proof {
                    assert(entries_view(self.entries@.push(entry)) =~= before.push(entry@));
                }
                self.entries.push(entry);
                proof {
                    assert(entry@.shares[0] == (signer, share@));
                    assert(entry_wf(entry@, pks, t));
                    assert forall|i: int|
                        0 <= i < entries_view(self.entries@).len() implies entry_wf(
                        #[trigger] entries_view(self.entries@)[i],
                        pks,
                        t,
                    ) by {
                        if i < before.len() {
                            assert(entries_view(self.entries@)[i] == before[i]);
                            assert(entry_wf(before[i], pks, t));
                        } else {
                            assert(entries_view(self.entries@)[i] == entry@);
                        }
                    }
                }
                return AddShareResult::NotEnough;
            },
            Some(i) => i,
        };
        if self.entry_has_signer(idx, signer) {
            return AddShareResult::NotEnough;
        }
        let ghost entries_before = entries_view(self.entries@);
        proof {
            assert(entry_wf(entries_before[idx as int], pks, t));
            lemma_find_from_match(entries_before, payload@, key_index, 0);
            assert(entries_before[idx as int].payload == payload@);
        }
        let mut entry = self.entries.remove(idx);
        entry.shares.push((signer, share));
        proof {
            assert(entry@.shares =~= entries_before[idx as int].shares.push((signer, share@)));
            assert(entries_view(self.entries@) =~= entries_before.remove(idx as int));
            assert forall|i: int|
                0 <= i < entries_view(self.entries@).len() implies entry_wf(
                #[trigger] entries_view(self.entries@)[i],
                pks,
                t,
            ) by {
                if i < idx {
                    assert(entries_view(self.entries@)[i] == entries_before[i]);
                } else {
                    assert(entries_view(self.entries@)[i] == entries_before[i + 1]);
                }
            }
            let es = entry@.shares;
            let old_es = entries_before[idx as int].shares;
            assert forall|a: int, b: int| 0 <= a < b < es.len() implies es[a].0 != es[b].0 by {
                if b == es.len() - 1 {
                    assert(es[a] == old_es[a]);
                    assert(!has_signer(entries_before[idx as int], signer));
                    assert(old_es[a].0 != signer);
                }
            }
            assert forall|a: int|
                0 <= a < es.len() implies share_valid(pks, es[a].0, es[a].1, entry@.payload) by {
                if a < es.len() - 1 {
                    assert(es[a] == old_es[a]);
                }
            }
        }
        if entry.shares.len() > self.threshold {
            let r = match bls_combine(&self.pks_bytes, &entry.shares) {
                Some(sig) => AddShareResult::Combined(sig),
                None => AddShareResult::CombineFailed,
            };
            return r;
        }
        let ghost after_remove = entries_view(self.entries@);
        proof {
            assert(entries_view(self.entries@.insert(idx as int, entry)) =~= after_remove.insert(
                idx as int,
                entry@,
            ));
            assert(after_remove.insert(idx as int, entry@) =~= entries_before.update(
                idx as int,
                entry@,
            ));
        }
        self.entries.insert(idx, entry);
        proof {
            assert forall|i: int|
                0 <= i < entries_view(self.entries@).len() implies entry_wf(
                #[trigger] entries_view(self.entries@)[i],
                pks,
                t,
            ) by {
                if i != idx {
                    assert(entries_view(self.entries@)[i] == entries_before[i]);
                } else {
                    assert(entries_view(self.entries@)[i] == entry@);
                }
            }
        }
        AddShareResult::NotEnough
    }

    /// Drops entries older than the share time-to-live.
    fn prune(&mut self, now: u64)
        requires
            old(self).wf(),
        ensures
            final(self).wf(),
            final(self).pks_bytes@ == old(self).pks_bytes@,
            final(self).threshold == old(self).threshold,
            entries_view(final(self).entries@) == spec_prune(
                entries_view(old(self).entries@),
                now,
            ),
    {
        let ghost orig = entries_view(self.entries@);
        let ghost pks = self.pks_bytes@;
        let ghost t = self.threshold as int;
        let mut kept: Vec<AggEntry> = Vec::new();
        let n = self.entries.len();
        let mut i: usize = 0;
        proof {
            reveal_with_fuel(Seq::<AggEntryView>::filter, 2);
            assert(orig.subrange(0, 0) =~= Seq::<AggEntryView>::empty());
            assert(spec_prune(orig.subrange(0, 0), now) =~= Seq::<AggEntryView>::empty());
        }
        while i < n
            invariant
                i <= n,
                n == self.entries@.len(),
                self.pks_bytes@ == pks,
                self.threshold as int == t,
                forall|k: int|
                    i <= k < n ==> #[trigger] entries_view(self.entries@)[k] == orig[k],
                entries_view(kept@) == spec_prune(orig.subrange(0, i as int), now),
                forall|w: int|
                    0 <= w < kept@.len() ==> entry_wf(
                        #[trigger] entries_view(kept@)[w],
                        pks,
                        t,
                    ),
            decreases n - i,
        {
            proof {
                reveal_with_fuel(Seq::<AggEntryView>::filter, 2);
                assert(entries_view(self.entries@)[i as int] == orig[i as int]);
                assert(orig.subrange(0, i + 1).drop_last() =~= orig.subrange(0, i as int));
                assert(orig.subrange(0, i + 1).last() == orig[i as int]);
            }
            let ghost pre_entries = self.entries@;
            let live = {
                let e = &self.entries[i];
                now <= e.born.saturating_add(SHARE_TTL_MS)
            };
            if live {
                let e = self.entries_take(i);
                proof {
                    assert(e@ == orig[i as int]);
                    assert(entry_wf(e@, pks, t));
                    assert(entries_view(kept@.push(e)) =~= entries_view(kept@).push(e@));
                }
                kept.push(e);
            }
            proof {
                assert forall|k: int|
                    i + 1 <= k < n implies #[trigger] entries_view(self.entries@)[k] == orig[k] by {
                    assert(entries_view(pre_entries)[k] == orig[k]);
                    assert(entries_view(pre_entries)[k] == pre_entries[k]@);
                    assert(self.entries@[k] == pre_entries[k]);
                    assert(entries_view(self.entries@)[k] == self.entries@[k]@);
                }
            }
            i = i + 1;
        }
        proof {
            assert(orig.subrange(0, n as int) =~= orig);
        }
        self.entries = kept;
    }

    /// Moves entry `i` out of the vector by swapping in a placeholder that
    /// is immediately discarded with the vector.
    fn entries_take(&mut self, i: usize) -> (r: AggEntry)
        requires
            i < old(self).entries@.len(),
        ensures
            r == old(self).entries@[i as int],
            final(self).entries@.len() == old(self).entries@.len(),
            forall|k: int|
                0 <= k < old(self).entries@.len() && k != i ==> final(self).entries@[k] == old(
                    self,
                ).entries@[k],
            final(self).pks_bytes == old(self).pks_bytes,
            final(self).threshold == old(self).threshold,
    {
        let placeholder = AggEntry { payload: Vec::new(), key_index: 0, shares: Vec::new(), born: 0 };
        let mut value = placeholder;
        self.entries.set_and_swap(i, &mut value);
        value
    }

    /// Index of the accumulation for `(payload, key_index)`, if any.
    fn find(&self, payload: &Vec<u8>, key_index: u64) -> (r: Option<usize>)
        ensures
            match r {
                Some(i) => i < self.entries@.len() && find_from(
                    entries_view(self.entries@),
                    payload@,
                    key_index,
                    0,
                ) == Some(i as int),
                None => find_from(entries_view(self.entries@), payload@, key_index, 0) is None,
            },
    {
        let n = self.entries.len();
        let mut i: usize = 0;
        while i < n
            invariant
                i <= n,
                n == self.entries@.len(),
                find_from(entries_view(self.entries@), payload@, key_index, 0) == find_from(
                    entries_view(self.entries@),
                    payload@,
                    key_index,
                    i as int,
                ),
            decreases n - i,
        {
            if eq_bytes(&self.entries[i].payload, payload) && self.entries[i].key_index
                == key_index {
                return Some(i);
            }
            i = i + 1;
        }
        None
    }

    /// Whether signer `signer` already contributed to entry `i`.
    fn entry_has_signer(&self, i: usize, signer: u64) -> (r: bool)
        requires
            i < self.entries@.len(),
        ensures
            r == has_signer(entries_view(self.entries@)[i as int], signer),
    {
        let shares = &self.entries[i].shares;
        let n = shares.len();
        let mut j: usize = 0;
        while j < n
            invariant
                j <= n,
                i < self.entries@.len(),
                n == self.entries@[i as int].shares@.len(),
                shares == &self.entries@[i as int].shares,
                forall|k: int| 0 <= k < j ==> self.entries@[i as int].shares@[k].0 != signer,
            decreases n - j,
        {
            if shares[j].0 == signer {
                proof {
                    assert(entries_view(self.entries@)[i as int].shares[j as int].0 == signer);
                }
                return true;
            }
            j = j + 1;
        }
        proof {
            assert(forall|k: int|
                0 <= k < entries_view(self.entries@)[i as int].shares.len()
                    ==> entries_view(self.entries@)[i as int].shares[k]
                    == (self.entries@[i as int].shares@[k].0, self.entries@[i as int].shares@[k].1@));
        }
        false
    }
}

/// Well-formedness of one accumulation: at most `threshold` shares, one per
/// signer, each valid for the entry's payload.
pub open spec fn entry_wf(e: AggEntryView, pks: Seq<u8>, threshold: int) -> bool {
    &&& e.shares.len() <= threshold
    &&& forall|a: int, b: int|
        0 <= a < b < e.shares.len() ==> e.shares[a].0 != e.shares[b].0
    &&& forall|a: int|
        0 <= a < e.shares.len() ==> share_valid(
            pks,
            e.shares[a].0,
            e.shares[a].1,
            e.payload,
        )
}

/// Builds the view of one accumulation.
pub open spec fn agg_entry(
    payload: Seq<u8>,
    key_index: u64,
    shares: Seq<(u64, Seq<u8>)>,
    born: u64,
) -> AggEntryView {
    AggEntryView { payload: payload, key_index: key_index, shares: shares, born: born }
}

/// A filter keeps a sequence whose members all satisfy the predicate.
pub proof fn lemma_filter_identity<A>(s: Seq<A>, pred: spec_fn(A) -> bool)
    requires
        forall|i: int| 0 <= i < s.len() ==> pred(#[trigger] s[i]),
    ensures
        s.filter(pred) == s,
    decreases s.len(),
{
    reveal(Seq::filter);
    if s.len() == 0 {
        assert(s.filter(pred) =~= s);
    } else {
        lemma_filter_identity(s.drop_last(), pred);
        assert(s.drop_last().push(s.last()) =~= s);
    }
}

/// Appending a matching entry to a sequence without one makes the appended
/// entry the first match.
pub proof fn lemma_find_from_push(
    s: Seq<AggEntryView>,
    e: AggEntryView,
    p: Seq<u8>,
    k: u64,
    j: int,
)
    requires
        0 <= j,
        find_from(s, p, k, j) is None,
        entry_matches(e, p, k),
        j <= s.len(),
    ensures
        find_from(s.push(e), p, k, j) == Some(s.len() as int),
    decreases s.len() - j,
{
    if j == s.len() {
        assert(s.push(e)[j] == e);
    } else {
        assert(s.push(e)[j] == s[j]);
        lemma_find_from_push(s, e, p, k, j + 1);
    }
}

/// The aggregator's entries after feeding the first `k` of the given shares
/// for one `(payload, key index)`, all at time `now`.
pub open spec fn agg_state_after(
    pks: Seq<u8>,
    threshold: int,
    entries0: Seq<AggEntryView>,
    payload: Seq<u8>,
    key_index: u64,
    shares: Seq<(u64, Seq<u8>)>,
    now: u64,
    k: int,
) -> Seq<AggEntryView>
    decreases k,
{
    if k <= 0 {
        entries0
    } else {
        spec_add_share(
            pks,
            threshold,
            agg_state_after(pks, threshold, entries0, payload, key_index, shares, now, k - 1),
            payload,
            key_index,
            shares[k - 1].0,
            shares[k - 1].1,
            now,
        ).0
    }
}

/// The answer to the `k`-th of the given shares (1-based).
pub open spec fn agg_result_at(
    pks: Seq<u8>,
    threshold: int,
    entries0: Seq<AggEntryView>,
    payload: Seq<u8>,
    key_index: u64,
    shares: Seq<(u64, Seq<u8>)>,
    now: u64,
    k: int,
) -> SpecOutcome {
    spec_add_share(
        pks,
        threshold,
        agg_state_after(pks, threshold, entries0, payload, key_index, shares, now, k - 1),
        payload,
        key_index,
        shares[k - 1].0,
        shares[k - 1].1,
        now,
    ).1
}

/// Aggregator completeness: with no accumulation in progress for
/// `(payload, key index)`, feeding `threshold + 1` valid shares from
/// distinct signers answers `NotEnough` to each of the first `threshold`
/// of them, and combines exactly at the last one, after which the
/// accumulation is gone, so the signature is produced exactly once.
pub proof fn lemma_aggregator_completeness(
    pks: Seq<u8>,
    threshold: int,
    entries0: Seq<AggEntryView>,
    payload: Seq<u8>,
    key_index: u64,
    shares: Seq<(u64, Seq<u8>)>,
    now: u64,
)
    requires
        1 <= threshold,
        shares.len() == threshold + 1,
        forall|a: int, b: int| 0 <= a < b < shares.len() ==> shares[a].0 != shares[b].0,
        forall|a: int|
            0 <= a < shares.len() ==> share_valid(
                pks,
                (#[trigger] shares[a]).0,
                shares[a].1,
                payload,
            ),
        find_from(spec_prune(entries0, now), payload, key_index, 0) is None,
    ensures
        forall|k: int|
            1 <= k <= threshold ==> agg_result_at(
                pks,
                threshold,
                entries0,
                payload,
                key_index,
                shares,
                now,
                k,
            ) == SpecOutcome::NotEnough,
        agg_result_at(pks, threshold, entries0, payload, key_index, shares, now, threshold + 1)
            == match combined_of(pks, shares) {
            Some(sig) => SpecOutcome::Combined(sig),
            None => SpecOutcome::CombineFailed,
        },
        agg_state_after(pks, threshold, entries0, payload, key_index, shares, now, threshold + 1)
            == spec_prune(entries0, now),
{
    assert forall|k: int| 1 <= k <= threshold implies agg_result_at(
        pks,
        threshold,
        entries0,
        payload,
        key_index,
        shares,
        now,
        k,
    ) == SpecOutcome::NotEnough by {
        lemma_agg_feed_invariant(pks, threshold, entries0, payload, key_index, shares, now, k);
    }
    let t = threshold;
    let pruned0 = spec_prune(entries0, now);
    lemma_agg_feed_invariant(pks, threshold, entries0, payload, key_index, shares, now, t);
    let state_t = agg_state_after(pks, threshold, entries0, payload, key_index, shares, now, t);
    let entry_t = AggEntryView {
        payload: payload,
        key_index: key_index,
        shares: shares.subrange(0, t),
        born: now,
    };
    assert(state_t == pruned0.push(entry_t));
    lemma_agg_step(pks, threshold, entries0, pruned0, entry_t, payload, key_index, shares, now, t);
    let updated_shares = entry_t.shares.push(shares[t]);
    assert(updated_shares =~= shares);
    assert(agg_state_after(pks, threshold, entries0, payload, key_index, shares, now, t + 1)
        =~= pruned0);
}

/// After `k` of the shares (with `1 <= k <= threshold`), the state is the
/// pruned original entries plus one accumulation holding exactly the first
/// `k` shares, and the `k`-th answer was `NotEnough`.
proof fn lemma_agg_feed_invariant(
    pks: Seq<u8>,
    threshold: int,
    entries0: Seq<AggEntryView>,
    payload: Seq<u8>,
    key_index: u64,
    shares: Seq<(u64, Seq<u8>)>,
    now: u64,
    k: int,
)
    requires
        1 <= threshold,
        shares.len() == threshold + 1,
        1 <= k <= threshold,
        forall|a: int, b: int| 0 <= a < b < shares.len() ==> shares[a].0 != shares[b].0,
        forall|a: int|
            0 <= a < shares.len() ==> share_valid(
                pks,
                (#[trigger] shares[a]).0,
                shares[a].1,
                payload,
            ),
        find_from(spec_prune(entries0, now), payload, key_index, 0) is None,
    ensures
        agg_state_after(pks, threshold, entries0, payload, key_index, shares, now, k)
            == spec_prune(entries0, now).push(
            agg_entry(payload, key_index, shares.subrange(0, k), now),
        ),
        agg_result_at(pks, threshold, entries0, payload, key_index, shares, now, k)
            == SpecOutcome::NotEnough,
    decreases k,
{
    let pruned0 = spec_prune(entries0, now);
    if k == 1 {
        assert(seq![(shares[0].0, shares[0].1)] =~= shares.subrange(0, 1));
    } else {
        lemma_agg_feed_invariant(
            pks,
            threshold,
            entries0,
            payload,
            key_index,
            shares,
            now,
            k - 1,
        );
        let entry_prev = AggEntryView {
            payload: payload,
            key_index: key_index,
            shares: shares.subrange(0, k - 1),
            born: now,
        };
        lemma_agg_step(
            pks,
            threshold,
            entries0,
            pruned0,
            entry_prev,
            payload,
            key_index,
            shares,
            now,
            k - 1,
        );
        let updated_shares = entry_prev.shares.push(shares[k - 1]);
        assert(updated_shares =~= shares.subrange(0, k));
        assert(pruned0.push(entry_prev).update(
            pruned0.len() as int,
            AggEntryView {
                payload: payload,
                key_index: key_index,
                shares: updated_shares,
                born: now,
            },
        ) =~= pruned0.push(
            AggEntryView {
                payload: payload,
                key_index: key_index,
                shares: shares.subrange(0, k),
                born: now,
            },
        ));
    }
}

/// One step from the invariant state: pruning leaves it unchanged, the
/// accumulation is found at the end, and the next signer is fresh.
proof fn lemma_agg_step(
    pks: Seq<u8>,
    threshold: int,
    entries0: Seq<AggEntryView>,
    pruned0: Seq<AggEntryView>,
    entry: AggEntryView,
    payload: Seq<u8>,
    key_index: u64,
    shares: Seq<(u64, Seq<u8>)>,
    now: u64,
    k: int,
)
    requires
        pruned0 == spec_prune(entries0, now),
        find_from(pruned0, payload, key_index, 0) is None,
        entry == agg_entry(payload, key_index, shares.subrange(0, k), now),
        1 <= k < shares.len(),
        forall|a: int, b: int| 0 <= a < b < shares.len() ==> shares[a].0 != shares[b].0,
    ensures
        spec_prune(pruned0.push(entry), now) == pruned0.push(entry),
        find_from(pruned0.push(entry), payload, key_index, 0) == Some(pruned0.len() as int),
        !has_signer(entry, shares[k].0),
{
    let live = |e: AggEntryView| entry_live(e, now);
    pruned0.filter_lemma(live);
    assert(entries0.filter(live) == pruned0);
    entries0.filter_lemma(live);
    assert forall|i: int| 0 <= i < pruned0.push(entry).len() implies live(
        #[trigger] pruned0.push(entry)[i],
    ) by {
        if i < pruned0.len() {
            assert(pruned0.push(entry)[i] == pruned0[i]);
        }
    }
    lemma_filter_identity(pruned0.push(entry), live);
    lemma_find_from_push(pruned0, entry, payload, key_index, 0);
    assert forall|w: int| 0 <= w < entry.shares.len() implies entry.shares[w].0 != shares[k].0 by {
        assert(entry.shares[w] == shares[w]);
    }
}

/// Byte-wise comparison of two byte vectors.
pub fn eq_bytes(a: &Vec<u8>, b: &Vec<u8>) -> (r: bool)
    ensures
        r <==> a@ =~= b@,
{
    if a.len() != b.len() {
        return false;
    }
    let mut i: usize = 0;
    while i < a.len()
        invariant
            i <= a@.len(),
            a@.len() == b@.len(),
            forall|k: int| 0 <= k < i ==> a@[k] == b@[k],
        decreases a@.len() - i,
    {
        if a[i] != b[i] {
            return false;
        }
        i = i + 1;
    }
    proof {
        assert(a@ =~= b@);
    }
    true
}

} // verus!
