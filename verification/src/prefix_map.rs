//! Knowledge about the other sections of the network: a map from binary
//! prefixes to their signed section authority, kept pairwise disjoint.

use vstd::prelude::*;
use crate::name::{Prefix, XorName, bit_at, lemma_disjoint_prefixes_share_no_address};
use crate::types::{KeyedSig, SectionAuthorityProvider, SectionSigned};

verus! {

/// Information on another section, as received from the network.
#[derive(Clone, Debug, Eq, PartialEq)]
pub struct OtherSection {
    /// Its authority, signed so we know the info was valid.
    pub section_auth: SectionSigned<SectionAuthorityProvider>,
    /// When signed by a sibling section, the proof of the signing key,
    /// itself signed by our section; `None` when our own section signed.
    pub key_sig: Option<KeyedSig>,
}

impl OtherSection {
    /// The prefix this entry covers.
    pub open spec fn prefix_spec(self) -> Prefix {
        self.section_auth.value.prefix
    }

    /// Returns the prefix this entry covers.
    pub fn prefix(&self) -> (r: Prefix)
        ensures
            r == self.prefix_spec(),
    {
        self.section_auth.value.prefix
    }
}

/// A set of section entries keyed by pairwise-disjoint prefixes.
#[derive(Clone, Debug, Eq, PartialEq)]
pub struct PrefixMap {
    /// The live entries.
    pub entries: Vec<OtherSection>,
}

impl PrefixMap {
    /// Well-formedness: every prefix fits the address width and no two
    /// entries have compatible (overlapping) prefixes.
    pub open spec fn wf(self) -> bool {
        &&& forall|i: int| 0 <= i < self.entries@.len() ==> self.entries@[i].prefix_spec().wf()
        &&& forall|i: int, j: int|
            0 <= i < self.entries@.len() && 0 <= j < self.entries@.len() && i != j
                ==> !self.entries@[i].prefix_spec().compatible_spec(
                self.entries@[j].prefix_spec(),
            )
    }

    /// Whether some entry has this exact prefix-and-value pair.
    pub open spec fn contains_spec(self, e: OtherSection) -> bool {
        self.entries@.contains(e)
    }

    /// An empty map.
    pub fn new() -> (r: PrefixMap)
        ensures
            r.wf(),
            r.entries@.len() == 0,
    {
        PrefixMap { entries: Vec::new() }
    }

    /// Number of live entries.
    pub fn len(&self) -> (r: usize)
        ensures
            r == self.entries@.len(),
    {
        self.entries.len()
    }

    /// Inserts a new entry. An entry with the same prefix is replaced and
    /// entries strictly contained by the new prefix are removed; the insert
    /// is rejected when an existing entry with a strictly shorter prefix
    /// already covers the new one, since the map must stay disjoint.
    pub fn insert(&mut self, new: OtherSection) -> (r: bool)
        requires
            old(self).wf(),
            new.prefix_spec().wf(),
        ensures
            final(self).wf(),
            r <==> !(exists|i: int|
                0 <= i < old(self).entries@.len()
                    && old(self).entries@[i].prefix_spec().bit_count
                    < new.prefix_spec().bit_count && old(
                    self,
                ).entries@[i].prefix_spec().compatible_spec(new.prefix_spec())),
            !r ==> *final(self) == *old(self),
            r ==> final(self).contains_spec(new),
            r ==> forall|e: OtherSection|
                final(self).contains_spec(e) ==> (e == new || (old(self).contains_spec(e)
                    && !e.prefix_spec().compatible_spec(new.prefix_spec()))),
            r ==> forall|e: OtherSection|
                old(self).contains_spec(e) && !e.prefix_spec().compatible_spec(new.prefix_spec())
                    ==> final(self).contains_spec(e),
    {
        let n = self.entries.len();
        let new_prefix = new.prefix();
        let mut i: usize = 0;
        while i < n
            invariant
                i <= n,
                n == self.entries@.len(),
                forall|k: int|
                    0 <= k < i
                        ==> !(self.entries@[k].prefix_spec().bit_count
                        < new.prefix_spec().bit_count
                        && self.entries@[k].prefix_spec().compatible_spec(new.prefix_spec())),
            decreases n - i,
        {
            let p = self.entries[i].prefix();
            if p.bit_count < new_prefix.bit_count && p.is_compatible(&new_prefix) {
                return false;
            }
            i = i + 1;
        }
        let ghost orig = self.entries@;
        let mut kept: Vec<OtherSection> = Vec::new();
        let ghost mut srcs: Seq<int> = Seq::empty();
        while self.entries.len() > 0
            invariant
                self.entries@.len() <= orig.len(),
                self.entries@ == orig.subrange(0, self.entries@.len() as int),
                srcs.len() == kept@.len(),
                forall|w: int|
                    0 <= w < kept@.len() ==> self.entries@.len() <= #[trigger] srcs[w]
                        < orig.len() && kept@[w] == orig[srcs[w]],
                forall|w1: int, w2: int| 0 <= w1 < w2 < srcs.len() ==> srcs[w1] > srcs[w2],
                forall|w: int|
                    0 <= w < kept@.len() ==> !(#[trigger] kept@[w]).prefix_spec().compatible_spec(
                        new.prefix_spec(),
                    ),
                forall|k: int|
                    self.entries@.len() <= k < orig.len() && !(
                    #[trigger] orig[k]).prefix_spec().compatible_spec(new.prefix_spec())
                        ==> kept@.contains(orig[k]),
            decreases self.entries@.len(),
        {
            proof {
                assert(orig.subrange(0, self.entries@.len() as int).drop_last() =~= orig.subrange(
                    0,
                    self.entries@.len() - 1,
                ));
            }
            let e = match self.entries.pop() {
                Some(e) => e,
                None => {
                    proof {
                        assert(false);
                    }
                    return false;
                },
            };
            let ghost cur = self.entries@.len() as int;
            proof {
                assert(e == orig[cur]);
            }
            let p = e.prefix();
            let ghost kept_before = kept@;
            if !p.is_compatible(&new_prefix) {
                kept.push(e);
                proof {
                    srcs = srcs.push(cur);
                }
            }
            proof {
                assert forall|k: int|
                    cur <= k < orig.len() && !(#[trigger] orig[k]).prefix_spec().compatible_spec(
                        new.prefix_spec(),
                    ) implies kept@.contains(orig[k]) by {
                    if k == cur {
                        assert(kept@[kept@.len() - 1] == orig[cur]);
                    } else {
                        assert(kept_before.contains(orig[k]));
                        let w = choose|w: int|
                            0 <= w < kept_before.len() && kept_before[w] == orig[k];
                        assert(kept@[w] == orig[k]);
                    }
                }
            }
        }
        let ghost pre = kept@;
        kept.push(new);
        proof {
            assert forall|k: int|
                0 <= k < orig.len() && !(#[trigger] orig[k]).prefix_spec().compatible_spec(
                    new.prefix_spec(),
                ) implies kept@.contains(orig[k]) by {
                assert(pre.contains(orig[k]));
                let w = choose|w: int| 0 <= w < pre.len() && pre[w] == orig[k];
                assert(kept@[w] == orig[k]);
            }
            let ks = kept@;
            assert forall|a: int, b: int|
                0 <= a < ks.len() && 0 <= b < ks.len() && a != b implies !ks[a].prefix_spec().compatible_spec(
                ks[b].prefix_spec(),
            ) by {
                if a < ks.len() - 1 && b < ks.len() - 1 {
                    assert(ks[a] == orig[srcs[a]]);
                    assert(ks[b] == orig[srcs[b]]);
                    assert(srcs[a] != srcs[b]);
                    assert(!orig[srcs[a]].prefix_spec().compatible_spec(
                        orig[srcs[b]].prefix_spec(),
                    ));
                } else if a == ks.len() - 1 {
                    assert(!ks[b].prefix_spec().compatible_spec(new.prefix_spec()));
                    crate::name::lemma_compatible_symmetric(
                        ks[a].prefix_spec(),
                        ks[b].prefix_spec(),
                    );
                } else {
                    assert(!ks[a].prefix_spec().compatible_spec(new.prefix_spec()));
                }
            }
            assert forall|i: int| 0 <= i < ks.len() implies ks[i].prefix_spec().wf() by {
                if i < ks.len() - 1 {
                    assert(ks[i] == orig[srcs[i]]);
                }
            }
            assert(ks[pre.len() as int] == new);
            assert(ks.contains(new));
            assert forall|e: OtherSection| ks.contains(e) implies (e == new || (orig.contains(e)
                && !e.prefix_spec().compatible_spec(new.prefix_spec()))) by {
                let w = choose|w: int| 0 <= w < ks.len() && ks[w] == e;
                if w < ks.len() - 1 {
                    assert(ks[w] == pre[w]);
                    assert(pre[w] == orig[srcs[w]]);
                    assert(orig[srcs[w]] == e);
                    assert(orig.contains(e));
                } else {
                    assert(e == new);
                }
            }
        }
        self.entries = kept;
        true
    }

    /// Returns the entry whose prefix contains the address, when one does.
    /// Disjointness makes it unique.
    pub fn get_matching(&self, name: &XorName) -> (r: Option<&OtherSection>)
        requires
            self.wf(),
        ensures
            match r {
                Some(e) => self.contains_spec(*e) && e.prefix_spec().matches_spec(name@),
                None => forall|i: int|
                    0 <= i < self.entries@.len() ==> !self.entries@[i].prefix_spec().matches_spec(
                        name@,
                    ),
            },
    {
        let n = self.entries.len();
        let mut i: usize = 0;
        while i < n
            invariant
                i <= n,
                n == self.entries@.len(),
                forall|k: int|
                    0 <= k < i ==> !self.entries@[k].prefix_spec().matches_spec(name@),
            decreases n - i,
        {
            let p = self.entries[i].prefix();
            if p.matches(name) {
                return Some(&self.entries[i]);
            }
            i = i + 1;
        }
        None
    }
}

/// Prefix-map disjointness: in a well-formed map no two live entries have
/// overlapping prefixes, so no address lies under two of them. `new`
/// establishes well-formedness and `insert` preserves it, so this holds
/// after any sequence of inserts.
pub proof fn lemma_prefix_map_disjoint(m: PrefixMap, i: int, j: int, n: Seq<u8>)
    requires
        m.wf(),
        0 <= i < m.entries@.len(),
        0 <= j < m.entries@.len(),
        i != j,
        m.entries@[i].prefix_spec().matches_spec(n),
    ensures
        !m.entries@[i].prefix_spec().compatible_spec(m.entries@[j].prefix_spec()),
        !m.entries@[j].prefix_spec().matches_spec(n),
{
    lemma_disjoint_prefixes_share_no_address(
        m.entries@[i].prefix_spec(),
        m.entries@[j].prefix_spec(),
        n,
    );
}

/// Container for what we know about the sections of the network.
#[derive(Clone, Debug, Eq, PartialEq)]
pub struct Network {
    /// Other sections: maps section prefixes to their latest signed section
    /// authority providers.
    pub sections: PrefixMap,
}

impl Network {
    /// A view of the network with no known remote sections.
    pub fn new() -> (r: Network)
        ensures
            r.sections.wf(),
            r.sections.entries@.len() == 0,
    {
        Network { sections: PrefixMap::new() }
    }
}

} // verus!
