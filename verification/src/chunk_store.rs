//! The content-addressed chunk store the blob logic writes to and reads
//! from: a keep-first map from chunk addresses to chunk bytes, standing for
//! what the network holds.

use vstd::prelude::*;
use crate::blob::{addr_eq, eq_addr, ChunkAddress};

verus! {

/// An address at the specification level: the namespace and the name bytes.
pub open spec fn addr_view(a: ChunkAddress) -> (bool, Seq<u8>) {
    (a.is_public_spec(), a.name_spec()@)
}

/// The store at the specification level: address views paired with chunk
/// bytes, oldest first.
pub open spec fn store_view(entries: Seq<(ChunkAddress, Vec<u8>)>) -> Seq<((bool, Seq<u8>), Seq<u8>)> {
    entries.map_values(|p: (ChunkAddress, Vec<u8>)| (addr_view(p.0), p.1@))
}

/// The bytes stored under an address: the first entry with that address.
pub open spec fn slookup(s: Seq<((bool, Seq<u8>), Seq<u8>)>, public: bool, name: Seq<u8>) -> Option<
    Seq<u8>,
>
    decreases s.len(),
{
    if s.len() == 0 {
        None
    } else if s[0].0 == (public, name) {
        Some(s[0].1)
    } else {
        slookup(s.drop_first(), public, name)
    }
}

/// An empty lookup means no entry carries the address, and a match gives
/// the first matching entry.
pub proof fn lemma_slookup_complete(s: Seq<((bool, Seq<u8>), Seq<u8>)>, public: bool, name: Seq<u8>)
    ensures
        (slookup(s, public, name) is None) <==> (forall|i: int|
            0 <= i < s.len() ==> (#[trigger] s[i]).0 != (public, name)),
    decreases s.len(),
{
    if s.len() > 0 {
        lemma_slookup_complete(s.drop_first(), public, name);
        if slookup(s, public, name) is None {
            assert forall|i: int| 0 <= i < s.len() implies (#[trigger] s[i]).0 != (
            public,
            name,
            ) by {
                if i > 0 {
                    assert(s.drop_first()[i - 1] == s[i]);
                }
            }
        } else {
            if s[0].0 != (public, name) {
                let i = choose|i: int|
                    0 <= i < s.drop_first().len() && (#[trigger] s.drop_first()[i]).0 == (
                    public,
                    name,
                );
                assert(s[i + 1].0 == (public, name));
            }
        }
    }
}

/// In a store without duplicate addresses, any entry with the address is
/// the lookup's answer.
pub proof fn lemma_slookup_unique(
    s: Seq<((bool, Seq<u8>), Seq<u8>)>,
    public: bool,
    name: Seq<u8>,
    i: int,
)
    requires
        forall|a: int, b: int| 0 <= a < b < s.len() ==> (#[trigger] s[a]).0 != (#[trigger] s[b]).0,
        0 <= i < s.len(),
        s[i].0 == (public, name),
    ensures
        slookup(s, public, name) == Some(s[i].1),
    decreases s.len(),
{
    if i == 0 {
    } else {
        assert(s[0].0 != s[i].0);
        assert(s.drop_first()[i - 1] == s[i]);
        assert(forall|a: int, b: int|
            0 <= a < b < s.drop_first().len() ==> (#[trigger] s.drop_first()[a]).0 != (
            #[trigger] s.drop_first()[b]).0) by {
            assert(forall|a: int|
                0 <= a < s.drop_first().len() ==> #[trigger] s.drop_first()[a] == s[a + 1]);
        }
        lemma_slookup_unique(s.drop_first(), public, name, i - 1);
    }
}

/// Appending an entry leaves every present address unchanged, and fills in
/// exactly the appended address when it was absent.
pub proof fn lemma_slookup_push(
    s: Seq<((bool, Seq<u8>), Seq<u8>)>,
    p: ((bool, Seq<u8>), Seq<u8>),
    public: bool,
    name: Seq<u8>,
)
    ensures
        slookup(s.push(p), public, name) == (if slookup(s, public, name) is Some {
            slookup(s, public, name)
        } else if p.0 == (public, name) {
            Some(p.1)
        } else {
            None
        }),
    decreases s.len(),
{
    if s.len() == 0 {
        assert(s.push(p)[0] == p);
        assert(s.push(p).drop_first() =~= Seq::<((bool, Seq<u8>), Seq<u8>)>::empty());
    } else {
        assert(s.push(p)[0] == s[0]);
        assert(s.push(p).drop_first() =~= s.drop_first().push(p));
        lemma_slookup_push(s.drop_first(), p, public, name);
    }
}

/// What the network holds, as the node sees it.
pub struct ChunkStore {
    /// The stored chunks, oldest first.
    pub entries: Vec<(ChunkAddress, Vec<u8>)>,
}

impl ChunkStore {
    /// The store at the specification level.
    pub open spec fn view_spec(self) -> Seq<((bool, Seq<u8>), Seq<u8>)> {
        store_view(self.entries@)
    }

    /// Well-formedness: no two entries carry the same address.
    pub open spec fn wf(self) -> bool {
        forall|a: int, b: int|
            0 <= a < b < self.view_spec().len() ==> (#[trigger] self.view_spec()[a]).0 != (
            #[trigger] self.view_spec()[b]).0
    }

    /// An empty store.
    pub fn new() -> (r: ChunkStore)
        ensures
            r.wf(),
            r.view_spec().len() == 0,
    {
        ChunkStore { entries: Vec::new() }
    }

    /// Number of stored chunks.
    pub fn len(&self) -> (r: usize)
        ensures
            r == self.view_spec().len(),
    {
        self.entries.len()
    }

    /// The bytes stored under the address, when the store holds any.
    pub fn get(&self, addr: &ChunkAddress) -> (r: Option<&Vec<u8>>)
        ensures
            match r {
                Some(v) => slookup(self.view_spec(), addr.is_public_spec(), addr.name_spec()@)
                    == Some(v@),
                None => slookup(self.view_spec(), addr.is_public_spec(), addr.name_spec()@)
                    is None,
            },
    {
        let n = self.entries.len();
        let mut i: usize = 0;
        while i < n
            invariant
                i <= n,
                n == self.entries@.len(),
                forall|k: int|
                    0 <= k < i ==> (#[trigger] store_view(self.entries@)[k]).0 != (
                    addr.is_public_spec(),
                    addr.name_spec()@,
                ),
            decreases n - i,
        {
            if eq_addr(&self.entries[i].0, addr) {
                proof {
                    assert(store_view(self.entries@)[i as int].0 == (
                        addr.is_public_spec(),
                        addr.name_spec()@,
                    ));
                    lemma_slookup_first_match(
                        store_view(self.entries@),
                        addr.is_public_spec(),
                        addr.name_spec()@,
                        i as int,
                    );
                }
                return Some(&self.entries[i].1);
            }
            i = i + 1;
        }
        proof {
            lemma_slookup_complete(
                store_view(self.entries@),
                addr.is_public_spec(),
                addr.name_spec()@,
            );
        }
        None
    }

    /// Stores bytes under an address unless the address is taken: the
    /// network's chunks are immutable, so the first write wins.
    pub fn insert(&mut self, addr: ChunkAddress, value: Vec<u8>) -> (r: bool)
        requires
            old(self).wf(),
        ensures
            final(self).wf(),
            r <==> slookup(
                old(self).view_spec(),
                addr.is_public_spec(),
                addr.name_spec()@,
            ) is None,
            r ==> final(self).view_spec() == old(self).view_spec().push(
                ((addr.is_public_spec(), addr.name_spec()@), value@),
            ),
            !r ==> *final(self) == *old(self),
    {
        let present = match self.get(&addr) {
            Some(_) => true,
            None => false,
        };
        if present {
            return false;
        }
        proof {
            lemma_slookup_complete(self.view_spec(), addr.is_public_spec(), addr.name_spec()@);
            assert(store_view(self.entries@.push((addr, value))) =~= store_view(
                self.entries@,
            ).push(((addr.is_public_spec(), addr.name_spec()@), value@)));
        }
        self.entries.push((addr, value));
        true
    }

    /// Removes every chunk stored under the address.
    pub fn remove(&mut self, addr: &ChunkAddress)
        requires
            old(self).wf(),
        ensures
            final(self).wf(),
            slookup(final(self).view_spec(), addr.is_public_spec(), addr.name_spec()@) is None,
            forall|b: bool, n: Seq<u8>|
                (b, n) != (addr.is_public_spec(), addr.name_spec()@) ==> #[trigger] slookup(
                    final(self).view_spec(),
                    b,
                    n,
                ) == slookup(old(self).view_spec(), b, n),
            forall|b: bool, n: Seq<u8>|
                slookup(final(self).view_spec(), b, n) is Some ==> slookup(
                    final(self).view_spec(),
                    b,
                    n,
                ) == slookup(old(self).view_spec(), b, n),
    {
        let ghost orig = store_view(self.entries@);
        let mut kept: Vec<(ChunkAddress, Vec<u8>)> = Vec::new();
        let ghost mut srcs: Seq<int> = Seq::empty();
        while self.entries.len() > 0
            invariant
                self.entries@.len() <= orig.len(),
                store_view(self.entries@) == orig.subrange(0, self.entries@.len() as int),
                srcs.len() == kept@.len(),
                forall|w: int|
                    0 <= w < kept@.len() ==> self.entries@.len() <= #[trigger] srcs[w]
                        < orig.len() && store_view(kept@)[w] == orig[srcs[w]],
                forall|w1: int, w2: int| 0 <= w1 < w2 < srcs.len() ==> srcs[w1] > srcs[w2],
                forall|w: int|
                    0 <= w < kept@.len() ==> (#[trigger] store_view(kept@)[w]).0 != (
                    addr.is_public_spec(),
                    addr.name_spec()@,
                ),
                forall|k: int|
                    self.entries@.len() <= k < orig.len() && (#[trigger] orig[k]).0 != (
                    addr.is_public_spec(),
                    addr.name_spec()@,
                ) ==> store_view(kept@).contains(orig[k]),
            decreases self.entries@.len(),
        {
            let ghost pre = self.entries@;
            let e = match self.entries.pop() {
                Some(e) => e,
                None => {
                    proof {
                        assert(false);
                    }
                    return ;
                },
            };
            let ghost cur = self.entries@.len() as int;
            proof {
                assert(e == pre.last());
                assert(store_view(pre)[pre.len() - 1] == (addr_view(e.0), e.1@));
                assert((addr_view(e.0), e.1@) == orig[cur]);
                assert(store_view(self.entries@) =~= store_view(pre).drop_last());
                assert(store_view(pre).drop_last() =~= orig.subrange(0, cur));
            }
            let ghost kept_pre = kept@;
            if !eq_addr(&e.0, addr) {
                kept.push(e);
                proof {
                    assert(store_view(kept@) =~= store_view(kept_pre).push(
                        (addr_view(e.0), e.1@),
                    ));
                    srcs = srcs.push(cur);
                }
            }
            proof {
                assert forall|k: int|
                    cur <= k < orig.len() && (#[trigger] orig[k]).0 != (
                    addr.is_public_spec(),
                    addr.name_spec()@,
                ) implies store_view(kept@).contains(orig[k]) by {
                    if k == cur {
                        assert(store_view(kept@)[store_view(kept@).len() - 1] == orig[cur]);
                    } else {
                        assert(store_view(kept_pre).contains(orig[k]));
                        let w = choose|w: int|
                            0 <= w < store_view(kept_pre).len() && store_view(kept_pre)[w]
                                == orig[k];
                        assert(store_view(kept@)[w] == orig[k]);
                    }
                }
            }
        }
        self.entries = kept;
        proof {
            let fv = store_view(self.entries@);
            assert forall|a: int, b: int|
                0 <= a < b < fv.len() implies (#[trigger] fv[a]).0 != (#[trigger] fv[b]).0 by {
                assert(fv[a] == orig[srcs[a]]);
                assert(fv[b] == orig[srcs[b]]);
                assert(srcs[a] != srcs[b]);
            }
            lemma_slookup_complete(fv, addr.is_public_spec(), addr.name_spec()@);
            assert forall|b: bool, n: Seq<u8>|
                slookup(fv, b, n) is Some implies slookup(fv, b, n) == slookup(orig, b, n) by {
                lemma_slookup_complete(fv, b, n);
                if !(forall|i: int| 0 <= i < fv.len() ==> (#[trigger] fv[i]).0 != (b, n)) {
                    let i = choose|i: int| 0 <= i < fv.len() && (#[trigger] fv[i]).0 == (b, n);
                    lemma_slookup_unique(fv, b, n, i);
                    lemma_slookup_unique(orig, b, n, srcs[i]);
                    assert(orig[srcs[i]] == fv[i]);
                }
            }
            assert forall|b: bool, n: Seq<u8>|
                (b, n) != (addr.is_public_spec(), addr.name_spec()@) implies #[trigger] slookup(
                fv,
                b,
                n,
            ) == slookup(orig, b, n) by {
                lemma_slookup_complete(orig, b, n);
                lemma_slookup_complete(fv, b, n);
                if slookup(orig, b, n) is Some {
                    let i = choose|i: int| 0 <= i < orig.len() && (#[trigger] orig[i]).0 == (b, n);
                    lemma_slookup_unique(orig, b, n, i);
                    assert(store_view(self.entries@).contains(orig[i]));
                    let w = choose|w: int| 0 <= w < fv.len() && fv[w] == orig[i];
                    lemma_slookup_unique(fv, b, n, w);
                }
            }
        }
    }

    /// Copies the store.
    pub fn duplicate(&self) -> (r: ChunkStore)
        ensures
            r.view_spec() == self.view_spec(),
            r.wf() == self.wf(),
    {
        let mut entries: Vec<(ChunkAddress, Vec<u8>)> = Vec::new();
        let n = self.entries.len();
        let mut i: usize = 0;
        while i < n
            invariant
                i <= n,
                n == self.entries@.len(),
                store_view(entries@) == store_view(self.entries@).subrange(0, i as int),
            decreases n - i,
        {
            let addr = self.entries[i].0;
            let bytes = crate::approved_peer::clone_bytes(&self.entries[i].1);
            let ghost pre = entries@;
            entries.push((addr, bytes));
            proof {
                assert(store_view(entries@) =~= store_view(pre).push(
                    (addr_view(addr), bytes@),
                ));
                assert(store_view(pre).push((addr_view(addr), bytes@)) =~= store_view(
                    self.entries@,
                ).subrange(0, i + 1));
            }
            i = i + 1;
        }
        proof {
            assert(store_view(self.entries@).subrange(0, n as int) =~= store_view(self.entries@));
        }
        let r = ChunkStore { entries };
        proof {
            assert(r.view_spec() == self.view_spec());
        }
        r
    }
}

/// A first match at index `i` with no earlier match is the lookup's answer.
pub proof fn lemma_slookup_first_match(
    s: Seq<((bool, Seq<u8>), Seq<u8>)>,
    public: bool,
    name: Seq<u8>,
    i: int,
)
    requires
        0 <= i < s.len(),
        s[i].0 == (public, name),
        forall|k: int| 0 <= k < i ==> (#[trigger] s[k]).0 != (public, name),
    ensures
        slookup(s, public, name) == Some(s[i].1),
    decreases s.len(),
{
    if i > 0 {
        assert(s.drop_first()[i - 1] == s[i]);
        assert(forall|k: int|
            0 <= k < i - 1 ==> #[trigger] s.drop_first()[k] == s[k + 1]);
        lemma_slookup_first_match(s.drop_first(), public, name, i - 1);
    }
}

} // verus!
