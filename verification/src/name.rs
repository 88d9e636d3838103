//! 256-bit addresses with the XOR metric, and binary prefixes over them.
//!
//! An address is 32 bytes; bit `i` of an address is bit `7 - (i % 8)` of
//! byte `i / 8`, so bit 0 is the most significant bit of the first byte.

use vstd::prelude::*;

verus! {

/// Number of bytes in an address.
pub const XOR_NAME_LEN: usize = 32;

/// Number of bits in an address.
pub const XOR_NAME_BITS: usize = 256;

/// A 256-bit network address.
#[derive(Clone, Copy, Debug, Eq, PartialEq, Hash, PartialOrd, Ord)]
pub struct XorName(pub [u8; 32]);

impl View for XorName {
    type V = Seq<u8>;

    open spec fn view(&self) -> Seq<u8> {
        self.0@
    }
}

/// Bit `i` of a 32-byte sequence, counting from the most significant bit of
/// the first byte.
pub open spec fn bit_at(s: Seq<u8>, i: int) -> bool {
    (s[i / 8] >> ((7 - (i % 8)) as u8)) & 1 == 1
}

impl XorName {
    /// Bit `i` of this address.
    pub fn bit(&self, i: usize) -> (r: bool)
        requires
            i < 256,
    ensures
            r == bit_at(self@, i as int),
    {
        (self.0[i / 8] >> ((7 - (i % 8)) as u8)) & 1 == 1
    }

    /// Byte-wise equality.
    pub fn equals(&self, other: &XorName) -> (r: bool)
        ensures
            r <==> self@ =~= other@,
            r <==> self.0 == other.0,
    {
        let mut j: usize = 0;
        while j < 32
            invariant
                j <= 32,
                forall|k: int| 0 <= k < j ==> self@[k] == other@[k],
            decreases 32 - j,
        {
            if self.0[j] != other.0[j] {
                return false;
            }
            j = j + 1;
        }
        proof {
            assert(self@ =~= other@);
            assert(self.0 =~= other.0);
        }
        true
    }

    /// Compares the XOR distances of `lhs` and `rhs` from this address:
    /// negative when `lhs` is closer, zero when the distances are equal
    /// (which forces `lhs == rhs`), positive when `rhs` is closer.
    pub fn cmp_distance(&self, lhs: &XorName, rhs: &XorName) -> (r: i8)
        ensures
            r < 0 <==> dist_lt(self@, lhs@, rhs@),
            r > 0 <==> dist_lt(self@, rhs@, lhs@),
            r == 0 <==> lhs@ =~= rhs@,
    {
        let mut j: usize = 0;
        while j < 32
            invariant
                j <= 32,
                forall|k: int| 0 <= k < j ==> lhs@[k] == rhs@[k],
                dist_lt(self@, lhs@, rhs@) == dist_lt_from(self@, lhs@, rhs@, j as int),
                dist_lt(self@, rhs@, lhs@) == dist_lt_from(self@, rhs@, lhs@, j as int),
            decreases 32 - j,
        {
            let a = self.0[j] ^ lhs.0[j];
            let b = self.0[j] ^ rhs.0[j];
            if a < b {
                return -1;
            }
            if b < a {
                return 1;
            }
            proof {
                let x = self@[j as int];
                let p = lhs@[j as int];
                let q = rhs@[j as int];
                assert(p == q) by (bit_vector)
                    requires
                        x ^ p == x ^ q,
                ;
            }
            j = j + 1;
        }
        proof {
            assert(lhs@ =~= rhs@);
        }
        0
    }
}

/// Whether `a` is strictly closer to `t` than `b` is, under the XOR metric
/// (big-endian lexicographic comparison of the XORed bytes), examined from
/// byte `j` on.
pub open spec fn dist_lt_from(t: Seq<u8>, a: Seq<u8>, b: Seq<u8>, j: int) -> bool
    decreases 32 - j,
{
    if j < 0 || j >= 32 {
        false
    } else if (t[j] ^ a[j]) == (t[j] ^ b[j]) {
        dist_lt_from(t, a, b, j + 1)
    } else {
        (t[j] ^ a[j]) < (t[j] ^ b[j])
    }
}

/// Whether `a` is strictly closer to `t` than `b` is, under the XOR metric.
pub open spec fn dist_lt(t: Seq<u8>, a: Seq<u8>, b: Seq<u8>) -> bool {
    dist_lt_from(t, a, b, 0)
}

/// A binary prefix: the first `bit_count` bits of `name`.
#[derive(Clone, Copy, Debug, Eq, PartialEq, Hash)]
pub struct Prefix {
    /// An address whose leading bits give the prefix.
    pub name: XorName,
    /// How many leading bits belong to the prefix.
    pub bit_count: usize,
}

impl Prefix {
    /// A prefix is well formed when its bit count fits the address width.
    pub open spec fn wf(self) -> bool {
        self.bit_count <= 256
    }

    /// The empty prefix, matching the whole address space.
    pub fn empty() -> (r: Prefix)
        ensures
            r.bit_count == 0,
            r.wf(),
    {
        Prefix { name: XorName([0; 32]), bit_count: 0 }
    }

    /// Whether this prefix has no bits.
    pub fn is_empty(&self) -> (r: bool)
        ensures
            r <==> self.bit_count == 0,
    {
        self.bit_count == 0
    }

    /// An address matches the prefix when it agrees with it on every prefix
    /// bit.
    pub open spec fn matches_spec(self, n: Seq<u8>) -> bool {
        forall|i: int| 0 <= i < self.bit_count ==> bit_at(self.name@, i) == bit_at(n, i)
    }

    /// Whether the address `n` lies under this prefix.
    pub fn matches(&self, n: &XorName) -> (r: bool)
        requires
            self.wf(),
        ensures
            r == self.matches_spec(n@),
    {
        let mut i: usize = 0;
        while i < self.bit_count
            invariant
                i <= self.bit_count <= 256,
                forall|k: int| 0 <= k < i ==> bit_at(self.name@, k) == bit_at(n@, k),
            decreases self.bit_count - i,
        {
            if self.name.bit(i) != n.bit(i) {
                return false;
            }
            i = i + 1;
        }
        true
    }

    /// Two prefixes are compatible when they agree on every bit both have:
    /// one is then an ancestor of the other in the binary trie.
    pub open spec fn compatible_spec(self, other: Prefix) -> bool {
        forall|i: int|
            0 <= i < self.bit_count && i < other.bit_count ==> bit_at(self.name@, i) == bit_at(
                other.name@,
                i,
            )
    }

    /// Whether this prefix and `other` share a trie path.
    pub fn is_compatible(&self, other: &Prefix) -> (r: bool)
        requires
            self.wf(),
            other.wf(),
        ensures
            r == self.compatible_spec(*other),
    {
        let min = if self.bit_count < other.bit_count {
            self.bit_count
        } else {
            other.bit_count
        };
        let mut i: usize = 0;
        while i < min
            invariant
                i <= min,
                min <= self.bit_count <= 256,
                min <= other.bit_count <= 256,
                min == if self.bit_count < other.bit_count {
                    self.bit_count as int
                } else {
                    other.bit_count as int
                },
                forall|k: int| 0 <= k < i ==> bit_at(self.name@, k) == bit_at(other.name@, k),
            decreases min - i,
        {
            if self.name.bit(i) != other.name.bit(i) {
                return false;
            }
            i = i + 1;
        }
        true
    }

    /// Whether this prefix is an ancestor (or equal): every address under
    /// `other` is also under `self`.
    pub open spec fn is_ancestor_spec(self, other: Prefix) -> bool {
        self.bit_count <= other.bit_count && self.compatible_spec(other)
    }

    /// Whether this prefix covers `other`.
    pub fn is_ancestor_of(&self, other: &Prefix) -> (r: bool)
        requires
            self.wf(),
            other.wf(),
        ensures
            r == self.is_ancestor_spec(*other),
    {
        self.bit_count <= other.bit_count && self.is_compatible(other)
    }

    /// Whether the two prefixes denote the same set of addresses.
    pub fn same_as(&self, other: &Prefix) -> (r: bool)
        requires
            self.wf(),
            other.wf(),
        ensures
            r == (self.bit_count == other.bit_count && self.compatible_spec(*other)),
    {
        self.bit_count == other.bit_count && self.is_compatible(other)
    }

    /// The prefix one bit longer, with `bit` appended.
    pub fn pushed(&self, bit: bool) -> (r: Prefix)
        requires
            self.wf(),
            self.bit_count < 256,
        ensures
            r.wf(),
            r.bit_count == self.bit_count + 1,
            forall|k: int|
                0 <= k < self.bit_count ==> bit_at(r.name@, k) == bit_at(self.name@, k),
            bit_at(r.name@, self.bit_count as int) == bit,
    {
        let mut bytes = self.name.0;
        let i = self.bit_count;
        let mask: u8 = 1u8 << ((7 - (i % 8)) as u8);
        let old_byte = bytes[i / 8];
        let new_byte = if bit {
            old_byte | mask
        } else {
            old_byte & !mask
        };
        bytes[i / 8] = new_byte;
        proof {
            let s = self.name@;
            let t = bytes@;
            let bi = i as int;
            assert forall|k: int| 0 <= k < self.bit_count implies bit_at(t, k) == bit_at(
                s,
                k,
            ) by {
                if k / 8 == bi / 8 {
                    let kk = (7 - (k % 8)) as u8;
                    let jj = (7 - (bi % 8)) as u8;
                    assert(kk != jj);
                    let ob = s[k / 8];
                    let nb = t[k / 8];
                    assert((nb >> kk) & 1 == (ob >> kk) & 1) by (bit_vector)
                        requires
                            kk < 8,
                            jj < 8,
                            kk != jj,
                            nb == ob | (1u8 << jj) || nb == ob & !(1u8 << jj),
                    ;
                }
            }
            let jj = (7 - (bi % 8)) as u8;
            let ob = s[bi / 8];
            assert(((ob | (1u8 << jj)) >> jj) & 1 == 1) by (bit_vector)
                requires
                    jj < 8,
            ;
            assert(((ob & !(1u8 << jj)) >> jj) & 1 == 0) by (bit_vector)
                requires
                    jj < 8,
            ;
        }
        Prefix { name: XorName(bytes), bit_count: i + 1 }
    }
}

/// No address is strictly closer to a target than itself, from any byte on.
pub proof fn lemma_dist_lt_irrefl_from(t: Seq<u8>, a: Seq<u8>, j: int)
    ensures
        !dist_lt_from(t, a, a, j),
    decreases 32 - j,
{
    if 0 <= j && j < 32 {
        lemma_dist_lt_irrefl_from(t, a, j + 1);
    }
}

/// No address is strictly closer to a target than itself.
pub proof fn lemma_dist_lt_irrefl(t: Seq<u8>, a: Seq<u8>)
    ensures
        !dist_lt(t, a, a),
{
    lemma_dist_lt_irrefl_from(t, a, 0);
}

/// Strict closeness is transitive, from any byte on.
pub proof fn lemma_dist_lt_trans_from(t: Seq<u8>, a: Seq<u8>, b: Seq<u8>, c: Seq<u8>, j: int)
    requires
        dist_lt_from(t, a, b, j),
        dist_lt_from(t, b, c, j),
    ensures
        dist_lt_from(t, a, c, j),
    decreases 32 - j,
{
    if 0 <= j && j < 32 {
        let xa = t[j] ^ a[j];
        let xb = t[j] ^ b[j];
        let xc = t[j] ^ c[j];
        if xa == xb && xb == xc {
            lemma_dist_lt_trans_from(t, a, b, c, j + 1);
        }
    }
}

/// Strict closeness under the XOR metric is transitive.
pub proof fn lemma_dist_lt_trans(t: Seq<u8>, a: Seq<u8>, b: Seq<u8>, c: Seq<u8>)
    requires
        dist_lt(t, a, b),
        dist_lt(t, b, c),
    ensures
        dist_lt(t, a, c),
{
    lemma_dist_lt_trans_from(t, a, b, c, 0);
}

/// Compatibility is symmetric.
pub proof fn lemma_compatible_symmetric(p: Prefix, q: Prefix)
    ensures
        p.compatible_spec(q) == q.compatible_spec(p),
{
}

/// If two incompatible prefixes exist, no address matches both.
pub proof fn lemma_disjoint_prefixes_share_no_address(p: Prefix, q: Prefix, n: Seq<u8>)
    requires
        !p.compatible_spec(q),
        p.matches_spec(n),
    ensures
        !q.matches_spec(n),
{
    let i = choose|i: int|
        0 <= i < p.bit_count && i < q.bit_count && bit_at(p.name@, i) != bit_at(q.name@, i);
    assert(bit_at(p.name@, i) == bit_at(n, i));
}

} // verus!
