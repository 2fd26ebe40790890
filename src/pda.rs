//! Account addresses and the seed material of program-derived accounts.
//!
//! A program-derived account is located by a list of seeds and a bump byte.
//! The runtime hashes them into an address; this module builds the seed lists
//! that the protocols use and compares a supplied derivation with the
//! expected one, byte for byte.
use vstd::prelude::*;

verus! {

/// A 32-byte account identity.
#[derive(Clone, Copy, Debug)]
pub struct Address {
    pub bytes: [u8; 32],
}

impl View for Address {
    type V = Seq<u8>;

    open spec fn view(&self) -> Seq<u8> {
        self.bytes@
    }
}

impl Address {
    /// Whether two addresses hold the same bytes.
    pub fn same(&self, other: &Address) -> (r: bool)
        ensures
            r == (self@ == other@),
    {
        let mut i: usize = 0;
        while i < 32
            invariant
                0 <= i <= 32,
                self@.len() == 32,
                other@.len() == 32,
                forall|j: int| 0 <= j < i ==> self@[j] == other@[j],
            decreases 32 - i,
        {
            if self.bytes[i] != other.bytes[i] {
                return false;
            }
            i = i + 1;
        }
        assert(self@ =~= other@);
        true
    }

    /// The address as a seed.
    pub fn to_seed(&self) -> (r: Vec<u8>)
        ensures
            r@ == self@,
    {
        let mut v: Vec<u8> = Vec::new();
        let mut i: usize = 0;
        while i < 32
            invariant
                0 <= i <= 32,
                self@.len() == 32,
                v@ == self@.subrange(0, i as int),
            decreases 32 - i,
        {
            v.push(self.bytes[i]);
            i = i + 1;
            assert(v@ =~= self@.subrange(0, i as int));
        }
        assert(self@.subrange(0, 32) =~= self@);
        v
    }
}

/// The `n` low bytes of `x`, least significant first.
pub open spec fn le_bytes(x: nat, n: nat) -> Seq<u8>
    decreases n,
{
    if n == 0 {
        Seq::empty()
    } else {
        seq![(x % 256) as u8] + le_bytes(x / 256, (n - 1) as nat)
    }
}

/// 256 to the power `n`.
pub open spec fn pow256(n: nat) -> nat
    decreases n,
{
    if n == 0 {
        1
    } else {
        256 * pow256((n - 1) as nat)
    }
}

/// Two numbers below `256^n` with the same `n` low bytes are equal.
pub proof fn lemma_le_bytes_injective(x: nat, y: nat, n: nat)
    requires
        x < pow256(n),
        y < pow256(n),
        le_bytes(x, n) == le_bytes(y, n),
    ensures
        x == y,
    decreases n,
{
    if n > 0 {
        let p = pow256((n - 1) as nat);
        assert(le_bytes(x, n)[0] == le_bytes(y, n)[0]);
        assert(le_bytes(x, n)[0] == (x % 256) as u8);
        assert(le_bytes(y, n)[0] == (y % 256) as u8);
        assert(((x % 256) as u8) as nat == x % 256);
        assert(((y % 256) as u8) as nat == y % 256);
        assert(x % 256 == y % 256);
        assert(le_bytes(x / 256, (n - 1) as nat) =~= le_bytes(x, n).drop_first());
        assert(le_bytes(y / 256, (n - 1) as nat) =~= le_bytes(y, n).drop_first());
        assert(x / 256 < p) by (nonlinear_arith)
            requires x < 256 * p;
        assert(y / 256 < p) by (nonlinear_arith)
            requires y < 256 * p;
        lemma_le_bytes_injective(x / 256, y / 256, (n - 1) as nat);
        assert(x == 256 * (x / 256) + x % 256) by (nonlinear_arith);
        assert(y == 256 * (y / 256) + y % 256) by (nonlinear_arith);
    }
}

/// The eight bytes of `x`, least significant first.
pub fn u64_le_bytes(x: u64) -> (r: Vec<u8>)
    ensures
        r@ == le_bytes(x as nat, 8),
        r@.len() == 8,
{
    let mut v: Vec<u8> = Vec::new();
    let mut rest: u64 = x;
    let mut i: usize = 0;
    proof {
        assert(v@ + le_bytes(rest as nat, 8) =~= le_bytes(x as nat, 8));
    }
    while i < 8
        invariant
            0 <= i <= 8,
            v@.len() == i,
            v@ + le_bytes(rest as nat, (8 - i) as nat) == le_bytes(x as nat, 8),
        decreases 8 - i,
    {
        let b: u8 = (rest % 256) as u8;
        proof {
            let tail = le_bytes((rest / 256) as nat, (8 - i - 1) as nat);
            assert(le_bytes(rest as nat, (8 - i) as nat) == seq![b] + tail);
            assert(v@.push(b) + tail =~= v@ + (seq![b] + tail));
        }
        v.push(b);
        rest = rest / 256;
        i = i + 1;
    }
    assert(v@ + le_bytes(rest as nat, 0) =~= v@);
    v
}

/// The bytes of each seed.
pub open spec fn seeds_view(s: Seq<Vec<u8>>) -> Seq<Seq<u8>> {
    Seq::new(s.len(), |i: int| s[i]@)
}

/// Where a program-derived account was found: its seeds and its bump.
#[derive(Clone, Debug)]
pub struct Derivation {
    pub seeds: Vec<Vec<u8>>,
    pub bump: u8,
}

impl Derivation {
    /// The seeds as byte sequences.
    pub open spec fn seeds_spec(&self) -> Seq<Seq<u8>> {
        seeds_view(self.seeds@)
    }

    /// The signer seeds: the seeds followed by the bump as a last seed.
    pub open spec fn signer_seeds_spec(&self) -> Seq<Seq<u8>> {
        self.seeds_spec().push(seq![self.bump])
    }

    /// Whether `self` is the derivation from `seeds` with `bump`.
    pub open spec fn is(&self, seeds: Seq<Seq<u8>>, bump: u8) -> bool {
        self.seeds_spec() == seeds && self.bump == bump
    }

    /// Whether this derivation has exactly the expected seeds and bump.
    pub fn matches(&self, seeds: &Vec<Vec<u8>>, bump: u8) -> (r: bool)
        ensures
            r == self.is(seeds_view(seeds@), bump),
    {
        self.bump == bump && seeds_equal(&self.seeds, seeds)
    }

    /// The signer seeds handed to the runtime when this account authorises a
    /// transfer: every seed, then the bump alone.
    pub fn signer_seeds(&self) -> (r: Vec<Vec<u8>>)
        ensures
            seeds_view(r@) == self.signer_seeds_spec(),
    {
        let mut out: Vec<Vec<u8>> = Vec::new();
        let mut i: usize = 0;
        while i < self.seeds.len()
            invariant
                0 <= i <= self.seeds@.len(),
                out@.len() == i,
                forall|j: int| 0 <= j < i ==> (#[trigger] out@[j])@ == self.seeds@[j]@,
            decreases self.seeds@.len() - i,
        {
            let s = copy_bytes(&self.seeds[i]);
            out.push(s);
            i = i + 1;
        }
        let last: Vec<u8> = vec![self.bump];
        out.push(last);
        assert(last@ =~= seq![self.bump]);
        assert(seeds_view(out@) =~= self.signer_seeds_spec());
        out
    }
}

/// A byte-for-byte copy.
pub fn copy_bytes(v: &Vec<u8>) -> (r: Vec<u8>)
    ensures
        r@ == v@,
{
    let mut out: Vec<u8> = Vec::new();
    let mut i: usize = 0;
    while i < v.len()
        invariant
            0 <= i <= v@.len(),
            out@ == v@.subrange(0, i as int),
        decreases v@.len() - i,
    {
        out.push(v[i]);
        i = i + 1;
        assert(out@ =~= v@.subrange(0, i as int));
    }
    assert(v@.subrange(0, v@.len() as int) =~= v@);
    out
}

/// Whether two byte strings are equal.
pub fn bytes_equal(a: &Vec<u8>, b: &Vec<u8>) -> (r: bool)
    ensures
        r == (a@ == b@),
{
    if a.len() != b.len() {
        return false;
    }
    let mut i: usize = 0;
    while i < a.len()
        invariant
            0 <= i <= a@.len(),
            a@.len() == b@.len(),
            forall|j: int| 0 <= j < i ==> a@[j] == b@[j],
        decreases a@.len() - i,
    {
        if a[i] != b[i] {
            return false;
        }
        i = i + 1;
    }
    assert(a@ =~= b@);
    true
}

/// Whether two seed lists are equal, seed by seed.
pub fn seeds_equal(a: &Vec<Vec<u8>>, b: &Vec<Vec<u8>>) -> (r: bool)
    ensures
        r == (seeds_view(a@) == seeds_view(b@)),
{
    if a.len() != b.len() {
        assert(seeds_view(a@).len() != seeds_view(b@).len());
        return false;
    }
    let mut i: usize = 0;
    while i < a.len()
        invariant
            0 <= i <= a@.len(),
            a@.len() == b@.len(),
            forall|j: int| 0 <= j < i ==> a@[j]@ == b@[j]@,
        decreases a@.len() - i,
    {
        if !bytes_equal(&a[i], &b[i]) {
            assert(seeds_view(a@)[i as int] != seeds_view(b@)[i as int]);
            return false;
        }
        i = i + 1;
    }
    assert(seeds_view(a@) =~= seeds_view(b@));
    true
}

/// The seed list `[tag, a]`.
pub fn two_seeds(tag: Vec<u8>, a: Vec<u8>) -> (r: Vec<Vec<u8>>)
    ensures
        seeds_view(r@) == seq![tag@, a@],
{
    let ghost (t, x) = (tag@, a@);
    let r: Vec<Vec<u8>> = vec![tag, a];
    assert(seeds_view(r@) =~= seq![t, x]);
    r
}

/// The seed list `[tag, a, b]`.
pub fn three_seeds(tag: Vec<u8>, a: Vec<u8>, b: Vec<u8>) -> (r: Vec<Vec<u8>>)
    ensures
        seeds_view(r@) == seq![tag@, a@, b@],
{
    let ghost (t, x, y) = (tag@, a@, b@);
    let r: Vec<Vec<u8>> = vec![tag, a, b];
    assert(seeds_view(r@) =~= seq![t, x, y]);
    r
}

} // verus!
