//! Permutation tables and lattice hashing for the Perlin noise generator.
//!
//! A generator instance owns three shuffled index tables. Noise evaluation
//! locates a lattice cell, then hashes each of the cell's eight corners by
//! XOR-combining one entry of each table; the hash selects a gradient
//! vector. The tables are built once and never change afterwards, so for a
//! fixed instance the corner hashing is a pure function of the lattice
//! coordinates.

use vstd::prelude::*;

use crate::rng::random_int;

verus! {

/// Number of entries in each permutation table; also the size of the
/// gradient table that the hashed corner values index.
pub const POINT_COUNT: usize = 256;

/// `s` holds each index `0 .. n` exactly once: every entry is below `n` and
/// no entry repeats.
pub open spec fn is_index_permutation(s: Seq<usize>, n: nat) -> bool {
    &&& s.len() == n
    &&& forall|i: int| 0 <= i < n ==> (#[trigger] s[i]) < n
    &&& forall|i: int, j: int| 0 <= i < j < n ==> s[i] != s[j]
}

/// Swapping two positions of a sequence rearranges it and nothing more:
/// the multiset of entries is unchanged.
proof fn lemma_swap_preserves_multiset(s: Seq<usize>, i: int, t: int)
    requires
        0 <= i < s.len(),
        0 <= t < s.len(),
    ensures
        s.update(i, s[t]).update(t, s[i]).to_multiset() == s.to_multiset(),
{
    broadcast use vstd::seq_lib::group_to_multiset_ensures;
    broadcast use vstd::seq_lib::to_multiset_update;
    broadcast use vstd::multiset::group_multiset_axioms;
    broadcast use vstd::multiset::group_multiset_properties;

    let a = s[i];
    let b = s[t];
    let s1 = s.update(i, b);
    let s2 = s1.update(t, a);
    assert(s1[t] == b);
    assert(s.contains(a)) by {
        assert(s[i] == a);
    }
    assert(s1.contains(b)) by {
        assert(s1[t] == b);
    }
    assert(s1.to_multiset() == s.to_multiset().insert(b).remove(a));
    assert(s2.to_multiset() == s1.to_multiset().insert(a).remove(b));
    assert(s2.to_multiset() =~= s.to_multiset());
}

/// A sequence holding exactly the entries of the identity sequence
/// `0, 1, .., n - 1` is a permutation of the indices `0 .. n`.
proof fn lemma_shuffled_identity_is_index_permutation(id: Seq<usize>, s: Seq<usize>, n: nat)
    requires
        id.len() == n,
        forall|k: int| 0 <= k < n ==> (#[trigger] id[k]) == k,
        s.len() == n,
        s.to_multiset() == id.to_multiset(),
    ensures
        is_index_permutation(s, n),
{
    broadcast use vstd::seq_lib::group_to_multiset_ensures;

    assert forall|i: int| 0 <= i < n implies (#[trigger] s[i]) < n by {
        assert(s.contains(s[i]));
        assert(s.to_multiset().count(s[i]) > 0);
        assert(id.contains(s[i]));
        let j = choose|j: int| 0 <= j < id.len() && id[j] == s[i];
        assert(s[i] == j);
    }
    assert(id.no_duplicates());
    id.lemma_multiset_has_no_duplicates();
    s.lemma_multiset_has_no_duplicates_conv();
    assert(s.no_duplicates());
}

/// The three shuffled index tables of one noise generator instance.
pub struct Perlin {
    pub perm_x: Vec<usize>,
    pub perm_y: Vec<usize>,
    pub perm_z: Vec<usize>,
}

impl Perlin {
    /// Each table is a permutation of `0 .. POINT_COUNT`.
    pub open spec fn wf(&self) -> bool {
        &&& is_index_permutation(self.perm_x@, POINT_COUNT as nat)
        &&& is_index_permutation(self.perm_y@, POINT_COUNT as nat)
        &&& is_index_permutation(self.perm_z@, POINT_COUNT as nat)
    }

    pub fn new() -> (r: Self)
        ensures
            r.wf(),
    {
        Perlin {
            perm_x: Perlin::perlin_generate_perm(POINT_COUNT),
            perm_y: Perlin::perlin_generate_perm(POINT_COUNT),
            perm_z: Perlin::perlin_generate_perm(POINT_COUNT),
        }
    }

    /// Builds the identity index sequence of length `point_count` and
    /// shuffles it in place.
    pub fn perlin_generate_perm(point_count: usize) -> (p: Vec<usize>)
        requires
            point_count <= 0x7fff_ffff,
        ensures
            is_index_permutation(p@, point_count as nat),
    {
        let mut p: Vec<usize> = Vec::new();
        for i in 0..point_count
            invariant
                p@.len() == i,
                forall|k: int| 0 <= k < i ==> (#[trigger] p@[k]) == k,
        {
            p.push(i);
        }

        let ghost identity = p@;
        Perlin::permute(&mut p, point_count);
        proof {
            lemma_shuffled_identity_is_index_permutation(identity, p@, point_count as nat);
        }
        p
    }

    /// Fisher-Yates shuffle: walks the table from its top index down,
    /// swapping each position with a uniformly drawn position at or below
    /// it. The entries are rearranged and nothing else: the shuffled table
    /// holds exactly the entries the input held.
    pub fn permute(p: &mut Vec<usize>, n: usize)
        requires
            n == old(p)@.len(),
            n <= 0x7fff_ffff,
        ensures
            final(p)@.len() == n,
            final(p)@.to_multiset() == old(p)@.to_multiset(),
    {
        let mut i: usize = n;
        while 1 < i
            invariant
                i <= n,
                n == p@.len(),
                n <= 0x7fff_ffff,
                p@.to_multiset() == old(p)@.to_multiset(),
            decreases i,
        {
            i = i - 1;
            let target = random_int(0, i as i32) as usize;
            let a = p[i];
            let b = p[target];
            let ghost before = p@;
            p[i] = b;
            p[target] = a;
            proof {
                lemma_swap_preserves_multiset(before, i as int, target as int);
            }
        }
    }

    /// Maps a (possibly negative) lattice coordinate into the table range by
    /// keeping the low eight bits of its two's-complement representation.
    pub fn lattice_index(c: i32) -> (r: usize)
        ensures
            r == (c & 255) as usize,
            r < POINT_COUNT,
    {
        let masked = c & 255;
        proof {
            assert(0 <= c & 255 < 256) by (bit_vector);
        }
        masked as usize
    }

    /// Hash of one corner of the lattice cell at `(i, j, k)`: the corner is
    /// offset by `(di, dj, dk)`, each coordinate is wrapped back into the
    /// table range, and the three table entries are XOR-combined. The result
    /// indexes the gradient table, so it stays below `POINT_COUNT`.
    pub fn corner_index(&self, i: usize, j: usize, k: usize, di: usize, dj: usize, dk: usize) -> (r:
        usize)
        requires
            self.wf(),
            i < POINT_COUNT,
            j < POINT_COUNT,
            k < POINT_COUNT,
            di <= 1,
            dj <= 1,
            dk <= 1,
        ensures
            r == self.perm_x@[(((i + di) as usize & 255) as int)] ^ self.perm_y@[(((j + dj) as usize
                & 255) as int)] ^ self.perm_z@[(((k + dk) as usize & 255) as int)],
            r < POINT_COUNT,
    {
        let xi = (i + di) & 255;
        let yj = (j + dj) & 255;
        let zk = (k + dk) & 255;
        proof {
            assert(((i + di) as usize) & 255 < 256) by (bit_vector);
            assert(((j + dj) as usize) & 255 < 256) by (bit_vector);
            assert(((k + dk) as usize) & 255 < 256) by (bit_vector);
        }
        let a = self.perm_x[xi];
        let b = self.perm_y[yj];
        let c = self.perm_z[zk];
        proof {
            assert(a ^ b ^ c < 256) by (bit_vector)
                requires
                    a < 256,
                    b < 256,
                    c < 256,
            ;
        }
        a ^ b ^ c
    }
}

} // verus!
