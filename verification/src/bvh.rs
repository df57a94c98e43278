//! Structural skeleton of the bounding-volume-hierarchy build.
//!
//! The builder recurses over index ranges of the surface list: a range of
//! one duplicates its single member as both branches, a range of two makes
//! the members the two branches, and a longer range splits at its midpoint
//! and recurses on both halves. Which surface lands at which leaf depends
//! on floating-point box comparisons, so the driver sorts each range and
//! instantiates the shape; the shape itself guarantees that every index of
//! the range reaches a leaf — no surface is dropped — and that the
//! recursion terminates.

use vstd::prelude::*;

verus! {

/// The shape of one BVH subtree over an index range of the surface list:
/// a leaf holding one index, or an inner node with two children.
#[derive(Debug, PartialEq, Eq)]
pub enum BvhShape {
    Leaf(usize),
    Node(Box<BvhShape>, Box<BvhShape>),
}

/// The set of surface indices reachable at the leaves of a shape.
pub open spec fn shape_leaves(s: BvhShape) -> Set<int>
    decreases s,
{
    match s {
        BvhShape::Leaf(i) => set![i as int],
        BvhShape::Node(l, r) => shape_leaves(*l).union(shape_leaves(*r)),
    }
}

/// Builds the tree shape over the index range `lo .. hi`: a single index is
/// duplicated as both branches of one node, a pair becomes the two branches
/// of one node, and a longer range splits at its midpoint. Every index of
/// the range, and no other, reaches a leaf.
pub fn build_shape(lo: usize, hi: usize) -> (s: BvhShape)
    requires
        lo < hi,
    ensures
        shape_leaves(s) == Set::new(|i: int| lo <= i < hi),
    decreases hi - lo,
{
    if hi - lo == 1 {
        let s = BvhShape::Node(Box::new(BvhShape::Leaf(lo)), Box::new(BvhShape::Leaf(lo)));
        proof {
            assert(shape_leaves(BvhShape::Leaf(lo)) == set![lo as int]);
            assert(shape_leaves(s) =~= Set::new(|i: int| lo <= i < hi));
        }
        s
    } else if hi - lo == 2 {
        let s = BvhShape::Node(Box::new(BvhShape::Leaf(lo)), Box::new(BvhShape::Leaf(lo + 1)));
        proof {
            assert(shape_leaves(BvhShape::Leaf(lo)) == set![lo as int]);
            assert(shape_leaves(BvhShape::Leaf((lo + 1) as usize)) == set![(lo + 1) as int]);
            assert(shape_leaves(s) =~= Set::new(|i: int| lo <= i < hi));
        }
        s
    } else {
        let mid = lo + (hi - lo) / 2;
        let left = build_shape(lo, mid);
        let right = build_shape(mid, hi);
        let s = BvhShape::Node(Box::new(left), Box::new(right));
        proof {
            assert(shape_leaves(s) =~= Set::new(|i: int| lo <= i < hi));
        }
        s
    }
}

} // verus!
