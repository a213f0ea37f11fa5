//! Rebuilding and compacting density trees.

use vstd::prelude::*;
use crate::density::{BinaryOp, DensityModel, DensitySource, DensityType, UnaryOp};

verus! {

/// Whether the path rebuilder enters a node: sums, products and `Cache2d`
/// wrappers are entered; every other node is a leaf to it.
pub open spec fn rn_entered(d: DensityModel) -> bool {
    ||| d matches DensityModel::Binary { op, .. } && (op == BinaryOp::Add || op == BinaryOp::Multiply)
    ||| d matches DensityModel::Unary { op, .. } && op == UnaryOp::Cache2d
}

/// The value of the strike counter after the rebuilder has walked a tree,
/// starting from `cur`: one per visited node, in pre-order; the target node
/// is replaced whole, so its children are not visited.
pub open spec fn rn_after(d: DensityModel, target: nat, cur: nat) -> nat
    decreases d,
{
    if cur == target || !rn_entered(d) {
        cur + 1
    } else {
        match d {
            DensityModel::Binary { left, right, .. } => rn_after(
                *right,
                target,
                rn_after(*left, target, cur + 1),
            ),
            DensityModel::Unary { argument, .. } => rn_after(*argument, target, cur + 1),
            _ => cur + 1,
        }
    }
}

/// Whether the walk from `cur` reaches the node numbered `target`.
pub open spec fn rn_hits(d: DensityModel, target: nat, cur: nat) -> bool
    decreases d,
{
    if cur == target {
        true
    } else if !rn_entered(d) {
        false
    } else {
        match d {
            DensityModel::Binary { left, right, .. } => rn_hits(*left, target, cur + 1) || rn_hits(
                *right,
                target,
                rn_after(*left, target, cur + 1),
            ),
            DensityModel::Unary { argument, .. } => rn_hits(*argument, target, cur + 1),
            _ => false,
        }
    }
}

/// The node numbered `target` in the walk from `cur`.
pub open spec fn rn_at(d: DensityModel, target: nat, cur: nat) -> DensityModel
    decreases d,
{
    if cur == target || !rn_entered(d) {
        d
    } else {
        match d {
            DensityModel::Binary { left, right, .. } => {
                if rn_hits(*left, target, cur + 1) {
                    rn_at(*left, target, cur + 1)
                } else {
                    rn_at(*right, target, rn_after(*left, target, cur + 1))
                }
            },
            DensityModel::Unary { argument, .. } => rn_at(*argument, target, cur + 1),
            _ => d,
        }
    }
}

/// The tree with the node numbered `target` (in the walk from `cur`)
/// replaced by `new_node`.
pub open spec fn rn_put(d: DensityModel, target: nat, cur: nat, new_node: DensityModel) -> DensityModel
    decreases d,
{
    if cur == target {
        new_node
    } else if !rn_entered(d) {
        d
    } else {
        match d {
            DensityModel::Binary { op, left, right } => DensityModel::Binary {
                op,
                left: Box::new(rn_put(*left, target, cur + 1, new_node)),
                right: Box::new(rn_put(*right, target, rn_after(*left, target, cur + 1), new_node)),
            },
            DensityModel::Unary { op, argument } => DensityModel::Unary {
                op,
                argument: Box::new(rn_put(*argument, target, cur + 1, new_node)),
            },
            _ => d,
        }
    }
}

/// The walk always moves the counter forward.
proof fn lemma_rn_after_grows(d: DensityModel, target: nat, cur: nat)
    ensures
        rn_after(d, target, cur) > cur,
    decreases d,
{
    if cur != target && rn_entered(d) {
        match d {
            DensityModel::Binary { left, right, .. } => {
                lemma_rn_after_grows(*left, target, cur + 1);
                lemma_rn_after_grows(*right, target, rn_after(*left, target, cur + 1));
            },
            DensityModel::Unary { argument, .. } => {
                lemma_rn_after_grows(*argument, target, cur + 1);
            },
            _ => {},
        }
    }
}

/// Walks the tree in pre-order, counting visited nodes in `current_strike`
/// (sums, products and `Cache2d` wrappers are entered, everything else is a
/// leaf), and replaces the node numbered `target_strike` by what `modifier`
/// makes of it. When no node has that number the tree comes back as it was.
pub fn replace_nth_node<F: Fn(DensityType) -> DensityType>(
    density: DensityType,
    target_strike: u32,
    current_strike: &mut u32,
    modifier: &F,
) -> (r: DensityType)
    requires
        rn_after(density@, target_strike as nat, *old(current_strike) as nat) <= u32::MAX,
        forall|x: DensityType| #[trigger] modifier.requires((x,)),
    ensures
        *final(current_strike) == rn_after(density@, target_strike as nat, *old(current_strike) as nat),
        rn_hits(density@, target_strike as nat, *old(current_strike) as nat) ==> exists|
            x: DensityType,
            out: DensityType,
        |
            #![trigger modifier.ensures((x,), out)]
            x@ == rn_at(density@, target_strike as nat, *old(current_strike) as nat)
                && modifier.ensures((x,), out) && r@ == rn_put(
                density@,
                target_strike as nat,
                *old(current_strike) as nat,
                out@,
            ),
        !rn_hits(density@, target_strike as nat, *old(current_strike) as nat) ==> r@ == density@,
    decreases density@,
{
    let ghost cur0 = *current_strike as nat;
    let ghost t = target_strike as nat;
    let ghost d = density@;
    proof {
        lemma_rn_after_grows(d, t, cur0);
    }
    if *current_strike == target_strike {
        *current_strike = *current_strike + 1;
        let ghost x = density;
        let out = modifier(density);
        assert(x@ == rn_at(d, t, cur0) && modifier.ensures((x,), out) && out@ == rn_put(d, t, cur0, out@));
        return out;
    }
    *current_strike = *current_strike + 1;
    match density {
        DensityType::Binary { op, left, right } => {
            if op == BinaryOp::Add || op == BinaryOp::Multiply {
                let ghost l = (*left)@;
                let ghost rr = (*right)@;
                proof {
                    lemma_rn_after_grows(l, t, cur0 + 1);
                    lemma_rn_after_grows(rr, t, rn_after(l, t, cur0 + 1));
                }
                let new_left = replace_nth_node(*left, target_strike, current_strike, modifier);
                let ghost mid = *current_strike as nat;
                let new_right = replace_nth_node(*right, target_strike, current_strike, modifier);
                let r = DensityType::Binary {
                    op,
                    left: Box::new(new_left),
                    right: Box::new(new_right),
                };
                proof {
                    if rn_hits(l, t, cur0 + 1) {
                        let (x, out) = choose|x: DensityType, out: DensityType|
                            x@ == rn_at(l, t, cur0 + 1) && modifier.ensures((x,), out) && new_left@
                                == rn_put(l, t, cur0 + 1, out@);
                        lemma_rn_no_hit_after(l, rr, t, cur0 + 1);
                        lemma_rn_put_miss(rr, t, mid, out@);
                        assert(r@ == rn_put(d, t, cur0, out@));
                    } else if rn_hits(rr, t, mid) {
                        let (x, out) = choose|x: DensityType, out: DensityType|
                            x@ == rn_at(rr, t, mid) && modifier.ensures((x,), out) && new_right@
                                == rn_put(rr, t, mid, out@);
                        lemma_rn_put_miss(l, t, cur0 + 1, out@);
                        assert(r@ == rn_put(d, t, cur0, out@));
                    }
                }
                r
            } else {
                DensityType::Binary { op, left, right }
            }
        },
        DensityType::Unary { op, argument } => {
            if op == UnaryOp::Cache2d {
                let new_arg = replace_nth_node(*argument, target_strike, current_strike, modifier);
                let r = DensityType::Unary { op, argument: Box::new(new_arg) };
                proof {
                    if rn_hits((*argument)@, t, cur0 + 1) {
                        let (x, out) = choose|x: DensityType, out: DensityType|
                            x@ == rn_at((*argument)@, t, cur0 + 1) && modifier.ensures((x,), out)
                                && new_arg@ == rn_put((*argument)@, t, cur0 + 1, out@);
                        assert(r@ == rn_put(d, t, cur0, out@));
                    }
                }
                r
            } else {
                DensityType::Unary { op, argument }
            }
        },
        other => other,
    }
}

/// A walk that misses the target leaves the tree as it is, whatever would
/// have been put there.
proof fn lemma_rn_put_miss(d: DensityModel, target: nat, cur: nat, new_node: DensityModel)
    requires
        !rn_hits(d, target, cur),
    ensures
        rn_put(d, target, cur, new_node) == d,
    decreases d,
{
    if cur != target && rn_entered(d) {
        match d {
            DensityModel::Binary { left, right, .. } => {
                lemma_rn_put_miss(*left, target, cur + 1, new_node);
                lemma_rn_put_miss(*right, target, rn_after(*left, target, cur + 1), new_node);
            },
            DensityModel::Unary { argument, .. } => {
                lemma_rn_put_miss(*argument, target, cur + 1, new_node);
            },
            _ => {},
        }
    }
}

/// Once the target is hit in one subtree, the walk of the next subtree
/// starts past it and cannot hit it again.
proof fn lemma_rn_no_hit_after(first: DensityModel, next: DensityModel, target: nat, cur: nat)
    requires
        rn_hits(first, target, cur),
    ensures
        !rn_hits(next, target, rn_after(first, target, cur)),
{
    lemma_rn_hit_before(first, target, cur);
    lemma_rn_no_hit_past(next, target, rn_after(first, target, cur));
}

/// A hit target lies before the end of the walk.
proof fn lemma_rn_hit_before(d: DensityModel, target: nat, cur: nat)
    requires
        rn_hits(d, target, cur),
    ensures
        cur <= target < rn_after(d, target, cur),
    decreases d,
{
    if cur != target {
        match d {
            DensityModel::Binary { left, right, .. } => {
                lemma_rn_after_grows(*left, target, cur + 1);
                lemma_rn_after_grows(*right, target, rn_after(*left, target, cur + 1));
                if rn_hits(*left, target, cur + 1) {
                    lemma_rn_hit_before(*left, target, cur + 1);
                } else {
                    lemma_rn_hit_before(*right, target, rn_after(*left, target, cur + 1));
                }
            },
            DensityModel::Unary { argument, .. } => {
                lemma_rn_hit_before(*argument, target, cur + 1);
            },
            _ => {},
        }
    }
}

/// A walk that starts past the target never hits it.
proof fn lemma_rn_no_hit_past(d: DensityModel, target: nat, cur: nat)
    requires
        cur > target,
    ensures
        !rn_hits(d, target, cur),
    decreases d,
{
    if rn_entered(d) {
        match d {
            DensityModel::Binary { left, right, .. } => {
                lemma_rn_no_hit_past(*left, target, cur + 1);
                lemma_rn_after_grows(*left, target, cur + 1);
                lemma_rn_no_hit_past(*right, target, rn_after(*left, target, cur + 1));
            },
            DensityModel::Unary { argument, .. } => {
                lemma_rn_no_hit_past(*argument, target, cur + 1);
            },
            _ => {},
        }
    }
}

/// Copies a density source into fresh storage, node by node.
pub fn compact_source_to_new_arena(source: &DensitySource) -> (r: DensitySource)
    ensures
        r@ == source@,
{
    source.deep_clone()
}

} // verus!
