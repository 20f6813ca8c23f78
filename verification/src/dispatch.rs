//! Round-robin dispatch arithmetic.
//!
//! Acceptors share one counter: connection number `i` (counting from zero)
//! goes to worker `i % wc` where `wc` is the worker count. The functions here
//! count how many of the first `c` connections each worker receives, and
//! prove that the assignment is fair.

use vstd::prelude::*;

verus! {

/// How many of the first `c` accepted connections round-robin assignment
/// sends to worker `k`, with `wc` workers in total.
pub open spec fn assigned_count(c: nat, wc: nat, k: nat) -> nat
    decreases c,
{
    if c == 0 {
        0
    } else {
        assigned_count((c - 1) as nat, wc, k) + if (c - 1) as nat % wc == k {
            1nat
        } else {
            0nat
        }
    }
}

/// No worker receives more connections than were accepted.
pub proof fn lemma_assigned_count_le(c: nat, wc: nat, k: nat)
    ensures
        assigned_count(c, wc, k) <= c,
    decreases c,
{
    if c > 0 {
        lemma_assigned_count_le((c - 1) as nat, wc, k);
    }
}

/// Closed form of `assigned_count`: worker `k` has received one connection
/// per completed cycle of `wc`, plus one more if the current partial cycle
/// has already passed it.
pub proof fn lemma_assigned_count_closed(c: nat, wc: nat, k: nat)
    requires
        wc >= 1,
        k < wc,
    ensures
        assigned_count(c, wc, k) == c / wc + if k < c % wc {
            1nat
        } else {
            0nat
        },
    decreases c,
{
    if c == 0 {
        assert(c / wc == 0 && c % wc == 0) by (nonlinear_arith)
            requires
                wc >= 1,
                c == 0,
        ;
    } else {
        let p = (c - 1) as nat;
        lemma_assigned_count_closed(p, wc, k);
        if p % wc == wc - 1 {
            assert(c % wc == 0 && c / wc == p / wc + 1) by (nonlinear_arith)
                requires
                    wc >= 1,
                    c == p + 1,
                    p % wc == wc - 1,
            ;
        } else {
            assert(c % wc == p % wc + 1 && c / wc == p / wc) by (nonlinear_arith)
                requires
                    wc >= 1,
                    c == p + 1,
                    p % wc < wc - 1,
                    p % wc >= 0,
            ;
        }
    }
}

/// Round-robin fairness: when the number of accepted connections is a
/// multiple of the worker count, every worker has received exactly its even
/// share of them.
pub proof fn lemma_round_robin_fair(c: nat, wc: nat, k: nat)
    requires
        wc >= 1,
        k < wc,
        c % wc == 0,
    ensures
        assigned_count(c, wc, k) == c / wc,
{
    lemma_assigned_count_closed(c, wc, k);
}

} // verus!
