//! Connection identifiers.

use vstd::prelude::*;

verus! {

/// The identifier that follows `id`: one more, and 0 after the largest.
pub open spec fn successor(id: usize) -> usize {
    if id == usize::MAX {
        0
    } else {
        (id + 1) as usize
    }
}

/// The identifier that the call number `n` (counted from 0) returns, when the
/// first call returns `first`.
pub open spec fn nth_id(first: usize, n: nat) -> usize
    decreases n,
{
    if n == 0 {
        first
    } else {
        successor(nth_id(first, (n - 1) as nat))
    }
}

/// Hands out connection identifiers: 1 first, then one more with each call.
/// An identifier is never given back, so none is reused while the counter has
/// not gone once around the whole range of `usize`.
#[derive(Debug)]
pub struct IdAllocator {
    next: usize,
}

impl IdAllocator {
    /// The identifier that the next call of `next` returns.
    pub closed spec fn upcoming(&self) -> usize {
        self.next
    }

    /// A fresh allocator, whose first identifier is 1.
    pub fn new() -> (ids: IdAllocator)
        ensures
            ids.upcoming() == 1,
    {
        IdAllocator { next: 1 }
    }

    /// Returns the upcoming identifier and moves on to its successor.
    pub fn next(&mut self) -> (id: usize)
        ensures
            id == old(self).upcoming(),
            final(self).upcoming() == successor(id),
    {
        let id: usize = self.next;
        self.next = id.wrapping_add(1);
        id
    }
}

/// The closed form of `nth_id`: counting goes around the range of `usize`.
pub proof fn lemma_nth_id_closed_form(first: usize, n: nat)
    ensures
        nth_id(first, n) == (first + n) % (usize::MAX + 1),
    decreases n,
{
    let m: int = usize::MAX + 1;
    if n == 0 {
        vstd::arithmetic::div_mod::lemma_small_mod(first as nat, m as nat);
    } else {
        lemma_nth_id_closed_form(first, (n - 1) as nat);
        let prev: int = (first + n - 1) % m;
        assert(prev == nth_id(first, (n - 1) as nat));
        assert((first + n) % m == if prev == m - 1 { 0 } else { prev + 1 }) by {
            vstd::arithmetic::div_mod::lemma_fundamental_div_mod(first + n - 1, m);
            let q: int = (first + n - 1) / m;
            if prev == m - 1 {
                assert(first + n == m * (q + 1) + 0) by (nonlinear_arith)
                    requires
                        first + n - 1 == m * q + prev,
                        prev == m - 1,
                ;
                vstd::arithmetic::div_mod::lemma_fundamental_div_mod_converse(
                    first + n,
                    m,
                    q + 1,
                    0,
                );
            } else {
                vstd::arithmetic::div_mod::lemma_fundamental_div_mod_converse(
                    first + n,
                    m,
                    q,
                    prev + 1,
                );
            }
        }
    }
}

/// No identifier is handed out twice: two different calls return different
/// identifiers, as long as fewer calls than `usize` has values lie between
/// them.
pub proof fn lemma_ids_are_unique(first: usize, i: nat, j: nat)
    requires
        i < j,
        j - i <= usize::MAX,
    ensures
        nth_id(first, i) != nth_id(first, j),
{
    lemma_nth_id_closed_form(first, i);
    lemma_nth_id_closed_form(first, j);
    let m: int = usize::MAX + 1;
    if (first + i) % m == (first + j) % m {
        vstd::arithmetic::div_mod::lemma_fundamental_div_mod(first + i, m);
        vstd::arithmetic::div_mod::lemma_fundamental_div_mod(first + j, m);
        let qi: int = (first + i) / m;
        let qj: int = (first + j) / m;
        assert(j - i == m * (qj - qi)) by (nonlinear_arith)
            requires
                first + i == m * qi + (first + i) % m,
                first + j == m * qj + (first + j) % m,
                (first + i) % m == (first + j) % m,
        ;
        assert(false) by (nonlinear_arith)
            requires
                j - i == m * (qj - qi),
                0 < j - i < m,
        ;
    }
}

/// Identifiers grow: while the counter has not reached the largest `usize`, a
/// later call returns a larger identifier than an earlier one.
pub proof fn lemma_ids_increase(first: usize, i: nat, j: nat)
    requires
        i < j,
        first + j <= usize::MAX,
    ensures
        nth_id(first, i) < nth_id(first, j),
{
    lemma_nth_id_closed_form(first, i);
    lemma_nth_id_closed_form(first, j);
    let m: int = usize::MAX + 1;
    vstd::arithmetic::div_mod::lemma_small_mod((first + i) as nat, m as nat);
    vstd::arithmetic::div_mod::lemma_small_mod((first + j) as nat, m as nat);
}

} // verus!
