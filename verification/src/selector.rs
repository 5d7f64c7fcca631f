//! Round-robin selection over a fixed, non-empty list of usernames.

use vstd::arithmetic::div_mod::lemma_fundamental_div_mod;
use vstd::arithmetic::div_mod::lemma_mod_mod;
use vstd::arithmetic::div_mod::lemma_mod_multiples_vanish;
use vstd::prelude::*;

verus! {

/// The list position that a cursor value selects in a list of `len` names.
pub open spec fn slot_of(cursor: usize, len: nat) -> int
    recommends
        len > 0,
{
    (cursor as int) % (len as int)
}

/// The cursor after one more selection: it counts up and wraps past the
/// largest value to zero.
pub open spec fn advance(cursor: usize) -> usize {
    if cursor == usize::MAX {
        0
    } else {
        (cursor + 1) as usize
    }
}

/// The cursor after `steps` selections that began at `start`.
pub open spec fn cursor_after(start: usize, steps: nat) -> usize
    decreases steps,
{
    if steps == 0 {
        start
    } else {
        advance(cursor_after(start, (steps - 1) as nat))
    }
}

/// Number of distinct cursor values: the cursor wraps to zero after this
/// many selections.
pub open spec fn cursor_range() -> int {
    usize::MAX + 1
}

/// The position selected by the call number `k` (counted from zero) of a
/// run of selections that began with the cursor at `start`.
pub open spec fn slot_at(start: usize, len: nat, k: nat) -> int {
    slot_of(cursor_after(start, k), len)
}

/// Whether one of the first `len` calls of such a run selects position `j`.
pub open spec fn is_selected(start: usize, len: nat, j: int) -> bool {
    exists|k: nat| k < len && #[trigger] slot_at(start, len, k) == j
}

/// After `steps` selections the cursor stands at `start + steps`, reduced
/// modulo the range of the cursor.
pub proof fn lemma_cursor_after(start: usize, steps: nat)
    ensures
        cursor_after(start, steps) as int == (start + steps) % cursor_range(),
    decreases steps,
{
    if steps == 0 {
        assert((start as int) % cursor_range() == start as int) by (nonlinear_arith)
            requires
                0 <= start < cursor_range(),
        ;
    } else {
        lemma_cursor_after(start, (steps - 1) as nat);
        let x = start + steps - 1;
        let w = cursor_range();
        assert((x + 1) % w == if x % w == w - 1 {
            0
        } else {
            x % w + 1
        }) by (nonlinear_arith)
            requires
                w > 0,
        ;
    }
}

/// Within a window of `len` selections, a call selects the position
/// `start + k` reduced modulo `len`, provided that the cursor does not wrap
/// inside the window or that `len` divides the range of the cursor.
pub proof fn lemma_slot_in_window(start: usize, len: nat, k: nat)
    requires
        len > 0,
        k < len,
        start + len <= cursor_range() || cursor_range() % (len as int) == 0,
    ensures
        slot_at(start, len, k) == (start + k) % (len as int),
{
    lemma_cursor_after(start, k);
    let w = cursor_range();
    let x = start + k;
    let l = len as int;
    if start + len <= w {
        assert(x % w == x) by (nonlinear_arith)
            requires
                0 <= x < w,
        ;
    } else {
        lemma_fundamental_div_mod(w, l);
        let m = w / l;
        assert(m > 0) by (nonlinear_arith)
            requires
                w == l * m,
                w > 0,
                l > 0,
        ;
        lemma_mod_mod(x, l, m);
    }
}

/// Round-robin fairness. Over `len` consecutive selections from a list of
/// `len` names, whatever the cursor was at the start, every list position is
/// selected by exactly one of the calls: some call selects it, and no two
/// calls select the same position.
///
/// The cursor counts modulo the range of `usize`. A window in which it wraps
/// to zero is covered only where `len` divides that range; otherwise the
/// positions before and after the wrap overlap.
pub proof fn lemma_round_visits_each_once(start: usize, len: nat)
    requires
        len > 0,
        start + len <= cursor_range() || cursor_range() % (len as int) == 0,
    ensures
        forall|j: int| 0 <= j < len ==> #[trigger] is_selected(start, len, j),
        forall|k1: nat, k2: nat|
            k1 < len && k2 < len && k1 != k2 ==> #[trigger] slot_at(start, len, k1)
                != #[trigger] slot_at(start, len, k2),
{
    let l = len as int;
    assert forall|j: int| 0 <= j < len implies #[trigger] is_selected(start, len, j) by {
        let k = ((j - start) % l) as nat;
        let q = (j - start) / l;
        lemma_fundamental_div_mod(j - start, l);
        assert(0 <= (j - start) % l < l) by (nonlinear_arith)
            requires
                l > 0,
        ;
        lemma_slot_in_window(start, len, k);
        assert(start + k == l * (-q) + j) by (nonlinear_arith)
            requires
                j - start == l * q + k,
        ;
        lemma_mod_multiples_vanish(-q, j, l);
        assert(j % l == j) by (nonlinear_arith)
            requires
                0 <= j < l,
        ;
        assert(slot_at(start, len, k) == j);
    }
    assert forall|k1: nat, k2: nat| k1 < len && k2 < len && k1 != k2 implies #[trigger] slot_at(
        start,
        len,
        k1,
    ) != #[trigger] slot_at(start, len, k2) by {
        lemma_slot_in_window(start, len, k1);
        lemma_slot_in_window(start, len, k2);
        let a = start + k1;
        let b = start + k2;
        lemma_fundamental_div_mod(a, l);
        lemma_fundamental_div_mod(b, l);
        assert(a % l != b % l) by (nonlinear_arith)
            requires
                l > 0,
                a != b,
                -l < a - b < l,
                a == l * (a / l) + a % l,
                b == l * (b / l) + b % l,
        ;
    }
}

/// An ordered, non-empty list of usernames with a cursor that hands them
/// out in turn.
pub struct UsernamePool {
    names: Vec<String>,
    cursor: usize,
}

impl UsernamePool {
    #[verifier::type_invariant]
    spec fn inv(self) -> bool {
        self.names.len() > 0
    }

    /// The usernames, in list order.
    pub closed spec fn names(self) -> Seq<String> {
        self.names@
    }

    /// The value of the cursor: the number of selections made so far, modulo
    /// the range of `usize`.
    pub closed spec fn cursor(self) -> usize {
        self.cursor
    }

    /// Makes a pool over `names` with the cursor at zero. An empty list is
    /// refused.
    pub fn new(names: Vec<String>) -> (pool: Option<UsernamePool>)
        ensures
            names@.len() == 0 <==> pool is None,
            pool matches Some(p) ==> p.names() == names@ && p.cursor() == 0,
    {
        UsernamePool::starting_at(names, 0)
    }

    /// Makes a pool over `names` with the cursor at `cursor`. An empty list
    /// is refused.
    pub fn starting_at(names: Vec<String>, cursor: usize) -> (pool: Option<UsernamePool>)
        ensures
            names@.len() == 0 <==> pool is None,
            pool matches Some(p) ==> p.names() == names@ && p.cursor() == cursor,
    {
        if names.len() == 0 {
            None
        } else {
            Some(UsernamePool { names, cursor })
        }
    }

    /// Number of usernames; never zero.
    pub fn len(&self) -> (n: usize)
        ensures
            n == self.names().len(),
            n > 0,
    {
        proof {
            use_type_invariant(self);
        }
        self.names.len()
    }

    /// The username that the cursor value `ticket` selects, without moving
    /// the pool's own cursor.
    pub fn select(&self, ticket: usize) -> (name: &String)
        ensures
            self.names().len() > 0,
            *name == self.names()[slot_of(ticket, self.names().len())],
    {
        proof {
            use_type_invariant(self);
        }
        &self.names[ticket % self.names.len()]
    }

    /// Hands out the username under the cursor and moves the cursor on.
    pub fn next(&mut self) -> (name: String)
        ensures
            final(self).names() == old(self).names(),
            final(self).cursor() == advance(old(self).cursor()),
            name == old(self).names()[slot_of(old(self).cursor(), old(self).names().len())],
    {
        proof {
            use_type_invariant(&*self);
        }
        let name = self.names[self.cursor % self.names.len()].clone();
        self.cursor = self.cursor.wrapping_add(1);
        name
    }
}

} // verus!
