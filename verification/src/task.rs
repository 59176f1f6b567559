//! Task identifiers.
use vstd::prelude::*;

verus! {

/// Identifies a spawned task. `TaskId::none()` (zero) marks "no task".
#[derive(Debug, Copy, Clone, PartialEq, Eq, Structural, Hash, Ord, PartialOrd)]
pub struct TaskId(pub usize);

/// The value a source of task identifiers takes after handing out `k` more
/// identifiers, counting modulo the width of `usize` as an atomic counter does.
pub open spec fn advanced(start: usize, k: nat) -> usize {
    ((start as nat + k) % (usize::MAX as nat + 1)) as usize
}

/// Handing out `a` identifiers and then `b` more advances a source as far as
/// handing out `a + b` at once.
pub proof fn lemma_advanced_compose(start: usize, a: nat, b: nat)
    ensures
        advanced(advanced(start, a), b) == advanced(start, a + b),
{
    let m = usize::MAX as int + 1;
    let x = start as int + a;
    vstd::arithmetic::div_mod::lemma_add_mod_noop(x, b as int, m);
    vstd::arithmetic::div_mod::lemma_mod_twice(b as int, m);
    vstd::arithmetic::div_mod::lemma_add_mod_noop(x % m, b as int, m);
    vstd::arithmetic::div_mod::lemma_mod_twice(x, m);
}

/// Any `usize::MAX + 1` identifiers handed out one after the other by one
/// source are pairwise distinct.
pub proof fn lemma_consecutive_ids_distinct(start: usize, i: nat, j: nat)
    requires
        i < j <= usize::MAX,
    ensures
        advanced(start, i) != advanced(start, j),
{
    let m = usize::MAX as int + 1;
    let x = start as int + i;
    let y = start as int + j;
    vstd::arithmetic::div_mod::lemma_fundamental_div_mod(x, m);
    vstd::arithmetic::div_mod::lemma_fundamental_div_mod(y, m);
    if x % m == y % m {
        assert(y - x == m * (y / m) - m * (x / m));
        vstd::arithmetic::mul::lemma_mul_is_distributive_sub(m, y / m, x / m);
        assert(0 < y - x < m);
        if y / m - x / m >= 1 {
            vstd::arithmetic::mul::lemma_mul_inequality(1, y / m - x / m, m);
        } else if y / m - x / m <= 0 {
            vstd::arithmetic::mul::lemma_mul_inequality(y / m - x / m, 0, m);
        }
    }
}

/// A fresh source hands out `TaskId::none()` only after `usize::MAX` other
/// identifiers: the `k`-th identifier it hands out, counting from zero, is
/// `k + 1` while `k < usize::MAX`.
pub proof fn lemma_fresh_ids_not_none(k: nat)
    requires
        k < usize::MAX,
    ensures
        advanced(1, k) == k + 1,
        advanced(1, k) != 0,
{
    vstd::arithmetic::div_mod::lemma_small_mod(1 + k, usize::MAX as nat + 1);
}

/// A counter that hands out task identifiers one after the other.
pub struct TaskIdSource {
    next: usize,
}

impl View for TaskIdSource {
    type V = usize;

    closed spec fn view(&self) -> usize {
        self.next
    }
}

impl TaskIdSource {
    /// A fresh source: its first identifier is 1, the one after `TaskId::none()`.
    pub fn new() -> (s: Self)
        ensures
            s@ == 1,
    {
        TaskIdSource { next: 1 }
    }
}

impl TaskId {
    /// The identifier that stands for "no task" (`TaskId::NONE`).
    pub fn none() -> (id: TaskId)
        ensures
            id.0 == 0,
    {
        TaskId(0)
    }

    /// Hands out the source's current identifier and advances it by one,
    /// wrapping around at `usize::MAX`.
    pub fn next(source: &mut TaskIdSource) -> (id: TaskId)
        ensures
            id.0 == old(source)@,
            final(source)@ == advanced(old(source)@, 1),
    {
        let id = TaskId(source.next);
        if source.next == usize::MAX {
            proof {
                vstd::arithmetic::div_mod::lemma_mod_self_0(usize::MAX as int + 1);
            }
            source.next = 0;
        } else {
            proof {
                vstd::arithmetic::div_mod::lemma_small_mod(
                    source.next as nat + 1,
                    usize::MAX as nat + 1,
                );
            }
            source.next = source.next + 1;
        }
        id
    }
}

} // verus!
