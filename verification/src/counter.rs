//! Machine-word counters that wrap around.

use vstd::arithmetic::div_mod::{
    lemma_add_mod_noop, lemma_mod_add_multiples_vanish, lemma_mod_bound, lemma_mod_twice,
    lemma_small_mod,
};
use vstd::prelude::*;

verus! {

/// What a counter shows when its true value is `n`: the remainder modulo the
/// number of values of a `usize`.
#[verifier::opaque]
pub open spec fn wrapped(n: nat) -> nat {
    n % (usize::MAX as nat + 1)
}

/// A value that fits in a `usize` is shown as it is.
pub broadcast proof fn lemma_wrapped_fits(n: nat)
    requires
        n <= usize::MAX,
    ensures
        #[trigger] wrapped(n) == n,
{
    reveal(wrapped);
    lemma_small_mod(n, usize::MAX as nat + 1);
}

/// What a counter shows always fits in a `usize`.
pub broadcast proof fn lemma_wrapped_bound(n: nat)
    ensures
        #[trigger] wrapped(n) <= usize::MAX,
{
    reveal(wrapped);
    lemma_mod_bound(n as int, usize::MAX as int + 1);
}

/// Bumping twice shows the same as bumping once by the sum.
pub broadcast proof fn lemma_wrapped_twice(a: nat, b: nat)
    ensures
        #[trigger] wrapped(wrapped(a) + b) == wrapped(a + b),
{
    reveal(wrapped);
    let m = usize::MAX as int + 1;
    lemma_add_mod_noop(a as int, b as int, m);
    lemma_add_mod_noop(a as int % m, b as int, m);
    lemma_mod_twice(a as int, m);
}

/// A full turn of a counter shows nothing.
pub proof fn lemma_wrapped_turn(n: nat)
    ensures
        wrapped(n + usize::MAX as nat + 1) == wrapped(n),
{
    reveal(wrapped);
    lemma_mod_add_multiples_vanish(n as int, usize::MAX as int + 1);
}

/// The value of `counter` after it was bumped by `amount`.
pub fn bump(counter: usize, amount: usize) -> (bumped: usize)
    ensures
        bumped as nat == wrapped(counter as nat + amount as nat),
{
    proof {
        let sum = counter as nat + amount as nat;
        if sum <= usize::MAX {
            lemma_wrapped_fits(sum);
        } else {
            let shown = (sum - usize::MAX - 1) as nat;
            lemma_wrapped_turn(shown);
            lemma_wrapped_fits(shown);
        }
    }
    counter.wrapping_add(amount)
}

} // verus!
