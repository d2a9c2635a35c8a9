use crate::number::Number;
use rayon::iter::{IntoParallelRefIterator, ParallelIterator};
use vstd::prelude::*;

verus! {

/// `e^n mod q` by repeated multiply-and-reduce: starting from `one`, the
/// step `f = (f * e) mod q` is applied `n` times.
pub open spec fn pow_mod<N: Number>(e: N, n: nat, q: N) -> N
    decreases n,
{
    if n == 0 {
        N::spec_one()
    } else {
        pow_mod(e, (n - 1) as nat, q).spec_mul_rem(e, q)
    }
}

/// Whether the exponentiation can be carried out: a zero modulus is only
/// usable when no reduction happens (exponent zero, or nothing to reduce).
pub open spec fn reducible<N: Number>(len: nat, n: nat, q: N) -> bool {
    n == 0 || !q.spec_is_zero() || len == 0
}

/// Takes `e` to the power `n` modulo `q`, one multiply-and-reduce step at a
/// time, so that no intermediate value exceeds the width of `N`.
pub fn exp_modulo<N: Number>(e: N, n: usize, q: N) -> (r: N)
    requires
        n == 0 || !q.spec_is_zero(),
    ensures
        r == pow_mod(e, n as nat, q),
{
    let mut f = N::one();
    let mut i: usize = 0;
    while i < n
        invariant
            i <= n,
            n == 0 || !q.spec_is_zero(),
            f == pow_mod(e, i as nat, q),
        decreases n - i,
    {
        f = f.mul_rem(e, q);
        i = i + 1;
    }
    f
}

/// Relies on rayon's `par_iter().map(..).collect::<Vec<_>>()`: the indexed
/// parallel iterator over a slice yields one mapped item per element and
/// collects them into a vector in the slice's order.
#[verifier::external_body]
fn par_exp_modulo<N: Number>(x: &[N], n: usize, q: N) -> (r: Vec<N>)
    requires
        reducible(x@.len(), n as nat, q),
    ensures
        r@.len() == x@.len(),
        forall|i: int| 0 <= i < x@.len() ==> r@[i] == pow_mod(#[trigger] x@[i], n as nat, q),
{
    x.par_iter().map(|&e| exp_modulo(e, n, q)).collect()
}

/// Takes each element of `x` to the power `n` modulo `q`, the elements being
/// processed in parallel on the CPU. The result is in the order of `x`.
pub fn exp_cpu<N: Number>(x: &[N], n: usize, q: N) -> (r: Vec<N>)
    requires
        reducible(x@.len(), n as nat, q),
    ensures
        r@.len() == x@.len(),
        forall|i: int| 0 <= i < x@.len() ==> r@[i] == pow_mod(#[trigger] x@[i], n as nat, q),
        n == 0 ==> forall|i: int| 0 <= i < x@.len() ==> #[trigger] r@[i] == N::spec_one(),
        n == 1 && !q.spec_is_zero() ==> forall|i: int|
            0 <= i < x@.len() ==> #[trigger] r@[i] == x@[i].spec_rem(q),
{
    let r = par_exp_modulo(x, n, q);
    proof {
        assert forall|i: int| 0 <= i < x@.len() implies (n == 0 ==> r@[i] == N::spec_one()) && (
        n == 1 && !q.spec_is_zero() ==> r@[i] == x@[i].spec_rem(q)) by {
            lemma_pow_mod_zero(x@[i], q);
            if n == 1 && !q.spec_is_zero() {
                lemma_pow_mod_one(x@[i], q);
            }
        }
    }
    r
}

/// Any element raised to the power zero is `one`, whatever the element and
/// the modulus, zero included.
pub proof fn lemma_pow_mod_zero<N: Number>(e: N, q: N)
    ensures
        pow_mod(e, 0, q) == N::spec_one(),
{
}

/// Raising to the power one reduces the element modulo `q`.
pub proof fn lemma_pow_mod_one<N: Number>(e: N, q: N)
    requires
        !q.spec_is_zero(),
    ensures
        pow_mod(e, 1, q) == e.spec_rem(q),
{
    assert(pow_mod(e, 1, q) == pow_mod(e, 0, q).spec_mul_rem(e, q));
    N::lemma_one_mul_rem(e, q);
}

} // verus!
