//! The evaluation domain: the radix-2 multiplicative subgroup of the
//! scalar field whose points index the validators.  The validator at
//! position `i` is assigned the `i`-th power of the domain generator.

use vstd::prelude::*;

use crate::curve::domain_generator;
use crate::curve::domain_generator_of;
use crate::curve::fr_inverse;
use crate::curve::fr_inverse_of;
use crate::curve::fr_mul;
use crate::curve::fr_mul_of;
use crate::curve::fr_of_u64;
use crate::curve::fr_one;
use crate::curve::is_pow2;
use crate::curve::Fr;

verus! {

/// The `i`-th power of a scalar, one for the zeroth power.
pub open spec fn fr_power_of(g: Seq<u8>, i: nat) -> Seq<u8>
    decreases i,
{
    if i == 0 {
        fr_of_u64(1)
    } else {
        fr_mul_of(fr_power_of(g, (i - 1) as nat), g)
    }
}

/// Whether `n` is a power of two.
pub fn is_power_of_2(n: u32) -> (r: bool)
    ensures
        r == is_pow2(n as nat),
{
    if n == 0 {
        return false;
    }
    let mut m: u32 = n;
    while m > 1
        invariant
            1 <= m,
            is_pow2(n as nat) == is_pow2(m as nat),
        decreases m,
    {
        if m % 2 != 0 {
            assert(!is_pow2(m as nat));
            return false;
        }
        m = m / 2;
    }
    assert(is_pow2(m as nat));
    true
}

/// A radix-2 evaluation domain of a power-of-two size.
#[derive(Clone, Debug)]
pub struct Domain {
    /// The number of points.
    pub size: u32,
    /// The subgroup generator.
    pub generator: Fr,
    /// The inverse of the subgroup generator.
    pub generator_inv: Fr,
}

impl Domain {
    /// The structural facts every domain built by [`Domain::new`] has.
    pub open spec fn wf(&self) -> bool {
        &&& is_pow2(self.size as nat)
        &&& 1 <= self.size
    }

    /// Construct the domain of the given size; fails exactly when the
    /// size is not a power of two.
    pub fn new(size: u32) -> (r: Option<Domain>)
        ensures
            (r is Some) == is_pow2(size as nat),
            r matches Some(d) ==> {
                &&& d.wf()
                &&& d.size == size
                &&& d.generator@ == domain_generator_of(size as u64)
                &&& d.generator_inv@ == fr_inverse_of(domain_generator_of(size as u64))
            },
    {
        if !is_power_of_2(size) {
            return None;
        }
        assert(size >= 1) by {
            assert(is_pow2(size as nat));
        }
        let generator = domain_generator(size as u64);
        let generator_inv = match fr_inverse(&generator) {
            Some(x) => x,
            None => {
                // The domain generator is a root of unity, never zero.
                assert(false);
                fr_one()
            },
        };
        Some(Domain { size, generator, generator_inv })
    }

    /// The points of the domain: the consecutive powers of the generator.
    pub fn points(&self) -> (r: Vec<Fr>)
        ensures
            r@.len() == self.size,
            forall|i: int| 0 <= i < r@.len() ==> r@[i]@ == fr_power_of(self.generator@, i as nat),
    {
        let mut out: Vec<Fr> = Vec::new();
        let mut cur: Fr = fr_one();
        let mut i: u32 = 0;
        while i < self.size
            invariant
                i <= self.size,
                out@.len() == i,
                cur@ == fr_power_of(self.generator@, i as nat),
                forall|j: int| 0 <= j < i ==> out@[j]@ == fr_power_of(self.generator@, j as nat),
            decreases self.size - i,
        {
            out.push(cur.dup());
            cur = fr_mul(&cur, &self.generator);
            i = i + 1;
        }
        out
    }
}

} // verus!
