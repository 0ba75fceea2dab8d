use vstd::prelude::*;

verus! {

/// The base of the exponential backoff, in seconds.
pub const BASE_DELAY: u64 = 2;

/// `BASE_DELAY` raised to `n`, as a mathematical integer.
pub open spec fn base_pow(n: nat) -> int
    decreases n,
{
    if n == 0 {
        1
    } else {
        BASE_DELAY * base_pow((n - 1) as nat)
    }
}

/// The delay, in seconds, that follows failed attempt `n`: `BASE_DELAY^n`,
/// held at `u64::MAX` where the power no longer fits.
pub open spec fn delay_after(n: nat) -> int {
    if base_pow(n) <= u64::MAX {
        base_pow(n)
    } else {
        u64::MAX as int
    }
}

pub proof fn lemma_base_pow_positive(n: nat)
    ensures
        base_pow(n) >= 1,
    decreases n,
{
    if n > 0 {
        lemma_base_pow_positive((n - 1) as nat);
    }
}

pub proof fn lemma_base_pow_monotone(m: nat, n: nat)
    requires
        m <= n,
    ensures
        base_pow(m) <= base_pow(n),
    decreases n - m,
{
    if m < n {
        lemma_base_pow_monotone(m, (n - 1) as nat);
        lemma_base_pow_positive((n - 1) as nat);
    }
}

/// Computes the delay, in seconds, to wait after failed attempt `attempt`
/// before the next one.
pub fn backoff_delay(attempt: u32) -> (r: u64)
    ensures
        r == delay_after(attempt as nat),
{
    let mut d: u64 = 1;
    let mut i: u32 = 0;
    while i < attempt
        invariant
            i <= attempt,
            d == base_pow(i as nat),
        decreases attempt - i,
    {
        proof {
            lemma_base_pow_monotone(i as nat + 1, attempt as nat);
        }
        if d > u64::MAX / BASE_DELAY {
            return u64::MAX;
        }
        d = d * BASE_DELAY;
        i = i + 1;
    }
    d
}

} // verus!
