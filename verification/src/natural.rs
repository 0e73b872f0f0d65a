use vstd::prelude::*;

verus! {

/// The radix of the limbs: two to the power 32.
pub const RADIX: u64 = 0x1_0000_0000;

/// `base` to the power `exponent`.
pub open spec fn power(base: nat, exponent: nat) -> nat
    decreases exponent,
{
    if exponent == 0 {
        1
    } else {
        base * power(base, (exponent - 1) as nat)
    }
}

/// The natural number that a sequence of limbs stands for, least significant
/// limb first.
pub open spec fn limbs_value(limbs: Seq<u32>) -> nat
    decreases limbs.len(),
{
    if limbs.len() == 0 {
        0
    } else {
        limbs[0] as nat + RADIX as nat * limbs_value(limbs.drop_first())
    }
}

/// A power of a positive base is positive.
pub proof fn lemma_power_positive(base: nat, exponent: nat)
    requires
        base > 0,
    ensures
        power(base, exponent) > 0,
    decreases exponent,
{
    if exponent > 0 {
        lemma_power_positive(base, (exponent - 1) as nat);
        assert(base * power(base, (exponent - 1) as nat) > 0) by (nonlinear_arith)
            requires
                base > 0,
                power(base, (exponent - 1) as nat) > 0,
        ;
    }
}

/// A limb that is appended counts with the weight of its place.
pub proof fn lemma_value_push(limbs: Seq<u32>, limb: u32)
    ensures
        limbs_value(limbs.push(limb)) == limbs_value(limbs) + limb * power(
            RADIX as nat,
            limbs.len(),
        ),
    decreases limbs.len(),
{
    if limbs.len() == 0 {
        assert(limbs.push(limb).drop_first() =~= Seq::<u32>::empty());
        assert(limbs_value(limbs.push(limb)) == limb as nat + RADIX as nat * limbs_value(
            Seq::<u32>::empty(),
        ));
        assert(limb * power(RADIX as nat, 0) == limb) by (nonlinear_arith)
            requires
                power(RADIX as nat, 0) == 1,
        ;
    } else {
        let rest = limbs.drop_first();
        lemma_value_push(rest, limb);
        assert(limbs.push(limb).drop_first() =~= rest.push(limb));
        let weight = power(RADIX as nat, rest.len());
        assert(power(RADIX as nat, limbs.len()) == RADIX as nat * weight);
        assert(RADIX as nat * (limbs_value(rest) + limb * weight) == RADIX as nat * limbs_value(
            rest,
        ) + limb * (RADIX as nat * weight)) by (nonlinear_arith);
    }
}

/// A number below the radix is its own lowest limb.
pub proof fn lemma_single_limb(limbs: Seq<u32>)
    requires
        limbs.len() > 0,
        limbs_value(limbs) < RADIX,
    ensures
        limbs[0] == limbs_value(limbs),
{
    let rest = limbs_value(limbs.drop_first());
    if rest > 0 {
        assert(RADIX as nat * rest >= RADIX as nat) by (nonlinear_arith)
            requires
                rest >= 1,
        ;
    }
}

/// Multiplies a number by one limb.
pub fn times_small(limbs: &Vec<u32>, factor: u32) -> (r: Vec<u32>)
    ensures
        limbs_value(r@) == limbs_value(limbs@) * factor,
        r@.len() == limbs@.len() + 1,
{
    let mut out: Vec<u32> = Vec::new();
    let mut carry: u64 = 0;
    let mut i: usize = 0;
    assert(limbs@.take(0) =~= Seq::<u32>::empty());
    assert(carry * power(RADIX as nat, 0) == 0) by (nonlinear_arith)
        requires
            carry == 0,
    ;
    assert(limbs_value(limbs@.take(0)) * factor == 0) by (nonlinear_arith)
        requires
            limbs_value(limbs@.take(0)) == 0,
    ;
    while i < limbs.len()
        invariant
            i <= limbs@.len(),
            out@.len() == i,
            carry < RADIX,
            limbs_value(out@) + carry * power(RADIX as nat, i as nat) == limbs_value(
                limbs@.take(i as int),
            ) * factor,
        decreases limbs@.len() - i,
    {
        let limb = limbs[i];
        assert(limb as u64 * factor as u64 + carry <= u64::MAX) by (nonlinear_arith)
            requires
                limb <= 0xffff_ffff,
                factor <= 0xffff_ffff,
                carry <= 0xffff_ffff,
        ;
        let total: u64 = limb as u64 * factor as u64 + carry;
        let low: u32 = (total % RADIX) as u32;
        let high: u64 = total / RADIX;
        proof {
            let weight = power(RADIX as nat, i as nat);
            let before = limbs_value(limbs@.take(i as int));
            let written = limbs_value(out@);
            lemma_value_push(out@, low);
            lemma_value_push(limbs@.take(i as int), limb);
            assert(limbs@.take(i + 1) =~= limbs@.take(i as int).push(limb));
            assert(power(RADIX as nat, (i + 1) as nat) == RADIX as nat * weight);
            assert(total == low + RADIX * high);
            assert((written + low * weight) + high * (RADIX as nat * weight) == (before + limb
                * weight) * factor) by (nonlinear_arith)
                requires
                    written + carry * weight == before * factor,
                    limb * factor + carry == low + RADIX * high,
            ;
        }
        out.push(low);
        carry = high;
        i += 1;
    }
    proof {
        lemma_value_push(out@, carry as u32);
        assert(limbs@.take(limbs@.len() as int) =~= limbs@);
    }
    out.push(carry as u32);
    out
}

/// Divides a number by one limb, rounding down.
pub fn divided_by_small(limbs: &Vec<u32>, divisor: u32) -> (r: Vec<u32>)
    requires
        divisor > 0,
    ensures
        limbs_value(r@) == limbs_value(limbs@) / (divisor as nat),
        r@.len() == limbs@.len(),
{
    let length = limbs.len();
    let mut out: Vec<u32> = Vec::new();
    let mut k: usize = 0;
    while k < length
        invariant
            k <= length,
            out@.len() == k,
        decreases length - k,
    {
        out.push(0u32);
        k += 1;
    }
    let mut rest: u64 = 0;
    let mut i: usize = length;
    assert(limbs@.skip(length as int) =~= Seq::<u32>::empty());
    assert(out@.skip(length as int) =~= Seq::<u32>::empty());
    assert(limbs_value(out@.skip(length as int)) * divisor == 0) by (nonlinear_arith)
        requires
            limbs_value(out@.skip(length as int)) == 0,
    ;
    while i > 0
        invariant
            length == limbs@.len(),
            out@.len() == length,
            i <= length,
            divisor > 0,
            rest < divisor,
            limbs_value(limbs@.skip(i as int)) == limbs_value(out@.skip(i as int)) * divisor
                + rest,
        decreases i,
    {
        let j: usize = i - 1;
        let limb = limbs[j];
        let current: u64 = rest * RADIX + limb as u64;
        let quotient: u64 = current / (divisor as u64);
        let remainder: u64 = current % (divisor as u64);
        assert(quotient < RADIX) by (nonlinear_arith)
            requires
                quotient == current / (divisor as u64),
                current < divisor * RADIX,
                divisor > 0,
        ;
        let ghost above = limbs_value(out@.skip(i as int));
        let ghost out_before = out@;
        out.set(j, quotient as u32);
        proof {
            assert(limbs@.skip(j as int).drop_first() =~= limbs@.skip(i as int));
            assert(out@.skip(j as int).drop_first() =~= out_before.skip(i as int));
            assert(out@.skip(j as int)[0] == quotient);
            assert(limbs@.skip(j as int)[0] == limb);
            assert(current == quotient * divisor + remainder) by (nonlinear_arith)
                requires
                    quotient == current / (divisor as u64),
                    remainder == current % (divisor as u64),
                    divisor > 0,
            ;
            assert(limb + RADIX as nat * (above * divisor + rest) == (quotient + RADIX as nat
                * above) * divisor + remainder) by (nonlinear_arith)
                requires
                    rest * RADIX + limb == quotient * divisor + remainder,
            ;
        }
        rest = remainder;
        i = j;
    }
    proof {
        assert(limbs@.skip(0) =~= limbs@);
        assert(out@.skip(0) =~= out@);
        vstd::arithmetic::div_mod::lemma_fundamental_div_mod_converse_div(
            limbs_value(limbs@) as int,
            divisor as int,
            limbs_value(out@) as int,
            rest as int,
        );
    }
    out
}

} // verus!
