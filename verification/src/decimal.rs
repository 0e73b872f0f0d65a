use vstd::prelude::*;

verus! {

/// Ten to the power `exponent`.
pub open spec fn pow10(exponent: nat) -> nat
    decreases exponent,
{
    if exponent == 0 {
        1
    } else {
        10 * pow10((exponent - 1) as nat)
    }
}

/// The ASCII digit of a number below ten.
pub open spec fn digit(d: nat) -> u8 {
    (48 + d) as u8
}

/// The decimal digits of a natural number in ASCII, without leading zeros.
pub open spec fn decimal_digits(n: nat) -> Seq<u8>
    decreases n,
{
    if n < 10 {
        seq![digit(n)]
    } else {
        decimal_digits(n / 10).push(digit(n % 10))
    }
}

/// The decimal text of an integer in ASCII: a minus sign where it is negative,
/// then its digits.
pub open spec fn decimal_text(value: int) -> Seq<u8> {
    if value < 0 {
        seq![45u8] + decimal_digits((-value) as nat)
    } else {
        decimal_digits(value as nat)
    }
}

/// `count` times the digit zero.
pub open spec fn zeros(count: nat) -> Seq<u8> {
    Seq::new(count, |i: int| 48u8)
}

/// The digits of a positive number times a power of ten are the number's own
/// digits followed by as many zeros as the exponent says.
pub proof fn lemma_digits_of_scaled(n: nat, exponent: nat)
    requires
        n > 0,
    ensures
        n * pow10(exponent) > 0,
        decimal_digits(n * pow10(exponent)) == decimal_digits(n) + zeros(exponent),
    decreases exponent,
{
    if exponent == 0 {
        assert(n * pow10(0) == n) by (nonlinear_arith)
            requires
                pow10(0) == 1,
        ;
        assert(decimal_digits(n) + zeros(0) =~= decimal_digits(n));
    } else {
        let before = (exponent - 1) as nat;
        lemma_digits_of_scaled(n, before);
        let smaller = n * pow10(before);
        assert(n * pow10(exponent) == smaller * 10) by (nonlinear_arith)
            requires
                pow10(exponent) == 10 * pow10(before),
                smaller == n * pow10(before),
        ;
        let scaled = smaller * 10;
        assert(scaled >= 10);
        assert(scaled / 10 == smaller);
        assert(scaled % 10 == 0);
        assert(decimal_digits(scaled) == decimal_digits(smaller).push(digit(0)));
        assert(decimal_digits(smaller).push(48u8) =~= decimal_digits(n) + zeros(exponent));
    }
}

/// Two numbers with the same digits are the same number.
pub proof fn lemma_digits_injective(a: nat, b: nat)
    requires
        decimal_digits(a) == decimal_digits(b),
    ensures
        a == b,
    decreases a,
{
    if a < 10 {
        assert(decimal_digits(a) =~= seq![digit(a)]);
        if b >= 10 {
            lemma_digits_len(b / 10);
            assert(decimal_digits(b) == decimal_digits(b / 10).push(digit(b % 10)));
            assert(decimal_digits(b).len() >= 2);
        } else {
            assert(decimal_digits(b) =~= seq![digit(b)]);
            assert(seq![digit(a)][0] == seq![digit(b)][0]);
        }
    } else {
        if b < 10 {
            assert(decimal_digits(b) =~= seq![digit(b)]);
            lemma_digits_len(a / 10);
            assert(decimal_digits(a) == decimal_digits(a / 10).push(digit(a % 10)));
            assert(decimal_digits(a).len() >= 2);
        } else {
            let da = decimal_digits(a / 10);
            let db = decimal_digits(b / 10);
            assert(decimal_digits(a) == da.push(digit(a % 10)));
            assert(decimal_digits(b) == db.push(digit(b % 10)));
            assert(da.push(digit(a % 10)).last() == digit(a % 10));
            assert(db.push(digit(b % 10)).last() == digit(b % 10));
            assert(a % 10 == b % 10);
            assert(da.push(digit(a % 10)).drop_last() =~= da);
            assert(db.push(digit(b % 10)).drop_last() =~= db);
            assert(da == db);
            lemma_digits_injective(a / 10, b / 10);
        }
    }
}

/// Every number has at least one digit.
pub proof fn lemma_digits_len(n: nat)
    ensures
        decimal_digits(n).len() >= 1,
    decreases n,
{
    if n >= 10 {
        lemma_digits_len(n / 10);
    }
}

/// Every digit of a number is an ASCII digit, so none is a minus sign.
pub proof fn lemma_digits_are_digits(n: nat, at: int)
    requires
        0 <= at < decimal_digits(n).len(),
    ensures
        48 <= decimal_digits(n)[at] <= 57,
    decreases n,
{
    if n >= 10 {
        if at < decimal_digits(n / 10).len() {
            lemma_digits_are_digits(n / 10, at);
        }
    }
}

/// Two integers with the same decimal text are the same integer.
pub proof fn lemma_text_injective(a: int, b: int)
    requires
        decimal_text(a) == decimal_text(b),
    ensures
        a == b,
{
    if a < 0 && b < 0 {
        let da = decimal_digits((-a) as nat);
        let db = decimal_digits((-b) as nat);
        assert((seq![45u8] + da).skip(1) =~= da);
        assert((seq![45u8] + db).skip(1) =~= db);
        lemma_digits_injective((-a) as nat, (-b) as nat);
    } else if a >= 0 && b >= 0 {
        lemma_digits_injective(a as nat, b as nat);
    } else if a < 0 {
        lemma_digits_len(b as nat);
        lemma_digits_are_digits(b as nat, 0);
        assert(decimal_text(a)[0] == 45u8);
    } else {
        lemma_digits_len(a as nat);
        lemma_digits_are_digits(a as nat, 0);
        assert(decimal_text(b)[0] == 45u8);
    }
}

/// Appends the decimal digits of `n`.
pub fn push_decimal(out: &mut Vec<u8>, n: u128)
    ensures
        final(out)@ == old(out)@ + decimal_digits(n as nat),
    decreases n,
{
    if n >= 10 {
        push_decimal(out, n / 10);
    }
    out.push((48 + n % 10) as u8);
    assert(out@ =~= old(out)@ + decimal_digits(n as nat));
}

/// The decimal text of `mantissa * 10^scale`, the integer price that a sample
/// of an oracle stands for.
pub open spec fn price_text(mantissa: i128, scale: u32) -> Seq<u8> {
    decimal_text(mantissa * pow10(scale as nat))
}

/// Appends the decimal text of `mantissa * 10^scale`.
pub fn push_price(out: &mut Vec<u8>, mantissa: i128, scale: u32)
    ensures
        final(out)@ == old(out)@ + price_text(mantissa, scale),
{
    if mantissa == 0 {
        out.push(48u8);
        assert(mantissa * pow10(scale as nat) == 0) by (nonlinear_arith)
            requires
                mantissa == 0,
        ;
        assert(out@ =~= old(out)@ + price_text(mantissa, scale));
        return ;
    }
    let magnitude: u128 = if mantissa < 0 {
        out.push(45u8);
        (-(mantissa + 1)) as u128 + 1
    } else {
        mantissa as u128
    };
    let ghost signed = out@;
    push_decimal(out, magnitude);
    let ghost digits_end = out@;
    let mut i: u32 = 0;
    while i < scale
        invariant
            i <= scale,
            out@ == digits_end + zeros(i as nat),
        decreases scale - i,
    {
        out.push(48u8);
        assert(out@ =~= digits_end + zeros((i + 1) as nat));
        i += 1;
    }
    proof {
        lemma_digits_of_scaled(magnitude as nat, scale as nat);
        let power = pow10(scale as nat);
        if mantissa < 0 {
            assert(-(mantissa * power) == magnitude * power) by (nonlinear_arith)
                requires
                    magnitude == -mantissa,
            ;
            assert(out@ =~= old(out)@ + price_text(mantissa, scale));
        } else {
            assert(mantissa * power == magnitude * power) by (nonlinear_arith)
                requires
                    magnitude == mantissa,
            ;
            assert(out@ =~= old(out)@ + price_text(mantissa, scale));
        }
    }
}

} // verus!
