//! Whole numbers of any size, as far as the logarithmic scale of a trend
//! needs them: a power of a sample has to be compared with a power of the
//! largest sample, and neither fits a machine word.

use vstd::prelude::*;

verus! {

/// `base` to the power of `exp`.
pub open spec fn pow(base: nat, exp: nat) -> nat
    decreases exp,
{
    if exp == 0 {
        1
    } else {
        base * pow(base, (exp - 1) as nat)
    }
}

/// The base of the digits: two to the power of sixty-four.
pub open spec fn radix() -> nat {
    0x1_0000_0000_0000_0000
}

/// The number that the digits write, the lowest digit first.
pub open spec fn value_of(digits: Seq<u64>) -> nat
    decreases digits.len(),
{
    if digits.len() == 0 {
        0
    } else {
        value_of(digits.drop_last()) + (digits.last() as nat) * pow(radix(), (digits.len() - 1) as nat)
    }
}

/// A number of `n` digits is smaller than the radix to the power of `n`.
proof fn lemma_value_bound(digits: Seq<u64>)
    ensures
        value_of(digits) < pow(radix(), digits.len()),
    decreases digits.len(),
{
    if digits.len() > 0 {
        lemma_value_bound(digits.drop_last());
        let weight = pow(radix(), (digits.len() - 1) as nat);
        let top = digits.last() as nat;
        assert(top * weight + weight <= radix() * weight) by (nonlinear_arith)
            requires
                top + 1 <= radix(),
        ;
    }
}

/// Two numbers whose digits agree from position `i` up differ by what
/// their lower digits differ by.
proof fn lemma_same_top(a: Seq<u64>, b: Seq<u64>, i: int)
    requires
        a.len() == b.len(),
        0 <= i <= a.len(),
        forall|j: int| i <= j < a.len() ==> a[j] == b[j],
    ensures
        value_of(a) - value_of(a.take(i)) == value_of(b) - value_of(b.take(i)),
    decreases a.len() - i,
{
    if i == a.len() {
        assert(a.take(i) =~= a);
        assert(b.take(i) =~= b);
    } else {
        lemma_same_top(a.drop_last(), b.drop_last(), i);
        assert(a.drop_last().take(i) =~= a.take(i));
        assert(b.drop_last().take(i) =~= b.take(i));
    }
}

/// The product of a number and a machine word, one digit longer.
pub(crate) fn times(digits: &Vec<u64>, factor: u64) -> (r: Vec<u64>)
    ensures
        value_of(r@) == value_of(digits@) * factor,
        r.len() == digits.len() + 1,
{
    let mut product: Vec<u64> = Vec::new();
    let mut carry: u64 = 0;
    let mut i: usize = 0;
    assert(digits@.take(0) =~= Seq::<u64>::empty());
    assert(value_of(product@) == 0);
    assert(value_of(digits@.take(0)) == 0);
    assert(carry * pow(radix(), 0) == 0);
    while i < digits.len()
        invariant
            i <= digits.len(),
            product.len() == i,
            value_of(product@) + carry * pow(radix(), i as nat) == value_of(digits@.take(i as int)) * factor,
        decreases digits.len() - i,
    {
        let digit = digits[i];
        assert(digit as nat * factor as nat + carry as nat <= 0xffff_ffff_ffff_ffff_ffff_ffff_ffff_ffff) by (nonlinear_arith)
            requires
                digit <= 0xffff_ffff_ffff_ffff,
                factor <= 0xffff_ffff_ffff_ffff,
                carry <= 0xffff_ffff_ffff_ffff,
        ;
        let wide: u128 = digit as u128 * factor as u128 + carry as u128;
        let low: u64 = (wide % 0x1_0000_0000_0000_0000u128) as u64;
        let high: u64 = (wide / 0x1_0000_0000_0000_0000u128) as u64;
        proof {
            let weight = pow(radix(), i as nat);
            let before = value_of(product@);
            let prefix = digits@.take(i as int);
            let longer = digits@.take(i + 1);
            assert(longer.drop_last() =~= prefix);
            assert(longer.last() == digit);
            assert(product@.push(low).drop_last() =~= product@);
            assert(pow(radix(), (i + 1) as nat) == radix() * weight);
            assert(wide as nat == low as nat + high as nat * radix());
            assert(before + low * weight + high * (radix() * weight) == (value_of(prefix) + digit * weight) * factor)
                by (nonlinear_arith)
                requires
                    before + carry * weight == value_of(prefix) * factor,
                    digit as nat * factor as nat + carry as nat == low as nat + high as nat * radix(),
            ;
        }
        product.push(low);
        carry = high;
        i = i + 1;
    }
    proof {
        assert(digits@.take(i as int) =~= digits@);
        assert(product@.push(carry).drop_last() =~= product@);
    }
    product.push(carry);
    product
}

/// Whether the first number is at most the second, both of the same
/// number of digits.
pub(crate) fn at_most(a: &Vec<u64>, b: &Vec<u64>) -> (r: bool)
    requires
        a.len() == b.len(),
    ensures
        r == (value_of(a@) <= value_of(b@)),
{
    let mut i: usize = a.len();
    while i > 0
        invariant
            i <= a.len(),
            a.len() == b.len(),
            forall|j: int| i <= j < a.len() ==> a[j] == b[j],
        decreases i,
    {
        let k = i - 1;
        if a[k] != b[k] {
            proof {
                lemma_same_top(a@, b@, i as int);
                let low_a = a@.take(k as int);
                let low_b = b@.take(k as int);
                assert(a@.take(i as int).drop_last() =~= low_a);
                assert(b@.take(i as int).drop_last() =~= low_b);
                lemma_value_bound(low_a);
                lemma_value_bound(low_b);
                let weight = pow(radix(), k as nat);
                let x = a[k as int] as nat;
                let y = b[k as int] as nat;
                if x < y {
                    assert(x * weight + weight <= y * weight) by (nonlinear_arith)
                        requires
                            x + 1 <= y,
                    ;
                } else {
                    assert(y * weight + weight <= x * weight) by (nonlinear_arith)
                        requires
                            y + 1 <= x,
                    ;
                }
            }
            return a[k] < b[k];
        }
        i = k;
    }
    proof {
        lemma_same_top(a@, b@, 0);
        assert(a@.take(0) =~= Seq::<u64>::empty());
        assert(b@.take(0) =~= Seq::<u64>::empty());
    }
    true
}

/// `base` to the power of `exp`, written with `length + 1` digits.
pub(crate) fn power(base: u64, exp: usize, length: usize) -> (r: Vec<u64>)
    requires
        exp <= length,
    ensures
        value_of(r@) == pow(base as nat, exp as nat),
        r.len() == length + 1,
{
    let mut digits: Vec<u64> = Vec::new();
    digits.push(1);
    proof {
        assert(digits@.drop_last() =~= Seq::<u64>::empty());
        assert(pow(radix(), 0) == 1);
        assert(value_of(digits@.drop_last()) == 0);
        assert(digits@.last() == 1);
        assert(value_of(digits@) == 1);
    }
    let mut i: usize = 0;
    while i < length
        invariant
            i <= length,
            exp <= length,
            digits.len() == i + 1,
            value_of(digits@) == pow(base as nat, if i <= exp {
                i as nat
            } else {
                exp as nat
            }),
        decreases length - i,
    {
        if i < exp {
            digits = times(&digits, base);
            proof {
                let known = pow(base as nat, i as nat);
                assert(pow(base as nat, (i + 1) as nat) == base as nat * known);
                assert(known * base as nat == base as nat * known) by (nonlinear_arith);
            }
        } else {
            digits = times(&digits, 1);
            assert(value_of(digits@) == pow(base as nat, exp as nat)) by (nonlinear_arith)
                requires
                    value_of(digits@) == pow(base as nat, exp as nat) * 1,
            ;
        }
        i = i + 1;
    }
    digits
}

} // verus!
