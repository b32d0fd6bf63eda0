//! The measurement record and the throughput model built on it.
use vstd::prelude::*;
use crate::text::{dec_alphabet, dec_digit, dec_text, push_dec, string_from_chars};

verus! {

/// Nanoseconds in one second.
pub const NANOS_PER_SEC: u128 = 1_000_000_000;

/// The number of speed units, from bytes up.
pub const UNIT_COUNT: usize = 9;

/// One measurement: which algorithm ran, on how many bytes and which seed,
/// how long the single call took, and its result in text form.
#[derive(Debug)]
pub struct Stat {
    pub name: String,
    pub size: usize,
    pub seed: u32,
    pub duration_nanos: u128,
    pub res_string: String,
}

/// `1024` to the power `k`: the number of bytes in one of unit `k`.
pub open spec fn unit_scale(k: nat) -> nat
    decreases k,
{
    if k == 0 {
        1
    } else {
        1024 * unit_scale((k - 1) as nat)
    }
}

/// The letter that comes before "B" in the name of each unit above bytes.
pub open spec fn unit_prefixes() -> Seq<char> {
    seq!['K', 'M', 'G', 'T', 'P', 'E', 'Y', 'B']
}

/// The name of unit `k`: "B", "KB", "MB", and so on.
pub open spec fn unit_name(k: nat) -> Seq<char> {
    if k == 0 {
        seq!['B']
    } else {
        seq![unit_prefixes()[k - 1], 'B']
    }
}

/// Starting from unit `k`, the unit that a rate of `num / den` bytes per second
/// is shown in: move one unit up while the value in the current unit exceeds
/// 1024 and a larger unit remains.
pub open spec fn unit_from(num: nat, den: nat, k: nat) -> nat
    decreases 8 - k,
{
    if k < 8 && num > 1024 * (den * unit_scale(k)) {
        unit_from(num, den, k + 1)
    } else {
        k
    }
}

/// Byte-nanoseconds per second for `size` bytes: divided by a duration in
/// nanoseconds it gives bytes per second.
pub open spec fn rate_numerator(size: nat) -> nat {
    size * 1_000_000_000
}

/// The unit in which the rate of `size` bytes in `nanos` nanoseconds is shown.
pub open spec fn speed_unit(size: nat, nanos: nat) -> nat {
    unit_from(rate_numerator(size), nanos, 0)
}

/// The rate of `size` bytes in `nanos` nanoseconds, in hundredths of its unit,
/// rounded to the nearest (halves up).
pub open spec fn speed_hundredths(size: nat, nanos: nat) -> nat {
    ((200 * rate_numerator(size) / (nanos * unit_scale(speed_unit(size, nanos))) + 1) / 2) as nat
}

/// Two decimal digits for `n < 100`, with a leading zero.
pub open spec fn two_digits(n: nat) -> Seq<char> {
    seq![dec_alphabet()[(n / 10) as int], dec_alphabet()[(n % 10) as int]]
}

/// The speed text for `size` bytes measured in `nanos` nanoseconds: the rate
/// with two decimals, its unit and "/s". A zero duration has no finite rate: it
/// reads "infBB/s", or "0.00B/s" when no byte was hashed either.
pub open spec fn speed_text(size: nat, nanos: nat) -> Seq<char> {
    if nanos == 0 {
        if size == 0 {
            seq!['0', '.', '0', '0', 'B', '/', 's']
        } else {
            seq!['i', 'n', 'f', 'B', 'B', '/', 's']
        }
    } else {
        let h = speed_hundredths(size, nanos);
        dec_text(h / 100) + seq!['.'] + two_digits(h % 100) + unit_name(speed_unit(size, nanos))
            + seq!['/', 's']
    }
}

/// Appends the name of unit `k`.
fn push_unit(k: usize, out: &mut Vec<char>)
    requires
        k < UNIT_COUNT,
    ensures
        final(out)@ == old(out)@ + unit_name(k as nat),
{
    if k == 1 {
        out.push('K');
    } else if k == 2 {
        out.push('M');
    } else if k == 3 {
        out.push('G');
    } else if k == 4 {
        out.push('T');
    } else if k == 5 {
        out.push('P');
    } else if k == 6 {
        out.push('E');
    } else if k == 7 {
        out.push('Y');
    } else if k == 8 {
        out.push('B');
    }
    out.push('B');
    proof {
        assert(final(out)@ =~= old(out)@ + unit_name(k as nat));
    }
}

impl Stat {
    /// The throughput of this measurement as text, scaled to a unit of 1024
    /// powers of bytes per second, with two decimals.
    pub fn speed(&self) -> (r: String)
        ensures
            r@ == speed_text(self.size as nat, self.duration_nanos as nat),
    {
        let mut out: Vec<char> = Vec::new();
        if self.duration_nanos == 0 {
            if self.size == 0 {
                out.push('0');
                out.push('.');
                out.push('0');
                out.push('0');
                out.push('B');
            } else {
                out.push('i');
                out.push('n');
                out.push('f');
                out.push('B');
                out.push('B');
            }
            out.push('/');
            out.push('s');
            proof {
                assert(out@ =~= speed_text(self.size as nat, self.duration_nanos as nat));
            }
            return string_from_chars(&out);
        }
        let num: u128 = self.size as u128 * NANOS_PER_SEC;
        let den: u128 = self.duration_nanos;
        let mut k: usize = 0;
        let mut d: u128 = den;
        assert(d == den * unit_scale(0)) by {
            assert(unit_scale(0) == 1);
        }
        while k + 1 < UNIT_COUNT && num >= 1 && d <= (num - 1) / 1024
            invariant
                k <= 8,
                num == rate_numerator(self.size as nat),
                num < 0x1_0000_0000_0000_0000_0000_0000,
                den == self.duration_nanos,
                den > 0,
                d > 0,
                d == den * unit_scale(k as nat),
                k == 0 || d < num,
                unit_from(num as nat, den as nat, 0) == unit_from(num as nat, den as nat, k as nat),
            decreases 8 - k,
        {
            proof {
                assert(num > 1024 * d) by (nonlinear_arith)
                    requires
                        num >= 1,
                        d <= (num - 1) / 1024;
                assert(unit_from(num as nat, den as nat, k as nat) == unit_from(
                    num as nat,
                    den as nat,
                    (k + 1) as nat,
                ));
                assert(d * 1024 == den * unit_scale((k + 1) as nat)) by (nonlinear_arith)
                    requires
                        d == den * unit_scale(k as nat),
                        unit_scale((k + 1) as nat) == 1024 * unit_scale(k as nat);
            }
            k = k + 1;
            d = d * 1024;
        }
        proof {
            if k < 8 {
                assert(num <= 1024 * d) by (nonlinear_arith)
                    requires
                        !(num >= 1 && d <= (num - 1) / 1024);
            }
            assert(unit_from(num as nat, den as nat, k as nat) == k);
        }
        let h: u128 = (200 * num / d + 1) / 2;
        push_dec(h / 100, &mut out);
        out.push('.');
        out.push(dec_digit(((h % 100) / 10) as u8));
        out.push(dec_digit((h % 10) as u8));
        push_unit(k, &mut out);
        out.push('/');
        out.push('s');
        proof {
            assert(h % 10 == (h % 100) % 10) by (nonlinear_arith);
            assert(out@ =~= speed_text(self.size as nat, self.duration_nanos as nat));
        }
        string_from_chars(&out)
    }
}

proof fn lemma_unit_scale_positive(k: nat)
    ensures
        unit_scale(k) >= 1,
    decreases k,
{
    if k > 0 {
        lemma_unit_scale_positive((k - 1) as nat);
    }
}

proof fn lemma_unit_from_stops(num: nat, den: nat, k: nat)
    requires
        k <= 8,
    ensures
        k <= unit_from(num, den, k) <= 8,
        unit_from(num, den, k) < 8 ==> num <= 1024 * (den * unit_scale(unit_from(num, den, k))),
    decreases 8 - k,
{
    if k < 8 && num > 1024 * (den * unit_scale(k)) {
        lemma_unit_from_stops(num, den, k + 1);
    }
}

/// The speed text reads back as the measured rate: it is the number `h / 100`
/// with two decimals followed by the name of unit `k`, and `h / 100` units of
/// `1024^k` bytes per second lie within half a hundredth of a unit of
/// `size / (nanos / 10^9)` bytes per second. Below the largest unit, the rate
/// in its unit is at most 1024.
pub proof fn lemma_speed_reads_back(size: nat, nanos: nat)
    requires
        nanos > 0,
    ensures
        ({
            let k = speed_unit(size, nanos);
            let h = speed_hundredths(size, nanos);
            let scaled = nanos * unit_scale(k);
            &&& k < UNIT_COUNT
            &&& speed_text(size, nanos) == dec_text(h / 100) + seq!['.'] + two_digits(h % 100)
                + unit_name(k) + seq!['/', 's']
            &&& (2 * h - 1) * scaled <= 200 * rate_numerator(size)
            &&& 200 * rate_numerator(size) < (2 * h + 1) * scaled
            &&& (k < 8 ==> rate_numerator(size) <= 1024 * scaled)
        }),
{
    let k = speed_unit(size, nanos);
    let h = speed_hundredths(size, nanos);
    let scaled = nanos * unit_scale(k);
    let a = 200 * rate_numerator(size);
    lemma_unit_from_stops(rate_numerator(size), nanos, 0);
    lemma_unit_scale_positive(k);
    assert(scaled > 0) by (nonlinear_arith)
        requires
            nanos > 0,
            unit_scale(k) >= 1,
            scaled == nanos * unit_scale(k);
    let q = a / scaled;
    assert(q * scaled <= a < (q + 1) * scaled) by (nonlinear_arith)
        requires
            scaled > 0,
            q == a / scaled;
    assert(h == (q + 1) / 2);
    assert((2 * h - 1) * scaled <= a < (2 * h + 1) * scaled) by (nonlinear_arith)
        requires
            scaled > 0,
            h == (q + 1) / 2,
            q >= 0,
            q * scaled <= a < (q + 1) * scaled;
}

} // verus!
