//! A span of time held as whole seconds and nanoseconds.
use vstd::prelude::*;
use crate::text::{decimal, decimal_text, digit, digit_char, push_char};

verus! {

pub open spec fn nanos_per_sec() -> nat {
    1_000_000_000
}

/// The longest span: `u64::MAX` seconds and 999 999 999 nanoseconds, in nanoseconds.
pub open spec fn max_span() -> nat {
    18_446_744_073_709_551_615nat * 1_000_000_000 + 999_999_999
}

/// `span * factor` when that fits in a `Duration`, else the longest span.
pub open spec fn saturating_times(span: nat, factor: nat) -> nat {
    if span * factor <= max_span() {
        span * factor
    } else {
        max_span()
    }
}

/// A span of time. Its view is its length in nanoseconds.
#[derive(Clone, Copy, Debug, PartialEq, Eq)]
pub struct Duration {
    secs: u64,
    nanos: u32,
}

/// Digits of `frac / (div * 10)` after the decimal point, stopping once nothing is left.
pub open spec fn frac_digits(frac: nat, div: nat) -> Seq<char>
    decreases div,
{
    if frac == 0 || div == 0 {
        seq![]
    } else {
        seq![digit_char((frac / div) as int)] + frac_digits(frac % div, div / 10)
    }
}

/// `int_part`, then `.` and the fraction's digits when there is a fraction, then `unit`.
pub open spec fn decimal_with_fraction(int_part: nat, frac: nat, div: nat, unit: Seq<char>) -> Seq<
    char,
> {
    decimal(int_part) + (if frac > 0 {
        seq!['.'] + frac_digits(frac, div)
    } else {
        seq![]
    }) + unit
}

/// The text of a span of `secs` seconds and `nanos` nanoseconds in the largest unit among
/// s, ms, µs and ns whose whole part is not zero, with the exact fraction (the `Debug` form
/// of `std::time::Duration`).
pub open spec fn span_text(secs: nat, nanos: nat) -> Seq<char> {
    if secs > 0 {
        decimal_with_fraction(secs, nanos, 100_000_000, seq!['s'])
    } else if nanos >= 1_000_000 {
        decimal_with_fraction(nanos / 1_000_000, nanos % 1_000_000, 100_000, seq!['m', 's'])
    } else if nanos >= 1_000 {
        decimal_with_fraction(nanos / 1_000, nanos % 1_000, 100, seq!['\u{b5}', 's'])
    } else {
        decimal_with_fraction(nanos, 0, 1, seq!['n', 's'])
    }
}

impl View for Duration {
    type V = nat;

    closed spec fn view(&self) -> nat {
        (self.secs * nanos_per_sec() + self.nanos) as nat
    }
}

proof fn lemma_split(secs: nat, nanos: nat)
    requires
        nanos < 1_000_000_000,
    ensures
        (secs * 1_000_000_000 + nanos) / 1_000_000_000 == secs,
        (secs * 1_000_000_000 + nanos) % 1_000_000_000 == nanos,
{
    vstd::arithmetic::div_mod::lemma_fundamental_div_mod_converse(
        (secs * 1_000_000_000 + nanos) as int,
        1_000_000_000,
        secs as int,
        nanos as int,
    );
}

impl Duration {
    #[verifier::type_invariant]
    spec fn well_formed(self) -> bool {
        self.nanos < 1_000_000_000
    }

    /// The text of this span (see `span_text`).
    pub open spec fn text(self) -> Seq<char> {
        span_text(self@ / nanos_per_sec(), self@ % nanos_per_sec())
    }

    /// `secs` seconds and `nanos` nanoseconds; nanoseconds beyond a second carry into the
    /// seconds, which must not overflow.
    pub fn new(secs: u64, nanos: u32) -> (d: Duration)
        requires
            secs + nanos / 1_000_000_000 <= u64::MAX,
        ensures
            d@ == secs * nanos_per_sec() + nanos,
    {
        let carry: u64 = (nanos / 1_000_000_000) as u64;
        let rest: u32 = nanos % 1_000_000_000;
        proof {
            assert(nanos == carry * 1_000_000_000 + rest);
        }
        Duration { secs: secs + carry, nanos: rest }
    }

    pub fn from_secs(secs: u64) -> (d: Duration)
        ensures
            d@ == secs * nanos_per_sec(),
    {
        Duration { secs, nanos: 0 }
    }

    pub fn from_millis(millis: u64) -> (d: Duration)
        ensures
            d@ == millis * 1_000_000,
    {
        let secs: u64 = millis / 1000;
        let nanos: u32 = ((millis % 1000) * 1_000_000) as u32;
        proof {
            assert(millis == secs * 1000 + millis % 1000);
        }
        Duration { secs, nanos }
    }

    /// The longest span a `Duration` holds.
    pub fn max_value() -> (d: Duration)
        ensures
            d@ == max_span(),
    {
        Duration { secs: u64::MAX, nanos: 999_999_999 }
    }

    /// Whole seconds.
    pub fn as_secs(&self) -> (s: u64)
        ensures
            s == self@ / nanos_per_sec(),
    {
        proof {
            use_type_invariant(self);
            lemma_split(self.secs as nat, self.nanos as nat);
        }
        self.secs
    }

    /// Nanoseconds beyond the whole seconds.
    pub fn subsec_nanos(&self) -> (n: u32)
        ensures
            n == self@ % nanos_per_sec(),
    {
        proof {
            use_type_invariant(self);
            lemma_split(self.secs as nat, self.nanos as nat);
        }
        self.nanos
    }

    /// `self * factor`, or `None` when that is longer than the longest span.
    pub fn checked_mul(&self, factor: u32) -> (r: Option<Duration>)
        ensures
            r is Some <==> self@ * factor <= max_span(),
            r matches Some(d) ==> d@ == self@ * factor,
    {
        proof {
            use_type_invariant(self);
        }
        assert(self.nanos as u64 * factor as u64 <= 1_000_000_000 * 4_294_967_295) by (nonlinear_arith)
            requires
                self.nanos < 1_000_000_000,
        ;
        let total_nanos: u64 = self.nanos as u64 * factor as u64;
        let extra_secs: u64 = total_nanos / 1_000_000_000;
        let nanos: u32 = (total_nanos % 1_000_000_000) as u32;
        let ghost s = self.secs as int;
        let ghost n = self.nanos as int;
        let ghost k = factor as int;
        proof {
            assert(total_nanos == extra_secs * 1_000_000_000 + nanos);
            assert((s * 1_000_000_000 + n) * k == (s * k + extra_secs) * 1_000_000_000 + nanos)
                by (nonlinear_arith)
                requires
                    n * k == extra_secs * 1_000_000_000 + nanos,
            ;
            assert(self@ * factor == (s * 1_000_000_000 + n) * k) by (nonlinear_arith)
                requires
                    self@ == s * 1_000_000_000 + n,
                    k == factor,
            ;
            assert(((s * k + extra_secs) <= u64::MAX) <==> ((s * k + extra_secs) * 1_000_000_000
                + nanos <= max_span())) by (nonlinear_arith)
                requires
                    0 <= nanos < 1_000_000_000,
                    s * k + extra_secs >= 0,
            ;
        }
        match self.secs.checked_mul(factor as u64) {
            Some(whole) => match whole.checked_add(extra_secs) {
                Some(secs) => Some(Duration { secs, nanos }),
                None => None,
            },
            None => {
                proof {
                    assert(s * k + extra_secs > u64::MAX) by (nonlinear_arith)
                        requires
                            s * k > u64::MAX,
                            extra_secs >= 0,
                    ;
                }
                None
            },
        }
    }

    /// Renders this span as `std::time::Duration`'s `Debug` does, such as `60s`, `1.5s`,
    /// `500ms` or `7ns`.
    pub fn debug_text(&self) -> (s: String)
        ensures
            s@ == self.text(),
    {
        proof {
            use_type_invariant(self);
            lemma_split(self.secs as nat, self.nanos as nat);
            reveal_strlit("s");
            reveal_strlit("ms");
            reveal_strlit("\u{b5}s");
            reveal_strlit("ns");
        }
        if self.secs > 0 {
            with_fraction(self.secs, self.nanos, 100_000_000, "s")
        } else if self.nanos >= 1_000_000 {
            with_fraction((self.nanos / 1_000_000) as u64, self.nanos % 1_000_000, 100_000, "ms")
        } else if self.nanos >= 1_000 {
            with_fraction((self.nanos / 1_000) as u64, self.nanos % 1_000, 100, "\u{b5}s")
        } else {
            with_fraction(self.nanos as u64, 0, 1, "ns")
        }
    }
}

pub open spec fn power_of_ten_divisor(div: nat) -> bool {
    div == 1 || div == 10 || div == 100 || div == 1_000 || div == 10_000 || div == 100_000
        || div == 1_000_000 || div == 10_000_000 || div == 100_000_000
}

fn push_fraction(s: &mut String, frac: u32, div: u32)
    requires
        frac < div * 10,
        power_of_ten_divisor(div as nat),
    ensures
        final(s)@ == old(s)@ + frac_digits(frac as nat, div as nat),
    decreases div,
{
    if frac == 0 || div == 0 {
        assert(old(s)@ + frac_digits(frac as nat, div as nat) =~= old(s)@);
    } else {
        let d: u32 = frac / div;
        assert(d < 10) by (nonlinear_arith)
            requires
                frac < div * 10,
                div > 0,
                d == frac / div,
        ;
        let c = digit(d as u64);
        let ghost before = s@;
        push_char(s, c);
        let rest: u32 = frac % div;
        let next: u32 = div / 10;
        assert(rest < div);
        assert(next == 0 || (next * 10 == div && power_of_ten_divisor(next as nat)));
        if next == 0 {
            assert(frac_digits(rest as nat, next as nat) =~= Seq::<char>::empty());
        } else {
            push_fraction(s, rest, next);
        }
        assert(frac_digits(frac as nat, div as nat) =~= seq![c] + frac_digits(rest as nat, next as nat));
        assert(s@ =~= before + frac_digits(frac as nat, div as nat));
    }
}

fn with_fraction(int_part: u64, frac: u32, div: u32, unit: &str) -> (s: String)
    requires
        frac < div * 10,
        power_of_ten_divisor(div as nat),
    ensures
        s@ == decimal_with_fraction(int_part as nat, frac as nat, div as nat, unit@),
{
    let mut s = decimal_text(int_part);
    if frac > 0 {
        push_char(&mut s, '.');
        push_fraction(&mut s, frac, div);
    }
    s.append(unit);
    s
}

} // verus!
