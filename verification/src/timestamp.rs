//! Calendar timestamps held as plain fields, with a verified rendering into
//! the `YYYY-MM-DD HH:MM:SS` shape that the response bodies carry.

use vstd::prelude::*;

use crate::text::{digit_char, spec_digit, chars_to_string};

verus! {

/// A wall-clock timestamp with whole-second precision, one field per
/// calendar component.
#[derive(Clone, Copy, Debug, PartialEq, Eq, Structural)]
pub struct Timestamp {
    pub year: u64,
    pub month: u64,
    pub day: u64,
    pub hour: u64,
    pub minute: u64,
    pub second: u64,
}

/// Two decimal digits, high digit first (meaningful for 0 through 99).
pub open spec fn spec_two_digits(n: int) -> Seq<char> {
    seq![spec_digit(n / 10), spec_digit(n % 10)]
}

/// The display form `YYYY-MM-DD HH:MM:SS`, every component zero-padded.
pub open spec fn spec_timestamp_display(t: Timestamp) -> Seq<char> {
    spec_two_digits(t.year as int / 100) + spec_two_digits(t.year as int % 100) + seq!['-']
        + spec_two_digits(t.month as int) + seq!['-'] + spec_two_digits(t.day as int) + seq![' ']
        + spec_two_digits(t.hour as int) + seq![':'] + spec_two_digits(t.minute as int)
        + seq![':'] + spec_two_digits(t.second as int)
}

/// Appends the two zero-padded decimal digits of `n` to `out`.
fn push_two_digits(n: u64, out: &mut Vec<char>)
    requires
        n < 100,
    ensures
        final(out)@ == old(out)@ + spec_two_digits(n as int),
{
    out.push(digit_char(n / 10));
    out.push(digit_char(n % 10));
    assert(out@ =~= old(out)@ + spec_two_digits(n as int));
}

impl Timestamp {
    /// The fields form a plausible calendar date and time of day, with a
    /// four-digit year.
    pub open spec fn wf(self) -> bool {
        &&& self.year < 10000
        &&& 1 <= self.month <= 12
        &&& 1 <= self.day <= 31
        &&& self.hour < 24
        &&& self.minute < 60
        &&& self.second < 60
    }

    /// Renders the timestamp as `YYYY-MM-DD HH:MM:SS`, the default display
    /// of a date and time with whole seconds.
    pub fn to_display_string(&self) -> (r: String)
        requires
            self.wf(),
        ensures
            r@ == spec_timestamp_display(*self),
    {
        proof {
            assert(self.year / 100 < 100) by (nonlinear_arith)
                requires
                    self.year < 10000,
            ;
        }
        let mut out: Vec<char> = Vec::new();
        push_two_digits(self.year / 100, &mut out);
        push_two_digits(self.year % 100, &mut out);
        out.push('-');
        push_two_digits(self.month, &mut out);
        out.push('-');
        push_two_digits(self.day, &mut out);
        out.push(' ');
        push_two_digits(self.hour, &mut out);
        out.push(':');
        push_two_digits(self.minute, &mut out);
        out.push(':');
        push_two_digits(self.second, &mut out);
        assert(out@ =~= spec_timestamp_display(*self));
        chars_to_string(&out)
    }
}

} // verus!
