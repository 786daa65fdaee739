use crate::text::{decimal, padded, push_decimal};
use vstd::prelude::*;

verus! {

/// Whether `y` is a leap year of the proleptic Gregorian calendar.
pub open spec fn is_leap(y: int) -> bool {
    y % 4 == 0 && (y % 100 != 0 || y % 400 == 0)
}

/// The number of days of month `m` (1 to 12) of year `y`.
pub open spec fn days_in_month(y: int, m: int) -> int {
    if m == 2 {
        if is_leap(y) { 29 } else { 28 }
    } else if m == 4 || m == 6 || m == 9 || m == 11 {
        30
    } else {
        31
    }
}

/// The number of days of year `y` before the first day of month `m`.
pub open spec fn days_before_month(y: int, m: int) -> int {
    let base: int = if m == 1 { 0 }
        else if m == 2 { 31 }
        else if m == 3 { 59 }
        else if m == 4 { 90 }
        else if m == 5 { 120 }
        else if m == 6 { 151 }
        else if m == 7 { 181 }
        else if m == 8 { 212 }
        else if m == 9 { 243 }
        else if m == 10 { 273 }
        else if m == 11 { 304 }
        else { 334 };
    if m > 2 && is_leap(y) { base + 1 } else { base }
}

/// `x / 4` rounded toward zero.
pub open spec fn quarter_toward_zero(x: int) -> int {
    if x >= 0 { x / 4 } else { -((-x) / 4) }
}

/// An instant in UTC, to the second, in the years 1 to 9999.
#[derive(Clone, Copy, Debug, PartialEq, Eq, Structural)]
pub struct UtcDateTime {
    pub year: i32,
    pub month: u8,
    pub day: u8,
    pub hour: u8,
    pub minute: u8,
    pub second: u8,
}

impl UtcDateTime {
    /// Whether the fields name an existing instant.
    pub open spec fn wf(&self) -> bool {
        &&& 1 <= self.year <= 9999
        &&& 1 <= self.month <= 12
        &&& 1 <= self.day <= days_in_month(self.year as int, self.month as int)
        &&& self.hour < 24
        &&& self.minute < 60
        &&& self.second < 60
    }

    /// The day of the year, 1 for January 1st.
    pub open spec fn spec_ordinal(&self) -> int {
        days_before_month(self.year as int, self.month as int) + self.day
    }

    /// The day count that the astronomical arguments start from: the day of
    /// the year, less one, plus the leap days counted from 1901.
    pub open spec fn spec_dday(&self) -> int {
        self.spec_ordinal() + quarter_toward_zero(self.year - 1901 - 1) - 1
    }

    /// The text `YYYY-MM-DD HH:MM:SS UTC`.
    pub open spec fn spec_text(&self) -> Seq<char> {
        padded(self.year as nat, 4) + seq!['-'] + padded(self.month as nat, 2) + seq!['-']
            + padded(self.day as nat, 2) + seq![' '] + padded(self.hour as nat, 2) + seq![':']
            + padded(self.minute as nat, 2) + seq![':'] + padded(self.second as nat, 2)
            + seq![' ', 'U', 'T', 'C']
    }

    /// The instant with the given fields, if they name one.
    pub fn new(year: i32, month: u8, day: u8, hour: u8, minute: u8, second: u8) -> (r: Option<UtcDateTime>)
        ensures
            match r {
                Some(d) => d.wf() && d == (UtcDateTime { year, month, day, hour, minute, second }),
                None => !(UtcDateTime { year, month, day, hour, minute, second }).wf(),
            },
    {
        let d = UtcDateTime { year, month, day, hour, minute, second };
        if year < 1 || year > 9999 || month < 1 || month > 12 || day < 1 || hour >= 24 || minute >= 60
            || second >= 60 {
            return None;
        }
        if (day as i32) > days_in_month_of(year, month) {
            return None;
        }
        Some(d)
    }

    /// The day of the year, 1 for January 1st.
    pub fn ordinal(&self) -> (r: u32)
        requires
            self.wf(),
        ensures
            r == self.spec_ordinal(),
    {
        let leap = is_leap_year(self.year);
        let m = self.month;
        let base: u32 = if m == 1 { 0 }
            else if m == 2 { 31 }
            else if m == 3 { 59 }
            else if m == 4 { 90 }
            else if m == 5 { 120 }
            else if m == 6 { 151 }
            else if m == 7 { 181 }
            else if m == 8 { 212 }
            else if m == 9 { 243 }
            else if m == 10 { 273 }
            else if m == 11 { 304 }
            else { 334 };
        let before = if m > 2 && leap { base + 1 } else { base };
        before + self.day as u32
    }

    /// The day count that the astronomical arguments start from.
    pub fn dday(&self) -> (r: i32)
        requires
            self.wf(),
        ensures
            r == self.spec_dday(),
    {
        let x: i32 = self.year - 1902;
        let q: i32 = if x >= 0 { x / 4 } else { -((-x) / 4) };
        self.ordinal() as i32 + q - 1
    }

    /// The text `YYYY-MM-DD HH:MM:SS UTC`.
    pub fn to_text(&self) -> (r: String)
        requires
            self.wf(),
        ensures
            r@ == self.spec_text(),
    {
        let mut s = String::new();
        push_padded(&mut s, self.year as u64, 4);
        proof {
            reveal_strlit("-");
            reveal_strlit(":");
            reveal_strlit(" ");
            reveal_strlit(" UTC");
        }
        s.append("-");
        push_padded(&mut s, self.month as u64, 2);
        s.append("-");
        push_padded(&mut s, self.day as u64, 2);
        s.append(" ");
        push_padded(&mut s, self.hour as u64, 2);
        s.append(":");
        push_padded(&mut s, self.minute as u64, 2);
        s.append(":");
        push_padded(&mut s, self.second as u64, 2);
        s.append(" UTC");
        assert(s@ =~= self.spec_text());
        s
    }
}

fn is_leap_year(y: i32) -> (r: bool)
    ensures
        r == is_leap(y as int),
{
    y % 4 == 0 && (y % 100 != 0 || y % 400 == 0)
}

fn days_in_month_of(y: i32, m: u8) -> (r: i32)
    ensures
        r == days_in_month(y as int, m as int),
{
    if m == 2 {
        if is_leap_year(y) { 29 } else { 28 }
    } else if m == 4 || m == 6 || m == 9 || m == 11 {
        30
    } else {
        31
    }
}

/// The number of decimal digits of `n`.
fn decimal_len(n: u64) -> (r: u64)
    ensures
        r == decimal(n as nat).len(),
        r <= 20,
    decreases n,
{
    if n < 10 {
        1
    } else {
        let k = decimal_len(n / 10);
        proof {
            reveal_with_fuel(pow10, 20);
            assert(pow10(19) == 10000000000000000000nat);
            lemma_short_decimal(n / 10, 19);
        }
        k + 1
    }
}

/// A number below ten to the `k` has at most `k` digits.
proof fn lemma_short_decimal(n: u64, k: nat)
    requires
        1 <= k <= 19,
        (n as nat) < pow10(k),
    ensures
        decimal(n as nat).len() <= k,
    decreases k,
{
    if n >= 10 {
        reveal_with_fuel(pow10, 2);
        assert(pow10(1) == 10);
        let p = pow10((k - 1) as nat);
        assert(((n / 10) as nat) < p) by (nonlinear_arith)
            requires
                (n as nat) < 10 * p,
        ;
        if k == 1 {
            assert(false);
        }
        lemma_short_decimal(n / 10, (k - 1) as nat);
    }
}

/// Ten to the power `k`.
pub open spec fn pow10(k: nat) -> nat
    decreases k,
{
    if k == 0 { 1 } else { 10 * pow10((k - 1) as nat) }
}

fn push_padded(s: &mut String, n: u64, width: u64)
    requires
        width <= 4,
    ensures
        final(s)@ == old(s)@ + padded(n as nat, width as nat),
{
    let digits = decimal_len(n);
    let ghost before = s@;
    let mut k: u64 = digits;
    while k < width
        invariant
            digits == decimal(n as nat).len(),
            digits <= k,
            k <= width || k == digits,
            s@ == before + Seq::new((k - digits) as nat, |i: int| '0'),
        decreases width - k,
    {
        proof {
            reveal_strlit("0");
        }
        s.append("0");
        assert("0"@ =~= seq!['0']);
        assert(s@ =~= before + Seq::new((k + 1 - digits) as nat, |i: int| '0'));
        k = k + 1;
    }
    push_decimal(s, n);
    assert(s@ =~= before + padded(n as nat, width as nat));
}

} // verus!
