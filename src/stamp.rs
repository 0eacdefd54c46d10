use vstd::prelude::*;
use vstd::string::*;

use chrono::{Datelike, Timelike};

verus! {

/// A UTC moment to the second, in the proleptic Gregorian calendar.
pub struct Timestamp {
    pub year: i32,
    pub month: u32,
    pub day: u32,
    pub hour: u32,
    pub minute: u32,
    pub second: u32,
}

pub open spec fn digit(d: int) -> char {
    "0123456789"@[d]
}

/// The last `w` decimal digits of `n`, zeros in front.
pub open spec fn fixed(n: nat, w: nat) -> Seq<char>
    decreases w,
{
    if w == 0 {
        Seq::empty()
    } else {
        fixed(n / 10, (w - 1) as nat).push(digit((n % 10) as int))
    }
}

/// A year at least four digits wide; outside `0..=9999` it carries its sign.
pub open spec fn year_text(y: int) -> Seq<char> {
    if 0 <= y <= 9999 {
        fixed(y as nat, 4)
    } else {
        let a = if y < 0 { -y } else { y };
        let sign = if y < 0 { '-' } else { '+' };
        let w: nat = if a < 10000 { 4 } else if a < 100000 { 5 } else { 6 };
        seq![sign] + fixed(a as nat, w)
    }
}

impl Timestamp {
    /// The calendar's bounds, and the year range that the clock can give.
    pub open spec fn wf(&self) -> bool {
        -262144 <= self.year <= 262143 && 1 <= self.month <= 12 && 1 <= self.day <= 31
            && self.hour < 24 && self.minute < 60 && self.second < 60
    }

    /// `YYYY-MM-DDTHH-MM-SS`.
    pub open spec fn text(&self) -> Seq<char> {
        year_text(self.year as int) + seq!['-'] + fixed(self.month as nat, 2) + seq!['-']
            + fixed(self.day as nat, 2) + seq!['T'] + fixed(self.hour as nat, 2) + seq!['-']
            + fixed(self.minute as nat, 2) + seq!['-'] + fixed(self.second as nat, 2)
    }
}

fn push_digit(s: &mut String, d: u32)
    requires
        d < 10,
    ensures
        final(s)@ == old(s)@.push(digit(d as int)),
{
    proof {
        reveal_strlit("0123456789");
    }
    let t = "0123456789".substring_char(d as usize, d as usize + 1);
    assert(t@ =~= seq![digit(d as int)]);
    s.append(t);
}

fn push_fixed(s: &mut String, n: u32, w: u32)
    ensures
        final(s)@ == old(s)@ + fixed(n as nat, w as nat),
    decreases w,
{
    if w > 0 {
        push_fixed(s, n / 10, w - 1);
        push_digit(s, n % 10);
        assert(final(s)@ =~= old(s)@ + fixed(n as nat, w as nat));
    } else {
        assert(final(s)@ =~= old(s)@ + fixed(n as nat, w as nat));
    }
}

fn push_char(s: &mut String, c: &str)
    requires
        c@.len() == 1,
    ensures
        final(s)@ == old(s)@.push(c@[0]),
{
    s.append(c);
    assert(final(s)@ =~= old(s)@.push(c@[0]));
}

/// Relies on chrono's `From<SystemTime> for DateTime<Utc>` (also for times
/// before the Unix epoch), applied to std's `SystemTime::now`, and on the ranges that its `Datelike` and
/// `Timelike` accessors document (a year within `NaiveDate`'s bounds, a month
/// from 1, a day from 1, a second below 60).
#[verifier::external_body]
pub(crate) fn now_utc() -> (r: Timestamp)
    ensures
        r.wf(),
{
    let t = chrono::DateTime::<chrono::Utc>::from(std::time::SystemTime::now());
    Timestamp {
        year: t.year(),
        month: t.month(),
        day: t.day(),
        hour: t.hour(),
        minute: t.minute(),
        second: t.second(),
    }
}

impl Timestamp {
    /// The timestamp as it appears in result file names.
    pub fn to_text(&self) -> (r: String)
        requires
            self.wf(),
        ensures
            r@ == self.text(),
    {
        proof {
            reveal_strlit("-");
            reveal_strlit("+");
            reveal_strlit("T");
        }
        let mut s = String::new();
        let y = self.year;
        if 0 <= y && y <= 9999 {
            push_fixed(&mut s, y as u32, 4);
        } else {
            let a: u32 = if y < 0 { (-y) as u32 } else { y as u32 };
            if y < 0 {
                push_char(&mut s, "-");
            } else {
                push_char(&mut s, "+");
            }
            let w: u32 = if a < 10000 { 4 } else if a < 100000 { 5 } else { 6 };
            push_fixed(&mut s, a, w);
        }
        assert(s@ =~= year_text(self.year as int));
        push_char(&mut s, "-");
        push_fixed(&mut s, self.month, 2);
        push_char(&mut s, "-");
        push_fixed(&mut s, self.day, 2);
        push_char(&mut s, "T");
        push_fixed(&mut s, self.hour, 2);
        push_char(&mut s, "-");
        push_fixed(&mut s, self.minute, 2);
        push_char(&mut s, "-");
        push_fixed(&mut s, self.second, 2);
        assert(s@ =~= self.text());
        s
    }
}

} // verus!
