use vstd::prelude::*;
use chrono::{Datelike, Timelike};
use crate::paths::ends_with;
use crate::sizefmt::{dec_digits, u64_to_string};

verus! {

/// A number rendered with at least two digits, zero-padded.
pub open spec fn padded2(n: nat) -> Seq<char> {
    if n < 10 {
        seq!['0'] + dec_digits(n)
    } else {
        dec_digits(n)
    }
}

/// A number rendered with at least four digits, zero-padded.
pub open spec fn padded4(n: nat) -> Seq<char> {
    if n < 10 {
        seq!['0', '0', '0'] + dec_digits(n)
    } else if n < 100 {
        seq!['0', '0'] + dec_digits(n)
    } else if n < 1000 {
        seq!['0'] + dec_digits(n)
    } else {
        dec_digits(n)
    }
}

/// A year rendered to at least four digits, with a sign for years before 0.
pub open spec fn year_chars(y: int) -> Seq<char> {
    if y < 0 {
        seq!['-'] + padded4((-y) as nat)
    } else {
        padded4(y as nat)
    }
}

/// A moment in UTC rendered as `YYYY-MM-DD HH:MM:SS UTC`.
pub open spec fn timestamp_view(y: int, mo: nat, d: nat, h: nat, mi: nat, s: nat) -> Seq<char> {
    year_chars(y) + seq!['-'] + padded2(mo) + seq!['-'] + padded2(d) + seq![' '] + padded2(h)
        + seq![':'] + padded2(mi) + seq![':'] + padded2(s) + " UTC"@
}

fn two_digit_string(n: u64) -> (r: String)
    ensures
        r@ == padded2(n as nat),
{
    if n < 10 {
        proof {
            reveal_strlit("0");
        }
        let mut r = String::from_str("0");
        let digits = u64_to_string(n);
        r.append(digits.as_str());
        proof {
            assert(r@ =~= padded2(n as nat));
        }
        r
    } else {
        u64_to_string(n)
    }
}

fn four_digit_string(n: u64) -> (r: String)
    ensures
        r@ == padded4(n as nat),
{
    proof {
        reveal_strlit("000");
        reveal_strlit("00");
        reveal_strlit("0");
    }
    let pad: &'static str = if n < 10 {
        "000"
    } else if n < 100 {
        "00"
    } else if n < 1000 {
        "0"
    } else {
        ""
    };
    let mut r = String::from_str(pad);
    let digits = u64_to_string(n);
    r.append(digits.as_str());
    proof {
        reveal_strlit("");
        assert(r@ =~= padded4(n as nat));
    }
    r
}

fn year_string(y: i32) -> (r: String)
    ensures
        r@ == year_chars(y as int),
{
    if y < 0 {
        proof {
            reveal_strlit("-");
        }
        let mut r = String::from_str("-");
        let m: u64 = (-(y as i64)) as u64;
        let digits = four_digit_string(m);
        r.append(digits.as_str());
        proof {
            assert(r@ =~= year_chars(y as int));
        }
        r
    } else {
        four_digit_string(y as u64)
    }
}

/// Renders one moment's calendar fields as `YYYY-MM-DD HH:MM:SS UTC`.
pub fn render_timestamp(year: i32, month: u32, day: u32, hour: u32, minute: u32, second: u32) -> (r:
    String)
    ensures
        r@ == timestamp_view(
            year as int,
            month as nat,
            day as nat,
            hour as nat,
            minute as nat,
            second as nat,
        ),
{
    proof {
        reveal_strlit("-");
        reveal_strlit(" ");
        reveal_strlit(":");
    }
    let mut r = year_string(year);
    let mo = two_digit_string(month as u64);
    let d = two_digit_string(day as u64);
    let h = two_digit_string(hour as u64);
    let mi = two_digit_string(minute as u64);
    let s = two_digit_string(second as u64);
    r.append("-");
    r.append(mo.as_str());
    r.append("-");
    r.append(d.as_str());
    r.append(" ");
    r.append(h.as_str());
    r.append(":");
    r.append(mi.as_str());
    r.append(":");
    r.append(s.as_str());
    r.append(" UTC");
    proof {
        assert(r@ =~= timestamp_view(
            year as int,
            month as nat,
            day as nat,
            hour as nat,
            minute as nat,
            second as nat,
        ));
    }
    r
}

/// Relies on chrono's `Utc::now` and its `Datelike`/`Timelike` accessors:
/// the current UTC moment's calendar fields. As chrono documents, the month
/// is 1 to 12, the day of month 1 to 31, the hour 0 to 23, and the minute
/// and second 0 to 59; the moment itself depends on the host clock, so
/// nothing more is claimed.
#[verifier::external_body]
fn utc_now_fields() -> (r: (i32, u32, u32, u32, u32, u32))
    ensures
        1 <= r.1 <= 12,
        1 <= r.2 <= 31,
        r.3 <= 23,
        r.4 <= 59,
        r.5 <= 59,
{
    let now = chrono::Utc::now();
    (now.year(), now.month(), now.day(), now.hour(), now.minute(), now.second())
}

/// The current UTC time rendered as `YYYY-MM-DD HH:MM:SS UTC`. The moment
/// comes from the host clock, so the contract fixes only the rendering: the
/// result is the timestamp rendering of some in-range calendar fields, and
/// always carries the ` UTC` tail.
pub fn get_timestamp() -> (r: String)
    ensures
        exists|y: int, mo: nat, d: nat, h: nat, mi: nat, s: nat|
            1 <= mo <= 12 && 1 <= d <= 31 && h <= 23 && mi <= 59 && s <= 59 && r@
                == timestamp_view(y, mo, d, h, mi, s),
        ends_with(r@, " UTC"@),
{
    let (y, mo, d, h, mi, s) = utc_now_fields();
    let r = render_timestamp(y, mo, d, h, mi, s);
    proof {
        assert(1 <= mo as nat <= 12 && 1 <= d as nat <= 31 && h as nat <= 23 && mi as nat <= 59
            && s as nat <= 59 && r@ == timestamp_view(
            y as int,
            mo as nat,
            d as nat,
            h as nat,
            mi as nat,
            s as nat,
        ));
        assert(r@.subrange(r@.len() - " UTC"@.len(), r@.len() as int) =~= " UTC"@);
    }
    r
}

} // verus!
