use vstd::prelude::*;
use vstd::arithmetic::div_mod::{
    lemma_div_is_ordered, lemma_div_is_ordered_by_denominator, lemma_fundamental_div_mod,
    lemma_mod_bound,
};
use vstd::arithmetic::mul::lemma_mul_inequality;

verus! {

/// A file size is humanized with one of these units, in increasing order of
/// magnitude; the formatter never goes beyond `TB`.
#[derive(Clone, Copy, PartialEq, Eq, Structural, Debug)]
pub enum FileSizeUnit {
    B,
    KB,
    MB,
    GB,
    TB,
}

/// The character for a single decimal digit.
pub open spec fn dec_digit_char(d: nat) -> char {
    if d == 0 {
        '0'
    } else if d == 1 {
        '1'
    } else if d == 2 {
        '2'
    } else if d == 3 {
        '3'
    } else if d == 4 {
        '4'
    } else if d == 5 {
        '5'
    } else if d == 6 {
        '6'
    } else if d == 7 {
        '7'
    } else if d == 8 {
        '8'
    } else {
        '9'
    }
}

/// The decimal rendering of a natural number, most significant digit first,
/// with no leading zeros (a lone zero for 0).
pub open spec fn dec_digits(n: nat) -> Seq<char>
    decreases n,
{
    if n < 10 {
        seq![dec_digit_char(n)]
    } else {
        dec_digits(n / 10) + seq![dec_digit_char(n % 10)]
    }
}

fn digit_str(d: u64) -> (r: &'static str)
    requires
        d < 10,
    ensures
        r@ == seq![dec_digit_char(d as nat)],
{
    proof {
        reveal_strlit("0");
        reveal_strlit("1");
        reveal_strlit("2");
        reveal_strlit("3");
        reveal_strlit("4");
        reveal_strlit("5");
        reveal_strlit("6");
        reveal_strlit("7");
        reveal_strlit("8");
        reveal_strlit("9");
    }
    let r: &'static str = if d == 0 {
        "0"
    } else if d == 1 {
        "1"
    } else if d == 2 {
        "2"
    } else if d == 3 {
        "3"
    } else if d == 4 {
        "4"
    } else if d == 5 {
        "5"
    } else if d == 6 {
        "6"
    } else if d == 7 {
        "7"
    } else if d == 8 {
        "8"
    } else {
        "9"
    };
    proof {
        assert(r@ =~= seq![dec_digit_char(d as nat)]);
    }
    r
}

/// Renders a number in decimal.
pub fn u64_to_string(n: u64) -> (r: String)
    ensures
        r@ == dec_digits(n as nat),
    decreases n,
{
    if n < 10 {
        let r = String::from_str(digit_str(n));
        proof {
            assert(r@ =~= dec_digits(n as nat));
        }
        r
    } else {
        let mut r = u64_to_string(n / 10);
        r.append(digit_str(n % 10));
        proof {
            assert(r@ =~= dec_digits(n as nat));
        }
        r
    }
}

/// The k-th power of 1024: the number of bytes one step of the unit ladder
/// stands for.
pub open spec fn pow1024(k: nat) -> nat
    decreases k,
{
    if k == 0 {
        1
    } else {
        1024 * pow1024((k - 1) as nat)
    }
}

proof fn lemma_pow1024_values()
    ensures
        pow1024(0) == 1,
        pow1024(1) == 1024,
        pow1024(2) == 1048576,
        pow1024(3) == 1073741824,
        pow1024(4) == 1099511627776,
{
    assert(pow1024(0) == 1);
    assert(pow1024(1) == 1024 * pow1024(0));
    assert(pow1024(2) == 1024 * pow1024(1));
    assert(pow1024(3) == 1024 * pow1024(2));
    assert(pow1024(4) == 1024 * pow1024(3));
}

/// Which rung of the unit ladder a byte count is rendered with: the largest
/// index whose power of 1024 does not exceed the count, capped at the `TB`
/// rung.
pub open spec fn unit_index(b: nat) -> nat {
    if b < pow1024(1) {
        0
    } else if b < pow1024(2) {
        1
    } else if b < pow1024(3) {
        2
    } else if b < pow1024(4) {
        3
    } else {
        4
    }
}

/// The unit at a given rung of the ladder.
pub open spec fn unit_of_index(k: nat) -> FileSizeUnit {
    if k == 0 {
        FileSizeUnit::B
    } else if k == 1 {
        FileSizeUnit::KB
    } else if k == 2 {
        FileSizeUnit::MB
    } else if k == 3 {
        FileSizeUnit::GB
    } else {
        FileSizeUnit::TB
    }
}

/// The label a unit is printed with.
pub open spec fn unit_chars(u: FileSizeUnit) -> Seq<char> {
    match u {
        FileSizeUnit::B => seq!['B'],
        FileSizeUnit::KB => seq!['K', 'B'],
        FileSizeUnit::MB => seq!['M', 'B'],
        FileSizeUnit::GB => seq!['G', 'B'],
        FileSizeUnit::TB => seq!['T', 'B'],
    }
}

/// A byte count scaled to the unit at rung `k`, as hundredths, rounded to the
/// nearest (half away from zero).
pub open spec fn scaled_centi(b: nat, k: nat) -> nat {
    (100 * b + pow1024(k) / 2) / pow1024(k)
}

/// The two digits printed after the decimal point.
pub open spec fn two_frac_digits(f: nat) -> Seq<char> {
    seq![dec_digit_char(f / 10), dec_digit_char(f % 10)]
}

/// The humanized rendering of a byte count: the bare count and `B` below
/// 1024, otherwise the count scaled to its unit with exactly two decimal
/// places.
pub open spec fn file_size_view(b: nat) -> Seq<char> {
    let k = unit_index(b);
    if k == 0 {
        dec_digits(b) + seq![' '] + unit_chars(FileSizeUnit::B)
    } else {
        let c = scaled_centi(b, k);
        dec_digits(c / 100) + seq!['.'] + two_frac_digits(c % 100) + seq![' '] + unit_chars(
            unit_of_index(k),
        )
    }
}

/// The unit is `B` exactly for counts under 1024; above that the chosen rung
/// is the largest whose power of 1024 fits into the count, and (short of the
/// `TB` cap) the count scaled by that rung stays under 1024. The ladder never
/// goes past `TB`.
pub proof fn lemma_unit_selection(b: nat)
    ensures
        (unit_index(b) == 0) <==> (b < 1024),
        unit_index(b) <= 4,
        unit_index(b) > 0 ==> b >= pow1024(unit_index(b)),
        unit_index(b) < 4 ==> b < 1024 * pow1024(unit_index(b)),
{
    lemma_pow1024_values();
}

/// The label a `FileSizeUnit` is printed with.
pub fn unit_label(u: FileSizeUnit) -> (r: &'static str)
    ensures
        r@ == unit_chars(u),
{
    proof {
        reveal_strlit("B");
        reveal_strlit("KB");
        reveal_strlit("MB");
        reveal_strlit("GB");
        reveal_strlit("TB");
    }
    let r: &'static str = match u {
        FileSizeUnit::B => "B",
        FileSizeUnit::KB => "KB",
        FileSizeUnit::MB => "MB",
        FileSizeUnit::GB => "GB",
        FileSizeUnit::TB => "TB",
    };
    proof {
        assert(r@ =~= unit_chars(u));
    }
    r
}

/// The rung of the unit ladder for a byte count, together with the power of
/// 1024 it stands for.
fn size_scale(bytes: u64) -> (r: (u64, u64))
    ensures
        r.0 == unit_index(bytes as nat),
        r.1 == pow1024(r.0 as nat),
{
    proof {
        lemma_pow1024_values();
    }
    let mut k: u64 = 0;
    let mut d: u64 = 1;
    while k < 4 && bytes / d >= 1024
        invariant
            k <= 4,
            1 <= d,
            d == pow1024(k as nat),
            k > 0 ==> bytes >= pow1024(k as nat),
        decreases 4 - k,
    {
        proof {
            lemma_pow1024_values();
            lemma_fundamental_div_mod(bytes as int, d as int);
            lemma_mod_bound(bytes as int, d as int);
            lemma_mul_inequality(1024, bytes as int / d as int, d as int);
        }
        d = d * 1024;
        k = k + 1;
    }
    proof {
        lemma_pow1024_values();
        if k < 4 {
            lemma_fundamental_div_mod(bytes as int, d as int);
            lemma_mod_bound(bytes as int, d as int);
            lemma_mul_inequality(bytes as int / d as int, 1023, d as int);
        }
    }
    (k, d)
}

/// The unit `format_file_size` renders a byte count with.
pub fn file_size_unit(bytes: u64) -> (u: FileSizeUnit)
    ensures
        u == unit_of_index(unit_index(bytes as nat)),
{
    let (k, _d) = size_scale(bytes);
    if k == 0 {
        FileSizeUnit::B
    } else if k == 1 {
        FileSizeUnit::KB
    } else if k == 2 {
        FileSizeUnit::MB
    } else if k == 3 {
        FileSizeUnit::GB
    } else {
        FileSizeUnit::TB
    }
}

/// Humanizes a byte count: counts under 1024 are printed whole with unit `B`;
/// larger counts are scaled to the largest fitting unit, up to `TB`, and
/// printed with exactly two decimal places.
pub fn format_file_size(bytes: u64) -> (r: String)
    ensures
        r@ == file_size_view(bytes as nat),
{
    proof {
        reveal_strlit(".");
        reveal_strlit(" ");
    }
    let (k, d) = size_scale(bytes);
    if k == 0 {
        let mut r = u64_to_string(bytes);
        r.append(" ");
        r.append(unit_label(FileSizeUnit::B));
        proof {
            assert(" "@ =~= seq![' ']);
            assert(r@ =~= file_size_view(bytes as nat));
        }
        r
    } else {
        proof {
            lemma_pow1024_values();
        }
        let d128: u128 = d as u128;
        let a128: u128 = (bytes as u128) * 100 + d128 / 2;
        let c128: u128 = a128 / d128;
        proof {
            lemma_div_is_ordered_by_denominator(a128 as int, 1024, d as int);
            lemma_div_is_ordered(a128 as int, 100 * 0xffff_ffff_ffff_ffffu64 as int + 0x80_0000_0000, 1024);
        }
        let c: u64 = c128 as u64;
        let whole: u64 = c / 100;
        let frac: u64 = c % 100;
        let mut r = u64_to_string(whole);
        r.append(".");
        r.append(digit_str(frac / 10));
        r.append(digit_str(frac % 10));
        r.append(" ");
        r.append(unit_label(file_size_unit(bytes)));
        proof {
            assert(c == scaled_centi(bytes as nat, k as nat));
            assert("."@ =~= seq!['.']);
            assert(" "@ =~= seq![' ']);
            assert(r@ =~= file_size_view(bytes as nat));
        }
        r
    }
}

} // verus!
