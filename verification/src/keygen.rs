//! Object key generation.
//!
//! A key is a high-resolution UTC timestamp rendered as
//! `YYYY-MM-DD_HH:MM:SS.mmm` followed by `.` and the target extension.
//! It is derived from the clock alone — no round trip to the object
//! store or the database — and collisions are accepted as negligibly
//! probable rather than detected.

use chrono::{Datelike, Timelike};
use vstd::prelude::*;
use vstd::string::StringExecFns;

verus! {

/// A UTC instant split into calendar and clock fields.
#[derive(Clone, Copy, Debug, PartialEq, Eq, Structural)]
pub struct TimeParts {
    pub year: u16,
    pub month: u8,
    pub day: u8,
    pub hour: u8,
    pub minute: u8,
    pub second: u8,
    pub milli: u16,
}

impl TimeParts {
    /// The field ranges the clock source guarantees. `milli` may reach
    /// 1999 during a leap second.
    pub open spec fn wf(self) -> bool {
        &&& 1 <= self.month <= 12
        &&& 1 <= self.day <= 31
        &&& self.hour <= 23
        &&& self.minute <= 59
        &&& self.second <= 59
        &&& self.milli <= 1999
    }
}

/// Relies on chrono: `Utc::now` read through the `Datelike` and
/// `Timelike` accessors, whose documentation bounds month to 1..=12,
/// day to 1..=31, hour to 0..=23, minute and second to 0..=59, and
/// `timestamp_subsec_millis` to at most 1999 (leap second).
/// The result depends on the wall clock, so nothing more is promised.
#[verifier::external_body]
pub fn now_utc_parts() -> (t: TimeParts)
    ensures
        t.wf(),
{
    let now = chrono::Utc::now();
    TimeParts {
        year: now.year() as u16,
        month: now.month() as u8,
        day: now.day() as u8,
        hour: now.hour() as u8,
        minute: now.minute() as u8,
        second: now.second() as u8,
        milli: now.timestamp_subsec_millis() as u16,
    }
}

/// The decimal digit character for `d` in 0..=9.
pub open spec fn digit_char(d: int) -> char {
    if d == 0 {
        '0'
    } else if d == 1 {
        '1'
    } else if d == 2 {
        '2'
    } else if d == 3 {
        '3'
    } else if d == 4 {
        '4'
    } else if d == 5 {
        '5'
    } else if d == 6 {
        '6'
    } else if d == 7 {
        '7'
    } else if d == 8 {
        '8'
    } else {
        '9'
    }
}

/// The low `width` decimal digits of `n`, most significant first,
/// zero-padded to exactly `width` characters.
pub open spec fn padded_decimal(n: int, width: nat) -> Seq<char>
    decreases width,
{
    if width == 0 {
        Seq::empty()
    } else {
        padded_decimal(n / 10, (width - 1) as nat).push(digit_char(n % 10))
    }
}

fn push_digit(out: &mut String, d: u16)
    requires
        d <= 9,
    ensures
        final(out)@ == old(out)@ + seq![digit_char(d as int)],
{
    proof {
        reveal_strlit("0");
        reveal_strlit("1");
        reveal_strlit("2");
        reveal_strlit("3");
        reveal_strlit("4");
        reveal_strlit("5");
        reveal_strlit("6");
        reveal_strlit("7");
        reveal_strlit("8");
        reveal_strlit("9");
    }
    if d == 0 {
        out.append("0");
    } else if d == 1 {
        out.append("1");
    } else if d == 2 {
        out.append("2");
    } else if d == 3 {
        out.append("3");
    } else if d == 4 {
        out.append("4");
    } else if d == 5 {
        out.append("5");
    } else if d == 6 {
        out.append("6");
    } else if d == 7 {
        out.append("7");
    } else if d == 8 {
        out.append("8");
    } else {
        out.append("9");
    }
}

/// Append `n` zero-padded to `width` digits.
fn push_padded(out: &mut String, n: u16, width: u8)
    ensures
        final(out)@ == old(out)@ + padded_decimal(n as int, width as nat),
    decreases width,
{
    if width == 0 {
        proof {
            assert(out@ =~= out@ + padded_decimal(n as int, 0));
        }
        return ;
    }
    push_padded(out, n / 10, width - 1);
    push_digit(out, n % 10);
    proof {
        assert(out@ =~= old(out)@ + padded_decimal(n as int, width as nat));
    }
}

/// 10 to the power `w`: the count of values a `w`-digit field can hold.
pub open spec fn pow10(w: nat) -> int
    decreases w,
{
    if w == 0 {
        1
    } else {
        10 * pow10((w - 1) as nat)
    }
}

pub proof fn lemma_pow10_pos(w: nat)
    ensures
        pow10(w) >= 1,
    decreases w,
{
    if w > 0 {
        lemma_pow10_pos((w - 1) as nat);
    }
}

pub proof fn lemma_padded_decimal_len(n: int, w: nat)
    ensures
        padded_decimal(n, w).len() == w,
    decreases w,
{
    if w > 0 {
        lemma_padded_decimal_len(n / 10, (w - 1) as nat);
    }
}

/// Two concatenations are equal piecewise once their left parts have
/// the same length.
proof fn lemma_concat_parts_equal(a1: Seq<char>, b1: Seq<char>, a2: Seq<char>, b2: Seq<char>)
    requires
        a1.len() == a2.len(),
        a1 + b1 == a2 + b2,
    ensures
        a1 == a2,
        b1 == b2,
{
    assert(a1 =~= a2) by {
        assert forall|i: int| 0 <= i < a1.len() implies a1[i] == a2[i] by {
            assert((a1 + b1)[i] == a1[i]);
            assert((a2 + b2)[i] == a2[i]);
        }
    }
    assert((a1 + b1).len() == a1.len() + b1.len());
    assert((a2 + b2).len() == a2.len() + b2.len());
    assert(b1.len() == b2.len());
    assert(b1 =~= b2) by {
        assert forall|i: int| 0 <= i < b1.len() implies b1[i] == b2[i] by {
            assert(i < b2.len());
            assert((a1 + b1)[a1.len() + i] == b1[i]);
            assert((a2 + b2)[a2.len() + i] == b2[i]);
        }
    }
}

proof fn lemma_digit_char_injective(a: int, b: int)
    requires
        0 <= a <= 9,
        0 <= b <= 9,
        digit_char(a) == digit_char(b),
    ensures
        a == b,
{
}

/// Zero-padded rendering is injective on values that fit the width.
pub proof fn lemma_padded_decimal_injective(a: int, b: int, w: nat)
    requires
        0 <= a < pow10(w),
        0 <= b < pow10(w),
        padded_decimal(a, w) == padded_decimal(b, w),
    ensures
        a == b,
    decreases w,
{
    if w == 0 {
    } else {
        let pa = padded_decimal(a / 10, (w - 1) as nat);
        let pb = padded_decimal(b / 10, (w - 1) as nat);
        lemma_padded_decimal_len(a / 10, (w - 1) as nat);
        lemma_padded_decimal_len(b / 10, (w - 1) as nat);
        assert(pa.push(digit_char(a % 10)) == pb.push(digit_char(b % 10)));
        assert(pa.push(digit_char(a % 10)).last() == digit_char(a % 10));
        assert(pb.push(digit_char(b % 10)).last() == digit_char(b % 10));
        lemma_digit_char_injective(a % 10, b % 10);
        assert(pa =~= pa.push(digit_char(a % 10)).drop_last());
        assert(pb =~= pb.push(digit_char(b % 10)).drop_last());
        lemma_pow10_pos((w - 1) as nat);
        assert(a / 10 < pow10((w - 1) as nat)) by {
            if a / 10 >= pow10((w - 1) as nat) {
                assert(a >= 10 * pow10((w - 1) as nat)) by (nonlinear_arith)
                    requires
                        a / 10 >= pow10((w - 1) as nat),
                        a >= 0,
                ;
            }
        }
        assert(b / 10 < pow10((w - 1) as nat)) by {
            if b / 10 >= pow10((w - 1) as nat) {
                assert(b >= 10 * pow10((w - 1) as nat)) by (nonlinear_arith)
                    requires
                        b / 10 >= pow10((w - 1) as nat),
                        b >= 0,
                ;
            }
        }
        lemma_padded_decimal_injective(a / 10, b / 10, (w - 1) as nat);
    }
}

/// Milliseconds clamped into 0..=999 so that the fractional part of a
/// key always has exactly three digits, leap second included.
pub open spec fn clamped_milli(t: TimeParts) -> int {
    if t.milli > 999 {
        999
    } else {
        t.milli as int
    }
}

/// The object key for an instant and an extension:
/// `YYYY-MM-DD_HH:MM:SS.mmm` + `.` + `ext`.
pub open spec fn object_key_spec(t: TimeParts, ext: Seq<char>) -> Seq<char> {
    padded_decimal(t.year as int, 4) + seq!['-'] + padded_decimal(t.month as int, 2) + seq!['-']
        + padded_decimal(t.day as int, 2) + seq!['_'] + padded_decimal(t.hour as int, 2)
        + seq![':'] + padded_decimal(t.minute as int, 2) + seq![':'] + padded_decimal(
        t.second as int,
        2,
    ) + seq!['.'] + padded_decimal(clamped_milli(t), 3) + seq!['.'] + ext
}

/// The key determines the instant: two well-formed instants of the
/// same calendar range produce the same key only if they are equal, so
/// within this process keys collide only when the clock reads the very
/// same millisecond. This is the precision behind treating collisions
/// as negligible rather than detecting them.
pub proof fn lemma_object_key_injective(t1: TimeParts, t2: TimeParts, ext: Seq<char>)
    requires
        t1.wf(),
        t2.wf(),
        t1.milli <= 999,
        t2.milli <= 999,
        t1.year <= 9999,
        t2.year <= 9999,
        object_key_spec(t1, ext) == object_key_spec(t2, ext),
    ensures
        t1 == t2,
{
    reveal_with_fuel(pow10, 5);
    let a_y = padded_decimal(t1.year as int, 4);
    let a_mo = padded_decimal(t1.month as int, 2);
    let a_d = padded_decimal(t1.day as int, 2);
    let a_h = padded_decimal(t1.hour as int, 2);
    let a_mi = padded_decimal(t1.minute as int, 2);
    let a_s = padded_decimal(t1.second as int, 2);
    let a_ms = padded_decimal(clamped_milli(t1), 3);
    let b_y = padded_decimal(t2.year as int, 4);
    let b_mo = padded_decimal(t2.month as int, 2);
    let b_d = padded_decimal(t2.day as int, 2);
    let b_h = padded_decimal(t2.hour as int, 2);
    let b_mi = padded_decimal(t2.minute as int, 2);
    let b_s = padded_decimal(t2.second as int, 2);
    let b_ms = padded_decimal(clamped_milli(t2), 3);
    lemma_padded_decimal_len(t1.year as int, 4);
    lemma_padded_decimal_len(t1.month as int, 2);
    lemma_padded_decimal_len(t1.day as int, 2);
    lemma_padded_decimal_len(t1.hour as int, 2);
    lemma_padded_decimal_len(t1.minute as int, 2);
    lemma_padded_decimal_len(t1.second as int, 2);
    lemma_padded_decimal_len(clamped_milli(t1), 3);
    lemma_padded_decimal_len(t2.year as int, 4);
    lemma_padded_decimal_len(t2.month as int, 2);
    lemma_padded_decimal_len(t2.day as int, 2);
    lemma_padded_decimal_len(t2.hour as int, 2);
    lemma_padded_decimal_len(t2.minute as int, 2);
    lemma_padded_decimal_len(t2.second as int, 2);
    lemma_padded_decimal_len(clamped_milli(t2), 3);
    let a13 = a_y + seq!['-'] + a_mo + seq!['-'] + a_d + seq!['_'] + a_h + seq![':'] + a_mi
        + seq![':'] + a_s + seq!['.'] + a_ms;
    let b13 = b_y + seq!['-'] + b_mo + seq!['-'] + b_d + seq!['_'] + b_h + seq![':'] + b_mi
        + seq![':'] + b_s + seq!['.'] + b_ms;
    lemma_concat_parts_equal(a13 + seq!['.'], ext, b13 + seq!['.'], ext);
    lemma_concat_parts_equal(a13, seq!['.'], b13, seq!['.']);
    let a11 = a_y + seq!['-'] + a_mo + seq!['-'] + a_d + seq!['_'] + a_h + seq![':'] + a_mi
        + seq![':'] + a_s;
    let b11 = b_y + seq!['-'] + b_mo + seq!['-'] + b_d + seq!['_'] + b_h + seq![':'] + b_mi
        + seq![':'] + b_s;
    lemma_concat_parts_equal(a11 + seq!['.'], a_ms, b11 + seq!['.'], b_ms);
    lemma_concat_parts_equal(a11, seq!['.'], b11, seq!['.']);
    let a9 = a_y + seq!['-'] + a_mo + seq!['-'] + a_d + seq!['_'] + a_h + seq![':'] + a_mi;
    let b9 = b_y + seq!['-'] + b_mo + seq!['-'] + b_d + seq!['_'] + b_h + seq![':'] + b_mi;
    lemma_concat_parts_equal(a9 + seq![':'], a_s, b9 + seq![':'], b_s);
    lemma_concat_parts_equal(a9, seq![':'], b9, seq![':']);
    let a7 = a_y + seq!['-'] + a_mo + seq!['-'] + a_d + seq!['_'] + a_h;
    let b7 = b_y + seq!['-'] + b_mo + seq!['-'] + b_d + seq!['_'] + b_h;
    lemma_concat_parts_equal(a7 + seq![':'], a_mi, b7 + seq![':'], b_mi);
    lemma_concat_parts_equal(a7, seq![':'], b7, seq![':']);
    let a5 = a_y + seq!['-'] + a_mo + seq!['-'] + a_d;
    let b5 = b_y + seq!['-'] + b_mo + seq!['-'] + b_d;
    lemma_concat_parts_equal(a5 + seq!['_'], a_h, b5 + seq!['_'], b_h);
    lemma_concat_parts_equal(a5, seq!['_'], b5, seq!['_']);
    let a3 = a_y + seq!['-'] + a_mo;
    let b3 = b_y + seq!['-'] + b_mo;
    lemma_concat_parts_equal(a3 + seq!['-'], a_d, b3 + seq!['-'], b_d);
    lemma_concat_parts_equal(a3, seq!['-'], b3, seq!['-']);
    lemma_concat_parts_equal(a_y + seq!['-'], a_mo, b_y + seq!['-'], b_mo);
    lemma_concat_parts_equal(a_y, seq!['-'], b_y, seq!['-']);
    lemma_padded_decimal_injective(t1.year as int, t2.year as int, 4);
    lemma_padded_decimal_injective(t1.month as int, t2.month as int, 2);
    lemma_padded_decimal_injective(t1.day as int, t2.day as int, 2);
    lemma_padded_decimal_injective(t1.hour as int, t2.hour as int, 2);
    lemma_padded_decimal_injective(t1.minute as int, t2.minute as int, 2);
    lemma_padded_decimal_injective(t1.second as int, t2.second as int, 2);
    lemma_padded_decimal_injective(clamped_milli(t1), clamped_milli(t2), 3);
}

/// Render the object key for instant `t` with extension `ext`.
pub fn make_object_key(t: &TimeParts, ext: &str) -> (key: String)
    ensures
        key@ == object_key_spec(*t, ext@),
{
    proof {
        reveal_strlit("-");
        reveal_strlit("_");
        reveal_strlit(":");
        reveal_strlit(".");
    }
    let mut key = String::new();
    push_padded(&mut key, t.year, 4);
    key.append("-");
    push_padded(&mut key, t.month as u16, 2);
    key.append("-");
    push_padded(&mut key, t.day as u16, 2);
    key.append("_");
    push_padded(&mut key, t.hour as u16, 2);
    key.append(":");
    push_padded(&mut key, t.minute as u16, 2);
    key.append(":");
    push_padded(&mut key, t.second as u16, 2);
    key.append(".");
    let ms: u16 = if t.milli > 999 {
        999
    } else {
        t.milli
    };
    push_padded(&mut key, ms, 3);
    key.append(".");
    key.append(ext);
    proof {
        assert(key@ =~= object_key_spec(*t, ext@));
    }
    key
}

} // verus!
