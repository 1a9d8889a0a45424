//! Rendering integers as decimal strings, exactly as the standard formatter
//! writes them, together with the law that joining a seconds part and a
//! zero-padded three-digit millisecond part yields the decimal digits of the
//! combined epoch-millisecond value.

use vstd::prelude::*;
use vstd::arithmetic::div_mod::lemma_div_denominator;
use vstd::arithmetic::div_mod::lemma_fundamental_div_mod_converse;
use vstd::string::StringExecFns;

verus! {

/// The character for one decimal digit.
pub open spec fn dec_digit(d: int) -> char
    recommends
        0 <= d < 10,
{
    ((d + 48) as u8) as char
}

/// The decimal digits of a non-negative integer, most significant first.
pub open spec fn spec_udec(n: nat) -> Seq<char>
    decreases n,
{
    if n < 10 {
        seq![dec_digit(n as int)]
    } else {
        spec_udec(n / 10) + seq![dec_digit((n % 10) as int)]
    }
}

/// The decimal rendering of an integer, with a leading minus sign when negative.
pub open spec fn spec_idec(n: int) -> Seq<char> {
    if n < 0 {
        seq!['-'] + spec_udec((-n) as nat)
    } else {
        spec_udec(n as nat)
    }
}

/// The decimal digits of `m`, padded with zeros on the left to at least three
/// places, as the width-three zero-padding formatter writes a non-negative value.
pub open spec fn spec_pad3(m: int) -> Seq<char>
    recommends
        0 <= m,
{
    if m < 10 {
        seq!['0', '0'] + spec_udec(m as nat)
    } else if m < 100 {
        seq!['0'] + spec_udec(m as nat)
    } else {
        spec_udec(m as nat)
    }
}

/// Appends the character for one decimal digit.
fn append_digit(out: &mut String, d: u64)
    requires
        d < 10,
    ensures
        final(out)@ == old(out)@ + seq![dec_digit(d as int)],
{
    if d == 0 {
        out.append("0");
        proof {
            reveal_strlit("0");
            assert(old(out)@ + "0"@ =~= old(out)@ + seq![dec_digit(0)]);
        }
    } else if d == 1 {
        out.append("1");
        proof {
            reveal_strlit("1");
            assert(old(out)@ + "1"@ =~= old(out)@ + seq![dec_digit(1)]);
        }
    } else if d == 2 {
        out.append("2");
        proof {
            reveal_strlit("2");
            assert(old(out)@ + "2"@ =~= old(out)@ + seq![dec_digit(2)]);
        }
    } else if d == 3 {
        out.append("3");
        proof {
            reveal_strlit("3");
            assert(old(out)@ + "3"@ =~= old(out)@ + seq![dec_digit(3)]);
        }
    } else if d == 4 {
        out.append("4");
        proof {
            reveal_strlit("4");
            assert(old(out)@ + "4"@ =~= old(out)@ + seq![dec_digit(4)]);
        }
    } else if d == 5 {
        out.append("5");
        proof {
            reveal_strlit("5");
            assert(old(out)@ + "5"@ =~= old(out)@ + seq![dec_digit(5)]);
        }
    } else if d == 6 {
        out.append("6");
        proof {
            reveal_strlit("6");
            assert(old(out)@ + "6"@ =~= old(out)@ + seq![dec_digit(6)]);
        }
    } else if d == 7 {
        out.append("7");
        proof {
            reveal_strlit("7");
            assert(old(out)@ + "7"@ =~= old(out)@ + seq![dec_digit(7)]);
        }
    } else if d == 8 {
        out.append("8");
        proof {
            reveal_strlit("8");
            assert(old(out)@ + "8"@ =~= old(out)@ + seq![dec_digit(8)]);
        }
    } else {
        out.append("9");
        proof {
            reveal_strlit("9");
            assert(old(out)@ + "9"@ =~= old(out)@ + seq![dec_digit(9)]);
        }
    }
}

/// Appends the decimal digits of `n`.
pub fn append_u64_dec(out: &mut String, n: u64)
    ensures
        final(out)@ == old(out)@ + spec_udec(n as nat),
    decreases n,
{
    if n >= 10 {
        append_u64_dec(out, n / 10);
        append_digit(out, n % 10);
        proof {
            assert(old(out)@ + spec_udec((n / 10) as nat) + seq![dec_digit((n % 10) as int)]
                =~= old(out)@ + spec_udec(n as nat));
        }
    } else {
        append_digit(out, n);
    }
}

/// The decimal rendering of a signed 64-bit integer.
pub fn i64_to_dec_string(n: i64) -> (r: String)
    ensures
        r@ == spec_idec(n as int),
{
    let mut out = String::new();
    if n < 0 {
        out.append("-");
        let mag: u64 = ((-(n + 1)) as u64) + 1;
        append_u64_dec(&mut out, mag);
        proof {
            reveal_strlit("-");
            assert(mag == -(n as int));
            assert(Seq::<char>::empty() + "-"@ + spec_udec(mag as nat) =~= spec_idec(n as int));
        }
    } else {
        append_u64_dec(&mut out, n as u64);
        proof {
            assert(Seq::<char>::empty() + spec_udec((n as u64) as nat) =~= spec_idec(n as int));
        }
    }
    out
}

/// Appends `m` as at least three decimal places, zero-padded on the left.
pub fn append_u32_pad3(out: &mut String, m: u32)
    ensures
        final(out)@ == old(out)@ + spec_pad3(m as int),
{
    if m < 10 {
        out.append("0");
        out.append("0");
        append_u64_dec(out, m as u64);
        proof {
            reveal_strlit("0");
            assert(old(out)@ + "0"@ + "0"@ + spec_udec(m as nat)
                =~= old(out)@ + spec_pad3(m as int));
        }
    } else if m < 100 {
        out.append("0");
        append_u64_dec(out, m as u64);
        proof {
            reveal_strlit("0");
            assert(old(out)@ + "0"@ + spec_udec(m as nat) =~= old(out)@ + spec_pad3(m as int));
        }
    } else {
        append_u64_dec(out, m as u64);
    }
}

/// One division step of the decimal rendering: splitting off the last digit.
proof fn lemma_udec_step(a: nat, d: nat)
    requires
        a >= 1,
        d < 10,
    ensures
        spec_udec(10 * a + d) == spec_udec(a) + seq![dec_digit(d as int)],
{
    lemma_fundamental_div_mod_converse((10 * a + d) as int, 10, a as int, d as int);
}

/// The three digits written for a value below one thousand, zero-padded.
proof fn lemma_pad3_digits(m: int)
    requires
        0 <= m < 1000,
    ensures
        spec_pad3(m) == seq![
            dec_digit(m / 100),
            dec_digit((m / 10) % 10),
            dec_digit(m % 10),
        ],
{
    lemma_div_denominator(m, 10, 10);
    if m < 10 {
        assert(m / 100 == 0 && m / 10 == 0 && m % 10 == m) by {
            lemma_fundamental_div_mod_converse(m, 100, 0, m);
            lemma_fundamental_div_mod_converse(m, 10, 0, m);
        }
        assert(spec_pad3(m) =~= seq![dec_digit(0), dec_digit(0), dec_digit(m)]);
    } else if m < 100 {
        assert(m == 10 * (m / 10) + m % 10 && 0 <= m % 10 < 10 && 1 <= m / 10 < 10);
        assert(m / 100 == 0) by {
            lemma_fundamental_div_mod_converse(m, 100, 0, m);
        }
        lemma_udec_step((m / 10) as nat, (m % 10) as nat);
        assert((m / 10) % 10 == m / 10) by {
            lemma_fundamental_div_mod_converse(m / 10, 10, 0, m / 10);
        }
        assert(spec_pad3(m) =~= seq![dec_digit(0), dec_digit(m / 10), dec_digit(m % 10)]);
    } else {
        assert(m == 10 * (m / 10) + m % 10 && 0 <= m % 10 < 10 && 10 <= m / 10 < 100);
        lemma_udec_step((m / 10) as nat, (m % 10) as nat);
        let a = m / 10;
        assert(a == 10 * (a / 10) + a % 10 && 0 <= a % 10 < 10 && 1 <= a / 10 < 10);
        lemma_udec_step((a / 10) as nat, (a % 10) as nat);
        assert(a / 10 == m / 100);
        assert(spec_pad3(m) =~= seq![dec_digit(m / 100), dec_digit((m / 10) % 10), dec_digit(m % 10)]);
    }
}

/// Joining the decimal seconds and the zero-padded three-digit millisecond part
/// writes exactly the decimal digits of `1000 * seconds + millis`: the printed
/// timestamp equals the epoch-millisecond value, for any positive number of
/// seconds and any sub-second millisecond count.
pub proof fn lemma_seconds_millis_digits(seconds: int, millis: int)
    requires
        seconds >= 1,
        0 <= millis < 1000,
    ensures
        spec_udec((1000 * seconds + millis) as nat) == spec_udec(seconds as nat) + spec_pad3(millis),
{
    let v = 1000 * seconds + millis;
    let v1 = 100 * seconds + millis / 10;
    let v2 = 10 * seconds + millis / 100;
    assert(millis == 10 * (millis / 10) + millis % 10 && 0 <= millis % 10 < 10);
    assert(v == 10 * v1 + millis % 10);
    lemma_udec_step(v1 as nat, (millis % 10) as nat);
    lemma_div_denominator(millis, 10, 10);
    assert(millis / 10 == 10 * (millis / 100) + (millis / 10) % 10 && 0 <= (millis / 10) % 10 < 10);
    assert(v1 == 10 * v2 + (millis / 10) % 10);
    lemma_udec_step(v2 as nat, ((millis / 10) % 10) as nat);
    assert(0 <= millis / 100 < 10);
    assert(v2 == 10 * seconds + millis / 100);
    lemma_udec_step(seconds as nat, (millis / 100) as nat);
    lemma_pad3_digits(millis);
    assert(spec_udec(seconds as nat) + seq![dec_digit(millis / 100)]
        + seq![dec_digit((millis / 10) % 10)] + seq![dec_digit(millis % 10)]
        =~= spec_udec(seconds as nat) + spec_pad3(millis));
}

/// Appending the literal `"000"` to the decimal seconds writes exactly the
/// decimal digits of `1000 * seconds`: the whole-second timestamp rendering
/// equals the epoch-millisecond value, for any positive number of seconds.
pub proof fn lemma_seconds_thousand_digits(seconds: int)
    requires
        seconds >= 1,
    ensures
        spec_udec((1000 * seconds) as nat) == spec_udec(seconds as nat) + seq!['0', '0', '0'],
{
    lemma_seconds_millis_digits(seconds, 0);
    assert(spec_pad3(0) =~= seq!['0', '0', '0']);
}

} // verus!
