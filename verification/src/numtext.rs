//! Decimal text for 64-bit integers.
//!
//! The persisted local identity is a user identifier written as its
//! decimal string, and the file responder quotes internal note
//! identifiers in its error bodies.  Both sides of that encoding are
//! verified here: `dec_str_of` is the mathematical decimal form,
//! `i64_to_dec_string` produces it, and `dec_val_of` recognizes exactly
//! the canonical strings, so that writing an identifier and reading it
//! back round-trips.

use vstd::prelude::*;
use vstd::arithmetic::div_mod::lemma_fundamental_div_mod_converse;

verus! {

/// The character for one decimal digit value.
pub open spec fn digit_char(d: int) -> char {
    if d == 0 {
        '0'
    } else if d == 1 {
        '1'
    } else if d == 2 {
        '2'
    } else if d == 3 {
        '3'
    } else if d == 4 {
        '4'
    } else if d == 5 {
        '5'
    } else if d == 6 {
        '6'
    } else if d == 7 {
        '7'
    } else if d == 8 {
        '8'
    } else {
        '9'
    }
}

/// Whether a character is a decimal digit.
pub open spec fn is_dec_digit(c: char) -> bool {
    48 <= c as int <= 57
}

/// The numeric value of a decimal digit character.
pub open spec fn digit_val(c: char) -> int {
    c as int - 48
}

/// The decimal digit string of a nonnegative integer, most significant
/// digit first.
pub open spec fn dec_digits(n: int) -> Seq<char>
    decreases n,
{
    if n < 10 {
        seq![digit_char(n)]
    } else {
        dec_digits(n / 10) + seq![digit_char(n % 10)]
    }
}

/// The decimal string of an integer: digits, with a leading `-` for a
/// negative value.
pub open spec fn dec_str_of(n: int) -> Seq<char> {
    if n < 0 {
        seq!['-'] + dec_digits(-n)
    } else {
        dec_digits(n)
    }
}

/// The value of a digit string (most significant first); meaningful
/// only when every character is a digit.
pub open spec fn dec_val(s: Seq<char>) -> int
    decreases s.len(),
{
    if s.len() == 0 {
        0
    } else {
        dec_val(s.drop_last()) * 10 + digit_val(s.last())
    }
}

/// A canonical digit string: nonempty, all digits, and no leading zero
/// except for `"0"` itself.
pub open spec fn is_canonical_digits(s: Seq<char>) -> bool {
    &&& s.len() >= 1
    &&& forall|i: int| 0 <= i < s.len() ==> is_dec_digit(#[trigger] s[i])
    &&& (s.len() > 1 ==> s[0] != '0')
}

/// The integer a string denotes, when and only when the string is the
/// canonical decimal form of a 64-bit integer.
pub open spec fn dec_val_of(s: Seq<char>) -> Option<i64> {
    if is_canonical_digits(s) && dec_val(s) <= i64::MAX as int {
        Some(dec_val(s) as i64)
    } else if s.len() >= 2 && s[0] == '-' && is_canonical_digits(s.skip(1))
        && 1 <= dec_val(s.skip(1)) <= (i64::MAX as int) + 1 {
        Some((0 - dec_val(s.skip(1))) as i64)
    } else {
        None
    }
}

/// The single-character string for one digit value.
fn digit_str(d: u64) -> (r: &'static str)
    requires
        d < 10,
    ensures
        r@ =~= seq![digit_char(d as int)],
{
    proof {
        reveal_strlit("0");
        reveal_strlit("1");
        reveal_strlit("2");
        reveal_strlit("3");
        reveal_strlit("4");
        reveal_strlit("5");
        reveal_strlit("6");
        reveal_strlit("7");
        reveal_strlit("8");
        reveal_strlit("9");
    }
    if d == 0 {
        "0"
    } else if d == 1 {
        "1"
    } else if d == 2 {
        "2"
    } else if d == 3 {
        "3"
    } else if d == 4 {
        "4"
    } else if d == 5 {
        "5"
    } else if d == 6 {
        "6"
    } else if d == 7 {
        "7"
    } else if d == 8 {
        "8"
    } else {
        "9"
    }
}

/// Append the decimal digits of `n` to `out`.
fn push_dec_digits(out: &mut String, n: u64)
    ensures
        final(out)@ == old(out)@ + dec_digits(n as int),
    decreases n,
{
    if n < 10 {
        out.append(digit_str(n));
    } else {
        push_dec_digits(out, n / 10);
        out.append(digit_str(n % 10));
        proof {
            assert(final(out)@ =~= old(out)@ + dec_digits(n as int));
        }
    }
}

/// The decimal string of an unsigned 64-bit integer.
pub fn u64_to_dec_string(n: u64) -> (r: String)
    ensures
        r@ == dec_digits(n as int),
{
    let mut out = String::new();
    push_dec_digits(&mut out, n);
    proof {
        assert(out@ =~= dec_digits(n as int));
    }
    out
}

/// The decimal string of a signed 64-bit integer.
pub fn i64_to_dec_string(n: i64) -> (r: String)
    ensures
        r@ == dec_str_of(n as int),
{
    if n >= 0 {
        u64_to_dec_string(n as u64)
    } else {
        let mag: u64 = if n == i64::MIN {
            9223372036854775808u64
        } else {
            (-n) as u64
        };
        assert(mag as int == -(n as int));
        let mut out = String::new();
        out.append("-");
        push_dec_digits(&mut out, mag);
        proof {
            reveal_strlit("-");
            assert("-"@ =~= seq!['-']);
            assert(out@ =~= dec_str_of(n as int));
        }
        out
    }
}

/// Every canonical decimal string of a 64-bit value reads back as that
/// value: the digits of `n` form a canonical string whose value is `n`.
pub proof fn lemma_dec_digits_sound(n: int)
    requires
        n >= 0,
    ensures
        is_canonical_digits(dec_digits(n)),
        dec_val(dec_digits(n)) == n,
        n >= 1 ==> dec_digits(n)[0] != '0',
    decreases n,
{
    if n < 10 {
        let s = dec_digits(n);
        assert(s =~= seq![digit_char(n)]);
        assert(s.drop_last() =~= Seq::<char>::empty());
        assert(dec_val(s.drop_last()) == 0);
        assert(s.last() == digit_char(n));
        assert(dec_val(s) == digit_val(digit_char(n)));
        assert(digit_val(digit_char(n)) == n);
    } else {
        lemma_dec_digits_sound(n / 10);
        let s = dec_digits(n);
        let hd = dec_digits(n / 10);
        assert(s == hd + seq![digit_char(n % 10)]);
        assert(s.drop_last() =~= hd);
        assert(s.last() == digit_char(n % 10));
        assert(dec_val(s) == dec_val(hd) * 10 + digit_val(digit_char(n % 10)));
        assert(digit_val(digit_char(n % 10)) == n % 10);
        assert(dec_val(s) == (n / 10) * 10 + n % 10);
        assert((n / 10) * 10 + n % 10 == n) by {
            vstd::arithmetic::div_mod::lemma_fundamental_div_mod(n, 10);
        }
        assert(n / 10 >= 1);
        assert(s[0] == hd[0]);
        assert(forall|i: int| 0 <= i < s.len() ==> is_dec_digit(#[trigger] s[i]));
    }
}

/// A nonempty all-digit string with a nonzero first digit has a
/// positive value.
proof fn lemma_dec_val_pos(s: Seq<char>)
    requires
        s.len() >= 1,
        forall|i: int| 0 <= i < s.len() ==> is_dec_digit(#[trigger] s[i]),
        s[0] != '0',
    ensures
        dec_val(s) >= 1,
    decreases s.len(),
{
    if s.len() == 1 {
        assert(s.drop_last() =~= Seq::<char>::empty());
        assert(dec_val(s.drop_last()) == 0);
        assert(s.last() == s[0]);
        assert(dec_val(s) == dec_val(s.drop_last()) * 10 + digit_val(s.last()));
        assert(dec_val(s) == digit_val(s[0]));
        assert(digit_val(s[0]) >= 1);
    } else {
        let b = s.drop_last();
        assert(b[0] == s[0]);
        lemma_dec_val_pos(b);
        assert(digit_val(s.last()) >= 0);
        assert(dec_val(s) == dec_val(b) * 10 + digit_val(s.last()));
        assert(dec_val(s) >= 10) by (nonlinear_arith)
            requires
                dec_val(b) >= 1,
                digit_val(s.last()) >= 0,
                dec_val(s) == dec_val(b) * 10 + digit_val(s.last()),
        ;
    }
}

/// A canonical digit string is the digit string of its own value.
pub proof fn lemma_dec_digits_complete(s: Seq<char>)
    requires
        is_canonical_digits(s),
    ensures
        dec_val(s) >= 0,
        dec_digits(dec_val(s)) == s,
    decreases s.len(),
{
    if s.len() == 1 {
        assert(s.drop_last() =~= Seq::<char>::empty());
        assert(dec_val(s.drop_last()) == 0);
        assert(s.last() == s[0]);
        assert(dec_val(s) == dec_val(s.drop_last()) * 10 + digit_val(s.last()));
        assert(dec_val(s) == digit_val(s[0]));
        assert(0 <= digit_val(s[0]) < 10);
        assert(dec_digits(dec_val(s)) =~= seq![digit_char(digit_val(s[0]))]);
        assert(digit_char(digit_val(s[0])) == s[0]);
        assert(dec_digits(dec_val(s)) =~= s);
    } else {
        let b = s.drop_last();
        let d = digit_val(s.last());
        assert(b[0] == s[0]);
        assert(forall|i: int| 0 <= i < b.len() ==> is_dec_digit(#[trigger] b[i]));
        assert(is_canonical_digits(b));
        lemma_dec_digits_complete(b);
        lemma_dec_val_pos(b);
        let v = dec_val(b);
        assert(dec_val(s) == v * 10 + d);
        assert(v >= 1);
        assert(0 <= d < 10);
        assert(dec_val(s) >= 10) by (nonlinear_arith)
            requires
                v >= 1,
                d >= 0,
                dec_val(s) == v * 10 + d,
        ;
        lemma_fundamental_div_mod_converse(v * 10 + d, 10, v, d);
        assert((v * 10 + d) / 10 == v);
        assert((v * 10 + d) % 10 == d);
        assert(dec_digits(dec_val(s)) == dec_digits(v) + seq![digit_char(d)]);
        assert(digit_char(d) == s.last());
        assert(dec_digits(dec_val(s)) =~= s);
    }
}

/// Reading back the decimal string of a 64-bit value yields that value:
/// the persisted identity round-trips through its text form.
pub proof fn lemma_dec_roundtrip(n: i64)
    ensures
        dec_val_of(dec_str_of(n as int)) == Some(n),
{
    if n >= 0 {
        lemma_dec_digits_sound(n as int);
        assert(dec_str_of(n as int) == dec_digits(n as int));
    } else {
        let m = -(n as int);
        lemma_dec_digits_sound(m);
        let s = dec_str_of(n as int);
        assert(s == seq!['-'] + dec_digits(m));
        assert(s[0] == '-');
        assert(s.skip(1) =~= dec_digits(m));
        assert(!is_dec_digit('-'));
        assert(!is_canonical_digits(s));
        assert(dec_val(s.skip(1)) == m);
        assert(1 <= m <= (i64::MAX as int) + 1);
    }
}

/// Only the canonical decimal string of a value reads back as it: if a
/// string denotes `n`, it is exactly `dec_str_of(n)`.
pub proof fn lemma_dec_val_of_complete(s: Seq<char>, n: i64)
    requires
        dec_val_of(s) == Some(n),
    ensures
        s == dec_str_of(n as int),
{
    if is_canonical_digits(s) && dec_val(s) <= i64::MAX as int {
        lemma_dec_digits_complete(s);
        assert(n as int == dec_val(s));
        assert(dec_str_of(n as int) == dec_digits(dec_val(s)));
    } else {
        let t = s.skip(1);
        lemma_dec_digits_complete(t);
        assert(n as int == 0 - dec_val(t));
        assert(n < 0);
        assert(dec_str_of(n as int) == seq!['-'] + dec_digits(dec_val(t)));
        assert(dec_digits(dec_val(t)) == t);
        assert(s =~= seq!['-'] + t);
    }
}

} // verus!
