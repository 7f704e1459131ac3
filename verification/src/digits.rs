//! Decimal numerals: the spec-level value of a digit string, the canonical
//! decimal representation of a number, and executable parsing and formatting
//! proved against them.

use vstd::prelude::*;

verus! {

/// `c` is an ASCII decimal digit.
pub open spec fn is_digit(c: char) -> bool {
    48 <= c as u32 <= 57
}

/// Numeric value of a digit character.
pub open spec fn digit_val(c: char) -> nat {
    (c as u32 - 48) as nat
}

/// Value of a digit string read as a base-10 numeral (0 for the empty string).
pub open spec fn dec_value(s: Seq<char>) -> nat
    decreases s.len(),
{
    if s.len() == 0 {
        0
    } else {
        dec_value(s.drop_last()) * 10 + digit_val(s.last())
    }
}

pub open spec fn all_digits(s: Seq<char>) -> bool {
    forall|i: int| 0 <= i < s.len() ==> is_digit(s[i])
}

/// A decimal numeral: nonempty and made of digits only.
pub open spec fn is_numeral(s: Seq<char>) -> bool {
    s.len() > 0 && all_digits(s)
}

/// The digit character for `d` (meaningful for `d < 10`).
pub open spec fn digit_char(d: nat) -> char {
    if d == 0 {
        '0'
    } else if d == 1 {
        '1'
    } else if d == 2 {
        '2'
    } else if d == 3 {
        '3'
    } else if d == 4 {
        '4'
    } else if d == 5 {
        '5'
    } else if d == 6 {
        '6'
    } else if d == 7 {
        '7'
    } else if d == 8 {
        '8'
    } else {
        '9'
    }
}

/// Canonical decimal representation of `n`: no sign, no leading zeros.
pub open spec fn dec_rep(n: nat) -> Seq<char>
    decreases n,
{
    if n < 10 {
        seq![digit_char(n)]
    } else {
        dec_rep(n / 10).push(digit_char(n % 10))
    }
}

/// A numeral never shrinks in value when digits are appended: the value of any
/// prefix is at most the value of the whole string.
pub proof fn lemma_dec_value_prefix_le(s: Seq<char>, i: int)
    requires
        0 <= i <= s.len(),
    ensures
        dec_value(s.subrange(0, i)) <= dec_value(s),
    decreases s.len() - i,
{
    if i == s.len() {
        assert(s.subrange(0, i) =~= s);
    } else {
        let t = s.subrange(0, i + 1);
        assert(t.drop_last() =~= s.subrange(0, i));
        assert(dec_value(s.subrange(0, i)) <= dec_value(t));
        lemma_dec_value_prefix_le(s, i + 1);
    }
}

/// The canonical representation is a numeral and reads back to the number it
/// was built from.
pub proof fn lemma_dec_rep_value(n: nat)
    ensures
        is_numeral(dec_rep(n)),
        dec_value(dec_rep(n)) == n,
    decreases n,
{
    if n < 10 {
        let r = dec_rep(n);
        assert(r == seq![digit_char(n)]);
        assert(r.drop_last() =~= Seq::<char>::empty());
        assert(dec_value(Seq::<char>::empty()) == 0);
        assert(dec_value(r) == dec_value(r.drop_last()) * 10 + digit_val(r.last()));
        assert(digit_val(digit_char(n)) == n);
    } else {
        lemma_dec_rep_value(n / 10);
        let r = dec_rep(n / 10).push(digit_char(n % 10));
        assert(r.drop_last() =~= dec_rep(n / 10));
        assert(r.last() == digit_char(n % 10));
        assert(digit_val(digit_char(n % 10)) == n % 10);
        assert(dec_value(r) == (n / 10) * 10 + n % 10);
        assert((n / 10) * 10 + n % 10 == n) by (nonlinear_arith);
        assert(forall|i: int| 0 <= i < r.len() ==> is_digit(#[trigger] r[i]));
    }
}

/// Parses `s` as a decimal numeral with value at most `bound`; returns the
/// value exactly when `s` is such a numeral, and `None` otherwise.
pub fn parse_decimal_bounded(s: &str, bound: u32) -> (r: Option<u32>)
    ensures
        match r {
            Some(v) => is_numeral(s@) && dec_value(s@) <= bound && v as nat == dec_value(s@),
            None => !(is_numeral(s@) && dec_value(s@) <= bound),
        },
{
    let n = s.unicode_len();
    if n == 0 {
        return None;
    }
    let mut acc: u64 = 0;
    let mut i: usize = 0;
    while i < n
        invariant
            0 < n,
            n == s@.len(),
            0 <= i <= n,
            all_digits(s@.subrange(0, i as int)),
            acc == dec_value(s@.subrange(0, i as int)),
            acc <= bound,
        decreases n - i,
    {
        let c = s.get_char(i);
        let u = c as u32;
        if u < 48 || u > 57 {
            proof {
                assert(!is_digit(s@[i as int]));
            }
            return None;
        }
        let d = (u - 48) as u64;
        let next = acc * 10 + d;
        proof {
            let p = s@.subrange(0, i as int);
            let q = s@.subrange(0, i + 1);
            assert(q.drop_last() =~= p);
            assert(q.last() == s@[i as int]);
            assert(next == dec_value(q));
        }
        if next > bound as u64 {
            proof {
                if all_digits(s@) {
                    lemma_dec_value_prefix_le(s@, i + 1);
                }
            }
            return None;
        }
        acc = next;
        i = i + 1;
    }
    proof {
        assert(s@.subrange(0, n as int) =~= s@);
    }
    Some(acc as u32)
}

/// The digit character for `d`, as a one-character string slice.
fn digit_str(d: u32) -> (s: &'static str)
    requires
        d < 10,
    ensures
        s@ == seq![digit_char(d as nat)],
{
    proof {
        reveal_strlit("0");
        reveal_strlit("1");
        reveal_strlit("2");
        reveal_strlit("3");
        reveal_strlit("4");
        reveal_strlit("5");
        reveal_strlit("6");
        reveal_strlit("7");
        reveal_strlit("8");
        reveal_strlit("9");
    }
    let r = if d == 0 {
        "0"
    } else if d == 1 {
        "1"
    } else if d == 2 {
        "2"
    } else if d == 3 {
        "3"
    } else if d == 4 {
        "4"
    } else if d == 5 {
        "5"
    } else if d == 6 {
        "6"
    } else if d == 7 {
        "7"
    } else if d == 8 {
        "8"
    } else {
        "9"
    };
    proof {
        assert(r@ =~= seq![digit_char(d as nat)]);
    }
    r
}

/// Formats `n` as its canonical decimal numeral.
pub fn format_decimal(n: u32) -> (r: String)
    ensures
        r@ == dec_rep(n as nat),
        dec_value(r@) == n,
        is_numeral(r@),
{
    let mut acc = String::new();
    let mut m: u32 = n;
    proof {
        assert(dec_rep(m as nat) + acc@ =~= dec_rep(n as nat));
    }
    while m >= 10
        invariant
            dec_rep(n as nat) == dec_rep(m as nat) + acc@,
        decreases m,
    {
        let d = m % 10;
        let rest = m / 10;
        let piece = String::from_str(digit_str(d)).concat(acc.as_str());
        proof {
            let dstr = seq![digit_char((m % 10) as nat)];
            assert(dec_rep(m as nat) == dec_rep(rest as nat).push(digit_char((m % 10) as nat)));
            assert(dec_rep(rest as nat).push(digit_char((m % 10) as nat)) =~= dec_rep(
                rest as nat,
            ) + dstr);
            assert(piece@ == dstr + acc@);
            assert(dec_rep(rest as nat) + piece@ =~= (dec_rep(rest as nat) + dstr) + acc@);
        }
        acc = piece;
        m = rest;
    }
    let r = String::from_str(digit_str(m)).concat(acc.as_str());
    proof {
        assert(dec_rep(m as nat) =~= seq![digit_char(m as nat)]);
        assert(r@ =~= dec_rep(m as nat) + acc@);
        lemma_dec_rep_value(n as nat);
    }
    r
}

} // verus!
