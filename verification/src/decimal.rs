//! Decimal rendering of unsigned integers, as `{}` formats them.
use vstd::prelude::*;
use vstd::string::*;

verus! {

/// The character of a decimal digit.
pub open spec fn digit_char(d: nat) -> char {
    if d == 0 {
        '0'
    } else if d == 1 {
        '1'
    } else if d == 2 {
        '2'
    } else if d == 3 {
        '3'
    } else if d == 4 {
        '4'
    } else if d == 5 {
        '5'
    } else if d == 6 {
        '6'
    } else if d == 7 {
        '7'
    } else if d == 8 {
        '8'
    } else {
        '9'
    }
}

/// The decimal digits of `n`, most significant first, without leading zeros.
pub open spec fn decimal(n: nat) -> Seq<char>
    decreases n,
{
    if n < 10 {
        seq![digit_char(n)]
    } else {
        decimal(n / 10).push(digit_char(n % 10))
    }
}

/// `s` right-aligned in a field of `width` characters, padded with `fill`.
pub open spec fn pad_left(s: Seq<char>, width: nat, fill: char) -> Seq<char> {
    if s.len() >= width {
        s
    } else {
        Seq::new((width - s.len()) as nat, |i: int| fill) + s
    }
}

/// The decimal rendering of a signed integer: a minus sign, then the digits of
/// its magnitude.
pub open spec fn signed_decimal(n: int) -> Seq<char> {
    if n < 0 {
        seq!['-'] + decimal((-n) as nat)
    } else {
        decimal(n as nat)
    }
}

/// The one-character string of a decimal digit.
fn digit_str(d: u64) -> (s: &'static str)
    requires
        d < 10,
    ensures
        s@ == seq![digit_char(d as nat)],
{
    if d == 0 {
        proof { reveal_strlit("0"); }
        "0"
    } else if d == 1 {
        proof { reveal_strlit("1"); }
        "1"
    } else if d == 2 {
        proof { reveal_strlit("2"); }
        "2"
    } else if d == 3 {
        proof { reveal_strlit("3"); }
        "3"
    } else if d == 4 {
        proof { reveal_strlit("4"); }
        "4"
    } else if d == 5 {
        proof { reveal_strlit("5"); }
        "5"
    } else if d == 6 {
        proof { reveal_strlit("6"); }
        "6"
    } else if d == 7 {
        proof { reveal_strlit("7"); }
        "7"
    } else if d == 8 {
        proof { reveal_strlit("8"); }
        "8"
    } else {
        proof { reveal_strlit("9"); }
        "9"
    }
}

/// Appends the decimal digits of `n` to `out`.
pub fn push_decimal(out: &mut String, n: u64)
    ensures
        final(out)@ == old(out)@ + decimal(n as nat),
    decreases n,
{
    if n < 10 {
        out.append(digit_str(n));
    } else {
        push_decimal(out, n / 10);
        out.append(digit_str(n % 10));
        proof {
            assert(decimal(n as nat) == decimal((n / 10) as nat).push(digit_char((n % 10) as nat)));
        }
    }
}

/// The decimal rendering of `n`.
pub fn decimal_string(n: u64) -> (s: String)
    ensures
        s@ == decimal(n as nat),
{
    let mut s = String::new();
    push_decimal(&mut s, n);
    s
}

/// Proof that a decimal rendering is never empty.
pub proof fn lemma_decimal_nonempty(n: nat)
    ensures
        decimal(n).len() >= 1,
    decreases n,
{
    if n >= 10 {
        lemma_decimal_nonempty(n / 10);
    }
}

/// Numbers of two or more digits render with two or more characters.
pub proof fn lemma_decimal_len(n: nat)
    ensures
        decimal(n).len() >= 1,
        n < 10 ==> decimal(n).len() == 1,
        n >= 10 ==> decimal(n).len() >= 2,
    decreases n,
{
    lemma_decimal_nonempty(n);
    if n >= 10 {
        lemma_decimal_nonempty(n / 10);
    }
}

/// A rendering starts with '0' only for zero.
pub proof fn lemma_decimal_first(n: nat)
    ensures
        decimal(n)[0] == '0' <==> n == 0,
    decreases n,
{
    lemma_decimal_nonempty(n);
    if n >= 10 {
        lemma_decimal_nonempty(n / 10);
        lemma_decimal_first(n / 10);
        assert(decimal(n)[0] == decimal(n / 10)[0]);
    }
}

/// Law: different numbers render differently.
pub proof fn lemma_decimal_injective(a: nat, b: nat)
    requires
        decimal(a) == decimal(b),
    ensures
        a == b,
    decreases a,
{
    lemma_decimal_len(a);
    lemma_decimal_len(b);
    if a >= 10 && b >= 10 {
        let da = decimal(a);
        let db = decimal(b);
        assert(digit_char(a % 10) == da[da.len() - 1]);
        assert(digit_char(b % 10) == db[db.len() - 1]);
        assert(decimal(a / 10) =~= da.drop_last());
        assert(decimal(b / 10) =~= db.drop_last());
        lemma_decimal_injective(a / 10, b / 10);
    } else if a < 10 && b < 10 {
        assert(decimal(a)[0] == digit_char(a));
        assert(decimal(b)[0] == digit_char(b));
    }
}

/// Law: zero-padding to a common width keeps different numbers apart.
pub proof fn lemma_padded_decimal_injective(a: nat, b: nat, width: nat)
    requires
        pad_left(decimal(a), width, '0') == pad_left(decimal(b), width, '0'),
    ensures
        a == b,
{
    let da = decimal(a);
    let db = decimal(b);
    lemma_decimal_len(a);
    lemma_decimal_len(b);
    lemma_decimal_first(a);
    lemma_decimal_first(b);
    let pa = pad_left(da, width, '0');
    let pb = pad_left(db, width, '0');
    if da.len() == db.len() {
        if da.len() < width {
            assert forall|i: int| 0 <= i < da.len() implies da[i] == db[i] by {
                assert(pa[width - da.len() + i] == da[i]);
                assert(pb[width - db.len() + i] == db[i]);
            }
            assert(da =~= db);
        }
        lemma_decimal_injective(a, b);
    } else if da.len() < db.len() {
        // The longer rendering starts where the shorter one is still padded.
        let k: int = if db.len() >= width { 0 } else { width - db.len() };
        assert(pb[k] == db[0]);
        assert(pa[k] == '0');
        assert(b != 0) by {
            if b == 0 {
                assert(db.len() == 1);
            }
        }
    } else {
        let k: int = if da.len() >= width { 0 } else { width - da.len() };
        assert(pa[k] == da[0]);
        assert(pb[k] == '0');
        assert(a != 0) by {
            if a == 0 {
                assert(da.len() == 1);
            }
        }
    }
}

/// Appends the decimal digits of `n`, after a minus sign if it is negative.
pub fn push_signed_decimal(out: &mut String, n: i32)
    ensures
        final(out)@ == old(out)@ + signed_decimal(n as int),
{
    if n < 0 {
        proof { reveal_strlit("-"); }
        out.append("-");
        let magnitude = (-(n as i64)) as u64;
        push_decimal(out, magnitude);
        proof {
            assert(final(out)@ =~= old(out)@ + signed_decimal(n as int));
        }
    } else {
        push_decimal(out, n as u64);
    }
}

/// The one-character string of a padding character: a space or a zero.
fn fill_str(zero: bool) -> (s: &'static str)
    ensures
        s@ == seq![if zero { '0' } else { ' ' }],
{
    if zero {
        proof { reveal_strlit("0"); }
        "0"
    } else {
        proof { reveal_strlit(" "); }
        " "
    }
}

/// Appends `s` right-aligned in a field of `width` characters, padded with
/// zeros when `zero` holds, else with spaces.
pub fn push_padded(out: &mut String, s: &str, width: usize, zero: bool)
    ensures
        final(out)@ == old(out)@ + pad_left(s@, width as nat, if zero { '0' } else { ' ' }),
{
    let ghost fill = if zero { '0' } else { ' ' };
    let len = s.unicode_len();
    let ghost start = out@;
    if len < width {
        let mut i: usize = len;
        while i < width
            invariant
                len <= i <= width,
                len == s@.len(),
                fill == (if zero { '0' } else { ' ' }),
                out@ == start + Seq::new((i - len) as nat, |k: int| fill),
            decreases width - i,
        {
            out.append(fill_str(zero));
            i = i + 1;
        }
    }
    out.append(s);
    proof {
        if len < width {
            assert(out@ == start + pad_left(s@, width as nat, fill));
        }
    }
}

} // verus!
