//! Rendering of typed comparison values as SQL literal text.
//!
//! String values are delimited with single quotes (embedded quotes doubled);
//! boolean, integer and decimal values are rendered as bare literals.  The
//! spec functions here pin the rendered character sequence exactly.
use vstd::prelude::*;
use vstd::string::*;

verus! {

/// The character for a single decimal digit.
pub open spec fn digit_char(d: int) -> char
    recommends
        0 <= d < 10,
{
    if d == 0 {
        '0'
    } else if d == 1 {
        '1'
    } else if d == 2 {
        '2'
    } else if d == 3 {
        '3'
    } else if d == 4 {
        '4'
    } else if d == 5 {
        '5'
    } else if d == 6 {
        '6'
    } else if d == 7 {
        '7'
    } else if d == 8 {
        '8'
    } else {
        '9'
    }
}

/// Decimal rendering of a natural number, most significant digit first,
/// with no leading zeros (zero itself renders as a single digit).
pub open spec fn dec_str(n: nat) -> Seq<char>
    decreases n,
{
    if n < 10 {
        seq![digit_char(n as int)]
    } else {
        dec_str(n / 10).push(digit_char((n % 10) as int))
    }
}

/// Decimal rendering padded with leading zeros to at least `width` digits.
pub open spec fn dec_str_pad(n: nat, width: nat) -> Seq<char>
    decreases width,
{
    if width <= 1 {
        dec_str(n)
    } else {
        dec_str_pad(n / 10, (width - 1) as nat).push(digit_char((n % 10) as int))
    }
}

/// Powers of ten.
pub open spec fn pow10(e: nat) -> nat
    decreases e,
{
    if e == 0 {
        1
    } else {
        10 * pow10((e - 1) as nat)
    }
}

/// The magnitude of an integer.
pub open spec fn abs_nat(m: int) -> nat {
    if m >= 0 {
        m as nat
    } else {
        (-m) as nat
    }
}

/// Signed integer rendering: a minus sign for negative values, then the
/// decimal digits of the magnitude.
pub open spec fn int_str(m: int) -> Seq<char> {
    if m >= 0 {
        dec_str(abs_nat(m))
    } else {
        seq!['-'] + dec_str(abs_nat(m))
    }
}

/// Fixed-point rendering of `m * 10^(-scale)`: the integer part, a decimal
/// point, then exactly `scale` fraction digits.  With scale zero the value
/// renders as a bare integer.
pub open spec fn decimal_str(m: int, scale: nat) -> Seq<char> {
    if scale == 0 {
        int_str(m)
    } else {
        let sign = if m < 0 {
            seq!['-']
        } else {
            Seq::<char>::empty()
        };
        sign + dec_str(abs_nat(m) / pow10(scale)) + seq!['.'] + dec_str_pad(
            abs_nat(m) % pow10(scale),
            scale,
        )
    }
}

/// Boolean rendering as a bare SQL literal.
pub open spec fn bool_str(b: bool) -> Seq<char> {
    if b {
        "true"@
    } else {
        "false"@
    }
}

/// How one character of a string value appears inside a quoted SQL literal:
/// a single quote is doubled, everything else passes through.
pub open spec fn escaped_char(c: char) -> Seq<char> {
    if c == '\'' {
        seq!['\'', '\'']
    } else {
        seq![c]
    }
}

/// The body of a quoted SQL string literal: each character escaped.
pub open spec fn sql_escaped(s: Seq<char>) -> Seq<char>
    decreases s.len(),
{
    if s.len() == 0 {
        Seq::empty()
    } else {
        escaped_char(s[0]) + sql_escaped(s.drop_first())
    }
}

/// A complete quoted SQL string literal.
pub open spec fn string_literal_str(s: Seq<char>) -> Seq<char> {
    seq!['\''] + sql_escaped(s) + seq!['\'']
}

proof fn lemma_escaped_snoc(s: Seq<char>, c: char)
    ensures
        sql_escaped(s.push(c)) == sql_escaped(s) + escaped_char(c),
    decreases s.len(),
{
    if s.len() == 0 {
        assert(s.push(c)[0] == c);
        assert(s.push(c).drop_first() =~= Seq::<char>::empty());
        assert(sql_escaped(s.push(c)) == escaped_char(c) + sql_escaped(Seq::<char>::empty()));
        assert(sql_escaped(Seq::<char>::empty()) =~= Seq::<char>::empty());
        assert(sql_escaped(s.push(c)) =~= sql_escaped(s) + escaped_char(c));
    } else {
        assert(s.push(c)[0] == s[0]);
        assert(s.push(c).drop_first() =~= s.drop_first().push(c));
        lemma_escaped_snoc(s.drop_first(), c);
        assert(sql_escaped(s.push(c)) =~= sql_escaped(s) + escaped_char(c));
    }
}

/// A one-character string for a decimal digit.
fn digit_literal(d: u64) -> (r: &'static str)
    requires
        d < 10,
    ensures
        r@ == seq![digit_char(d as int)],
{
    proof {
        reveal_strlit("0");
        reveal_strlit("1");
        reveal_strlit("2");
        reveal_strlit("3");
        reveal_strlit("4");
        reveal_strlit("5");
        reveal_strlit("6");
        reveal_strlit("7");
        reveal_strlit("8");
        reveal_strlit("9");
    }
    match d {
        0 => "0",
        1 => "1",
        2 => "2",
        3 => "3",
        4 => "4",
        5 => "5",
        6 => "6",
        7 => "7",
        8 => "8",
        _ => "9",
    }
}

/// Appends the decimal rendering of `n`.
pub fn push_dec(out: &mut String, n: u64)
    ensures
        final(out)@ == old(out)@ + dec_str(n as nat),
    decreases n,
{
    if n >= 10 {
        push_dec(out, n / 10);
    }
    out.append(digit_literal(n % 10));
    assert(out@ =~= old(out)@ + dec_str(n as nat));
}

/// Appends the decimal rendering of `n`, left-padded with zeros to at least
/// `width` digits.
pub fn push_dec_pad(out: &mut String, n: u64, width: u32)
    ensures
        final(out)@ == old(out)@ + dec_str_pad(n as nat, width as nat),
    decreases width,
{
    if width <= 1 {
        push_dec(out, n);
    } else {
        push_dec_pad(out, n / 10, width - 1);
        out.append(digit_literal(n % 10));
        assert(out@ =~= old(out)@ + dec_str_pad(n as nat, width as nat));
    }
}

proof fn lemma_pow10_increases(e: nat)
    requires
        e <= 18,
    ensures
        pow10(e) <= pow10(18),
    decreases 18 - e,
{
    if e < 18 {
        lemma_pow10_increases(e + 1);
        assert(pow10(e + 1) == 10 * pow10((e + 1 - 1) as nat));
        assert(pow10(e) <= pow10(e + 1));
    }
}

proof fn lemma_pow10_pos(e: nat)
    ensures
        pow10(e) >= 1,
    decreases e,
{
    if e > 0 {
        lemma_pow10_pos((e - 1) as nat);
    }
}

proof fn lemma_pow10_18_value()
    ensures
        pow10(18) == 1000000000000000000,
{
    reveal_with_fuel(pow10, 20);
}

/// `10^e`, for exponents small enough that the result fits a `u64`.
pub fn pow10_u64(e: u32) -> (r: u64)
    requires
        e <= 18,
    ensures
        r == pow10(e as nat),
        r >= 1,
{
    let mut r: u64 = 1;
    let mut i: u32 = 0;
    while i < e
        invariant
            i <= e <= 18,
            r == pow10(i as nat),
        decreases e - i,
    {
        proof {
            lemma_pow10_increases((i + 1) as nat);
            lemma_pow10_18_value();
        }
        r = r * 10;
        i = i + 1;
    }
    proof {
        lemma_pow10_pos(e as nat);
    }
    r
}

/// The magnitude of `m` as an unsigned value; total, also at `i64::MIN`.
fn abs_u64(m: i64) -> (r: u64)
    ensures
        r == abs_nat(m as int),
{
    if m >= 0 {
        m as u64
    } else {
        ((-(m + 1)) as u64) + 1
    }
}

/// Appends the signed decimal rendering of `m`.
pub fn push_int(out: &mut String, m: i64)
    ensures
        final(out)@ == old(out)@ + int_str(m as int),
{
    if m < 0 {
        out.append("-");
        proof {
            reveal_strlit("-");
            assert("-"@ =~= seq!['-']);
        }
    }
    push_dec(out, abs_u64(m));
    assert(out@ =~= old(out)@ + int_str(m as int));
}

/// Appends the fixed-point rendering of `m * 10^(-scale)`.
pub fn push_decimal(out: &mut String, m: i64, scale: u32)
    requires
        scale <= 18,
    ensures
        final(out)@ == old(out)@ + decimal_str(m as int, scale as nat),
{
    if scale == 0 {
        push_int(out, m);
    } else {
        if m < 0 {
            out.append("-");
            proof {
                reveal_strlit("-");
                assert("-"@ =~= seq!['-']);
            }
        }
        let a = abs_u64(m);
        let p = pow10_u64(scale);
        push_dec(out, a / p);
        out.append(".");
        proof {
            reveal_strlit(".");
            assert("."@ =~= seq!['.']);
        }
        push_dec_pad(out, a % p, scale);
        assert(out@ =~= old(out)@ + decimal_str(m as int, scale as nat));
    }
}

/// Appends `b` as a bare SQL literal.
pub fn push_bool(out: &mut String, b: bool)
    ensures
        final(out)@ == old(out)@ + bool_str(b),
{
    if b {
        out.append("true");
    } else {
        out.append("false");
    }
}

/// Appends `s` as a quoted SQL string literal, doubling embedded quotes.
pub fn push_string_literal(out: &mut String, s: &str)
    ensures
        final(out)@ == old(out)@ + string_literal_str(s@),
{
    out.append("'");
    proof {
        reveal_strlit("'");
        assert("'"@ =~= seq!['\'']);
    }
    let n = s.unicode_len();
    let mut i: usize = 0;
    while i < n
        invariant
            n == s@.len(),
            i <= n,
            out@ == old(out)@ + seq!['\''] + sql_escaped(s@.take(i as int)),
        decreases n - i,
    {
        let c = s.get_char(i);
        if c == '\'' {
            out.append("''");
            proof {
                reveal_strlit("''");
                assert("''"@ =~= seq!['\'', '\'']);
            }
        } else {
            let piece = s.substring_char(i, i + 1);
            assert(piece@ =~= seq![s@[i as int]]);
            out.append(piece);
        }
        proof {
            assert(s@.take(i + 1) =~= s@.take(i as int).push(s@[i as int]));
            lemma_escaped_snoc(s@.take(i as int), s@[i as int]);
            assert(out@ =~= old(out)@ + seq!['\''] + sql_escaped(s@.take(i + 1)));
        }
        i = i + 1;
    }
    proof {
        assert(s@.take(n as int) =~= s@);
    }
    out.append("'");
    assert(out@ =~= old(out)@ + string_literal_str(s@));
}

} // verus!
