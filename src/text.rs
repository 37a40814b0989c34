//! Decimal rendering of integers and escaping for the exposition format.
use vstd::prelude::*;

verus! {

/// Relies on String::push: appends one character.
#[verifier::external_body]
pub(crate) fn push_char(s: &mut String, c: char)
    ensures
        final(s)@ == old(s)@.push(c),
{
    s.push(c)
}

pub open spec fn digit_char(d: nat) -> char {
    if d == 0 { '0' }
    else if d == 1 { '1' }
    else if d == 2 { '2' }
    else if d == 3 { '3' }
    else if d == 4 { '4' }
    else if d == 5 { '5' }
    else if d == 6 { '6' }
    else if d == 7 { '7' }
    else if d == 8 { '8' }
    else { '9' }
}

/// The decimal digits of `n`, without leading zeros.
pub open spec fn decimal_text(n: nat) -> Seq<char>
    decreases n,
{
    if n < 10 {
        seq![digit_char(n)]
    } else {
        decimal_text(n / 10).push(digit_char(n % 10))
    }
}

/// `n / 100` in decimal, with trailing zeros of the fraction left out.
pub open spec fn hundredths_text(n: nat) -> Seq<char> {
    let whole = decimal_text(n / 100);
    let frac = n % 100;
    if frac == 0 {
        whole
    } else if frac % 10 == 0 {
        whole.push('.').push(digit_char(frac / 10))
    } else {
        whole.push('.').push(digit_char(frac / 10)).push(digit_char(frac % 10))
    }
}

fn digit(d: u64) -> (c: char)
    requires
        d < 10,
    ensures
        c == digit_char(d as nat),
{
    if d == 0 { '0' }
    else if d == 1 { '1' }
    else if d == 2 { '2' }
    else if d == 3 { '3' }
    else if d == 4 { '4' }
    else if d == 5 { '5' }
    else if d == 6 { '6' }
    else if d == 7 { '7' }
    else if d == 8 { '8' }
    else { '9' }
}

/// Appends the decimal digits of `n`.
pub fn push_decimal(out: &mut String, n: u64)
    ensures
        final(out)@ == old(out)@ + decimal_text(n as nat),
    decreases n,
{
    if n < 10 {
        push_char(out, digit(n));
        assert(old(out)@.push(digit_char(n as nat)) =~= old(out)@ + seq![digit_char(n as nat)]);
    } else {
        push_decimal(out, n / 10);
        push_char(out, digit(n % 10));
        assert(old(out)@ + decimal_text(n as nat) =~= old(out)@ + decimal_text((n / 10) as nat) + seq![digit_char((n % 10) as nat)]);
    }
}

/// Appends `n / 100` in decimal.
pub fn push_hundredths(out: &mut String, n: u64)
    ensures
        final(out)@ == old(out)@ + hundredths_text(n as nat),
{
    push_decimal(out, n / 100);
    let frac = n % 100;
    if frac != 0 {
        push_char(out, '.');
        push_char(out, digit(frac / 10));
        if frac % 10 != 0 {
            push_char(out, digit(frac % 10));
        }
    }
    let ghost whole = decimal_text((n / 100) as nat);
    assert(old(out)@ + hundredths_text(n as nat) =~= final(out)@) by {
        if frac != 0 && frac % 10 == 0 {
            assert(old(out)@ + whole.push('.').push(digit_char((frac / 10) as nat)) =~= old(out)@ + whole + seq!['.', digit_char((frac / 10) as nat)]);
        }
    }
}

/// The escaped form of one character: a backslash, a line feed and, inside
/// a quoted label value, a double quote are written with a backslash.
pub open spec fn escape_char(c: char, quoted: bool) -> Seq<char> {
    if c == '\\' {
        seq!['\\', '\\']
    } else if c == '\n' {
        seq!['\\', 'n']
    } else if quoted && c == '"' {
        seq!['\\', '"']
    } else {
        seq![c]
    }
}

pub open spec fn escaped(s: Seq<char>, quoted: bool) -> Seq<char>
    decreases s.len(),
{
    if s.len() == 0 {
        seq![]
    } else {
        escaped(s.drop_last(), quoted) + escape_char(s.last(), quoted)
    }
}

/// Appends `s` escaped for the exposition format.
pub fn push_escaped(out: &mut String, s: &str, quoted: bool)
    ensures
        final(out)@ == old(out)@ + escaped(s@, quoted),
{
    let n = s.unicode_len();
    let mut i: usize = 0;
    while i < n
        invariant
            n == s@.len(),
            i <= n,
            out@ == old(out)@ + escaped(s@.take(i as int), quoted),
        decreases n - i,
    {
        let c = s.get_char(i);
        assert(s@.take(i + 1).drop_last() =~= s@.take(i as int));
        let ghost before = out@;
        if c == '\\' {
            push_char(out, '\\');
            push_char(out, '\\');
        } else if c == '\n' {
            push_char(out, '\\');
            push_char(out, 'n');
        } else if quoted && c == '"' {
            push_char(out, '\\');
            push_char(out, '"');
        } else {
            push_char(out, c);
        }
        assert(out@ =~= before + escape_char(c, quoted));
        i = i + 1;
    }
    assert(s@.take(n as int) =~= s@);
}

} // verus!
