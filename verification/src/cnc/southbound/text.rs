//! Texts that go into a YANG data tree: numbers, truth values and paths.

use vstd::prelude::*;
use vstd::string::*;

verus! {

/// The decimal digit of a number below 10.
pub open spec fn digit(n: int) -> char {
    if n == 0 {
        '0'
    } else if n == 1 {
        '1'
    } else if n == 2 {
        '2'
    } else if n == 3 {
        '3'
    } else if n == 4 {
        '4'
    } else if n == 5 {
        '5'
    } else if n == 6 {
        '6'
    } else if n == 7 {
        '7'
    } else if n == 8 {
        '8'
    } else {
        '9'
    }
}

/// A natural number in decimal, without leading zeros.
pub open spec fn decimal(n: nat) -> Seq<char>
    decreases n,
{
    if n < 10 {
        seq![digit(n as int)]
    } else {
        decimal(n / 10).push(digit((n % 10) as int))
    }
}

/// An integer in decimal: a minus sign before a negative one.
pub open spec fn signed_decimal(n: int) -> Seq<char> {
    if n < 0 {
        seq!['-'] + decimal((-n) as nat)
    } else {
        decimal(n as nat)
    }
}

/// A truth value as YANG writes it.
pub open spec fn truth(b: bool) -> Seq<char> {
    if b {
        "true"@
    } else {
        "false"@
    }
}

/// The template with each `{}` replaced by `value`, read from the left.
pub open spec fn filled(template: Seq<char>, value: Seq<char>) -> Seq<char>
    decreases template.len(),
{
    if template.len() == 0 {
        Seq::empty()
    } else if template.len() >= 2 && template[0] == '{' && template[1] == '}' {
        value + filled(template.skip(2), value)
    } else {
        seq![template[0]] + filled(template.skip(1), value)
    }
}

/// One decimal digit as text.
fn digit_text(n: u64) -> (r: &'static str)
    requires
        n < 10,
    ensures
        r@ == seq![digit(n as int)],
{
    proof {
        reveal_strlit("0");
        reveal_strlit("1");
        reveal_strlit("2");
        reveal_strlit("3");
        reveal_strlit("4");
        reveal_strlit("5");
        reveal_strlit("6");
        reveal_strlit("7");
        reveal_strlit("8");
        reveal_strlit("9");
    }
    let r = match n {
        0 => "0",
        1 => "1",
        2 => "2",
        3 => "3",
        4 => "4",
        5 => "5",
        6 => "6",
        7 => "7",
        8 => "8",
        _ => "9",
    };
    assert(r@ =~= seq![digit(n as int)]);
    r
}

/// Writes `n` in decimal to the end of `out`.
pub fn append_decimal(out: &mut String, n: u64)
    ensures
        final(out)@ == old(out)@ + decimal(n as nat),
    decreases n,
{
    if n >= 10 {
        append_decimal(out, n / 10);
    }
    out.append(digit_text(n % 10));
    proof {
        if n >= 10 {
            assert(out@ =~= old(out)@ + decimal(n as nat));
        } else {
            assert(out@ =~= old(out)@ + decimal(n as nat));
        }
    }
}

/// Writes `n` in decimal.
pub fn decimal_text(n: u64) -> (r: String)
    ensures
        r@ == decimal(n as nat),
{
    let mut r = String::new();
    append_decimal(&mut r, n);
    assert(r@ =~= decimal(n as nat));
    r
}

/// Writes `n` in decimal, with a minus sign where it is negative.
pub fn signed_decimal_text(n: i32) -> (r: String)
    ensures
        r@ == signed_decimal(n as int),
{
    if n < 0 {
        proof {
            reveal_strlit("-");
        }
        let mut r = String::from_str("-");
        let magnitude: u64 = (-(n as i64)) as u64;
        append_decimal(&mut r, magnitude);
        assert(r@ =~= signed_decimal(n as int));
        r
    } else {
        decimal_text(n as u64)
    }
}

/// Writes a truth value as YANG does.
pub fn truth_text(b: bool) -> (r: String)
    ensures
        r@ == truth(b),
{
    if b {
        String::from_str("true")
    } else {
        String::from_str("false")
    }
}

/// Replaces each `{}` of `template` by `value`.
pub fn fill(template: &str, value: &str) -> (r: String)
    ensures
        r@ == filled(template@, value@),
{
    let n = template.unicode_len();
    let mut r = String::new();
    let mut i: usize = 0;
    proof {
        assert(template@.skip(0) =~= template@);
    }
    while i < n
        invariant
            i <= n,
            n == template@.len(),
            filled(template@, value@) == r@ + filled(template@.skip(i as int), value@),
        decreases n - i,
    {
        let ghost rest = template@.skip(i as int);
        let ghost before = r@;
        if i + 1 < n && template.get_char(i) == '{' && template.get_char(i + 1) == '}' {
            r.append(value);
            proof {
                assert(rest.skip(2) =~= template@.skip(i + 2));
                assert(r@ + filled(template@.skip(i + 2), value@)
                    =~= before + filled(rest, value@));
            }
            i += 2;
        } else {
            r.append(template.substring_char(i, i + 1));
            proof {
                assert(template@.subrange(i as int, i + 1) =~= seq![rest[0]]);
                assert(rest.skip(1) =~= template@.skip(i + 1));
                assert(r@ + filled(template@.skip(i + 1), value@)
                    =~= before + filled(rest, value@));
            }
            i += 1;
        }
    }
    proof {
        assert(r@ + Seq::<char>::empty() =~= r@);
    }
    r
}

/// Joins two path segments with a slash.
pub fn join(first: &str, second: &str) -> (r: String)
    ensures
        r@ == first@ + seq!['/'] + second@,
{
    proof {
        reveal_strlit("/");
    }
    let mut r = String::from_str(first);
    r.append("/");
    r.append(second);
    assert(r@ =~= first@ + seq!['/'] + second@);
    r
}

} // verus!
