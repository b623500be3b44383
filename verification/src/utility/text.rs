//! Building text: what the types of the crate show themselves with.

use vstd::prelude::*;
use vstd::string::*;

verus! {

/// `String::push`: the character is added at the end.
#[verifier::external_body]
pub(crate) fn push_char(text: &mut String, c: char)
    ensures
        final(text)@ == old(text)@.push(c),
{
    text.push(c);
}

/// The texts of a list of strings, in order.
pub open spec fn texts(items: Seq<String>) -> Seq<Seq<char>> {
    Seq::new(items.len(), |i: int| items[i]@)
}

/// The first `n` items, with a comma and a space between each two.
pub open spec fn comma_separated(items: Seq<Seq<char>>, n: nat) -> Seq<char>
    decreases n,
{
    if n == 0 || n > items.len() {
        Seq::empty()
    } else if n == 1 {
        items[0]
    } else {
        comma_separated(items, (n - 1) as nat) + ", "@ + items[n - 1]
    }
}

/// Writes the items behind `out`, with a comma and a space between each
/// two.
pub fn write_comma_seperated(out: &mut String, items: &Vec<String>)
    ensures
        final(out)@ == old(out)@ + comma_separated(texts(items@), items.len() as nat),
{
    let mut first = true;
    let mut i: usize = 0;
    assert(out@ =~= old(out)@ + comma_separated(texts(items@), 0));
    while i < items.len()
        invariant
            i <= items.len(),
            first == (i == 0),
            out@ == old(out)@ + comma_separated(texts(items@), i as nat),
        decreases items.len() - i,
    {
        let ghost before = out@;
        if first {
            first = false;
        } else {
            out.append(", ");
        }
        out.append(items[i].as_str());
        proof {
            let all = texts(items@);
            assert(all[i as int] == items[i as int]@);
            if i == 0 {
                assert(out@ =~= old(out)@ + comma_separated(all, 1));
            } else {
                assert(out@ =~= old(out)@ + (comma_separated(all, i as nat) + ", "@
                    + all[i as int]));
            }
        }
        i += 1;
    }
}

/// The character of a decimal digit.
pub open spec fn digit_char(digit: nat) -> char {
    if digit == 0 {
        '0'
    } else if digit == 1 {
        '1'
    } else if digit == 2 {
        '2'
    } else if digit == 3 {
        '3'
    } else if digit == 4 {
        '4'
    } else if digit == 5 {
        '5'
    } else if digit == 6 {
        '6'
    } else if digit == 7 {
        '7'
    } else if digit == 8 {
        '8'
    } else {
        '9'
    }
}

/// A number in decimal, without leading zeros.
pub open spec fn decimal(n: nat) -> Seq<char>
    decreases n,
{
    if n < 10 {
        seq![digit_char(n)]
    } else {
        decimal(n / 10).push(digit_char(n % 10))
    }
}

/// A whole number in decimal, with a minus sign if it is negative.
pub open spec fn signed_decimal(n: int) -> Seq<char> {
    if n < 0 {
        seq!['-'] + decimal((-n) as nat)
    } else {
        decimal(n as nat)
    }
}

fn digit_of(digit: u128) -> (c: char)
    requires
        digit < 10,
    ensures
        c == digit_char(digit as nat),
{
    if digit == 0 {
        '0'
    } else if digit == 1 {
        '1'
    } else if digit == 2 {
        '2'
    } else if digit == 3 {
        '3'
    } else if digit == 4 {
        '4'
    } else if digit == 5 {
        '5'
    } else if digit == 6 {
        '6'
    } else if digit == 7 {
        '7'
    } else if digit == 8 {
        '8'
    } else {
        '9'
    }
}

/// Writes a number in decimal behind `out`.
pub fn write_decimal(out: &mut String, n: u128)
    ensures
        final(out)@ == old(out)@ + decimal(n as nat),
    decreases n,
{
    if n >= 10 {
        write_decimal(out, n / 10);
    }
    push_char(out, digit_of(n % 10));
    proof {
        if n >= 10 {
            assert(out@ =~= old(out)@ + decimal((n / 10) as nat).push(digit_char((n % 10) as nat)));
        } else {
            assert(out@ =~= old(out)@ + seq![digit_char(n as nat)]);
        }
    }
}

/// Writes a whole number in decimal behind `out`.
pub fn write_signed_decimal(out: &mut String, n: i64)
    ensures
        final(out)@ == old(out)@ + signed_decimal(n as int),
{
    if n < 0 {
        push_char(out, '-');
        let magnitude: u128 = (-(n as i128)) as u128;
        write_decimal(out, magnitude);
        assert(out@ =~= old(out)@ + (seq!['-'] + decimal((-n) as nat)));
    } else {
        write_decimal(out, n as u128);
    }
}

} // verus!
