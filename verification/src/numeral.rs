//! Unsigned and signed integers written out as text.

use vstd::prelude::*;

verus! {

/// The character that stands for the digit `d`, lower case above nine.
pub open spec fn digit(d: nat) -> char {
    if d == 0 {
        '0'
    } else if d == 1 {
        '1'
    } else if d == 2 {
        '2'
    } else if d == 3 {
        '3'
    } else if d == 4 {
        '4'
    } else if d == 5 {
        '5'
    } else if d == 6 {
        '6'
    } else if d == 7 {
        '7'
    } else if d == 8 {
        '8'
    } else if d == 9 {
        '9'
    } else if d == 10 {
        'a'
    } else if d == 11 {
        'b'
    } else if d == 12 {
        'c'
    } else if d == 13 {
        'd'
    } else if d == 14 {
        'e'
    } else {
        'f'
    }
}

/// `n` in positional notation: most significant digit first, no padding, no
/// prefix, and the single digit `0` for zero. A radix has to be two at least;
/// below that the definition stops at one digit.
pub open spec fn numeral(n: nat, radix: nat) -> Seq<char>
    decreases n,
    via numeral_shrinks
{
    if radix < 2 || n < radix {
        seq![digit(n)]
    } else {
        numeral(n / radix, radix).push(digit(n % radix))
    }
}

#[via_fn]
proof fn numeral_shrinks(n: nat, radix: nat) {
    if radix >= 2 && n >= radix {
        lemma_quotient_smaller(n, radix);
    }
}

/// Dividing a positive number by two or more makes it smaller.
proof fn lemma_quotient_smaller(n: nat, radix: nat)
    requires
        2 <= radix <= n,
    ensures
        n / radix < n,
        0 <= n % radix < radix,
{
    assert(n / radix < n && 0 <= n % radix < radix) by (nonlinear_arith)
        requires
            2 <= radix <= n,
    ;
}

/// `n` in base ten.
pub open spec fn decimal(n: nat) -> Seq<char> {
    numeral(n, 10)
}

/// `n` in base sixteen with lower-case letters.
pub open spec fn lower_hex(n: nat) -> Seq<char> {
    numeral(n, 16)
}

/// `v` in base ten, with a leading minus sign when it is negative.
pub open spec fn signed_decimal(v: int) -> Seq<char> {
    if v < 0 {
        seq!['-'] + decimal((-v) as nat)
    } else {
        decimal(v as nat)
    }
}

/// A numeral has at least one digit.
proof fn numeral_is_not_empty(n: nat, radix: nat)
    ensures
        numeral(n, radix).len() >= 1,
{
}

/// Different numbers are written differently: a numeral in a radix from two
/// to sixteen stands for one number only.
pub proof fn numeral_names_one_number(a: nat, b: nat, radix: nat)
    requires
        2 <= radix <= 16,
        numeral(a, radix) == numeral(b, radix),
    ensures
        a == b,
    decreases a,
{
    let text = numeral(a, radix);
    if a >= radix {
        numeral_is_not_empty(a / radix, radix);
    }
    if b >= radix {
        numeral_is_not_empty(b / radix, radix);
    }
    if a < radix {
        assert(text.len() == 1);
        assert(b < radix);
        assert(text[0] == digit(a) && text[0] == digit(b));
    } else {
        assert(text.len() >= 2);
        assert(b >= radix);
        lemma_quotient_smaller(a, radix);
        lemma_quotient_smaller(b, radix);
        let high_a = numeral(a / radix, radix);
        let high_b = numeral(b / radix, radix);
        assert(text.drop_last() =~= high_a);
        assert(text.drop_last() =~= high_b);
        assert(text.last() == digit(a % radix) && text.last() == digit(b % radix));
        numeral_names_one_number(a / radix, b / radix, radix);
        assert(a == b) by (nonlinear_arith)
            requires
                radix > 0,
                a / radix == b / radix,
                a % radix == b % radix,
        ;
    }
}

/// One digit as a string slice.
fn digit_str(d: u8) -> (r: &'static str)
    requires
        d < 16,
    ensures
        r@ == seq![digit(d as nat)],
{
    proof {
        reveal_strlit("0");
        reveal_strlit("1");
        reveal_strlit("2");
        reveal_strlit("3");
        reveal_strlit("4");
        reveal_strlit("5");
        reveal_strlit("6");
        reveal_strlit("7");
        reveal_strlit("8");
        reveal_strlit("9");
        reveal_strlit("a");
        reveal_strlit("b");
        reveal_strlit("c");
        reveal_strlit("d");
        reveal_strlit("e");
        reveal_strlit("f");
    }
    let r = match d {
        0 => "0",
        1 => "1",
        2 => "2",
        3 => "3",
        4 => "4",
        5 => "5",
        6 => "6",
        7 => "7",
        8 => "8",
        9 => "9",
        10 => "a",
        11 => "b",
        12 => "c",
        13 => "d",
        14 => "e",
        _ => "f",
    };
    assert(r@ =~= seq![digit(d as nat)]);
    r
}

/// Appends `n` in the given radix to `buffer`.
fn push_numeral(buffer: &mut String, n: u128, radix: u8)
    requires
        2 <= radix <= 16,
    ensures
        final(buffer)@ == old(buffer)@ + numeral(n as nat, radix as nat),
    decreases n,
{
    let wide: u128 = radix as u128;
    if n >= wide {
        proof {
            lemma_quotient_smaller(n as nat, radix as nat);
        }
        push_numeral(buffer, n / wide, radix);
    }
    assert(0 <= n % wide < 16 && (n < wide ==> n % wide == n)) by (nonlinear_arith)
        requires
            2 <= wide <= 16,
    ;
    let low: u8 = (n % wide) as u8;
    buffer.append(digit_str(low));
    assert(buffer@ =~= old(buffer)@ + numeral(n as nat, radix as nat));
}

/// Appends `n` in base ten to `buffer`.
pub fn push_decimal(buffer: &mut String, n: u128)
    ensures
        final(buffer)@ == old(buffer)@ + decimal(n as nat),
{
    push_numeral(buffer, n, 10);
}

/// Appends `v` in base ten to `buffer`, behind a minus sign when it is
/// negative.
pub fn push_signed_decimal(buffer: &mut String, v: i128)
    ensures
        final(buffer)@ == old(buffer)@ + signed_decimal(v as int),
{
    if v < 0 {
        proof {
            reveal_strlit("-");
        }
        buffer.append("-");
        // `-v` does not fit where `v` is the least value of its type
        let magnitude: u128 = ((-(v + 1)) as u128) + 1;
        push_numeral(buffer, magnitude, 10);
    } else {
        push_numeral(buffer, v as u128, 10);
    }
    assert(buffer@ =~= old(buffer)@ + signed_decimal(v as int));
}

/// Appends `n` in base sixteen, in lower case, to `buffer`.
pub fn push_lower_hex(buffer: &mut String, n: u64)
    ensures
        final(buffer)@ == old(buffer)@ + lower_hex(n as nat),
{
    push_numeral(buffer, n as u128, 16);
}

} // verus!
