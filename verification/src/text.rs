//! Small facts about text: comparing string slices and writing numbers out.

use vstd::prelude::*;

verus! {

/// `<str as PartialEq>::eq`, the `==` of string slices: it holds exactly when
/// both slices hold the same characters.
pub assume_specification[ <str as PartialEq>::eq ](a: &str, b: &str) -> (r: bool)
    ensures
        r == (a@ == b@),
;

/// The character that stands for one digit; digits above nine take letters, as in
/// upper-case hexadecimal.
pub open spec fn digit(d: nat) -> char {
    if d == 0 {
        '0'
    } else if d == 1 {
        '1'
    } else if d == 2 {
        '2'
    } else if d == 3 {
        '3'
    } else if d == 4 {
        '4'
    } else if d == 5 {
        '5'
    } else if d == 6 {
        '6'
    } else if d == 7 {
        '7'
    } else if d == 8 {
        '8'
    } else if d == 9 {
        '9'
    } else if d == 10 {
        'A'
    } else if d == 11 {
        'B'
    } else if d == 12 {
        'C'
    } else if d == 13 {
        'D'
    } else if d == 14 {
        'E'
    } else {
        'F'
    }
}

/// Dividing a number that reaches the base makes it smaller.
pub proof fn quotient_is_smaller(n: nat, base: nat)
    requires
        2 <= base <= n,
    ensures
        n / base < n,
{
    assert(n / base < n) by (nonlinear_arith)
        requires
            2 <= base <= n,
    ;
}

/// `n` written in the given base (2 to 16), most significant digit first, without
/// leading zeros.
pub open spec fn numeral(n: nat, base: nat) -> Seq<char>
    recommends
        2 <= base <= 16,
    decreases n,
{
    if n < base || base < 2 {
        seq![digit(n)]
    } else {
        proof {
            quotient_is_smaller(n, base);
        }
        numeral(n / base, base).push(digit(n % base))
    }
}

/// `n` in decimal.
pub open spec fn decimal(n: nat) -> Seq<char> {
    numeral(n, 10)
}

/// `n` in upper-case hexadecimal.
pub open spec fn upper_hex(n: nat) -> Seq<char> {
    numeral(n, 16)
}

/// Different digits have different characters.
pub proof fn digit_is_injective(a: nat, b: nat)
    requires
        a < 16,
        b < 16,
        digit(a) == digit(b),
    ensures
        a == b,
{
}

/// A numeral has at least one digit, and at least two once the number reaches
/// the base.
pub proof fn numeral_len(n: nat, base: nat)
    requires
        2 <= base <= 16,
    ensures
        numeral(n, base).len() >= 1,
        n >= base ==> numeral(n, base).len() >= 2,
    decreases n,
{
    if n >= base {
        quotient_is_smaller(n, base);
        numeral_len(n / base, base);
    }
}

/// Two numbers with the same numeral are the same number.
pub proof fn numeral_is_injective(a: nat, b: nat, base: nat)
    requires
        2 <= base <= 16,
        numeral(a, base) == numeral(b, base),
    ensures
        a == b,
    decreases a,
{
    numeral_len(a, base);
    numeral_len(b, base);
    if a < base && b < base {
        assert(numeral(a, base)[0] == digit(a));
        assert(numeral(b, base)[0] == digit(b));
        digit_is_injective(a, b);
    } else if a >= base && b >= base {
        quotient_is_smaller(a, base);
        let x = numeral(a / base, base);
        let y = numeral(b / base, base);
        assert(x.push(digit(a % base)).last() == digit(a % base));
        assert(y.push(digit(b % base)).last() == digit(b % base));
        assert(x.push(digit(a % base)).drop_last() =~= x);
        assert(y.push(digit(b % base)).drop_last() =~= y);
        digit_is_injective(a % base, b % base);
        numeral_is_injective(a / base, b / base, base);
        assert(a == base * (a / base) + a % base) by (nonlinear_arith)
            requires
                base >= 2,
        ;
        assert(b == base * (b / base) + b % base) by (nonlinear_arith)
            requires
                base >= 2,
        ;
    } else {
        assert(numeral(a, base).len() != numeral(b, base).len());
    }
}

/// The one-character text of a digit.
fn digit_text(d: u64) -> (r: &'static str)
    requires
        d < 16,
    ensures
        r@ == seq![digit(d as nat)],
{
    let r = if d == 0 {
        "0"
    } else if d == 1 {
        "1"
    } else if d == 2 {
        "2"
    } else if d == 3 {
        "3"
    } else if d == 4 {
        "4"
    } else if d == 5 {
        "5"
    } else if d == 6 {
        "6"
    } else if d == 7 {
        "7"
    } else if d == 8 {
        "8"
    } else if d == 9 {
        "9"
    } else if d == 10 {
        "A"
    } else if d == 11 {
        "B"
    } else if d == 12 {
        "C"
    } else if d == 13 {
        "D"
    } else if d == 14 {
        "E"
    } else {
        "F"
    };
    proof {
        reveal_strlit("0");
        reveal_strlit("1");
        reveal_strlit("2");
        reveal_strlit("3");
        reveal_strlit("4");
        reveal_strlit("5");
        reveal_strlit("6");
        reveal_strlit("7");
        reveal_strlit("8");
        reveal_strlit("9");
        reveal_strlit("A");
        reveal_strlit("B");
        reveal_strlit("C");
        reveal_strlit("D");
        reveal_strlit("E");
        reveal_strlit("F");
        assert(r@ =~= seq![digit(d as nat)]);
    }
    r
}

/// Writes `n` in the given base behind what `out` already holds.
fn push_numeral(out: &mut String, n: u64, base: u64)
    requires
        2 <= base <= 16,
    ensures
        final(out)@ == old(out)@ + numeral(n as nat, base as nat),
    decreases n,
{
    if n < base {
        out.append(digit_text(n));
    } else {
        proof {
            quotient_is_smaller(n as nat, base as nat);
        }
        push_numeral(out, n / base, base);
        out.append(digit_text(n % base));
        assert(final(out)@ =~= old(out)@ + numeral(n as nat, base as nat));
    }
}

/// Writes `n` in decimal behind what `out` already holds.
pub fn push_decimal(out: &mut String, n: u64)
    ensures
        final(out)@ == old(out)@ + decimal(n as nat),
{
    push_numeral(out, n, 10);
}

/// Writes `n` in upper-case hexadecimal behind what `out` already holds.
pub fn push_upper_hex(out: &mut String, n: u64)
    ensures
        final(out)@ == old(out)@ + upper_hex(n as nat),
{
    push_numeral(out, n, 16);
}

/// Whether `a` comes before `b` in the order of texts: at the first place where
/// the two differ `a` holds the character with the lower code point, or `a`
/// ends there and `b` goes on.
pub open spec fn text_before(a: Seq<char>, b: Seq<char>) -> bool
    decreases a.len(),
{
    if b.len() == 0 {
        false
    } else if a.len() == 0 {
        true
    } else if a[0] != b[0] {
        (a[0] as u32) < (b[0] as u32)
    } else {
        text_before(a.drop_first(), b.drop_first())
    }
}

/// No text comes before itself.
pub proof fn no_text_before_itself(a: Seq<char>)
    ensures
        !text_before(a, a),
    decreases a.len(),
{
    if a.len() > 0 {
        no_text_before_itself(a.drop_first());
    }
}

/// Of two different texts one comes before the other.
pub proof fn one_text_comes_first(a: Seq<char>, b: Seq<char>)
    requires
        a != b,
    ensures
        text_before(a, b) || text_before(b, a),
    decreases a.len(),
{
    if a.len() > 0 && b.len() > 0 {
        if a[0] == b[0] {
            if a.drop_first() == b.drop_first() {
                assert(a =~= seq![a[0]] + a.drop_first());
                assert(b =~= seq![b[0]] + b.drop_first());
                assert(false);
            }
            one_text_comes_first(a.drop_first(), b.drop_first());
        } else {
            vstd::utf8::char_u32_cast(a[0], a[0] as u32);
            vstd::utf8::char_u32_cast(b[0], b[0] as u32);
        }
    } else if a.len() == 0 && b.len() == 0 {
        assert(a =~= b);
    }
}

/// What comes before a text comes before all that the text comes before.
pub proof fn text_before_carries_on(a: Seq<char>, b: Seq<char>, c: Seq<char>)
    requires
        text_before(a, b),
        text_before(b, c),
    ensures
        text_before(a, c),
    decreases a.len(),
{
    if a.len() > 0 && a[0] == b[0] && b[0] == c[0] {
        text_before_carries_on(a.drop_first(), b.drop_first(), c.drop_first());
    }
}

/// The `<` of string slices, `<str as PartialOrd>::lt`: slices are ordered by
/// their bytes, which orders them by the code points of their characters, a
/// slice before every longer one that starts with it.
#[verifier::external_body]
pub(crate) fn comes_before(a: &str, b: &str) -> (r: bool)
    ensures
        r == text_before(a@, b@),
{
    a < b
}

/// Whether two string slices hold the same characters.
pub fn same_text(a: &str, b: &str) -> (r: bool)
    ensures
        r == (a@ == b@),
{
    a.eq(b)
}

} // verus!
