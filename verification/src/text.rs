//! Putting texts together and taking them apart.

use vstd::prelude::*;

verus! {

/// The character of a digit.
pub open spec fn digit(d: int) -> char {
    (48 + d) as char
}

/// A number in decimal notation, without leading zeros.
pub open spec fn decimal(n: nat) -> Seq<char>
    decreases n,
{
    if n < 10 {
        seq![digit(n as int)]
    } else {
        decimal(n / 10).push(digit((n % 10) as int))
    }
}

fn digit_text(d: u8) -> (res: &'static str)
    requires
        d < 10,
    ensures
        res@ == seq![digit(d as int)],
{
    proof {
        reveal_strlit("0");
        reveal_strlit("1");
        reveal_strlit("2");
        reveal_strlit("3");
        reveal_strlit("4");
        reveal_strlit("5");
        reveal_strlit("6");
        reveal_strlit("7");
        reveal_strlit("8");
        reveal_strlit("9");
    }
    let res: &'static str = match d {
        0 => "0",
        1 => "1",
        2 => "2",
        3 => "3",
        4 => "4",
        5 => "5",
        6 => "6",
        7 => "7",
        8 => "8",
        _ => "9",
    };
    assert(res@ =~= seq![digit(d as int)]);
    res
}

/// Writes a number in decimal notation.
pub fn decimal_text(n: u128) -> (res: String)
    ensures
        res@ == decimal(n as nat),
    decreases n,
{
    if n < 10 {
        return digit_text(n as u8).to_owned();
    }
    let mut res: String = decimal_text(n / 10);
    res.append(digit_text((n % 10) as u8));
    assert(res@ =~= decimal(n as nat));
    res
}

/// A number in decimal notation, with a minus sign where it is negative.
pub open spec fn signed_decimal(n: int) -> Seq<char> {
    if n < 0 {
        seq!['-'] + decimal((-n) as nat)
    } else {
        decimal(n as nat)
    }
}

pub fn signed_text(n: i32) -> (res: String)
    ensures
        res@ == signed_decimal(n as int),
{
    let n: i64 = n as i64;
    if n < 0 {
        proof {
            reveal_strlit("-");
            assert("-"@ =~= seq!['-']);
        }
        join("-", decimal_text((-n) as u128).as_str())
    } else {
        decimal_text(n as u128)
    }
}

/// A number in decimal notation with at least two digits.
pub open spec fn two_digits(n: nat) -> Seq<char> {
    if n < 10 {
        seq!['0'] + decimal(n)
    } else {
        decimal(n)
    }
}

pub fn two_digit_text(n: u128) -> (res: String)
    ensures
        res@ == two_digits(n as nat),
{
    if n < 10 {
        let mut res: String = "0".to_owned();
        proof {
            reveal_strlit("0");
        }
        res.append(decimal_text(n).as_str());
        assert(res@ =~= two_digits(n as nat));
        res
    } else {
        decimal_text(n)
    }
}

/// Puts two texts together.
pub fn join(a: &str, b: &str) -> (res: String)
    ensures
        res@ == a@ + b@,
{
    let mut res: String = a.to_owned();
    res.append(b);
    res
}

/// Puts three texts together.
pub fn join3(a: &str, b: &str, c: &str) -> (res: String)
    ensures
        res@ == a@ + b@ + c@,
{
    let mut res: String = a.to_owned();
    res.append(b);
    res.append(c);
    res
}

/// Whether two texts are the same.
pub fn same_text(a: &str, b: &str) -> (res: bool)
    ensures
        res == (a@ == b@),
{
    let n: usize = a.unicode_len();
    if n != b.unicode_len() {
        return false;
    }
    let mut i: usize = 0;
    while i < n
        invariant
            i <= n,
            n == a@.len(),
            n == b@.len(),
            forall|j: int| 0 <= j < i ==> #[trigger] a@[j] == b@[j],
        decreases n - i,
    {
        if a.get_char(i) != b.get_char(i) {
            return false;
        }
        i = i + 1;
    }
    assert(a@ =~= b@);
    true
}

/// Whether a text ends with another one.
pub open spec fn has_suffix(text: Seq<char>, suffix: Seq<char>) -> bool {
    suffix.len() <= text.len() && text.skip(text.len() - suffix.len()) == suffix
}

pub fn ends_with(text: &str, suffix: &str) -> (res: bool)
    ensures
        res == has_suffix(text@, suffix@),
{
    let n: usize = text.unicode_len();
    let m: usize = suffix.unicode_len();
    if m > n {
        return false;
    }
    let mut i: usize = 0;
    while i < m
        invariant
            i <= m <= n,
            n == text@.len(),
            m == suffix@.len(),
            forall|j: int| 0 <= j < i ==> text@[n - m + j] == #[trigger] suffix@[j],
        decreases m - i,
    {
        if text.get_char(n - m + i) != suffix.get_char(i) {
            assert(text@.skip(n - m)[i as int] != suffix@[i as int]);
            return false;
        }
        i = i + 1;
    }
    assert(text@.skip(n - m) =~= suffix@);
    true
}

/// Whether a text begins with another one.
pub open spec fn has_prefix(text: Seq<char>, prefix: Seq<char>) -> bool {
    prefix.len() <= text.len() && text.take(prefix.len() as int) == prefix
}

pub fn starts_with(text: &str, prefix: &str) -> (res: bool)
    ensures
        res == has_prefix(text@, prefix@),
{
    let n: usize = text.unicode_len();
    let m: usize = prefix.unicode_len();
    if m > n {
        return false;
    }
    let mut i: usize = 0;
    while i < m
        invariant
            i <= m <= n,
            n == text@.len(),
            m == prefix@.len(),
            forall|j: int| 0 <= j < i ==> text@[j] == #[trigger] prefix@[j],
        decreases m - i,
    {
        if text.get_char(i) != prefix.get_char(i) {
            assert(text@.take(m as int)[i as int] != prefix@[i as int]);
            return false;
        }
        i = i + 1;
    }
    assert(text@.take(m as int) =~= prefix@);
    true
}

/// Every digit of a number in decimal notation is a digit, and only zero begins with one that is
/// zero.
pub proof fn law_decimal_has_no_leading_zero(n: nat)
    ensures
        decimal(n).len() > 0,
        forall|i: int| 0 <= i < decimal(n).len() ==> '0' <= #[trigger] decimal(n)[i] <= '9',
        decimal(n)[0] == '0' ==> n == 0,
    decreases n,
{
    if n >= 10 {
        law_decimal_has_no_leading_zero(n / 10);
    }
}

/// Different numbers are written differently.
pub proof fn law_decimal_is_injective(a: nat, b: nat)
    requires
        decimal(a) == decimal(b),
    ensures
        a == b,
    decreases a,
{
    if a >= 10 && b >= 10 {
        assert(decimal(a).drop_last() =~= decimal(a / 10));
        assert(decimal(b).drop_last() =~= decimal(b / 10));
        law_decimal_is_injective(a / 10, b / 10);
        assert(decimal(a).last() == digit((a % 10) as int));
        assert(decimal(b).last() == digit((b % 10) as int));
        assert(digit((a % 10) as int) as int == 48 + a % 10);
        assert(digit((b % 10) as int) as int == 48 + b % 10);
    } else if a >= 10 {
        law_decimal_has_no_leading_zero(a / 10);
        assert(decimal(a).len() >= 2 && decimal(b).len() == 1);
    } else if b >= 10 {
        law_decimal_has_no_leading_zero(b / 10);
        assert(decimal(b).len() >= 2 && decimal(a).len() == 1);
    } else {
        assert(decimal(a)[0] == digit(a as int) && decimal(b)[0] == digit(b as int));
        assert(digit(a as int) as int == 48 + a);
        assert(digit(b as int) as int == 48 + b);
    }
}

/// The number that a text of decimal digits stands for.
pub open spec fn number(text: Seq<char>) -> int
    decreases text.len(),
{
    if text.len() == 0 {
        0
    } else {
        10 * number(text.drop_last()) + (text.last() as int - '0' as int)
    }
}

/// What is written in decimal notation stands for the number that was written.
pub proof fn law_decimal_is_read_back(n: nat)
    ensures
        number(decimal(n)) == n,
    decreases n,
{
    if n < 10 {
        assert(decimal(n).drop_last() =~= seq![]);
        assert(digit(n as int) as int == 48 + n);
        assert(number(decimal(n).drop_last()) == 0);
        assert(decimal(n).last() == digit(n as int));
    } else {
        law_decimal_is_read_back(n / 10);
        assert(decimal(n).drop_last() =~= decimal(n / 10));
        assert(decimal(n).last() == digit((n % 10) as int));
        assert(digit((n % 10) as int) as int == 48 + n % 10);
    }
}

/// A negative number is written with a minus sign and the digits of its absolute value, any other one
/// with its digits alone.
pub proof fn law_minus_sign_is_written_in_front(n: int)
    ensures
        n >= 0 ==> number(signed_decimal(n)) == n,
        n < 0 ==> {
            &&& signed_decimal(n)[0] == '-'
            &&& number(signed_decimal(n).drop_first()) == -n
        },
        signed_decimal(n)[0] == '-' <==> n < 0,
{
    if n < 0 {
        law_decimal_is_read_back((-n) as nat);
        assert(signed_decimal(n).drop_first() =~= decimal((-n) as nat));
    } else {
        law_decimal_is_read_back(n as nat);
        law_decimal_has_no_leading_zero(n as nat);
        assert('0' <= decimal(n as nat)[0] <= '9');
    }
}

/// With two digits at least, a number stays what it is and only a single digit gets a zero in front.
pub proof fn law_two_digits_are_written_at_least(n: nat)
    ensures
        number(two_digits(n)) == n,
        two_digits(n).len() >= 2,
        n >= 10 ==> two_digits(n) == decimal(n),
        n < 100 ==> two_digits(n).len() == 2,
{
    law_decimal_is_read_back(n);
    if n < 10 {
        let text = two_digits(n);
        assert(text.drop_last() =~= seq!['0']);
        assert(seq!['0'].drop_last() =~= seq![]);
        assert(number(seq!['0']) == 0) by {
            assert(number(Seq::<char>::empty()) == 0);
        }
        assert(text.last() == digit(n as int));
        assert(digit(n as int) as int == 48 + n);
    } else {
        law_decimal_has_no_leading_zero(n / 10);
        if n < 100 {
            assert(decimal(n / 10).len() == 1);
        }
    }
}

/// A text begins with another one just when something can be put after that one to get the text, and
/// ends with it just when something can be put before it.
pub proof fn law_texts_begin_and_end_with_their_parts(text: Seq<char>, part: Seq<char>)
    ensures
        has_prefix(text, part) <==> exists|rest: Seq<char>| text == #[trigger] (part + rest),
        has_suffix(text, part) <==> exists|rest: Seq<char>| text == #[trigger] (rest + part),
{
    if has_prefix(text, part) {
        assert(text =~= part + text.skip(part.len() as int));
    }
    if exists|rest: Seq<char>| text == #[trigger] (part + rest) {
        let rest = choose|rest: Seq<char>| text == #[trigger] (part + rest);
        assert(text.take(part.len() as int) =~= part);
    }
    if has_suffix(text, part) {
        assert(text =~= text.take(text.len() - part.len()) + part);
    }
    if exists|rest: Seq<char>| text == #[trigger] (rest + part) {
        let rest = choose|rest: Seq<char>| text == #[trigger] (rest + part);
        assert(text.skip(text.len() - part.len()) =~= part);
    }
}

} // verus!
