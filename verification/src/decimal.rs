//! Decimal notation of unsigned integers: the text of a number as it is
//! written in identifiers and as it is read from a JSON number.

use vstd::prelude::*;
use vstd::string::*;

verus! {

/// The character that writes the digit `d`; digits above nine have none and
/// are given `'9'`.
pub open spec fn digit_char(d: nat) -> char {
    if d == 0 {
        '0'
    } else if d == 1 {
        '1'
    } else if d == 2 {
        '2'
    } else if d == 3 {
        '3'
    } else if d == 4 {
        '4'
    } else if d == 5 {
        '5'
    } else if d == 6 {
        '6'
    } else if d == 7 {
        '7'
    } else if d == 8 {
        '8'
    } else {
        '9'
    }
}

/// Whether `c` is one of the ten decimal digits.
pub open spec fn is_digit(c: char) -> bool {
    c == '0' || c == '1' || c == '2' || c == '3' || c == '4' || c == '5' || c == '6' || c == '7'
        || c == '8' || c == '9'
}

/// The digit that `c` writes; zero for a character that is no digit.
pub open spec fn digit_value(c: char) -> nat {
    if c == '1' {
        1
    } else if c == '2' {
        2
    } else if c == '3' {
        3
    } else if c == '4' {
        4
    } else if c == '5' {
        5
    } else if c == '6' {
        6
    } else if c == '7' {
        7
    } else if c == '8' {
        8
    } else if c == '9' {
        9
    } else {
        0
    }
}

/// The decimal notation of `n`: most significant digit first, no sign, no
/// leading zero (zero itself is written `0`).
pub open spec fn decimal(n: nat) -> Seq<char>
    decreases n,
{
    if n < 10 {
        seq![digit_char(n)]
    } else {
        decimal(n / 10).push(digit_char(n % 10))
    }
}

/// Whether `s` has the shape of a decimal notation: at least one character,
/// digits only, and no leading zero before further digits.
pub open spec fn is_canonical(s: Seq<char>) -> bool {
    &&& s.len() >= 1
    &&& forall|i: int| 0 <= i < s.len() ==> is_digit(#[trigger] s[i])
    &&& s.len() > 1 ==> s[0] != '0'
}

/// The number that the digits of `s` write, read from the left.
pub open spec fn digits_value(s: Seq<char>) -> nat
    decreases s.len(),
{
    if s.len() == 0 {
        0
    } else {
        digits_value(s.drop_last()) * 10 + digit_value(s.last())
    }
}

/// The notation of a number is canonical and reads back as that number.
pub proof fn lemma_decimal_reads_back(n: nat)
    ensures
        is_canonical(decimal(n)),
        digits_value(decimal(n)) == n,
    decreases n,
{
    if n < 10 {
        assert(digits_value(decimal(n).drop_last()) == 0);
    } else {
        lemma_decimal_reads_back(n / 10);
        let head = decimal(n / 10);
        assert(decimal(n).drop_last() =~= head);
        if head.len() == 1 {
            assert(digits_value(head.drop_last()) == 0);
        }
    }
}

/// A canonical digit string is the notation of the number it writes.
pub proof fn lemma_canonical_is_decimal(s: Seq<char>)
    requires
        is_canonical(s),
    ensures
        decimal(digits_value(s)) == s,
    decreases s.len(),
{
    let head = s.drop_last();
    if s.len() == 1 {
        assert(digits_value(head) == 0);
    } else {
        lemma_leading_digit_bounds(head);
        lemma_canonical_is_decimal(head);
    }
}

/// A digit string that does not begin with zero writes a positive number.
pub proof fn lemma_leading_digit_bounds(s: Seq<char>)
    requires
        s.len() >= 1,
        forall|i: int| 0 <= i < s.len() ==> is_digit(#[trigger] s[i]),
        s[0] != '0',
    ensures
        digits_value(s) >= 1,
    decreases s.len(),
{
    if s.len() > 1 {
        lemma_leading_digit_bounds(s.drop_last());
    }
}

/// Two numbers with the same notation are the same number.
pub proof fn lemma_decimal_injective(a: nat, b: nat)
    requires
        decimal(a) == decimal(b),
    ensures
        a == b,
{
    lemma_decimal_reads_back(a);
    lemma_decimal_reads_back(b);
}

/// The one-character text of the digit `d`.
fn digit_text(d: u64) -> (s: &'static str)
    requires
        d < 10,
    ensures
        s@ == seq![digit_char(d as nat)],
{
    proof {
        reveal_strlit("0");
        reveal_strlit("1");
        reveal_strlit("2");
        reveal_strlit("3");
        reveal_strlit("4");
        reveal_strlit("5");
        reveal_strlit("6");
        reveal_strlit("7");
        reveal_strlit("8");
        reveal_strlit("9");
    }
    if d == 0 {
        "0"
    } else if d == 1 {
        "1"
    } else if d == 2 {
        "2"
    } else if d == 3 {
        "3"
    } else if d == 4 {
        "4"
    } else if d == 5 {
        "5"
    } else if d == 6 {
        "6"
    } else if d == 7 {
        "7"
    } else if d == 8 {
        "8"
    } else {
        "9"
    }
}

/// Writes `n` in decimal notation.
pub fn decimal_string(n: u64) -> (s: String)
    ensures
        s@ == decimal(n as nat),
{
    let mut rest: u64 = n / 10;
    let mut s: String = String::from_str(digit_text(n % 10));
    while rest > 0
        invariant
            rest > 0 ==> decimal(n as nat) == decimal(rest as nat) + s@,
            rest == 0 ==> s@ == decimal(n as nat),
        decreases rest,
    {
        let front: String = String::from_str(digit_text(rest % 10));
        s = front.concat(s.as_str());
        rest = rest / 10;
    }
    s
}

/// The digit that `c` writes, if it is one.
fn digit_of(c: char) -> (d: Option<u64>)
    ensures
        d is Some <==> is_digit(c),
        d matches Some(v) ==> v == digit_value(c) && v < 10,
{
    if c == '0' {
        Some(0)
    } else if c == '1' {
        Some(1)
    } else if c == '2' {
        Some(2)
    } else if c == '3' {
        Some(3)
    } else if c == '4' {
        Some(4)
    } else if c == '5' {
        Some(5)
    } else if c == '6' {
        Some(6)
    } else if c == '7' {
        Some(7)
    } else if c == '8' {
        Some(8)
    } else if c == '9' {
        Some(9)
    } else {
        None
    }
}

/// A digit string writes at least what any of its prefixes writes.
pub proof fn lemma_prefix_value(s: Seq<char>, k: int)
    requires
        0 <= k <= s.len(),
    ensures
        digits_value(s.take(k)) <= digits_value(s),
    decreases s.len() - k,
{
    if k == s.len() {
        assert(s.take(k) =~= s);
    } else {
        lemma_prefix_value(s, k + 1);
        let longer = s.take(k + 1);
        assert(longer.drop_last() =~= s.take(k));
    }
}

/// The number of 64 bits whose decimal notation `text` is, if there is one.
pub open spec fn read_decimal(text: Seq<char>) -> Option<u64> {
    if is_canonical(text) && digits_value(text) <= u64::MAX {
        Some(digits_value(text) as u64)
    } else {
        None
    }
}

/// Reading inverts writing: a text reads as `n` exactly when it is the
/// notation of `n`.
pub proof fn lemma_read_decimal(text: Seq<char>, n: u64)
    ensures
        read_decimal(text) == Some(n) <==> text == decimal(n as nat),
{
    if text == decimal(n as nat) {
        lemma_decimal_reads_back(n as nat);
    }
    if read_decimal(text) == Some(n) {
        lemma_canonical_is_decimal(text);
    }
}

/// Reads a number in decimal notation. The text is accepted exactly when it is
/// the notation of a number that fits 64 bits.
pub fn parse_decimal(text: &str) -> (r: Option<u64>)
    ensures
        r == read_decimal(text@),
        r matches Some(n) ==> text@ == decimal(n as nat),
        r is None ==> forall|n: u64| text@ != decimal(n as nat),
{
    let len: usize = text.unicode_len();
    if len == 0 {
        assert forall|n: u64| text@ != decimal(n as nat) by {
            lemma_decimal_reads_back(n as nat);
        }
        return None;
    }
    let mut acc: u64 = 0;
    let mut i: usize = 0;
    while i < len
        invariant
            len == text@.len(),
            0 <= i <= len,
            acc == digits_value(text@.take(i as int)),
            forall|j: int| 0 <= j < i ==> is_digit(#[trigger] text@[j]),
            i > 1 ==> text@[0] != '0',
        decreases len - i,
    {
        let c: char = text.get_char(i);
        assert(text@.take(i as int + 1).drop_last() =~= text@.take(i as int));
        match digit_of(c) {
            None => {
                assert forall|n: u64| text@ != decimal(n as nat) by {
                    lemma_decimal_reads_back(n as nat);
                }
                return None;
            },
            Some(d) => {
                if i == 1 && acc == 0 {
                    assert forall|n: u64| text@ != decimal(n as nat) by {
                        lemma_decimal_reads_back(n as nat);
                    }
                    return None;
                }
                if acc > (u64::MAX - d) / 10 {
                    proof {
                        lemma_prefix_value(text@, i as int + 1);
                    }
                    assert forall|n: u64| text@ != decimal(n as nat) by {
                        lemma_decimal_reads_back(n as nat);
                    }
                    return None;
                }
                proof {
                    if i == 1 {
                        assert(digits_value(text@.take(1).drop_last()) == 0);
                    }
                }
                acc = acc * 10 + d;
                i = i + 1;
            },
        }
    }
    proof {
        assert(text@.take(len as int) =~= text@);
        lemma_canonical_is_decimal(text@);
    }
    Some(acc)
}

} // verus!
