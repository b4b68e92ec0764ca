//! Text helpers: comparing string slices and spelling numbers in decimal,
//! as the messages sent back to players need them.

use vstd::prelude::*;
use crate::search::{first_where, lemma_first_where_at, lemma_first_where_none};

verus! {

/// The character that stands for a decimal digit.
pub open spec fn digit_char(d: nat) -> char {
    if d == 0 {
        '0'
    } else if d == 1 {
        '1'
    } else if d == 2 {
        '2'
    } else if d == 3 {
        '3'
    } else if d == 4 {
        '4'
    } else if d == 5 {
        '5'
    } else if d == 6 {
        '6'
    } else if d == 7 {
        '7'
    } else if d == 8 {
        '8'
    } else {
        '9'
    }
}

/// The decimal spelling of a natural number, without leading zeros.
pub open spec fn decimal(n: nat) -> Seq<char>
    decreases n,
{
    if n < 10 {
        seq![digit_char(n)]
    } else {
        decimal(n / 10).push(digit_char(n % 10))
    }
}

/// Whether two string slices hold the same characters.
pub fn same_text(a: &str, b: &str) -> (r: bool)
    ensures
        r == (a@ == b@),
{
    a.to_owned() == b.to_owned()
}

/// The one-character text of a decimal digit.
pub fn digit_text(d: u64) -> (r: &'static str)
    requires
        d < 10,
    ensures
        r@ == seq![digit_char(d as nat)],
{
    proof {
        reveal_strlit("0");
        reveal_strlit("1");
        reveal_strlit("2");
        reveal_strlit("3");
        reveal_strlit("4");
        reveal_strlit("5");
        reveal_strlit("6");
        reveal_strlit("7");
        reveal_strlit("8");
        reveal_strlit("9");
    }
    let r = if d == 0 {
        "0"
    } else if d == 1 {
        "1"
    } else if d == 2 {
        "2"
    } else if d == 3 {
        "3"
    } else if d == 4 {
        "4"
    } else if d == 5 {
        "5"
    } else if d == 6 {
        "6"
    } else if d == 7 {
        "7"
    } else if d == 8 {
        "8"
    } else {
        "9"
    };
    assert(r@ =~= seq![digit_char(d as nat)]);
    r
}

/// Spells a number in decimal.
pub fn decimal_string(n: u64) -> (r: String)
    ensures
        r@ == decimal(n as nat),
    decreases n,
{
    if n < 10 {
        digit_text(n).to_string()
    } else {
        let mut s = decimal_string(n / 10);
        s.append(digit_text(n % 10));
        assert(s@ =~= decimal((n / 10) as nat).push(digit_char((n % 10) as nat)));
        s
    }
}

/// Joins two texts.
pub fn join2(a: &str, b: &str) -> (r: String)
    ensures
        r@ == a@ + b@,
{
    let mut s = a.to_string();
    s.append(b);
    s
}

/// The condition of being a given character.
pub open spec fn is_char(c: char) -> spec_fn(char) -> bool {
    |x: char| x == c
}

/// The part of a text before the first occurrence of a character; all of it
/// where the character does not occur.
pub open spec fn before_char(s: Seq<char>, c: char) -> Seq<char> {
    let i = first_where(s, is_char(c));
    if i < 0 {
        s
    } else {
        s.subrange(0, i)
    }
}

/// The part of a text before the first occurrence of a character.
pub fn text_before(s: &str, c: char) -> (r: String)
    ensures
        r@ == before_char(s@, c),
{
    let length = s.unicode_len();
    let mut i: usize = 0;
    while i < length
        invariant
            i <= length,
            length == s@.len(),
            forall|j: int| 0 <= j < i ==> !is_char(c)(#[trigger] s@[j]),
        decreases length - i,
    {
        if s.get_char(i) == c {
            proof {
                lemma_first_where_at(s@, is_char(c), i as int);
            }
            return s.substring_char(0, i).to_string();
        }
        i += 1;
    }
    proof {
        lemma_first_where_none(s@, is_char(c));
    }
    s.to_string()
}

/// A character, with a space in place of an underscore.
pub open spec fn spaced(c: char) -> char {
    if c == '_' {
        ' '
    } else {
        c
    }
}

/// A text with a space in place of every underscore.
pub open spec fn with_spaces(s: Seq<char>) -> Seq<char> {
    s.map_values(|c: char| spaced(c))
}

/// Puts a space in place of every underscore of a text.
pub fn underscores_to_spaces(s: &str) -> (r: String)
    ensures
        r@ == with_spaces(s@),
{
    proof {
        reveal_strlit(" ");
    }
    let length = s.unicode_len();
    let mut text = String::new();
    let mut i: usize = 0;
    while i < length
        invariant
            i <= length,
            length == s@.len(),
            " "@ == seq![' '],
            text@ == with_spaces(s@.subrange(0, i as int)),
        decreases length - i,
    {
        if s.get_char(i) == '_' {
            text.append(" ");
        } else {
            text.append(s.substring_char(i, i + 1));
        }
        proof {
            assert(text@ =~= with_spaces(s@.subrange(0, i + 1)));
        }
        i += 1;
    }
    proof {
        assert(s@.subrange(0, i as int) =~= s@);
    }
    text
}

/// Joins five texts.
pub fn join5(a: &str, b: &str, c: &str, d: &str, e: &str) -> (r: String)
    ensures
        r@ == a@ + b@ + c@ + d@ + e@,
{
    let mut text = a.to_string();
    text.append(b);
    text.append(c);
    text.append(d);
    text.append(e);
    text
}

/// Joins four texts.
pub fn join4(a: &str, b: &str, c: &str, d: &str) -> (r: String)
    ensures
        r@ == a@ + b@ + c@ + d@,
{
    let mut text = a.to_string();
    text.append(b);
    text.append(c);
    text.append(d);
    text
}

/// Joins three texts.
pub fn join3(a: &str, b: &str, c: &str) -> (r: String)
    ensures
        r@ == a@ + b@ + c@,
{
    let mut text = a.to_string();
    text.append(b);
    text.append(c);
    text
}

/// Whether a text begins with another.
pub open spec fn has_prefix(s: Seq<char>, prefix: Seq<char>) -> bool {
    s.len() >= prefix.len() && s.subrange(0, prefix.len() as int) == prefix
}

/// Whether a text begins with another.
pub fn starts_with(s: &str, prefix: &str) -> (r: bool)
    ensures
        r == has_prefix(s@, prefix@),
{
    let length = prefix.unicode_len();
    if s.unicode_len() < length {
        return false;
    }
    same_text(s.substring_char(0, length), prefix)
}

/// A text without the run of a character that ends it.
pub open spec fn without_trailing(s: Seq<char>, c: char) -> Seq<char>
    decreases s.len(),
{
    if s.len() > 0 && s.last() == c {
        without_trailing(s.drop_last(), c)
    } else {
        s
    }
}

/// Cuts the run of a character off the end of a text.
pub fn trim_trailing(s: &str, c: char) -> (r: String)
    ensures
        r@ == without_trailing(s@, c),
{
    let mut n = s.unicode_len();
    proof {
        assert(s@.subrange(0, n as int) =~= s@);
    }
    while n > 0 && s.get_char(n - 1) == c
        invariant
            n <= s@.len(),
            without_trailing(s@, c) == without_trailing(s@.subrange(0, n as int), c),
        decreases n,
    {
        proof {
            assert(s@.subrange(0, n as int).drop_last() =~= s@.subrange(0, n - 1));
        }
        n -= 1;
    }
    proof {
        let kept = s@.subrange(0, n as int);
        if n > 0 {
            assert(kept.last() == s@[n - 1]);
        }
    }
    s.substring_char(0, n).to_string()
}

} // verus!
