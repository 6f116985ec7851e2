//! Text helpers: decimal numerals, and copies of texts that keep their characters.
use vstd::prelude::*;

verus! {

/// The character of one decimal digit.
pub open spec fn digit(d: nat) -> char {
    (48 + d) as char
}

/// The decimal numeral of `n`, without leading zeros.
pub open spec fn decimal(n: nat) -> Seq<char>
    decreases n,
{
    if n < 10 {
        seq![digit(n)]
    } else {
        decimal(n / 10).push(digit(n % 10))
    }
}

/// Different numbers have different numerals.
pub proof fn decimal_injective(a: nat, b: nat)
    requires
        decimal(a) == decimal(b),
    ensures
        a == b,
    decreases a,
{
    let x = decimal(a);
    let y = decimal(b);
    assert(x.last() == digit(a % 10));
    assert(y.last() == digit(b % 10));
    assert(a % 10 == b % 10);
    if a >= 10 {
        decimal_nonempty(a / 10);
        assert(b >= 10);
        assert(decimal(a / 10) =~= x.drop_last());
        assert(decimal(b / 10) =~= y.drop_last());
        decimal_injective(a / 10, b / 10);
    } else if b >= 10 {
        decimal_nonempty(b / 10);
    }
}

pub(crate) proof fn decimal_nonempty(n: nat)
    ensures
        decimal(n).len() >= 1,
    decreases n,
{
    if n >= 10 {
        decimal_nonempty(n / 10);
    }
}

/// The number that a text of decimal digits stands for.
pub open spec fn numeral_value(text: Seq<char>) -> int
    decreases text.len(),
{
    if text.len() == 0 {
        0
    } else {
        10 * numeral_value(text.drop_last()) + (text.last() as int - '0' as int)
    }
}

/// The numeral of a number is made of the digits from zero to nine, stands for that number, and
/// does not start with a zero unless it is the one digit of zero.
pub proof fn numerals_stand_for_their_numbers(n: nat)
    ensures
        decimal(n).len() > 0,
        forall|i: int| 0 <= i < decimal(n).len() ==> '0' <= #[trigger] decimal(n)[i] <= '9',
        numeral_value(decimal(n)) == n,
        n > 0 ==> decimal(n)[0] != '0',
        decimal(0) == seq!['0'],
    decreases n,
{
    assert(digit(n % 10) as int == 48 + n % 10);
    assert(decimal(n).last() == digit(n % 10));
    if n >= 10 {
        numerals_stand_for_their_numbers(n / 10);
        assert(decimal(n).drop_last() =~= decimal(n / 10));
    } else {
        assert(decimal(n).drop_last() =~= Seq::empty());
        assert(numeral_value(decimal(n).drop_last()) == 0);
    }
}

/// Two texts that start with the same prefix differ where the rests differ.
pub proof fn prefixed_injective(prefix: Seq<char>, a: Seq<char>, b: Seq<char>)
    requires
        prefix + a == prefix + b,
    ensures
        a == b,
{
    let x = prefix + a;
    let y = prefix + b;
    assert(a =~= x.subrange(prefix.len() as int, x.len() as int));
    assert(b =~= y.subrange(prefix.len() as int, y.len() as int));
}

fn digit_text(d: u128) -> (r: &'static str)
    requires
        d < 10,
    ensures
        r@ == seq![digit(d as nat)],
{
    proof {
        reveal_strlit("0");
        reveal_strlit("1");
        reveal_strlit("2");
        reveal_strlit("3");
        reveal_strlit("4");
        reveal_strlit("5");
        reveal_strlit("6");
        reveal_strlit("7");
        reveal_strlit("8");
        reveal_strlit("9");
    }
    match d {
        0 => "0",
        1 => "1",
        2 => "2",
        3 => "3",
        4 => "4",
        5 => "5",
        6 => "6",
        7 => "7",
        8 => "8",
        _ => "9",
    }
}

/// Writes `n` in decimal.
pub fn decimal_text(n: u128) -> (r: String)
    ensures
        r@ == decimal(n as nat),
    decreases n,
{
    if n < 10 {
        digit_text(n).to_owned()
    } else {
        let mut text = decimal_text(n / 10);
        text.append(digit_text(n % 10));
        text
    }
}

/// `prefix` followed by the decimal numeral of `n`.
pub fn numbered(prefix: &str, n: u128) -> (r: String)
    ensures
        r@ == prefix@ + decimal(n as nat),
{
    let mut text = prefix.to_owned();
    let numeral = decimal_text(n);
    text.append(numeral.as_str());
    text
}

/// A copy of an optional text.
pub fn copy_optional(text: &Option<String>) -> (r: Option<String>)
    ensures
        r == *text,
{
    match text {
        Some(text) => Some(text.clone()),
        None => None,
    }
}

/// A copy of a list of texts.
pub fn copy_texts(texts: &Vec<String>) -> (r: Vec<String>)
    ensures
        r.deep_view() == texts.deep_view(),
{
    let mut copy: Vec<String> = Vec::new();
    for i in 0..texts.len()
        invariant
            copy@.len() == i,
            forall|j: int| 0 <= j < i ==> copy@[j]@ == texts@[j]@,
    {
        copy.push(texts[i].clone());
    }
    assert(copy.deep_view() =~= texts.deep_view());
    copy
}

/// Whether two lists of texts hold the same texts in the same order.
pub fn same_texts(a: &Vec<String>, b: &Vec<String>) -> (r: bool)
    ensures
        r == (a.deep_view() == b.deep_view()),
{
    if a.len() != b.len() {
        assert(a.deep_view().len() != b.deep_view().len());
        return false;
    }
    for i in 0..a.len()
        invariant
            a@.len() == b@.len(),
            forall|j: int| 0 <= j < i ==> a@[j]@ == b@[j]@,
    {
        if a[i] != b[i] {
            assert(a.deep_view()[i as int] != b.deep_view()[i as int]);
            return false;
        }
    }
    assert(a.deep_view() =~= b.deep_view());
    true
}

/// The characters of a text.
pub fn characters(text: &str) -> (r: Vec<char>)
    ensures
        r@ == text@,
{
    let mut all: Vec<char> = Vec::new();
    for c in iter: text.chars()
        invariant
            iter.seq() == text@,
            all@ == text@.take(iter.index() as int),
    {
        all.push(c);
        assert(text@.take(iter.index() + 1) =~= text@.take(iter.index() as int).push(c));
    }
    assert(text@.take(text@.len() as int) =~= text@);
    all
}

} // verus!
