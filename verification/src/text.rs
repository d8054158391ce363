//! Operations on text, specified over sequences of characters.
use vstd::prelude::*;

verus! {

/// Whether `s` begins with `prefix`.
pub open spec fn begins_with(s: Seq<char>, prefix: Seq<char>) -> bool {
    prefix.len() <= s.len() && s.take(prefix.len() as int) == prefix
}

/// What is left of `s` after every leading repetition of `prefix` is cut off.
pub open spec fn trimmed_start(s: Seq<char>, prefix: Seq<char>) -> Seq<char>
    decreases s.len(),
{
    if prefix.len() > 0 && begins_with(s, prefix) {
        trimmed_start(s.skip(prefix.len() as int), prefix)
    } else {
        s
    }
}

/// The decimal digit for `d`, which is below ten.
pub open spec fn digit_char(d: nat) -> char {
    (('0' as u32) + d) as char
}

/// `n` in decimal, without leading zeros.
pub open spec fn decimal_text(n: nat) -> Seq<char>
    decreases n,
{
    if n < 10 {
        seq![digit_char(n)]
    } else {
        decimal_text(n / 10).push(digit_char(n % 10))
    }
}

/// The contents of a list of strings.
pub open spec fn texts(list: Seq<String>) -> Seq<Seq<char>> {
    list.map_values(|s: String| s@)
}

/// The contents of an optional string.
pub open spec fn option_text(s: Option<String>) -> Option<Seq<char>> {
    match s {
        Some(s) => Some(s@),
        None => None,
    }
}

/// The contents of an optional list of strings.
pub open spec fn option_texts(list: Option<Vec<String>>) -> Option<Seq<Seq<char>>> {
    match list {
        Some(list) => Some(texts(list@)),
        None => None,
    }
}

/// Whether `s` begins with `prefix`.
pub fn has_prefix(s: &str, prefix: &str) -> (r: bool)
    ensures
        r == begins_with(s@, prefix@),
        r == prefix@.is_prefix_of(s@),
{
    let n = prefix.unicode_len();
    if s.unicode_len() < n {
        return false;
    }
    let mut i: usize = 0;
    while i < n
        invariant
            n == prefix@.len(),
            n <= s@.len(),
            i <= n,
            forall|j: int| 0 <= j < i ==> s@[j] == prefix@[j],
        decreases n - i,
    {
        if s.get_char(i) != prefix.get_char(i) {
            assert(s@.take(n as int)[i as int] != prefix@[i as int]);
            return false;
        }
        i += 1;
    }
    assert(s@.take(n as int) =~= prefix@);
    true
}

/// `s` without its prefix `prefix`, if it has that prefix.
pub fn strip_prefix<'a>(s: &'a str, prefix: &str) -> (r: Option<&'a str>)
    ensures
        match r {
            Some(rest) => begins_with(s@, prefix@) && rest@ == s@.skip(prefix@.len() as int),
            None => !begins_with(s@, prefix@),
        },
        match r {
            Some(rest) => s@ == prefix@ + rest@,
            None => !prefix@.is_prefix_of(s@),
        },
{
    if has_prefix(s, prefix) {
        let rest = s.substring_char(prefix.unicode_len(), s.unicode_len());
        assert(rest@ =~= s@.skip(prefix@.len() as int));
        assert(s@ =~= prefix@ + rest@);
        Some(rest)
    } else {
        proof {
            law_prefix(s@, prefix@, s@);
        }
        None
    }
}

/// `s` without any leading repetitions of `prefix`.
pub fn trim_start<'a>(s: &'a str, prefix: &str) -> (r: &'a str)
    ensures
        r@ == trimmed_start(s@, prefix@),
{
    if prefix.unicode_len() == 0 {
        return s;
    }
    let mut left = s;
    loop
        invariant
            prefix@.len() > 0,
            trimmed_start(left@, prefix@) == trimmed_start(s@, prefix@),
        decreases left@.len(),
    {
        match strip_prefix(left, prefix) {
            Some(rest) => left = rest,
            None => return left,
        }
    }
}

/// `a` followed by `b`.
pub fn joined(a: &str, b: &str) -> (r: String)
    ensures
        r@ == a@ + b@,
{
    a.to_owned().concat(b)
}

fn digit(d: u64) -> (r: &'static str)
    requires
        d < 10,
    ensures
        r@ == seq![digit_char(d as nat)],
{
    proof {
        reveal_strlit("0");
        reveal_strlit("1");
        reveal_strlit("2");
        reveal_strlit("3");
        reveal_strlit("4");
        reveal_strlit("5");
        reveal_strlit("6");
        reveal_strlit("7");
        reveal_strlit("8");
        reveal_strlit("9");
    }
    let r: &'static str = match d {
        0 => "0",
        1 => "1",
        2 => "2",
        3 => "3",
        4 => "4",
        5 => "5",
        6 => "6",
        7 => "7",
        8 => "8",
        _ => "9",
    };
    assert(r@ =~= seq![digit_char(d as nat)]);
    r
}

/// `n` in decimal.
pub fn decimal(n: u64) -> (r: String)
    ensures
        r@ == decimal_text(n as nat),
    decreases n,
{
    if n < 10 {
        digit(n).to_owned()
    } else {
        let mut r = decimal(n / 10);
        r.append(digit(n % 10));
        assert(r@ =~= decimal_text((n / 10) as nat).push(digit_char((n % 10) as nat)));
        r
    }
}

/// Whether two lists hold the same strings in the same order.
pub fn same_texts(a: &Vec<String>, b: &Vec<String>) -> (r: bool)
    ensures
        r == (texts(a@) == texts(b@)),
{
    if a.len() != b.len() {
        assert(texts(a@).len() != texts(b@).len());
        return false;
    }
    let mut i: usize = 0;
    while i < a.len()
        invariant
            i <= a.len() == b.len(),
            forall|j: int| 0 <= j < i ==> a@[j]@ == b@[j]@,
        decreases a.len() - i,
    {
        if a[i] != b[i] {
            assert(texts(a@)[i as int] != texts(b@)[i as int]);
            return false;
        }
        i += 1;
    }
    assert(texts(a@) =~= texts(b@));
    true
}

/// Whether two optional strings are the same.
pub fn same_option_text(a: &Option<String>, b: &Option<String>) -> (r: bool)
    ensures
        r == (option_text(*a) == option_text(*b)),
{
    match (a, b) {
        (Some(a), Some(b)) => *a == *b,
        (None, None) => true,
        _ => false,
    }
}

/// Whether two optional lists hold the same strings in the same order.
pub fn same_option_texts(a: &Option<Vec<String>>, b: &Option<Vec<String>>) -> (r: bool)
    ensures
        r == (option_texts(*a) == option_texts(*b)),
{
    match (a, b) {
        (Some(a), Some(b)) => same_texts(a, b),
        (None, None) => true,
        _ => false,
    }
}

/// A text begins with a prefix exactly if it is the prefix followed by something.
pub proof fn law_prefix(s: Seq<char>, prefix: Seq<char>, rest: Seq<char>)
    ensures
        begins_with(prefix + rest, prefix),
        begins_with(s, prefix) ==> s == prefix + s.skip(prefix.len() as int),
        begins_with(s, prefix) <==> prefix.is_prefix_of(s),
{
    assert((prefix + rest).take(prefix.len() as int) =~= prefix);
    if begins_with(s, prefix) {
        assert(s =~= s.take(prefix.len() as int) + s.skip(prefix.len() as int));
    }
    if prefix.is_prefix_of(s) {
        assert(s.take(prefix.len() as int) =~= prefix);
    }
}

/// Trimming takes away one more repetition of the prefix in front, and nothing from a
/// text that does not begin with it.
pub proof fn law_trimming(s: Seq<char>, prefix: Seq<char>)
    ensures
        trimmed_start(prefix + s, prefix) == trimmed_start(s, prefix),
        prefix.len() == 0 || !prefix.is_prefix_of(s) ==> trimmed_start(s, prefix) == s,
{
    law_prefix(s, prefix, s);
    if prefix.len() == 0 {
        assert(prefix + s =~= s);
    } else {
        assert((prefix + s).skip(prefix.len() as int) =~= s);
    }
}

/// A number below ten is written as its digit.
pub proof fn law_decimal_digit(d: nat)
    requires
        d < 10,
    ensures
        decimal_text(d) == seq!["0123456789"@[d as int]],
{
    reveal_strlit("0123456789");
}

/// A number is written as its tens followed by its last digit.
pub proof fn law_decimal_number(tens: nat, d: nat)
    requires
        tens > 0,
        d < 10,
    ensures
        decimal_text(10 * tens + d) == decimal_text(tens) + decimal_text(d),
{
    let n = 10 * tens + d;
    assert(n / 10 == tens && n % 10 == d);
    assert(decimal_text(tens).push(digit_char(d)) =~= decimal_text(tens) + decimal_text(d));
}

/// The contents of a list are those of its strings, each at its place.
pub proof fn law_texts(list: Seq<String>)
    ensures
        texts(list).len() == list.len(),
        forall|i: int| 0 <= i < list.len() ==> #[trigger] texts(list)[i] == list[i]@,
{
}

/// Nothing is lost of an optional string or of an optional list of strings.
pub proof fn law_option_texts(s: String, list: Vec<String>)
    ensures
        option_text(Some(s)) == Some(s@),
        option_text(None) is None,
        option_texts(Some(list)) matches Some(contents) && contents.len() == list@.len() && forall|
            i: int,
        |
            0 <= i < list@.len() ==> #[trigger] contents[i] == list@[i]@,
        option_texts(None) is None,
{
}

} // verus!
