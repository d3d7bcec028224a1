//! Text as sequences of characters: what trimming, stripping, searching,
//! replacing and joining mean, and the functions that do it.
use vstd::prelude::*;
use vstd::string::*;

verus! {

/// The characters with the Unicode property `White_Space`.
pub open spec fn is_whitespace(c: char) -> bool {
    ||| '\u{9}' <= c <= '\u{d}'
    ||| c == ' '
    ||| c == '\u{85}'
    ||| c == '\u{a0}'
    ||| c == '\u{1680}'
    ||| '\u{2000}' <= c <= '\u{200a}'
    ||| c == '\u{2028}'
    ||| c == '\u{2029}'
    ||| c == '\u{202f}'
    ||| c == '\u{205f}'
    ||| c == '\u{3000}'
}

/// `s` without the whitespace it begins with.
pub open spec fn trimmed_start(s: Seq<char>) -> Seq<char>
    decreases s.len(),
{
    if s.len() > 0 && is_whitespace(s[0]) {
        trimmed_start(s.drop_first())
    } else {
        s
    }
}

/// `s` without the whitespace it ends with.
pub open spec fn trimmed_end(s: Seq<char>) -> Seq<char>
    decreases s.len(),
{
    if s.len() > 0 && is_whitespace(s.last()) {
        trimmed_end(s.drop_last())
    } else {
        s
    }
}

/// `s` without the whitespace around it.
pub open spec fn trimmed(s: Seq<char>) -> Seq<char> {
    trimmed_end(trimmed_start(s))
}

/// `part` stands in `s` at position `at`.
pub open spec fn occurs_at(s: Seq<char>, part: Seq<char>, at: int) -> bool {
    0 <= at && at + part.len() <= s.len() && s.subrange(at, at + part.len()) == part
}

/// `part` stands somewhere in `s`.
pub open spec fn occurs(s: Seq<char>, part: Seq<char>) -> bool {
    exists|at: int| occurs_at(s, part, at)
}

/// `s` begins with `prefix`.
pub open spec fn has_prefix(s: Seq<char>, prefix: Seq<char>) -> bool {
    occurs_at(s, prefix, 0)
}

/// What follows `prefix` in `s`, if `s` begins with it.
pub open spec fn stripped(s: Seq<char>, prefix: Seq<char>) -> Option<Seq<char>> {
    if has_prefix(s, prefix) {
        Some(s.skip(prefix.len() as int))
    } else {
        None
    }
}

/// The text before and the text after the first `delimiter` in `s`.
pub open spec fn split_first(s: Seq<char>, delimiter: Seq<char>) -> Option<(Seq<char>, Seq<char>)>
    decreases s.len(),
{
    if has_prefix(s, delimiter) {
        Some((Seq::empty(), s.skip(delimiter.len() as int)))
    } else if s.len() == 0 {
        None
    } else {
        match split_first(s.drop_first(), delimiter) {
            Some((before, after)) => Some((seq![s[0]] + before, after)),
            None => None,
        }
    }
}

/// `s` with every `from` in it, read from the left, turned into `to`.
pub open spec fn replaced(s: Seq<char>, from: Seq<char>, to: Seq<char>) -> Seq<char>
    decreases s.len(),
{
    if s.len() == 0 || from.len() == 0 {
        s
    } else if has_prefix(s, from) {
        to + replaced(s.skip(from.len() as int), from, to)
    } else {
        seq![s[0]] + replaced(s.drop_first(), from, to)
    }
}

/// The parts one after another, with `separator` between each two.
pub open spec fn joined(parts: Seq<Seq<char>>, separator: Seq<char>) -> Seq<char>
    decreases parts.len(),
{
    if parts.len() == 0 {
        Seq::empty()
    } else if parts.len() == 1 {
        parts[0]
    } else {
        joined(parts.drop_last(), separator) + separator + parts.last()
    }
}

/// `count` spaces.
pub open spec fn spaces(count: nat) -> Seq<char> {
    Seq::new(count, |i: int| ' ')
}

/// `s` with spaces behind it up to `width` characters; `s` itself where it is longer.
pub open spec fn padded(s: Seq<char>, width: nat) -> Seq<char> {
    if s.len() < width {
        s + spaces((width - s.len()) as nat)
    } else {
        s
    }
}

/// The decimal digit `d`.
pub open spec fn digit_text(d: nat) -> Seq<char> {
    if d == 0 {
        "0"@
    } else if d == 1 {
        "1"@
    } else if d == 2 {
        "2"@
    } else if d == 3 {
        "3"@
    } else if d == 4 {
        "4"@
    } else if d == 5 {
        "5"@
    } else if d == 6 {
        "6"@
    } else if d == 7 {
        "7"@
    } else if d == 8 {
        "8"@
    } else {
        "9"@
    }
}

/// `n` in decimal, without leading zeros.
pub open spec fn decimal(n: nat) -> Seq<char>
    decreases n,
{
    if n < 10 {
        digit_text(n)
    } else {
        decimal(n / 10) + digit_text(n % 10)
    }
}

/// The lower-case equivalent of a text, as `str::to_lowercase` gives it.
pub uninterp spec fn lowercase(s: Seq<char>) -> Seq<char>;

/// `str::to_lowercase`: the lower-case equivalent of `s`, which depends on the
/// characters of `s` alone. Which characters it maps to which is left to the
/// Unicode tables.
#[verifier::external_body]
pub(crate) fn to_lowercase(s: &str) -> (res: String)
    ensures
        res@ == lowercase(s@),
{
    s.to_lowercase()
}

/// Equality of string slices: the two hold the same characters.
#[verifier::external_body]
pub(crate) fn same_text(a: &str, b: &str) -> (res: bool)
    ensures
        res == (a@ == b@),
{
    a == b
}

/// `str::trim`: leading and trailing whitespace removed.
#[verifier::external_body]
pub(crate) fn trim(s: &str) -> (res: &str)
    ensures
        res@ == trimmed(s@),
{
    s.trim()
}

/// `str::strip_prefix` with a string pattern: the rest of `s` behind `prefix`,
/// `None` where `s` does not begin with it.
#[verifier::external_body]
pub(crate) fn strip_prefix<'a>(s: &'a str, prefix: &str) -> (res: Option<&'a str>)
    ensures
        match res {
            Some(rest) => stripped(s@, prefix@) == Some(rest@),
            None => stripped(s@, prefix@) is None,
        },
{
    s.strip_prefix(prefix)
}

/// `str::contains` with a string pattern: whether it matches a part of `s`.
#[verifier::external_body]
pub(crate) fn contains(s: &str, part: &str) -> (res: bool)
    ensures
        res == occurs(s@, part@),
{
    s.contains(part)
}

/// `str::split_once` with a string pattern: what stands before and what stands
/// behind its first occurrence, `None` where there is none.
#[verifier::external_body]
pub(crate) fn split_once<'a>(s: &'a str, delimiter: &str) -> (res: Option<(&'a str, &'a str)>)
    ensures
        match res {
            Some((before, after)) => split_first(s@, delimiter@) == Some((before@, after@)),
            None => split_first(s@, delimiter@) is None,
        },
{
    s.split_once(delimiter)
}

/// `str::replace` with a string pattern: all matches of `from` replaced by `to`.
#[verifier::external_body]
pub(crate) fn replace(s: &str, from: &str, to: &str) -> (res: String)
    requires
        from@.len() > 0,
    ensures
        res@ == replaced(s@, from@, to@),
{
    s.replace(from, to)
}

/// Whether `s` begins with `prefix`.
pub fn begins_with(s: &str, prefix: &str) -> (res: bool)
    ensures
        res == has_prefix(s@, prefix@),
{
    strip_prefix(s, prefix).is_some()
}

/// The two texts one behind the other.
pub fn concat2(a: &str, b: &str) -> (res: String)
    ensures
        res@ == a@ + b@,
{
    let mut text = a.to_string();
    text.append(b);
    text
}

/// The three texts one behind the other.
pub fn concat3(a: &str, b: &str, c: &str) -> (res: String)
    ensures
        res@ == a@ + b@ + c@,
{
    let mut text = a.to_string();
    text.append(b);
    text.append(c);
    text
}

/// Whether `list` holds the text `item`.
pub fn list_contains(list: &Vec<String>, item: &str) -> (res: bool)
    ensures
        res == list.deep_view().contains(item@),
{
    for i in 0..list.len()
        invariant
            forall|j: int| 0 <= j < i ==> list.deep_view()[j] != item@,
    {
        if same_text(list[i].as_str(), item) {
            assert(list.deep_view()[i as int] == item@);
            return true;
        }
    }
    false
}

/// The parts from position `from` on, with `separator` between each two.
pub fn join_from(parts: &Vec<String>, from: usize, separator: &str) -> (res: String)
    requires
        from <= parts.len(),
    ensures
        res@ == joined(parts.deep_view().skip(from as int), separator@),
{
    let mut text = String::new();
    let ghost tail = parts.deep_view().skip(from as int);
    for i in from..parts.len()
        invariant
            from <= i <= parts.len(),
            tail == parts.deep_view().skip(from as int),
            text@ == joined(tail.take(i - from), separator@),
    {
        proof {
            let shown = tail.take(i + 1 - from);
            assert(shown.drop_last() == tail.take(i - from));
            assert(shown.last() == parts[i as int]@);
        }
        if i > from {
            text.append(separator);
        }
        text.append(parts[i].as_str());
        proof {
            if i == from {
                assert(tail.take(0).len() == 0);
                assert(text@ =~= parts[i as int]@);
            }
        }
    }
    proof {
        assert(tail.take(parts.len() - from) == tail);
    }
    text
}

/// All the parts, with `separator` between each two.
pub fn join(parts: &Vec<String>, separator: &str) -> (res: String)
    ensures
        res@ == joined(parts.deep_view(), separator@),
{
    proof {
        assert(parts.deep_view().skip(0) == parts.deep_view());
    }
    join_from(parts, 0, separator)
}

/// `n` in decimal.
pub fn decimal_text(n: u64) -> (res: String)
    ensures
        res@ == decimal(n as nat),
    decreases n,
{
    let d: u64 = n % 10;
    let digit = if d == 0 {
        "0"
    } else if d == 1 {
        "1"
    } else if d == 2 {
        "2"
    } else if d == 3 {
        "3"
    } else if d == 4 {
        "4"
    } else if d == 5 {
        "5"
    } else if d == 6 {
        "6"
    } else if d == 7 {
        "7"
    } else if d == 8 {
        "8"
    } else {
        "9"
    };
    if n < 10 {
        digit.to_string()
    } else {
        let mut text = decimal_text(n / 10);
        text.append(digit);
        text
    }
}

/// `s` with spaces behind it up to `width` characters.
pub fn pad(s: &str, width: usize) -> (res: String)
    ensures
        res@ == padded(s@, width as nat),
{
    let mut text = s.to_string();
    let length: usize = s.unicode_len();
    let mut filled: usize = length;
    proof {
        reveal_strlit(" ");
        assert(spaces(0) =~= Seq::<char>::empty());
        assert(s@ + spaces(0) =~= s@);
    }
    while filled < width
        invariant
            length == s@.len(),
            length <= filled,
            length < width ==> filled <= width,
            length >= width ==> filled == length,
            text@ == s@ + spaces((filled - length) as nat),
        decreases width - filled,
    {
        proof {
            reveal_strlit(" ");
        }
        text.append(" ");
        filled = filled + 1;
        proof {
            assert(text@ =~= s@ + spaces((filled - length) as nat));
        }
    }
    text
}

/// Joining no part gives nothing, and joining one gives that part.
pub proof fn law_joined_short(part: Seq<char>, separator: Seq<char>)
    ensures
        joined(Seq::empty(), separator).len() == 0,
        joined(seq![part], separator) == part,
{
}

/// Joining two lists is joining each and putting the separator between them: no part is
/// lost, and none changes its place.
pub proof fn law_joined_splits(a: Seq<Seq<char>>, b: Seq<Seq<char>>, separator: Seq<char>)
    requires
        a.len() > 0,
        b.len() > 0,
    ensures
        joined(a + b, separator) == joined(a, separator) + separator + joined(b, separator),
    decreases b.len(),
{
    let all = a + b;
    if b.len() == 1 {
        assert(all.drop_last() =~= a);
    } else {
        assert(all.drop_last() =~= a + b.drop_last());
        law_joined_splits(a, b.drop_last(), separator);
        assert(joined(all, separator) =~= joined(a, separator) + separator + joined(b, separator));
    }
}

/// A padded text begins with the text, is as wide as asked for if the text is not wider,
/// and has nothing but spaces behind it.
pub proof fn law_padded(s: Seq<char>, width: nat)
    ensures
        padded(s, width).len() == (if s.len() < width {
            width
        } else {
            s.len()
        }),
        padded(s, width).take(s.len() as int) == s,
        forall|i: int| s.len() <= i < padded(s, width).len() ==> #[trigger] padded(s, width)[i] == ' ',
{
    assert(padded(s, width).take(s.len() as int) =~= s);
}

/// The number that decimal digits stand for.
pub open spec fn number_of(text: Seq<char>) -> nat
    decreases text.len(),
{
    if text.len() == 0 {
        0
    } else {
        number_of(text.drop_last()) * 10 + (text.last() as nat - '0' as nat) as nat
    }
}

/// A decimal text consists of digits, stands for its number, and begins with a zero only
/// where the number is zero.
pub proof fn law_decimal_stands_for_its_number(n: nat)
    ensures
        number_of(decimal(n)) == n,
        decimal(n).len() > 0,
        forall|i: int| 0 <= i < decimal(n).len() ==> '0' <= #[trigger] decimal(n)[i] <= '9',
        decimal(n)[0] == '0' ==> n == 0 && decimal(n).len() == 1,
    decreases n,
{
    reveal_strlit("0");
    reveal_strlit("1");
    reveal_strlit("2");
    reveal_strlit("3");
    reveal_strlit("4");
    reveal_strlit("5");
    reveal_strlit("6");
    reveal_strlit("7");
    reveal_strlit("8");
    reveal_strlit("9");
    let digit = digit_text(n % 10);
    assert(digit.len() == 1);
    assert(digit[0] as nat == '0' as nat + n % 10);
    if n < 10 {
        assert(decimal(n) =~= digit);
        assert(digit.drop_last() =~= Seq::empty());
        assert(number_of(digit.drop_last()) == 0);
    } else {
        let front = decimal(n / 10);
        law_decimal_stands_for_its_number(n / 10);
        assert((front + digit).drop_last() =~= front);
        assert((front + digit).last() == digit[0]);
    }
}

} // verus!
