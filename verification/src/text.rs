//! Text handling on which the parsers rest: comparing, splitting and trimming
//! strings, and reading decimal numbers. Every string is modelled by its
//! sequence of characters.

use vstd::prelude::*;
use vstd::std_specs::iter::IteratorSpec;
use vstd::string::StrSliceExecFns;

verus! {

/// The views of a sequence of string slices, in order.
pub open spec fn views(parts: Seq<&str>) -> Seq<Seq<char>> {
    Seq::new(parts.len(), |i: int| parts[i]@)
}

/// The views of a sequence of owned strings, in order.
pub open spec fn string_views(parts: Seq<String>) -> Seq<Seq<char>> {
    Seq::new(parts.len(), |i: int| parts[i]@)
}

/// The characters of `s`, in order.
pub fn chars_of(s: &str) -> (chars: Vec<char>)
    ensures
        chars@ == s@,
{
    let mut chars: Vec<char> = Vec::new();
    for c in it: s.chars()
        invariant
            chars@ == it.seq().take(it.index() as int),
            it.seq() == s@,
    {
        chars.push(c);
    }
    chars
}

/// Whether two strings hold the same characters.
pub fn equal(a: &str, b: &str) -> (same: bool)
    ensures
        same == (a@ == b@),
{
    let left = chars_of(a);
    let right = chars_of(b);
    if left.len() != right.len() {
        return false;
    }
    let mut i: usize = 0;
    while i < left.len()
        invariant
            i <= left.len(),
            left.len() == right.len(),
            left@ == a@,
            right@ == b@,
            forall|k: int| 0 <= k < i ==> left[k] == right[k],
        decreases left.len() - i,
    {
        if left[i] != right[i] {
            return false;
        }
        i += 1;
    }
    assert(left@ =~= right@);
    true
}

/// The pieces of `s` that lie between the occurrences of `sep`. A text without
/// `sep` is one piece; a text with `n` occurrences has `n + 1` pieces, some of
/// which may be empty.
pub open spec fn pieces(s: Seq<char>, sep: char) -> Seq<Seq<char>>
    decreases s.len(),
{
    if s.len() == 0 {
        seq![Seq::<char>::empty()]
    } else {
        let before = pieces(s.drop_last(), sep);
        if s.last() == sep {
            before.push(Seq::<char>::empty())
        } else {
            before.drop_last().push(before.last().push(s.last()))
        }
    }
}

/// The pieces put together again, with `sep` between neighbours.
pub open spec fn joined(parts: Seq<Seq<char>>, sep: char) -> Seq<char>
    decreases parts.len(),
{
    if parts.len() == 0 {
        Seq::<char>::empty()
    } else if parts.len() == 1 {
        parts[0]
    } else {
        joined(parts.drop_last(), sep).push(sep) + parts.last()
    }
}

/// How often `sep` occurs in `s`.
pub open spec fn occurrences(s: Seq<char>, sep: char) -> nat
    decreases s.len(),
{
    if s.len() == 0 {
        0
    } else {
        occurrences(s.drop_last(), sep) + if s.last() == sep {
            1nat
        } else {
            0nat
        }
    }
}

/// Splitting loses nothing and invents nothing: there is one piece more than
/// there are separators, no piece holds a separator, and joining the pieces
/// gives the text back.
pub proof fn lemma_pieces(s: Seq<char>, sep: char)
    ensures
        pieces(s, sep).len() == occurrences(s, sep) + 1,
        forall|i: int| 0 <= i < pieces(s, sep).len() ==> !(#[trigger] pieces(s, sep)[i]).contains(sep),
        joined(pieces(s, sep), sep) == s,
    decreases s.len(),
{
    if s.len() > 0 {
        let before = pieces(s.drop_last(), sep);
        lemma_pieces(s.drop_last(), sep);
        let now = pieces(s, sep);
        if s.last() == sep {
            assert(now.drop_last() =~= before);
        } else {
            let grown = before.last().push(s.last());
            assert forall|i: int| 0 <= i < now.len() implies !(#[trigger] now[i]).contains(sep) by {
                if i == now.len() - 1 {
                    assert forall|k: int| 0 <= k < grown.len() implies grown[k] != sep by {
                        if k < before[i].len() {
                            assert(before[i].contains(before[i][k]));
                        }
                    }
                }
            }
            if before.len() > 1 {
                assert(now.drop_last() =~= before.drop_last());
                assert(joined(before, sep) == joined(before.drop_last(), sep).push(sep)
                    + before.last());
                assert(joined(now, sep) =~= joined(before, sep).push(s.last()));
            }
        }
    }
}

/// A stretch without a separator, put behind a text, lengthens its last piece.
pub proof fn lemma_pieces_grow(s: Seq<char>, t: Seq<char>, sep: char)
    requires
        !t.contains(sep),
    ensures
        pieces(s, sep).len() > 0,
        pieces(s + t, sep) == pieces(s, sep).drop_last().push(pieces(s, sep).last() + t),
    decreases t.len(),
{
    lemma_pieces(s, sep);
    let before = pieces(s, sep);
    if t.len() == 0 {
        assert(s + t =~= s);
        assert(before.last() + t =~= before.last());
    } else {
        let shorter = t.drop_last();
        assert forall|k: int| 0 <= k < shorter.len() implies shorter[k] != sep by {
            assert(t.contains(t[k]));
        }
        lemma_pieces_grow(s, shorter, sep);
        assert(t.contains(t.last()));
        assert((s + t).drop_last() =~= s + shorter);
        assert((before.last() + shorter).push(t.last()) =~= before.last() + t);
    }
}

/// Splitting undoes joining: pieces without a separator, joined, split into
/// themselves again.
pub proof fn lemma_pieces_of_joined(parts: Seq<Seq<char>>, sep: char)
    requires
        parts.len() > 0,
        forall|i: int| 0 <= i < parts.len() ==> !(#[trigger] parts[i]).contains(sep),
    ensures
        pieces(joined(parts, sep), sep) == parts,
    decreases parts.len(),
{
    let nothing = Seq::<char>::empty();
    if parts.len() == 1 {
        lemma_pieces_grow(nothing, parts[0], sep);
        assert(nothing + parts[0] =~= parts[0]);
    } else {
        let front = parts.drop_last();
        lemma_pieces_of_joined(front, sep);
        let opened = joined(front, sep).push(sep);
        assert(opened.drop_last() =~= joined(front, sep));
        lemma_pieces_grow(opened, parts.last(), sep);
        assert(nothing + parts.last() =~= parts.last());
    }
}

/// Splits `s` at every `sep`.
pub fn split<'a>(s: &'a str, sep: char) -> (parts: Vec<&'a str>)
    ensures
        views(parts@) == pieces(s@, sep),
{
    let chars = chars_of(s);
    let mut parts: Vec<&'a str> = Vec::new();
    let mut start: usize = 0;
    let mut i: usize = 0;
    assert(s@.take(0) =~= Seq::<char>::empty());
    while i < chars.len()
        invariant
            start <= i <= chars.len(),
            chars@ == s@,
            views(parts@).push(s@.subrange(start as int, i as int)) == pieces(s@.take(i as int), sep),
        decreases chars.len() - i,
    {
        let ghost before = pieces(s@.take(i as int), sep);
        proof {
            assert(s@.take(i + 1).drop_last() =~= s@.take(i as int));
        }
        if chars[i] == sep {
            let part = s.substring_char(start, i);
            parts.push(part);
            start = i + 1;
            proof {
                assert(s@.subrange(start as int, i + 1) =~= Seq::<char>::empty());
            }
        } else {
            proof {
                assert(s@.subrange(start as int, i + 1) =~= before.last().push(s@[i as int]));
            }
        }
        i += 1;
    }
    assert(s@.take(i as int) =~= s@);
    let part = s.substring_char(start, i);
    parts.push(part);
    parts
}

/// Whether `c` is white space, as `char::is_whitespace` tells it.
pub uninterp spec fn white_space(c: char) -> bool;

/// `char::is_whitespace`: the answer depends on the character alone and is
/// what `white_space` names.
#[verifier::external_body]
fn is_whitespace(c: char) -> (white: bool)
    ensures
        white == white_space(c),
{
    c.is_whitespace()
}

/// How many characters of white space `s` begins with.
pub open spec fn leading_white(s: Seq<char>) -> nat
    decreases s.len(),
{
    if s.len() > 0 && white_space(s.first()) {
        1 + leading_white(s.drop_first())
    } else {
        0
    }
}

/// How many characters of white space `s` ends with.
pub open spec fn trailing_white(s: Seq<char>) -> nat
    decreases s.len(),
{
    if s.len() > 0 && white_space(s.last()) {
        1 + trailing_white(s.drop_last())
    } else {
        0
    }
}

/// `s` without the white space at its two ends.
pub open spec fn trimmed(s: Seq<char>) -> Seq<char> {
    if leading_white(s) == s.len() {
        Seq::<char>::empty()
    } else {
        s.subrange(leading_white(s) as int, s.len() - trailing_white(s))
    }
}

/// The leading white space ends at the first character that is none.
pub proof fn lemma_leading_white(s: Seq<char>, k: int)
    requires
        0 <= k <= s.len(),
        forall|i: int| 0 <= i < k ==> white_space(s[i]),
        k == s.len() || !white_space(s[k]),
    ensures
        leading_white(s) == k,
    decreases k,
{
    if k > 0 {
        let rest = s.drop_first();
        assert forall|i: int| 0 <= i < k - 1 implies white_space(rest[i]) by {
            assert(rest[i] == s[i + 1]);
        }
        lemma_leading_white(rest, k - 1);
    }
}

/// The trailing white space begins behind the last character that is none.
pub proof fn lemma_trailing_white(s: Seq<char>, k: int)
    requires
        0 <= k <= s.len(),
        forall|i: int| k <= i < s.len() ==> white_space(s[i]),
        k == 0 || !white_space(s[k - 1]),
    ensures
        trailing_white(s) == s.len() - k,
    decreases s.len() - k,
{
    if k < s.len() {
        let rest = s.drop_last();
        assert forall|i: int| k <= i < rest.len() implies white_space(rest[i]) by {
            assert(rest[i] == s[i]);
        }
        lemma_trailing_white(rest, k);
    }
}

/// What trimming leaves is a stretch of the text that neither begins nor ends
/// with white space, and only white space is cut away.
pub proof fn lemma_trimmed(s: Seq<char>)
    ensures
        leading_white(s) <= s.len(),
        trailing_white(s) <= s.len(),
        trimmed(s).len() > 0 ==> !white_space(trimmed(s).first()) && !white_space(
            trimmed(s).last(),
        ),
        forall|i: int| 0 <= i < leading_white(s) ==> white_space(s[i]),
        forall|i: int| s.len() - trailing_white(s) <= i < s.len() ==> white_space(s[i]),
        trimmed(s).len() == 0 ==> forall|i: int| 0 <= i < s.len() ==> white_space(s[i]),
    decreases s.len(),
{
    if s.len() > 0 {
        let head = s.drop_first();
        let tail = s.drop_last();
        lemma_trimmed(head);
        lemma_trimmed(tail);
        let from = leading_white(s) as int;
        let cut = trailing_white(s) as int;
        assert forall|i: int| 0 <= i < from implies white_space(s[i]) by {
            if i > 0 {
                assert(head[i - 1] == s[i]);
            }
        }
        assert forall|i: int| s.len() - cut <= i < s.len() implies white_space(s[i]) by {
            if i < s.len() - 1 {
                assert(tail[i] == s[i]);
            }
        }
        if from < s.len() {
            lemma_leading_stops(s);
            lemma_trailing_stops(s);
        }
    }
}

/// Behind the leading white space, if anything is left, stands a character
/// that is none.
proof fn lemma_leading_stops(s: Seq<char>)
    ensures
        leading_white(s) <= s.len(),
        leading_white(s) < s.len() ==> !white_space(s[leading_white(s) as int]),
    decreases s.len(),
{
    if s.len() > 0 && white_space(s.first()) {
        lemma_leading_stops(s.drop_first());
    }
}

/// Before the trailing white space, if anything is left, stands a character
/// that is none.
proof fn lemma_trailing_stops(s: Seq<char>)
    ensures
        trailing_white(s) <= s.len(),
        trailing_white(s) < s.len() ==> !white_space(s[s.len() - trailing_white(s) - 1]),
    decreases s.len(),
{
    if s.len() > 0 && white_space(s.last()) {
        lemma_trailing_stops(s.drop_last());
    }
}

/// Cuts the white space off both ends of `s`.
pub fn trim<'a>(s: &'a str) -> (t: &'a str)
    ensures
        t@ == trimmed(s@),
{
    let chars = chars_of(s);
    let n: usize = chars.len();
    let mut from: usize = 0;
    while from < n && is_whitespace(chars[from])
        invariant
            from <= n,
            n == chars.len(),
            chars@ == s@,
            forall|i: int| 0 <= i < from ==> white_space(s@[i]),
        decreases n - from,
    {
        from += 1;
    }
    proof {
        lemma_leading_white(s@, from as int);
    }
    if from == n {
        let t = s.substring_char(n, n);
        return t;
    }
    let mut to: usize = n;
    while to > from && is_whitespace(chars[to - 1])
        invariant
            from < n,
            from <= to <= n,
            n == chars.len(),
            chars@ == s@,
            !white_space(s@[from as int]),
            forall|i: int| to <= i < n ==> white_space(s@[i]),
        decreases to,
    {
        to -= 1;
    }
    proof {
        lemma_trailing_white(s@, to as int);
    }
    s.substring_char(from, to)
}

/// Whether `c` is one of the ten decimal digits.
pub open spec fn is_digit(c: char) -> bool {
    '0' <= c <= '9'
}

/// What the digit `c` counts for.
pub open spec fn digit_value(c: char) -> nat {
    (c as int - '0' as int) as nat
}

/// The number that a row of digits writes in base ten.
pub open spec fn number_value(digits: Seq<char>) -> nat
    decreases digits.len(),
{
    if digits.len() == 0 {
        0
    } else {
        10 * number_value(digits.drop_last()) + digit_value(digits.last())
    }
}

/// The digits of a numeral: what follows its plus sign, if it has one.
pub open spec fn unsigned_part(s: Seq<char>) -> Seq<char> {
    if s.len() > 0 && s[0] == '+' {
        s.drop_first()
    } else {
        s
    }
}

/// Whether `s` is a numeral: an optional plus sign and then at least one
/// digit, nothing else.
pub open spec fn is_numeral(s: Seq<char>) -> bool {
    let digits = unsigned_part(s);
    digits.len() > 0 && forall|i: int| 0 <= i < digits.len() ==> is_digit(#[trigger] digits[i])
}

/// The number that `s` writes, where `s` is a numeral whose number fits in
/// 64 bits.
pub open spec fn decimal(s: Seq<char>) -> Option<u64> {
    if is_numeral(s) && number_value(unsigned_part(s)) <= u64::MAX {
        Some(number_value(unsigned_part(s)) as u64)
    } else {
        None
    }
}

/// A row of digits writes no smaller a number than any of its beginnings.
pub proof fn lemma_number_value_grows(digits: Seq<char>, k: int)
    requires
        0 <= k <= digits.len(),
    ensures
        number_value(digits.take(k)) <= number_value(digits),
    decreases digits.len(),
{
    if k == digits.len() {
        assert(digits.take(k) =~= digits);
    } else {
        lemma_number_value_grows(digits.drop_last(), k);
        assert(digits.drop_last().take(k) =~= digits.take(k));
    }
}

/// Reads `s` as a decimal number of 64 bits.
pub fn parse_u64(s: &str) -> (number: Option<u64>)
    ensures
        number == decimal(s@),
{
    let chars = chars_of(s);
    let n: usize = chars.len();
    let first: usize = if n > 0 && chars[0] == '+' {
        1
    } else {
        0
    };
    let ghost digits = unsigned_part(s@);
    if first == n {
        return None;
    }
    let mut value: u64 = 0;
    let mut i: usize = first;
    while i < n
        invariant
            first <= i <= n,
            n == chars.len(),
            chars@ == s@,
            first < n,
            digits == unsigned_part(s@),
            digits == s@.subrange(first as int, n as int),
            forall|k: int| 0 <= k < i - first ==> is_digit(#[trigger] digits[k]),
            value == number_value(digits.take(i - first)),
        decreases n - i,
    {
        let c = chars[i];
        assert(c == digits[i - first]);
        if c < '0' || c > '9' {
            return None;
        }
        let digit: u64 = (c as u64) - ('0' as u64);
        proof {
            let upto = digits.take(i - first + 1);
            assert(upto.drop_last() =~= digits.take(i - first));
            lemma_number_value_grows(digits, i - first + 1);
        }
        let shifted = match value.checked_mul(10) {
            Some(shifted) => shifted,
            None => {
                return None;
            },
        };
        value = match shifted.checked_add(digit) {
            Some(sum) => sum,
            None => {
                return None;
            },
        };
        i += 1;
    }
    assert(digits.take(n - first) =~= digits);
    Some(value)
}

} // verus!
