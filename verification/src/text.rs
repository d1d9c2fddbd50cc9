//! Character-level helpers shared by the pipeline's components.

use vstd::prelude::*;
use vstd::string::*;

verus! {

/// `String::push` of the standard library appends the character to the end
/// of the string and leaves the rest as it was.
pub assume_specification[ String::push ](s: &mut String, ch: char)
    ensures
        final(s)@ == old(s)@.push(ch),
;

/// The view of an optional string slice.
pub open spec fn text_view(text: Option<&str>) -> Option<Seq<char>> {
    match text {
        Some(t) => Some(t@),
        None => None,
    }
}

/// The view of an optional string.
pub open spec fn owned_text_view(text: Option<String>) -> Option<Seq<char>> {
    match text {
        Some(t) => Some(t@),
        None => None,
    }
}

/// The characters of `s`, in order.
pub fn chars_of(s: &str) -> (v: Vec<char>)
    ensures
        v@ == s@,
{
    broadcast use axiom_spec_iter;

    let mut v: Vec<char> = Vec::new();
    let chars = s.chars();
    for c in it: chars
        invariant
            it.seq() == s@,
            v@ == s@.take(it.index()),
    {
        v.push(c);
    }
    v
}

/// The string made of the characters `v[from..to]`.
fn string_of(v: &Vec<char>, from: usize, to: usize) -> (s: String)
    requires
        from <= to <= v.len(),
    ensures
        s@ == v@.subrange(from as int, to as int),
{
    let mut s = String::new();
    let mut i: usize = from;
    while i < to
        invariant
            from <= i <= to <= v.len(),
            s@ == v@.subrange(from as int, i as int),
        decreases to - i,
    {
        s.push(v[i]);
        i = i + 1;
    }
    s
}

/// Whether two strings hold the same characters.
pub fn text_equal(a: &str, b: &str) -> (same: bool)
    ensures
        same == (a@ == b@),
{
    let left = chars_of(a);
    let right = chars_of(b);
    if left.len() != right.len() {
        return false;
    }
    let mut i: usize = 0;
    while i < left.len()
        invariant
            left@ == a@,
            right@ == b@,
            left.len() == right.len(),
            i <= left.len(),
            forall|j: int| 0 <= j < i ==> left@[j] == right@[j],
        decreases left.len() - i,
    {
        if left[i] != right[i] {
            return false;
        }
        i = i + 1;
    }
    assert(left@ =~= right@);
    true
}

/// `needle` stands in `hay` at offset `at`.
pub open spec fn occurs_at(hay: Seq<char>, needle: Seq<char>, at: int) -> bool {
    &&& 0 <= at
    &&& at + needle.len() <= hay.len()
    &&& hay.subrange(at, at + needle.len()) == needle
}

/// `needle` stands somewhere in `hay`; the empty needle stands everywhere.
pub open spec fn contains_text(hay: Seq<char>, needle: Seq<char>) -> bool {
    exists|at: int| occurs_at(hay, needle, at)
}

fn matches_at(hay: &Vec<char>, needle: &Vec<char>, at: usize) -> (hit: bool)
    requires
        at + needle.len() <= hay.len(),
    ensures
        hit == occurs_at(hay@, needle@, at as int),
{
    let ghost window = hay@.subrange(at as int, at + needle.len());
    let mut k: usize = 0;
    while k < needle.len()
        invariant
            at + needle.len() <= hay.len(),
            k <= needle.len(),
            window == hay@.subrange(at as int, at + needle.len()),
            forall|j: int| 0 <= j < k ==> window[j] == needle@[j],
        decreases needle.len() - k,
    {
        if hay[at + k] != needle[k] {
            assert(window[k as int] != needle@[k as int]);
            return false;
        }
        k = k + 1;
    }
    assert(window =~= needle@);
    true
}

/// Searches `hay` for `needle`, both given as characters.
pub fn chars_contain(hay: &Vec<char>, needle: &Vec<char>) -> (found: bool)
    ensures
        found == contains_text(hay@, needle@),
{
    if needle.len() > hay.len() {
        return false;
    }
    let last: usize = hay.len() - needle.len();
    let mut at: usize = 0;
    while at < last
        invariant
            last == hay.len() - needle.len(),
            at <= last,
            forall|j: int| 0 <= j < at ==> !occurs_at(hay@, needle@, j),
        decreases last - at,
    {
        if matches_at(hay, needle, at) {
            return true;
        }
        at = at + 1;
    }
    matches_at(hay, needle, last)
}

/// Whether `needle` is a substring of `hay`.
pub fn str_contains(hay: &str, needle: &str) -> (found: bool)
    ensures
        found == contains_text(hay@, needle@),
{
    let h = chars_of(hay);
    let n = chars_of(needle);
    chars_contain(&h, &n)
}

/// The character of the decimal digit `d`.
pub open spec fn digit_char(d: int) -> char {
    (48 + d) as char
}

/// The decimal digits of `n`, most significant first, without leading zeros.
pub open spec fn decimal_digits(n: nat) -> Seq<char>
    decreases n,
{
    if n < 10 {
        seq![digit_char(n as int)]
    } else {
        decimal_digits(n / 10).push(digit_char((n % 10) as int))
    }
}

/// The decimal form of an integer: a minus sign for a negative one, then its digits.
pub open spec fn decimal(value: int) -> Seq<char> {
    if value < 0 {
        seq!['-'] + decimal_digits((-value) as nat)
    } else {
        decimal_digits(value as nat)
    }
}

fn push_decimal_digits(out: &mut String, n: u64)
    ensures
        final(out)@ == old(out)@ + decimal_digits(n as nat),
    decreases n,
{
    if n >= 10 {
        push_decimal_digits(out, n / 10);
    }
    let d: u8 = (n % 10) as u8;
    out.push((48u8 + d) as char);
}

/// Writes `value` in decimal.
pub fn decimal_string(value: i64) -> (s: String)
    ensures
        s@ == decimal(value as int),
{
    let mut s = String::new();
    if value < 0 {
        s.push('-');
        let magnitude: u64 = (-(value + 1)) as u64 + 1;
        push_decimal_digits(&mut s, magnitude);
    } else {
        push_decimal_digits(&mut s, value as u64);
    }
    s
}

/// Whether `c` has the Unicode property `White_Space`, which is what
/// `char::is_whitespace` reports.
pub uninterp spec fn char_is_whitespace(c: char) -> bool;

/// Calls `char::is_whitespace`. Its answer is taken as the meaning of
/// [`char_is_whitespace`]; nothing else is claimed of it.
#[verifier::external_body]
fn is_whitespace(c: char) -> (white: bool)
    ensures
        white == char_is_whitespace(c),
{
    c.is_whitespace()
}

/// How many whitespace characters `s` begins with.
pub open spec fn leading_whitespace(s: Seq<char>) -> nat
    decreases s.len(),
{
    if s.len() > 0 && char_is_whitespace(s.first()) {
        1 + leading_whitespace(s.drop_first())
    } else {
        0
    }
}

/// How many whitespace characters `s` ends with.
pub open spec fn trailing_whitespace(s: Seq<char>) -> nat
    decreases s.len(),
{
    if s.len() > 0 && char_is_whitespace(s.last()) {
        1 + trailing_whitespace(s.drop_last())
    } else {
        0
    }
}

/// `s` without the whitespace at its two ends.
pub open spec fn trimmed(s: Seq<char>) -> Seq<char> {
    let rest = s.skip(leading_whitespace(s) as int);
    rest.take(rest.len() - trailing_whitespace(rest))
}

proof fn lemma_leading_whitespace(s: Seq<char>, k: int)
    requires
        0 <= k <= s.len(),
        forall|i: int| 0 <= i < k ==> char_is_whitespace(s[i]),
        k == s.len() || !char_is_whitespace(s[k]),
    ensures
        leading_whitespace(s) == k,
    decreases k,
{
    if k > 0 {
        let tail = s.drop_first();
        assert forall|i: int| 0 <= i < k - 1 implies char_is_whitespace(tail[i]) by {
            assert(tail[i] == s[i + 1]);
        }
        if k < s.len() {
            assert(tail[k - 1] == s[k]);
        }
        lemma_leading_whitespace(tail, k - 1);
    }
}

proof fn lemma_trailing_whitespace(s: Seq<char>, k: int)
    requires
        0 <= k <= s.len(),
        forall|i: int| s.len() - k <= i < s.len() ==> char_is_whitespace(s[i]),
        k == s.len() || !char_is_whitespace(s[s.len() - k - 1]),
    ensures
        trailing_whitespace(s) == k,
    decreases k,
{
    if k > 0 {
        let front = s.drop_last();
        assert forall|i: int| front.len() - (k - 1) <= i < front.len() implies char_is_whitespace(
            front[i],
        ) by {
            assert(front[i] == s[i]);
        }
        if k < s.len() {
            assert(front[front.len() - (k - 1) - 1] == s[s.len() - k - 1]);
        }
        lemma_trailing_whitespace(front, k - 1);
    }
}

proof fn lemma_leading_whitespace_ends(s: Seq<char>)
    ensures
        leading_whitespace(s) <= s.len(),
        forall|i: int| 0 <= i < leading_whitespace(s) ==> char_is_whitespace(s[i]),
        leading_whitespace(s) == s.len() || !char_is_whitespace(s[leading_whitespace(s) as int]),
    decreases s.len(),
{
    if s.len() > 0 && char_is_whitespace(s.first()) {
        let tail = s.drop_first();
        lemma_leading_whitespace_ends(tail);
        assert forall|i: int| 0 <= i < leading_whitespace(s) implies char_is_whitespace(s[i]) by {
            if i > 0 {
                assert(s[i] == tail[i - 1]);
            }
        }
        if leading_whitespace(tail) < tail.len() {
            assert(tail[leading_whitespace(tail) as int] == s[leading_whitespace(s) as int]);
        }
    }
}

proof fn lemma_trailing_whitespace_ends(s: Seq<char>)
    ensures
        trailing_whitespace(s) <= s.len(),
        forall|i: int| s.len() - trailing_whitespace(s) <= i < s.len() ==> char_is_whitespace(s[i]),
        trailing_whitespace(s) == s.len() || !char_is_whitespace(
            s[s.len() - trailing_whitespace(s) - 1],
        ),
    decreases s.len(),
{
    if s.len() > 0 && char_is_whitespace(s.last()) {
        let front = s.drop_last();
        lemma_trailing_whitespace_ends(front);
        assert forall|i: int| s.len() - trailing_whitespace(s) <= i < s.len() implies char_is_whitespace(
            s[i],
        ) by {
            if i < front.len() {
                assert(s[i] == front[i]);
            }
        }
        if trailing_whitespace(front) < front.len() {
            assert(front[front.len() - trailing_whitespace(front) - 1] == s[s.len()
                - trailing_whitespace(s) - 1]);
        }
    }
}

/// Trimming keeps one stretch of the text: everything before it and
/// everything behind it is whitespace, and, unless it is empty, it begins
/// and ends with a character that is not.
pub proof fn lemma_trimmed_is_the_core(s: Seq<char>)
    ensures
        exists|from: int, to: int|
            {
                &&& 0 <= from <= to <= s.len()
                &&& #[trigger] s.subrange(from, to) == trimmed(s)
                &&& forall|i: int| 0 <= i < from ==> char_is_whitespace(s[i])
                &&& forall|i: int| to <= i < s.len() ==> char_is_whitespace(s[i])
                &&& from < to ==> !char_is_whitespace(s[from]) && !char_is_whitespace(s[to - 1])
            },
{
    lemma_leading_whitespace_ends(s);
    let from = leading_whitespace(s) as int;
    let rest = s.skip(from);
    lemma_trailing_whitespace_ends(rest);
    let to = s.len() - trailing_whitespace(rest);
    assert(s.subrange(from, to) =~= trimmed(s));
    assert forall|i: int| to <= i < s.len() implies char_is_whitespace(s[i]) by {
        assert(s[i] == rest[i - from]);
    }
    if from < to {
        assert(rest[rest.len() - trailing_whitespace(rest) - 1] == s[to - 1]);
    }
}

/// The characters of `v` between its leading and its trailing whitespace.
pub fn trim_chars(v: &Vec<char>) -> (r: String)
    ensures
        r@ == trimmed(v@),
{
    let mut start: usize = 0;
    while start < v.len() && is_whitespace(v[start])
        invariant
            start <= v.len(),
            forall|i: int| 0 <= i < start ==> char_is_whitespace(v@[i]),
        decreases v.len() - start,
    {
        start = start + 1;
    }
    let mut end: usize = v.len();
    while end > start && is_whitespace(v[end - 1])
        invariant
            start <= end <= v.len(),
            forall|i: int| end <= i < v.len() ==> char_is_whitespace(v@[i]),
        decreases end - start,
    {
        end = end - 1;
    }
    proof {
        lemma_leading_whitespace(v@, start as int);
        let rest = v@.skip(start as int);
        let k = v.len() - end;
        assert forall|i: int| rest.len() - k <= i < rest.len() implies char_is_whitespace(
            rest[i],
        ) by {
            assert(rest[i] == v@[start + i]);
        }
        if k < rest.len() {
            assert(rest[rest.len() - k - 1] == v@[end - 1]);
        }
        lemma_trailing_whitespace(rest, k);
        assert(rest.take(rest.len() - k) =~= v@.subrange(start as int, end as int));
    }
    string_of(v, start, end)
}

/// `s` without the whitespace at its two ends.
pub fn trim(s: &str) -> (r: String)
    ensures
        r@ == trimmed(s@),
{
    let v = chars_of(s);
    trim_chars(&v)
}

/// The upper-case form of `s` that `str::to_uppercase` gives: each character
/// replaced by its Unicode upper-case mapping, which may be several characters.
pub uninterp spec fn uppercased(s: Seq<char>) -> Seq<char>;

/// Calls `str::to_uppercase`, whose result depends on the characters of `s`
/// alone. The result is taken as the meaning of [`uppercased`].
#[verifier::external_body]
pub(crate) fn to_uppercase(s: &str) -> (upper: String)
    ensures
        upper@ == uppercased(s@),
{
    s.to_uppercase()
}

/// The pieces of `s` between the occurrences of `sep`. There is always at
/// least one piece, and a piece is empty where two separators touch or one
/// stands at an end.
pub open spec fn split_on(s: Seq<char>, sep: char) -> Seq<Seq<char>>
    decreases s.len(),
{
    if s.len() == 0 {
        seq![Seq::<char>::empty()]
    } else {
        let before = split_on(s.drop_last(), sep);
        if s.last() == sep {
            before.push(Seq::<char>::empty())
        } else {
            before.drop_last().push(before.last().push(s.last()))
        }
    }
}

/// The pieces put together again, with `sep` between each two.
pub open spec fn joined(pieces: Seq<Seq<char>>, sep: char) -> Seq<char>
    decreases pieces.len(),
{
    if pieces.len() == 0 {
        Seq::<char>::empty()
    } else if pieces.len() == 1 {
        pieces[0]
    } else {
        joined(pieces.drop_last(), sep).push(sep) + pieces.last()
    }
}

/// Splitting loses nothing and leaves no separator: there is at least one
/// piece, no piece holds `sep`, and the pieces joined by `sep` are the text.
pub proof fn lemma_split_on_pieces(s: Seq<char>, sep: char)
    ensures
        split_on(s, sep).len() >= 1,
        forall|i: int, j: int|
            0 <= i < split_on(s, sep).len() && 0 <= j < split_on(s, sep)[i].len() ==> (
            #[trigger] split_on(s, sep)[i][j]) != sep,
        joined(split_on(s, sep), sep) == s,
    decreases s.len(),
{
    let pieces = split_on(s, sep);
    if s.len() == 0 {
        assert(joined(pieces, sep) =~= s);
    } else {
        let before = split_on(s.drop_last(), sep);
        lemma_split_on_pieces(s.drop_last(), sep);
        if s.last() == sep {
            assert(pieces.drop_last() =~= before);
            assert(joined(pieces, sep) =~= s);
        } else {
            let grown = before.last().push(s.last());
            assert(pieces.last() == grown);
            assert(pieces.drop_last() =~= before.drop_last());
            if before.len() == 1 {
                assert(joined(pieces, sep) =~= s);
            } else {
                assert(joined(before, sep) == joined(before.drop_last(), sep).push(sep)
                    + before.last());
                assert(joined(pieces, sep) =~= joined(before, sep).push(s.last()));
                assert(joined(pieces, sep) =~= s);
            }
            assert forall|i: int, j: int|
                0 <= i < pieces.len() && 0 <= j < pieces[i].len() implies (
            #[trigger] pieces[i][j]) != sep by {
                if i < pieces.len() - 1 {
                    assert(pieces[i] == before[i]);
                } else if j < before.last().len() {
                    assert(pieces[i][j] == before.last()[j]);
                }
            }
        }
    }
}

/// The views of the vectors in `pieces`.
pub open spec fn piece_views(pieces: Seq<Vec<char>>) -> Seq<Seq<char>> {
    Seq::new(pieces.len(), |i: int| pieces[i]@)
}

/// Cuts `v` at every occurrence of `sep`.
pub fn split_chars(v: &Vec<char>, sep: char) -> (pieces: Vec<Vec<char>>)
    ensures
        piece_views(pieces@) == split_on(v@, sep),
{
    let mut pieces: Vec<Vec<char>> = Vec::new();
    let mut current: Vec<char> = Vec::new();
    let mut i: usize = 0;
    assert(v@.take(0) =~= Seq::<char>::empty());
    assert(piece_views(pieces@).push(current@) =~= seq![Seq::<char>::empty()]);
    while i < v.len()
        invariant
            i <= v.len(),
            piece_views(pieces@).push(current@) == split_on(v@.take(i as int), sep),
        decreases v.len() - i,
    {
        let c = v[i];
        let ghost before = split_on(v@.take(i as int), sep);
        let ghost old_pieces = pieces@;
        let ghost old_current = current@;
        proof {
            let next = v@.take(i + 1);
            assert(next.drop_last() =~= v@.take(i as int));
            assert(next.last() == c);
            assert(before.last() == old_current);
            assert(before.drop_last() =~= piece_views(old_pieces));
        }
        if c == sep {
            pieces.push(current);
            current = Vec::new();
            assert(piece_views(pieces@) =~= before);
        } else {
            current.push(c);
        }
        i = i + 1;
        assert(piece_views(pieces@).push(current@) =~= split_on(v@.take(i as int), sep));
    }
    assert(v@.take(v.len() as int) =~= v@);
    pieces.push(current);
    pieces
}

} // verus!
