//! Character-level text primitives shared by the page decoders.
//!
//! Text is modelled as `Seq<char>`. The executable functions work on
//! `Vec<char>` and are specified by the spec functions of the same purpose.

use vstd::prelude::*;

verus! {

/// Whether `c` is white space: one of the characters that carry the
/// Unicode property `White_Space`. These are the tab, the line feed, the
/// vertical tab, the form feed, the carriage return, the space, the next
/// line control, the no-break space, the ogham space mark, the spaces from
/// the en quad to the hair space, the line and paragraph separators, the
/// narrow no-break space, the medium mathematical space and the ideographic
/// space.
pub open spec fn white_space(c: char) -> bool {
    ||| '\u{9}' <= c <= '\u{d}'
    ||| c == ' '
    ||| c == '\u{85}'
    ||| c == '\u{a0}'
    ||| c == '\u{1680}'
    ||| '\u{2000}' <= c <= '\u{200a}'
    ||| c == '\u{2028}'
    ||| c == '\u{2029}'
    ||| c == '\u{202f}'
    ||| c == '\u{205f}'
    ||| c == '\u{3000}'
}

/// Whether `c` is white space.
pub fn is_white_space(c: char) -> (b: bool)
    ensures
        b == white_space(c),
{
    ('\u{9}' <= c && c <= '\u{d}') || c == ' ' || c == '\u{85}' || c == '\u{a0}' || c
        == '\u{1680}' || ('\u{2000}' <= c && c <= '\u{200a}') || c == '\u{2028}' || c
        == '\u{2029}' || c == '\u{202f}' || c == '\u{205f}' || c == '\u{3000}'
}

/// `String::push` appends one character to the end of the string.
pub assume_specification[ String::push ](s: &mut String, c: char)
    ensures
        final(s)@ == old(s)@.push(c),
;

// ---------------------------------------------------------------------------
// Conversions
// ---------------------------------------------------------------------------

/// The characters of `s`, in order.
pub fn to_chars(s: &str) -> (v: Vec<char>)
    ensures
        v@ == s@,
{
    let mut v: Vec<char> = Vec::new();
    for c in it: s.chars()
        invariant
            it.seq() == s@,
            v@ == it.seq().take(it.index() as int),
    {
        v.push(c);
    }
    v
}

/// The string made of the characters of `v`, in order.
pub fn from_chars(v: &Vec<char>) -> (s: String)
    ensures
        s@ == v@,
{
    let mut s = String::new();
    let mut i: usize = 0;
    while i < v.len()
        invariant
            i <= v.len(),
            s@ == v@.take(i as int),
        decreases v.len() - i,
    {
        s.push(v[i]);
        i += 1;
    }
    s
}

/// The characters of `s` from index `from` up to, not including, `to`.
pub(crate) fn slice(s: &Vec<char>, from: usize, to: usize) -> (r: Vec<char>)
    requires
        from <= to <= s.len(),
    ensures
        r@ == s@.subrange(from as int, to as int),
{
    let mut r: Vec<char> = Vec::new();
    let mut i: usize = from;
    while i < to
        invariant
            from <= i <= to <= s.len(),
            r@ == s@.subrange(from as int, i as int),
        decreases to - i,
    {
        r.push(s[i]);
        i += 1;
    }
    r
}

/// Whether two texts hold the same characters.
pub fn same(a: &Vec<char>, b: &Vec<char>) -> (r: bool)
    ensures
        r == (a@ == b@),
{
    if a.len() != b.len() {
        return false;
    }
    let mut i: usize = 0;
    while i < a.len()
        invariant
            a.len() == b.len(),
            i <= a.len(),
            a@.take(i as int) == b@.take(i as int),
        decreases a.len() - i,
    {
        if a[i] != b[i] {
            return false;
        }
        i += 1;
    }
    assert(a@ == a@.take(a.len() as int));
    assert(b@ == b@.take(b.len() as int));
    true
}

/// Whether the text `a` equals the string `b`.
pub fn equals(a: &Vec<char>, b: &str) -> (r: bool)
    ensures
        r == (a@ == b@),
{
    let other = to_chars(b);
    same(a, &other)
}

/// Whether two strings hold the same characters.
pub fn same_text(a: &str, b: &str) -> (r: bool)
    ensures
        r == (a@ == b@),
{
    let left = to_chars(a);
    let right = to_chars(b);
    same(&left, &right)
}

// ---------------------------------------------------------------------------
// Prefixes
// ---------------------------------------------------------------------------

/// `s` without its first `n` characters; empty where it has no more.
pub open spec fn drop_chars(s: Seq<char>, n: nat) -> Seq<char> {
    if n >= s.len() {
        Seq::empty()
    } else {
        s.skip(n as int)
    }
}

/// The first `n` characters of `s`; all of it where it has no more.
pub open spec fn take_chars(s: Seq<char>, n: nat) -> Seq<char> {
    if n >= s.len() {
        s
    } else {
        s.take(n as int)
    }
}

/// The first `n` characters of `s`.
pub fn first_chars(s: &Vec<char>, n: usize) -> (r: Vec<char>)
    ensures
        r@ == take_chars(s@, n as nat),
{
    if n >= s.len() {
        slice(s, 0, s.len())
    } else {
        slice(s, 0, n)
    }
}

// ---------------------------------------------------------------------------
// Trimming
// ---------------------------------------------------------------------------

/// `s` without its leading white space.
pub open spec fn trim_start(s: Seq<char>) -> Seq<char>
    decreases s.len(),
{
    if s.len() > 0 && white_space(s[0]) {
        trim_start(s.drop_first())
    } else {
        s
    }
}

/// `s` without its trailing white space.
pub open spec fn trim_end(s: Seq<char>) -> Seq<char>
    decreases s.len(),
{
    if s.len() > 0 && white_space(s.last()) {
        trim_end(s.drop_last())
    } else {
        s
    }
}

/// `s` without leading and trailing white space.
pub open spec fn trim(s: Seq<char>) -> Seq<char> {
    trim_end(trim_start(s))
}

/// Removes leading and trailing white space.
pub fn trimmed(s: &Vec<char>) -> (r: Vec<char>)
    ensures
        r@ == trim(s@),
{
    let mut start: usize = 0;
    assert(s@.skip(0) == s@);
    while start < s.len() && is_white_space(s[start])
        invariant
            start <= s.len(),
            trim_start(s@) == trim_start(s@.skip(start as int)),
        decreases s.len() - start,
    {
        assert(s@.skip(start as int).drop_first() == s@.skip(start + 1));
        start += 1;
    }
    let mut end: usize = s.len();
    while end > start && is_white_space(s[end - 1])
        invariant
            start <= end <= s.len(),
            trim(s@) == trim_end(s@.subrange(start as int, end as int)),
        decreases end - start,
    {
        assert(s@.subrange(start as int, end as int).drop_last() == s@.subrange(
            start as int,
            end - 1,
        ));
        end -= 1;
    }
    slice(s, start, end)
}

/// The trimmed text of a string.
pub fn trimmed_text(s: &str) -> (r: Vec<char>)
    ensures
        r@ == trim(s@),
{
    let chars = to_chars(s);
    trimmed(&chars)
}

// ---------------------------------------------------------------------------
// Searching
// ---------------------------------------------------------------------------

/// Whether `pat` stands in `s` at index `i`.
pub open spec fn occurs_at(s: Seq<char>, pat: Seq<char>, i: int) -> bool {
    0 <= i && i + pat.len() <= s.len() && s.subrange(i, i + pat.len()) == pat
}

/// The index of the first occurrence of `pat` in `s`.
pub open spec fn find(s: Seq<char>, pat: Seq<char>) -> Option<int>
    decreases s.len(),
{
    if occurs_at(s, pat, 0) {
        Some(0)
    } else if s.len() == 0 {
        None
    } else {
        match find(s.drop_first(), pat) {
            Some(i) => Some(i + 1),
            None => None,
        }
    }
}

/// Whether `pat` occurs somewhere in `s`.
pub open spec fn contains(s: Seq<char>, pat: Seq<char>) -> bool {
    exists|i: int| occurs_at(s, pat, i)
}

/// An occurrence in the tail of a text is an occurrence one further in the
/// text itself.
pub proof fn lemma_occurs_shift(s: Seq<char>, pat: Seq<char>, j: int)
    requires
        s.len() > 0,
        0 <= j,
    ensures
        occurs_at(s.drop_first(), pat, j) == occurs_at(s, pat, j + 1),
{
    if j + pat.len() <= s.len() - 1 {
        assert(s.drop_first().subrange(j, j + pat.len()) == s.subrange(j + 1, j + 1 + pat.len()));
    }
}

/// `find` returns the least index at which the pattern occurs.
pub proof fn lemma_find_is_first(s: Seq<char>, pat: Seq<char>)
    ensures
        match find(s, pat) {
            Some(i) => occurs_at(s, pat, i) && forall|j: int| 0 <= j < i ==> !occurs_at(s, pat, j),
            None => forall|j: int| !occurs_at(s, pat, j),
        },
    decreases s.len(),
{
    if !occurs_at(s, pat, 0) && s.len() > 0 {
        lemma_find_is_first(s.drop_first(), pat);
        match find(s.drop_first(), pat) {
            Some(i) => {
                lemma_occurs_shift(s, pat, i);
                assert forall|j: int| 0 <= j < i + 1 implies !occurs_at(s, pat, j) by {
                    if j > 0 {
                        lemma_occurs_shift(s, pat, j - 1);
                    }
                }
            },
            None => {
                assert forall|j: int| !occurs_at(s, pat, j) by {
                    if j > 0 {
                        lemma_occurs_shift(s, pat, j - 1);
                    }
                }
            },
        }
    }
}

/// The least index at which the pattern occurs is what `find` returns.
pub proof fn lemma_first_is_find(s: Seq<char>, pat: Seq<char>, k: int)
    requires
        occurs_at(s, pat, k),
        forall|j: int| 0 <= j < k ==> !occurs_at(s, pat, j),
    ensures
        find(s, pat) == Some(k),
{
    lemma_find_is_first(s, pat);
}

/// `contains` holds exactly when `find` finds an occurrence.
pub proof fn lemma_contains_is_find(s: Seq<char>, pat: Seq<char>)
    ensures
        contains(s, pat) == find(s, pat).is_some(),
{
    lemma_find_is_first(s, pat);
}

/// Whether `pat` stands in `s` at index `i`.
pub(crate) fn starts_at(s: &Vec<char>, pat: &Vec<char>, i: usize) -> (r: bool)
    requires
        i <= s.len(),
    ensures
        r == occurs_at(s@, pat@, i as int),
{
    if pat.len() > s.len() - i {
        return false;
    }
    let mut k: usize = 0;
    while k < pat.len()
        invariant
            i + pat.len() <= s.len(),
            k <= pat.len(),
            s@.subrange(i as int, i + k) == pat@.take(k as int),
        decreases pat.len() - k,
    {
        if s[i + k] != pat[k] {
            return false;
        }
        k += 1;
    }
    assert(pat@.take(pat.len() as int) == pat@);
    true
}

/// The index of the first occurrence of `pat` in `s` at or after `from`.
pub(crate) fn find_from(s: &Vec<char>, pat: &Vec<char>, from: usize) -> (r: Option<usize>)
    requires
        from <= s.len(),
    ensures
        match r {
            Some(i) => from <= i && i + pat.len() <= s.len() && find(s@.skip(from as int), pat@)
                == Some(i - from),
            None => find(s@.skip(from as int), pat@).is_none(),
        },
{
    let ghost rest = s@.skip(from as int);
    let mut i: usize = from;
    while i < s.len()
        invariant
            from <= i <= s.len(),
            rest == s@.skip(from as int),
            forall|j: int| 0 <= j < i - from ==> !occurs_at(rest, pat@, j),
        decreases s.len() - i,
    {
        let hit = starts_at(s, pat, i);
        proof {
            if i + pat.len() <= s.len() {
                assert(rest.subrange(i - from, i - from + pat.len()) == s@.subrange(
                    i as int,
                    i + pat.len(),
                ));
            }
        }
        if hit {
            proof {
                lemma_first_is_find(rest, pat@, i - from);
            }
            return Some(i);
        }
        i += 1;
    }
    let hit = starts_at(s, pat, i);
    proof {
        if pat.len() == 0 {
            assert(rest.subrange(i - from, i - from + pat.len()) == s@.subrange(
                i as int,
                i + pat.len(),
            ));
        }
    }
    if hit {
        proof {
            lemma_first_is_find(rest, pat@, i - from);
        }
        return Some(i);
    }
    proof {
        lemma_find_is_first(rest, pat@);
    }
    None
}

/// Whether `pat` occurs somewhere in `s`.
pub fn has(s: &Vec<char>, pat: &Vec<char>) -> (r: bool)
    ensures
        r == contains(s@, pat@),
{
    proof {
        lemma_contains_is_find(s@, pat@);
        assert(s@.skip(0) == s@);
    }
    find_from(s, pat, 0).is_some()
}

// ---------------------------------------------------------------------------
// Splitting and joining
// ---------------------------------------------------------------------------

/// The pieces of `s` between the occurrences of `sep`, found from left to
/// right without overlap. There is always at least one piece. With an empty
/// separator the text comes back whole.
pub open spec fn split(s: Seq<char>, sep: Seq<char>) -> Seq<Seq<char>>
    decreases s.len(),
{
    match find(s, sep) {
        Some(i) if sep.len() > 0 && 0 <= i && i + sep.len() <= s.len() => seq![s.take(i)] + split(
            s.skip(i + sep.len()),
            sep,
        ),
        _ => seq![s],
    }
}

/// `s` with every occurrence of `pat` taken out, from left to right.
pub open spec fn remove_all(s: Seq<char>, pat: Seq<char>) -> Seq<char> {
    split(s, pat).flatten()
}

/// The parts, with `sep` between each two neighbours.
pub open spec fn join(parts: Seq<Seq<char>>, sep: Seq<char>) -> Seq<char>
    decreases parts.len(),
{
    if parts.len() == 0 {
        Seq::empty()
    } else if parts.len() == 1 {
        parts[0]
    } else {
        join(parts.drop_last(), sep) + sep + parts.last()
    }
}

/// The views of the texts in `v`.
pub open spec fn texts(v: Seq<Vec<char>>) -> Seq<Seq<char>> {
    v.map_values(|t: Vec<char>| t@)
}

/// Splits `s` at the occurrences of `sep`.
pub fn split_on(s: &Vec<char>, sep: &Vec<char>) -> (r: Vec<Vec<char>>)
    ensures
        texts(r@) == split(s@, sep@),
{
    let mut out: Vec<Vec<char>> = Vec::new();
    if sep.len() == 0 {
        out.push(slice(s, 0, s.len()));
        assert(s@.subrange(0, s.len() as int) == s@);
        return out;
    }
    let mut pos: usize = 0;
    assert(s@.skip(0) == s@);
    loop
        invariant_except_break
            texts(out@) + split(s@.skip(pos as int), sep@) == split(s@, sep@),
        invariant
            sep.len() > 0,
            pos <= s.len(),
        ensures
            texts(out@) == split(s@, sep@),
        decreases s.len() - pos,
    {
        let ghost rest = s@.skip(pos as int);
        match find_from(s, sep, pos) {
            Some(i) => {
                let piece = slice(s, pos, i);
                proof {
                    assert(rest.take(i - pos) == s@.subrange(pos as int, i as int));
                    assert(rest.skip(i - pos + sep.len()) == s@.skip(i + sep.len()));
                }
                out.push(piece);
                pos = i + sep.len();
            },
            None => {
                let piece = slice(s, pos, s.len());
                out.push(piece);
                break ;
            },
        }
    }
    out
}

/// Takes every occurrence of `pat` out of `s`.
pub fn without(s: &Vec<char>, pat: &Vec<char>) -> (r: Vec<char>)
    ensures
        r@ == remove_all(s@, pat@),
{
    let pieces = split_on(s, pat);
    let mut out: Vec<char> = Vec::new();
    let mut i: usize = 0;
    while i < pieces.len()
        invariant
            i <= pieces.len(),
            out@ == texts(pieces@).take(i as int).flatten(),
        decreases pieces.len() - i,
    {
        let piece = &pieces[i];
        let ghost before = out@;
        let mut k: usize = 0;
        while k < piece.len()
            invariant
                k <= piece.len(),
                out@ == before + piece@.take(k as int),
            decreases piece.len() - k,
        {
            out.push(piece[k]);
            k += 1;
        }
        proof {
            let done = texts(pieces@).take(i as int);
            assert(texts(pieces@).take(i + 1) == done.push(piece@));
            done.lemma_flatten_push(piece@);
        }
        i += 1;
    }
    proof {
        assert(texts(pieces@).take(pieces.len() as int) == texts(pieces@));
    }
    out
}

/// Joins the parts with `sep` between them.
pub fn joined(parts: &Vec<Vec<char>>, sep: &Vec<char>) -> (r: Vec<char>)
    ensures
        r@ == join(texts(parts@), sep@),
{
    let mut out: Vec<char> = Vec::new();
    let mut i: usize = 0;
    while i < parts.len()
        invariant
            i <= parts.len(),
            out@ == join(texts(parts@).take(i as int), sep@),
        decreases parts.len() - i,
    {
        let ghost before = out@;
        if i > 0 {
            let mut k: usize = 0;
            while k < sep.len()
                invariant
                    k <= sep.len(),
                    out@ == before + sep@.take(k as int),
                decreases sep.len() - k,
            {
                out.push(sep[k]);
                k += 1;
            }
        }
        let ghost middle = out@;
        let part = &parts[i];
        let mut k: usize = 0;
        while k < part.len()
            invariant
                k <= part.len(),
                out@ == middle + part@.take(k as int),
            decreases part.len() - k,
        {
            out.push(part[k]);
            k += 1;
        }
        proof {
            let next = texts(parts@).take(i + 1);
            assert(next.drop_last() == texts(parts@).take(i as int));
        }
        i += 1;
    }
    proof {
        assert(texts(parts@).take(parts.len() as int) == texts(parts@));
    }
    out
}

// ---------------------------------------------------------------------------
// Splitting at single characters
// ---------------------------------------------------------------------------

/// The index of the first character of `s` that is one of `delims`.
pub open spec fn first_of(s: Seq<char>, delims: Seq<char>) -> Option<int>
    decreases s.len(),
{
    if s.len() == 0 {
        None
    } else if delims.contains(s[0]) {
        Some(0)
    } else {
        match first_of(s.drop_first(), delims) {
            Some(i) => Some(i + 1),
            None => None,
        }
    }
}

/// The pieces of `s` between the characters that are one of `delims`. There
/// is always at least one piece.
pub open spec fn split_any(s: Seq<char>, delims: Seq<char>) -> Seq<Seq<char>>
    decreases s.len(),
{
    match first_of(s, delims) {
        Some(i) if 0 <= i < s.len() => seq![s.take(i)] + split_any(s.skip(i + 1), delims),
        _ => seq![s],
    }
}

/// `first_of` returns the least index that holds a delimiter.
pub proof fn lemma_first_of_is_first(s: Seq<char>, delims: Seq<char>)
    ensures
        match first_of(s, delims) {
            Some(i) => 0 <= i < s.len() && delims.contains(s[i]) && forall|j: int|
                0 <= j < i ==> !delims.contains(#[trigger] s[j]),
            None => forall|j: int| 0 <= j < s.len() ==> !delims.contains(#[trigger] s[j]),
        },
    decreases s.len(),
{
    if s.len() > 0 && !delims.contains(s[0]) {
        let tail = s.drop_first();
        lemma_first_of_is_first(tail, delims);
        match first_of(tail, delims) {
            Some(i) => {
                assert forall|j: int| 0 <= j < i + 1 implies !delims.contains(#[trigger] s[j]) by {
                    if j > 0 {
                        assert(s[j] == tail[j - 1]);
                    }
                }
            },
            None => {
                assert forall|j: int| 0 <= j < s.len() implies !delims.contains(#[trigger] s[j]) by {
                    if j > 0 {
                        assert(s[j] == tail[j - 1]);
                    }
                }
            },
        }
    }
}

/// Whether `c` is one of `delims`.
pub fn is_one_of(delims: &Vec<char>, c: char) -> (r: bool)
    ensures
        r == delims@.contains(c),
{
    let mut i: usize = 0;
    while i < delims.len()
        invariant
            i <= delims.len(),
            forall|j: int| 0 <= j < i ==> delims@[j] != c,
        decreases delims.len() - i,
    {
        if delims[i] == c {
            return true;
        }
        i += 1;
    }
    false
}

/// The index of the first delimiter in `s` at or after `from`.
pub(crate) fn find_any_from(s: &Vec<char>, delims: &Vec<char>, from: usize) -> (r: Option<usize>)
    requires
        from <= s.len(),
    ensures
        match r {
            Some(i) => from <= i < s.len() && first_of(s@.skip(from as int), delims@) == Some(
                i - from,
            ),
            None => first_of(s@.skip(from as int), delims@).is_none(),
        },
{
    let ghost rest = s@.skip(from as int);
    let mut i: usize = from;
    while i < s.len()
        invariant
            from <= i <= s.len(),
            rest == s@.skip(from as int),
            forall|j: int| 0 <= j < i - from ==> !delims@.contains(#[trigger] rest[j]),
        decreases s.len() - i,
    {
        if is_one_of(delims, s[i]) {
            proof {
                lemma_first_of_is_first(rest, delims@);
                assert(rest[i - from] == s@[i as int]);
            }
            return Some(i);
        }
        i += 1;
    }
    proof {
        lemma_first_of_is_first(rest, delims@);
    }
    None
}

/// Splits `s` at every character that is one of `delims`.
pub fn split_at_any(s: &Vec<char>, delims: &Vec<char>) -> (r: Vec<Vec<char>>)
    ensures
        texts(r@) == split_any(s@, delims@),
{
    let mut out: Vec<Vec<char>> = Vec::new();
    let mut pos: usize = 0;
    assert(s@.skip(0) == s@);
    loop
        invariant_except_break
            texts(out@) + split_any(s@.skip(pos as int), delims@) == split_any(s@, delims@),
        invariant
            pos <= s.len(),
        ensures
            texts(out@) == split_any(s@, delims@),
        decreases s.len() - pos,
    {
        let ghost rest = s@.skip(pos as int);
        match find_any_from(s, delims, pos) {
            Some(i) => {
                let piece = slice(s, pos, i);
                proof {
                    assert(rest.take(i - pos) == s@.subrange(pos as int, i as int));
                    assert(rest.skip(i - pos + 1) == s@.skip(i + 1));
                }
                out.push(piece);
                pos = i + 1;
            },
            None => {
                let piece = slice(s, pos, s.len());
                out.push(piece);
                break ;
            },
        }
    }
    out
}

// ---------------------------------------------------------------------------
// Numbers
// ---------------------------------------------------------------------------

/// Whether `c` is one of the ASCII digits `0` to `9`.
pub open spec fn is_digit(c: char) -> bool {
    '0' <= c <= '9'
}

/// The value of an ASCII digit.
pub open spec fn digit_value(c: char) -> int {
    c as int - '0' as int
}

/// Whether every character of `s` is an ASCII digit.
pub open spec fn all_digits(s: Seq<char>) -> bool {
    forall|i: int| 0 <= i < s.len() ==> is_digit(#[trigger] s[i])
}

/// The number that a run of ASCII digits writes in base ten.
pub open spec fn decimal_value(s: Seq<char>) -> int
    decreases s.len(),
{
    if s.len() == 0 {
        0
    } else {
        10 * decimal_value(s.drop_last()) + digit_value(s.last())
    }
}

/// The integer that `s` writes: an optional sign, then one or more ASCII
/// digits and nothing else.
pub open spec fn parse_int(s: Seq<char>) -> Option<int> {
    let digits = unsigned_part(s);
    if digits.len() == 0 || !all_digits(digits) {
        None
    } else if is_negative(s) {
        Some(-decimal_value(digits))
    } else {
        Some(decimal_value(digits))
    }
}

/// Whether `s` begins with a minus sign.
pub open spec fn is_negative(s: Seq<char>) -> bool {
    s.len() > 0 && s[0] == '-'
}

/// `s` without its leading sign, if it has one.
pub open spec fn unsigned_part(s: Seq<char>) -> Seq<char> {
    if s.len() > 0 && (s[0] == '-' || s[0] == '+') {
        s.drop_first()
    } else {
        s
    }
}

/// The `i32` that `s` writes, if it writes an integer that fits.
pub open spec fn parse_i32(s: Seq<char>) -> Option<i32> {
    match parse_int(s) {
        Some(v) if i32::MIN <= v <= i32::MAX => Some(v as i32),
        _ => None,
    }
}

/// A run of digits writes a number that is not negative, and a longer run
/// writes no smaller a number than its prefix.
pub proof fn lemma_decimal_value_bounds(s: Seq<char>)
    requires
        all_digits(s),
    ensures
        decimal_value(s) >= 0,
        s.len() > 0 ==> decimal_value(s) >= decimal_value(s.drop_last()),
    decreases s.len(),
{
    if s.len() > 0 {
        lemma_decimal_value_bounds(s.drop_last());
    }
}

/// Whether `c` is an ASCII digit.
pub fn digit(c: char) -> (b: bool)
    ensures
        b == is_digit(c),
{
    '0' <= c && c <= '9'
}

/// Reads a signed decimal integer that fits in an `i32`.
pub fn to_i32(s: &Vec<char>) -> (r: Option<i32>)
    ensures
        r == parse_i32(s@),
{
    let n: usize = s.len();
    let mut start: usize = 0;
    let mut negative: bool = false;
    if n > 0 && s[0] == '-' {
        negative = true;
        start = 1;
    } else if n > 0 && s[0] == '+' {
        start = 1;
    }
    if start == n {
        return None;
    }
    let ghost digits = s@.skip(start as int);
    // The magnitude read so far, or one past the largest magnitude an `i32`
    // can need once it has grown beyond that.
    let limit: i64 = 2147483648;
    let mut acc: i64 = 0;
    let mut i: usize = start;
    while i < n
        invariant
            start <= i <= n,
            n == s.len(),
            limit == 2147483648,
            digits == s@.skip(start as int),
            digits == unsigned_part(s@),
            negative == is_negative(s@),
            all_digits(digits.take(i - start)),
            0 <= acc <= limit + 1,
            acc <= limit ==> acc == decimal_value(digits.take(i - start)),
            acc > limit ==> decimal_value(digits.take(i - start)) > limit,
        decreases n - i,
    {
        let c = s[i];
        let ghost prefix = digits.take(i - start);
        let ghost next = digits.take(i - start + 1);
        proof {
            assert(next.drop_last() == prefix);
            assert(next.last() == c);
        }
        if !digit(c) {
            return None;
        }
        if acc <= limit {
            let d: i64 = (c as u32 - '0' as u32) as i64;
            acc = acc * 10 + d;
            if acc > limit {
                acc = limit + 1;
            }
        }
        i += 1;
    }
    proof {
        assert(digits.take(n - start) == digits);
    }
    if negative {
        if acc > limit {
            None
        } else {
            Some((-acc) as i32)
        }
    } else {
        if acc >= limit {
            None
        } else {
            Some(acc as i32)
        }
    }
}

} // verus!
