//! Character-level string operations with exact specifications.
//!
//! Strings are reasoned about through their views, sequences of characters.
//! The operations here are the small pieces of `str` behaviour that the
//! browser relies on (trimming, prefix stripping, splitting into lines,
//! joining, decimal rendering), each proved against a direct definition.
use vstd::prelude::*;

verus! {

// ---------------------------------------------------------------------------
// Trusted primitives of std that vstd leaves unspecified.
/// Appends one character to a string: std `String::push`, which grows the
/// string by exactly that character.
#[verifier::external_body]
pub(crate) fn push_char(s: &mut String, c: char)
    ensures
        final(s)@ == old(s)@.push(c),
{
    s.push(c);
}

/// Removes the last character of a string, if any: std `String::pop`, which
/// returns that character and leaves the rest of the string unchanged.
#[verifier::external_body]
pub(crate) fn pop_char(s: &mut String) -> (r: Option<char>)
    ensures
        old(s)@.len() == 0 ==> r is None && final(s)@ == old(s)@,
        old(s)@.len() > 0 ==> r == Some(old(s)@.last()) && final(s)@ == old(s)@.drop_last(),
{
    s.pop()
}

/// What std `str::to_lowercase` returns for a string: the full Unicode
/// lowercase mapping, a function of the characters alone.
pub uninterp spec fn lowercase(s: Seq<char>) -> Seq<char>;

/// std `str::to_lowercase`: the result is `lowercase` of the argument.
#[verifier::external_body]
pub(crate) fn to_lowercase(s: &str) -> (r: String)
    ensures
        r@ == lowercase(s@),
{
    s.to_lowercase()
}

/// What std `String::from_utf8_lossy` decodes from bytes: valid UTF-8 is
/// decoded, invalid sequences become U+FFFD; a function of the bytes alone.
pub uninterp spec fn utf8_lossy(bytes: Seq<u8>) -> Seq<char>;

/// std `String::from_utf8_lossy` followed by `into_owned`: the result is
/// `utf8_lossy` of the bytes.
#[verifier::external_body]
pub(crate) fn decode_utf8_lossy(bytes: &[u8]) -> (r: String)
    ensures
        r@ == utf8_lossy(bytes@),
{
    String::from_utf8_lossy(bytes).into_owned()
}

// ---------------------------------------------------------------------------
// Conversions between strings and character vectors.
/// The characters of `s`, in order.
pub fn chars_of(s: &str) -> (v: Vec<char>)
    ensures
        v@ == s@,
{
    let mut v: Vec<char> = Vec::new();
    for c in it: s.chars()
        invariant
            v@ == it.seq().take(it.index()),
    {
        v.push(c);
    }
    v
}

/// The string made of `v[from..to]`.
pub fn string_of_range(v: &Vec<char>, from: usize, to: usize) -> (s: String)
    requires
        from <= to <= v.len(),
    ensures
        s@ == v@.subrange(from as int, to as int),
{
    let mut s = String::new();
    let mut i = from;
    while i < to
        invariant
            from <= i <= to <= v.len(),
            s@ == v@.subrange(from as int, i as int),
        decreases to - i,
    {
        push_char(&mut s, v[i]);
        assert(v@.subrange(from as int, i + 1) == v@.subrange(from as int, i as int).push(v@[i as int]));
        i += 1;
    }
    s
}

/// A copy of `s` as an owned string.
pub fn owned(s: &str) -> (r: String)
    ensures
        r@ == s@,
{
    String::from_str(s)
}

/// `a` followed by `b`.
pub fn cat(a: &str, b: &str) -> (r: String)
    ensures
        r@ == a@ + b@,
{
    let mut r = String::from_str(a);
    r.append(b);
    r
}

/// `a`, then `b`, then `c`.
pub fn cat3(a: &str, b: &str, c: &str) -> (r: String)
    ensures
        r@ == a@ + b@ + c@,
{
    let mut r = String::from_str(a);
    r.append(b);
    r.append(c);
    r
}

/// Equality of two strings, character by character.
pub fn str_eq(a: &str, b: &str) -> (r: bool)
    ensures
        r == (a@ == b@),
{
    let va = chars_of(a);
    let vb = chars_of(b);
    if va.len() != vb.len() {
        return false;
    }
    let mut i: usize = 0;
    while i < va.len()
        invariant
            va@ == a@,
            vb@ == b@,
            va.len() == vb.len(),
            i <= va.len(),
            forall|k: int| 0 <= k < i ==> va@[k] == vb@[k],
        decreases va.len() - i,
    {
        if va[i] != vb[i] {
            return false;
        }
        i += 1;
    }
    assert(va@ =~= vb@);
    true
}

/// Whether a string has no characters.
pub fn is_empty_str(s: &str) -> (r: bool)
    ensures
        r == (s@.len() == 0),
{
    s.unicode_len() == 0
}

// ---------------------------------------------------------------------------
// Whitespace and trimming.
/// Unicode `White_Space`: the characters that `char::is_whitespace` accepts.
pub open spec fn is_whitespace(c: char) -> bool {
    let u = c as u32;
    ||| 0x9 <= u <= 0xd
    ||| u == 0x20
    ||| u == 0x85
    ||| u == 0xa0
    ||| u == 0x1680
    ||| 0x2000 <= u <= 0x200a
    ||| u == 0x2028
    ||| u == 0x2029
    ||| u == 0x202f
    ||| u == 0x205f
    ||| u == 0x3000
}

/// Decides `is_whitespace`.
pub fn is_whitespace_char(c: char) -> (r: bool)
    ensures
        r == is_whitespace(c),
{
    let u = c as u32;
    (0x9 <= u && u <= 0xd) || u == 0x20 || u == 0x85 || u == 0xa0 || u == 0x1680 || (0x2000 <= u
        && u <= 0x200a) || u == 0x2028 || u == 0x2029 || u == 0x202f || u == 0x205f || u == 0x3000
}

/// What a trimming operation removes: whitespace, or one given character.
#[derive(Clone, Copy)]
pub enum Pattern {
    Whitespace,
    Char(char),
}

/// Whether `c` is removed by the pattern.
pub open spec fn pattern_matches(p: Pattern, c: char) -> bool {
    match p {
        Pattern::Whitespace => is_whitespace(c),
        Pattern::Char(d) => c == d,
    }
}

fn pattern_test(p: Pattern, c: char) -> (r: bool)
    ensures
        r == pattern_matches(p, c),
{
    match p {
        Pattern::Whitespace => is_whitespace_char(c),
        Pattern::Char(d) => c == d,
    }
}

/// `s` with every leading character matched by `p` removed.
pub open spec fn trim_start_by(s: Seq<char>, p: Pattern) -> Seq<char>
    decreases s.len(),
{
    if s.len() > 0 && pattern_matches(p, s[0]) {
        trim_start_by(s.drop_first(), p)
    } else {
        s
    }
}

/// `s` with every trailing character matched by `p` removed.
pub open spec fn trim_end_by(s: Seq<char>, p: Pattern) -> Seq<char>
    decreases s.len(),
{
    if s.len() > 0 && pattern_matches(p, s.last()) {
        trim_end_by(s.drop_last(), p)
    } else {
        s
    }
}

/// `s` with leading and trailing characters matched by `p` removed.
pub open spec fn trim_by(s: Seq<char>, p: Pattern) -> Seq<char> {
    trim_end_by(trim_start_by(s, p), p)
}

/// `str::trim`: `s` without leading and trailing whitespace.
pub open spec fn trim(s: Seq<char>) -> Seq<char> {
    trim_by(s, Pattern::Whitespace)
}

/// Index of the first character of `v[from..to]` not matched by `p` (or `to`).
fn skip_front(v: &Vec<char>, p: Pattern, from: usize, to: usize) -> (i: usize)
    requires
        from <= to <= v.len(),
    ensures
        from <= i <= to,
        trim_start_by(v@.subrange(from as int, to as int), p) == v@.subrange(i as int, to as int),
{
    let mut i = from;
    while i < to && pattern_test(p, v[i])
        invariant
            from <= i <= to <= v.len(),
            trim_start_by(v@.subrange(from as int, to as int), p) == trim_start_by(
                v@.subrange(i as int, to as int),
                p,
            ),
        decreases to - i,
    {
        assert(v@.subrange(i as int, to as int).drop_first() =~= v@.subrange(i + 1, to as int));
        i += 1;
    }
    i
}

/// Index just past the last character of `v[from..to]` not matched by `p` (or `from`).
fn skip_back(v: &Vec<char>, p: Pattern, from: usize, to: usize) -> (j: usize)
    requires
        from <= to <= v.len(),
    ensures
        from <= j <= to,
        trim_end_by(v@.subrange(from as int, to as int), p) == v@.subrange(from as int, j as int),
{
    let mut j = to;
    while j > from && pattern_test(p, v[j - 1])
        invariant
            from <= j <= to <= v.len(),
            trim_end_by(v@.subrange(from as int, to as int), p) == trim_end_by(
                v@.subrange(from as int, j as int),
                p,
            ),
        decreases j - from,
    {
        assert(v@.subrange(from as int, j as int).drop_last() =~= v@.subrange(
            from as int,
            j - 1,
        ));
        j -= 1;
    }
    j
}

/// `s` with leading and trailing characters matched by `p` removed.
pub fn trim_with(s: &str, p: Pattern) -> (r: String)
    ensures
        r@ == trim_by(s@, p),
{
    let v = chars_of(s);
    let i = skip_front(&v, p, 0, v.len());
    let j = skip_back(&v, p, i, v.len());
    assert(v@.subrange(0, v.len() as int) =~= s@);
    string_of_range(&v, i, j)
}

/// `str::trim`.
pub fn trim_str(s: &str) -> (r: String)
    ensures
        r@ == trim(s@),
{
    trim_with(s, Pattern::Whitespace)
}

/// `str::trim_end_matches` with a character: trailing copies of `c` removed.
pub fn trim_end_matches(s: &str, c: char) -> (r: String)
    ensures
        r@ == trim_end_by(s@, Pattern::Char(c)),
{
    let v = chars_of(s);
    let j = skip_back(&v, Pattern::Char(c), 0, v.len());
    assert(v@.subrange(0, v.len() as int) =~= s@);
    string_of_range(&v, 0, j)
}

/// `str::trim_matches` with a character: leading and trailing copies of `c` removed.
pub fn trim_matches(s: &str, c: char) -> (r: String)
    ensures
        r@ == trim_by(s@, Pattern::Char(c)),
{
    trim_with(s, Pattern::Char(c))
}

/// Trimming twice removes nothing more.
pub proof fn lemma_trim_start_idempotent(s: Seq<char>, p: Pattern)
    ensures
        trim_start_by(trim_start_by(s, p), p) == trim_start_by(s, p),
        trim_start_by(s, p).len() > 0 ==> !pattern_matches(p, trim_start_by(s, p)[0]),
    decreases s.len(),
{
    if s.len() > 0 && pattern_matches(p, s[0]) {
        lemma_trim_start_idempotent(s.drop_first(), p);
    }
}

/// Trimming the end twice removes nothing more.
pub proof fn lemma_trim_end_idempotent(s: Seq<char>, p: Pattern)
    ensures
        trim_end_by(trim_end_by(s, p), p) == trim_end_by(s, p),
        trim_end_by(s, p).len() > 0 ==> !pattern_matches(p, trim_end_by(s, p).last()),
    decreases s.len(),
{
    if s.len() > 0 && pattern_matches(p, s.last()) {
        lemma_trim_end_idempotent(s.drop_last(), p);
    }
}

/// Trimming the end keeps a prefix of the string.
pub proof fn lemma_trim_end_prefix(s: Seq<char>, p: Pattern)
    ensures
        trim_end_by(s, p).len() <= s.len(),
        trim_end_by(s, p) == s.take(trim_end_by(s, p).len() as int),
    decreases s.len(),
{
    if s.len() > 0 && pattern_matches(p, s.last()) {
        lemma_trim_end_prefix(s.drop_last(), p);
        assert(s.drop_last().take(trim_end_by(s, p).len() as int) =~= s.take(
            trim_end_by(s, p).len() as int,
        ));
    } else {
        assert(s.take(s.len() as int) =~= s);
    }
}

/// Trimming the end of a string whose first character is kept leaves that
/// first character in place.
pub proof fn lemma_trim_end_keeps_first(s: Seq<char>, p: Pattern)
    requires
        s.len() > 0,
        !pattern_matches(p, s[0]),
    ensures
        trim_end_by(s, p).len() > 0,
        trim_end_by(s, p)[0] == s[0],
    decreases s.len(),
{
    if pattern_matches(p, s.last()) {
        lemma_trim_end_keeps_first(s.drop_last(), p);
    }
}

/// Trimming a string that is already trimmed changes nothing.
pub proof fn lemma_trim_idempotent(s: Seq<char>, p: Pattern)
    ensures
        trim_by(trim_by(s, p), p) == trim_by(s, p),
{
    let a = trim_start_by(s, p);
    lemma_trim_start_idempotent(s, p);
    lemma_trim_end_idempotent(a, p);
    let b = trim_end_by(a, p);
    if b.len() > 0 {
        lemma_trim_end_keeps_first(a, p);
    }
    assert(trim_start_by(b, p) == b);
}

// ---------------------------------------------------------------------------
// Prefixes, suffixes, splitting.
/// `str::strip_prefix`: the rest of `s` after `prefix`, when `s` starts with it.
pub open spec fn strip_prefix(s: Seq<char>, prefix: Seq<char>) -> Option<Seq<char>> {
    if prefix.is_prefix_of(s) {
        Some(s.skip(prefix.len() as int))
    } else {
        None
    }
}

/// `s` after `prefix` when it starts with it, else `s` itself
/// (`s.strip_prefix(prefix).unwrap_or(s)`).
pub open spec fn after_prefix(s: Seq<char>, prefix: Seq<char>) -> Seq<char> {
    match strip_prefix(s, prefix) {
        Some(r) => r,
        None => s,
    }
}

/// `str::strip_prefix`.
pub fn strip_prefix_str(s: &str, prefix: &str) -> (r: Option<String>)
    ensures
        r matches Some(x) ==> strip_prefix(s@, prefix@) == Some(x@),
        r is None ==> strip_prefix(s@, prefix@) is None,
{
    let v = chars_of(s);
    let p = chars_of(prefix);
    if p.len() > v.len() {
        return None;
    }
    let mut i: usize = 0;
    while i < p.len()
        invariant
            v@ == s@,
            p@ == prefix@,
            p.len() <= v.len(),
            i <= p.len(),
            forall|k: int| 0 <= k < i ==> v@[k] == p@[k],
        decreases p.len() - i,
    {
        if v[i] != p[i] {
            return None;
        }
        i += 1;
    }
    let r = string_of_range(&v, p.len(), v.len());
    assert(r@ =~= s@.skip(prefix@.len() as int));
    Some(r)
}

/// `s.strip_prefix(prefix).unwrap_or(s)`.
pub fn after_prefix_str(s: &str, prefix: &str) -> (r: String)
    ensures
        r@ == after_prefix(s@, prefix@),
{
    match strip_prefix_str(s, prefix) {
        Some(x) => x,
        None => owned(s),
    }
}

/// Whether the last character of `s` is `c` (`str::ends_with` with a char).
pub open spec fn ends_with(s: Seq<char>, c: char) -> bool {
    s.len() > 0 && s.last() == c
}

/// Whether the first character of `s` is `c` (`str::starts_with` with a char).
pub open spec fn starts_with(s: Seq<char>, c: char) -> bool {
    s.len() > 0 && s[0] == c
}

/// `str::ends_with` with a character.
pub fn ends_with_char(s: &str, c: char) -> (r: bool)
    ensures
        r == ends_with(s@, c),
{
    let n = s.unicode_len();
    n > 0 && s.get_char(n - 1) == c
}

/// `str::starts_with` with a character.
pub fn starts_with_char(s: &str, c: char) -> (r: bool)
    ensures
        r == starts_with(s@, c),
{
    let n = s.unicode_len();
    n > 0 && s.get_char(0) == c
}

/// Index of the first `c` in `s`, or `-1` when there is none.
pub open spec fn find_char(s: Seq<char>, c: char) -> int
    decreases s.len(),
{
    if s.len() == 0 {
        -1
    } else if s[0] == c {
        0
    } else {
        let r = find_char(s.drop_first(), c);
        if r < 0 {
            -1
        } else {
            r + 1
        }
    }
}

/// `find_char` is the position of the first occurrence.
pub proof fn lemma_find_char(s: Seq<char>, c: char)
    ensures
        -1 <= find_char(s, c) < s.len(),
        find_char(s, c) >= 0 ==> s[find_char(s, c)] == c,
        forall|k: int| 0 <= k < find_char(s, c) ==> s[k] != c,
        find_char(s, c) < 0 ==> !s.contains(c),
    decreases s.len(),
{
    if s.len() > 0 && s[0] != c {
        lemma_find_char(s.drop_first(), c);
        assert forall|k: int| 0 <= k < find_char(s, c) implies s[k] != c by {
            if k > 0 {
                assert(s[k] == s.drop_first()[k - 1]);
            }
        }
        if find_char(s, c) < 0 {
            assert forall|k: int| 0 <= k < s.len() implies s[k] != c by {
                if k > 0 {
                    assert(s[k] == s.drop_first()[k - 1]);
                    assert(s.drop_first().contains(s[k]));
                }
            }
        }
    }
}

/// A position of `c` with no `c` before it is `find_char`.
pub proof fn lemma_find_char_at(s: Seq<char>, c: char, i: int)
    requires
        0 <= i < s.len(),
        s[i] == c,
        forall|k: int| 0 <= k < i ==> s[k] != c,
    ensures
        find_char(s, c) == i,
    decreases s.len(),
{
    if i > 0 {
        assert forall|k: int| 0 <= k < i - 1 implies s.drop_first()[k] != c by {
            assert(s.drop_first()[k] == s[k + 1]);
        }
        lemma_find_char_at(s.drop_first(), c, i - 1);
    }
}

/// With no `c` anywhere, `find_char` is `-1`.
pub proof fn lemma_find_char_none(s: Seq<char>, c: char)
    requires
        forall|k: int| 0 <= k < s.len() ==> s[k] != c,
    ensures
        find_char(s, c) == -1,
    decreases s.len(),
{
    if s.len() > 0 {
        assert forall|k: int| 0 <= k < s.len() - 1 implies s.drop_first()[k] != c by {
            assert(s.drop_first()[k] == s[k + 1]);
        }
        lemma_find_char_none(s.drop_first(), c);
    }
}

/// `str::split_once` with a character: the parts before and after the first `c`.
pub open spec fn split_once(s: Seq<char>, c: char) -> Option<(Seq<char>, Seq<char>)> {
    let i = find_char(s, c);
    if i < 0 {
        None
    } else {
        Some((s.take(i), s.skip(i + 1)))
    }
}

/// Index of the first `c` in `v`, if any.
fn position_of(v: &Vec<char>, c: char) -> (r: Option<usize>)
    ensures
        r matches Some(i) ==> i as int == find_char(v@, c),
        r is None ==> find_char(v@, c) == -1,
{
    let mut i: usize = 0;
    while i < v.len()
        invariant
            i <= v.len(),
            forall|k: int| 0 <= k < i ==> v@[k] != c,
        decreases v.len() - i,
    {
        if v[i] == c {
            proof {
                lemma_find_char_at(v@, c, i as int);
            }
            return Some(i);
        }
        i += 1;
    }
    proof {
        lemma_find_char_none(v@, c);
    }
    None
}

/// `str::split_once` with a character.
pub fn split_once_str(s: &str, c: char) -> (r: Option<(String, String)>)
    ensures
        r matches Some((a, b)) ==> split_once(s@, c) == Some((a@, b@)),
        r is None ==> split_once(s@, c) is None,
{
    let v = chars_of(s);
    proof {
        lemma_find_char(v@, c);
    }
    match position_of(&v, c) {
        Some(i) => {
            let a = string_of_range(&v, 0, i);
            let b = string_of_range(&v, i + 1, v.len());
            assert(a@ =~= s@.take(i as int));
            assert(b@ =~= s@.skip(i + 1));
            Some((a, b))
        },
        None => None,
    }
}

/// `str::split` with a character: the pieces between occurrences of `c`,
/// empty pieces included.
pub open spec fn split_all(s: Seq<char>, c: char) -> Seq<Seq<char>>
    decreases s.len(),
{
    let i = find_char(s, c);
    if i < 0 || i >= s.len() {
        seq![s]
    } else {
        seq![s.take(i)] + split_all(s.skip(i + 1), c)
    }
}

/// `s.split(c)`, each piece an owned string.
pub fn split_str(s: &str, c: char) -> (r: Vec<String>)
    ensures
        r.deep_view() == split_all(s@, c),
{
    let v = chars_of(s);
    let mut out: Vec<String> = Vec::new();
    let mut start: usize = 0;
    let mut i: usize = 0;
    assert(s@.skip(0) =~= s@);
    assert(out.deep_view() =~= Seq::<Seq<char>>::empty());
    while i < v.len()
        invariant
            v@ == s@,
            start <= i <= v.len(),
            forall|k: int| start <= k < i ==> v@[k] != c,
            split_all(s@, c) == out.deep_view() + split_all(s@.skip(start as int), c),
        decreases v.len() - i,
    {
        if v[i] == c {
            let ghost rest = s@.skip(start as int);
            proof {
                assert forall|k: int| 0 <= k < i - start implies rest[k] != c by {
                    assert(rest[k] == v@[start + k]);
                }
                lemma_find_char_at(rest, c, i - start);
            }
            let piece = string_of_range(&v, start, i);
            assert(piece@ =~= rest.take(i - start));
            assert(rest.skip(i - start + 1) =~= s@.skip(i + 1));
            let ghost before = out.deep_view();
            out.push(piece);
            assert(out.deep_view() =~= before.push(piece@));
            assert(split_all(s@, c) =~= out.deep_view() + split_all(s@.skip(i + 1), c));
            start = i + 1;
        }
        i += 1;
    }
    let ghost rest = s@.skip(start as int);
    proof {
        assert forall|k: int| 0 <= k < rest.len() implies rest[k] != c by {
            assert(rest[k] == v@[start + k]);
        }
        lemma_find_char_none(rest, c);
    }
    let last = string_of_range(&v, start, v.len());
    assert(last@ =~= rest);
    let ghost before = out.deep_view();
    out.push(last);
    assert(out.deep_view() =~= before.push(last@));
    assert(split_all(s@, c) =~= out.deep_view());
    out
}

// ---------------------------------------------------------------------------
// Lines.
/// A line without the one carriage return that may end it.
pub open spec fn strip_cr(l: Seq<char>) -> Seq<char> {
    if ends_with(l, '\r') {
        l.drop_last()
    } else {
        l
    }
}

/// `str::lines`: the pieces between line feeds; a line that ends with a line
/// feed also loses one carriage return before it, and a final line feed does
/// not start another line.
pub open spec fn lines(s: Seq<char>) -> Seq<Seq<char>>
    decreases s.len(),
{
    if s.len() == 0 {
        seq![]
    } else {
        let i = find_char(s, '\n');
        if i < 0 || i >= s.len() {
            seq![s]
        } else {
            seq![strip_cr(s.take(i))] + lines(s.skip(i + 1))
        }
    }
}

/// `str::lines`, each line an owned string.
pub fn lines_of(s: &str) -> (r: Vec<String>)
    ensures
        r.deep_view() == lines(s@),
{
    let v = chars_of(s);
    let mut out: Vec<String> = Vec::new();
    let mut start: usize = 0;
    let mut i: usize = 0;
    assert(s@.skip(0) =~= s@);
    assert(out.deep_view() =~= Seq::<Seq<char>>::empty());
    while i < v.len()
        invariant
            v@ == s@,
            start <= i <= v.len(),
            forall|k: int| start <= k < i ==> v@[k] != '\n',
            lines(s@) == out.deep_view() + lines(s@.skip(start as int)),
        decreases v.len() - i,
    {
        if v[i] == '\n' {
            let ghost rest = s@.skip(start as int);
            proof {
                assert forall|k: int| 0 <= k < i - start implies rest[k] != '\n' by {
                    assert(rest[k] == v@[start + k]);
                }
                lemma_find_char_at(rest, '\n', i - start);
            }
            let mut end = i;
            if end > start && v[end - 1] == '\r' {
                end = end - 1;
            }
            let line = string_of_range(&v, start, end);
            assert(line@ =~= strip_cr(rest.take(i - start)));
            assert(rest.skip(i - start + 1) =~= s@.skip(i + 1));
            let ghost before = out.deep_view();
            out.push(line);
            assert(out.deep_view() =~= before.push(line@));
            assert(lines(s@) =~= out.deep_view() + lines(s@.skip(i + 1)));
            start = i + 1;
        }
        i += 1;
    }
    if start < v.len() {
        let ghost rest = s@.skip(start as int);
        proof {
            assert forall|k: int| 0 <= k < rest.len() implies rest[k] != '\n' by {
                assert(rest[k] == v@[start + k]);
            }
            lemma_find_char_none(rest, '\n');
        }
        let line = string_of_range(&v, start, v.len());
        assert(line@ =~= rest);
        let ghost before = out.deep_view();
        out.push(line);
        assert(out.deep_view() =~= before.push(line@));
        assert(lines(s@) =~= out.deep_view());
    } else {
        assert(s@.skip(start as int) =~= Seq::<char>::empty());
        assert(lines(s@) =~= out.deep_view());
    }
    out
}

/// The lines of `list` joined with `sep` between neighbours.
pub open spec fn join(list: Seq<Seq<char>>, sep: Seq<char>) -> Seq<char>
    decreases list.len(),
{
    if list.len() == 0 {
        seq![]
    } else if list.len() == 1 {
        list[0]
    } else {
        join(list.drop_last(), sep) + sep + list.last()
    }
}

/// `lines.join("\n")`.
pub fn join_lines(list: &Vec<String>) -> (r: String)
    ensures
        r@ == join(list.deep_view(), seq!['\n']),
{
    let mut r = String::new();
    let ghost dv = list.deep_view();
    let mut i: usize = 0;
    while i < list.len()
        invariant
            dv == list.deep_view(),
            i <= list.len(),
            r@ == join(dv.take(i as int), seq!['\n']),
        decreases list.len() - i,
    {
        assert(dv.take(i + 1).drop_last() =~= dv.take(i as int));
        if i > 0 {
            push_char(&mut r, '\n');
        }
        r.append(list[i].as_str());
        proof {
            if i == 0 {
                assert(r@ =~= join(dv.take(1), seq!['\n']));
            }
        }
        i += 1;
    }
    assert(dv.take(list.len() as int) =~= dv);
    r
}

// ---------------------------------------------------------------------------
// Decimal numbers.
/// The decimal digit for `d < 10`.
pub open spec fn digit(d: nat) -> char {
    (48 + d) as char
}

/// The decimal representation of `n`, without leading zeros.
pub open spec fn decimal(n: nat) -> Seq<char>
    decreases n,
{
    if n < 10 {
        seq![digit(n)]
    } else {
        decimal(n / 10).push(digit(n % 10))
    }
}

pub(crate) fn digit_char(d: u32) -> (c: char)
    requires
        d < 10,
    ensures
        c == digit(d as nat),
{
    if d == 0 {
        '0'
    } else if d == 1 {
        '1'
    } else if d == 2 {
        '2'
    } else if d == 3 {
        '3'
    } else if d == 4 {
        '4'
    } else if d == 5 {
        '5'
    } else if d == 6 {
        '6'
    } else if d == 7 {
        '7'
    } else if d == 8 {
        '8'
    } else {
        '9'
    }
}

/// The decimal representation of `n` (what `{}` prints for it).
pub fn decimal_string(n: u64) -> (s: String)
    ensures
        s@ == decimal(n as nat),
    decreases n,
{
    if n < 10 {
        let mut s = String::new();
        push_char(&mut s, digit_char(n as u32));
        assert(s@ =~= seq![digit(n as nat)]);
        s
    } else {
        let mut s = decimal_string(n / 10);
        push_char(&mut s, digit_char((n % 10) as u32));
        s
    }
}

// ---------------------------------------------------------------------------
// Optional strings.
/// The view of an optional string.
pub open spec fn opt_view(o: Option<String>) -> Option<Seq<char>> {
    match o {
        Some(s) => Some(s@),
        None => None,
    }
}

/// The optional string's contents, or `d` when absent.
pub open spec fn or_default(o: Option<Seq<char>>, d: Seq<char>) -> Seq<char> {
    match o {
        Some(s) => s,
        None => d,
    }
}

/// A copy of an optional string.
pub fn clone_opt(o: &Option<String>) -> (r: Option<String>)
    ensures
        opt_view(r) == opt_view(*o),
{
    match o {
        Some(s) => Some(s.clone()),
        None => None,
    }
}

/// `o.clone().unwrap_or_default()`: the string, or the empty string.
pub fn clone_or_empty(o: &Option<String>) -> (r: String)
    ensures
        r@ == or_default(opt_view(*o), seq![]),
{
    match o {
        Some(s) => s.clone(),
        None => String::new(),
    }
}

/// The view of the literal `"/"`.
pub proof fn lemma_slash()
    ensures
        "/"@ == seq!['/'],
{
    reveal_strlit("/");
    assert("/"@ =~= seq!['/']);
}

} // verus!
