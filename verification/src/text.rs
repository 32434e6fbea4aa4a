//! Character-level text operations used by the command parsers and the
//! runtime patchers.  Text is handled as `char` slices whose view is a
//! `Seq<char>`, so every operation has a direct mathematical meaning.
use vstd::prelude::*;

verus! {

// ---------------------------------------------------------------------------
// Specifications
// ---------------------------------------------------------------------------

/// Unicode `White_Space` code points (the set `char::is_whitespace` accepts).
pub open spec fn is_ws(c: char) -> bool {
    let n = c as u32;
    ||| 0x09 <= n <= 0x0D
    ||| n == 0x20
    ||| n == 0x85
    ||| n == 0xA0
    ||| n == 0x1680
    ||| 0x2000 <= n <= 0x200A
    ||| n == 0x2028
    ||| n == 0x2029
    ||| n == 0x202F
    ||| n == 0x205F
    ||| n == 0x3000
}

pub open spec fn is_ascii_alnum(c: char) -> bool {
    let n = c as u32;
    ||| 0x30 <= n <= 0x39
    ||| 0x41 <= n <= 0x5A
    ||| 0x61 <= n <= 0x7A
}

pub open spec fn is_ascii_digit(c: char) -> bool {
    0x30 <= (c as u32) <= 0x39
}

/// Characters allowed in a command or approval identifier.
pub open spec fn is_ident_char(c: char) -> bool {
    is_ascii_alnum(c) || c == '-' || c == '_'
}

pub open spec fn all_ident_chars(s: Seq<char>) -> bool {
    forall|i: int| 0 <= i < s.len() ==> is_ident_char(#[trigger] s[i])
}

pub open spec fn all_ws(s: Seq<char>) -> bool {
    forall|i: int| 0 <= i < s.len() ==> is_ws(#[trigger] s[i])
}

pub open spec fn has_ws(s: Seq<char>) -> bool {
    exists|i: int| 0 <= i < s.len() && is_ws(#[trigger] s[i])
}

pub open spec fn trim_start(s: Seq<char>) -> Seq<char>
    decreases s.len(),
{
    if s.len() > 0 && is_ws(s[0]) {
        trim_start(s.drop_first())
    } else {
        s
    }
}

pub open spec fn trim_end(s: Seq<char>) -> Seq<char>
    decreases s.len(),
{
    if s.len() > 0 && is_ws(s.last()) {
        trim_end(s.drop_last())
    } else {
        s
    }
}

pub open spec fn trim(s: Seq<char>) -> Seq<char> {
    trim_end(trim_start(s))
}

pub open spec fn starts_with(s: Seq<char>, p: Seq<char>) -> bool {
    p.len() <= s.len() && s.take(p.len() as int) == p
}

pub open spec fn ends_with(s: Seq<char>, p: Seq<char>) -> bool {
    p.len() <= s.len() && s.skip(s.len() - p.len()) == p
}

/// `p` occurs in `s` starting at index `i`.
pub open spec fn matches_at(s: Seq<char>, p: Seq<char>, i: int) -> bool {
    0 <= i && i + p.len() <= s.len() && s.subrange(i, i + p.len()) == p
}

/// Leftmost occurrence of `p` in `s` at or after index `i`.
pub open spec fn find_from(s: Seq<char>, p: Seq<char>, i: int) -> Option<int>
    decreases s.len() + 1 - i,
{
    if i < 0 || i + p.len() > s.len() {
        None
    } else if matches_at(s, p, i) {
        Some(i)
    } else {
        find_from(s, p, i + 1)
    }
}

pub open spec fn find(s: Seq<char>, p: Seq<char>) -> Option<int> {
    find_from(s, p, 0)
}

pub open spec fn contains(s: Seq<char>, p: Seq<char>) -> bool {
    find(s, p) is Some
}

/// Rightmost occurrence of `p` in `s` starting at an index `<= i`.
pub open spec fn rfind_upto(s: Seq<char>, p: Seq<char>, i: int) -> Option<int>
    decreases i + 1,
{
    if i < 0 {
        None
    } else if matches_at(s, p, i) {
        Some(i)
    } else {
        rfind_upto(s, p, i - 1)
    }
}

pub open spec fn rfind(s: Seq<char>, p: Seq<char>) -> Option<int> {
    rfind_upto(s, p, s.len() - p.len())
}

/// Replaces every non-overlapping occurrence of `p` (scanning left to
/// right) from index `i` on by `r`.
pub open spec fn replace_from(s: Seq<char>, p: Seq<char>, r: Seq<char>, i: int) -> Seq<char>
    decreases s.len() - i,
{
    if i < 0 || i >= s.len() || p.len() == 0 {
        if 0 <= i <= s.len() { s.skip(i) } else { Seq::empty() }
    } else if matches_at(s, p, i) {
        r + replace_from(s, p, r, i + p.len())
    } else {
        seq![s[i]] + replace_from(s, p, r, i + 1)
    }
}

pub open spec fn replace(s: Seq<char>, p: Seq<char>, r: Seq<char>) -> Seq<char> {
    replace_from(s, p, r, 0)
}

pub open spec fn ascii_lower_char(c: char) -> char {
    if 0x41 <= (c as u32) <= 0x5A {
        ((c as u32) + 32) as char
    } else {
        c
    }
}

pub open spec fn ascii_lower(s: Seq<char>) -> Seq<char> {
    s.map_values(|c: char| ascii_lower_char(c))
}

// ---------------------------------------------------------------------------
// Lemmas
// ---------------------------------------------------------------------------

pub proof fn lemma_trim_start_shape(s: Seq<char>)
    ensures
        trim_start(s).len() <= s.len(),
        trim_start(s) == s.skip(s.len() - trim_start(s).len()),
        all_ws(s.take(s.len() - trim_start(s).len())),
        trim_start(s).len() > 0 ==> !is_ws(trim_start(s)[0]),
    decreases s.len(),
{
    if s.len() > 0 && is_ws(s[0]) {
        lemma_trim_start_shape(s.drop_first());
        let t = trim_start(s.drop_first());
        assert(s.drop_first().skip(s.drop_first().len() - t.len()) =~= s.skip(s.len() - t.len()));
        let k = s.len() - t.len();
        assert forall|i: int| 0 <= i < s.take(k).len() implies is_ws(#[trigger] s.take(k)[i]) by {
            if i > 0 {
                assert(s.take(k)[i] == s.drop_first().take(k - 1)[i - 1]);
            }
        }
    } else {
        assert(s.skip(0) =~= s);
    }
}

pub proof fn lemma_trim_end_shape(s: Seq<char>)
    ensures
        trim_end(s).len() <= s.len(),
        trim_end(s) == s.take(trim_end(s).len() as int),
        all_ws(s.skip(trim_end(s).len() as int)),
        trim_end(s).len() > 0 ==> !is_ws(trim_end(s).last()),
    decreases s.len(),
{
    if s.len() > 0 && is_ws(s.last()) {
        lemma_trim_end_shape(s.drop_last());
        let t = trim_end(s.drop_last());
        assert(s.drop_last().take(t.len() as int) =~= s.take(t.len() as int));
        let k = t.len() as int;
        assert forall|i: int| 0 <= i < s.skip(k).len() implies is_ws(#[trigger] s.skip(k)[i]) by {
            if i < s.skip(k).len() - 1 {
                assert(s.skip(k)[i] == s.drop_last().skip(k)[i]);
            }
        }
    } else {
        assert(s.take(s.len() as int) =~= s);
    }
}

/// A string starting with a non-whitespace character is its own left trim.
pub proof fn lemma_trim_start_fixed(s: Seq<char>)
    requires
        s.len() == 0 || !is_ws(s[0]),
    ensures
        trim_start(s) == s,
{
}

pub proof fn lemma_find_from_props(s: Seq<char>, p: Seq<char>, i: int)
    requires
        0 <= i,
    ensures
        find_from(s, p, i) matches Some(k) ==> i <= k && matches_at(s, p, k)
            && (forall|j: int| i <= j < k ==> !matches_at(s, p, j)),
        find_from(s, p, i) is None ==> (forall|j: int| i <= j ==> !matches_at(s, p, j)),
    decreases s.len() + 1 - i,
{
    if i + p.len() > s.len() {
    } else if matches_at(s, p, i) {
    } else {
        lemma_find_from_props(s, p, i + 1);
    }
}


// ---------------------------------------------------------------------------
// Conversions at the boundary between `str` and `char` slices
// ---------------------------------------------------------------------------

/// The characters of `s`, in order (`str::chars` collected into a `Vec`).
pub(crate) fn str_chars(s: &str) -> (v: Vec<char>)
    ensures
        v@ == s@,
{
    broadcast use vstd::string::axiom_spec_iter;

    let mut v: Vec<char> = Vec::new();
    for c in it: s.chars()
        invariant
            it.seq() == s@,
            v@ == it.seq().take(it.index() as int),
    {
        v.push(c);
        assert(it.seq().take(it.index() + 1) =~= it.seq().take(it.index() as int).push(c));
    }
    assert(v@ =~= s@);
    v
}

/// The `String` made of the characters of `v` (`String: FromIterator<&char>`).
#[verifier::external_body]
pub(crate) fn chars_to_string(v: &[char]) -> (s: String)
    ensures
        s@ == v@,
{
    v.iter().collect()
}

pub open spec fn opt_int(o: Option<usize>) -> Option<int> {
    match o {
        Some(k) => Some(k as int),
        None => None,
    }
}

// ---------------------------------------------------------------------------
// Executable operations
// ---------------------------------------------------------------------------

pub fn char_is_whitespace(c: char) -> (r: bool)
    ensures
        r == is_ws(c),
{
    let n = c as u32;
    (0x09 <= n && n <= 0x0D) || n == 0x20 || n == 0x85 || n == 0xA0 || n == 0x1680 || (0x2000
        <= n && n <= 0x200A) || n == 0x2028 || n == 0x2029 || n == 0x202F || n == 0x205F || n
        == 0x3000
}

pub fn char_is_ident(c: char) -> (r: bool)
    ensures
        r == is_ident_char(c),
{
    let n = c as u32;
    (0x30 <= n && n <= 0x39) || (0x41 <= n && n <= 0x5A) || (0x61 <= n && n <= 0x7A) || c == '-'
        || c == '_'
}

pub fn char_is_ascii_digit(c: char) -> (r: bool)
    ensures
        r == is_ascii_digit(c),
{
    let n = c as u32;
    0x30 <= n && n <= 0x39
}

pub fn trim_start_slice(s: &[char]) -> (r: &[char])
    ensures
        r@ == trim_start(s@),
{
    let mut i: usize = 0;
    assert(s@.skip(0) =~= s@);
    while i < s.len() && char_is_whitespace(s[i])
        invariant
            i <= s.len(),
            trim_start(s@.skip(i as int)) == trim_start(s@),
        decreases s.len() - i,
    {
        assert(s@.skip(i as int).drop_first() =~= s@.skip(i + 1));
        i += 1;
    }
    let r = &s[i..s.len()];
    assert(r@ =~= s@.skip(i as int));
    r
}

pub fn trim_end_slice(s: &[char]) -> (r: &[char])
    ensures
        r@ == trim_end(s@),
{
    let mut j: usize = s.len();
    assert(s@.take(s.len() as int) =~= s@);
    while j > 0 && char_is_whitespace(s[j - 1])
        invariant
            j <= s.len(),
            trim_end(s@.take(j as int)) == trim_end(s@),
        decreases j,
    {
        assert(s@.take(j as int).drop_last() =~= s@.take(j - 1));
        j -= 1;
    }
    let r = &s[0..j];
    assert(r@ =~= s@.take(j as int));
    r
}

pub fn trim_slice(s: &[char]) -> (r: &[char])
    ensures
        r@ == trim(s@),
{
    trim_end_slice(trim_start_slice(s))
}

pub fn eq_slices(a: &[char], b: &[char]) -> (r: bool)
    ensures
        r == (a@ == b@),
{
    if a.len() != b.len() {
        return false;
    }
    let mut i: usize = 0;
    while i < a.len()
        invariant
            i <= a.len(),
            a.len() == b.len(),
            forall|k: int| 0 <= k < i ==> a@[k] == b@[k],
        decreases a.len() - i,
    {
        if a[i] != b[i] {
            return false;
        }
        i += 1;
    }
    assert(a@ =~= b@);
    true
}

/// Does `p` occur in `s` at index `i`?
pub fn matches_at_exec(s: &[char], p: &[char], i: usize) -> (r: bool)
    ensures
        r == matches_at(s@, p@, i as int),
{
    if i > s.len() || p.len() > s.len() - i {
        return false;
    }
    let mut k: usize = 0;
    while k < p.len()
        invariant
            k <= p.len(),
            i + p.len() <= s.len(),
            forall|m: int| 0 <= m < k ==> s@[i + m] == p@[m],
        decreases p.len() - k,
    {
        if s[i + k] != p[k] {
            assert(s@.subrange(i as int, i + p.len())[k as int] != p@[k as int]);
            return false;
        }
        k += 1;
    }
    assert(s@.subrange(i as int, i + p.len()) =~= p@);
    true
}

pub fn starts_with_slice(s: &[char], p: &[char]) -> (r: bool)
    ensures
        r == starts_with(s@, p@),
{
    let r = matches_at_exec(s, p, 0);
    assert(s@.subrange(0, p@.len() as int) =~= s@.take(p@.len() as int));
    r
}

pub fn ends_with_slice(s: &[char], p: &[char]) -> (r: bool)
    ensures
        r == ends_with(s@, p@),
{
    if p.len() > s.len() {
        return false;
    }
    let r = matches_at_exec(s, p, s.len() - p.len());
    assert(s@.subrange(s.len() - p.len(), s.len() - p.len() + p.len()) =~= s@.skip(
        s.len() - p.len(),
    ));
    r
}

/// `s` with the prefix `p` removed, when `s` starts with `p`.
pub fn strip_prefix_slice<'a>(s: &'a [char], p: &[char]) -> (r: Option<&'a [char]>)
    ensures
        r is Some == starts_with(s@, p@),
        r matches Some(rest) ==> rest@ == s@.skip(p@.len() as int),
{
    if starts_with_slice(s, p) {
        let rest = &s[p.len()..s.len()];
        assert(rest@ =~= s@.skip(p@.len() as int));
        Some(rest)
    } else {
        None
    }
}

pub fn find_slice(s: &[char], p: &[char]) -> (r: Option<usize>)
    ensures
        opt_int(r) == find(s@, p@),
{
    find_from_slice(s, p, 0)
}

pub fn find_from_slice(s: &[char], p: &[char], start: usize) -> (r: Option<usize>)
    ensures
        opt_int(r) == find_from(s@, p@, start as int),
{
    if p.len() > s.len() || start > s.len() - p.len() {
        return None;
    }
    let mut i: usize = start;
    loop
        invariant
            start <= i <= s.len() - p.len(),
            p.len() <= s.len(),
            find_from(s@, p@, start as int) == find_from(s@, p@, i as int),
        decreases s.len() - i,
    {
        if matches_at_exec(s, p, i) {
            return Some(i);
        }
        if i == s.len() - p.len() {
            assert(find_from(s@, p@, i + 1) is None);
            return None;
        }
        i += 1;
    }
}

pub fn contains_slice(s: &[char], p: &[char]) -> (r: bool)
    ensures
        r == contains(s@, p@),
{
    find_slice(s, p).is_some()
}

pub fn rfind_slice(s: &[char], p: &[char]) -> (r: Option<usize>)
    ensures
        opt_int(r) == rfind(s@, p@),
{
    if p.len() > s.len() {
        return None;
    }
    let mut i: usize = s.len() - p.len();
    loop
        invariant
            i <= s.len() - p.len(),
            p.len() <= s.len(),
            rfind(s@, p@) == rfind_upto(s@, p@, i as int),
        decreases i,
    {
        if matches_at_exec(s, p, i) {
            return Some(i);
        }
        if i == 0 {
            assert(rfind_upto(s@, p@, -1) is None);
            return None;
        }
        i -= 1;
    }
}

/// `s` with every occurrence of the non-empty pattern `p` replaced by `r`.
pub fn replace_slice(s: &[char], p: &[char], r: &[char]) -> (out: Vec<char>)
    requires
        p.len() > 0,
    ensures
        out@ == replace(s@, p@, r@),
{
    let mut out: Vec<char> = Vec::new();
    let mut i: usize = 0;
    while i < s.len()
        invariant
            i <= s.len(),
            p.len() > 0,
            out@ + replace_from(s@, p@, r@, i as int) == replace(s@, p@, r@),
        decreases s.len() - i,
    {
        if matches_at_exec(s, p, i) {
            proof {
                assert(out@ + (r@ + replace_from(s@, p@, r@, i + p.len())) =~= (out@ + r@)
                    + replace_from(s@, p@, r@, i + p.len()));
            }
            out.extend_from_slice(r);
            i = i + p.len();
        } else {
            proof {
                assert(out@ + (seq![s@[i as int]] + replace_from(s@, p@, r@, i + 1)) =~= out@.push(
                    s@[i as int],
                ) + replace_from(s@, p@, r@, i + 1));
            }
            out.push(s[i]);
            i = i + 1;
        }
    }
    proof {
        assert(s@.skip(s.len() as int) =~= Seq::<char>::empty());
        assert(out@ + Seq::<char>::empty() =~= out@);
    }
    out
}

pub fn ascii_lower_slice(s: &[char]) -> (out: Vec<char>)
    ensures
        out@ == ascii_lower(s@),
{
    let mut out: Vec<char> = Vec::new();
    let mut i: usize = 0;
    while i < s.len()
        invariant
            i <= s.len(),
            out@ =~= ascii_lower(s@.take(i as int)),
        decreases s.len() - i,
    {
        let c = s[i];
        let n = c as u32;
        let lc = if 0x41 <= n && n <= 0x5A {
            ((n + 32) as u8) as char
        } else {
            c
        };
        assert(lc == ascii_lower_char(c)) by {
            if 0x41 <= n && n <= 0x5A {
                assert((((n + 32) as u8) as char) == (((c as u32) + 32) as char));
            }
        }
        out.push(lc);
        assert(s@.take(i + 1) =~= s@.take(i as int).push(c));
        i += 1;
    }
    assert(s@.take(s.len() as int) =~= s@);
    out
}

/// Concatenation of two character slices.
pub fn concat2(a: &[char], b: &[char]) -> (out: Vec<char>)
    ensures
        out@ == a@ + b@,
{
    let mut out: Vec<char> = Vec::new();
    out.extend_from_slice(a);
    out.extend_from_slice(b);
    out
}

pub fn concat3(a: &[char], b: &[char], c: &[char]) -> (out: Vec<char>)
    ensures
        out@ == a@ + b@ + c@,
{
    let mut out: Vec<char> = Vec::new();
    out.extend_from_slice(a);
    out.extend_from_slice(b);
    out.extend_from_slice(c);
    out
}

pub fn all_ident_slice(s: &[char]) -> (r: bool)
    ensures
        r == all_ident_chars(s@),
{
    let mut i: usize = 0;
    while i < s.len()
        invariant
            i <= s.len(),
            forall|k: int| 0 <= k < i ==> is_ident_char(#[trigger] s@[k]),
        decreases s.len() - i,
    {
        if !char_is_ident(s[i]) {
            return false;
        }
        i += 1;
    }
    true
}

pub fn has_ws_slice(s: &[char]) -> (r: bool)
    ensures
        r == has_ws(s@),
{
    let mut i: usize = 0;
    while i < s.len()
        invariant
            i <= s.len(),
            forall|k: int| 0 <= k < i ==> !is_ws(#[trigger] s@[k]),
        decreases s.len() - i,
    {
        if char_is_whitespace(s[i]) {
            return true;
        }
        i += 1;
    }
    false
}


pub open spec fn opt_seq(o: Option<Vec<char>>) -> Option<Seq<char>> {
    match o {
        Some(v) => Some(v@),
        None => None,
    }
}

pub open spec fn opt_string(o: Option<String>) -> Option<Seq<char>> {
    match o {
        Some(v) => Some(v@),
        None => None,
    }
}

/// The maximal run of non-whitespace characters that starts `s`.
pub open spec fn leading_word(s: Seq<char>) -> Seq<char>
    decreases s.len(),
{
    if s.len() == 0 || is_ws(s[0]) {
        Seq::empty()
    } else {
        seq![s[0]] + leading_word(s.drop_first())
    }
}

/// Index of the end of the line that contains position `p` (the position of
/// the next `'\n'`, or the length of `s`).
pub open spec fn line_end(s: Seq<char>, p: int) -> int
    decreases s.len() - p,
{
    if p < 0 || p >= s.len() || s[p] == '\n' {
        p
    } else {
        line_end(s, p + 1)
    }
}

pub proof fn lemma_line_end(s: Seq<char>, p: int)
    requires
        0 <= p <= s.len(),
    ensures
        p <= line_end(s, p) <= s.len(),
        line_end(s, p) < s.len() ==> s[line_end(s, p)] == '\n',
        forall|k: int| p <= k < line_end(s, p) ==> s[k] != '\n',
    decreases s.len() - p,
{
    if p < s.len() && s[p] != '\n' {
        lemma_line_end(s, p + 1);
    }
}

/// Start of the first line at or after the line start `p` that holds a
/// non-whitespace character (`str::lines` with blank lines skipped).  The
/// scan is at `i`, and `s[line_start..i]` is all whitespace.
pub open spec fn nonblank_scan(s: Seq<char>, line_start: int, i: int) -> Option<int>
    decreases s.len() - i,
{
    if i < 0 || i >= s.len() {
        None
    } else if s[i] == '\n' {
        nonblank_scan(s, i + 1, i + 1)
    } else if is_ws(s[i]) {
        nonblank_scan(s, line_start, i + 1)
    } else {
        Some(line_start)
    }
}

pub open spec fn first_nonblank_line(s: Seq<char>, p: int) -> Option<int> {
    nonblank_scan(s, p, p)
}

pub fn lit_eq(s: &[char], lit: &str) -> (r: bool)
    ensures
        r == (s@ == lit@),
{
    let l = str_chars(lit);
    eq_slices(s, l.as_slice())
}

pub fn lit_strip<'a>(s: &'a [char], lit: &str) -> (r: Option<&'a [char]>)
    ensures
        r is Some == starts_with(s@, lit@),
        r matches Some(rest) ==> rest@ == s@.skip(lit@.len() as int),
{
    let l = str_chars(lit);
    strip_prefix_slice(s, l.as_slice())
}

pub fn lit_starts(s: &[char], lit: &str) -> (r: bool)
    ensures
        r == starts_with(s@, lit@),
{
    let l = str_chars(lit);
    starts_with_slice(s, l.as_slice())
}

pub fn lit_contains(s: &[char], lit: &str) -> (r: bool)
    ensures
        r == contains(s@, lit@),
{
    let l = str_chars(lit);
    contains_slice(s, l.as_slice())
}

/// `s` followed by the characters of `lit`.
pub fn with_lit(s: &[char], lit: &str) -> (r: Vec<char>)
    ensures
        r@ == s@ + lit@,
{
    let l = str_chars(lit);
    concat2(s, l.as_slice())
}

/// The characters of `lit` followed by `s`.
pub fn lit_then(lit: &str, s: &[char]) -> (r: Vec<char>)
    ensures
        r@ == lit@ + s@,
{
    let l = str_chars(lit);
    concat2(l.as_slice(), s)
}

pub fn leading_word_len(s: &[char]) -> (n: usize)
    ensures
        n <= s.len(),
        s@.take(n as int) == leading_word(s@),
{
    let mut i: usize = 0;
    assert(s@.skip(0) =~= s@);
    while i < s.len() && !char_is_whitespace(s[i])
        invariant
            i <= s.len(),
            leading_word(s@) == s@.take(i as int) + leading_word(s@.skip(i as int)),
        decreases s.len() - i,
    {
        assert(s@.skip(i as int).drop_first() =~= s@.skip(i + 1));
        assert(s@.take(i + 1) =~= s@.take(i as int) + seq![s@[i as int]]);
        i += 1;
    }
    assert(s@.take(i as int) + Seq::<char>::empty() =~= s@.take(i as int));
    i
}

pub fn line_end_exec(s: &[char], p: usize) -> (e: usize)
    requires
        p <= s.len(),
    ensures
        e as int == line_end(s@, p as int),
        p <= e <= s.len(),
{
    let mut i = p;
    while i < s.len() && s[i] != '\n'
        invariant
            p <= i <= s.len(),
            line_end(s@, p as int) == line_end(s@, i as int),
        decreases s.len() - i,
    {
        i += 1;
    }
    i
}

pub fn all_ws_slice(s: &[char]) -> (r: bool)
    ensures
        r == all_ws(s@),
{
    !has_non_ws(s)
}

fn has_non_ws(s: &[char]) -> (r: bool)
    ensures
        r == !all_ws(s@),
{
    let mut i: usize = 0;
    while i < s.len()
        invariant
            i <= s.len(),
            forall|k: int| 0 <= k < i ==> is_ws(#[trigger] s@[k]),
        decreases s.len() - i,
    {
        if !char_is_whitespace(s[i]) {
            return true;
        }
        i += 1;
    }
    false
}

pub fn first_nonblank_line_exec(s: &[char], p: usize) -> (r: Option<usize>)
    requires
        p <= s.len(),
    ensures
        opt_int(r) == first_nonblank_line(s@, p as int),
        r matches Some(k) ==> p <= k < s.len(),
{
    let mut ls = p;
    let mut i = p;
    while i < s.len()
        invariant
            p <= ls <= i <= s.len(),
            first_nonblank_line(s@, p as int) == nonblank_scan(s@, ls as int, i as int),
        decreases s.len() - i,
    {
        let c = s[i];
        if c == '\n' {
            ls = i + 1;
        } else if !char_is_whitespace(c) {
            return Some(ls);
        }
        i += 1;
    }
    None
}

/// `words` joined by `sep`.
pub open spec fn join(words: Seq<Seq<char>>, sep: Seq<char>) -> Seq<char>
    decreases words.len(),
{
    if words.len() == 0 {
        Seq::empty()
    } else if words.len() == 1 {
        words[0]
    } else {
        join(words.drop_last(), sep) + sep + words.last()
    }
}

/// The character sequences of a list of character vectors.
pub open spec fn words_view(w: Seq<Vec<char>>) -> Seq<Seq<char>> {
    w.map_values(|v: Vec<char>| v@)
}

/// The character sequences of a list of strings.
pub open spec fn strings_view(w: Seq<String>) -> Seq<Seq<char>> {
    w.map_values(|v: String| v@)
}

/// The words joined by `sep`.
pub fn join_chars(ws: &[Vec<char>], sep: &str) -> (out: Vec<char>)
    ensures
        out@ == join(words_view(ws@), sep@),
{
    let ghost wv = words_view(ws@);
    let mut out: Vec<char> = Vec::new();
    let mut i: usize = 0;
    while i < ws.len()
        invariant
            i <= ws.len(),
            wv == words_view(ws@),
            out@ == join(wv.take(i as int), sep@),
        decreases ws.len() - i,
    {
        proof {
            assert(wv.take(i + 1).drop_last() =~= wv.take(i as int));
        }
        if i > 0 {
            out = with_lit(out.as_slice(), sep);
        }
        out = concat2(out.as_slice(), ws[i].as_slice());
        i += 1;
    }
    proof {
        assert(wv.take(ws.len() as int) =~= wv);
    }
    out
}

/// A match at `j` is found by a search that starts at or before `j`.
pub proof fn lemma_find_from_some(t: Seq<char>, r: Seq<char>, i: int, j: int)
    requires
        0 <= i <= j,
        matches_at(t, r, j),
    ensures
        find_from(t, r, i) is Some,
    decreases j - i,
{
    if !matches_at(t, r, i) {
        lemma_find_from_some(t, r, i + 1, j);
    }
}

/// Replacing from `i` copies the text up to the first match, then the
/// replacement, then goes on after the match.
pub proof fn lemma_replace_from_first(s: Seq<char>, p: Seq<char>, r: Seq<char>, i: int, k: int)
    requires
        p.len() > 0,
        0 <= i,
        find_from(s, p, i) == Some(k),
    ensures
        replace_from(s, p, r, i) == s.subrange(i, k) + r + replace_from(s, p, r, k + p.len()),
    decreases k - i,
{
    lemma_find_from_props(s, p, i);
    if i == k {
        assert(s.subrange(i, k) + r =~= r);
    } else {
        assert(!matches_at(s, p, i));
        assert(find_from(s, p, i) == find_from(s, p, i + 1));
        lemma_replace_from_first(s, p, r, i + 1, k);
        assert(seq![s[i]] + (s.subrange(i + 1, k) + r + replace_from(s, p, r, k + p.len())) =~= s.subrange(
            i,
            k,
        ) + r + replace_from(s, p, r, k + p.len()));
    }
}

/// After `p` is replaced by `r` in a text that contains `p`, the text
/// contains `r`.
pub proof fn lemma_replace_contains(s: Seq<char>, p: Seq<char>, r: Seq<char>)
    requires
        p.len() > 0,
        contains(s, p),
    ensures
        contains(replace(s, p, r), r),
{
    let k = find(s, p)->0;
    lemma_find_from_props(s, p, 0);
    lemma_replace_from_first(s, p, r, 0, k);
    let t = replace(s, p, r);
    let pre = s.subrange(0, k);
    assert(t.subrange(k, k + r.len()) =~= r);
    assert(matches_at(t, r, k));
    lemma_find_from_some(t, r, 0, k);
}

} // verus!
