//! Character-level text operations used by the parsers of this crate:
//! line splitting as `str::lines` does it, prefix tests, trimming of
//! Unicode white space, and searches for a character.
use vstd::prelude::*;

verus! {

/// The characters of `s`, in order.
pub fn chars_of(s: &str) -> (v: Vec<char>)
    ensures
        v@ == s@,
{
    let mut v: Vec<char> = Vec::new();
    for c in it: s.chars()
        invariant
            v@ == it.seq().take(it.index() as int),
    {
        v.push(c);
    }
    v
}

/// `String::from_iter` over a slice of characters.
#[verifier::external_body]
fn string_from_char_slice(v: &[char]) -> (s: String)
    ensures
        s@ == v@,
{
    v.iter().collect()
}

/// A `String` holding exactly the characters of `v`.
pub fn string_of(v: &Vec<char>) -> (s: String)
    ensures
        s@ == v@,
{
    string_from_char_slice(v.as_slice())
}

/// `s` begins with `p`.
pub open spec fn has_prefix(s: Seq<char>, p: Seq<char>) -> bool {
    p.len() <= s.len() && s.subrange(0, p.len() as int) == p
}

/// `p` occurs in `s` at position `at`.
pub open spec fn occurs_at(s: Seq<char>, p: Seq<char>, at: int) -> bool {
    0 <= at && at + p.len() <= s.len() && s.subrange(at, at + p.len()) == p
}

/// `p` occurs somewhere in `s`.
pub open spec fn contains_seq(s: Seq<char>, p: Seq<char>) -> bool {
    exists|at: int| occurs_at(s, p, at)
}

/// Whether `p` occurs in `s` at `at`.
pub fn occurs_at_exec(s: &Vec<char>, p: &Vec<char>, at: usize) -> (r: bool)
    ensures
        r == occurs_at(s@, p@, at as int),
{
    if at > s.len() || p.len() > s.len() - at {
        return false;
    }
    let mut k: usize = 0;
    while k < p.len()
        invariant
            at + p.len() <= s.len(),
            k <= p.len(),
            forall|j: int| 0 <= j < k ==> s@[at + j] == p@[j],
        decreases p.len() - k,
    {
        if s[at + k] != p[k] {
            assert(s@.subrange(at as int, at + p.len())[k as int] != p@[k as int]);
            return false;
        }
        k = k + 1;
    }
    assert(s@.subrange(at as int, at + p.len()) =~= p@);
    true
}

/// Whether `a` and `b` hold the same characters.
pub fn eq_exec(a: &Vec<char>, b: &Vec<char>) -> (r: bool)
    ensures
        r == (a@ == b@),
{
    if a.len() != b.len() {
        return false;
    }
    let r = occurs_at_exec(a, b, 0);
    assert(r ==> a@.subrange(0, b@.len() as int) =~= a@);
    proof {
        if a@ == b@ {
            assert(a@.subrange(0, b@.len() as int) =~= b@);
        }
    }
    r
}

/// A copy of a string.
pub fn copy_string(s: &String) -> (r: String)
    ensures
        r@ == s@,
{
    s.clone()
}

/// The view of an optional string.
pub open spec fn opt_view(o: Option<String>) -> Option<Seq<char>> {
    match o {
        Some(s) => Some(s@),
        None => None,
    }
}

/// A copy of an optional string.
pub fn copy_opt_string(o: &Option<String>) -> (r: Option<String>)
    ensures
        opt_view(r) == opt_view(*o),
{
    match o {
        Some(s) => Some(s.clone()),
        None => None,
    }
}

/// Whether `s` begins with `p`.
pub fn has_prefix_exec(s: &Vec<char>, p: &Vec<char>) -> (r: bool)
    ensures
        r == has_prefix(s@, p@),
{
    occurs_at_exec(s, p, 0)
}

/// The first position at or after `from` where `p` occurs in `s`, if any
/// (searched up to the end of `s`).
pub open spec fn find_seq_from(s: Seq<char>, p: Seq<char>, from: int) -> Option<int>
    decreases s.len() + 1 - from,
{
    if from < 0 || from + p.len() > s.len() {
        None
    } else if occurs_at(s, p, from) {
        Some(from)
    } else {
        find_seq_from(s, p, from + 1)
    }
}

pub proof fn lemma_find_seq_from(s: Seq<char>, p: Seq<char>, from: int)
    requires
        0 <= from,
    ensures
        find_seq_from(s, p, from) matches Some(i) ==> from <= i && occurs_at(s, p, i) && forall|
            j: int,
        | from <= j < i ==> !occurs_at(s, p, j),
        find_seq_from(s, p, from) is None ==> forall|j: int| from <= j ==> !occurs_at(s, p, j),
    decreases s.len() + 1 - from,
{
    if from + p.len() > s.len() {
    } else if occurs_at(s, p, from) {
    } else {
        lemma_find_seq_from(s, p, from + 1);
    }
}

/// The first position where `p` occurs in `s`.
pub fn find_seq(s: &Vec<char>, p: &Vec<char>) -> (r: Option<usize>)
    ensures
        r matches Some(i) ==> find_seq_from(s@, p@, 0) == Some(i as int),
        r is None ==> find_seq_from(s@, p@, 0) is None,
{
    if p.len() > s.len() {
        return None;
    }
    let last = s.len() - p.len();
    let mut i: usize = 0;
    loop
        invariant
            last + p.len() == s.len(),
            i <= last,
            find_seq_from(s@, p@, 0) == find_seq_from(s@, p@, i as int),
        decreases last - i,
    {
        if occurs_at_exec(s, p, i) {
            return Some(i);
        }
        if i == last {
            assert(find_seq_from(s@, p@, i + 1) is None);
            return None;
        }
        i = i + 1;
    }
}

pub proof fn lemma_contains_iff_find(s: Seq<char>, p: Seq<char>)
    ensures
        contains_seq(s, p) <==> find_seq_from(s, p, 0) is Some,
{
    lemma_find_seq_from(s, p, 0);
    if contains_seq(s, p) {
        let at = choose|at: int| occurs_at(s, p, at);
        assert(0 <= at);
    }
}

/// Whether `p` occurs in `s`.
pub fn contains_seq_exec(s: &Vec<char>, p: &Vec<char>) -> (r: bool)
    ensures
        r == contains_seq(s@, p@),
{
    proof {
        lemma_contains_iff_find(s@, p@);
    }
    find_seq(s, p).is_some()
}

/// `c` occurs in `s`.
pub open spec fn has_char(s: Seq<char>, c: char) -> bool {
    exists|i: int| 0 <= i < s.len() && s[i] == c
}

/// The first position at or after `from` holding `c`, or the length of `s`.
pub open spec fn index_of_from(s: Seq<char>, c: char, from: int) -> int
    decreases s.len() - from,
{
    if from < 0 || from >= s.len() {
        s.len() as int
    } else if s[from] == c {
        from
    } else {
        index_of_from(s, c, from + 1)
    }
}

pub proof fn lemma_index_of_from(s: Seq<char>, c: char, from: int)
    requires
        0 <= from <= s.len(),
    ensures
        from <= index_of_from(s, c, from) <= s.len(),
        index_of_from(s, c, from) < s.len() ==> s[index_of_from(s, c, from)] == c,
        forall|j: int| from <= j < index_of_from(s, c, from) ==> s[j] != c,
    decreases s.len() - from,
{
    if from < s.len() && s[from] != c {
        lemma_index_of_from(s, c, from + 1);
    }
}

/// The first position at or after `from` holding `c`, or the length of `s`.
pub fn index_of_from_exec(s: &Vec<char>, c: char, from: usize) -> (r: usize)
    requires
        from <= s.len(),
    ensures
        r == index_of_from(s@, c, from as int),
{
    let mut i = from;
    while i < s.len()
        invariant
            from <= i <= s.len(),
            index_of_from(s@, c, from as int) == index_of_from(s@, c, i as int),
        decreases s.len() - i,
    {
        if s[i] == c {
            return i;
        }
        i = i + 1;
    }
    i
}

/// The characters of `s` before the first `c` (all of `s` when there is none).
pub open spec fn before_first(s: Seq<char>, c: char) -> Seq<char> {
    s.subrange(0, index_of_from(s, c, 0))
}

pub fn before_first_exec(s: &Vec<char>, c: char) -> (r: Vec<char>)
    ensures
        r@ == before_first(s@, c),
{
    let end = index_of_from_exec(s, c, 0);
    proof {
        lemma_index_of_from(s@, c, 0);
    }
    slice_vec(s, 0, end)
}

/// The characters of `s` after the first `c`, if `c` occurs.
pub open spec fn after_first(s: Seq<char>, c: char) -> Option<Seq<char>> {
    let i = index_of_from(s, c, 0);
    if i < s.len() {
        Some(s.subrange(i + 1, s.len() as int))
    } else {
        None
    }
}

pub fn after_first_exec(s: &Vec<char>, c: char) -> (r: Option<Vec<char>>)
    ensures
        r matches Some(v) ==> after_first(s@, c) == Some(v@),
        r is None ==> after_first(s@, c) is None,
{
    let i = index_of_from_exec(s, c, 0);
    proof {
        lemma_index_of_from(s@, c, 0);
    }
    if i < s.len() {
        Some(slice_vec(s, i + 1, s.len()))
    } else {
        None
    }
}

/// One past the last position below `end` holding `c`, or 0 when there is none.
pub open spec fn after_last_index(s: Seq<char>, c: char, end: int) -> int
    decreases end,
{
    if end <= 0 || end > s.len() {
        0
    } else if s[end - 1] == c {
        end
    } else {
        after_last_index(s, c, end - 1)
    }
}

pub proof fn lemma_after_last_index(s: Seq<char>, c: char, end: int)
    requires
        0 <= end <= s.len(),
    ensures
        0 <= after_last_index(s, c, end) <= end,
        after_last_index(s, c, end) > 0 ==> s[after_last_index(s, c, end) - 1] == c,
        forall|j: int| after_last_index(s, c, end) <= j < end ==> s[j] != c,
    decreases end,
{
    if end > 0 && s[end - 1] != c {
        lemma_after_last_index(s, c, end - 1);
    }
}

/// The characters of `s` after its last `c` (all of `s` when there is none).
pub open spec fn after_last(s: Seq<char>, c: char) -> Seq<char> {
    s.subrange(after_last_index(s, c, s.len() as int), s.len() as int)
}

pub fn after_last_exec(s: &Vec<char>, c: char) -> (r: Vec<char>)
    ensures
        r@ == after_last(s@, c),
{
    let mut end = s.len();
    while end > 0 && s[end - 1] != c
        invariant
            end <= s.len(),
            after_last_index(s@, c, s.len() as int) == after_last_index(s@, c, end as int),
        decreases end,
    {
        end = end - 1;
    }
    proof {
        lemma_after_last_index(s@, c, s.len() as int);
    }
    slice_vec(s, end, s.len())
}

/// The characters of `s` up to and including its last `c` (nothing when there is none).
pub open spec fn through_last(s: Seq<char>, c: char) -> Seq<char> {
    s.subrange(0, after_last_index(s, c, s.len() as int))
}

pub fn through_last_exec(s: &Vec<char>, c: char) -> (r: Vec<char>)
    ensures
        r@ == through_last(s@, c),
{
    let mut end = s.len();
    while end > 0 && s[end - 1] != c
        invariant
            end <= s.len(),
            after_last_index(s@, c, s.len() as int) == after_last_index(s@, c, end as int),
        decreases end,
    {
        end = end - 1;
    }
    proof {
        lemma_after_last_index(s@, c, s.len() as int);
    }
    slice_vec(s, 0, end)
}

/// A copy of `s[lo..hi]`.
pub fn slice_vec(s: &Vec<char>, lo: usize, hi: usize) -> (r: Vec<char>)
    requires
        lo <= hi <= s.len(),
    ensures
        r@ == s@.subrange(lo as int, hi as int),
{
    let mut r: Vec<char> = Vec::new();
    let mut i = lo;
    while i < hi
        invariant
            lo <= i <= hi <= s.len(),
            r@ == s@.subrange(lo as int, i as int),
        decreases hi - i,
    {
        r.push(s[i]);
        i = i + 1;
        assert(r@ =~= s@.subrange(lo as int, i as int));
    }
    r
}

/// Append all of `b` to `a`.
pub fn append_vec(a: &mut Vec<char>, b: &Vec<char>)
    ensures
        final(a)@ == old(a)@ + b@,
{
    let mut j: usize = 0;
    while j < b.len()
        invariant
            j <= b.len(),
            a@ == old(a)@ + b@.subrange(0, j as int),
        decreases b.len() - j,
    {
        a.push(b[j]);
        j = j + 1;
        assert(a@ =~= old(a)@ + b@.subrange(0, j as int));
    }
    assert(b@.subrange(0, b.len() as int) =~= b@);
}

// ---------------------------------------------------------------------------
// White space

/// Unicode `White_Space`, the property that `char::is_whitespace` tests.
pub open spec fn is_ws(c: char) -> bool {
    ||| ('\u{9}' <= c && c <= '\u{d}')
    ||| c == ' '
    ||| c == '\u{85}'
    ||| c == '\u{a0}'
    ||| c == '\u{1680}'
    ||| ('\u{2000}' <= c && c <= '\u{200a}')
    ||| c == '\u{2028}'
    ||| c == '\u{2029}'
    ||| c == '\u{202f}'
    ||| c == '\u{205f}'
    ||| c == '\u{3000}'
}

pub fn is_ws_exec(c: char) -> (r: bool)
    ensures
        r == is_ws(c),
{
    ('\u{9}' <= c && c <= '\u{d}') || c == ' ' || c == '\u{85}' || c == '\u{a0}' || c
        == '\u{1680}' || ('\u{2000}' <= c && c <= '\u{200a}') || c == '\u{2028}' || c
        == '\u{2029}' || c == '\u{202f}' || c == '\u{205f}' || c == '\u{3000}'
}

/// The first position at or after `from` that is not white space, or the length of `s`.
pub open spec fn trim_start_index(s: Seq<char>, from: int) -> int
    decreases s.len() - from,
{
    if from < 0 || from >= s.len() {
        s.len() as int
    } else if is_ws(s[from]) {
        trim_start_index(s, from + 1)
    } else {
        from
    }
}

pub proof fn lemma_trim_start_index(s: Seq<char>, from: int)
    requires
        0 <= from <= s.len(),
    ensures
        from <= trim_start_index(s, from) <= s.len(),
        trim_start_index(s, from) < s.len() ==> !is_ws(s[trim_start_index(s, from)]),
        forall|j: int| from <= j < trim_start_index(s, from) ==> is_ws(s[j]),
    decreases s.len() - from,
{
    if from < s.len() && is_ws(s[from]) {
        lemma_trim_start_index(s, from + 1);
    }
}

/// The end of `s[lo..end]` once trailing white space is dropped.
pub open spec fn trim_end_index(s: Seq<char>, lo: int, end: int) -> int
    decreases end - lo,
{
    if end <= lo || end > s.len() || lo < 0 {
        lo
    } else if is_ws(s[end - 1]) {
        trim_end_index(s, lo, end - 1)
    } else {
        end
    }
}

pub proof fn lemma_trim_end_index(s: Seq<char>, lo: int, end: int)
    requires
        0 <= lo <= end <= s.len(),
    ensures
        lo <= trim_end_index(s, lo, end) <= end,
        trim_end_index(s, lo, end) > lo ==> !is_ws(s[trim_end_index(s, lo, end) - 1]),
        forall|j: int| trim_end_index(s, lo, end) <= j < end ==> is_ws(s[j]),
    decreases end - lo,
{
    if end > lo && is_ws(s[end - 1]) {
        lemma_trim_end_index(s, lo, end - 1);
    }
}

/// `s` without leading and trailing white space, as `str::trim` gives it.
pub open spec fn trim(s: Seq<char>) -> Seq<char> {
    let a = trim_start_index(s, 0);
    s.subrange(a, trim_end_index(s, a, s.len() as int))
}

pub fn trim_exec(s: &Vec<char>) -> (r: Vec<char>)
    ensures
        r@ == trim(s@),
{
    let mut a: usize = 0;
    while a < s.len() && is_ws_exec(s[a])
        invariant
            a <= s.len(),
            trim_start_index(s@, 0) == trim_start_index(s@, a as int),
        decreases s.len() - a,
    {
        a = a + 1;
    }
    let mut b: usize = s.len();
    while b > a && is_ws_exec(s[b - 1])
        invariant
            a <= b <= s.len(),
            trim_start_index(s@, 0) == a,
            trim_end_index(s@, a as int, s.len() as int) == trim_end_index(s@, a as int, b as int),
        decreases b,
    {
        b = b - 1;
    }
    slice_vec(s, a, b)
}

/// `s` once every leading repetition of `p` is removed, as
/// `str::trim_start_matches` with a string pattern gives it; `pos` is where
/// the removal has got to.
pub open spec fn strip_repeated_from(s: Seq<char>, p: Seq<char>, pos: int) -> int
    decreases s.len() - pos,
{
    if p.len() == 0 || pos < 0 || !occurs_at(s, p, pos) {
        pos
    } else {
        strip_repeated_from(s, p, pos + p.len())
    }
}

pub proof fn lemma_strip_repeated_from(s: Seq<char>, p: Seq<char>, pos: int)
    requires
        0 <= pos <= s.len(),
    ensures
        pos <= strip_repeated_from(s, p, pos) <= s.len(),
    decreases s.len() - pos,
{
    if p.len() > 0 && occurs_at(s, p, pos) {
        lemma_strip_repeated_from(s, p, pos + p.len());
    }
}

/// `s` without any leading repetitions of `p`.
pub open spec fn strip_repeated(s: Seq<char>, p: Seq<char>) -> Seq<char> {
    s.subrange(strip_repeated_from(s, p, 0), s.len() as int)
}

pub fn strip_repeated_exec(s: &Vec<char>, p: &Vec<char>) -> (r: Vec<char>)
    ensures
        r@ == strip_repeated(s@, p@),
{
    let mut pos: usize = 0;
    if p.len() > 0 {
        while occurs_at_exec(s, p, pos)
            invariant
                p.len() > 0,
                pos <= s.len(),
                strip_repeated_from(s@, p@, 0) == strip_repeated_from(s@, p@, pos as int),
            decreases s.len() - pos,
        {
            pos = pos + p.len();
        }
    }
    proof {
        lemma_strip_repeated_from(s@, p@, 0);
    }
    slice_vec(s, pos, s.len())
}

// ---------------------------------------------------------------------------
// Lines, as `str::lines` splits them: at each `\n`, dropping one `\r` right
// before it; a final line needs no `\n`.

/// `l` without one trailing carriage return.
pub open spec fn strip_cr(l: Seq<char>) -> Seq<char> {
    if l.len() > 0 && l.last() == '\r' {
        l.drop_last()
    } else {
        l
    }
}

/// The line of `s` that starts at `from`.
pub open spec fn line_at(s: Seq<char>, from: int) -> Seq<char> {
    let e = index_of_from(s, '\n', from);
    if e < s.len() {
        strip_cr(s.subrange(from, e))
    } else {
        s.subrange(from, e)
    }
}

/// The lines of `s` from position `from` on.
pub open spec fn lines_from(s: Seq<char>, from: int) -> Seq<Seq<char>>
    decreases s.len() + 1 - from,
    via lines_from_decreases
{
    if from < 0 || from >= s.len() {
        seq![]
    } else {
        seq![line_at(s, from)] + lines_from(s, index_of_from(s, '\n', from) + 1)
    }
}

#[via_fn]
proof fn lines_from_decreases(s: Seq<char>, from: int) {
    if 0 <= from < s.len() {
        lemma_index_of_from(s, '\n', from);
    }
}

/// The lines of `s`.
pub open spec fn lines(s: Seq<char>) -> Seq<Seq<char>> {
    lines_from(s, 0)
}

/// The lines of `s`, each as a vector of characters.
pub fn lines_exec(s: &Vec<char>) -> (r: Vec<Vec<char>>)
    ensures
        r@.map_values(|v: Vec<char>| v@) == lines(s@),
{
    let mut r: Vec<Vec<char>> = Vec::new();
    let mut pos: usize = 0;
    while pos < s.len()
        invariant
            pos <= s.len(),
            r@.map_values(|v: Vec<char>| v@) + lines_from(s@, pos as int) == lines(s@),
        decreases s.len() - pos,
    {
        let e = index_of_from_exec(s, '\n', pos);
        proof {
            lemma_index_of_from(s@, '\n', pos as int);
        }
        let mut line = slice_vec(s, pos, e);
        if e < s.len() && line.len() > 0 && line[line.len() - 1] == '\r' {
            line.pop();
        }
        assert(line@ == line_at(s@, pos as int));
        let ghost before = r@.map_values(|v: Vec<char>| v@);
        r.push(line);
        assert(r@.map_values(|v: Vec<char>| v@) =~= before.push(line@));
        if e < s.len() {
            pos = e + 1;
        } else {
            assert(lines_from(s@, e + 1) =~= lines_from(s@, s.len() as int));
            pos = s.len();
        }
    }
    assert(lines_from(s@, pos as int) =~= Seq::<Seq<char>>::empty());
    r
}

/// The field tag of the line that names the nar file of a narinfo.
pub open spec fn url_tag() -> Seq<char> {
    seq!['U', 'R', 'L', ':']
}

pub fn url_tag_exec() -> (r: Vec<char>)
    ensures
        r@ == url_tag(),
{
    let r = vec!['U', 'R', 'L', ':'];
    assert(r@ =~= url_tag());
    r
}

/// The first index at or after `i` of a line that starts with the URL tag,
/// or the number of lines.
pub open spec fn url_line_index(ls: Seq<Seq<char>>, i: int) -> int
    decreases ls.len() - i,
{
    if i < 0 || i >= ls.len() {
        ls.len() as int
    } else if has_prefix(ls[i], url_tag()) {
        i
    } else {
        url_line_index(ls, i + 1)
    }
}

pub proof fn lemma_url_line_index(ls: Seq<Seq<char>>, i: int)
    requires
        0 <= i <= ls.len(),
    ensures
        i <= url_line_index(ls, i) <= ls.len(),
        url_line_index(ls, i) < ls.len() ==> has_prefix(ls[url_line_index(ls, i)], url_tag()),
        forall|j: int| i <= j < url_line_index(ls, i) ==> !has_prefix(ls[j], url_tag()),
    decreases ls.len() - i,
{
    if i < ls.len() && !has_prefix(ls[i], url_tag()) {
        lemma_url_line_index(ls, i + 1);
    }
}

/// The value of the first URL field of a narinfo text: the first line that
/// starts with `URL:`, with every leading `URL:` removed and then trimmed.
pub open spec fn raw_url(content: Seq<char>) -> Option<Seq<char>> {
    let ls = lines(content);
    let k = url_line_index(ls, 0);
    if k < ls.len() {
        Some(trim(strip_repeated(ls[k], url_tag())))
    } else {
        None
    }
}

/// The value of the first URL field of `content`, if it has one.
pub fn raw_url_exec(content: &Vec<char>) -> (r: Option<Vec<char>>)
    ensures
        r matches Some(v) ==> raw_url(content@) == Some(v@),
        r is None ==> raw_url(content@) is None,
{
    let ls = lines_exec(content);
    let tag = url_tag_exec();
    let ghost lv = ls@.map_values(|v: Vec<char>| v@);
    let mut i: usize = 0;
    while i < ls.len()
        invariant
            i <= ls.len(),
            lv == ls@.map_values(|v: Vec<char>| v@),
            lv == lines(content@),
            tag@ == url_tag(),
            url_line_index(lv, 0) == url_line_index(lv, i as int),
        decreases ls.len() - i,
    {
        assert(lv[i as int] == ls@[i as int]@);
        if has_prefix_exec(&ls[i], &tag) {
            let stripped = strip_repeated_exec(&ls[i], &tag);
            return Some(trim_exec(&stripped));
        }
        i = i + 1;
    }
    None
}

/// The URL field line that replaces an existing one: `URL: ` and the new value.
pub open spec fn url_field(new_url: Seq<char>) -> Seq<char> {
    seq!['U', 'R', 'L', ':', ' '] + new_url
}

/// A line after the URL field is rewritten to `new_url`.
pub open spec fn rewrite_line(l: Seq<char>, new_url: Seq<char>) -> Seq<char> {
    if has_prefix(l, url_tag()) {
        url_field(new_url)
    } else {
        l
    }
}

/// Each line followed by a newline.
pub open spec fn join_lines(ls: Seq<Seq<char>>) -> Seq<char>
    decreases ls.len(),
{
    if ls.len() == 0 {
        seq![]
    } else {
        join_lines(ls.drop_last()) + ls.last() + seq!['\n']
    }
}

/// `content` with every URL field line set to `URL: <new_url>`; every line
/// is written back followed by a newline.
pub open spec fn replace_url(content: Seq<char>, new_url: Seq<char>) -> Seq<char> {
    join_lines(lines(content).map_values(|l: Seq<char>| rewrite_line(l, new_url)))
}

/// `content` with every URL field line set to `URL: <new_url>`.
pub fn replace_url_exec(content: &Vec<char>, new_url: &Vec<char>) -> (r: Vec<char>)
    ensures
        r@ == replace_url(content@, new_url@),
{
    let ls = lines_exec(content);
    let tag = url_tag_exec();
    let mut field = vec!['U', 'R', 'L', ':', ' '];
    append_vec(&mut field, new_url);
    assert(field@ =~= url_field(new_url@));
    let ghost lv = ls@.map_values(|v: Vec<char>| v@);
    let ghost rw = lv.map_values(|l: Seq<char>| rewrite_line(l, new_url@));
    let mut out: Vec<char> = Vec::new();
    let mut i: usize = 0;
    while i < ls.len()
        invariant
            i <= ls.len(),
            lv == ls@.map_values(|v: Vec<char>| v@),
            lv == lines(content@),
            rw == lv.map_values(|l: Seq<char>| rewrite_line(l, new_url@)),
            tag@ == url_tag(),
            field@ == url_field(new_url@),
            out@ == join_lines(rw.take(i as int)),
        decreases ls.len() - i,
    {
        assert(lv[i as int] == ls@[i as int]@);
        if has_prefix_exec(&ls[i], &tag) {
            append_vec(&mut out, &field);
        } else {
            append_vec(&mut out, &ls[i]);
        }
        out.push('\n');
        assert(rw.take(i + 1).drop_last() =~= rw.take(i as int));
        i = i + 1;
    }
    assert(rw.take(ls.len() as int) =~= rw);
    out
}

// ---------------------------------------------------------------------------
// Facts about lines, joins and URL fields.

proof fn lemma_index_of_from_is(s: Seq<char>, c: char, from: int, k: int)
    requires
        0 <= from <= k <= s.len(),
        k < s.len() ==> s[k] == c,
        forall|j: int| from <= j < k ==> s[j] != c,
    ensures
        index_of_from(s, c, from) == k,
{
    lemma_index_of_from(s, c, from);
}

proof fn lemma_index_shift(a: Seq<char>, b: Seq<char>, c: char, i: int)
    requires
        0 <= i <= b.len(),
    ensures
        index_of_from(a + b, c, a.len() + i) == a.len() + index_of_from(b, c, i),
    decreases b.len() - i,
{
    if i < b.len() && b[i] != c {
        lemma_index_shift(a, b, c, i + 1);
    }
}

proof fn lemma_lines_shift(a: Seq<char>, b: Seq<char>, i: int)
    requires
        0 <= i,
    ensures
        lines_from(a + b, a.len() + i) == lines_from(b, i),
    decreases b.len() + 1 - i,
{
    let x = a + b;
    if i < b.len() {
        lemma_index_shift(a, b, '\n', i);
        lemma_index_of_from(b, '\n', i);
        let e = index_of_from(b, '\n', i);
        assert(x.subrange(a.len() + i, a.len() + e) =~= b.subrange(i, e));
        assert(line_at(x, a.len() + i) == line_at(b, i));
        lemma_lines_shift(a, b, e + 1);
    }
}

/// Every line of `s` is free of newlines.
pub proof fn lemma_lines_have_no_newline(s: Seq<char>, from: int)
    requires
        0 <= from,
    ensures
        forall|i: int|
            0 <= i < lines_from(s, from).len() ==> !has_char(#[trigger] lines_from(s, from)[i], '\n'),
    decreases s.len() + 1 - from,
{
    if from < s.len() {
        lemma_index_of_from(s, '\n', from);
        let e = index_of_from(s, '\n', from);
        lemma_lines_have_no_newline(s, e + 1);
        let raw = s.subrange(from, e);
        assert(!has_char(raw, '\n'));
        assert(!has_char(line_at(s, from), '\n')) by {
            if e < s.len() && raw.len() > 0 && raw.last() == '\r' {
                assert forall|j: int| 0 <= j < raw.drop_last().len() implies raw.drop_last()[j]
                    != '\n' by {
                    assert(raw.drop_last()[j] == raw[j]);
                }
            }
        }
        let rest = lines_from(s, e + 1);
        assert(lines_from(s, from) == seq![line_at(s, from)] + rest);
        assert forall|i: int| 0 <= i < lines_from(s, from).len() implies !has_char(
            #[trigger] lines_from(s, from)[i],
            '\n',
        ) by {
            if i > 0 {
                assert(lines_from(s, from)[i] == rest[i - 1]);
            }
        }
    }
}

proof fn lemma_join_front(ls: Seq<Seq<char>>)
    requires
        ls.len() > 0,
    ensures
        join_lines(ls) == (ls[0] + seq!['\n']) + join_lines(ls.drop_first()),
    decreases ls.len(),
{
    if ls.len() == 1 {
        assert(ls.drop_last() =~= Seq::<Seq<char>>::empty());
        assert(ls.drop_first() =~= Seq::<Seq<char>>::empty());
        assert(join_lines(ls) =~= (ls[0] + seq!['\n']) + join_lines(ls.drop_first()));
    } else {
        lemma_join_front(ls.drop_last());
        assert(ls.drop_last().drop_first() =~= ls.drop_first().drop_last());
        assert(ls.drop_first().last() == ls.last());
        assert(ls.drop_last()[0] == ls[0]);
        assert(join_lines(ls) =~= (ls[0] + seq!['\n']) + join_lines(ls.drop_first()));
    }
}

/// Splitting joined lines gives them back, each without one trailing
/// carriage return, provided none holds a newline.
pub proof fn lemma_lines_of_join(ls: Seq<Seq<char>>)
    requires
        forall|i: int| 0 <= i < ls.len() ==> !has_char(#[trigger] ls[i], '\n'),
    ensures
        lines(join_lines(ls)) == ls.map_values(|l: Seq<char>| strip_cr(l)),
    decreases ls.len(),
{
    if ls.len() == 0 {
        assert(join_lines(ls) =~= Seq::<char>::empty());
        assert(lines(join_lines(ls)) =~= ls.map_values(|l: Seq<char>| strip_cr(l)));
    } else {
        let l0 = ls[0];
        let a = l0 + seq!['\n'];
        let rest = ls.drop_first();
        assert forall|i: int| 0 <= i < rest.len() implies !has_char(#[trigger] rest[i], '\n') by {
            assert(rest[i] == ls[i + 1]);
        }
        lemma_lines_of_join(rest);
        lemma_join_front(ls);
        let x = a + join_lines(rest);
        assert(join_lines(ls) == x);
        assert forall|j: int| 0 <= j < l0.len() implies x[j] != '\n' by {
            assert(x[j] == l0[j]);
            assert(!has_char(ls[0], '\n'));
        }
        assert(x[l0.len() as int] == '\n');
        lemma_index_of_from_is(x, '\n', 0, l0.len() as int);
        assert(x.subrange(0, l0.len() as int) =~= l0);
        assert(line_at(x, 0) == strip_cr(l0));
        lemma_lines_shift(a, join_lines(rest), 0);
        assert(lines_from(x, l0.len() + 1int) == lines(join_lines(rest)));
        assert(lines(x) == seq![strip_cr(l0)] + lines(join_lines(rest)));
        assert(lines(x) =~= ls.map_values(|l: Seq<char>| strip_cr(l)));
    }
}

proof fn lemma_trim_start_shift(s: Seq<char>, i: int)
    requires
        0 <= i <= s.len(),
    ensures
        trim_start_index(seq![' '] + s, 1 + i) == 1 + trim_start_index(s, i),
    decreases s.len() - i,
{
    let x = seq![' '] + s;
    if i < s.len() {
        assert(x[1 + i] == s[i]);
        if is_ws(s[i]) {
            lemma_trim_start_shift(s, i + 1);
        }
    }
}

proof fn lemma_trim_end_shift(s: Seq<char>, lo: int, end: int)
    requires
        0 <= lo <= end <= s.len(),
    ensures
        trim_end_index(seq![' '] + s, 1 + lo, 1 + end) == 1 + trim_end_index(s, lo, end),
    decreases end - lo,
{
    let x = seq![' '] + s;
    if end > lo {
        assert(x[end] == s[end - 1]);
        if is_ws(s[end - 1]) {
            lemma_trim_end_shift(s, lo, end - 1);
        }
    }
}

/// A leading space does not survive trimming.
pub proof fn lemma_trim_leading_space(s: Seq<char>)
    ensures
        trim(seq![' '] + s) == trim(s),
{
    let x = seq![' '] + s;
    assert(is_ws(x[0]));
    lemma_trim_start_shift(s, 0);
    lemma_trim_start_index(s, 0);
    let a = trim_start_index(s, 0);
    assert(trim_start_index(x, 0) == 1 + a);
    lemma_trim_end_shift(s, a, s.len() as int);
    lemma_trim_end_index(s, a, s.len() as int);
    let b = trim_end_index(s, a, s.len() as int);
    assert(x.subrange(1 + a, 1 + b) =~= s.subrange(a, b));
}

/// A text that trimming leaves unchanged ends in no white space.
pub proof fn lemma_trimmed_ends(s: Seq<char>)
    requires
        trim(s) == s,
        s.len() > 0,
    ensures
        !is_ws(s.last()),
{
    lemma_trim_start_index(s, 0);
    let a = trim_start_index(s, 0);
    lemma_trim_end_index(s, a, s.len() as int);
    let b = trim_end_index(s, a, s.len() as int);
    assert(s.subrange(a, b).len() == s.len());
}

proof fn lemma_url_field_parts(new_url: Seq<char>)
    requires
        trim(new_url) == new_url,
        !has_char(new_url, '\n'),
    ensures
        strip_cr(url_field(new_url)) == url_field(new_url),
        has_prefix(url_field(new_url), url_tag()),
        !has_char(url_field(new_url), '\n'),
        trim(strip_repeated(url_field(new_url), url_tag())) == new_url,
{
    let u = url_field(new_url);
    if new_url.len() > 0 {
        lemma_trimmed_ends(new_url);
        assert(u.last() == new_url.last());
    }
    assert(u.subrange(0, 4) =~= url_tag());
    assert forall|j: int| 0 <= j < u.len() implies u[j] != '\n' by {
        if j >= 5 {
            assert(u[j] == new_url[j - 5]);
        }
    }
    assert(occurs_at(u, url_tag(), 0));
    assert(u[4] == ' ');
    assert(!occurs_at(u, url_tag(), 4)) by {
        if occurs_at(u, url_tag(), 4) {
            assert(u.subrange(4, 8)[0] == url_tag()[0]);
        }
    }
    assert(url_tag().len() == 4);
    assert(strip_repeated_from(u, url_tag(), 4) == 4);
    assert(strip_repeated_from(u, url_tag(), 0) == 4);
    assert(strip_repeated(u, url_tag()) =~= seq![' '] + new_url);
    lemma_trim_leading_space(new_url);
}

proof fn lemma_prefix_strip_cr(l: Seq<char>)
    ensures
        has_prefix(strip_cr(l), url_tag()) == has_prefix(l, url_tag()),
{
    if l.len() > 0 && l.last() == '\r' {
        let d = l.drop_last();
        if has_prefix(l, url_tag()) {
            assert(l.subrange(0, 4)[3] == ':');
            assert(d.len() >= 4);
            assert(d.subrange(0, 4) =~= l.subrange(0, 4));
        }
        if has_prefix(d, url_tag()) {
            assert(l.subrange(0, 4) =~= d.subrange(0, 4));
        }
    }
}

proof fn lemma_url_line_index_same(ls: Seq<Seq<char>>, ms: Seq<Seq<char>>, i: int)
    requires
        ls.len() == ms.len(),
        0 <= i <= ls.len(),
        forall|j: int|
            0 <= j < ls.len() ==> has_prefix(#[trigger] ls[j], url_tag()) == has_prefix(
                ms[j],
                url_tag(),
            ),
    ensures
        url_line_index(ls, i) == url_line_index(ms, i),
    decreases ls.len() - i,
{
    if i < ls.len() {
        lemma_url_line_index_same(ls, ms, i + 1);
    }
}

/// After the URL field of a narinfo text is rewritten to `new_url`, the URL
/// field reads `new_url`.
pub proof fn law_raw_url_of_replace(content: Seq<char>, new_url: Seq<char>)
    requires
        raw_url(content) is Some,
        trim(new_url) == new_url,
        !has_char(new_url, '\n'),
    ensures
        raw_url(replace_url(content, new_url)) == Some(new_url),
{
    let ls = lines(content);
    let rw = ls.map_values(|l: Seq<char>| rewrite_line(l, new_url));
    lemma_lines_have_no_newline(content, 0);
    lemma_url_field_parts(new_url);
    assert forall|i: int| 0 <= i < rw.len() implies !has_char(#[trigger] rw[i], '\n') by {
        assert(!has_char(ls[i], '\n'));
    }
    lemma_lines_of_join(rw);
    let ms = rw.map_values(|l: Seq<char>| strip_cr(l));
    assert(lines(replace_url(content, new_url)) == ms);
    assert forall|j: int| 0 <= j < ls.len() implies has_prefix(#[trigger] ls[j], url_tag())
        == has_prefix(ms[j], url_tag()) by {
        lemma_prefix_strip_cr(rw[j]);
    }
    lemma_url_line_index_same(ls, ms, 0);
    lemma_url_line_index(ls, 0);
    let k = url_line_index(ls, 0);
    assert(ms[k] == url_field(new_url));
}

/// Rewriting the URL field twice to the same value changes nothing more
/// than rewriting it once, for a text none of whose lines ends in a carriage
/// return.
pub proof fn law_replace_url_twice(content: Seq<char>, new_url: Seq<char>)
    requires
        forall|i: int|
            0 <= i < lines(content).len() ==> strip_cr(#[trigger] lines(content)[i])
                == lines(content)[i],
        !has_char(new_url, '\n'),
        strip_cr(url_field(new_url)) == url_field(new_url),
    ensures
        replace_url(replace_url(content, new_url), new_url) == replace_url(content, new_url),
{
    let ls = lines(content);
    let rw = ls.map_values(|l: Seq<char>| rewrite_line(l, new_url));
    lemma_lines_have_no_newline(content, 0);
    assert(!has_char(url_field(new_url), '\n')) by {
        let u = url_field(new_url);
        assert forall|j: int| 0 <= j < u.len() implies u[j] != '\n' by {
            if j >= 5 {
                assert(u[j] == new_url[j - 5]);
            }
        }
    }
    assert forall|i: int| 0 <= i < rw.len() implies !has_char(#[trigger] rw[i], '\n') by {
        assert(!has_char(ls[i], '\n'));
    }
    lemma_lines_of_join(rw);
    let ms = rw.map_values(|l: Seq<char>| strip_cr(l));
    assert(ms =~= rw);
    assert(url_field(new_url).subrange(0, 4) =~= url_tag());
    let rw2 = ms.map_values(|l: Seq<char>| rewrite_line(l, new_url));
    assert(rw2 =~= rw);
}

} // verus!
