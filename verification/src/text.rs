//! Text primitives over sequences of characters: search, trimming, splitting,
//! replacement and decimal conversion, each tied to a mathematical definition.

use vstd::prelude::*;
use vstd::string::StringExecFns;

verus! {

/// `p` occurs in `s` starting at index `i`.
pub open spec fn occurs_at(s: Seq<char>, p: Seq<char>, i: int) -> bool {
    0 <= i && i + p.len() <= s.len() && s.subrange(i, i + p.len()) == p
}

/// `p` occurs somewhere in `s`.
pub open spec fn has_sub(s: Seq<char>, p: Seq<char>) -> bool {
    exists|i: int| occurs_at(s, p, i)
}

/// `i` is the leftmost index where `p` occurs in `s`.
pub open spec fn first_occurrence(s: Seq<char>, p: Seq<char>, i: int) -> bool {
    occurs_at(s, p, i) && forall|j: int| 0 <= j < i ==> !occurs_at(s, p, j)
}

/// `s` begins with `p`.
pub open spec fn starts_with(s: Seq<char>, p: Seq<char>) -> bool {
    occurs_at(s, p, 0)
}

/// The leftmost index where `p` occurs in `s`, as `str::find` reports it (in characters).
pub open spec fn index_of(s: Seq<char>, p: Seq<char>) -> Option<int>
    decreases s.len(),
{
    if starts_with(s, p) {
        Some(0)
    } else if s.len() == 0 {
        None
    } else {
        match index_of(s.drop_first(), p) {
            Some(i) => Some(i + 1),
            None => None,
        }
    }
}

/// `index_of` agrees with the leftmost occurrence.
pub proof fn lemma_index_of(s: Seq<char>, p: Seq<char>)
    ensures
        match index_of(s, p) {
            Some(i) => first_occurrence(s, p, i),
            None => !has_sub(s, p),
        },
    decreases s.len(),
{
    if starts_with(s, p) {
    } else if s.len() == 0 {
        assert forall|i: int| !occurs_at(s, p, i) by {
            if occurs_at(s, p, i) {
                assert(i == 0);
            }
        }
    } else {
        lemma_index_of(s.drop_first(), p);
        let t = s.drop_first();
        assert forall|j: int| 1 <= j && j + p.len() <= s.len() implies occurs_at(s, p, j)
            == occurs_at(t, p, j - 1) by {
            assert(s.subrange(j, j + p.len()) =~= t.subrange(j - 1, j - 1 + p.len()));
        }
        match index_of(t, p) {
            Some(i) => {
                assert forall|j: int| 0 <= j < i + 1 implies !occurs_at(s, p, j) by {
                    if j > 0 {
                        assert(!occurs_at(t, p, j - 1));
                    }
                }
            },
            None => {
                assert forall|j: int| !occurs_at(s, p, j) by {
                    if j > 0 && occurs_at(s, p, j) {
                        assert(occurs_at(t, p, j - 1));
                    }
                }
            },
        }
    }
}

/// `String::push`: appends one character to a string. The contract claims that the string's
/// characters afterwards are those before with the character added at the end.
#[verifier::external_body]
pub(crate) fn push_char(s: &mut String, c: char)
    ensures
        final(s)@ == old(s)@.push(c),
{
    s.push(c);
}

/// The characters of a string, in order.
pub fn chars_of(s: &str) -> (r: Vec<char>)
    ensures
        r@ == s@,
{
    broadcast use vstd::string::group_string_axioms;
    let mut r: Vec<char> = Vec::new();
    for c in it: s.chars()
        invariant
            r@ == it.seq().take(it.index() as int),
            it.seq() == s@,
    {
        r.push(c);
    }
    r
}

/// A string holding exactly the given characters.
pub fn string_of(v: &[char]) -> (r: String)
    ensures
        r@ == v@,
{
    let mut r = String::new();
    let mut i: usize = 0;
    while i < v.len()
        invariant
            i <= v.len(),
            r@ == v@.take(i as int),
        decreases v.len() - i,
    {
        push_char(&mut r, v[i]);
        i = i + 1;
        assert(v@.take(i as int) == v@.take(i - 1).push(v@[i - 1]));
    }
    assert(v@.take(v.len() as int) == v@);
    r
}

/// Whether `p` occurs in `s` at index `i`.
pub fn matches_at(s: &[char], p: &[char], i: usize) -> (r: bool)
    ensures
        r == occurs_at(s@, p@, i as int),
{
    if i > s.len() || p.len() > s.len() - i {
        return false;
    }
    let mut k: usize = 0;
    while k < p.len()
        invariant
            i + p.len() <= s.len(),
            k <= p.len(),
            forall|m: int| 0 <= m < k ==> s@[i + m] == p@[m],
        decreases p.len() - k,
    {
        if s[i + k] != p[k] {
            assert(s@.subrange(i as int, i + p.len())[k as int] != p@[k as int]);
            return false;
        }
        k = k + 1;
    }
    assert(s@.subrange(i as int, i + p.len()) =~= p@);
    true
}

/// The leftmost index at which `p` occurs in `s`, if any.
pub fn find(s: &[char], p: &[char]) -> (r: Option<usize>)
    ensures
        match r {
            Some(i) => first_occurrence(s@, p@, i as int),
            None => !has_sub(s@, p@),
        },
        match r {
            Some(i) => index_of(s@, p@) == Some(i as int),
            None => index_of(s@, p@) is None,
        },
{
    proof {
        lemma_index_of(s@, p@);
    }
    let mut i: usize = 0;
    while i < s.len()
        invariant
            i <= s.len(),
            forall|j: int| 0 <= j < i ==> !occurs_at(s@, p@, j),
        decreases s.len() - i,
    {
        if matches_at(s, p, i) {
            proof {
                lemma_index_of(s@, p@);
            }
            return Some(i);
        }
        i = i + 1;
    }
    if matches_at(s, p, i) {
        return Some(i);
    }
    None
}

/// Whether `p` occurs anywhere in `s`.
pub fn contains(s: &[char], p: &[char]) -> (r: bool)
    ensures
        r == has_sub(s@, p@),
{
    match find(s, p) {
        Some(i) => true,
        None => false,
    }
}

/// Unicode white space, as `char::is_whitespace` classifies it.
pub open spec fn is_ws(c: char) -> bool {
    let u = c as u32;
    u == 0x20 || (0x09 <= u && u <= 0x0D) || u == 0x85 || u == 0xA0 || u == 0x1680
        || (0x2000 <= u && u <= 0x200A) || u == 0x2028 || u == 0x2029 || u == 0x202F
        || u == 0x205F || u == 0x3000
}

/// `s` without its leading white space.
pub open spec fn trim_start(s: Seq<char>) -> Seq<char>
    decreases s.len(),
{
    if s.len() > 0 && is_ws(s[0]) {
        trim_start(s.drop_first())
    } else {
        s
    }
}

/// `s` without its trailing white space.
pub open spec fn trim_end(s: Seq<char>) -> Seq<char>
    decreases s.len(),
{
    if s.len() > 0 && is_ws(s.last()) {
        trim_end(s.drop_last())
    } else {
        s
    }
}

/// `s` without leading and trailing white space.
pub open spec fn trim(s: Seq<char>) -> Seq<char> {
    trim_end(trim_start(s))
}

/// Whether a character is white space.
pub fn is_whitespace(c: char) -> (r: bool)
    ensures
        r == is_ws(c),
{
    let u = c as u32;
    u == 0x20 || (0x09 <= u && u <= 0x0D) || u == 0x85 || u == 0xA0 || u == 0x1680 || (0x2000
        <= u && u <= 0x200A) || u == 0x2028 || u == 0x2029 || u == 0x202F || u == 0x205F || u
        == 0x3000
}

/// A copy of `s[a..b]`.
pub fn slice_copy(s: &[char], a: usize, b: usize) -> (r: Vec<char>)
    requires
        a <= b <= s.len(),
    ensures
        r@ == s@.subrange(a as int, b as int),
{
    let mut r: Vec<char> = Vec::new();
    let mut i = a;
    while i < b
        invariant
            a <= i <= b <= s.len(),
            r@ == s@.subrange(a as int, i as int),
        decreases b - i,
    {
        r.push(s[i]);
        i = i + 1;
        assert(r@ =~= s@.subrange(a as int, i as int));
    }
    r
}

/// The number of leading white-space characters of `s`.
pub fn leading_ws(s: &[char]) -> (k: usize)
    ensures
        k <= s.len(),
        trim_start(s@) == s@.skip(k as int),
{
    let mut i: usize = 0;
    assert(s@.skip(0) =~= s@);
    while i < s.len() && is_whitespace(s[i])
        invariant
            i <= s.len(),
            trim_start(s@) == trim_start(s@.skip(i as int)),
        decreases s.len() - i,
    {
        assert(s@.skip(i as int).drop_first() =~= s@.skip(i + 1));
        i = i + 1;
    }
    i
}

/// The length of `s` once its trailing white space is dropped.
pub fn trailing_end(s: &[char]) -> (k: usize)
    ensures
        k <= s.len(),
        trim_end(s@) == s@.take(k as int),
{
    let mut i: usize = s.len();
    assert(s@.take(i as int) =~= s@);
    while i > 0 && is_whitespace(s[i - 1])
        invariant
            i <= s.len(),
            trim_end(s@) == trim_end(s@.take(i as int)),
        decreases i,
    {
        assert(s@.take(i as int).drop_last() =~= s@.take(i - 1));
        i = i - 1;
    }
    i
}

/// `s` without leading white space.
pub fn trimmed_start(s: &[char]) -> (r: Vec<char>)
    ensures
        r@ == trim_start(s@),
{
    let k = leading_ws(s);
    slice_copy(s, k, s.len())
}

/// `s` without leading and trailing white space.
pub fn trimmed(s: &[char]) -> (r: Vec<char>)
    ensures
        r@ == trim(s@),
{
    let t = trimmed_start(s);
    let k = trailing_end(t.as_slice());
    slice_copy(t.as_slice(), 0, k)
}

/// Whether `s` begins with `p`.
pub fn has_prefix(s: &[char], p: &[char]) -> (r: bool)
    ensures
        r == starts_with(s@, p@),
{
    matches_at(s, p, 0)
}

/// Whether two character sequences are equal.
pub fn same_chars(a: &[char], b: &[char]) -> (r: bool)
    ensures
        r == (a@ == b@),
{
    if a.len() != b.len() {
        return false;
    }
    let r = matches_at(a, b, 0);
    assert(r ==> a@.subrange(0, b.len() as int) =~= a@);
    assert(a@ == b@ ==> a@.subrange(0, b.len() as int) =~= a@);
    r
}

/// The index of the first `c` in `s`, or `s.len()` when there is none.
pub open spec fn char_pos(s: Seq<char>, c: char) -> int
    decreases s.len(),
{
    if s.len() == 0 {
        0
    } else if s[0] == c {
        0
    } else {
        1 + char_pos(s.drop_first(), c)
    }
}

/// `char_pos` lies within the sequence, and only the found index holds `c`.
pub proof fn lemma_char_pos(s: Seq<char>, c: char)
    ensures
        0 <= char_pos(s, c) <= s.len(),
        char_pos(s, c) < s.len() ==> s[char_pos(s, c)] == c,
        forall|j: int| 0 <= j < char_pos(s, c) ==> s[j] != c,
    decreases s.len(),
{
    if s.len() > 0 && s[0] != c {
        lemma_char_pos(s.drop_first(), c);
        assert forall|j: int| 0 <= j < char_pos(s, c) implies s[j] != c by {
            if j > 0 {
                assert(s[j] == s.drop_first()[j - 1]);
            }
        }
    }
}

/// A sequence with no `c` before index `k` and `c` at `k` has `char_pos == k`.
pub proof fn lemma_char_pos_at(s: Seq<char>, c: char, k: int)
    requires
        0 <= k <= s.len(),
        k < s.len() ==> s[k] == c,
        forall|j: int| 0 <= j < k ==> s[j] != c,
    ensures
        char_pos(s, c) == k,
    decreases s.len(),
{
    if s.len() > 0 && s[0] != c {
        assert forall|j: int| 0 <= j < k - 1 implies s.drop_first()[j] != c by {
            assert(s.drop_first()[j] == s[j + 1]);
        }
        lemma_char_pos_at(s.drop_first(), c, k - 1);
    }
}

/// The character sequences held by a list of character vectors.
pub open spec fn views(r: Seq<Vec<char>>) -> Seq<Seq<char>> {
    r.map_values(|v: Vec<char>| v@)
}

/// Drops one trailing carriage return.
pub open spec fn strip_cr(l: Seq<char>) -> Seq<char> {
    if l.len() > 0 && l.last() == '\r' {
        l.drop_last()
    } else {
        l
    }
}

/// The lines of `s`, as `str::lines` yields them: split at `\n`, a `\r` just before
/// the `\n` dropped, and no empty line after a final `\n`.
pub open spec fn lines_of(s: Seq<char>) -> Seq<Seq<char>>
    decreases s.len(),
{
    if s.len() == 0 {
        seq![]
    } else {
        let i = char_pos(s, '\n');
        if i >= s.len() {
            seq![s]
        } else {
            proof {
                lemma_char_pos(s, '\n');
            }
            seq![strip_cr(s.take(i))] + lines_of(s.skip(i + 1))
        }
    }
}

/// The pieces of `s` between occurrences of `c`, as `str::split` with a char yields them.
pub open spec fn split_char(s: Seq<char>, c: char) -> Seq<Seq<char>>
    decreases s.len(),
{
    let i = char_pos(s, c);
    if i >= s.len() {
        seq![s]
    } else {
        proof {
            lemma_char_pos(s, c);
        }
        seq![s.take(i)] + split_char(s.skip(i + 1), c)
    }
}

/// A copy of `l` without one trailing carriage return.
pub fn without_cr(l: Vec<char>) -> (r: Vec<char>)
    ensures
        r@ == strip_cr(l@),
{
    let mut l = l;
    if l.len() > 0 && l[l.len() - 1] == '\r' {
        l.pop();
    }
    l
}

/// Splitting `cur + [c] + rest`, where `cur` holds no `c`, gives `cur` first.
proof fn lemma_char_pos_prefix(cur: Seq<char>, c: char, rest: Seq<char>)
    requires
        forall|j: int| 0 <= j < cur.len() ==> cur[j] != c,
    ensures
        char_pos(cur + seq![c] + rest, c) == cur.len(),
        (cur + seq![c] + rest).take(cur.len() as int) == cur,
        (cur + seq![c] + rest).skip(cur.len() as int + 1) == rest,
{
    let t = cur + seq![c] + rest;
    assert forall|j: int| 0 <= j < cur.len() implies t[j] != c by {
        assert(t[j] == cur[j]);
    }
    lemma_char_pos_at(t, c, cur.len() as int);
    assert(t.take(cur.len() as int) =~= cur);
    assert(t.skip(cur.len() as int + 1) =~= rest);
}

/// A sequence with no `c` has `char_pos` at its end.
proof fn lemma_char_pos_none(s: Seq<char>, c: char)
    requires
        forall|j: int| 0 <= j < s.len() ==> s[j] != c,
    ensures
        char_pos(s, c) == s.len(),
{
    lemma_char_pos_at(s, c, s.len() as int);
}

/// The lines of `s`.
pub fn lines(s: &[char]) -> (r: Vec<Vec<char>>)
    ensures
        views(r@) == lines_of(s@),
{
    let mut r: Vec<Vec<char>> = Vec::new();
    let mut cur: Vec<char> = Vec::new();
    let mut i: usize = 0;
    assert(s@.skip(0) =~= s@);
    assert(cur@ + s@.skip(0) =~= s@);
    while i < s.len()
        invariant
            i <= s.len(),
            forall|j: int| 0 <= j < cur@.len() ==> cur@[j] != '\n',
            views(r@) + lines_of(cur@ + s@.skip(i as int)) == lines_of(s@),
        decreases s.len() - i,
    {
        let c = s[i];
        let ghost old_r = views(r@);
        let ghost old_cur = cur@;
        if c == '\n' {
            let ghost rest = s@.skip(i + 1);
            proof {
                assert(s@.skip(i as int) =~= seq![c] + rest);
                assert(old_cur + s@.skip(i as int) =~= old_cur + seq![c] + rest);
                lemma_char_pos_prefix(old_cur, '\n', rest);
            }
            let line = without_cr(cur);
            r.push(line);
            cur = Vec::new();
            proof {
                assert(views(r@) =~= old_r.push(strip_cr(old_cur)));
                assert(cur@ + rest =~= rest);
            }
        } else {
            cur.push(c);
            proof {
                assert(cur@ + s@.skip(i + 1) =~= old_cur + s@.skip(i as int));
            }
        }
        i = i + 1;
    }
    proof {
        assert(cur@ + s@.skip(i as int) =~= cur@);
        lemma_char_pos_none(cur@, '\n');
    }
    let ghost old_r = views(r@);
    if cur.len() > 0 {
        r.push(cur);
        assert(views(r@) =~= old_r.push(cur@));
    }
    r
}

/// The pieces of `s` between occurrences of `c`.
pub fn split(s: &[char], c: char) -> (r: Vec<Vec<char>>)
    ensures
        views(r@) == split_char(s@, c),
{
    let mut r: Vec<Vec<char>> = Vec::new();
    let mut cur: Vec<char> = Vec::new();
    let mut i: usize = 0;
    assert(cur@ + s@.skip(0) =~= s@);
    while i < s.len()
        invariant
            i <= s.len(),
            forall|j: int| 0 <= j < cur@.len() ==> cur@[j] != c,
            views(r@) + split_char(cur@ + s@.skip(i as int), c) == split_char(s@, c),
        decreases s.len() - i,
    {
        let d = s[i];
        let ghost old_r = views(r@);
        let ghost old_cur = cur@;
        if d == c {
            let ghost rest = s@.skip(i + 1);
            proof {
                assert(old_cur + s@.skip(i as int) =~= old_cur + seq![c] + rest);
                lemma_char_pos_prefix(old_cur, c, rest);
            }
            r.push(cur);
            cur = Vec::new();
            proof {
                assert(views(r@) =~= old_r.push(old_cur));
                assert(cur@ + rest =~= rest);
            }
        } else {
            cur.push(d);
            proof {
                assert(cur@ + s@.skip(i + 1) =~= old_cur + s@.skip(i as int));
            }
        }
        i = i + 1;
    }
    proof {
        assert(cur@ + s@.skip(i as int) =~= cur@);
        lemma_char_pos_none(cur@, c);
    }
    let ghost old_r = views(r@);
    r.push(cur);
    assert(views(r@) =~= old_r + seq![cur@]);
    r
}

/// `s` with every non-overlapping occurrence of `p`, taken left to right, replaced by `q`
/// (as `str::replace` does for a non-empty pattern).
pub open spec fn replace_all(s: Seq<char>, p: Seq<char>, q: Seq<char>) -> Seq<char>
    decreases s.len(),
{
    if s.len() == 0 {
        s
    } else if p.len() > 0 && starts_with(s, p) {
        q + replace_all(s.skip(p.len() as int), p, q)
    } else {
        seq![s[0]] + replace_all(s.drop_first(), p, q)
    }
}

/// The number of non-overlapping occurrences of `p` in `s`, taken left to right
/// (as `str::matches(..).count()` gives it for a non-empty pattern).
pub open spec fn count_matches(s: Seq<char>, p: Seq<char>) -> nat
    decreases s.len(),
{
    if s.len() == 0 {
        0
    } else if p.len() > 0 && starts_with(s, p) {
        1 + count_matches(s.skip(p.len() as int), p)
    } else {
        count_matches(s.drop_first(), p)
    }
}

/// `p` occurs at `i` in `s` exactly when the suffix of `s` from `i` starts with `p`.
proof fn lemma_occurs_skip(s: Seq<char>, p: Seq<char>, i: int)
    requires
        0 <= i <= s.len(),
    ensures
        occurs_at(s, p, i) == starts_with(s.skip(i), p),
{
    if i + p.len() <= s.len() {
        assert(s.skip(i).subrange(0, p.len() as int) =~= s.subrange(i, i + p.len()));
    }
}

/// Appends the characters of `q` to `out`.
pub fn push_all(out: &mut Vec<char>, q: &[char])
    ensures
        final(out)@ == old(out)@ + q@,
{
    let mut k: usize = 0;
    while k < q.len()
        invariant
            k <= q.len(),
            out@ == old(out)@ + q@.take(k as int),
        decreases q.len() - k,
    {
        out.push(q[k]);
        k = k + 1;
        assert(out@ =~= old(out)@ + q@.take(k as int));
    }
    assert(q@.take(q.len() as int) =~= q@);
}

/// `s` with every occurrence of the non-empty pattern `p` replaced by `q`.
pub fn replace(s: &[char], p: &[char], q: &[char]) -> (r: Vec<char>)
    requires
        p.len() > 0,
    ensures
        r@ == replace_all(s@, p@, q@),
{
    let mut out: Vec<char> = Vec::new();
    let mut i: usize = 0;
    assert(s@.skip(0) =~= s@);
    while i < s.len()
        invariant
            i <= s.len(),
            p.len() > 0,
            out@ + replace_all(s@.skip(i as int), p@, q@) == replace_all(s@, p@, q@),
        decreases s.len() - i,
    {
        let ghost old_out = out@;
        let ghost t = s@.skip(i as int);
        proof {
            lemma_occurs_skip(s@, p@, i as int);
        }
        if matches_at(s, p, i) {
            push_all(&mut out, q);
            proof {
                assert(t.skip(p.len() as int) =~= s@.skip(i + p.len()));
            }
            i = i + p.len();
            assert(out@ + replace_all(s@.skip(i as int), p@, q@) =~= old_out + replace_all(t, p@, q@));
        } else {
            out.push(s[i]);
            proof {
                assert(t.drop_first() =~= s@.skip(i + 1));
            }
            i = i + 1;
            assert(out@ + replace_all(s@.skip(i as int), p@, q@) =~= old_out + replace_all(t, p@, q@));
        }
    }
    assert(out@ + replace_all(s@.skip(i as int), p@, q@) =~= out@);
    out
}

/// The number of non-overlapping occurrences of the non-empty pattern `p` in `s`.
pub fn count_occurrences(s: &[char], p: &[char]) -> (r: usize)
    requires
        p.len() > 0,
    ensures
        r == count_matches(s@, p@),
        r <= s.len(),
{
    let mut n: usize = 0;
    let mut i: usize = 0;
    assert(s@.skip(0) =~= s@);
    while i < s.len()
        invariant
            i <= s.len(),
            p.len() > 0,
            n + count_matches(s@.skip(i as int), p@) == count_matches(s@, p@),
            n <= i,
        decreases s.len() - i,
    {
        let ghost t = s@.skip(i as int);
        proof {
            lemma_occurs_skip(s@, p@, i as int);
        }
        if matches_at(s, p, i) {
            proof {
                assert(t.skip(p.len() as int) =~= s@.skip(i + p.len()));
            }
            n = n + 1;
            i = i + p.len();
        } else {
            proof {
                assert(t.drop_first() =~= s@.skip(i + 1));
            }
            i = i + 1;
        }
    }
    n
}

/// The decimal digit character for `d` (below ten).
pub open spec fn digit_of(d: nat) -> char {
    ((d + 48) as u32) as char
}

/// The decimal rendering of `n`, without sign or leading zeros.
pub open spec fn decimal(n: nat) -> Seq<char>
    decreases n,
{
    if n < 10 {
        seq![digit_of(n)]
    } else {
        decimal(n / 10).push(digit_of(n % 10))
    }
}

/// `c` is an ASCII decimal digit.
pub open spec fn is_digit(c: char) -> bool {
    '0' <= c <= '9'
}

/// The value of the ASCII digit `c`.
pub open spec fn digit_value(c: char) -> nat {
    (c as u32 - 48) as nat
}

/// The value of a string of decimal digits.
pub open spec fn digits_value(d: Seq<char>) -> nat
    decreases d.len(),
{
    if d.len() == 0 {
        0
    } else {
        digits_value(d.drop_last()) * 10 + digit_value(d.last())
    }
}

/// Every character of `d` is an ASCII digit.
pub open spec fn all_digits(d: Seq<char>) -> bool {
    forall|i: int| 0 <= i < d.len() ==> is_digit(#[trigger] d[i])
}

/// `s` without one leading `+`.
pub open spec fn unsigned_digits(s: Seq<char>) -> Seq<char> {
    if s.len() > 0 && s[0] == '+' {
        s.drop_first()
    } else {
        s
    }
}

/// What parsing `s` as an unsigned integer denotes, before any bound: an optional `+`
/// then one or more ASCII digits, as `FromStr` for unsigned integers accepts them.
pub open spec fn unsigned_value(s: Seq<char>) -> Option<nat> {
    if unsigned_digits(s).len() > 0 && all_digits(unsigned_digits(s)) {
        Some(digits_value(unsigned_digits(s)))
    } else {
        None
    }
}

/// What `s.parse::<T>()` gives for an unsigned type whose largest value is `max`.
pub open spec fn parse_unsigned(s: Seq<char>, max: nat) -> Option<nat> {
    match unsigned_value(s) {
        Some(v) => if v <= max {
            Some(v)
        } else {
            None
        },
        None => None,
    }
}

/// The digit character for a value below ten.
pub fn digit_char(d: u8) -> (c: char)
    requires
        d < 10,
    ensures
        c == digit_of(d as nat),
{
    let c = match d {
        0 => '0',
        1 => '1',
        2 => '2',
        3 => '3',
        4 => '4',
        5 => '5',
        6 => '6',
        7 => '7',
        8 => '8',
        _ => '9',
    };
    c
}

/// The decimal digits of `n`.
pub fn decimal_chars(n: u64) -> (r: Vec<char>)
    ensures
        r@ == decimal(n as nat),
    decreases n,
{
    if n < 10 {
        let mut r = Vec::new();
        r.push(digit_char(n as u8));
        r
    } else {
        let mut r = decimal_chars(n / 10);
        r.push(digit_char((n % 10) as u8));
        r
    }
}

/// The decimal rendering of a `usize`, as `to_string` gives it.
pub fn usize_to_string(n: usize) -> (r: String)
    ensures
        r@ == decimal(n as nat),
{
    let v = decimal_chars(n as u64);
    string_of(v.as_slice())
}

/// A prefix of a digit string never has a larger value.
pub proof fn lemma_digits_prefix(d: Seq<char>, k: int)
    requires
        0 <= k <= d.len(),
    ensures
        digits_value(d.take(k)) <= digits_value(d),
    decreases d.len(),
{
    if k < d.len() {
        lemma_digits_prefix(d.drop_last(), k);
        assert(d.drop_last().take(k) =~= d.take(k));
    } else {
        assert(d.take(k) =~= d);
    }
}

/// The value of a digit string, if it fits in a `u64`.
fn digits_to_u64(d: &[char], start: usize) -> (r: Option<u64>)
    requires
        start <= d.len(),
        forall|i: int| start <= i < d.len() ==> is_digit(#[trigger] d@[i]),
    ensures
        match r {
            Some(v) => v as nat == digits_value(d@.skip(start as int)),
            None => digits_value(d@.skip(start as int)) > u64::MAX,
        },
{
    let ghost ds = d@.skip(start as int);
    let mut v: u64 = 0;
    let mut i: usize = start;
    assert(ds.take(0) =~= seq![]);
    while i < d.len()
        invariant
            start <= i <= d.len(),
            ds == d@.skip(start as int),
            forall|j: int| start <= j < d.len() ==> is_digit(#[trigger] d@[j]),
            v as nat == digits_value(ds.take(i - start)),
        decreases d.len() - i,
    {
        let c = d[i];
        assert(is_digit(d@[i as int]));
        let dv: u64 = (c as u32 - 48) as u64;
        proof {
            assert(ds.take(i + 1 - start).drop_last() =~= ds.take(i - start));
            assert(ds.take(i + 1 - start).last() == c);
        }
        if v > (u64::MAX - dv) / 10 {
            proof {
                assert(v * 10 + dv > u64::MAX) by (nonlinear_arith)
                    requires
                        v > (u64::MAX - dv) / 10,
                        dv <= 9,
                ;
                lemma_digits_prefix(ds, i + 1 - start);
            }
            return None;
        }
        proof {
            assert(v * 10 + dv <= u64::MAX) by (nonlinear_arith)
                requires
                    v <= (u64::MAX - dv) / 10,
                    dv <= 9,
            ;
        }
        v = v * 10 + dv;
        i = i + 1;
    }
    assert(ds.take(i - start) =~= ds);
    Some(v)
}

/// `s` parsed as an unsigned integer no larger than `u64::MAX`.
pub fn parse_u64(s: &[char]) -> (r: Option<u64>)
    ensures
        match r {
            Some(v) => parse_unsigned(s@, u64::MAX as nat) == Some(v as nat),
            None => parse_unsigned(s@, u64::MAX as nat) is None,
        },
{
    let start: usize = if s.len() > 0 && s[0] == '+' {
        1
    } else {
        0
    };
    let ghost d = s@.skip(start as int);
    assert(start == 1 ==> d =~= s@.drop_first());
    assert(start == 0 ==> d =~= s@);
    if start >= s.len() {
        return None;
    }
    let mut i = start;
    while i < s.len()
        invariant
            start <= i <= s.len(),
            d == s@.skip(start as int),
            d == unsigned_digits(s@),
            forall|j: int| start <= j < i ==> is_digit(#[trigger] s@[j]),
        decreases s.len() - i,
    {
        let c = s[i];
        if !('0' <= c && c <= '9') {
            proof {
                assert(d[i - start] == c);
                assert(!is_digit(d[i - start]));
                assert(!all_digits(d));
            }
            return None;
        }
        i = i + 1;
    }
    assert forall|j: int| 0 <= j < d.len() implies is_digit(#[trigger] d[j]) by {
        assert(d[j] == s@[j + start]);
    }
    digits_to_u64(s, start)
}

/// `s` parsed as a `usize`, as `s.parse::<usize>()` does.
pub fn parse_usize(s: &[char]) -> (r: Option<usize>)
    ensures
        match r {
            Some(v) => parse_unsigned(s@, usize::MAX as nat) == Some(v as nat),
            None => parse_unsigned(s@, usize::MAX as nat) is None,
        },
{
    match parse_u64(s) {
        Some(v) => if v <= usize::MAX as u64 {
            Some(v as usize)
        } else {
            None
        },
        None => None,
    }
}

/// `s` parsed as a `u32`, as `s.parse::<u32>()` does.
pub fn parse_u32(s: &[char]) -> (r: Option<u32>)
    ensures
        match r {
            Some(v) => parse_unsigned(s@, u32::MAX as nat) == Some(v as nat),
            None => parse_unsigned(s@, u32::MAX as nat) is None,
        },
{
    match parse_u64(s) {
        Some(v) => if v <= u32::MAX as u64 {
            Some(v as u32)
        } else {
            None
        },
        None => None,
    }
}

/// The text `to_string` gives for a boolean.
pub open spec fn bool_text(b: bool) -> Seq<char> {
    if b {
        "true"@
    } else {
        "false"@
    }
}

/// What `s.parse::<bool>()` gives: only the exact words `true` and `false` parse.
pub open spec fn parse_bool_spec(s: Seq<char>) -> Option<bool> {
    if s == "true"@ {
        Some(true)
    } else if s == "false"@ {
        Some(false)
    } else {
        None
    }
}

/// A string holding the given text.
pub fn text(s: &str) -> (r: String)
    ensures
        r@ == s@,
{
    String::from_str(s)
}

/// The rendering of a boolean, as `to_string` gives it.
pub fn bool_to_string(b: bool) -> (r: String)
    ensures
        r@ == bool_text(b),
{
    if b {
        text("true")
    } else {
        text("false")
    }
}

/// `s` parsed as a boolean, as `s.parse::<bool>()` does.
pub fn parse_bool(s: &[char]) -> (r: Option<bool>)
    ensures
        r == parse_bool_spec(s@),
{
    if same_chars(s, chars_of("true").as_slice()) {
        Some(true)
    } else if same_chars(s, chars_of("false").as_slice()) {
        Some(false)
    } else {
        None
    }
}

/// Appends the text `t` to `s`.
pub fn append_str(s: &mut String, t: &str)
    ensures
        final(s)@ == old(s)@ + t@,
{
    s.append(t);
}

/// The digit characters are digits and denote their values.
pub proof fn lemma_digit_of(d: nat)
    requires
        d < 10,
    ensures
        is_digit(digit_of(d)),
        digit_value(digit_of(d)) == d,
        digit_of(d) != '+',
{
}

/// Reading back the decimal rendering of a number gives that number.
pub proof fn lemma_decimal_parses(n: nat)
    ensures
        decimal(n).len() > 0,
        all_digits(decimal(n)),
        digits_value(decimal(n)) == n,
        unsigned_digits(decimal(n)) == decimal(n),
        unsigned_value(decimal(n)) == Some(n),
    decreases n,
{
    if n < 10 {
        lemma_digit_of(n);
        assert(decimal(n).drop_last() =~= Seq::<char>::empty());
        assert(digits_value(Seq::<char>::empty()) == 0);
        assert(digits_value(decimal(n)) == digits_value(decimal(n).drop_last()) * 10
            + digit_value(decimal(n).last()));
    } else {
        lemma_decimal_parses(n / 10);
        lemma_digit_of(n % 10);
        let s = decimal(n / 10);
        let t = s.push(digit_of(n % 10));
        assert(t.drop_last() =~= s);
        assert(t.last() == digit_of(n % 10));
        assert(digits_value(t) == digits_value(s) * 10 + digit_value(t.last()));
        assert((n / 10) * 10 + n % 10 == n);
        assert forall|i: int| 0 <= i < t.len() implies is_digit(#[trigger] t[i]) by {
            if i < s.len() {
                assert(t[i] == s[i]);
            }
        }
        assert(t[0] == s[0]);
    }
    assert(is_digit(decimal(n)[0]));
}

/// The number of bytes of `c` in UTF-8.
pub open spec fn utf8_width(c: char) -> nat {
    let u = c as u32;
    if u < 0x80 {
        1
    } else if u < 0x800 {
        2
    } else if u < 0x10000 {
        3
    } else {
        4
    }
}

/// The number of bytes of `s` in UTF-8, which `str::len` reports.
pub open spec fn byte_len(s: Seq<char>) -> nat
    decreases s.len(),
{
    if s.len() == 0 {
        0
    } else {
        byte_len(s.drop_last()) + utf8_width(s.last())
    }
}

/// The bytes of a sequence are the bytes of its two parts.
pub proof fn lemma_byte_len_split(s: Seq<char>, k: int)
    requires
        0 <= k <= s.len(),
    ensures
        byte_len(s) == byte_len(s.take(k)) + byte_len(s.skip(k)),
    decreases s.len(),
{
    if k == s.len() {
        assert(s.take(k) =~= s);
        assert(s.skip(k) =~= Seq::<char>::empty());
    } else {
        lemma_byte_len_split(s.drop_last(), k);
        assert(s.drop_last().take(k) =~= s.take(k));
        assert(s.skip(k).drop_last() =~= s.drop_last().skip(k));
        assert(s.skip(k).last() == s.last());
    }
}

/// The number of UTF-8 bytes of a character.
pub fn char_width(c: char) -> (r: usize)
    ensures
        r == utf8_width(c),
{
    let u = c as u32;
    if u < 0x80 {
        1
    } else if u < 0x800 {
        2
    } else if u < 0x10000 {
        3
    } else {
        4
    }
}

/// The number of UTF-8 bytes of `s[0..k]`.
pub fn prefix_bytes(s: &[char], k: usize) -> (r: usize)
    requires
        k <= s.len(),
        4 * s.len() <= usize::MAX,
    ensures
        r == byte_len(s@.take(k as int)),
        r <= 4 * k,
{
    let mut n: usize = 0;
    let mut i: usize = 0;
    assert(s@.take(0) =~= Seq::<char>::empty());
    while i < k
        invariant
            i <= k <= s.len(),
            4 * s.len() <= usize::MAX,
            n == byte_len(s@.take(i as int)),
            n <= 4 * i,
        decreases k - i,
    {
        assert(s@.take(i + 1).drop_last() =~= s@.take(i as int));
        n = n + char_width(s[i]);
        i = i + 1;
    }
    n
}

/// The pieces joined, with `sep` between consecutive pieces.
pub open spec fn join(pieces: Seq<Seq<char>>, sep: Seq<char>) -> Seq<char>
    decreases pieces.len(),
{
    if pieces.len() == 0 {
        seq![]
    } else if pieces.len() == 1 {
        pieces[0]
    } else {
        join(pieces.drop_last(), sep) + sep + pieces.last()
    }
}

/// The pieces joined, with `sep` between consecutive pieces, as `join` on a slice does.
pub fn join_chars(pieces: &[Vec<char>], sep: &[char]) -> (r: Vec<char>)
    ensures
        r@ == join(views(pieces@), sep@),
{
    let mut r: Vec<char> = Vec::new();
    let mut i: usize = 0;
    assert(views(pieces@).take(0) =~= Seq::<Seq<char>>::empty());
    while i < pieces.len()
        invariant
            i <= pieces.len(),
            r@ == join(views(pieces@).take(i as int), sep@),
        decreases pieces.len() - i,
    {
        let ghost old_r = r@;
        if i > 0 {
            push_all(&mut r, sep);
        }
        push_all(&mut r, pieces[i].as_slice());
        proof {
            let t = views(pieces@).take(i + 1);
            assert(t.drop_last() =~= views(pieces@).take(i as int));
            assert(t.last() == pieces@[i as int]@);
            if i == 0 {
                assert(t.len() == 1);
            }
        }
        i = i + 1;
    }
    assert(views(pieces@).take(pieces.len() as int) =~= views(pieces@));
    r
}

/// The total number of characters in a list of lines.
pub open spec fn total_len(lines: Seq<Seq<char>>) -> nat
    decreases lines.len(),
{
    if lines.len() == 0 {
        0
    } else {
        total_len(lines.drop_last()) + lines.last().len()
    }
}

/// A line's length is part of the total.
pub proof fn lemma_total_len_part(lines: Seq<Seq<char>>, i: int)
    requires
        0 <= i < lines.len(),
    ensures
        total_len(lines.take(i)) + lines[i].len() <= total_len(lines),
        total_len(lines.take(i + 1)) == total_len(lines.take(i)) + lines[i].len(),
    decreases lines.len(),
{
    assert(lines.take(i + 1).drop_last() =~= lines.take(i));
    if i + 1 < lines.len() {
        lemma_total_len_part(lines.drop_last(), i);
        assert(lines.drop_last().take(i) =~= lines.take(i));
        assert(lines.drop_last().take(i + 1) =~= lines.take(i + 1));
    } else {
        assert(lines.take(i + 1) =~= lines);
    }
}

/// The characters of each string.
pub fn chars_of_all(v: &[&str]) -> (r: Vec<Vec<char>>)
    ensures
        views(r@) == v@.map_values(|s: &str| s@),
{
    let mut r: Vec<Vec<char>> = Vec::new();
    let mut i: usize = 0;
    while i < v.len()
        invariant
            i <= v.len(),
            views(r@) == v@.take(i as int).map_values(|s: &str| s@),
        decreases v.len() - i,
    {
        let ghost old_r = views(r@);
        r.push(chars_of(v[i]));
        assert(views(r@) =~= old_r.push(v@[i as int]@));
        assert(v@.take(i + 1).map_values(|s: &str| s@) =~= v@.take(i as int).map_values(
            |s: &str| s@,
        ).push(v@[i as int]@));
        i = i + 1;
    }
    assert(v@.take(v.len() as int) =~= v@);
    r
}

/// A string for each character sequence.
pub fn strings_of(v: &[Vec<char>]) -> (r: Vec<String>)
    ensures
        r@.map_values(|s: String| s@) == views(v@),
{
    let mut r: Vec<String> = Vec::new();
    let mut i: usize = 0;
    while i < v.len()
        invariant
            i <= v.len(),
            r@.map_values(|s: String| s@) == views(v@.take(i as int)),
        decreases v.len() - i,
    {
        let ghost old_r = r@.map_values(|s: String| s@);
        r.push(string_of(v[i].as_slice()));
        assert(r@.map_values(|s: String| s@) =~= old_r.push(v@[i as int]@));
        assert(views(v@.take(i + 1)) =~= views(v@.take(i as int)).push(v@[i as int]@));
        i = i + 1;
    }
    assert(v@.take(v.len() as int) =~= v@);
    r
}

/// The index of the first `c` in `s`, or `s.len()` when there is none.
pub fn position_of(s: &[char], c: char) -> (r: usize)
    ensures
        r == char_pos(s@, c),
        r <= s.len(),
{
    let mut i: usize = 0;
    while i < s.len()
        invariant
            i <= s.len(),
            forall|j: int| 0 <= j < i ==> s@[j] != c,
        decreases s.len() - i,
    {
        if s[i] == c {
            proof {
                lemma_char_pos_at(s@, c, i as int);
            }
            return i;
        }
        i = i + 1;
    }
    proof {
        lemma_char_pos_at(s@, c, i as int);
    }
    i
}

/// Prepending a line adds its length to the total.
pub proof fn lemma_total_len_prepend(x: Seq<char>, rest: Seq<Seq<char>>)
    ensures
        total_len(seq![x] + rest) == x.len() + total_len(rest),
    decreases rest.len(),
{
    let whole = seq![x] + rest;
    if rest.len() > 0 {
        lemma_total_len_prepend(x, rest.drop_last());
        assert(whole.drop_last() =~= seq![x] + rest.drop_last());
        assert(whole.last() == rest.last());
        assert(total_len(whole) == total_len(whole.drop_last()) + whole.last().len());
        assert(total_len(rest) == total_len(rest.drop_last()) + rest.last().len());
    } else {
        assert(whole =~= seq![x]);
        assert(whole.drop_last() =~= Seq::<Seq<char>>::empty());
        assert(total_len(Seq::<Seq<char>>::empty()) == 0);
        assert(total_len(whole) == total_len(whole.drop_last()) + whole.last().len());
        assert(total_len(rest) == 0);
    }
}

/// A line without a newline, followed by a newline, is the first line of the text.
pub proof fn lemma_lines_cons(x: Seq<char>, rest: Seq<char>)
    requires
        forall|j: int| 0 <= j < x.len() ==> x[j] != '\n',
    ensures
        lines_of(x + seq!['\n'] + rest) == seq![strip_cr(x)] + lines_of(rest),
{
    let s = x + seq!['\n'] + rest;
    lemma_char_pos_at(s, '\n', x.len() as int);
    assert(s.take(x.len() as int) =~= x);
    assert(s.skip(x.len() as int + 1) =~= rest);
}

/// The lines of a text that ends with a newline come before those of what follows it.
pub proof fn lemma_lines_after_newline(c: Seq<char>, d: Seq<char>)
    requires
        c.len() > 0,
        c.last() == '\n',
    ensures
        lines_of(c + d) == lines_of(c) + lines_of(d),
    decreases c.len(),
{
    let i = char_pos(c, '\n');
    lemma_char_pos(c, '\n');
    let s = c + d;
    assert forall|j: int| 0 <= j < i implies s[j] != '\n' by {
        assert(s[j] == c[j]);
    }
    lemma_char_pos_at(s, '\n', i);
    assert(s.take(i) =~= c.take(i));
    assert(s.skip(i + 1) =~= c.skip(i + 1) + d);
    if i + 1 == c.len() {
        assert(c.skip(i + 1) =~= Seq::<char>::empty());
        assert(c.skip(i + 1) + d =~= d);
        assert(lines_of(c.skip(i + 1)) =~= Seq::<Seq<char>>::empty());
        assert(lines_of(c) == seq![strip_cr(c.take(i))] + lines_of(c.skip(i + 1)));
        assert(lines_of(c) =~= seq![strip_cr(c.take(i))]);
    } else {
        let r = c.skip(i + 1);
        assert(r.last() == c.last());
        lemma_lines_after_newline(r, d);
        assert(lines_of(s) =~= seq![strip_cr(c.take(i))] + (lines_of(r) + lines_of(d)));
    }
}

/// The lines of a text with an unfinished last line (one that ends neither in a newline nor
/// in a carriage return) come before those after a newline that follows it.
pub proof fn lemma_lines_before_newline(c: Seq<char>, e: Seq<char>)
    requires
        c.len() > 0,
        c.last() != '\n',
        c.last() != '\r',
    ensures
        lines_of(c + seq!['\n'] + e) == lines_of(c) + lines_of(e),
    decreases c.len(),
{
    let i = char_pos(c, '\n');
    lemma_char_pos(c, '\n');
    if i >= c.len() {
        lemma_lines_cons(c, e);
        assert(strip_cr(c) == c);
        assert(lines_of(c) =~= seq![c]);
    } else {
        let s = c + seq!['\n'] + e;
        assert forall|j: int| 0 <= j < i implies s[j] != '\n' by {
            assert(s[j] == c[j]);
        }
        lemma_char_pos_at(s, '\n', i);
        let r = c.skip(i + 1);
        assert(s.take(i) =~= c.take(i));
        assert(s.skip(i + 1) =~= r + seq!['\n'] + e);
        assert(r.len() > 0);
        assert(r.last() == c.last());
        lemma_lines_before_newline(r, e);
        assert(lines_of(s) =~= seq![strip_cr(c.take(i))] + (lines_of(r) + lines_of(e)));
    }
}

/// A piece that occurs in a line of a text occurs in the text.
pub proof fn lemma_sub_of_line(s: Seq<char>, p: Seq<char>, k: int)
    requires
        0 <= k < lines_of(s).len(),
        has_sub(lines_of(s)[k], p),
    ensures
        has_sub(s, p),
    decreases s.len(),
{
    let i = char_pos(s, '\n');
    lemma_char_pos(s, '\n');
    if i >= s.len() {
        assert(lines_of(s)[k] == s);
    } else {
        let rest = s.skip(i + 1);
        if k == 0 {
            let x = strip_cr(s.take(i));
            assert(lines_of(s)[0] == x);
            let a = choose|a: int| occurs_at(x, p, a);
            assert(x =~= s.take(x.len() as int));
            assert(s.subrange(a, a + p.len()) =~= x.subrange(a, a + p.len()));
            assert(occurs_at(s, p, a));
        } else {
            assert(lines_of(s)[k] == lines_of(rest)[k - 1]);
            lemma_sub_of_line(rest, p, k - 1);
            let a = choose|a: int| occurs_at(rest, p, a);
            assert(s.subrange(a + i + 1, a + i + 1 + p.len()) =~= rest.subrange(a, a + p.len()));
            assert(occurs_at(s, p, a + i + 1));
        }
    }
}

/// The lines of a text are no more, and no longer in all, than its characters.
pub proof fn lemma_lines_bounds(s: Seq<char>)
    ensures
        lines_of(s).len() <= s.len(),
        total_len(lines_of(s)) <= s.len(),
        forall|i: int| 0 <= i < lines_of(s).len() ==> (#[trigger] lines_of(s)[i]).len() <= s.len(),
    decreases s.len(),
{
    if s.len() > 0 {
        let i = char_pos(s, '\n');
        lemma_char_pos(s, '\n');
        if i < s.len() {
            let rest = s.skip(i + 1);
            lemma_lines_bounds(rest);
            let x = strip_cr(s.take(i));
            lemma_total_len_prepend(x, lines_of(rest));
            assert(lines_of(s) == seq![x] + lines_of(rest));
            assert(x.len() <= i);
            assert forall|k: int| 0 <= k < lines_of(s).len() implies (#[trigger] lines_of(
                s,
            )[k]).len() <= s.len() by {
                if k > 0 {
                    assert(lines_of(s)[k] == lines_of(rest)[k - 1]);
                }
            }
            assert(rest.len() + i + 1 == s.len());
        } else {
            assert(lines_of(s) == seq![s]);
            assert(seq![s].drop_last() =~= Seq::<Seq<char>>::empty());
            assert(total_len(Seq::<Seq<char>>::empty()) == 0);
            assert(total_len(seq![s]) == total_len(seq![s].drop_last()) + seq![s].last().len());
        }
    } else {
        assert(lines_of(s) =~= Seq::<Seq<char>>::empty());
        assert(total_len(lines_of(s)) == 0);
    }
}

/// No character of `w` occurs in `q`.
pub open spec fn disjoint_chars(w: Seq<char>, q: Seq<char>) -> bool {
    forall|i: int, j: int| 0 <= i < w.len() && 0 <= j < q.len() ==> w[i] != q[j]
}

/// When the replaced text starts with characters none of which are in the replacement,
/// the text before the replacement starts with them too.
proof fn lemma_replace_keeps_prefix(t: Seq<char>, p: Seq<char>, q: Seq<char>, w: Seq<char>)
    requires
        p.len() > 0,
        q.len() > 0,
        disjoint_chars(w, q),
        starts_with(replace_all(t, p, q), w),
    ensures
        starts_with(t, w),
    decreases t.len(),
{
    let r = replace_all(t, p, q);
    if w.len() == 0 {
        assert(t.subrange(0, 0) =~= w);
    } else if t.len() == 0 {
        assert(r.len() == 0);
    } else if starts_with(t, p) {
        assert(r[0] == q[0]);
        assert(r.subrange(0, w.len() as int)[0] == w[0]);
        assert(w[0] != q[0]);
    } else {
        let rest = replace_all(t.drop_first(), p, q);
        assert(r == seq![t[0]] + rest);
        assert(r.subrange(0, w.len() as int)[0] == w[0]);
        assert(rest.subrange(0, w.len() - 1) =~= w.drop_first()) by {
            assert forall|k: int| 0 <= k < w.len() - 1 implies rest.subrange(0, w.len() - 1)[k]
                == w.drop_first()[k] by {
                assert(r.subrange(0, w.len() as int)[k + 1] == w[k + 1]);
            }
        }
        lemma_replace_keeps_prefix(t.drop_first(), p, q, w.drop_first());
        assert forall|k: int| 0 <= k < w.len() implies t.subrange(0, w.len() as int)[k] == w[k] by {
            if k > 0 {
                assert(t.drop_first().subrange(0, w.len() - 1)[k - 1] == w.drop_first()[k - 1]);
            }
        }
        assert(t.subrange(0, w.len() as int) =~= w);
    }
}

/// Replacing every occurrence of `p` by a non-empty `q` that shares no character with `p`
/// leaves no occurrence of `p`.
pub proof fn lemma_replace_removes(s: Seq<char>, p: Seq<char>, q: Seq<char>)
    requires
        p.len() > 0,
        q.len() > 0,
        disjoint_chars(p, q),
    ensures
        !has_sub(replace_all(s, p, q), p),
    decreases s.len(),
{
    let r = replace_all(s, p, q);
    if s.len() == 0 {
        assert forall|i: int| !occurs_at(r, p, i) by {}
    } else if starts_with(s, p) {
        let rest = replace_all(s.skip(p.len() as int), p, q);
        lemma_replace_removes(s.skip(p.len() as int), p, q);
        assert(r == q + rest);
        assert forall|i: int| !occurs_at(r, p, i) by {
            if occurs_at(r, p, i) {
                if i < q.len() {
                    assert(r.subrange(i, i + p.len())[0] == p[0]);
                    assert(r[i] == q[i]);
                } else {
                    assert(rest.subrange(i - q.len(), i - q.len() + p.len()) =~= r.subrange(
                        i,
                        i + p.len(),
                    ));
                    assert(occurs_at(rest, p, i - q.len()));
                }
            }
        }
    } else {
        let rest = replace_all(s.drop_first(), p, q);
        lemma_replace_removes(s.drop_first(), p, q);
        assert(r == seq![s[0]] + rest);
        assert forall|i: int| !occurs_at(r, p, i) by {
            if occurs_at(r, p, i) {
                if i > 0 {
                    assert(rest.subrange(i - 1, i - 1 + p.len()) =~= r.subrange(i, i + p.len()));
                    assert(occurs_at(rest, p, i - 1));
                } else {
                    assert(rest.subrange(0, p.len() - 1) =~= p.drop_first()) by {
                        assert forall|k: int| 0 <= k < p.len() - 1 implies rest.subrange(
                            0,
                            p.len() - 1,
                        )[k] == p.drop_first()[k] by {
                            assert(r.subrange(0, p.len() as int)[k + 1] == p[k + 1]);
                        }
                    }
                    assert(disjoint_chars(p.drop_first(), q)) by {
                        assert forall|a: int, b: int|
                            0 <= a < p.drop_first().len() && 0 <= b < q.len() implies p.drop_first()[a]
                            != q[b] by {
                            assert(p.drop_first()[a] == p[a + 1]);
                        }
                    }
                    lemma_replace_keeps_prefix(s.drop_first(), p, q, p.drop_first());
                    assert(r.subrange(0, p.len() as int)[0] == p[0]);
                    assert forall|k: int| 0 <= k < p.len() implies s.subrange(0, p.len() as int)[k]
                        == p[k] by {
                        if k > 0 {
                            assert(s.drop_first().subrange(0, p.len() - 1)[k - 1]
                                == p.drop_first()[k - 1]);
                        }
                    }
                    assert(s.subrange(0, p.len() as int) =~= p);
                }
            }
        }
    }
}

/// The upper-case form of a text, as `str::to_uppercase` gives it (Unicode case mapping).
pub uninterp spec fn upper(s: Seq<char>) -> Seq<char>;

/// `str::to_uppercase`: the text with every character mapped to its upper case. The contract
/// names the result by `upper` of the argument's characters, and states nothing more of it.
#[verifier::external_body]
pub(crate) fn to_upper(s: &str) -> (r: String)
    ensures
        r@ == upper(s@),
{
    s.to_uppercase()
}

/// The characters of each string.
pub open spec fn strs(v: Seq<String>) -> Seq<Seq<char>> {
    v.map_values(|s: String| s@)
}

/// The characters of an optional string.
pub open spec fn opt_str(o: Option<String>) -> Option<Seq<char>> {
    match o {
        Some(s) => Some(s@),
        None => None,
    }
}

/// What precedes the first `p` in `s` (all of `s` when there is none): the first piece of
/// `s.split(p)`.
pub open spec fn before_first(s: Seq<char>, p: Seq<char>) -> Seq<char> {
    match index_of(s, p) {
        Some(i) => s.take(i),
        None => s,
    }
}

/// The second piece of `s.split(p)`: what lies between the first and the second `p`, or
/// `None` when `p` does not occur.
pub open spec fn second_piece(s: Seq<char>, p: Seq<char>) -> Option<Seq<char>> {
    match index_of(s, p) {
        Some(i) => Some(before_first(s.skip(i + p.len()), p)),
        None => None,
    }
}

/// The first piece of `s.split(p)`.
pub fn head_before(s: &[char], p: &[char]) -> (r: Vec<char>)
    ensures
        r@ == before_first(s@, p@),
{
    match find(s, p) {
        Some(i) => slice_copy(s, 0, i),
        None => slice_copy(s, 0, s.len()),
    }
}

/// The second piece of `s.split(p)`, if `p` occurs.
pub fn split_second(s: &[char], p: &[char]) -> (r: Option<Vec<char>>)
    ensures
        match r {
            Some(x) => second_piece(s@, p@) == Some(x@),
            None => second_piece(s@, p@) is None,
        },
{
    match find(s, p) {
        Some(i) => {
            assert(occurs_at(s@, p@, i as int));
            assert(i + p.len() <= s.len());
            let rest = slice_copy(s, i + p.len(), s.len());
            assert(rest@ =~= s@.skip(i + p.len()));
            Some(head_before(rest.as_slice(), p))
        },
        None => None,
    }
}

/// The lower-case form of a text, as `str::to_lowercase` gives it (Unicode case mapping).
pub uninterp spec fn lower(s: Seq<char>) -> Seq<char>;

/// `str::to_lowercase`: the text with every character mapped to its lower case. The contract
/// names the result by `lower` of the argument's characters, and states nothing more of it.
#[verifier::external_body]
pub(crate) fn to_lower(s: &str) -> (r: String)
    ensures
        r@ == lower(s@),
{
    s.to_lowercase()
}

} // verus!
