//! Character-level text primitives shared by the extractors, the classifier
//! and the relevance scorer.  Text is handled as `Seq<char>` in contracts and
//! as `Vec<char>` in executable code.
use vstd::prelude::*;

verus! {

/// `n` occurs in `h` starting at position `i`.
pub open spec fn occurs_at(h: Seq<char>, n: Seq<char>, i: int) -> bool {
    0 <= i && i + n.len() <= h.len() && h.subrange(i, i + n.len()) == n
}

/// `h` contains `n` as a contiguous piece.
pub open spec fn infix(h: Seq<char>, n: Seq<char>) -> bool {
    exists|i: int| occurs_at(h, n, i)
}

pub open spec fn begins(h: Seq<char>, n: Seq<char>) -> bool {
    n.len() <= h.len() && h.subrange(0, n.len() as int) == n
}

pub open spec fn finishes(h: Seq<char>, n: Seq<char>) -> bool {
    n.len() <= h.len() && h.subrange(h.len() - n.len(), h.len() as int) == n
}

/// White space as `char::is_whitespace` decides it: the characters with
/// the Unicode `White_Space` property.
pub open spec fn is_ws(c: char) -> bool {
    let u = c as u32;
    (0x9 <= u <= 0xD) || u == 0x20 || u == 0x85 || u == 0xA0 || u == 0x1680 || (0x2000 <= u
        <= 0x200A) || u == 0x2028 || u == 0x2029 || u == 0x202F || u == 0x205F || u == 0x3000
}

/// Lower-case form of a text, as `str::to_lowercase` computes it.
pub uninterp spec fn lower_of(s: Seq<char>) -> Seq<char>;

pub open spec fn trim_start(s: Seq<char>) -> Seq<char>
    decreases s.len(),
{
    if s.len() > 0 && is_ws(s[0]) {
        trim_start(s.drop_first())
    } else {
        s
    }
}

pub open spec fn trim_end(s: Seq<char>) -> Seq<char>
    decreases s.len(),
{
    if s.len() > 0 && is_ws(s.last()) {
        trim_end(s.drop_last())
    } else {
        s
    }
}

pub open spec fn trim(s: Seq<char>) -> Seq<char> {
    trim_end(trim_start(s))
}

/// Number of non-overlapping occurrences of a non-empty `n` in `h` at or
/// after position `i`, scanning from the left.
pub open spec fn count_from(h: Seq<char>, n: Seq<char>, i: int) -> nat
    recommends
        n.len() > 0,
    decreases h.len() - i,
{
    if n.len() == 0 || i < 0 || i + n.len() > h.len() {
        0
    } else if occurs_at(h, n, i) {
        1 + count_from(h, n, i + n.len())
    } else {
        count_from(h, n, i + 1)
    }
}

/// What `str::matches(n).count()` returns: an empty pattern matches at
/// every character boundary.
pub open spec fn count_matches(h: Seq<char>, n: Seq<char>) -> nat {
    if n.len() == 0 {
        h.len() + 1
    } else {
        count_from(h, n, 0)
    }
}

/// State of a left-to-right line split after `k` characters: the finished
/// lines and the line being read.
pub open spec fn line_scan(s: Seq<char>, k: nat) -> (Seq<Seq<char>>, Seq<char>)
    decreases k,
{
    if k == 0 || k > s.len() {
        (Seq::empty(), Seq::empty())
    } else {
        let (done, cur) = line_scan(s, (k - 1) as nat);
        if s[k - 1] == '\n' {
            (done.push(strip_cr(cur)), Seq::empty())
        } else {
            (done, cur.push(s[k - 1]))
        }
    }
}

/// A line ended by `\n` loses one carriage return before it.
pub open spec fn strip_cr(l: Seq<char>) -> Seq<char> {
    if l.len() > 0 && l.last() == '\r' {
        l.drop_last()
    } else {
        l
    }
}

/// The lines of a text as `str::lines` yields them.
pub open spec fn lines_of(s: Seq<char>) -> Seq<Seq<char>> {
    let (done, cur) = line_scan(s, s.len());
    if cur.len() > 0 {
        done.push(cur)
    } else {
        done
    }
}

/// The character sequences held by a sequence of vectors.
pub open spec fn views(v: Seq<Vec<char>>) -> Seq<Seq<char>> {
    v.map_values(|x: Vec<char>| x@)
}

/// Whether a character is white space.
pub fn char_is_ws(c: char) -> (r: bool)
    ensures
        r == is_ws(c),
{
    let u = c as u32;
    (0x9 <= u && u <= 0xD) || u == 0x20 || u == 0x85 || u == 0xA0 || u == 0x1680 || (0x2000 <= u
        && u <= 0x200A) || u == 0x2028 || u == 0x2029 || u == 0x202F || u == 0x205F || u == 0x3000
}

/// Relies on `String::push`: appends one character.
#[verifier::external_body]
fn push_char(s: &mut String, c: char)
    ensures
        final(s)@ == old(s)@.push(c),
{
    s.push(c)
}

/// Relies on `str::to_lowercase`: the result depends on the characters
/// alone, and an empty text stays empty.
#[verifier::external_body]
pub(crate) fn lowercase(s: &str) -> (r: String)
    ensures
        r@ == lower_of(s@),
        s@.len() == 0 ==> r@.len() == 0,
{
    s.to_lowercase()
}

/// The characters of a text, in order.
pub fn chars_of(s: &str) -> (r: Vec<char>)
    ensures
        r@ == s@,
{
    let mut v: Vec<char> = Vec::new();
    for c in it: s.chars()
        invariant
            v@ == it.seq().subrange(0, it.index() as int),
            it.seq() == s@,
    {
        v.push(c);
    }
    v
}

/// A `String` holding the given characters.
pub fn string_of(v: &Vec<char>) -> (r: String)
    ensures
        r@ == v@,
{
    let mut s = String::new();
    let mut i: usize = 0;
    while i < v.len()
        invariant
            i <= v.len(),
            s@ == v@.subrange(0, i as int),
        decreases v.len() - i,
    {
        push_char(&mut s, v[i]);
        i = i + 1;
        assert(s@ =~= v@.subrange(0, i as int));
    }
    assert(s@ =~= v@);
    s
}

/// Characters `a..b` of `v` as a new vector.
pub fn slice_of(v: &Vec<char>, a: usize, b: usize) -> (r: Vec<char>)
    requires
        a <= b <= v.len(),
    ensures
        r@ == v@.subrange(a as int, b as int),
{
    let mut out: Vec<char> = Vec::new();
    let mut i: usize = a;
    while i < b
        invariant
            a <= i <= b <= v.len(),
            out@ == v@.subrange(a as int, i as int),
        decreases b - i,
    {
        out.push(v[i]);
        i = i + 1;
        assert(out@ =~= v@.subrange(a as int, i as int));
    }
    out
}

/// Appends all characters of `w` to `v`.
pub fn append_chars(v: &mut Vec<char>, w: &Vec<char>)
    ensures
        final(v)@ == old(v)@ + w@,
{
    let mut i: usize = 0;
    while i < w.len()
        invariant
            i <= w.len(),
            v@ == old(v)@ + w@.subrange(0, i as int),
        decreases w.len() - i,
    {
        v.push(w[i]);
        i = i + 1;
        assert(v@ =~= old(v)@ + w@.subrange(0, i as int));
    }
    assert(w@.subrange(0, w.len() as int) =~= w@);
}

/// Whether `n` occurs in `h` at position `i`.
pub fn matches_at(h: &Vec<char>, n: &Vec<char>, i: usize) -> (r: bool)
    ensures
        r == occurs_at(h@, n@, i as int),
{
    if i > h.len() || n.len() > h.len() - i {
        return false;
    }
    let mut j: usize = 0;
    while j < n.len()
        invariant
            i + n.len() <= h.len(),
            j <= n.len(),
            forall|k: int| 0 <= k < j ==> h@[i + k] == n@[k],
        decreases n.len() - j,
    {
        if h[i + j] != n[j] {
            assert(h@.subrange(i as int, i + n.len())[j as int] != n@[j as int]);
            return false;
        }
        j = j + 1;
    }
    assert(h@.subrange(i as int, i + n.len()) =~= n@);
    true
}

/// Whether `n` occurs in `h` at or after position `from`.
pub fn contains_from(h: &Vec<char>, n: &Vec<char>, from: usize) -> (r: bool)
    requires
        from <= h.len(),
    ensures
        r == infix(h@.subrange(from as int, h.len() as int), n@),
{
    let ghost t = h@.subrange(from as int, h.len() as int);
    if n.len() > h.len() - from {
        assert forall|i: int| !occurs_at(t, n@, i) by {}
        return false;
    }
    if n.len() == 0 {
        assert(t.subrange(0, 0) =~= n@);
        assert(occurs_at(t, n@, 0));
        return true;
    }
    let mut i: usize = from;
    while i <= h.len() - n.len()
        invariant
            from <= i <= h.len(),
            0 < n.len() <= h.len(),
            t == h@.subrange(from as int, h.len() as int),
            forall|k: int| from <= k < i ==> !occurs_at(h@, n@, k),
        decreases h.len() - i,
    {
        if matches_at(h, n, i) {
            assert(t.subrange(i - from, i - from + n.len()) =~= h@.subrange(
                i as int,
                i + n.len(),
            ));
            assert(occurs_at(t, n@, i - from));
            return true;
        }
        i = i + 1;
    }
    assert forall|k: int| !occurs_at(t, n@, k) by {
        if occurs_at(t, n@, k) {
            assert(t.subrange(k, k + n.len()) =~= h@.subrange(from + k, from + k + n.len()));
            assert(occurs_at(h@, n@, from + k));
        }
    }
    false
}

/// Whether `n` occurs anywhere in `h`.
pub fn contains(h: &Vec<char>, n: &Vec<char>) -> (r: bool)
    ensures
        r == infix(h@, n@),
{
    let r = contains_from(h, n, 0);
    assert(h@.subrange(0, h.len() as int) =~= h@);
    r
}

/// Whether `h` contains the text `n`.
pub fn contains_str(h: &Vec<char>, n: &str) -> (r: bool)
    ensures
        r == infix(h@, n@),
{
    let nv = chars_of(n);
    contains(h, &nv)
}

/// Whether `h` begins with the text `n`.
pub fn starts_with_str(h: &Vec<char>, n: &str) -> (r: bool)
    ensures
        r == begins(h@, n@),
{
    let nv = chars_of(n);
    let r = matches_at(h, &nv, 0);
    r
}

/// Whether `h` ends with the text `n`.
pub fn ends_with_str(h: &Vec<char>, n: &str) -> (r: bool)
    ensures
        r == finishes(h@, n@),
{
    let nv = chars_of(n);
    if nv.len() > h.len() {
        return false;
    }
    matches_at(h, &nv, h.len() - nv.len())
}

/// `h` with leading and trailing white space removed.
pub fn trimmed(h: &Vec<char>) -> (r: Vec<char>)
    ensures
        r@ == trim(h@),
{
    let mut i: usize = 0;
    assert(h@.subrange(0, h.len() as int) =~= h@);
    while i < h.len() && char_is_ws(h[i])
        invariant
            i <= h.len(),
            trim_start(h@) == trim_start(h@.subrange(i as int, h.len() as int)),
        decreases h.len() - i,
    {
        assert(h@.subrange(i as int, h.len() as int).drop_first() =~= h@.subrange(
            i + 1,
            h.len() as int,
        ));
        i = i + 1;
    }
    let ghost s = h@.subrange(i as int, h.len() as int);
    assert(trim_start(s) == s);
    let mut j: usize = h.len();
    while j > i && char_is_ws(h[j - 1])
        invariant
            i <= j <= h.len(),
            s == h@.subrange(i as int, h.len() as int),
            trim_end(s) == trim_end(h@.subrange(i as int, j as int)),
        decreases j,
    {
        assert(h@.subrange(i as int, j as int).drop_last() =~= h@.subrange(
            i as int,
            j - 1,
        ));
        j = j - 1;
    }
    slice_of(h, i, j)
}

/// The number of non-overlapping occurrences of `n` in `h`.
pub fn count_occurrences(h: &Vec<char>, n: &Vec<char>) -> (r: usize)
    requires
        n.len() > 0 || h.len() < usize::MAX,
    ensures
        r == count_matches(h@, n@),
{
    if n.len() == 0 {
        return h.len() + 1;
    }
    let mut c: usize = 0;
    let mut i: usize = 0;
    while n.len() <= h.len() - i
        invariant
            n.len() > 0,
            i <= h.len(),
            c + count_from(h@, n@, i as int) == count_from(h@, n@, 0),
            c <= i,
        decreases h.len() - i,
    {
        if matches_at(h, n, i) {
            c = c + 1;
            i = i + n.len();
        } else {
            i = i + 1;
        }
    }
    c
}

/// The lines of `s`, split as `str::lines` splits them.
pub fn split_lines(s: &Vec<char>) -> (r: Vec<Vec<char>>)
    ensures
        views(r@) == lines_of(s@),
{
    let mut done: Vec<Vec<char>> = Vec::new();
    let mut cur: Vec<char> = Vec::new();
    let mut k: usize = 0;
    while k < s.len()
        invariant
            k <= s.len(),
            (views(done@), cur@) == line_scan(s@, k as nat),
        decreases s.len() - k,
    {
        if s[k] == '\n' {
            let mut line = cur;
            if line.len() > 0 && line[line.len() - 1] == '\r' {
                line.pop();
            }
            done.push(line);
            cur = Vec::new();
        } else {
            cur.push(s[k]);
        }
        k = k + 1;
        assert(views(done@) =~= line_scan(s@, k as nat).0);
        assert(cur@ =~= line_scan(s@, k as nat).1);
    }
    if cur.len() > 0 {
        done.push(cur);
    }
    assert(views(done@) =~= lines_of(s@));
    done
}

/// The part of `s` before the first occurrence of a non-empty `p`, or all
/// of `s` when `p` does not occur (the first piece of `str::split`).
pub open spec fn take_before(s: Seq<char>, p: Seq<char>) -> Seq<char>
    decreases s.len(),
{
    if s.len() == 0 || (p.len() > 0 && begins(s, p)) {
        Seq::empty()
    } else {
        seq![s[0]] + take_before(s.drop_first(), p)
    }
}

/// `s` with every leading repetition of a non-empty `p` removed.
pub open spec fn strip_prefixes(s: Seq<char>, p: Seq<char>) -> Seq<char>
    decreases s.len(),
{
    if p.len() > 0 && begins(s, p) {
        strip_prefixes(s.subrange(p.len() as int, s.len() as int), p)
    } else {
        s
    }
}

/// `s` with every trailing repetition of a non-empty `p` removed.
pub open spec fn strip_suffixes(s: Seq<char>, p: Seq<char>) -> Seq<char>
    decreases s.len(),
{
    if p.len() > 0 && finishes(s, p) {
        strip_suffixes(s.subrange(0, s.len() - p.len()), p)
    } else {
        s
    }
}

/// State of a left-to-right split on white space after `k` characters.
pub open spec fn word_scan(s: Seq<char>, k: nat) -> (Seq<Seq<char>>, Seq<char>)
    decreases k,
{
    if k == 0 || k > s.len() {
        (Seq::empty(), Seq::empty())
    } else {
        let (done, cur) = word_scan(s, (k - 1) as nat);
        if is_ws(s[k - 1]) {
            if cur.len() > 0 {
                (done.push(cur), Seq::empty())
            } else {
                (done, cur)
            }
        } else {
            (done, cur.push(s[k - 1]))
        }
    }
}

/// The words of a text as `str::split_whitespace` yields them.
pub open spec fn words_of(s: Seq<char>) -> Seq<Seq<char>> {
    let (done, cur) = word_scan(s, s.len());
    if cur.len() > 0 {
        done.push(cur)
    } else {
        done
    }
}

/// The part of `s` before the first occurrence of the text `p`.
pub fn before_str(s: &Vec<char>, p: &str) -> (r: Vec<char>)
    ensures
        r@ == take_before(s@, p@),
{
    let pv = chars_of(p);
    let mut i: usize = 0;
    assert(s@.subrange(0, s.len() as int) =~= s@);
    assert(s@.subrange(0, 0) + take_before(s@, p@) =~= take_before(s@, p@));
    while i < s.len()
        invariant
            i <= s.len(),
            pv@ == p@,
            take_before(s@, p@) == s@.subrange(0, i as int) + take_before(
                s@.subrange(i as int, s.len() as int),
                p@,
            ),
        decreases s.len() - i,
    {
        let ghost t = s@.subrange(i as int, s.len() as int);
        if pv.len() > 0 && matches_at(s, &pv, i) {
            assert(t.subrange(0, pv.len() as int) =~= s@.subrange(i as int, i + pv.len()));
            assert(take_before(t, p@) == Seq::<char>::empty());
            assert(take_before(s@, p@) =~= s@.subrange(0, i as int));
            return slice_of(s, 0, i);
        }
        proof {
            if pv.len() > 0 && begins(t, p@) {
                assert(t.subrange(0, pv.len() as int) =~= s@.subrange(i as int, i + pv.len()));
            }
            assert(t.drop_first() =~= s@.subrange(i + 1, s.len() as int));
            assert(s@.subrange(0, i + 1) =~= s@.subrange(0, i as int) + seq![t[0]]);
        }
        i = i + 1;
    }
    assert(s@.subrange(i as int, s.len() as int) =~= Seq::<char>::empty());
    assert(take_before(s@, p@) =~= s@.subrange(0, i as int));
    slice_of(s, 0, i)
}

/// `s` with every leading repetition of the text `p` removed.
pub fn strip_prefixes_str(s: &Vec<char>, p: &str) -> (r: Vec<char>)
    ensures
        r@ == strip_prefixes(s@, p@),
{
    let pv = chars_of(p);
    if pv.len() == 0 {
        return slice_of(s, 0, s.len());
    }
    let mut i: usize = 0;
    assert(s@.subrange(0, s.len() as int) =~= s@);
    while i <= s.len() && pv.len() <= s.len() - i && matches_at(s, &pv, i)
        invariant
            i <= s.len(),
            pv@ == p@,
            pv.len() > 0,
            strip_prefixes(s@, p@) == strip_prefixes(s@.subrange(i as int, s.len() as int), p@),
        decreases s.len() - i,
    {
        let ghost t = s@.subrange(i as int, s.len() as int);
        assert(t.subrange(0, pv.len() as int) =~= s@.subrange(i as int, i + pv.len()));
        assert(t.subrange(pv.len() as int, t.len() as int) =~= s@.subrange(
            i + pv.len(),
            s.len() as int,
        ));
        i = i + pv.len();
    }
    proof {
        let t = s@.subrange(i as int, s.len() as int);
        if begins(t, p@) {
            assert(t.subrange(0, pv.len() as int) =~= s@.subrange(i as int, i + pv.len()));
        }
    }
    slice_of(s, i, s.len())
}

/// `s` with every trailing repetition of the text `p` removed.
pub fn strip_suffixes_str(s: &Vec<char>, p: &str) -> (r: Vec<char>)
    ensures
        r@ == strip_suffixes(s@, p@),
{
    let pv = chars_of(p);
    if pv.len() == 0 {
        return slice_of(s, 0, s.len());
    }
    let mut j: usize = s.len();
    assert(s@.subrange(0, s.len() as int) =~= s@);
    while pv.len() <= j && matches_at(s, &pv, j - pv.len())
        invariant
            j <= s.len(),
            pv@ == p@,
            pv.len() > 0,
            strip_suffixes(s@, p@) == strip_suffixes(s@.subrange(0, j as int), p@),
        decreases j,
    {
        let ghost t = s@.subrange(0, j as int);
        assert(t.subrange(t.len() - pv.len(), t.len() as int) =~= s@.subrange(
            j - pv.len(),
            j as int,
        ));
        assert(t.subrange(0, t.len() - pv.len()) =~= s@.subrange(0, j - pv.len()));
        j = j - pv.len();
    }
    proof {
        let t = s@.subrange(0, j as int);
        if finishes(t, p@) {
            assert(t.subrange(t.len() - pv.len(), t.len() as int) =~= s@.subrange(
                j - pv.len(),
                j as int,
            ));
        }
    }
    slice_of(s, 0, j)
}

/// The white-space separated words of `s`.
pub fn split_words(s: &Vec<char>) -> (r: Vec<Vec<char>>)
    ensures
        views(r@) == words_of(s@),
{
    let mut done: Vec<Vec<char>> = Vec::new();
    let mut cur: Vec<char> = Vec::new();
    let mut k: usize = 0;
    while k < s.len()
        invariant
            k <= s.len(),
            (views(done@), cur@) == word_scan(s@, k as nat),
        decreases s.len() - k,
    {
        if char_is_ws(s[k]) {
            if cur.len() > 0 {
                done.push(cur);
                cur = Vec::new();
            }
        } else {
            cur.push(s[k]);
        }
        k = k + 1;
        assert(views(done@) =~= word_scan(s@, k as nat).0);
        assert(cur@ =~= word_scan(s@, k as nat).1);
    }
    if cur.len() > 0 {
        done.push(cur);
    }
    assert(views(done@) =~= words_of(s@));
    done
}

/// Whether two texts are equal.
pub fn same_text(a: &Vec<char>, b: &str) -> (r: bool)
    ensures
        r == (a@ == b@),
{
    let bv = chars_of(b);
    if a.len() != bv.len() {
        assert(a@.len() != b@.len());
        return false;
    }
    let mut i: usize = 0;
    while i < a.len()
        invariant
            a.len() == bv.len(),
            bv@ == b@,
            i <= a.len(),
            forall|k: int| 0 <= k < i ==> a@[k] == bv@[k],
        decreases a.len() - i,
    {
        if a[i] != bv[i] {
            assert(a@[i as int] != bv@[i as int]);
            return false;
        }
        i = i + 1;
    }
    assert(a@ =~= bv@);
    true
}

/// Where a non-empty `p` occurs in `s`, the part before its first
/// occurrence is followed by `p`.
pub proof fn lemma_take_before_found(s: Seq<char>, p: Seq<char>)
    requires
        p.len() > 0,
        infix(s, p),
    ensures
        occurs_at(s, p, take_before(s, p).len() as int),
    decreases s.len(),
{
    if !begins(s, p) {
        let i = choose|i: int| occurs_at(s, p, i);
        if i == 0 {
            assert(s.subrange(0, p.len() as int) == p);
        }
        let t = s.drop_first();
        assert(t.subrange(i - 1, i - 1 + p.len()) =~= s.subrange(i, i + p.len()));
        assert(occurs_at(t, p, i - 1));
        lemma_take_before_found(t, p);
        let k = take_before(t, p).len() as int;
        assert(take_before(s, p) == seq![s[0]] + take_before(t, p));
        assert(s.subrange(k + 1, k + 1 + p.len()) =~= t.subrange(k, k + p.len()));
    }
}

/// The part of `s` after the first occurrence of a non-empty `p`.
pub open spec fn after_first(s: Seq<char>, p: Seq<char>) -> Seq<char> {
    s.subrange((take_before(s, p).len() + p.len()) as int, s.len() as int)
}

/// The part of `s` after the first occurrence of the non-empty text `p`, if
/// `p` occurs.
pub fn after_str(s: &Vec<char>, p: &str) -> (r: Option<Vec<char>>)
    requires
        p@.len() > 0,
    ensures
        r is Some <==> infix(s@, p@),
        r matches Some(v) ==> v@ == after_first(s@, p@),
{
    let pv = chars_of(p);
    let head = before_str(s, p);
    proof {
        lemma_take_before_len(s@, p@);
        if infix(s@, p@) {
            lemma_take_before_found(s@, p@);
        }
    }
    if matches_at(s, &pv, head.len()) {
        assert(head.len() + pv.len() <= s.len());
        Some(slice_of(s, head.len() + pv.len(), s.len()))
    } else {
        None
    }
}

/// The part before `p` is a prefix of `s`.
pub proof fn lemma_take_before_len(s: Seq<char>, p: Seq<char>)
    ensures
        take_before(s, p).len() <= s.len(),
        take_before(s, p) == s.subrange(0, take_before(s, p).len() as int),
    decreases s.len(),
{
    if s.len() > 0 && !(p.len() > 0 && begins(s, p)) {
        lemma_take_before_len(s.drop_first(), p);
        assert(take_before(s, p) =~= s.subrange(0, take_before(s, p).len() as int));
    }
}

/// The concatenation of two character vectors.
pub fn concat_chars(a: &Vec<char>, b: &Vec<char>) -> (r: Vec<char>)
    ensures
        r@ == a@ + b@,
{
    let mut r = slice_of(a, 0, a.len());
    assert(a@.subrange(0, a.len() as int) =~= a@);
    append_chars(&mut r, b);
    r
}

} // verus!
