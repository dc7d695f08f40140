//! Line and word splitting of tool output, stated over character sequences.
use vstd::prelude::*;

verus! {

/// Unicode `White_Space`, the set that `char::is_whitespace` tests.
pub open spec fn is_space(c: char) -> bool {
    let u = c as u32;
    ||| 0x09 <= u <= 0x0D
    ||| u == 0x20
    ||| u == 0x85
    ||| u == 0xA0
    ||| u == 0x1680
    ||| 0x2000 <= u <= 0x200A
    ||| u == 0x2028
    ||| u == 0x2029
    ||| u == 0x202F
    ||| u == 0x205F
    ||| u == 0x3000
}

pub open spec fn is_line_feed(c: char) -> bool {
    c == '\n'
}

/// Number of leading characters of `s` that `stop` does not hold of.
pub open spec fn run_len(s: Seq<char>, stop: spec_fn(char) -> bool) -> nat
    decreases s.len(),
{
    if s.len() == 0 || stop(s[0]) {
        0
    } else {
        1 + run_len(s.drop_first(), stop)
    }
}

/// A line without its line ending: a carriage return just before the line feed goes too.
pub open spec fn strip_cr(l: Seq<char>) -> Seq<char> {
    if l.len() > 0 && l.last() == '\r' {
        l.drop_last()
    } else {
        l
    }
}

/// The lines of `s`: split at each line feed, with `\r\n` counted as one line ending;
/// a final line ending adds no empty line, and a last line without one keeps all its
/// characters.
pub open spec fn lines(s: Seq<char>) -> Seq<Seq<char>>
    decreases s.len(),
{
    if s.len() == 0 {
        seq![]
    } else {
        let k = run_len(s, |c: char| is_line_feed(c));
        if k >= s.len() {
            seq![s]
        } else {
            seq![strip_cr(s.subrange(0, k as int))] + lines(s.subrange((k + 1) as int, s.len() as int))
        }
    }
}

/// The maximal runs of non-whitespace characters of `s`, in order.
pub open spec fn words(s: Seq<char>) -> Seq<Seq<char>>
    decreases s.len(),
    via words_decreases
{
    if s.len() == 0 {
        seq![]
    } else if is_space(s[0]) {
        words(s.drop_first())
    } else {
        let k = run_len(s, |c: char| is_space(c));
        seq![s.subrange(0, k as int)] + words(s.subrange(k as int, s.len() as int))
    }
}

/// Whether `needle` occurs in `hay` at some position.
pub open spec fn contains_at(hay: Seq<char>, needle: Seq<char>, i: int) -> bool {
    0 <= i && i + needle.len() <= hay.len() && hay.subrange(i, i + needle.len()) == needle
}

pub open spec fn contains(hay: Seq<char>, needle: Seq<char>) -> bool {
    exists|i: int| contains_at(hay, needle, i)
}

pub open spec fn views(v: Seq<String>) -> Seq<Seq<char>> {
    v.map_values(|x: String| x@)
}

pub proof fn lemma_run_len_bound(s: Seq<char>, stop: spec_fn(char) -> bool)
    ensures
        run_len(s, stop) <= s.len(),
        s.len() > 0 && !stop(s[0]) ==> run_len(s, stop) >= 1,
    decreases s.len(),
{
    if s.len() > 0 {
        lemma_run_len_bound(s.drop_first(), stop);
    }
}

#[via_fn]
proof fn words_decreases(s: Seq<char>) {
    if s.len() > 0 && !is_space(s[0]) {
        lemma_run_len_bound(s, |c: char| is_space(c));
    }
}

/// `run_len` is the first position at which `stop` holds, or the length.
pub proof fn lemma_run_len(s: Seq<char>, stop: spec_fn(char) -> bool, k: int)
    requires
        0 <= k <= s.len(),
        forall|j: int| 0 <= j < k ==> !stop(s[j]),
        k == s.len() || stop(s[k]),
    ensures
        run_len(s, stop) == k,
    decreases k,
{
    if k > 0 {
        lemma_run_len(s.drop_first(), stop, k - 1);
    }
}

/// `char::is_whitespace`, written out over the Unicode `White_Space` set.
pub fn is_space_char(c: char) -> (r: bool)
    ensures
        r == is_space(c),
{
    let u = c as u32;
    (0x09 <= u && u <= 0x0D) || u == 0x20 || u == 0x85 || u == 0xA0 || u == 0x1680 || (0x2000
        <= u && u <= 0x200A) || u == 0x2028 || u == 0x2029 || u == 0x202F || u == 0x205F || u
        == 0x3000
}

/// The characters of `s`, in order.
pub fn chars_of(s: &str) -> (r: Vec<char>)
    ensures
        r@ == s@,
{
    let mut r: Vec<char> = Vec::new();
    for c in it: s.chars()
        invariant
            r@ == it.seq().take(it.index() as int),
    {
        r.push(c);
    }
    r
}

/// The characters of `s` from `from` up to `to`, as an owned string.
fn piece(s: &str, from: usize, to: usize) -> (r: String)
    requires
        from <= to <= s@.len(),
    ensures
        r@ == s@.subrange(from as int, to as int),
{
    String::from_str(s.substring_char(from, to))
}

/// The lines of `s`, as `str::lines` gives them.
pub fn split_lines(s: &str) -> (r: Vec<String>)
    ensures
        views(r@) == lines(s@),
{
    let cs = chars_of(s);
    let n = cs.len();
    let mut r: Vec<String> = Vec::new();
    let mut i: usize = 0;
    proof {
        assert(s@.subrange(0, n as int) =~= s@);
        assert(views(r@) + lines(s@) =~= lines(s@));
    }
    while i < n
        invariant
            cs@ == s@,
            n == s@.len(),
            i <= n,
            views(r@) + lines(s@.subrange(i as int, n as int)) == lines(s@),
        decreases n - i,
    {
        let mut j: usize = i;
        while j < n && cs[j] != '\n'
            invariant
                cs@ == s@,
                n == s@.len(),
                i <= j <= n,
                forall|k: int| i <= k < j ==> cs@[k] != '\n',
            decreases n - j,
        {
            j = j + 1;
        }
        let ghost rest = s@.subrange(i as int, n as int);
        proof {
            lemma_run_len(rest, |c: char| is_line_feed(c), (j - i) as int);
        }
        let ghost old_r = r@;
        if j == n {
            r.push(piece(s, i, n));
            proof {
                assert(lines(rest) == seq![rest]);
                assert(views(r@) =~= views(old_r) + seq![rest]);
                assert(s@.subrange(n as int, n as int) =~= Seq::<char>::empty());
            }
            i = n;
        } else {
            let end = if j > i && cs[j - 1] == '\r' { j - 1 } else { j };
            r.push(piece(s, i, end));
            proof {
                assert(rest.subrange(0, (j - i) as int) =~= s@.subrange(i as int, j as int));
                assert(rest.subrange((j - i + 1) as int, rest.len() as int)
                    =~= s@.subrange(j + 1, n as int));
                assert(strip_cr(s@.subrange(i as int, j as int)) =~= s@.subrange(i as int, end as int));
                assert(views(r@) =~= views(old_r) + seq![s@.subrange(i as int, end as int)]);
            }
            i = j + 1;
        }
    }
    proof {
        assert(s@.subrange(n as int, n as int) =~= Seq::<char>::empty());
        assert(views(r@) + seq![] =~= views(r@));
    }
    r
}

/// The whitespace-separated words of `s`, as `str::split_whitespace` gives them.
pub fn split_words(s: &str) -> (r: Vec<String>)
    ensures
        views(r@) == words(s@),
{
    let cs = chars_of(s);
    let n = cs.len();
    let mut r: Vec<String> = Vec::new();
    let mut i: usize = 0;
    proof {
        assert(s@.subrange(0, n as int) =~= s@);
        assert(views(r@) + words(s@) =~= words(s@));
    }
    while i < n
        invariant
            cs@ == s@,
            n == s@.len(),
            i <= n,
            views(r@) + words(s@.subrange(i as int, n as int)) == words(s@),
        decreases n - i,
    {
        let ghost rest = s@.subrange(i as int, n as int);
        if is_space_char(cs[i]) {
            proof {
                assert(rest.drop_first() =~= s@.subrange(i + 1, n as int));
            }
            i = i + 1;
        } else {
            let mut j: usize = i + 1;
            while j < n && !is_space_char(cs[j])
                invariant
                    cs@ == s@,
                    n == s@.len(),
                    i < j <= n,
                    forall|k: int| i <= k < j ==> !is_space(cs@[k]),
                decreases n - j,
            {
                j = j + 1;
            }
            proof {
                lemma_run_len(rest, |c: char| is_space(c), (j - i) as int);
            }
            let ghost old_r = r@;
            r.push(piece(s, i, j));
            proof {
                assert(rest.subrange(0, (j - i) as int) =~= s@.subrange(i as int, j as int));
                assert(rest.subrange((j - i) as int, rest.len() as int) =~= s@.subrange(
                    j as int,
                    n as int,
                ));
                assert(views(r@) =~= views(old_r) + seq![s@.subrange(i as int, j as int)]);
            }
            i = j;
        }
    }
    proof {
        assert(s@.subrange(n as int, n as int) =~= Seq::<char>::empty());
        assert(views(r@) + seq![] =~= views(r@));
    }
    r
}

/// A line holds neither a line feed nor a carriage return.
pub open spec fn is_single_line(l: Seq<char>) -> bool {
    forall|j: int| 0 <= j < l.len() ==> l[j] != '\n' && l[j] != '\r'
}

/// Each of `rows`, followed by a line feed, one after the other.
pub open spec fn joined_lines(rows: Seq<Seq<char>>) -> Seq<char>
    decreases rows.len(),
{
    if rows.len() == 0 {
        seq![]
    } else {
        rows[0] + seq!['\n'] + joined_lines(rows.drop_first())
    }
}

/// A word holds at least one character and no whitespace.
pub open spec fn is_word(w: Seq<char>) -> bool {
    w.len() > 0 && forall|j: int| 0 <= j < w.len() ==> !is_space(w[j])
}

/// A single line followed by a line feed is the first line of what it starts.
pub proof fn lemma_lines_first(l: Seq<char>, rest: Seq<char>)
    requires
        is_single_line(l),
    ensures
        lines(l + seq!['\n'] + rest) == seq![l] + lines(rest),
{
    let s = l + seq!['\n'] + rest;
    lemma_run_len(s, |c: char| is_line_feed(c), l.len() as int);
    assert(s.subrange(0, l.len() as int) =~= l);
    assert(s.subrange((l.len() + 1) as int, s.len() as int) =~= rest);
}

/// Joining single lines and splitting the result into lines gives them back.
pub proof fn lemma_lines_joined(rows: Seq<Seq<char>>)
    requires
        forall|i: int| 0 <= i < rows.len() ==> is_single_line(#[trigger] rows[i]),
    ensures
        lines(joined_lines(rows)) == rows,
    decreases rows.len(),
{
    if rows.len() == 0 {
        assert(lines(Seq::<char>::empty()) == Seq::<Seq<char>>::empty());
    } else {
        let tail = rows.drop_first();
        assert forall|i: int| 0 <= i < tail.len() implies is_single_line(#[trigger] tail[i]) by {
            assert(tail[i] == rows[i + 1]);
        }
        lemma_lines_joined(tail);
        lemma_lines_first(rows[0], joined_lines(tail));
        assert(seq![rows[0]] + tail =~= rows);
    }
}

/// Two words with one space between them split into those two words.
pub proof fn lemma_words_pair(a: Seq<char>, b: Seq<char>)
    requires
        is_word(a),
        is_word(b),
    ensures
        words(a + seq![' '] + b) == seq![a, b],
{
    let s = a + seq![' '] + b;
    lemma_run_len(s, |c: char| is_space(c), a.len() as int);
    assert(s.subrange(0, a.len() as int) =~= a);
    let t = s.subrange(a.len() as int, s.len() as int);
    assert(t.drop_first() =~= b);
    assert(words(t) == words(b));
    lemma_run_len(b, |c: char| is_space(c), b.len() as int);
    assert(b.subrange(0, b.len() as int) =~= b);
    assert(b.subrange(b.len() as int, b.len() as int) =~= Seq::<char>::empty());
    assert(words(b) == seq![b] + words(Seq::<char>::empty()));
    assert(words(Seq::<char>::empty()) == Seq::<Seq<char>>::empty());
    assert(words(b) =~= seq![b]);
    assert(seq![a] + seq![b] =~= seq![a, b]);
}

pub open spec fn has_prefix(s: Seq<char>, prefix: Seq<char>) -> bool {
    prefix.len() <= s.len() && s.subrange(0, prefix.len() as int) == prefix
}

/// Whether `s` begins with `prefix`.
pub fn starts_with(s: &str, prefix: &str) -> (r: bool)
    ensures
        r == has_prefix(s@, prefix@),
{
    let cs = chars_of(s);
    let ps = chars_of(prefix);
    if ps.len() > cs.len() {
        return false;
    }
    let mut i: usize = 0;
    while i < ps.len()
        invariant
            cs@ == s@,
            ps@ == prefix@,
            ps.len() <= cs.len(),
            i <= ps.len(),
            forall|k: int| 0 <= k < i ==> cs@[k] == ps@[k],
        decreases ps.len() - i,
    {
        if cs[i] != ps[i] {
            assert(s@.subrange(0, prefix@.len() as int)[i as int] != prefix@[i as int]);
            return false;
        }
        i = i + 1;
    }
    assert(s@.subrange(0, prefix@.len() as int) =~= prefix@);
    true
}

/// Whether `needle` occurs anywhere in `hay`.
pub fn contains_text(hay: &str, needle: &str) -> (r: bool)
    ensures
        r == contains(hay@, needle@),
{
    let hs = chars_of(hay);
    let ns = chars_of(needle);
    if ns.len() > hs.len() {
        assert forall|i: int| !contains_at(hay@, needle@, i) by {}
        return false;
    }
    let last = hs.len() - ns.len();
    let mut i: usize = 0;
    while i <= last
        invariant
            hs@ == hay@,
            ns@ == needle@,
            last == hs.len() - ns.len(),
            ns.len() <= hs.len(),
            forall|k: int| 0 <= k < i ==> !contains_at(hay@, needle@, k),
        decreases last + 1 - i,
    {
        let mut j: usize = 0;
        let mut same = true;
        while j < ns.len()
            invariant
                hs@ == hay@,
                ns@ == needle@,
                i <= last,
                last == hs.len() - ns.len(),
                j <= ns.len(),
                same == (forall|k: int| 0 <= k < j ==> hs@[i + k] == ns@[k]),
            decreases ns.len() - j,
        {
            if hs[i + j] != ns[j] {
                same = false;
            }
            j = j + 1;
        }
        if same {
            assert(hay@.subrange(i as int, i + needle@.len()) =~= needle@);
            assert(contains_at(hay@, needle@, i as int));
            return true;
        }
        assert(!contains_at(hay@, needle@, i as int)) by {
            let w = choose|k: int| 0 <= k < ns.len() && hs@[i + k] != ns@[k];
            assert(hay@.subrange(i as int, i + needle@.len())[w] != needle@[w]);
        }
        if i == last {
            assert forall|k: int| !contains_at(hay@, needle@, k) by {
                if 0 <= k && k + needle@.len() <= hay@.len() {
                    assert(k <= last);
                }
            }
            return false;
        }
        i = i + 1;
    }
    false
}

} // verus!
