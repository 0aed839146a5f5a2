//! Small text routines over the character view of strings.

use vstd::prelude::*;
use vstd::string::*;

verus! {

/// `str`'s `==` from the standard library: two slices are equal exactly when
/// they hold the same characters.
pub assume_specification[ <str as PartialEq>::eq ](a: &str, b: &str) -> (r: bool)
    ensures
        r == (a@ == b@),
;

/// Position of the first `c` in `s`, if there is one.
pub open spec fn first_index(s: Seq<char>, c: char) -> Option<int>
    decreases s.len(),
{
    if s.len() == 0 {
        None
    } else if s[0] == c {
        Some(0)
    } else {
        match first_index(s.drop_first(), c) {
            Some(i) => Some(i + 1),
            None => None,
        }
    }
}

/// What `first_index` finds is in range, holds `c`, and is the first such place;
/// what it misses is nowhere in `s`.
pub proof fn lemma_first_index(s: Seq<char>, c: char)
    ensures
        match first_index(s, c) {
            Some(i) => 0 <= i < s.len() && s[i] == c && forall|j: int| 0 <= j < i ==> s[j] != c,
            None => forall|j: int| 0 <= j < s.len() ==> s[j] != c,
        },
    decreases s.len(),
{
    if s.len() > 0 && s[0] != c {
        let t = s.drop_first();
        lemma_first_index(t, c);
        match first_index(t, c) {
            Some(i) => {
                assert forall|j: int| 0 <= j < i + 1 implies s[j] != c by {
                    if j > 0 {
                        assert(s[j] == t[j - 1]);
                    }
                }
            },
            None => {
                assert forall|j: int| 0 <= j < s.len() implies s[j] != c by {
                    if j > 0 {
                        assert(s[j] == t[j - 1]);
                    }
                }
            },
        }
    }
}

/// A place that holds `c` with no `c` before it is what `first_index` finds.
pub proof fn lemma_first_index_is(s: Seq<char>, c: char, i: int)
    requires
        0 <= i < s.len(),
        s[i] == c,
        forall|j: int| 0 <= j < i ==> s[j] != c,
    ensures
        first_index(s, c) == Some(i),
    decreases s.len(),
{
    if i > 0 {
        let t = s.drop_first();
        assert forall|j: int| 0 <= j < i - 1 implies t[j] != c by {
            assert(t[j] == s[j + 1]);
        }
        lemma_first_index_is(t, c, i - 1);
    }
}

/// No `c` anywhere means `first_index` finds nothing.
pub proof fn lemma_first_index_none(s: Seq<char>, c: char)
    requires
        forall|j: int| 0 <= j < s.len() ==> s[j] != c,
    ensures
        first_index(s, c) is None,
    decreases s.len(),
{
    if s.len() > 0 {
        let t = s.drop_first();
        assert forall|j: int| 0 <= j < t.len() implies t[j] != c by {
            assert(t[j] == s[j + 1]);
        }
        lemma_first_index_none(t, c);
    }
}

/// Finds the first `c` in `s`.
pub fn find_char(s: &str, c: char) -> (r: Option<usize>)
    ensures
        match r {
            Some(i) => first_index(s@, c) == Some(i as int),
            None => first_index(s@, c) is None,
        },
{
    let n = s.unicode_len();
    let mut i: usize = 0;
    while i < n
        invariant
            n == s@.len(),
            i <= n,
            forall|j: int| 0 <= j < i ==> s@[j] != c,
        decreases n - i,
    {
        if s.get_char(i) == c {
            proof {
                lemma_first_index_is(s@, c, i as int);
            }
            return Some(i);
        }
        i += 1;
    }
    proof {
        lemma_first_index_none(s@, c);
    }
    None
}

/// Whether one of the strings in `v` reads `s`.
pub fn contains_text(v: &Vec<String>, s: &str) -> (r: bool)
    ensures
        r == v.deep_view().contains(s@),
{
    let mut i: usize = 0;
    while i < v.len()
        invariant
            i <= v.len(),
            forall|j: int| 0 <= j < i ==> v.deep_view()[j] != s@,
        decreases v.len() - i,
    {
        if *v[i].as_str() == *s {
            assert(v.deep_view()[i as int] == s@);
            return true;
        }
        i += 1;
    }
    false
}

/// Copies a list of strings.
pub fn clone_texts(v: &Vec<String>) -> (r: Vec<String>)
    ensures
        r.deep_view() == v.deep_view(),
{
    let mut out: Vec<String> = Vec::new();
    let mut i: usize = 0;
    while i < v.len()
        invariant
            i <= v.len(),
            out.len() == i,
            forall|j: int| 0 <= j < i ==> out@[j]@ == v@[j]@,
        decreases v.len() - i,
    {
        out.push(v[i].clone());
        i += 1;
    }
    assert(out.deep_view() =~= v.deep_view());
    out
}

/// The items of `s` in order of first appearance, each once.
pub open spec fn distinct(s: Seq<Seq<char>>) -> Seq<Seq<char>>
    decreases s.len(),
{
    if s.len() == 0 {
        Seq::empty()
    } else {
        let d = distinct(s.drop_last());
        if d.contains(s.last()) {
            d
        } else {
            d.push(s.last())
        }
    }
}

/// `distinct` repeats nothing and keeps exactly the items of its argument.
pub proof fn lemma_distinct(s: Seq<Seq<char>>)
    ensures
        distinct(s).no_duplicates(),
        forall|t: Seq<char>| distinct(s).contains(t) <==> s.contains(t),
    decreases s.len(),
{
    if s.len() > 0 {
        let front = s.drop_last();
        let d = distinct(front);
        lemma_distinct(front);
        assert forall|t: Seq<char>| distinct(s).contains(t) <==> s.contains(t) by {
            if s.contains(t) {
                let i = choose|i: int| 0 <= i < s.len() && s[i] == t;
                if i < s.len() - 1 {
                    assert(front[i] == t);
                    assert(front.contains(t));
                    let j = choose|j: int| 0 <= j < d.len() && d[j] == t;
                    assert(distinct(s)[j] == t);
                } else if !d.contains(s.last()) {
                    assert(distinct(s)[d.len() as int] == t);
                } else {
                    let j = choose|j: int| 0 <= j < d.len() && d[j] == t;
                    assert(distinct(s)[j] == t);
                }
            }
            if distinct(s).contains(t) {
                let j = choose|j: int| 0 <= j < distinct(s).len() && distinct(s)[j] == t;
                if j < d.len() {
                    assert(d[j] == t);
                    assert(d.contains(t));
                    assert(front.contains(t));
                    let i = choose|i: int| 0 <= i < front.len() && front[i] == t;
                    assert(s[i] == t);
                } else {
                    assert(s[s.len() - 1] == t);
                }
            }
        }
    }
}

/// Copies `v` without its repetitions.
pub fn distinct_texts(v: &Vec<String>) -> (r: Vec<String>)
    ensures
        r.deep_view() == distinct(v.deep_view()),
{
    let mut out: Vec<String> = Vec::new();
    let mut i: usize = 0;
    assert(v.deep_view().take(0) =~= Seq::<Seq<char>>::empty());
    assert(out.deep_view() =~= Seq::<Seq<char>>::empty());
    while i < v.len()
        invariant
            i <= v.len(),
            out.deep_view() == distinct(v.deep_view().take(i as int)),
        decreases v.len() - i,
    {
        let ghost before = out.deep_view();
        let ghost upto = v.deep_view().take(i + 1);
        assert(upto.drop_last() =~= v.deep_view().take(i as int));
        assert(upto.last() == v@[i as int]@);
        if !contains_text(&out, v[i].as_str()) {
            out.push(v[i].clone());
            assert(out.deep_view() =~= before.push(v@[i as int]@));
        }
        i += 1;
    }
    assert(v.deep_view().take(v.len() as int) =~= v.deep_view());
    out
}

/// Whether `c` is ASCII white space: space, tab, line feed, form feed or
/// carriage return.
pub open spec fn is_blank(c: char) -> bool {
    c == ' ' || c == '\t' || c == '\n' || c == '\x0C' || c == '\r'
}

/// The words of `s`: its longest runs of characters that are not blank, in
/// order. A character that is not blank continues the last word where the
/// character before it is not blank either, and begins a word otherwise.
pub open spec fn words(s: Seq<char>) -> Seq<Seq<char>>
    decreases s.len(),
{
    if s.len() == 0 {
        Seq::empty()
    } else {
        let before = words(s.drop_last());
        if is_blank(s.last()) {
            before
        } else if s.len() >= 2 && !is_blank(s[s.len() - 2]) {
            before.drop_last().push(before.last().push(s.last()))
        } else {
            before.push(seq![s.last()])
        }
    }
}

/// The items of `parts` with `sep` between each two neighbours.
pub open spec fn join(parts: Seq<Seq<char>>, sep: Seq<char>) -> Seq<char>
    decreases parts.len(),
{
    if parts.len() == 0 {
        Seq::empty()
    } else if parts.len() == 1 {
        parts[0]
    } else {
        join(parts.drop_last(), sep) + sep + parts.last()
    }
}

/// A run of characters that are not blank, with a blank or nothing before
/// it, is one more word.
proof fn lemma_word_run(s: Seq<char>, a: int, b: int)
    requires
        0 <= a < b <= s.len(),
        forall|k: int| a <= k < b ==> !is_blank(s[k]),
        a == 0 || is_blank(s[a - 1]),
    ensures
        words(s.take(b)) == words(s.take(a)).push(s.subrange(a, b)),
    decreases b - a,
{
    let t = s.take(b);
    assert(t.drop_last() =~= s.take(b - 1));
    assert(t.last() == s[b - 1]);
    if b == a + 1 {
        if a > 0 {
            assert(t[t.len() - 2] == s[a - 1]);
        }
        assert(s.subrange(a, b) =~= seq![s[a]]);
    } else {
        lemma_word_run(s, a, b - 1);
        assert(t[t.len() - 2] == s[b - 2]);
        let before = words(s.take(b - 1));
        assert(before.drop_last() =~= words(s.take(a)));
        assert(before.last().push(s[b - 1]) =~= s.subrange(a, b));
    }
}

/// Blanks at the end add no word.
proof fn lemma_blank_run(s: Seq<char>, a: int, b: int)
    requires
        0 <= a <= b <= s.len(),
        forall|k: int| a <= k < b ==> is_blank(s[k]),
    ensures
        words(s.take(b)) == words(s.take(a)),
    decreases b - a,
{
    if a < b {
        lemma_blank_run(s, a, b - 1);
        assert(s.take(b).drop_last() =~= s.take(b - 1));
    }
}

/// Whether `c` is ASCII white space.
fn blank(c: char) -> (r: bool)
    ensures
        r == is_blank(c),
{
    c == ' ' || c == '\t' || c == '\n' || c == '\x0C' || c == '\r'
}

/// Cuts `s` into its words.
pub fn split_words(s: &str) -> (r: Vec<String>)
    ensures
        r.deep_view() == words(s@),
{
    let n = s.unicode_len();
    let mut out: Vec<String> = Vec::new();
    let mut i: usize = 0;
    assert(s@.take(0) =~= Seq::<char>::empty());
    assert(out.deep_view() =~= Seq::<Seq<char>>::empty());
    while i < n
        invariant
            n == s@.len(),
            i <= n,
            out.deep_view() == words(s@.take(i as int)),
            i == 0 || i == n || is_blank(s@[i - 1]) || is_blank(s@[i as int]),
        decreases n - i,
    {
        if blank(s.get_char(i)) {
            proof {
                lemma_blank_run(s@, i as int, i + 1);
            }
            i += 1;
        } else {
            let start = i;
            let mut end: usize = i + 1;
            while end < n && !blank(s.get_char(end))
                invariant
                    n == s@.len(),
                    start < end <= n,
                    forall|k: int| start <= k < end ==> !is_blank(s@[k]),
                decreases n - end,
            {
                end += 1;
            }
            proof {
                if start > 0 && !is_blank(s@[start - 1]) {
                    assert(is_blank(s@[start as int]));
                }
                lemma_word_run(s@, start as int, end as int);
            }
            let ghost before = out.deep_view();
            let word = s.substring_char(start, end);
            out.push(String::from_str(word));
            assert(out.deep_view() =~= before.push(s@.subrange(start as int, end as int)));
            i = end;
        }
    }
    assert(s@.take(n as int) =~= s@);
    out
}

/// Puts `parts` together with `sep` between each two neighbours.
pub fn join_texts(parts: &Vec<String>, sep: &str) -> (r: String)
    ensures
        r@ == join(parts.deep_view(), sep@),
{
    let mut out = String::new();
    let mut i: usize = 0;
    assert(parts.deep_view().take(0) =~= Seq::<Seq<char>>::empty());
    while i < parts.len()
        invariant
            i <= parts.len(),
            out@ == join(parts.deep_view().take(i as int), sep@),
        decreases parts.len() - i,
    {
        let ghost upto = parts.deep_view().take(i + 1);
        assert(upto.drop_last() =~= parts.deep_view().take(i as int));
        assert(upto.last() == parts@[i as int]@);
        if i > 0 {
            out.append(sep);
        } else {
            assert(upto[0] == parts@[0]@);
            assert(Seq::<char>::empty() + parts@[0]@ =~= parts@[0]@);
        }
        out.append(parts[i].as_str());
        i += 1;
    }
    assert(parts.deep_view().take(parts.len() as int) =~= parts.deep_view());
    out
}

/// The `n`-th of the fields into which the occurrences of `sep` cut `s`,
/// counted from 0, if there are that many.
pub open spec fn field(s: Seq<char>, sep: char, n: nat) -> Option<Seq<char>>
    decreases n,
{
    match first_index(s, sep) {
        None => if n == 0 {
            Some(s)
        } else {
            None
        },
        Some(i) => if n == 0 {
            Some(s.subrange(0, i))
        } else {
            field(s.subrange(i + 1, s.len() as int), sep, (n - 1) as nat)
        },
    }
}

/// Picks the `n`-th of the fields into which the occurrences of `sep` cut
/// `s`, counted from 0.
pub fn nth_field(s: &str, sep: char, n: usize) -> (r: Option<String>)
    ensures
        r.deep_view() == field(s@, sep, n as nat),
{
    let mut rest: &str = s;
    let mut left: usize = n;
    loop
        invariant
            field(s@, sep, n as nat) == field(rest@, sep, left as nat),
        decreases left,
    {
        let len = rest.unicode_len();
        match find_char(rest, sep) {
            None => {
                if left == 0 {
                    return Some(String::from_str(rest));
                } else {
                    return None;
                }
            },
            Some(i) => {
                proof {
                    lemma_first_index(rest@, sep);
                }
                if left == 0 {
                    return Some(String::from_str(rest.substring_char(0, i)));
                }
                rest = rest.substring_char(i + 1, len);
                left -= 1;
            },
        }
    }
}

} // verus!
