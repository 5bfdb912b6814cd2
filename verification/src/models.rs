//! Parsing of the external tool's model listing: lines of the form
//! `alias: full-name`. A line with exactly one colon contributes one model,
//! its two halves trimmed of surrounding whitespace; every other line is
//! ignored. Lines are separated by `'\n'`, with one trailing `'\r'` per
//! line tolerated.

use vstd::prelude::*;
use crate::data::{ModelInfo, ModelInfoView};
use crate::text::{chars_to_string, str_to_chars, sub_chars};

verus! {

/// The whitespace characters trimmed from around an alias or a name.
pub open spec fn is_ws(c: char) -> bool {
    c == ' ' || c == '\t' || c == '\r' || c == '\n'
}

/// `s` without its leading whitespace.
pub open spec fn trim_front(s: Seq<char>) -> Seq<char>
    decreases s.len(),
{
    if s.len() > 0 && is_ws(s[0]) {
        trim_front(s.drop_first())
    } else {
        s
    }
}

/// `s` without its trailing whitespace.
pub open spec fn trim_back(s: Seq<char>) -> Seq<char>
    decreases s.len(),
{
    if s.len() > 0 && is_ws(s.last()) {
        trim_back(s.drop_last())
    } else {
        s
    }
}

/// `s` without leading or trailing whitespace.
pub open spec fn trim_spec(s: Seq<char>) -> Seq<char> {
    trim_back(trim_front(s))
}

/// The position of the first occurrence of `c` in `s`, or `s.len()` if
/// there is none.
pub open spec fn first_idx(s: Seq<char>, c: char) -> int
    decreases s.len(),
{
    if s.len() == 0 {
        0
    } else if s[0] == c {
        0
    } else {
        1 + first_idx(s.drop_first(), c)
    }
}

/// How many times `c` occurs in `s`.
pub open spec fn count_char(s: Seq<char>, c: char) -> int
    decreases s.len(),
{
    if s.len() == 0 {
        0int
    } else {
        count_char(s.drop_last(), c) + if s.last() == c {
            1int
        } else {
            0int
        }
    }
}

/// The pieces of `s` between occurrences of `'\n'`; text ending in `'\n'`
/// contributes a final empty piece.
pub open spec fn split_lines(s: Seq<char>) -> Seq<Seq<char>>
    decreases s.len(),
{
    let i = first_idx(s, '\n');
    if 0 <= i < s.len() {
        seq![s.take(i)] + split_lines(s.skip(i + 1))
    } else {
        seq![s]
    }
}

/// A line with one trailing carriage return tolerated.
pub open spec fn strip_cr(line: Seq<char>) -> Seq<char> {
    if line.len() > 0 && line.last() == '\r' {
        line.drop_last()
    } else {
        line
    }
}

/// The model a single line contributes, if any: a line with exactly one
/// colon yields the trimmed text before it as the alias and the trimmed
/// text after it as the full name.
pub open spec fn parse_line(line: Seq<char>) -> Option<ModelInfoView> {
    let l = strip_cr(line);
    if count_char(l, ':') == 1 {
        let p = first_idx(l, ':');
        Some(ModelInfoView { alias: trim_spec(l.take(p)), full_name: trim_spec(l.skip(p + 1)) })
    } else {
        None
    }
}

/// The models contributed by a sequence of lines, in order.
pub open spec fn models_of_lines(lines: Seq<Seq<char>>) -> Seq<ModelInfoView>
    decreases lines.len(),
{
    if lines.len() == 0 {
        Seq::empty()
    } else {
        let rest = models_of_lines(lines.drop_last());
        match parse_line(lines.last()) {
            Some(m) => rest.push(m),
            None => rest,
        }
    }
}

/// The models described by the tool's full listing.
pub open spec fn models_of(s: Seq<char>) -> Seq<ModelInfoView> {
    models_of_lines(split_lines(s))
}

/// The images of a vector of models.
pub open spec fn model_views(ms: Seq<ModelInfo>) -> Seq<ModelInfoView> {
    ms.map_values(|m: ModelInfo| m@)
}

/// The images of a vector of character-vector lines.
pub open spec fn line_views(ls: Seq<Vec<char>>) -> Seq<Seq<char>> {
    ls.map_values(|l: Vec<char>| l@)
}

proof fn lemma_first_idx_is(s: Seq<char>, c: char, m: int)
    requires
        0 <= m <= s.len(),
        forall|j: int| 0 <= j < m ==> s[j] != c,
        m < s.len() ==> s[m] == c,
    ensures
        first_idx(s, c) == m,
    decreases m,
{
    if m == 0 {
    } else {
        assert(s[0] != c);
        lemma_first_idx_is(s.drop_first(), c, m - 1);
    }
}

proof fn lemma_trim_front_skip(s: Seq<char>, k: int)
    requires
        0 <= k <= s.len(),
        forall|j: int| 0 <= j < k ==> is_ws(s[j]),
    ensures
        trim_front(s) == trim_front(s.skip(k)),
    decreases k,
{
    if k == 0 {
        assert(s.skip(0) =~= s);
    } else {
        assert(is_ws(s[0]));
        lemma_trim_front_skip(s.drop_first(), k - 1);
        assert(s.drop_first().skip(k - 1) =~= s.skip(k));
    }
}

proof fn lemma_trim_back_take(s: Seq<char>, k: int)
    requires
        0 <= k <= s.len(),
        forall|j: int| k <= j < s.len() ==> is_ws(s[j]),
    ensures
        trim_back(s) == trim_back(s.take(k)),
    decreases s.len() - k,
{
    if k == s.len() {
        assert(s.take(k) =~= s);
    } else {
        assert(is_ws(s.last()));
        lemma_trim_back_take(s.drop_last(), k);
        assert(s.drop_last().take(k) =~= s.take(k));
    }
}

fn is_ws_exec(c: char) -> (b: bool)
    ensures
        b == is_ws(c),
{
    c == ' ' || c == '\t' || c == '\r' || c == '\n'
}

/// The bounds within `v` of `trim_spec(v[from..to])`.
fn trim_bounds(v: &Vec<char>, from: usize, to: usize) -> (r: (usize, usize))
    requires
        from <= to <= v@.len(),
    ensures
        from <= r.0 <= r.1 <= to,
        v@.subrange(r.0 as int, r.1 as int) == trim_spec(v@.subrange(from as int, to as int)),
{
    let mut a = from;
    while a < to && is_ws_exec(v[a])
        invariant
            from <= a <= to <= v@.len(),
            forall|j: int| from <= j < a ==> is_ws(v@[j]),
        decreases to - a,
    {
        a = a + 1;
    }
    let mut b = to;
    while b > a && is_ws_exec(v[b - 1])
        invariant
            from <= a <= b <= to <= v@.len(),
            forall|j: int| b <= j < to ==> is_ws(v@[j]),
        decreases b - a,
    {
        b = b - 1;
    }
    proof {
        let s = v@.subrange(from as int, to as int);
        lemma_trim_front_skip(s, a - from);
        assert(s.skip(a - from) =~= v@.subrange(a as int, to as int));
        let t = v@.subrange(a as int, to as int);
        assert(trim_front(s) == t);
        lemma_trim_back_take(t, b - a);
        assert(t.take(b - a) =~= v@.subrange(a as int, b as int));
        let u = v@.subrange(a as int, b as int);
        assert(trim_back(u) == u);
    }
    (a, b)
}

/// The lines of `v`, split at `'\n'`.
fn split_chars(v: &Vec<char>) -> (r: Vec<Vec<char>>)
    ensures
        line_views(r@) == split_lines(v@),
{
    let n = v.len();
    let mut r: Vec<Vec<char>> = Vec::new();
    let mut start: usize = 0;
    let mut done = false;
    proof {
        assert(v@.skip(0) =~= v@);
        assert(line_views(r@) + split_lines(v@) =~= split_lines(v@));
    }
    while !done
        invariant
            start <= n,
            n == v@.len(),
            !done ==> split_lines(v@) == line_views(r@) + split_lines(v@.skip(start as int)),
            done ==> split_lines(v@) == line_views(r@),
        decreases n - start + (if done {
            0int
        } else {
            1int
        }),
    {
        let mut i = start;
        while i < n && v[i] != '\n'
            invariant
                start <= i <= n,
                n == v@.len(),
                forall|j: int| start <= j < i ==> v@[j] != '\n',
            decreases n - i,
        {
            i = i + 1;
        }
        proof {
            let rest = v@.skip(start as int);
            assert(forall|j: int| 0 <= j < i - start ==> rest[j] != '\n');
            lemma_first_idx_is(rest, '\n', i - start);
        }
        let piece = sub_chars(v, start, i);
        r.push(piece);
        proof {
            let rest = v@.skip(start as int);
            if i < n {
                assert(rest.take(i - start) =~= v@.subrange(start as int, i as int));
                assert(rest.skip(i - start + 1) =~= v@.skip(i as int + 1));
                assert(line_views(r@) =~= line_views(r@.drop_last()) + seq![rest.take(i - start)]);
            } else {
                assert(rest.take(i - start) =~= rest);
                assert(first_idx(rest, '\n') == rest.len());
                assert(split_lines(rest) == seq![rest]);
                assert(v@.subrange(start as int, i as int) =~= rest);
                assert(line_views(r@) =~= line_views(r@.drop_last()) + seq![rest]);
            }
            assert(line_views(r@.drop_last()) =~= line_views(r@).drop_last());
        }
        if i < n {
            start = i + 1;
        } else {
            done = true;
        }
    }
    r
}

/// The model one line contributes, if any.
fn parse_line_exec(line: &Vec<char>) -> (r: Option<ModelInfo>)
    ensures
        r is Some <==> parse_line(line@) is Some,
        r is Some ==> (r->0)@ == parse_line(line@)->0,
{
    let n = line.len();
    let le = if n > 0 && {
        let c = line[n - 1];
        c == '\r'
    } {
        n - 1
    } else {
        n
    };
    proof {
        assert(strip_cr(line@) =~= line@.subrange(0, le as int));
    }
    let mut cnt: usize = 0;
    let mut p: usize = 0;
    let mut j: usize = 0;
    while j < le
        invariant
            j <= le <= line@.len(),
            cnt == count_char(line@.subrange(0, j as int), ':'),
            cnt <= j,
            cnt == 0 ==> forall|m: int| 0 <= m < j ==> line@[m] != ':',
            cnt >= 1 ==> (p < j && line@[p as int] == ':' && forall|m: int|
                0 <= m < p ==> line@[m] != ':'),
        decreases le - j,
    {
        proof {
            assert(line@.subrange(0, j as int + 1).drop_last() =~= line@.subrange(0, j as int));
        }
        if line[j] == ':' {
            if cnt == 0 {
                p = j;
            }
            cnt = cnt + 1;
        }
        j = j + 1;
    }
    proof {
        assert(line@.subrange(0, le as int) == strip_cr(line@));
    }
    if cnt == 1 {
        proof {
            let l = strip_cr(line@);
            assert(forall|m: int| 0 <= m < p ==> l[m] == line@[m] && l[m] != ':');
            assert(l[p as int] == ':');
            lemma_first_idx_is(l, ':', p as int);
        }
        let (a1, b1) = trim_bounds(line, 0, p);
        let (a2, b2) = trim_bounds(line, p + 1, le);
        let alias_chars = sub_chars(line, a1, b1);
        let name_chars = sub_chars(line, a2, b2);
        let m = ModelInfo {
            alias: chars_to_string(&alias_chars),
            full_name: chars_to_string(&name_chars),
        };
        proof {
            let l = strip_cr(line@);
            assert(l.take(p as int) =~= line@.subrange(0, p as int));
            assert(l.skip(p as int + 1) =~= line@.subrange(p as int + 1, le as int));
        }
        Some(m)
    } else {
        None
    }
}

/// The models named by the tool's full listing, in order of appearance.
pub fn parse_models(text: &str) -> (r: Vec<ModelInfo>)
    ensures
        model_views(r@) == models_of(text@),
{
    let chars = str_to_chars(text);
    let lines = split_chars(&chars);
    let mut out: Vec<ModelInfo> = Vec::new();
    let mut k: usize = 0;
    while k < lines.len()
        invariant
            k <= lines@.len(),
            line_views(lines@) == split_lines(chars@),
            chars@ == text@,
            model_views(out@) == models_of_lines(line_views(lines@).take(k as int)),
        decreases lines@.len() - k,
    {
        proof {
            assert(line_views(lines@).take(k as int + 1).drop_last() =~= line_views(
                lines@,
            ).take(k as int));
            assert(line_views(lines@).take(k as int + 1).last() == lines@[k as int]@);
        }
        match parse_line_exec(&lines[k]) {
            Some(m) => {
                out.push(m);
                proof {
                    assert(model_views(out@) =~= models_of_lines(
                        line_views(lines@).take(k as int + 1),
                    ));
                }
            },
            None => {
                proof {
                    assert(model_views(out@) =~= models_of_lines(
                        line_views(lines@).take(k as int + 1),
                    ));
                }
            },
        }
        k = k + 1;
    }
    proof {
        assert(line_views(lines@).take(lines@.len() as int) =~= line_views(lines@));
    }
    out
}

} // verus!
