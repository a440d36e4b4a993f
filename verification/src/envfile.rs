//! The `.env` file that supplies API keys to the Python child process.
//!
//! Each line is trimmed; blank lines and lines whose first character is `#`
//! are skipped; otherwise the line must hold a `=`, and the trimmed text
//! before the first `=` is the name, the trimmed text after it the value.
//! A later line overrides an earlier one. The variables read from the file
//! take precedence over those the process inherits (see
//! [`law_env_file_takes_precedence`]).
use vstd::prelude::*;
use crate::text::{
    is_white_space, trim, trim_start, trim_end, split_once, chars_of, string_from_range,
    trim_bounds, find_first,
};

verus! {

/// The pieces of `s` between `'\n'` separators. `str::lines` yields the same
/// pieces but a final empty one, and drops a `'\r'` before each `'\n'`; as
/// lines are trimmed, neither difference can change an assignment.
pub open spec fn split_lines(s: Seq<char>) -> Seq<Seq<char>>
    decreases s.len(),
{
    match s.index_of_first('\n') {
        Some(i) => {
            proof {
                s.index_of_first_ensures('\n');
            }
            seq![s.take(i)] + split_lines(s.skip(i + 1))
        },
        None => seq![s],
    }
}

/// The name and value that one line assigns, if it assigns any.
pub open spec fn parse_assignment(line: Seq<char>) -> Option<(Seq<char>, Seq<char>)> {
    let t = trim(line);
    if t.len() == 0 || t[0] == '#' {
        None
    } else {
        match split_once(t, '=') {
            Some((k, v)) => Some((trim(k), trim(v))),
            None => None,
        }
    }
}

/// `m` after one more line.
pub open spec fn apply_assignment(m: Map<Seq<char>, Seq<char>>, line: Seq<char>) -> Map<
    Seq<char>,
    Seq<char>,
> {
    match parse_assignment(line) {
        Some((k, v)) => m.insert(k, v),
        None => m,
    }
}

/// The variables that `lines` assign, read from first to last.
pub open spec fn assignments_of(lines: Seq<Seq<char>>) -> Map<
    Seq<char>,
    Seq<char>,
>
    decreases lines.len(),
{
    if lines.len() == 0 {
        Map::empty()
    } else {
        apply_assignment(assignments_of(lines.drop_last()), lines.last())
    }
}

/// The variables that a `.env` file with text `content` supplies.
pub open spec fn env_file_vars(content: Seq<char>) -> Map<
    Seq<char>,
    Seq<char>,
> {
    assignments_of(split_lines(content))
}

/// No name occurs twice in `pairs`.
pub open spec fn distinct_names(pairs: Seq<(String, String)>) -> bool {
    forall|i: int, j: int| 0 <= i < j < pairs.len() ==> pairs[i].0@ != pairs[j].0@
}

/// The map that `pairs` stand for, a later pair overriding an earlier one.
pub open spec fn pairs_map(pairs: Seq<(String, String)>) -> Map<Seq<char>, Seq<char>>
    decreases pairs.len(),
{
    if pairs.len() == 0 {
        Map::empty()
    } else {
        pairs_map(pairs.drop_last()).insert(pairs.last().0@, pairs.last().1@)
    }
}

proof fn lemma_pairs_map_update(s: Seq<(String, String)>, k: int, p: (String, String))
    requires
        0 <= k < s.len(),
        distinct_names(s),
        p.0@ == s[k].0@,
    ensures
        pairs_map(s.update(k, p)) == pairs_map(s).insert(p.0@, p.1@),
    decreases s.len(),
{
    let t = s.update(k, p);
    if k == s.len() - 1 {
        assert(t.drop_last() =~= s.drop_last());
        assert(pairs_map(t) =~= pairs_map(s).insert(p.0@, p.1@));
    } else {
        assert(t.drop_last() =~= s.drop_last().update(k, p));
        lemma_pairs_map_update(s.drop_last(), k, p);
        assert(s[k].0@ != s.last().0@);
        assert(pairs_map(t) =~= pairs_map(s).insert(p.0@, p.1@));
    }
}

proof fn lemma_split_lines_at(s: Seq<char>, i: int)
    requires
        0 <= i <= s.len(),
        forall|j: int| 0 <= j < i ==> s[j] != '\n',
        i < s.len() ==> s[i] == '\n',
    ensures
        split_lines(s) == if i < s.len() {
            seq![s.take(i)] + split_lines(s.skip(i + 1))
        } else {
            seq![s]
        },
{
    s.index_of_first_ensures('\n');
    if i < s.len() {
        assert(s.contains('\n'));
        let k = s.index_of_first('\n')->0;
        if k < i {
            assert(s[k] != '\n');
        }
        if k > i {
            assert(s[i] != '\n');
        }
    } else {
        if s.contains('\n') {
            let k = choose|k: int| 0 <= k < s.len() && s[k] == '\n';
            assert(s[k] != '\n');
        }
    }
}

/// The assignment on the line `chars[lo..hi]`, if it holds one.
fn parse_line_at(chars: &Vec<char>, lo: usize, hi: usize) -> (r: Option<(String, String)>)
    requires
        lo <= hi <= chars@.len(),
    ensures
        match r {
            Some((k, v)) => parse_assignment(chars@.subrange(lo as int, hi as int)) == Some(
                (k@, v@),
            ),
            None => parse_assignment(chars@.subrange(lo as int, hi as int)) is None,
        },
{
    let (a, b) = trim_bounds(chars, lo, hi);
    let ghost t = chars@.subrange(a as int, b as int);
    if a == b {
        return None;
    }
    assert(t[0] == chars@[a as int]);
    if chars[a] == '#' {
        return None;
    }
    match find_first(chars, a, b, '=') {
        None => None,
        Some(k) => {
            proof {
                t.index_of_first_ensures('=');
            }
            assert(t.take(k as int) =~= chars@.subrange(a as int, (a + k) as int));
            assert(t.skip(k + 1) =~= chars@.subrange((a + k + 1) as int, b as int));
            let (ka, kb) = trim_bounds(chars, a, a + k);
            let (va, vb) = trim_bounds(chars, a + k + 1, b);
            let key = string_from_range(chars, ka, kb);
            let value = string_from_range(chars, va, vb);
            Some((key, value))
        },
    }
}

/// Adds `name = value` to `out`, replacing an earlier value of `name`.
fn set_pair(out: &mut Vec<(String, String)>, name: String, value: String)
    requires
        distinct_names(old(out)@),
    ensures
        distinct_names(final(out)@),
        pairs_map(final(out)@) == pairs_map(old(out)@).insert(name@, value@),
{
    let mut i: usize = 0;
    while i < out.len()
        invariant
            i <= out@.len(),
            out@ == old(out)@,
            distinct_names(out@),
            forall|j: int| 0 <= j < i ==> out@[j].0@ != name@,
        decreases out@.len() - i,
    {
        if out[i].0 == name {
            let ghost before = out@;
            let ghost p = (name, value);
            proof {
                lemma_pairs_map_update(before, i as int, p);
            }
            out.set(i, (name, value));
            assert(out@ == before.update(i as int, p));
            return;
        }
        i += 1;
    }
    let ghost before = out@;
    out.push((name, value));
    assert(out@.drop_last() =~= before);
}

/// Reads the variables that a `.env` file with text `content` supplies.
pub fn parse_env_file(content: &str) -> (r: Vec<(String, String)>)
    ensures
        distinct_names(r@),
        pairs_map(r@) == env_file_vars(content@),
{
    let chars = chars_of(content);
    let n = chars.len();
    let mut out: Vec<(String, String)> = Vec::new();
    let ghost mut done: Seq<Seq<char>> = seq![];
    let mut start: usize = 0;
    let mut i: usize = 0;
    assert(chars@.subrange(0, n as int) =~= chars@);
    assert(done + split_lines(chars@) =~= split_lines(chars@));
    loop
        invariant_except_break
            start <= i <= n,
            forall|j: int| start <= j < i ==> chars@[j] != '\n',
            split_lines(chars@) == done + split_lines(chars@.subrange(start as int, n as int)),
        invariant
            n == chars@.len(),
            chars@ == content@,
            distinct_names(out@),
            pairs_map(out@) == assignments_of(done),
        ensures
            done == split_lines(chars@),
        decreases n - i,
    {
        if i == n || chars[i] == '\n' {
            let ghost piece = chars@.subrange(start as int, i as int);
            let ghost s = chars@.subrange(start as int, n as int);
            proof {
                lemma_split_lines_at(s, i - start);
                assert(s.take(i - start) =~= piece);
                if i < n {
                    assert(s.skip(i - start + 1) =~= chars@.subrange(i + 1, n as int));
                } else {
                    assert(s =~= piece);
                }
            }
            match parse_line_at(&chars, start, i) {
                Some((name, value)) => {
                    set_pair(&mut out, name, value);
                },
                None => {},
            }
            proof {
                assert(done.push(piece).drop_last() =~= done);
                done = done.push(piece);
            }
            if i == n {
                assert(done =~= split_lines(chars@));
                break;
            }
            assert(split_lines(chars@) =~= done + split_lines(
                chars@.subrange(i + 1, n as int),
            ));
            start = i + 1;
            i = i + 1;
        } else {
            i = i + 1;
        }
    }
    out
}

} // verus!

verus! {

proof fn lemma_trim_start_shape(s: Seq<char>)
    ensures
        trim_start(s).len() <= s.len(),
        trim_start(s) == s.skip(s.len() - trim_start(s).len()),
        trim_start(s).len() > 0 ==> !is_white_space(trim_start(s)[0]),
    decreases s.len(),
{
    if s.len() > 0 && is_white_space(s[0]) {
        lemma_trim_start_shape(s.drop_first());
        assert(s.drop_first().skip(s.drop_first().len() - trim_start(s).len()) =~= s.skip(
            s.len() - trim_start(s).len(),
        ));
    } else {
        assert(s.skip(0) =~= s);
    }
}

proof fn lemma_trim_end_shape(s: Seq<char>)
    ensures
        trim_end(s).len() <= s.len(),
        trim_end(s) == s.take(trim_end(s).len() as int),
        trim_end(s).len() > 0 ==> !is_white_space(trim_end(s).last()),
    decreases s.len(),
{
    if s.len() > 0 && is_white_space(s.last()) {
        lemma_trim_end_shape(s.drop_last());
        assert(s.drop_last().take(trim_end(s).len() as int) =~= s.take(
            trim_end(s).len() as int,
        ));
    } else {
        assert(s.take(s.len() as int) =~= s);
    }
}

/// A trimmed text neither starts nor ends with whitespace.
pub proof fn lemma_trimmed_edges(s: Seq<char>)
    ensures
        trim(s).len() > 0 ==> !is_white_space(trim(s)[0]) && !is_white_space(trim(s).last()),
{
    let t = trim_start(s);
    lemma_trim_start_shape(s);
    lemma_trim_end_shape(t);
    if trim(s).len() > 0 {
        assert(trim(s)[0] == t[0]);
    }
}

proof fn lemma_assignments_trimmed(lines: Seq<Seq<char>>, name: Seq<char>)
    requires
        assignments_of(lines).contains_key(name),
    ensures
        name.len() > 0 ==> !is_white_space(name[0]) && !is_white_space(name.last()),
        ({
            let v = assignments_of(lines)[name];
            v.len() > 0 ==> !is_white_space(v[0]) && !is_white_space(v.last())
        }),
    decreases lines.len(),
{
    if lines.len() > 0 {
        let prev = assignments_of(lines.drop_last());
        match parse_assignment(lines.last()) {
            Some((k, v)) => {
                let t = trim(lines.last());
                let (a, b) = split_once(t, '=')->0;
                lemma_trimmed_edges(a);
                lemma_trimmed_edges(b);
                if k != name {
                    lemma_assignments_trimmed(lines.drop_last(), name);
                }
            },
            None => {
                lemma_assignments_trimmed(lines.drop_last(), name);
            },
        }
    }
}

/// Every name and value read from a `.env` file is trimmed: none starts or
/// ends with whitespace.
pub proof fn law_names_and_values_trimmed(content: Seq<char>, name: Seq<char>)
    requires
        env_file_vars(content).contains_key(name),
    ensures
        name.len() > 0 ==> !is_white_space(name[0]) && !is_white_space(name.last()),
        ({
            let v = env_file_vars(content)[name];
            v.len() > 0 ==> !is_white_space(v[0]) && !is_white_space(v.last())
        }),
{
    lemma_assignments_trimmed(split_lines(content), name);
}

proof fn lemma_split_lines_append(a: Seq<char>, b: Seq<char>)
    ensures
        split_lines(a + seq!['\n'] + b) == split_lines(a) + split_lines(b),
    decreases a.len(),
{
    let s = a + seq!['\n'] + b;
    a.index_of_first_ensures('\n');
    match a.index_of_first('\n') {
        Some(i) => {
            assert forall|j: int| 0 <= j < i implies s[j] != '\n' by {
                assert(s[j] == a[j]);
            }
            assert(s[i] == a[i]);
            lemma_split_lines_at(s, i);
            lemma_split_lines_at(a, i);
            assert(s.take(i) =~= a.take(i));
            assert(s.skip(i + 1) =~= a.skip(i + 1) + seq!['\n'] + b);
            lemma_split_lines_append(a.skip(i + 1), b);
            assert(split_lines(s) =~= split_lines(a) + split_lines(b));
        },
        None => {
            assert forall|j: int| 0 <= j < a.len() implies s[j] != '\n' by {
                assert(s[j] == a[j]);
                if a[j] == '\n' {
                    assert(a.contains('\n'));
                }
            }
            lemma_split_lines_at(s, a.len() as int);
            lemma_split_lines_at(a, a.len() as int);
            assert(s.take(a.len() as int) =~= a);
            assert(s.skip((a.len() + 1) as int) =~= b);
            assert(split_lines(s) =~= split_lines(a) + split_lines(b));
        },
    }
}

/// A `.env` file is read line by line: appending one more line to a file
/// changes its variables exactly as that line says. Hence a blank line or a
/// comment (a trimmed line starting with `#`) changes nothing, and a later
/// assignment of a name replaces an earlier one.
pub proof fn law_appended_line(content: Seq<char>, line: Seq<char>)
    requires
        !line.contains('\n'),
    ensures
        env_file_vars(content + seq!['\n'] + line) == apply_assignment(
            env_file_vars(content),
            line,
        ),
{
    lemma_split_lines_append(content, line);
    lemma_split_lines_at(line, line.len() as int);
    let lines = split_lines(content) + seq![line];
    assert(lines.drop_last() =~= split_lines(content));
}


proof fn lemma_trim_start_append(x: Seq<char>, y: Seq<char>)
    ensures
        trim_start(x + y) == if trim_start(x).len() > 0 {
            trim_start(x) + y
        } else {
            trim_start(y)
        },
    decreases x.len(),
{
    if x.len() == 0 {
        assert(x + y =~= y);
    } else if is_white_space(x[0]) {
        assert((x + y).drop_first() =~= x.drop_first() + y);
        lemma_trim_start_append(x.drop_first(), y);
    }
}

proof fn lemma_trim_end_append(x: Seq<char>, y: Seq<char>)
    ensures
        trim_end(x + y) == if trim_end(y).len() > 0 {
            x + trim_end(y)
        } else {
            trim_end(x)
        },
    decreases y.len(),
{
    if y.len() == 0 {
        assert(x + y =~= x);
    } else if is_white_space(y.last()) {
        assert((x + y).drop_last() =~= x + y.drop_last());
        lemma_trim_end_append(x, y.drop_last());
    }
}

proof fn lemma_trim_start_idempotent(s: Seq<char>)
    ensures
        trim_start(trim_start(s)) == trim_start(s),
{
    lemma_trim_start_shape(s);
}

proof fn lemma_trim_end_idempotent(s: Seq<char>)
    ensures
        trim_end(trim_end(s)) == trim_end(s),
{
    lemma_trim_end_shape(s);
}

proof fn lemma_trim_end_keeps_first(s: Seq<char>)
    requires
        s.len() > 0,
        !is_white_space(s[0]),
    ensures
        trim_end(s).len() > 0,
        trim_end(s)[0] == s[0],
    decreases s.len(),
{
    if is_white_space(s.last()) {
        lemma_trim_end_keeps_first(s.drop_last());
    }
}

proof fn lemma_trim_ends_commute(v: Seq<char>)
    ensures
        trim_start(trim_end(v)) == trim_end(trim_start(v)),
    decreases v.len(),
{
    if v.len() > 0 {
        if is_white_space(v[0]) {
            let r = v.drop_first();
            lemma_trim_ends_commute(r);
            assert(v =~= seq![v[0]] + r);
            lemma_trim_end_append(seq![v[0]], r);
            assert(trim_start(v) == trim_start(r));
            if trim_end(r).len() > 0 {
                let w = seq![v[0]] + trim_end(r);
                assert(w[0] == v[0]);
                assert(w.drop_first() =~= trim_end(r));
                assert(trim_start(w) == trim_start(trim_end(r)));
            } else {
                assert(seq![v[0]].drop_last() =~= Seq::<char>::empty());
                assert(trim_end(seq![v[0]]) == trim_end(Seq::<char>::empty()));
                assert(trim_end(r) =~= Seq::<char>::empty());
            }
        } else {
            lemma_trim_end_keeps_first(v);
            assert(trim_start(v) == v);
        }
    }
}

proof fn lemma_trim_around_equals(k: Seq<char>, v: Seq<char>)
    ensures
        trim(k + seq!['='] + v) == trim_start(k) + seq!['='] + trim_end(v),
{
    let line = k + seq!['='] + v;
    let ks = trim_start(k);
    let eq = seq!['='];
    assert(!is_white_space('='));
    assert(line =~= k + (eq + v));
    lemma_trim_start_append(k, eq + v);
    assert(trim_start(eq + v) == eq + v);
    assert(trim_start(line) =~= (ks + eq) + v);
    lemma_trim_end_append(ks + eq, v);
    assert(trim_end(ks + eq) == ks + eq) by {
        assert((ks + eq).last() == '=');
    }
    assert(trim(line) =~= ks + eq + trim_end(v));
}

/// A line `name=value` assigns the trimmed name the trimmed value,
/// character for character, whatever the value holds (another `=` too),
/// where the name holds no `=` and, trimmed, does not start with `#`.
pub proof fn law_assignment_line(k: Seq<char>, v: Seq<char>)
    requires
        !k.contains('='),
        trim(k).len() == 0 || trim(k)[0] != '#',
    ensures
        parse_assignment(k + seq!['='] + v) == Some((trim(k), trim(v))),
{
    let line = k + seq!['='] + v;
    let ks = trim_start(k);
    let ve = trim_end(v);
    lemma_trim_around_equals(k, v);
    lemma_trim_start_shape(k);
    let t = trim(line);
    if ks.len() > 0 {
        lemma_trim_end_keeps_first(ks);
        assert(t[0] == ks[0]);
    } else {
        assert(t[0] == '=');
    }
    assert(t[0] != '#');
    assert forall|j: int| 0 <= j < ks.len() implies ks[j] != '=' by {
        assert(ks[j] == k[j + k.len() - ks.len()]);
        if ks[j] == '=' {
            assert(k.contains('='));
        }
    }
    t.index_of_first_ensures('=');
    assert(t[ks.len() as int] == '=');
    assert(t.contains('='));
    let i = t.index_of_first('=')->0;
    if i < ks.len() {
        assert(t[i] == ks[i]);
    }
    assert(i == ks.len());
    assert(t.take(i) =~= ks);
    assert(t.skip(i + 1) =~= ve);
    lemma_trim_start_idempotent(k);
    lemma_trim_ends_commute(v);
    lemma_trim_end_idempotent(trim_start(v));
}

/// Whatever a `.env` file held before, a line `name=value` added at its
/// end (as in [`law_assignment_line`]) gives the trimmed name the trimmed
/// value.
pub proof fn law_last_assignment_wins(content: Seq<char>, k: Seq<char>, v: Seq<char>)
    requires
        !k.contains('='),
        !k.contains('\n'),
        !v.contains('\n'),
        trim(k).len() == 0 || trim(k)[0] != '#',
    ensures
        env_file_vars(content + seq!['\n'] + (k + seq!['='] + v)).contains_key(trim(k)),
        env_file_vars(content + seq!['\n'] + (k + seq!['='] + v))[trim(k)] == trim(v),
{
    let line = k + seq!['='] + v;
    assert(!line.contains('\n')) by {
        if line.contains('\n') {
            let j = choose|j: int| 0 <= j < line.len() && line[j] == '\n';
            if j < k.len() {
                assert(k[j] == '\n');
            } else if j > k.len() {
                assert(v[j - k.len() - 1] == '\n');
            }
        }
    }
    law_appended_line(content, line);
    law_assignment_line(k, v);
}

/// A line that is blank, or whose first character after leading whitespace
/// is `#`, assigns nothing, whatever follows; so does a line without `=`.
pub proof fn law_blank_comment_and_bare_lines(line: Seq<char>)
    ensures
        trim(line).len() == 0 ==> parse_assignment(line) is None,
        trim_start(line).len() > 0 && trim_start(line)[0] == '#' ==> parse_assignment(line) is None,
        !line.contains('=') ==> parse_assignment(line) is None,
{
    let ls = trim_start(line);
    let t = trim(line);
    lemma_trim_start_shape(line);
    lemma_trim_end_shape(ls);
    if ls.len() > 0 {
        assert(!is_white_space(ls[0]));
        lemma_trim_end_keeps_first(ls);
    }
    if !line.contains('=') && t.len() > 0 {
        t.index_of_first_ensures('=');
        if t.contains('=') {
            let j = choose|j: int| 0 <= j < t.len() && t[j] == '=';
            assert(t[j] == ls[j]);
            assert(ls[j] == line[j + line.len() - ls.len()]);
        }
    }
}

} // verus!
