//! Character-level text helpers: Unicode whitespace, trimming, splitting at
//! the first occurrence of a character, and building `String`s from chars.
use vstd::prelude::*;

verus! {

/// The Unicode `White_Space` property, the set that `char::is_whitespace`
/// and `str::trim` go by.
pub open spec fn is_white_space(c: char) -> bool {
    let u = c as u32;
    ||| 0x09 <= u <= 0x0d
    ||| u == 0x20
    ||| u == 0x85
    ||| u == 0xa0
    ||| u == 0x1680
    ||| 0x2000 <= u <= 0x200a
    ||| u == 0x2028
    ||| u == 0x2029
    ||| u == 0x202f
    ||| u == 0x205f
    ||| u == 0x3000
}

/// `s` without its leading whitespace.
pub open spec fn trim_start(s: Seq<char>) -> Seq<char>
    decreases s.len(),
{
    if s.len() > 0 && is_white_space(s[0]) {
        trim_start(s.drop_first())
    } else {
        s
    }
}

/// `s` without its trailing whitespace.
pub open spec fn trim_end(s: Seq<char>) -> Seq<char>
    decreases s.len(),
{
    if s.len() > 0 && is_white_space(s.last()) {
        trim_end(s.drop_last())
    } else {
        s
    }
}

/// `s` without leading and trailing whitespace, as `str::trim` gives it.
pub open spec fn trim(s: Seq<char>) -> Seq<char> {
    trim_end(trim_start(s))
}

/// The parts of `s` before and after the first `c`, as `str::split_once`
/// gives them; `None` when `c` does not occur.
pub open spec fn split_once(s: Seq<char>, c: char) -> Option<(Seq<char>, Seq<char>)> {
    match s.index_of_first(c) {
        Some(i) => Some((s.take(i), s.skip(i + 1))),
        None => None,
    }
}

/// Whether `c` has the Unicode `White_Space` property.
pub fn is_whitespace_char(c: char) -> (r: bool)
    ensures
        r == is_white_space(c),
{
    let u = c as u32;
    (0x09 <= u && u <= 0x0d) || u == 0x20 || u == 0x85 || u == 0xa0 || u == 0x1680 || (0x2000
        <= u && u <= 0x200a) || u == 0x2028 || u == 0x2029 || u == 0x202f || u == 0x205f || u
        == 0x3000
}

/// Appends one character to a `String` (`String::push`).
#[verifier::external_body]
fn push_char(s: &mut String, c: char)
    ensures
        final(s)@ == old(s)@.push(c),
{
    s.push(c);
}

/// The characters of `s`, in order.
pub fn chars_of(s: &str) -> (r: Vec<char>)
    ensures
        r@ == s@,
{
    let mut out: Vec<char> = Vec::new();
    for c in it: s.chars()
        invariant
            out@ == it.seq().take(it.index() as int),
    {
        out.push(c);
    }
    out
}

/// The `String` made of `chars[lo..hi]`.
pub fn string_from_range(chars: &Vec<char>, lo: usize, hi: usize) -> (r: String)
    requires
        lo <= hi <= chars@.len(),
    ensures
        r@ == chars@.subrange(lo as int, hi as int),
{
    let mut out = String::new();
    let mut i = lo;
    while i < hi
        invariant
            lo <= i <= hi <= chars@.len(),
            out@ == chars@.subrange(lo as int, i as int),
        decreases hi - i,
    {
        push_char(&mut out, chars[i]);
        proof {
            assert(chars@.subrange(lo as int, i + 1) =~= chars@.subrange(lo as int, i as int).push(
                chars@[i as int],
            ));
        }
        i += 1;
    }
    out
}

/// The bounds of `trim(chars[lo..hi])` inside `chars`.
pub fn trim_bounds(chars: &Vec<char>, lo: usize, hi: usize) -> (r: (usize, usize))
    requires
        lo <= hi <= chars@.len(),
    ensures
        lo <= r.0 <= r.1 <= hi,
        chars@.subrange(r.0 as int, r.1 as int) == trim(chars@.subrange(lo as int, hi as int)),
{
    let mut a = lo;
    while a < hi && is_whitespace_char(chars[a])
        invariant
            lo <= a <= hi <= chars@.len(),
            trim_start(chars@.subrange(lo as int, hi as int)) == trim_start(
                chars@.subrange(a as int, hi as int),
            ),
        decreases hi - a,
    {
        proof {
            assert(chars@.subrange(a as int, hi as int).drop_first() =~= chars@.subrange(
                a + 1,
                hi as int,
            ));
        }
        a += 1;
    }
    assert(trim_start(chars@.subrange(a as int, hi as int)) == chars@.subrange(a as int, hi as int));
    let mut b = hi;
    while b > a && is_whitespace_char(chars[b - 1])
        invariant
            lo <= a <= b <= hi <= chars@.len(),
            trim_end(chars@.subrange(a as int, hi as int)) == trim_end(
                chars@.subrange(a as int, b as int),
            ),
        decreases b - a,
    {
        proof {
            assert(chars@.subrange(a as int, b as int).drop_last() =~= chars@.subrange(
                a as int,
                b - 1,
            ));
        }
        b -= 1;
    }
    assert(trim_end(chars@.subrange(a as int, b as int)) == chars@.subrange(a as int, b as int));
    (a, b)
}

/// The index of the first `c` in `chars[lo..hi]`, counted from `lo`.
pub fn find_first(chars: &Vec<char>, lo: usize, hi: usize, c: char) -> (r: Option<usize>)
    requires
        lo <= hi <= chars@.len(),
    ensures
        match r {
            Some(i) => chars@.subrange(lo as int, hi as int).index_of_first(c) == Some(i as int),
            None => chars@.subrange(lo as int, hi as int).index_of_first(c) is None,
        },
{
    let ghost s = chars@.subrange(lo as int, hi as int);
    proof {
        s.index_of_first_ensures(c);
    }
    let mut i = lo;
    while i < hi
        invariant
            lo <= i <= hi <= chars@.len(),
            s == chars@.subrange(lo as int, hi as int),
            forall|j: int| 0 <= j < i - lo ==> s[j] != c,
        decreases hi - i,
    {
        if chars[i] == c {
            proof {
                s.index_of_first_ensures(c);
                assert(s[i - lo] == c);
                assert(s.contains(c));
                let k = s.index_of_first(c)->0;
                assert(k == i - lo) by {
                    if k < i - lo {
                        assert(s[k] != c);
                    }
                    if k > i - lo {
                        assert(s[i - lo] != c);
                    }
                }
            }
            return Some(i - lo);
        }
        i += 1;
    }
    proof {
        s.index_of_first_ensures(c);
        if s.contains(c) {
            let k = choose|k: int| 0 <= k < s.len() && s[k] == c;
            assert(s[k] != c);
        }
    }
    None
}

/// `s` with leading and trailing whitespace removed (`str::trim`).
pub fn str_trim(s: &str) -> (r: String)
    ensures
        r@ == trim(s@),
{
    let chars = chars_of(s);
    let (a, b) = trim_bounds(&chars, 0, chars.len());
    assert(chars@.subrange(0, chars@.len() as int) =~= chars@);
    string_from_range(&chars, a, b)
}

/// Whether `s` is empty or all whitespace (`s.trim().is_empty()`).
pub fn is_blank(s: &str) -> (r: bool)
    ensures
        r == (trim(s@).len() == 0),
{
    let chars = chars_of(s);
    let (a, b) = trim_bounds(&chars, 0, chars.len());
    assert(chars@.subrange(0, chars@.len() as int) =~= chars@);
    a == b
}

/// `a` followed by `b`.
pub fn concat(a: &str, b: &str) -> (r: String)
    ensures
        r@ == a@ + b@,
{
    let mut out = a.to_owned();
    out.append(b);
    out
}

} // verus!
