//! Character-sequence specifications and verified text helpers.
//!
//! Everything the parsers say about text is said in terms of these
//! specifications: occurrence of one sequence inside another, trimming of
//! surrounding whitespace, and joining of a base URL with a relative path.
use vstd::prelude::*;
use vstd::string::*;

verus! {

/// `needle` occurs in `hay` starting at position `i`.
pub open spec fn contains_at(hay: Seq<char>, needle: Seq<char>, i: int) -> bool {
    0 <= i && i + needle.len() <= hay.len() && hay.subrange(i, i + needle.len()) == needle
}

/// `needle` occurs somewhere in `hay`.
pub open spec fn contains_seq(hay: Seq<char>, needle: Seq<char>) -> bool {
    exists|i: int| contains_at(hay, needle, i)
}

/// `i` is the position of the first occurrence of `needle` in `hay`.
pub open spec fn is_first_match(hay: Seq<char>, needle: Seq<char>, i: int) -> bool {
    &&& contains_at(hay, needle, i)
    &&& forall|j: int| 0 <= j < i ==> !contains_at(hay, needle, j)
}

/// The position of the first occurrence of `needle` in `hay`; meaningful
/// only when `contains_seq(hay, needle)` holds.
pub open spec fn first_match_index(hay: Seq<char>, needle: Seq<char>) -> int {
    choose|i: int| is_first_match(hay, needle, i)
}

/// Whenever some occurrence exists, a first occurrence exists, so
/// `first_match_index` picks a well-defined position.
pub proof fn lemma_first_match_exists(hay: Seq<char>, needle: Seq<char>, i: int)
    requires
        contains_at(hay, needle, i),
    ensures
        is_first_match(hay, needle, first_match_index(hay, needle)),
    decreases i,
{
    if exists|j: int| 0 <= j < i && contains_at(hay, needle, j) {
        let j = choose|j: int| 0 <= j < i && contains_at(hay, needle, j);
        lemma_first_match_exists(hay, needle, j);
    } else {
        assert(is_first_match(hay, needle, i));
        let w = first_match_index(hay, needle);
        assert(is_first_match(hay, needle, w));
    }
}

/// The characters treated as removable whitespace at the ends of a line.
pub open spec fn is_space_char(c: char) -> bool {
    c == ' ' || c == '\t' || c == '\n' || c == '\r'
}

/// `s` with its leading whitespace removed.
pub open spec fn trim_front(s: Seq<char>) -> Seq<char>
    decreases s.len(),
{
    if s.len() > 0 && is_space_char(s[0]) {
        trim_front(s.drop_first())
    } else {
        s
    }
}

/// `s` with its trailing whitespace removed.
pub open spec fn trim_back(s: Seq<char>) -> Seq<char>
    decreases s.len(),
{
    if s.len() > 0 && is_space_char(s.last()) {
        trim_back(s.drop_last())
    } else {
        s
    }
}

/// `s` with whitespace removed from both ends.
pub open spec fn trim_spec(s: Seq<char>) -> Seq<char> {
    trim_back(trim_front(s))
}

/// Everything after the first occurrence of `needle` in `hay`; meaningful
/// only when `contains_seq(hay, needle)` holds.
pub open spec fn after_first(hay: Seq<char>, needle: Seq<char>) -> Seq<char> {
    hay.subrange(first_match_index(hay, needle) + needle.len(), hay.len() as int)
}

/// The value carried by a recognized line: everything after the first
/// occurrence of the marker, trimmed.
pub open spec fn line_value(line: Seq<char>, marker: Seq<char>) -> Seq<char> {
    trim_spec(after_first(line, marker))
}

/// `s` ends with `suffix`.
pub open spec fn ends_with(s: Seq<char>, suffix: Seq<char>) -> bool {
    suffix.len() <= s.len() && s.subrange(s.len() - suffix.len(), s.len() as int) == suffix
}

/// A base URL joined with a possibly site-relative path: one trailing slash
/// of the base and one leading slash of the path collapse into the single
/// separator between them.
pub open spec fn url_join(base: Seq<char>, relative: Seq<char>) -> Seq<char> {
    let b = if base.len() > 0 && base.last() == '/' {
        base.drop_last()
    } else {
        base
    };
    let r = if relative.len() > 0 && relative.first() == '/' {
        relative.drop_first()
    } else {
        relative
    };
    b + seq!['/'] + r
}

/// Whether `needle` occurs in `hay` starting at position `i`.
pub fn match_at(hay: &str, needle: &str, i: usize) -> (b: bool)
    ensures
        b == contains_at(hay@, needle@, i as int),
{
    let hl = hay.unicode_len();
    let nl = needle.unicode_len();
    if i > hl || nl > hl - i {
        return false;
    }
    let mut k: usize = 0;
    while k < nl
        invariant
            k <= nl,
            i + nl <= hl,
            hl == hay@.len(),
            nl == needle@.len(),
            forall|m: int| 0 <= m < k ==> hay@[i + m] == needle@[m],
        decreases nl - k,
    {
        if hay.get_char(i + k) != needle.get_char(k) {
            assert(hay@.subrange(i as int, i + nl) != needle@) by {
                assert(hay@.subrange(i as int, i + nl)[k as int] == hay@[i + k]);
            }
            return false;
        }
        k += 1;
    }
    assert(hay@.subrange(i as int, i + nl) =~= needle@);
    true
}

/// The position of the first occurrence of `needle` in `hay`, if any.
pub fn find_first(hay: &str, needle: &str) -> (r: Option<usize>)
    ensures
        match r {
            Some(i) => is_first_match(hay@, needle@, i as int),
            None => !contains_seq(hay@, needle@),
        },
{
    let hl = hay.unicode_len();
    let nl = needle.unicode_len();
    if nl > hl {
        assert(forall|j: int| !contains_at(hay@, needle@, j));
        return None;
    }
    if nl == 0 {
        assert(hay@.subrange(0, 0) =~= needle@);
        assert(contains_at(hay@, needle@, 0));
        return Some(0);
    }
    let mut i: usize = 0;
    while i <= hl - nl
        invariant
            i <= hl - nl + 1,
            1 <= nl <= hl,
            hl == hay@.len(),
            nl == needle@.len(),
            forall|j: int| 0 <= j < i ==> !contains_at(hay@, needle@, j),
        decreases hl - nl - i + 1,
    {
        if match_at(hay, needle, i) {
            return Some(i);
        }
        i += 1;
    }
    assert(forall|j: int| !contains_at(hay@, needle@, j));
    None
}

/// Whether `needle` occurs anywhere in `hay`.
pub fn contains_str(hay: &str, needle: &str) -> (b: bool)
    ensures
        b == contains_seq(hay@, needle@),
{
    let r = find_first(hay, needle);
    match r {
        Some(i) => {
            assert(contains_at(hay@, needle@, i as int));
            true
        },
        None => false,
    }
}

/// `s` with whitespace removed from both ends.
pub fn trim_str<'a>(s: &'a str) -> (r: &'a str)
    ensures
        r@ == trim_spec(s@),
{
    let n = s.unicode_len();
    proof {
        assert(s@.subrange(0, n as int) =~= s@);
    }
    let mut a: usize = 0;
    while a < n && is_space_exec(s.get_char(a))
        invariant
            a <= n,
            n == s@.len(),
            trim_front(s@) == trim_front(s@.subrange(a as int, n as int)),
        decreases n - a,
    {
        proof {
            let u = s@.subrange(a as int, n as int);
            assert(u.drop_first() =~= s@.subrange(a + 1, n as int));
        }
        a += 1;
    }
    proof {
        let u = s@.subrange(a as int, n as int);
        if a < n {
            assert(trim_front(u) == u);
        } else {
            assert(u =~= Seq::<char>::empty());
        }
    }
    let mut b: usize = n;
    while b > a && is_space_exec(s.get_char(b - 1))
        invariant
            a <= b <= n,
            n == s@.len(),
            trim_front(s@) == s@.subrange(a as int, n as int),
            trim_back(s@.subrange(a as int, n as int)) == trim_back(
                s@.subrange(a as int, b as int),
            ),
        decreases b,
    {
        proof {
            let u = s@.subrange(a as int, b as int);
            assert(u.last() == s@[b - 1]);
            assert(u.drop_last() =~= s@.subrange(a as int, b - 1));
        }
        b -= 1;
    }
    proof {
        let u = s@.subrange(a as int, b as int);
        if b > a {
            assert(trim_back(u) == u);
        } else {
            assert(u =~= Seq::<char>::empty());
        }
    }
    s.substring_char(a, b)
}

fn is_space_exec(c: char) -> (b: bool)
    ensures
        b == is_space_char(c),
{
    c == ' ' || c == '\t' || c == '\n' || c == '\r'
}

/// The trimmed text after the first occurrence of `line_prefix` in
/// `raw_line`, or nothing when the prefix does not occur.
pub fn general_parse(raw_line: &str, line_prefix: &str) -> (r: Option<String>)
    ensures
        match r {
            Some(v) => contains_seq(raw_line@, line_prefix@) && v@ == line_value(
                raw_line@,
                line_prefix@,
            ),
            None => !contains_seq(raw_line@, line_prefix@),
        },
{
    let found = find_first(raw_line, line_prefix);
    match found {
        None => None,
        Some(i) => {
            proof {
                assert(contains_at(raw_line@, line_prefix@, i as int));
                lemma_first_match_exists(raw_line@, line_prefix@, i as int);
                assert(first_match_index(raw_line@, line_prefix@) == i as int);
            }
            let hl = raw_line.unicode_len();
            let nl = line_prefix.unicode_len();
            let tail = raw_line.substring_char(i + nl, hl);
            let v = trim_str(tail);
            Some(v.to_owned())
        },
    }
}

/// `s` ends with `suffix`.
pub fn ends_with_str(s: &str, suffix: &str) -> (b: bool)
    ensures
        b == ends_with(s@, suffix@),
{
    let sl = s.unicode_len();
    let pl = suffix.unicode_len();
    if pl > sl {
        return false;
    }
    match_at(s, suffix, sl - pl)
}

/// The base URL joined with a possibly site-relative path, with exactly one
/// separator between them.
pub fn construct_full_url(base_url: &str, relative_url: &str) -> (r: String)
    ensures
        r@ == url_join(base_url@, relative_url@),
{
    proof {
        reveal_strlit("/");
    }
    let bl = base_url.unicode_len();
    let base_part = if bl > 0 && base_url.get_char(bl - 1) == '/' {
        proof {
            assert(base_url@.subrange(0, bl - 1) =~= base_url@.drop_last());
        }
        base_url.substring_char(0, bl - 1)
    } else {
        proof {
            assert(base_url@.subrange(0, bl as int) =~= base_url@);
        }
        base_url.substring_char(0, bl)
    };
    let rl = relative_url.unicode_len();
    let rel_part = if rl > 0 && relative_url.get_char(0) == '/' {
        proof {
            assert(relative_url@.subrange(1, rl as int) =~= relative_url@.drop_first());
        }
        relative_url.substring_char(1, rl)
    } else {
        proof {
            assert(relative_url@.subrange(0, rl as int) =~= relative_url@);
        }
        relative_url.substring_char(0, rl)
    };
    let joined = base_part.to_owned().concat("/").concat(rel_part);
    proof {
        assert(joined@ =~= url_join(base_url@, relative_url@));
    }
    joined
}

} // verus!
