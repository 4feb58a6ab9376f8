//! Verified text utilities: whitespace scanning, trimming, substring
//! search, line splitting and character replacement.  Process listings,
//! SSH diagnostics and listen addresses are all plain text, so the whole
//! library rests on these.

use vstd::prelude::*;

verus! {

/// A character counts as whitespace for trimming and column splitting:
/// the ASCII blank characters.
pub open spec fn is_space(c: char) -> bool {
    c == ' ' || c == '\t' || c == '\n' || c == '\r' || c == '\x0b' || c == '\x0c'
}

/// Executable whitespace test, equal to `is_space`.
pub fn space_char(c: char) -> (b: bool)
    ensures
        b == is_space(c),
{
    c == ' ' || c == '\t' || c == '\n' || c == '\r' || c == '\x0b' || c == '\x0c'
}

/// Index of the first occurrence of `c` in `s`, or `s.len()` if `c` does
/// not occur.
pub open spec fn first_index(s: Seq<char>, c: char) -> int
    decreases s.len(),
{
    if s.len() == 0 {
        0
    } else if s[0] == c {
        0
    } else {
        1 + first_index(s.skip(1), c)
    }
}

pub proof fn lemma_first_index(s: Seq<char>, c: char)
    ensures
        0 <= first_index(s, c) <= s.len(),
        forall|j: int| 0 <= j < first_index(s, c) ==> s[j] != c,
        first_index(s, c) < s.len() ==> s[first_index(s, c)] == c,
    decreases s.len(),
{
    if s.len() == 0 {
    } else if s[0] == c {
    } else {
        lemma_first_index(s.skip(1), c);
        let fi = first_index(s, c);
        assert forall|j: int| 0 <= j < fi implies s[j] != c by {
            if j > 0 {
                assert(s.skip(1)[j - 1] == s[j]);
            }
        }
        if fi < s.len() {
            assert(s.skip(1)[fi - 1] == s[fi]);
        }
    }
}

/// The characterization of `first_index` determines it uniquely.
pub proof fn lemma_first_index_is(s: Seq<char>, c: char, r: int)
    requires
        0 <= r <= s.len(),
        forall|j: int| 0 <= j < r ==> s[j] != c,
        r < s.len() ==> s[r] == c,
    ensures
        r == first_index(s, c),
{
    lemma_first_index(s, c);
    let fi = first_index(s, c);
    if r < fi {
        assert(s[r] != c);
    } else if fi < r {
        assert(s[fi] != c);
        assert(s[fi] == c);
    }
}

/// Index of the first whitespace character, or `s.len()` if there is none.
pub open spec fn first_space(s: Seq<char>) -> int
    decreases s.len(),
{
    if s.len() == 0 {
        0
    } else if is_space(s[0]) {
        0
    } else {
        1 + first_space(s.skip(1))
    }
}

pub proof fn lemma_first_space(s: Seq<char>)
    ensures
        0 <= first_space(s) <= s.len(),
        forall|j: int| 0 <= j < first_space(s) ==> !is_space(s[j]),
        first_space(s) < s.len() ==> is_space(s[first_space(s)]),
    decreases s.len(),
{
    if s.len() == 0 {
    } else if is_space(s[0]) {
    } else {
        lemma_first_space(s.skip(1));
        let fi = first_space(s);
        assert forall|j: int| 0 <= j < fi implies !is_space(s[j]) by {
            if j > 0 {
                assert(s.skip(1)[j - 1] == s[j]);
            }
        }
        if fi < s.len() {
            assert(s.skip(1)[fi - 1] == s[fi]);
        }
    }
}

pub proof fn lemma_first_space_is(s: Seq<char>, r: int)
    requires
        0 <= r <= s.len(),
        forall|j: int| 0 <= j < r ==> !is_space(s[j]),
        r < s.len() ==> is_space(s[r]),
    ensures
        r == first_space(s),
{
    lemma_first_space(s);
    let fi = first_space(s);
    if r < fi {
        assert(!is_space(s[r]));
    } else if fi < r {
        assert(is_space(s[fi]));
        assert(!is_space(s[fi]));
    }
}

/// Index of the first non-whitespace character, or `s.len()` if all of
/// `s` is whitespace.
pub open spec fn first_non_space(s: Seq<char>) -> int
    decreases s.len(),
{
    if s.len() == 0 {
        0
    } else if !is_space(s[0]) {
        0
    } else {
        1 + first_non_space(s.skip(1))
    }
}

pub proof fn lemma_first_non_space(s: Seq<char>)
    ensures
        0 <= first_non_space(s) <= s.len(),
        forall|j: int| 0 <= j < first_non_space(s) ==> is_space(s[j]),
        first_non_space(s) < s.len() ==> !is_space(s[first_non_space(s)]),
    decreases s.len(),
{
    if s.len() == 0 {
    } else if !is_space(s[0]) {
    } else {
        lemma_first_non_space(s.skip(1));
        let fi = first_non_space(s);
        assert forall|j: int| 0 <= j < fi implies is_space(s[j]) by {
            if j > 0 {
                assert(s.skip(1)[j - 1] == s[j]);
            }
        }
        if fi < s.len() {
            assert(s.skip(1)[fi - 1] == s[fi]);
        }
    }
}

pub proof fn lemma_first_non_space_is(s: Seq<char>, r: int)
    requires
        0 <= r <= s.len(),
        forall|j: int| 0 <= j < r ==> is_space(s[j]),
        r < s.len() ==> !is_space(s[r]),
    ensures
        r == first_non_space(s),
{
    lemma_first_non_space(s);
    let fi = first_non_space(s);
    if r < fi {
        assert(is_space(s[r]));
    } else if fi < r {
        assert(!is_space(s[fi]));
        assert(is_space(s[fi]));
    }
}

/// First occurrence of `c` in `s` at or after `from`, as an absolute
/// index; `s.len()` if there is none.
pub fn find_char_from(s: &str, from: usize, c: char) -> (r: usize)
    requires
        from <= s@.len(),
    ensures
        from <= r <= s@.len(),
        r - from == first_index(s@.skip(from as int), c),
        forall|j: int| from <= j < r ==> s@[j] != c,
        r < s@.len() ==> s@[r as int] == c,
{
    let n = s.unicode_len();
    let mut i: usize = from;
    while i < n
        invariant_except_break
            from <= i <= n,
            n == s@.len(),
            forall|j: int| from <= j < i ==> s@[j] != c,
        ensures
            from <= i <= n,
            forall|j: int| from <= j < i ==> s@[j] != c,
            i < n ==> s@[i as int] == c,
        decreases n - i,
    {
        if s.get_char(i) == c {
            break;
        }
        i += 1;
    }
    proof {
        let suf = s@.skip(from as int);
        assert forall|j: int| 0 <= j < i - from implies suf[j] != c by {
            assert(suf[j] == s@[j + from]);
        }
        if i - from < suf.len() {
            assert(suf[i - from] == s@[i as int]);
        }
        lemma_first_index_is(suf, c, i - from);
    }
    i
}

/// First whitespace character at or after `from`, as an absolute index;
/// `s.len()` if there is none.
pub fn find_space_from(s: &str, from: usize) -> (r: usize)
    requires
        from <= s@.len(),
    ensures
        from <= r <= s@.len(),
        r - from == first_space(s@.skip(from as int)),
        forall|j: int| from <= j < r ==> !is_space(s@[j]),
        r < s@.len() ==> is_space(s@[r as int]),
{
    let n = s.unicode_len();
    let mut i: usize = from;
    while i < n
        invariant_except_break
            from <= i <= n,
            n == s@.len(),
            forall|j: int| from <= j < i ==> !is_space(s@[j]),
        ensures
            from <= i <= n,
            forall|j: int| from <= j < i ==> !is_space(s@[j]),
            i < n ==> is_space(s@[i as int]),
        decreases n - i,
    {
        if space_char(s.get_char(i)) {
            break;
        }
        i += 1;
    }
    proof {
        let suf = s@.skip(from as int);
        assert forall|j: int| 0 <= j < i - from implies !is_space(suf[j]) by {
            assert(suf[j] == s@[j + from]);
        }
        if i - from < suf.len() {
            assert(suf[i - from] == s@[i as int]);
        }
        lemma_first_space_is(suf, i - from);
    }
    i
}

/// First non-whitespace character at or after `from`, as an absolute
/// index; `s.len()` if the rest is all whitespace.
pub fn find_non_space_from(s: &str, from: usize) -> (r: usize)
    requires
        from <= s@.len(),
    ensures
        from <= r <= s@.len(),
        r - from == first_non_space(s@.skip(from as int)),
        forall|j: int| from <= j < r ==> is_space(s@[j]),
        r < s@.len() ==> !is_space(s@[r as int]),
{
    let n = s.unicode_len();
    let mut i: usize = from;
    while i < n
        invariant_except_break
            from <= i <= n,
            n == s@.len(),
            forall|j: int| from <= j < i ==> is_space(s@[j]),
        ensures
            from <= i <= n,
            forall|j: int| from <= j < i ==> is_space(s@[j]),
            i < n ==> !is_space(s@[i as int]),
        decreases n - i,
    {
        if !space_char(s.get_char(i)) {
            break;
        }
        i += 1;
    }
    proof {
        let suf = s@.skip(from as int);
        assert forall|j: int| 0 <= j < i - from implies is_space(suf[j]) by {
            assert(suf[j] == s@[j + from]);
        }
        if i - from < suf.len() {
            assert(suf[i - from] == s@[i as int]);
        }
        lemma_first_non_space_is(suf, i - from);
    }
    i
}

/// Length of `s` once trailing whitespace is removed.
pub open spec fn end_trimmed(s: Seq<char>) -> int
    decreases s.len(),
{
    if s.len() == 0 {
        0
    } else if is_space(s[s.len() - 1]) {
        end_trimmed(s.take(s.len() - 1))
    } else {
        s.len() as int
    }
}

pub proof fn lemma_end_trimmed(s: Seq<char>)
    ensures
        0 <= end_trimmed(s) <= s.len(),
        forall|j: int| end_trimmed(s) <= j < s.len() ==> is_space(s[j]),
        end_trimmed(s) > 0 ==> !is_space(s[end_trimmed(s) - 1]),
    decreases s.len(),
{
    if s.len() == 0 {
    } else if is_space(s[s.len() - 1]) {
        lemma_end_trimmed(s.take(s.len() - 1));
        let b = end_trimmed(s);
        assert forall|j: int| b <= j < s.len() implies is_space(s[j]) by {
            if j < s.len() - 1 {
                assert(s.take(s.len() - 1)[j] == s[j]);
            }
        }
        if b > 0 {
            assert(s.take(s.len() - 1)[b - 1] == s[b - 1]);
        }
    } else {
    }
}

pub proof fn lemma_end_trimmed_is(s: Seq<char>, r: int)
    requires
        0 <= r <= s.len(),
        forall|j: int| r <= j < s.len() ==> is_space(s[j]),
        r > 0 ==> !is_space(s[r - 1]),
    ensures
        r == end_trimmed(s),
{
    lemma_end_trimmed(s);
    let b = end_trimmed(s);
    if r < b {
        assert(is_space(s[b - 1]));
        assert(!is_space(s[b - 1]));
    } else if b < r {
        assert(is_space(s[r - 1]));
        assert(!is_space(s[r - 1]));
    }
}

/// `s` with leading and trailing whitespace removed.
pub open spec fn spec_trim(s: Seq<char>) -> Seq<char> {
    let head = s.take(end_trimmed(s));
    head.skip(first_non_space(head))
}

/// Remove leading and trailing whitespace, as `str::trim` does on the
/// blank characters that occur in process listings.
pub fn trim_str<'a>(s: &'a str) -> (r: &'a str)
    ensures
        r@ == spec_trim(s@),
{
    let n = s.unicode_len();
    let mut b: usize = n;
    while b > 0 && space_char(s.get_char(b - 1))
        invariant
            b <= n,
            n == s@.len(),
            forall|j: int| b <= j < s@.len() ==> is_space(s@[j]),
        decreases b,
    {
        b -= 1;
    }
    proof {
        lemma_end_trimmed_is(s@, b as int);
    }
    let a = find_non_space_from(s, 0);
    let start = if a < b {
        a
    } else {
        b
    };
    let r = s.substring_char(start, b);
    proof {
        let head = s@.take(b as int);
        assert forall|j: int| 0 <= j < start as int implies is_space(head[j]) by {
            assert(head[j] == s@[j]);
        }
        if (start as int) < head.len() {
            assert(head[start as int] == s@[start as int]);
            lemma_first_non_space(s@.skip(0));
            assert(s@.skip(0) =~= s@);
            if a < b {
                assert(!is_space(s@[start as int]));
            } else {
                // all of s is whitespace up to a >= b, so start == b == head.len()
                assert(false);
            }
        }
        lemma_first_non_space_is(head, start as int);
        assert(r@ =~= head.skip(start as int));
    }
    r
}

/// `pat` occurs in `text` starting at index `i`.
pub open spec fn match_at(text: Seq<char>, pat: Seq<char>, i: int) -> bool {
    &&& 0 <= i
    &&& i + pat.len() <= text.len()
    &&& text.subrange(i, i + pat.len()) == pat
}

/// `pat` occurs somewhere in `text` as a contiguous substring.
pub open spec fn spec_contains(text: Seq<char>, pat: Seq<char>) -> bool {
    exists|i: int| match_at(text, pat, i)
}

/// Substring search: does `pat` occur in `text`?
pub fn contains_str(text: &str, pat: &str) -> (b: bool)
    ensures
        b == spec_contains(text@, pat@),
{
    let n = text.unicode_len();
    let m = pat.unicode_len();
    if m > n {
        proof {
            assert forall|i: int| !match_at(text@, pat@, i) by {}
        }
        return false;
    }
    if m == 0 {
        proof {
            assert(text@.subrange(0, 0) =~= pat@);
            assert(match_at(text@, pat@, 0));
        }
        return true;
    }
    let mut i: usize = 0;
    while i <= n - m
        invariant_except_break
            n == text@.len(),
            m == pat@.len(),
            0 < m <= n,
            i <= n - m + 1,
            forall|k: int| 0 <= k < i ==> !#[trigger] match_at(text@, pat@, k),
        ensures
            n == text@.len(),
            m == pat@.len(),
            forall|k: int| 0 <= k < i ==> !#[trigger] match_at(text@, pat@, k),
            i > n - m,
        decreases n - m + 1 - i,
    {
        let mut j: usize = 0;
        let mut matched: bool = true;
        while matched && j < m
            invariant
                n == text@.len(),
                m == pat@.len(),
                i + m <= n,
                j <= m,
                matched ==> forall|k: int| 0 <= k < j ==> text@[i + k] == pat@[k],
                !matched ==> !match_at(text@, pat@, i as int),
            decreases m - j, matched as int,
        {
            if text.get_char(i + j) != pat.get_char(j) {
                proof {
                    if match_at(text@, pat@, i as int) {
                        assert(text@.subrange(i as int, i + m)[j as int] == text@[i + j]);
                    }
                }
                matched = false;
            } else {
                j += 1;
            }
        }
        if matched {
            proof {
                assert(text@.subrange(i as int, i + m) =~= pat@);
                assert(match_at(text@, pat@, i as int));
            }
            return true;
        }
        i += 1;
    }
    proof {
        assert forall|k: int| !match_at(text@, pat@, k) by {
            if 0 <= k && k + m <= n {
                assert(k < i);
            }
        }
    }
    false
}

/// The lines of `s`, split on newline characters; the final line has no
/// terminator, and an empty text is one empty line, as `split('\n')`
/// yields them.
pub open spec fn spec_lines(s: Seq<char>) -> Seq<Seq<char>>
    decreases s.len() via spec_lines_decreases
{
    let i = first_index(s, '\n');
    if i == s.len() {
        seq![s]
    } else {
        seq![s.take(i)] + spec_lines(s.skip(i + 1))
    }
}

#[via_fn]
proof fn spec_lines_decreases(s: Seq<char>) {
    lemma_first_index(s, '\n');
}

/// Split `s` into its newline-separated lines.
pub fn split_lines<'a>(s: &'a str) -> (r: Vec<&'a str>)
    ensures
        r@.len() == spec_lines(s@).len(),
        forall|i: int| 0 <= i < r@.len() ==> r@[i]@ == spec_lines(s@)[i],
{
    let n = s.unicode_len();
    let mut r: Vec<&str> = Vec::new();
    let mut pos: usize = 0;
    proof {
        assert(s@.skip(0) =~= s@);
        assert(r@.map_values(|t: &str| t@) + spec_lines(s@) =~~= spec_lines(s@));
    }
    loop
        invariant_except_break
            pos <= n,
            n == s@.len(),
            spec_lines(s@) =~~= r@.map_values(|t: &str| t@) + spec_lines(s@.skip(pos as int)),
        ensures
            spec_lines(s@) =~~= r@.map_values(|t: &str| t@),
        decreases n - pos,
    {
        let e = find_char_from(s, pos, '\n');
        let line = s.substring_char(pos, e);
        let ghost prev = r@;
        let ghost suf = s@.skip(pos as int);
        proof {
            lemma_first_index_is(suf, '\n', e - pos);
            assert(suf.take(e - pos) =~= s@.subrange(pos as int, e as int));
        }
        r.push(line);
        proof {
            assert(r@.map_values(|t: &str| t@) =~~= prev.map_values(|t: &str| t@) + seq![line@]);
        }
        if e == n {
            proof {
                assert(e - pos == suf.len());
                assert(spec_lines(suf) =~= seq![suf]);
                assert(line@ =~= suf);
                assert(spec_lines(s@) =~~= r@.map_values(|t: &str| t@));
            }
            break;
        }
        proof {
            assert(suf.skip(e - pos + 1) =~= s@.skip(e + 1));
            assert(spec_lines(suf) =~~= seq![line@] + spec_lines(s@.skip(e + 1)));
            assert(prev.map_values(|t: &str| t@) + spec_lines(suf) =~~= r@.map_values(
                |t: &str| t@,
            ) + spec_lines(s@.skip(e + 1)));
        }
        pos = e + 1;
    }
    r
}

/// The second whitespace-delimited token of `s`: the PID column of a
/// process listing line.  `None` when `s` has fewer than two tokens.
pub open spec fn spec_second_token(s: Seq<char>) -> Option<Seq<char>> {
    let e1 = first_space(s);
    let b2 = e1 + first_non_space(s.skip(e1));
    let e2 = b2 + first_space(s.skip(b2));
    if b2 == s.len() {
        None
    } else {
        Some(s.subrange(b2, e2))
    }
}

/// Extract the second whitespace-delimited token of `s`, if any.
pub fn second_token<'a>(s: &'a str) -> (r: Option<&'a str>)
    ensures
        r is None ==> spec_second_token(s@) is None,
        r matches Some(t) ==> spec_second_token(s@) == Some(t@),
{
    let n = s.unicode_len();
    let e1 = find_space_from(s, 0);
    proof {
        assert(s@.skip(0) =~= s@);
    }
    let b2 = find_non_space_from(s, e1);
    if b2 == n {
        return None;
    }
    let e2 = find_space_from(s, b2);
    let t = s.substring_char(b2, e2);
    proof {
        assert(t@ =~= s@.subrange(b2 as int, e2 as int));
    }
    Some(t)
}

/// `s` with every colon replaced by a dash: the form a listen address
/// takes inside PID-file and log-file names.
pub open spec fn dash_for_colon(s: Seq<char>) -> Seq<char> {
    s.map_values(|c: char| if c == ':' { '-' } else { c })
}

/// Replace every colon in `s` with a dash.
pub fn replace_colons(s: &str) -> (r: String)
    ensures
        r@ == dash_for_colon(s@),
{
    let n = s.unicode_len();
    let mut r = String::new();
    let mut i: usize = 0;
    while i < n
        invariant
            i <= n,
            n == s@.len(),
            r@ =~= dash_for_colon(s@.take(i as int)),
        decreases n - i,
    {
        if s.get_char(i) == ':' {
            r.append("-");
            proof {
                reveal_strlit("-");
            }
        } else {
            let piece = s.substring_char(i, i + 1);
            r.append(piece);
        }
        proof {
            assert(r@ =~= dash_for_colon(s@.take(i + 1)));
        }
        i += 1;
    }
    proof {
        assert(s@.take(n as int) =~= s@);
    }
    r
}

/// The part of `s` before its first colon; all of `s` when it has none.
/// A `host:port` listen address yields its host part.
pub fn before_colon<'a>(s: &'a str) -> (r: &'a str)
    ensures
        r@ == s@.take(first_index(s@, ':')),
{
    let e = find_char_from(s, 0, ':');
    proof {
        assert(s@.skip(0) =~= s@);
    }
    let r = s.substring_char(0, e);
    proof {
        assert(r@ =~= s@.take(e as int));
    }
    r
}

} // verus!
