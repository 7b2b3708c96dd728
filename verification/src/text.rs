//! Verified string-building primitives shared by every renderer:
//! decimal formatting, character search, substring search, and
//! character-by-character mapping.

use vstd::prelude::*;

verus! {

/// The decimal digit character for a value below ten.
pub open spec fn digit_char(d: nat) -> char {
    if d == 0 {
        '0'
    } else if d == 1 {
        '1'
    } else if d == 2 {
        '2'
    } else if d == 3 {
        '3'
    } else if d == 4 {
        '4'
    } else if d == 5 {
        '5'
    } else if d == 6 {
        '6'
    } else if d == 7 {
        '7'
    } else if d == 8 {
        '8'
    } else {
        '9'
    }
}

/// The usual decimal rendering of a natural number, without leading zeros.
pub open spec fn dec_str(n: nat) -> Seq<char>
    decreases n,
{
    if n < 10 {
        seq![digit_char(n)]
    } else {
        dec_str(n / 10) + seq![digit_char(n % 10)]
    }
}

/// Relies on `String::push`: appends exactly one character.
#[verifier::external_body]
pub fn push_char(s: &mut String, c: char)
    ensures
        final(s)@ == old(s)@ + seq![c],
{
    s.push(c);
}

fn digit_of(d: u64) -> (c: char)
    requires
        d < 10,
    ensures
        c == digit_char(d as nat),
{
    if d == 0 {
        '0'
    } else if d == 1 {
        '1'
    } else if d == 2 {
        '2'
    } else if d == 3 {
        '3'
    } else if d == 4 {
        '4'
    } else if d == 5 {
        '5'
    } else if d == 6 {
        '6'
    } else if d == 7 {
        '7'
    } else if d == 8 {
        '8'
    } else {
        '9'
    }
}

/// Appends the decimal rendering of `n` to `out`.
pub fn append_u64(out: &mut String, n: u64)
    ensures
        final(out)@ == old(out)@ + dec_str(n as nat),
    decreases n,
{
    if n < 10 {
        let c = digit_of(n);
        push_char(out, c);
    } else {
        append_u64(out, n / 10);
        let c = digit_of(n % 10);
        push_char(out, c);
        proof {
            assert(out@ =~= old(out)@ + dec_str(n as nat));
        }
    }
}

/// Appends the decimal rendering of `n` to `out`, for values past the
/// 64-bit range.
pub fn append_u128(out: &mut String, n: u128)
    ensures
        final(out)@ == old(out)@ + dec_str(n as nat),
    decreases n,
{
    if n < 10 {
        let c = digit_of((n as u64) % 10);
        push_char(out, c);
    } else {
        append_u128(out, n / 10);
        let c = digit_of(((n % 10) as u64) % 10);
        push_char(out, c);
        proof {
            assert(out@ =~= old(out)@ + dec_str(n as nat));
        }
    }
}

/// `needle` occurs somewhere inside `hay`.
pub open spec fn spec_contains(hay: Seq<char>, needle: Seq<char>) -> bool {
    exists|i: int|
        0 <= i && i + needle.len() <= hay.len() && #[trigger] hay.subrange(i, i + needle.len())
            == needle
}

/// Collects the characters of `s` into a vector.
pub fn chars_vec(s: &str) -> (v: Vec<char>)
    ensures
        v@ == s@,
{
    let n = s.unicode_len();
    let mut v: Vec<char> = Vec::new();
    let mut i: usize = 0;
    while i < n
        invariant
            n == s@.len(),
            i <= n,
            v@ == s@.take(i as int),
        decreases n - i,
    {
        let c = s.get_char(i);
        v.push(c);
        i = i + 1;
        proof {
            assert(v@ =~= s@.take(i as int));
        }
    }
    proof {
        assert(v@ =~= s@);
    }
    v
}

pub(crate) fn match_at(hay: &Vec<char>, needle: &Vec<char>, at: usize) -> (b: bool)
    requires
        at + needle@.len() <= hay@.len(),
    ensures
        b == (hay@.subrange(at as int, at + needle@.len()) == needle@),
{
    let m = needle.len();
    let hl = hay.len();
    let mut j: usize = 0;
    while j < m
        invariant
            m == needle@.len(),
            hl == hay@.len(),
            at + m <= hay@.len(),
            j <= m,
            forall|k: int| 0 <= k < j ==> hay@[at + k] == needle@[k],
        decreases m - j,
    {
        if hay[at + j] != needle[j] {
            proof {
                assert(hay@.subrange(at as int, at + needle@.len())[j as int] != needle@[j as int]);
            }
            return false;
        }
        j = j + 1;
    }
    proof {
        assert(hay@.subrange(at as int, at + needle@.len()) =~= needle@);
    }
    true
}

/// Whether `needle` occurs as a contiguous substring of `hay`.
pub fn str_contains(hay: &str, needle: &str) -> (b: bool)
    ensures
        b == spec_contains(hay@, needle@),
{
    let hv = chars_vec(hay);
    let nv = chars_vec(needle);
    if nv.len() > hv.len() {
        return false;
    }
    let limit = hv.len() - nv.len();
    let mut i: usize = 0;
    loop
        invariant_except_break
            hv@ == hay@,
            nv@ == needle@,
            nv@.len() <= hv@.len(),
            limit == hv@.len() - nv@.len(),
            i <= limit,
            forall|k: int|
                0 <= k < i ==> #[trigger] hay@.subrange(k, k + needle@.len()) != needle@,
        ensures
            forall|k: int|
                0 <= k <= limit ==> #[trigger] hay@.subrange(k, k + needle@.len()) != needle@,
        decreases limit - i,
    {
        if match_at(&hv, &nv, i) {
            return true;
        }
        if i == limit {
            break;
        }
        i = i + 1;
    }
    false
}

/// Whether the two strings hold the same characters.
pub fn str_eq(a: &str, b: &str) -> (r: bool)
    ensures
        r == (a@ == b@),
{
    let n = a.unicode_len();
    let m = b.unicode_len();
    if n != m {
        return false;
    }
    let mut i: usize = 0;
    while i < n
        invariant
            n == a@.len(),
            n == b@.len(),
            i <= n,
            forall|k: int| 0 <= k < i ==> a@[k] == b@[k],
        decreases n - i,
    {
        if a.get_char(i) != b.get_char(i) {
            return false;
        }
        i = i + 1;
    }
    proof {
        assert(a@ =~= b@);
    }
    true
}

/// `s` with every occurrence of `from` replaced by `to`.
pub open spec fn spec_replaced(s: Seq<char>, from: char, to: char) -> Seq<char> {
    s.map(|i: int, c: char| if c == from { to } else { c })
}

/// Appends `s` with every occurrence of `from` replaced by `to`.
pub fn append_replaced(out: &mut String, s: &str, from: char, to: char)
    ensures
        final(out)@ == old(out)@ + spec_replaced(s@, from, to),
{
    let n = s.unicode_len();
    let mut i: usize = 0;
    while i < n
        invariant
            n == s@.len(),
            i <= n,
            out@ == old(out)@ + spec_replaced(s@, from, to).take(i as int),
        decreases n - i,
    {
        let c = s.get_char(i);
        if c == from {
            push_char(out, to);
        } else {
            push_char(out, c);
        }
        i = i + 1;
        proof {
            assert(out@ =~= old(out)@ + spec_replaced(s@, from, to).take(i as int));
        }
    }
    proof {
        assert(spec_replaced(s@, from, to).take(n as int) =~= spec_replaced(s@, from, to));
    }
}

/// `s` with dots replaced by `to`: the slug form of a dotted topic id.
pub fn replaced_string(s: &str, from: char, to: char) -> (r: String)
    ensures
        r@ == spec_replaced(s@, from, to),
{
    let mut out = String::new();
    append_replaced(&mut out, s, from, to);
    out
}

/// Index of the first occurrence of `c` in `s`, or `s.len()` if absent.
pub open spec fn first_index_of(s: Seq<char>, c: char) -> int
    decreases s.len(),
{
    if s.len() == 0 {
        0
    } else if s[0] == c {
        0
    } else {
        1 + first_index_of(s.drop_first(), c)
    }
}

pub proof fn lemma_first_index_of(s: Seq<char>, c: char)
    ensures
        0 <= first_index_of(s, c) <= s.len(),
        forall|k: int| 0 <= k < first_index_of(s, c) ==> s[k] != c,
        first_index_of(s, c) < s.len() ==> s[first_index_of(s, c)] == c,
    decreases s.len(),
{
    if s.len() > 0 && s[0] != c {
        lemma_first_index_of(s.drop_first(), c);
        assert forall|k: int| 0 <= k < first_index_of(s, c) implies s[k] != c by {
            if k > 0 {
                assert(s.drop_first()[k - 1] != c);
            }
        };
    }
}

/// The part of `s` before the first `c` (the whole of `s` if `c` is absent).
pub open spec fn before_first(s: Seq<char>, c: char) -> Seq<char> {
    s.take(first_index_of(s, c))
}

/// One past the index of the last occurrence of `c` in `s`, or 0 if absent.
pub open spec fn last_cut(s: Seq<char>, c: char) -> int
    decreases s.len(),
{
    if s.len() == 0 {
        0
    } else if s.last() == c {
        s.len() as int
    } else {
        last_cut(s.drop_last(), c)
    }
}

pub proof fn lemma_last_cut(s: Seq<char>, c: char)
    ensures
        0 <= last_cut(s, c) <= s.len(),
    decreases s.len(),
{
    if s.len() > 0 && s.last() != c {
        lemma_last_cut(s.drop_last(), c);
    }
}

/// The part of `s` after the last `c` (the whole of `s` if `c` is absent).
pub open spec fn after_last(s: Seq<char>, c: char) -> Seq<char> {
    s.skip(last_cut(s, c))
}

pub proof fn lemma_last_cut_push_pub(s: Seq<char>, c: char, x: char)
    ensures
        last_cut(s.push(x), c) == if x == c {
            s.len() + 1 as int
        } else {
            last_cut(s, c)
        },
{
    lemma_last_cut_push(s, c, x);
}

proof fn lemma_last_cut_push(s: Seq<char>, c: char, x: char)
    ensures
        last_cut(s.push(x), c) == if x == c {
            s.len() + 1 as int
        } else {
            last_cut(s, c)
        },
{
    assert(s.push(x).last() == x);
    assert(s.push(x).drop_last() =~= s);
}

/// The part of `s` after its last `c`, as a fresh string.
pub fn after_last_char(s: &str, c: char) -> (r: String)
    ensures
        r@ == after_last(s@, c),
{
    let n = s.unicode_len();
    let mut cut: usize = 0;
    let mut i: usize = 0;
    while i < n
        invariant
            n == s@.len(),
            i <= n,
            cut as int == last_cut(s@.take(i as int), c),
            cut <= i,
        decreases n - i,
    {
        let ch = s.get_char(i);
        proof {
            lemma_last_cut_push(s@.take(i as int), c, s@[i as int]);
            assert(s@.take(i as int).push(s@[i as int]) =~= s@.take(i + 1));
        }
        if ch == c {
            cut = i + 1;
        }
        i = i + 1;
    }
    proof {
        assert(s@.take(n as int) =~= s@);
    }
    let mut out = String::new();
    let mut j: usize = cut;
    while j < n
        invariant
            n == s@.len(),
            cut <= j <= n,
            out@ == s@.subrange(cut as int, j as int),
        decreases n - j,
    {
        let ch = s.get_char(j);
        push_char(&mut out, ch);
        j = j + 1;
        proof {
            assert(out@ =~= s@.subrange(cut as int, j as int));
        }
    }
    proof {
        assert(out@ =~= after_last(s@, c));
    }
    out
}

/// Index of the first newline in `s` at or after `from`, or `s.len()`.
pub open spec fn next_nl(s: Seq<char>, from: int) -> int
    decreases s.len() - from,
{
    if from < 0 || from >= s.len() {
        s.len() as int
    } else if s[from] == '\n' {
        from
    } else {
        next_nl(s, from + 1)
    }
}

pub proof fn lemma_next_nl(s: Seq<char>, from: int)
    requires
        0 <= from <= s.len(),
    ensures
        from <= next_nl(s, from) <= s.len(),
        forall|k: int| from <= k < next_nl(s, from) ==> s[k] != '\n',
        next_nl(s, from) < s.len() ==> s[next_nl(s, from)] == '\n',
    decreases s.len() - from,
{
    if from < s.len() && s[from] != '\n' {
        lemma_next_nl(s, from + 1);
    }
}

/// A line as `str::lines` yields it: a carriage return just before the line
/// feed is stripped.
pub open spec fn strip_cr(line: Seq<char>) -> Seq<char> {
    if line.len() > 0 && line.last() == '\r' {
        line.drop_last()
    } else {
        line
    }
}

/// The lines of `s` from position `from` on, split as `str::lines` splits
/// them: at `\n` or `\r\n`, with no entry for a final line terminator.
pub open spec fn lines_from(s: Seq<char>, from: int) -> Seq<Seq<char>>
    decreases s.len() - from,
    via lines_from_dec
{
    if from < 0 || from >= s.len() {
        Seq::empty()
    } else {
        let i = next_nl(s, from);
        if i >= s.len() {
            seq![s.subrange(from, s.len() as int)]
        } else {
            seq![strip_cr(s.subrange(from, i))] + lines_from(s, i + 1)
        }
    }
}

#[via_fn]
proof fn lines_from_dec(s: Seq<char>, from: int) {
    if 0 <= from && from < s.len() {
        lemma_next_nl(s, from);
    }
}

/// The lines of `s`, as `str::lines` yields them.
pub open spec fn spec_lines(s: Seq<char>) -> Seq<Seq<char>> {
    lines_from(s, 0)
}

/// Splits `s` into its lines, as `str::lines` does.
pub fn split_lines(s: &str) -> (v: Vec<String>)
    ensures
        v@.len() == spec_lines(s@).len(),
        forall|k: int| 0 <= k < v@.len() ==> (#[trigger] v@[k])@ == spec_lines(s@)[k],
{
    let n = s.unicode_len();
    let mut v: Vec<String> = Vec::new();
    let mut start: usize = 0;
    let mut i: usize = 0;
    while i < n
        invariant
            n == s@.len(),
            start <= i <= n,
            forall|k: int| start <= k < i ==> s@[k] != '\n',
            spec_lines(s@) =~= v@.map_values(|x: String| x@) + lines_from(s@, start as int),
        decreases n - i,
    {
        let c = s.get_char(i);
        if c == '\n' {
            proof {
                lemma_next_nl(s@, start as int);
                assert(next_nl(s@, start as int) == i as int) by {
                    if next_nl(s@, start as int) < i as int {
                        assert(s@[next_nl(s@, start as int)] == '\n');
                    }
                    if next_nl(s@, start as int) > i as int {
                        assert(s@[i as int] != '\n');
                    }
                };
            }
            let end = if i > start && s.get_char(i - 1) == '\r' {
                i - 1
            } else {
                i
            };
            let line = s.substring_char(start, end).to_owned();
            proof {
                let sub = s@.subrange(start as int, i as int);
                if i > start && s@[i - 1] == '\r' {
                    assert(sub.last() == '\r');
                    assert(sub.drop_last() =~= s@.subrange(start as int, i - 1));
                } else {
                    if sub.len() > 0 {
                        assert(sub.last() == s@[i - 1]);
                    }
                }
                assert(line@ == strip_cr(sub));
            }
            v.push(line);
            start = i + 1;
            proof {
                assert(spec_lines(s@) =~= v@.map_values(|x: String| x@) + lines_from(
                    s@,
                    start as int,
                ));
            }
        }
        i = i + 1;
    }
    if start < n {
        proof {
            lemma_next_nl(s@, start as int);
            assert(next_nl(s@, start as int) == n as int) by {
                if next_nl(s@, start as int) < n as int {
                    assert(s@[next_nl(s@, start as int)] == '\n');
                }
            };
        }
        let line = s.substring_char(start, n).to_owned();
        v.push(line);
        proof {
            assert(spec_lines(s@) =~= v@.map_values(|x: String| x@));
        }
    }
    proof {
        assert(spec_lines(s@) =~= v@.map_values(|x: String| x@));
        assert(forall|k: int|
            0 <= k < v@.len() ==> (#[trigger] v@[k])@ == v@.map_values(|x: String| x@)[k]);
    }
    v
}

/// The bullet list of a string vector, one `- item` line each.
pub open spec fn bullet_lines(items: Seq<Seq<char>>, n: int) -> Seq<char>
    decreases n,
{
    if n <= 0 {
        Seq::empty()
    } else {
        bullet_lines(items, n - 1) + "- "@ + items[n - 1] + "\n"@
    }
}

/// Appends a `- item` bullet list to `out`.
pub fn append_bullets(out: &mut String, items: &Vec<String>)
    ensures
        final(out)@ == old(out)@ + bullet_lines(
            items@.map_values(|x: String| x@),
            items@.len() as int,
        ),
{
    let n = items.len();
    let mut j: usize = 0;
    while j < n
        invariant
            n == items@.len(),
            j <= n,
            out@ == old(out)@ + bullet_lines(items@.map_values(|x: String| x@), j as int),
        decreases n - j,
    {
        out.append("- ");
        out.append(items[j].as_str());
        out.append("\n");
        j = j + 1;
        proof {
            assert(out@ =~= old(out)@ + bullet_lines(
                items@.map_values(|x: String| x@),
                j as int,
            ));
        }
    }
}

/// What `str::to_lowercase` returns: a function of the characters alone.
pub uninterp spec fn lower_of(s: Seq<char>) -> Seq<char>;

/// Relies on `str::to_lowercase`: the lowercased form depends on the
/// characters of `s` alone, and an empty string stays empty.
#[verifier::external_body]
pub fn lowercase(s: &str) -> (r: String)
    ensures
        r@ == lower_of(s@),
        s@.len() == 0 ==> r@.len() == 0,
{
    s.to_lowercase()
}

/// The part of `s` before the first `c`, as a fresh string.
pub fn before_first_char(s: &str, c: char) -> (r: String)
    ensures
        r@ == before_first(s@, c),
{
    let n = s.unicode_len();
    let mut out = String::new();
    let mut i: usize = 0;
    while i < n
        invariant
            n == s@.len(),
            i <= n,
            out@ == s@.take(i as int),
            forall|k: int| 0 <= k < i ==> s@[k] != c,
        decreases n - i,
    {
        let ch = s.get_char(i);
        if ch == c {
            proof {
                lemma_first_index_of(s@, c);
                assert(first_index_of(s@, c) == i as int) by {
                    if first_index_of(s@, c) < i as int {
                        assert(s@[first_index_of(s@, c)] == c);
                    }
                    if first_index_of(s@, c) > i as int {
                        assert(s@[i as int] != c);
                    }
                };
            }
            return out;
        }
        push_char(&mut out, ch);
        i = i + 1;
        proof {
            assert(out@ =~= s@.take(i as int));
        }
    }
    proof {
        lemma_first_index_of(s@, c);
        assert(first_index_of(s@, c) == n as int) by {
            if first_index_of(s@, c) < n as int {
                assert(s@[first_index_of(s@, c)] == c);
            }
        };
        assert(out@ =~= before_first(s@, c));
    }
    out
}


/// Index of the first non-whitespace character of `s`, or `s.len()`.
pub open spec fn first_non_ws(s: Seq<char>, from: int) -> int
    decreases s.len() - from,
{
    if from < 0 || from >= s.len() {
        s.len() as int
    } else if crate::validation::is_ws(s[from]) {
        first_non_ws(s, from + 1)
    } else {
        from
    }
}

pub proof fn lemma_first_non_ws(s: Seq<char>, from: int)
    requires
        0 <= from <= s.len(),
    ensures
        from <= first_non_ws(s, from) <= s.len(),
        forall|k: int| from <= k < first_non_ws(s, from) ==> crate::validation::is_ws(s[k]),
        first_non_ws(s, from) < s.len() ==> !crate::validation::is_ws(s[first_non_ws(s, from)]),
    decreases s.len() - from,
{
    if from < s.len() && crate::validation::is_ws(s[from]) {
        lemma_first_non_ws(s, from + 1);
    }
}

/// Index one past the last non-whitespace character of `s`, or 0.
pub open spec fn last_non_ws(s: Seq<char>) -> int
    decreases s.len(),
{
    if s.len() == 0 {
        0
    } else if crate::validation::is_ws(s.last()) {
        last_non_ws(s.drop_last())
    } else {
        s.len() as int
    }
}

pub proof fn lemma_last_non_ws(s: Seq<char>)
    ensures
        0 <= last_non_ws(s) <= s.len(),
        forall|k: int| last_non_ws(s) <= k < s.len() ==> crate::validation::is_ws(s[k]),
        last_non_ws(s) > 0 ==> !crate::validation::is_ws(s[last_non_ws(s) - 1]),
    decreases s.len(),
{
    if s.len() > 0 && crate::validation::is_ws(s.last()) {
        lemma_last_non_ws(s.drop_last());
        assert forall|k: int| last_non_ws(s) <= k < s.len() implies crate::validation::is_ws(
            s[k],
        ) by {
            if k < s.len() - 1 {
                assert(crate::validation::is_ws(s.drop_last()[k]));
            }
        };
    }
}

/// `s` with leading and trailing whitespace removed, as `str::trim`.
pub open spec fn spec_trim(s: Seq<char>) -> Seq<char> {
    let a = first_non_ws(s, 0);
    let b = last_non_ws(s);
    if a < b {
        s.subrange(a, b)
    } else {
        Seq::empty()
    }
}

/// Trims leading and trailing whitespace from `s`.
pub fn trim_str(s: &str) -> (r: String)
    ensures
        r@ == spec_trim(s@),
{
    let n = s.unicode_len();
    let mut a: usize = 0;
    loop
        invariant_except_break
            n == s@.len(),
            a <= n,
            forall|k: int| 0 <= k < a ==> crate::validation::is_ws(s@[k]),
        ensures
            n == s@.len(),
            a <= n,
            forall|k: int| 0 <= k < a ==> crate::validation::is_ws(s@[k]),
            a < n ==> !crate::validation::is_ws(s@[a as int]),
        decreases n - a,
    {
        if a >= n {
            break ;
        }
        if !is_ws_exec(s.get_char(a)) {
            break ;
        }
        a = a + 1;
    }
    let mut b: usize = n;
    loop
        invariant_except_break
            n == s@.len(),
            a <= b <= n,
            a < n ==> !crate::validation::is_ws(s@[a as int]),
            forall|k: int| b <= k < n ==> crate::validation::is_ws(s@[k]),
        ensures
            n == s@.len(),
            a <= b <= n,
            forall|k: int| b <= k < n ==> crate::validation::is_ws(s@[k]),
            b > a ==> !crate::validation::is_ws(s@[b - 1]),
        decreases b,
    {
        if b <= a {
            break ;
        }
        if !is_ws_exec(s.get_char(b - 1)) {
            break ;
        }
        b = b - 1;
    }
    let mut out = String::new();
    let mut i: usize = a;
    let ghost a0 = a as int;
    while i < b
        invariant
            n == s@.len(),
            a0 == a as int,
            a <= i <= b <= n,
            out@ == s@.subrange(a0, i as int),
        decreases b - i,
    {
        push_char(&mut out, s.get_char(i));
        i = i + 1;
        proof {
            assert(out@ =~= s@.subrange(a0, i as int));
        }
    }
    proof {
        lemma_first_non_ws(s@, 0);
        lemma_last_non_ws(s@);
        if a < b {
            assert(first_non_ws(s@, 0) == a as int) by {
                assert(!crate::validation::is_ws(s@[a as int]));
                if first_non_ws(s@, 0) < a as int {
                    assert(crate::validation::is_ws(s@[first_non_ws(s@, 0)]));
                }
                if first_non_ws(s@, 0) > a as int {
                    assert(crate::validation::is_ws(s@[a as int]));
                }
            };
            assert(last_non_ws(s@) == b as int) by {
                assert(!crate::validation::is_ws(s@[b - 1]));
                if last_non_ws(s@) < b as int {
                    assert(crate::validation::is_ws(s@[b - 1]));
                }
                if last_non_ws(s@) > b as int {
                    assert(crate::validation::is_ws(s@[last_non_ws(s@) - 1]));
                }
            };
            assert(out@ =~= spec_trim(s@));
        } else {
            assert(a == b);
            assert(first_non_ws(s@, 0) >= a as int) by {
                if first_non_ws(s@, 0) < a as int {
                    assert(crate::validation::is_ws(s@[first_non_ws(s@, 0)]));
                }
            };
            assert(last_non_ws(s@) <= b as int) by {
                if last_non_ws(s@) > b as int {
                    assert(crate::validation::is_ws(s@[last_non_ws(s@) - 1]));
                }
            };
            assert(out@ =~= spec_trim(s@));
        }
    }
    out
}

/// Whether `c` is a whitespace character; mirrors the spec set.
pub fn is_ws_exec(c: char) -> (r: bool)
    ensures
        r == crate::validation::is_ws(c),
{
    let u = c as u32;
    u == 0x09 || u == 0x0A || u == 0x0B || u == 0x0C || u == 0x0D || u == 0x20 || u == 0x85
        || u == 0xA0 || u == 0x1680 || (0x2000 <= u && u <= 0x200A) || u == 0x2028 || u == 0x2029
        || u == 0x202F || u == 0x205F || u == 0x3000
}


/// Index of the first occurrence of `c` in `s` at or after `from`, or
/// `s.len()` when absent.
pub open spec fn index_of_from(s: Seq<char>, c: char, from: int) -> int
    decreases s.len() - from,
{
    if from < 0 || from >= s.len() {
        s.len() as int
    } else if s[from] == c {
        from
    } else {
        index_of_from(s, c, from + 1)
    }
}

pub proof fn lemma_index_of_from(s: Seq<char>, c: char, from: int)
    requires
        0 <= from <= s.len(),
    ensures
        from <= index_of_from(s, c, from) <= s.len(),
        forall|k: int| from <= k < index_of_from(s, c, from) ==> s[k] != c,
        index_of_from(s, c, from) < s.len() ==> s[index_of_from(s, c, from)] == c,
    decreases s.len() - from,
{
    if from < s.len() && s[from] != c {
        lemma_index_of_from(s, c, from + 1);
    }
}

/// Finds the first occurrence of `c` in `s` at or after `from`.
pub fn find_char_from(s: &str, c: char, from: usize) -> (r: usize)
    requires
        from <= s@.len(),
    ensures
        r as int == index_of_from(s@, c, from as int),
{
    let n = s.unicode_len();
    let mut i: usize = from;
    while i < n
        invariant
            n == s@.len(),
            from <= i <= n,
            index_of_from(s@, c, from as int) == index_of_from(s@, c, i as int),
        decreases n - i,
    {
        if s.get_char(i) == c {
            return i;
        }
        i = i + 1;
    }
    n
}


/// `n + 1`, saturating at the machine bound.
pub open spec fn sat_inc(n: nat) -> nat {
    if n >= usize::MAX {
        n
    } else {
        n + 1
    }
}

/// Increments, saturating at the machine bound.
pub fn inc_sat(x: usize) -> (r: usize)
    ensures
        r as nat == sat_inc(x as nat),
{
    if x == usize::MAX {
        x
    } else {
        x + 1
    }
}

} // verus!
