//! Text handling on Unicode scalar values: white space, trimming, joining, and
//! the splitting of a time window into its two ends.

use vstd::prelude::*;

verus! {

/// Whether `c` carries the Unicode property `White_Space`.
pub open spec fn is_white_space(c: char) -> bool {
    let n = c as u32;
    ||| 0x09 <= n <= 0x0D
    ||| n == 0x20
    ||| n == 0x85
    ||| n == 0xA0
    ||| n == 0x1680
    ||| 0x2000 <= n <= 0x200A
    ||| n == 0x2028
    ||| n == 0x2029
    ||| n == 0x202F
    ||| n == 0x205F
    ||| n == 0x3000
}

/// Every character of `s` is white space.
pub open spec fn all_white_space(s: Seq<char>) -> bool {
    forall|i: int| 0 <= i < s.len() ==> is_white_space(#[trigger] s[i])
}

/// `s` without its longest prefix of white space.
pub open spec fn skip_leading(s: Seq<char>) -> Seq<char>
    decreases s.len(),
{
    if s.len() > 0 && is_white_space(s.first()) {
        skip_leading(s.drop_first())
    } else {
        s
    }
}

/// `s` without its longest suffix of white space.
pub open spec fn skip_trailing(s: Seq<char>) -> Seq<char>
    decreases s.len(),
{
    if s.len() > 0 && is_white_space(s.last()) {
        skip_trailing(s.drop_last())
    } else {
        s
    }
}

/// `s` with leading and trailing white space removed.
pub open spec fn trimmed(s: Seq<char>) -> Seq<char> {
    skip_trailing(skip_leading(s))
}

/// The end of the run of white space that starts at `from`.
pub open spec fn leading_run(s: Seq<char>, from: int) -> int
    decreases s.len() - from,
{
    if 0 <= from < s.len() && is_white_space(s[from]) {
        leading_run(s, from + 1)
    } else {
        from
    }
}

/// The start of the run of white space that ends at `to`, looking no further
/// back than `floor`.
pub open spec fn trailing_run(s: Seq<char>, floor: int, to: int) -> int
    decreases to - floor,
{
    if floor < to <= s.len() && 0 < to && is_white_space(s[to - 1]) {
        trailing_run(s, floor, to - 1)
    } else {
        to
    }
}

/// The token that stands between the two ends of a time window.
pub open spec fn separator() -> Seq<char> {
    seq!['b', 'i', 's']
}

/// Whether the separator stands in `s` at position `i`.
pub open spec fn separator_at(s: Seq<char>, i: int) -> bool {
    &&& 0 <= i
    &&& i + 3 <= s.len()
    &&& s[i] == 'b'
    &&& s[i + 1] == 'i'
    &&& s[i + 2] == 's'
}

/// Whether the separator stands anywhere in `s`.
pub open spec fn has_separator(s: Seq<char>) -> bool {
    exists|i: int| separator_at(s, i)
}

/// The first position at or after `from` where the separator stands in `s`,
/// or the length of `s` where it stands nowhere from there on.
pub open spec fn next_separator(s: Seq<char>, from: int) -> int
    decreases s.len() - from,
{
    if from < 0 || from + 3 > s.len() {
        s.len() as int
    } else if separator_at(s, from) {
        from
    } else {
        next_separator(s, from + 1)
    }
}

/// The piece of `s` that starts at `from` and ends before the next separator.
pub open spec fn piece_from(s: Seq<char>, from: int) -> Seq<char> {
    s.subrange(from, next_separator(s, from))
}

/// The two ends of the time window `s`: what stands before the first
/// separator, and what stands between it and the next one, each trimmed. An
/// end that is missing is empty.
pub open spec fn split_period(s: Seq<char>) -> (Seq<char>, Seq<char>) {
    let first = next_separator(s, 0);
    (
        trimmed(piece_from(s, 0)),
        if first < s.len() {
            trimmed(piece_from(s, first + 3))
        } else {
            Seq::empty()
        },
    )
}

/// Skipping a run of white space at the front of `s` that ends at `a`, where
/// the text stops or a visible character stands, leaves `s` from `a` on.
pub proof fn lemma_skip_leading(s: Seq<char>, a: int)
    requires
        0 <= a <= s.len(),
        all_white_space(s.subrange(0, a)),
        a < s.len() ==> !is_white_space(s[a]),
    ensures
        skip_leading(s) == s.subrange(a, s.len() as int),
    decreases a,
{
    if a == 0 {
        assert(s.subrange(0, s.len() as int) =~= s);
    } else {
        assert(s.subrange(0, a)[0] == s[0]);
        let rest = s.drop_first();
        assert forall|i: int| 0 <= i < a - 1 implies is_white_space(
            #[trigger] rest.subrange(0, a - 1)[i],
        ) by {
            assert(rest.subrange(0, a - 1)[i] == s.subrange(0, a)[i + 1]);
        }
        lemma_skip_leading(rest, a - 1);
        assert(rest.subrange(a - 1, rest.len() as int) =~= s.subrange(a, s.len() as int));
    }
}

/// Skipping a run of white space at the back of `s` that starts at `b`, where
/// the text starts or a visible character stands before it, leaves `s` up to `b`.
pub proof fn lemma_skip_trailing(s: Seq<char>, b: int)
    requires
        0 <= b <= s.len(),
        all_white_space(s.subrange(b, s.len() as int)),
        0 < b ==> !is_white_space(s[b - 1]),
    ensures
        skip_trailing(s) == s.subrange(0, b),
    decreases s.len() - b,
{
    if b == s.len() {
        assert(s.subrange(0, b) =~= s);
    } else {
        let n = s.len() as int;
        assert(s.subrange(b, n)[n - 1 - b] == s[n - 1]);
        let rest = s.drop_last();
        assert forall|i: int| 0 <= i < n - 1 - b implies is_white_space(
            #[trigger] rest.subrange(b, n - 1)[i],
        ) by {
            assert(rest.subrange(b, n - 1)[i] == s.subrange(b, n)[i]);
        }
        lemma_skip_trailing(rest, b);
        assert(rest.subrange(0, b) =~= s.subrange(0, b));
    }
}

/// Within the piece of `s` from `lo` to `hi`: where white space runs from `lo`
/// to `a` and from `b` to `hi`, and `a` and `b` cannot be moved further in, the
/// trimmed piece is `s` from `a` to `b`.
pub proof fn lemma_trim_between(s: Seq<char>, lo: int, hi: int, a: int, b: int)
    requires
        0 <= lo <= a <= b <= hi <= s.len(),
        forall|i: int| lo <= i < a ==> is_white_space(#[trigger] s[i]),
        forall|i: int| b <= i < hi ==> is_white_space(#[trigger] s[i]),
        a < hi ==> !is_white_space(s[a]),
        a < b ==> !is_white_space(s[b - 1]),
    ensures
        trimmed(s.subrange(lo, hi)) == s.subrange(a, b),
        a < b ==> !is_white_space(s.subrange(a, b).first()) && !is_white_space(
            s.subrange(a, b).last(),
        ),
{
    let piece = s.subrange(lo, hi);
    assert forall|i: int| 0 <= i < a - lo implies is_white_space(
        #[trigger] piece.subrange(0, a - lo)[i],
    ) by {
        assert(piece.subrange(0, a - lo)[i] == s[lo + i]);
    }
    lemma_skip_leading(piece, a - lo);
    let front = piece.subrange(a - lo, piece.len() as int);
    assert(front =~= s.subrange(a, hi));
    assert forall|i: int| 0 <= i < hi - b implies is_white_space(
        #[trigger] front.subrange(b - a, front.len() as int)[i],
    ) by {
        assert(front.subrange(b - a, front.len() as int)[i] == s[b + i]);
    }
    lemma_skip_trailing(front, b - a);
    assert(front.subrange(0, b - a) =~= s.subrange(a, b));
}

/// `leading_run` gives the end of the white space that starts at `from`.
proof fn lemma_leading_run(s: Seq<char>, from: int)
    requires
        0 <= from <= s.len(),
    ensures
        from <= leading_run(s, from) <= s.len(),
        forall|i: int| from <= i < leading_run(s, from) ==> is_white_space(#[trigger] s[i]),
        leading_run(s, from) < s.len() ==> !is_white_space(s[leading_run(s, from)]),
    decreases s.len() - from,
{
    if from < s.len() && is_white_space(s[from]) {
        lemma_leading_run(s, from + 1);
    }
}

/// `trailing_run` gives the start of the white space that ends at `to`.
proof fn lemma_trailing_run(s: Seq<char>, floor: int, to: int)
    requires
        0 <= floor <= to <= s.len(),
    ensures
        floor <= trailing_run(s, floor, to) <= to,
        forall|i: int| trailing_run(s, floor, to) <= i < to ==> is_white_space(#[trigger] s[i]),
        floor < trailing_run(s, floor, to) ==> !is_white_space(s[trailing_run(s, floor, to) - 1]),
    decreases to - floor,
{
    if floor < to && is_white_space(s[to - 1]) {
        lemma_trailing_run(s, floor, to - 1);
    }
}

/// Trimming cuts a run of white space from each end of the text, and what is
/// left neither starts nor ends with white space. The result gives the two
/// positions between which the trimmed text stands.
pub proof fn lemma_trimmed_is_the_visible_core(s: Seq<char>) -> (bounds: (int, int))
    ensures
        0 <= bounds.0 <= bounds.1 <= s.len(),
        trimmed(s) == s.subrange(bounds.0, bounds.1),
        all_white_space(s.subrange(0, bounds.0)),
        all_white_space(s.subrange(bounds.1, s.len() as int)),
        trimmed(s).len() > 0 ==> !is_white_space(trimmed(s).first()) && !is_white_space(
            trimmed(s).last(),
        ),
{
    let n = s.len() as int;
    let a = leading_run(s, 0);
    lemma_leading_run(s, 0);
    let b = trailing_run(s, a, n);
    lemma_trailing_run(s, a, n);
    lemma_trim_between(s, 0, n, a, b);
    assert(s.subrange(0, n) =~= s);
    assert(all_white_space(s.subrange(0, a))) by {
        assert forall|i: int| 0 <= i < a implies is_white_space(#[trigger] s.subrange(0, a)[i]) by {
            assert(s.subrange(0, a)[i] == s[i]);
        }
    }
    assert(all_white_space(s.subrange(b, n))) by {
        assert forall|i: int| 0 <= i < n - b implies is_white_space(
            #[trigger] s.subrange(b, n)[i],
        ) by {
            assert(s.subrange(b, n)[i] == s[b + i]);
        }
    }
    (a, b)
}

/// Text that has been trimmed stays as it is when it is trimmed again.
pub proof fn lemma_trimmed_twice(s: Seq<char>)
    ensures
        trimmed(trimmed(s)) == trimmed(s),
{
    let t = trimmed(s);
    let n = t.len() as int;
    lemma_trimmed_is_the_visible_core(s);
    lemma_trim_between(t, 0, n, 0, n);
    assert(t.subrange(0, n) =~= t);
}

/// White space that stands before and after a piece of text does not show in
/// what is left when the whole is trimmed: where white space runs from `lo` to
/// `a` and from `b` to `hi`, trimming `s` from `lo` to `hi` and trimming it
/// from `a` to `b` give the same.
pub proof fn lemma_trim_ignores_outer_white_space(s: Seq<char>, lo: int, a: int, b: int, hi: int)
    requires
        0 <= lo <= a <= b <= hi <= s.len(),
        forall|i: int| lo <= i < a ==> is_white_space(#[trigger] s[i]),
        forall|i: int| b <= i < hi ==> is_white_space(#[trigger] s[i]),
    ensures
        trimmed(s.subrange(lo, hi)) == trimmed(s.subrange(a, b)),
{
    let inner = s.subrange(a, b);
    let n = inner.len() as int;
    let c = leading_run(inner, 0);
    lemma_leading_run(inner, 0);
    let d = trailing_run(inner, c, n);
    lemma_trailing_run(inner, c, n);
    lemma_trim_between(inner, 0, n, c, d);
    assert(inner.subrange(0, n) =~= inner);
    if c == n {
        assert forall|i: int| lo <= i < hi implies is_white_space(#[trigger] s[i]) by {
            if a <= i < b {
                assert(s[i] == inner[i - a]);
            }
        }
        lemma_trim_between(s, lo, hi, hi, hi);
        assert(s.subrange(hi, hi) =~= inner.subrange(c, d));
    } else {
        assert forall|i: int| lo <= i < a + c implies is_white_space(#[trigger] s[i]) by {
            if a <= i {
                assert(s[i] == inner[i - a]);
            }
        }
        assert forall|i: int| a + d <= i < hi implies is_white_space(#[trigger] s[i]) by {
            if i < b {
                assert(s[i] == inner[i - a]);
            }
        }
        assert(s[a + c] == inner[c]);
        assert(s[a + d - 1] == inner[d - 1]);
        lemma_trim_between(s, lo, hi, a + c, a + d);
        assert(s.subrange(a + c, a + d) =~= inner.subrange(c, d));
    }
}

/// The separator stands at a position if and only if the three characters
/// from there on are the separator.
pub proof fn lemma_separator_at(s: Seq<char>, i: int)
    ensures
        separator_at(s, i) <==> 0 <= i && i + 3 <= s.len() && s.subrange(i, i + 3) == separator(),
{
    if 0 <= i && i + 3 <= s.len() {
        let found = s.subrange(i, i + 3);
        assert(found[0] == s[i] && found[1] == s[i + 1] && found[2] == s[i + 2]);
        if separator_at(s, i) {
            assert(found =~= separator());
        }
    }
}

/// `next_separator` gives the least position of a separator from `from` on.
pub proof fn lemma_next_separator(s: Seq<char>, from: int)
    requires
        0 <= from <= s.len(),
    ensures
        from <= next_separator(s, from) <= s.len(),
        next_separator(s, from) < s.len() ==> separator_at(s, next_separator(s, from)),
        forall|i: int| from <= i < next_separator(s, from) ==> !separator_at(s, i),
        next_separator(s, from) == s.len() ==> forall|i: int| from <= i ==> !separator_at(s, i),
    decreases s.len() - from,
{
    if from + 3 <= s.len() && !separator_at(s, from) {
        lemma_next_separator(s, from + 1);
    }
}

/// Where white space runs from the start of `s` to `a` and from `b` to its
/// end, the separators of `s` are those of `s` from `a` to `b`: looked for
/// from the same place, the next one is found at the same place, or in
/// neither.
proof fn lemma_next_separator_inside(s: Seq<char>, a: int, b: int, from: int)
    requires
        0 <= a <= b <= s.len(),
        forall|i: int| 0 <= i < a ==> is_white_space(#[trigger] s[i]),
        forall|i: int| b <= i < s.len() ==> is_white_space(#[trigger] s[i]),
        0 <= from <= b - a,
    ensures
        ({
            let inner = s.subrange(a, b);
            if next_separator(inner, from) < inner.len() {
                next_separator(s, a + from) == a + next_separator(inner, from)
            } else {
                next_separator(s, a + from) == s.len()
            }
        }),
{
    let inner = s.subrange(a, b);
    let m = next_separator(inner, from);
    let k = next_separator(s, a + from);
    lemma_next_separator(inner, from);
    lemma_next_separator(s, a + from);
    assert forall|p: int| separator_at(s, p) implies a <= p && p + 3 <= b && separator_at(
        inner,
        p - a,
    ) by {
        assert(!is_white_space(s[p]) && !is_white_space(s[p + 2]));
        assert(inner[p - a] == s[p] && inner[p - a + 1] == s[p + 1] && inner[p - a + 2] == s[p
            + 2]);
    }
    if m < inner.len() {
        assert(separator_at(s, a + m)) by {
            assert(inner[m] == s[a + m] && inner[m + 1] == s[a + m + 1] && inner[m + 2] == s[a
                + m + 2]);
        }
        assert(k < s.len());
        assert(separator_at(inner, k - a));
    } else {
        if k < s.len() {
            assert(separator_at(inner, k - a));
        }
    }
}

/// Trimming a time window before it is split changes neither of its ends.
pub proof fn lemma_split_ignores_outer_white_space(s: Seq<char>)
    ensures
        split_period(trimmed(s)) == split_period(s),
{
    let n = s.len() as int;
    let (a, b) = lemma_trimmed_is_the_visible_core(s);
    let inner = s.subrange(a, b);
    assert forall|i: int| 0 <= i < a implies is_white_space(#[trigger] s[i]) by {
        assert(s[i] == s.subrange(0, a)[i]);
    }
    assert forall|i: int| b <= i < n implies is_white_space(#[trigger] s[i]) by {
        assert(s[i] == s.subrange(b, n)[i - b]);
    }
    let first = next_separator(inner, 0);
    lemma_next_separator(inner, 0);
    lemma_next_separator_inside(s, a, b, 0);
    lemma_next_separator(s, 0);
    lemma_next_separator(s, a);
    assert(next_separator(s, 0) == next_separator(s, a)) by {
        assert forall|p: int| separator_at(s, p) implies a <= p by {
            assert(!is_white_space(s[p]));
        }
    }
    if first < inner.len() {
        assert(inner.subrange(0, first) =~= s.subrange(a, a + first));
        lemma_trim_ignores_outer_white_space(s, 0, a, a + first, a + first);
        let second = next_separator(inner, first + 3);
        lemma_next_separator(inner, first + 3);
        lemma_next_separator_inside(s, a, b, first + 3);
        if second < inner.len() {
            assert(inner.subrange(first + 3, second) =~= s.subrange(a + first + 3, a + second));
        } else {
            assert(inner.subrange(first + 3, second) =~= s.subrange(a + first + 3, b));
            lemma_trim_ignores_outer_white_space(s, a + first + 3, a + first + 3, b, n);
        }
    } else {
        assert(inner.subrange(0, first) =~= s.subrange(a, b));
        lemma_trim_ignores_outer_white_space(s, 0, a, b, n);
    }
}

/// A time window without a separator is all start: the whole text, trimmed,
/// and an empty end.
pub proof fn lemma_split_without_separator(s: Seq<char>)
    requires
        !has_separator(s),
    ensures
        split_period(s) == (trimmed(s), Seq::<char>::empty()),
{
    lemma_next_separator(s, 0);
    assert(s.subrange(0, s.len() as int) =~= s);
}

/// A time window written as a start, the separator and an end, where the
/// separator stands in neither of the two, splits into that start and that
/// end, each trimmed.
pub proof fn lemma_split_of_start_and_end(start: Seq<char>, end: Seq<char>)
    requires
        !has_separator(start),
        !has_separator(end),
    ensures
        split_period(start + separator() + end) == (trimmed(start), trimmed(end)),
{
    let s = start + separator() + end;
    let n = start.len() as int;
    assert(separator_at(s, n));
    assert forall|i: int| 0 <= i < n implies !separator_at(s, i) by {
        if separator_at(s, i) {
            if i + 3 <= n {
                assert(separator_at(start, i));
            } else if i + 2 == n {
                assert(s[i + 2] == 'b');
            } else {
                assert(s[i + 1] == 'b');
            }
        }
    }
    lemma_next_separator(s, 0);
    assert(next_separator(s, 0) == n);
    assert(piece_from(s, 0) =~= start);
    assert forall|i: int| n + 3 <= i implies !separator_at(s, i) by {
        if separator_at(s, i) {
            assert(separator_at(end, i - n - 3));
        }
    }
    lemma_next_separator(s, n + 3);
    assert(next_separator(s, n + 3) == s.len());
    assert(piece_from(s, n + 3) =~= end);
}

/// Whether `c` is white space.
pub fn is_whitespace(c: char) -> (r: bool)
    ensures
        r == is_white_space(c),
{
    let n: u32 = c as u32;
    (0x09 <= n && n <= 0x0D) || n == 0x20 || n == 0x85 || n == 0xA0 || n == 0x1680 || (0x2000 <= n
        && n <= 0x200A) || n == 0x2028 || n == 0x2029 || n == 0x202F || n == 0x205F || n
        == 0x3000
}

/// The characters of `s`, in order.
pub fn chars_of(s: &str) -> (v: Vec<char>)
    ensures
        v@ == s@,
{
    let mut v: Vec<char> = Vec::new();
    for c in it: s.chars()
        invariant
            it.seq() == s@,
            v@ == s@.take(it.index() as int),
    {
        v.push(c);
    }
    v
}

/// Whether `a` and `b` hold the same characters.
pub fn same_text(a: &str, b: &str) -> (r: bool)
    ensures
        r == (a@ == b@),
{
    let x = chars_of(a);
    let y = chars_of(b);
    if x.len() != y.len() {
        return false;
    }
    let n = x.len();
    let mut i: usize = 0;
    while i < n
        invariant
            x@ == a@,
            y@ == b@,
            i <= n == x@.len() == y@.len(),
            forall|k: int| 0 <= k < i ==> x@[k] == y@[k],
        decreases n - i,
    {
        if x[i] != y[i] {
            assert(a@[i as int] != b@[i as int]);
            return false;
        }
        i += 1;
    }
    assert(x@ =~= y@);
    true
}

/// The texts of `parts`, one after the other.
pub fn join_all(parts: &Vec<&str>) -> (r: String)
    ensures
        r@ == parts.deep_view().flatten(),
{
    let mut r = String::new();
    let n = parts.len();
    let mut i: usize = 0;
    assert(parts.deep_view().take(0) =~= Seq::<Seq<char>>::empty());
    while i < n
        invariant
            i <= n == parts@.len(),
            r@ == parts.deep_view().take(i as int).flatten(),
        decreases n - i,
    {
        proof {
            let done = parts.deep_view().take(i as int);
            done.lemma_flatten_push(parts@[i as int]@);
            assert(done.push(parts@[i as int]@) =~= parts.deep_view().take(i + 1));
        }
        r.append(parts[i]);
        i += 1;
    }
    assert(parts.deep_view().take(n as int) =~= parts.deep_view());
    r
}

/// The piece of `s` between the character positions `lo` and `hi`, trimmed.
/// `chars` holds the characters of `s`.
fn trim_between(s: &str, chars: &Vec<char>, lo: usize, hi: usize) -> (r: String)
    requires
        chars@ == s@,
        lo <= hi <= s@.len(),
    ensures
        r@ == trimmed(s@.subrange(lo as int, hi as int)),
{
    let mut a: usize = lo;
    while a < hi && is_whitespace(chars[a])
        invariant
            lo <= a <= hi <= chars@.len(),
            forall|i: int| lo <= i < a ==> is_white_space(#[trigger] chars@[i]),
        decreases hi - a,
    {
        a += 1;
    }
    let mut b: usize = hi;
    while a < b && is_whitespace(chars[b - 1])
        invariant
            a <= b <= hi <= chars@.len(),
            forall|i: int| b <= i < hi ==> is_white_space(#[trigger] chars@[i]),
        decreases b - a,
    {
        b -= 1;
    }
    proof {
        lemma_trim_between(s@, lo as int, hi as int, a as int, b as int);
    }
    s.substring_char(a, b).to_owned()
}

/// `s` with leading and trailing white space removed.
pub fn trim(s: &str) -> (r: String)
    ensures
        r@ == trimmed(s@),
{
    let chars = chars_of(s);
    let n = chars.len();
    assert(s@.subrange(0, n as int) =~= s@);
    trim_between(s, &chars, 0, n)
}

/// The first position at or after `from` where the separator stands, or the
/// number of characters where it stands nowhere from there on.
fn find_separator(chars: &Vec<char>, from: usize) -> (r: usize)
    requires
        from <= chars@.len(),
    ensures
        r == next_separator(chars@, from as int),
        from <= r <= chars@.len(),
        r < chars@.len() ==> r + 3 <= chars@.len(),
{
    let n = chars.len();
    let mut i: usize = from;
    while i < n && n - i >= 3
        invariant
            from <= i <= n == chars@.len(),
            next_separator(chars@, from as int) == next_separator(chars@, i as int),
        decreases n - i,
    {
        if chars[i] == 'b' && chars[i + 1] == 'i' && chars[i + 2] == 's' {
            return i;
        }
        i += 1;
    }
    n
}

/// Splits a time window of the form "<start> bis <end>" into its two ends:
/// what stands before the first "bis", and what stands between it and the
/// next one, each trimmed. An end that is missing is empty.
pub fn parse_period(period: &str) -> (r: (String, String))
    ensures
        r.0@ == split_period(period@).0,
        r.1@ == split_period(period@).1,
{
    let chars = chars_of(period);
    let n = chars.len();
    let first = find_separator(&chars, 0);
    let start = trim_between(period, &chars, 0, first);
    if first < n {
        let second = find_separator(&chars, first + 3);
        let end = trim_between(period, &chars, first + 3, second);
        (start, end)
    } else {
        (start, String::new())
    }
}

} // verus!
