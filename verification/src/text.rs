//! Text helpers over `&str` whose contracts are stated on `Seq<char>`.

use vstd::prelude::*;
use vstd::std_specs::iter::IteratorSpec;
use vstd::string::StrSliceExecFns;
use vstd::string::StringExecFns;

verus! {

broadcast use vstd::string::group_string_axioms;

/// The views of the elements of `s`, in order.
pub open spec fn views<T: View>(s: Seq<T>) -> Seq<T::V> {
    Seq::new(s.len(), |i: int| s[i]@)
}

/// Index of the first `c` in `s`, or `s.len()` where `s` holds none.
pub open spec fn first_index(s: Seq<char>, c: char) -> int
    decreases s.len(),
{
    if s.len() == 0 || s[0] == c {
        0
    } else {
        1 + first_index(s.drop_first(), c)
    }
}

/// Index of the last `c` in `s`, or `-1` where `s` holds none.
pub open spec fn last_index(s: Seq<char>, c: char) -> int
    decreases s.len(),
{
    if s.len() == 0 {
        -1
    } else if s.last() == c {
        s.len() - 1
    } else {
        last_index(s.drop_last(), c)
    }
}

/// What `first_index` finds: the place of the earliest `c`, nothing before it.
pub proof fn lemma_first_index(s: Seq<char>, c: char)
    ensures
        0 <= first_index(s, c) <= s.len(),
        first_index(s, c) < s.len() ==> s[first_index(s, c)] == c,
        forall|j: int| 0 <= j < first_index(s, c) ==> s[j] != c,
        first_index(s, c) < s.len() <==> s.contains(c),
    decreases s.len(),
{
    if s.len() == 0 || s[0] == c {
    } else {
        let t = s.drop_first();
        lemma_first_index(t, c);
        assert forall|j: int| 0 <= j < first_index(s, c) implies s[j] != c by {
            if j > 0 {
                assert(s[j] == t[j - 1]);
            }
        }
        if first_index(s, c) < s.len() {
            assert(s[first_index(s, c)] == t[first_index(t, c)]);
        }
        if s.contains(c) {
            let k = choose|k: int| 0 <= k < s.len() && s[k] == c;
            assert(t[k - 1] == c);
        }
    }
}

/// What `last_index` finds: the place of the latest `c`, nothing after it.
pub proof fn lemma_last_index(s: Seq<char>, c: char)
    ensures
        -1 <= last_index(s, c) < s.len(),
        last_index(s, c) >= 0 ==> s[last_index(s, c)] == c,
        forall|j: int| last_index(s, c) < j < s.len() ==> s[j] != c,
        last_index(s, c) >= 0 <==> s.contains(c),
    decreases s.len(),
{
    if s.len() == 0 {
    } else if s.last() == c {
    } else {
        let t = s.drop_last();
        lemma_last_index(t, c);
        assert forall|j: int| last_index(s, c) < j < s.len() implies s[j] != c by {
            if j < s.len() - 1 {
                assert(s[j] == t[j]);
            }
        }
        if last_index(s, c) >= 0 {
            assert(s[last_index(s, c)] == t[last_index(t, c)]);
        }
        if s.contains(c) {
            let k = choose|k: int| 0 <= k < s.len() && s[k] == c;
            assert(t[k] == c);
        }
    }
}

/// An index that holds `c` with no `c` before it is the first index.
pub proof fn lemma_first_index_is(s: Seq<char>, c: char, i: int)
    requires
        0 <= i <= s.len(),
        i < s.len() ==> s[i] == c,
        forall|j: int| 0 <= j < i ==> s[j] != c,
    ensures
        first_index(s, c) == i,
{
    lemma_first_index(s, c);
}

/// An index that holds `c` with no `c` after it is the last index.
pub proof fn lemma_last_index_is(s: Seq<char>, c: char, i: int)
    requires
        -1 <= i < s.len(),
        i >= 0 ==> s[i] == c,
        forall|j: int| i < j < s.len() ==> s[j] != c,
    ensures
        last_index(s, c) == i,
{
    lemma_last_index(s, c);
}

/// The characters of `s`, in order.
pub fn chars_of(s: &str) -> (out: Vec<char>)
    ensures
        out@ == s@,
{
    let mut out: Vec<char> = Vec::new();
    let mut it = s.chars();
    loop
        invariant
            it.obeys_prophetic_iter_laws(),
            it.decrease() is Some,
            out@ + it.remaining() == s@,
        ensures
            out@ == s@,
        decreases it.decrease()->0,
    {
        let ghost before = it.remaining();
        match it.next() {
            Some(c) => {
                out.push(c);
                assert(out@ + it.remaining() =~= s@) by {
                    assert(before =~= seq![c] + before.drop_first());
                }
            },
            None => {
                assert(out@ + it.remaining() =~= out@);
                break ;
            },
        }
    }
    out
}

/// Where the first `c` of `v` between `from` and `until` stands, or `until`.
pub fn find_in(v: &Vec<char>, from: usize, until: usize, c: char) -> (at: usize)
    requires
        from <= until <= v.len(),
    ensures
        from <= at <= until,
        at == from + first_index(v@.subrange(from as int, until as int), c),
{
    let mut i: usize = from;
    while i < until && v[i] != c
        invariant
            from <= i <= until <= v.len(),
            forall|j: int| from <= j < i ==> v@[j] != c,
        decreases until - i,
    {
        i += 1;
    }
    proof {
        let t = v@.subrange(from as int, until as int);
        lemma_first_index_is(t, c, i - from);
    }
    i
}

/// Where the first `c` at or after `from` stands in `v`, or `v.len()`.
pub fn find_from(v: &Vec<char>, from: usize, c: char) -> (at: usize)
    requires
        from <= v.len(),
    ensures
        from <= at <= v.len(),
        at == from + first_index(v@.subrange(from as int, v.len() as int), c),
{
    find_in(v, from, v.len(), c)
}

/// Where the last `c` before `until` stands in `v`, if there is one.
pub fn rfind_until(v: &Vec<char>, until: usize, c: char) -> (at: Option<usize>)
    requires
        until <= v.len(),
    ensures
        match at {
            Some(i) => i < until && i == last_index(v@.subrange(0, until as int), c),
            None => last_index(v@.subrange(0, until as int), c) == -1,
        },
{
    let mut i: usize = until;
    while i > 0 && v[i - 1] != c
        invariant
            i <= until <= v.len(),
            forall|j: int| i <= j < until ==> v@[j] != c,
        decreases i,
    {
        i -= 1;
    }
    proof {
        let t = v@.subrange(0, until as int);
        lemma_last_index_is(t, c, i - 1);
    }
    if i == 0 {
        None
    } else {
        Some(i - 1)
    }
}

/// Whether `c` occurs in `s`.
pub fn contains_char(s: &str, c: char) -> (found: bool)
    ensures
        found == s@.contains(c),
{
    let v = chars_of(s);
    let at = find_from(&v, 0, c);
    proof {
        assert(v@.subrange(0, v.len() as int) =~= s@);
        lemma_first_index(s@, c);
    }
    at < v.len()
}

/// Whether the two texts hold the same characters.
pub fn same_text(a: &str, b: &str) -> (same: bool)
    ensures
        same == (a@ == b@),
{
    let x = a.to_owned();
    let y = b.to_owned();
    x == y
}

/// Whether `s` begins with `prefix`.
pub fn starts_with(s: &str, prefix: &str) -> (yes: bool)
    ensures
        yes == prefix@.is_prefix_of(s@),
{
    let n = prefix.unicode_len();
    if n > s.unicode_len() {
        return false;
    }
    let head = s.substring_char(0, n);
    let yes = same_text(head, prefix);
    proof {
        if yes {
            assert(s@.subrange(0, n as int) =~= prefix@);
        }
        if prefix@.is_prefix_of(s@) {
            assert(s@.subrange(0, n as int) =~= prefix@);
        }
    }
    yes
}

/// Whether `s` ends with `suffix`.
pub fn ends_with(s: &str, suffix: &str) -> (yes: bool)
    ensures
        yes == suffix@.is_suffix_of(s@),
{
    let n = suffix.unicode_len();
    let len = s.unicode_len();
    if n > len {
        return false;
    }
    let tail = s.substring_char(len - n, len);
    let yes = same_text(tail, suffix);
    proof {
        if yes {
            assert(s@.subrange(len - n, len as int) =~= suffix@);
        }
        if suffix@.is_suffix_of(s@) {
            assert(s@.subrange(len - n, len as int) =~= suffix@);
        }
    }
    yes
}

/// Whether `c` is white space: the characters that trimming removes.
pub open spec fn is_space(c: char) -> bool {
    let n = c as u32;
    ||| n == 0x20
    ||| 0x09 <= n <= 0x0d
    ||| n == 0x85
    ||| n == 0xa0
    ||| n == 0x1680
    ||| 0x2000 <= n <= 0x200a
    ||| n == 0x2028
    ||| n == 0x2029
    ||| n == 0x202f
    ||| n == 0x205f
    ||| n == 0x3000
}

/// Which characters a trim removes: white space, or one given character.
pub open spec fn is_trimmed_char(only: Option<char>, c: char) -> bool {
    match only {
        Some(x) => c == x,
        None => is_space(c),
    }
}

/// `s` without its leading run of trimmed characters.
pub open spec fn strip_start(s: Seq<char>, only: Option<char>) -> Seq<char>
    decreases s.len(),
{
    if s.len() > 0 && is_trimmed_char(only, s.first()) {
        strip_start(s.drop_first(), only)
    } else {
        s
    }
}

/// `s` without its trailing run of trimmed characters.
pub open spec fn strip_end(s: Seq<char>, only: Option<char>) -> Seq<char>
    decreases s.len(),
{
    if s.len() > 0 && is_trimmed_char(only, s.last()) {
        strip_end(s.drop_last(), only)
    } else {
        s
    }
}

/// `s` without leading and trailing white space.
pub open spec fn trimmed(s: Seq<char>) -> Seq<char> {
    strip_end(strip_start(s, None), None)
}

/// `s` without leading and trailing occurrences of `c`.
pub open spec fn trimmed_of(s: Seq<char>, c: char) -> Seq<char> {
    strip_end(strip_start(s, Some(c)), Some(c))
}

/// Segment number `n` (from 0) of `s` cut at every `sep`, if `s` has that many.
pub open spec fn segment(s: Seq<char>, sep: char, n: nat) -> Option<Seq<char>>
    decreases n,
{
    let i = first_index(s, sep);
    if n == 0 {
        Some(s.subrange(0, i))
    } else if i >= s.len() {
        None
    } else {
        segment(s.subrange(i + 1, s.len() as int), sep, (n - 1) as nat)
    }
}

/// The decimal digit for `d`.
pub open spec fn digit(d: nat) -> char
    recommends
        d < 10,
{
    if d == 0 {
        '0'
    } else if d == 1 {
        '1'
    } else if d == 2 {
        '2'
    } else if d == 3 {
        '3'
    } else if d == 4 {
        '4'
    } else if d == 5 {
        '5'
    } else if d == 6 {
        '6'
    } else if d == 7 {
        '7'
    } else if d == 8 {
        '8'
    } else {
        '9'
    }
}

/// `n` written in decimal, without leading zeros.
pub open spec fn decimal(n: nat) -> Seq<char>
    decreases n,
{
    if n < 10 {
        seq![digit(n)]
    } else {
        decimal(n / 10).push(digit(n % 10))
    }
}

/// Whether `c` is white space.
pub fn is_space_char(c: char) -> (yes: bool)
    ensures
        yes == is_space(c),
{
    let n: u32 = c as u32;
    n == 0x20 || (0x09 <= n && n <= 0x0d) || n == 0x85 || n == 0xa0 || n == 0x1680 || (0x2000 <= n
        && n <= 0x200a) || n == 0x2028 || n == 0x2029 || n == 0x202f || n == 0x205f || n == 0x3000
}

/// Whether a trim removes `c`.
fn is_trimmed(only: Option<char>, c: char) -> (yes: bool)
    ensures
        yes == is_trimmed_char(only, c),
{
    match only {
        Some(x) => c == x,
        None => is_space_char(c),
    }
}

/// The bounds of what a trim of `v` keeps.
fn strip_bounds(v: &Vec<char>, only: Option<char>) -> (r: (usize, usize))
    ensures
        r.0 <= r.1 <= v.len(),
        strip_end(strip_start(v@, only), only) == v@.subrange(r.0 as int, r.1 as int),
{
    let n = v.len();
    let mut a: usize = 0;
    assert(v@.subrange(0, n as int) =~= v@);
    while a < n && is_trimmed(only, v[a])
        invariant
            a <= n == v.len(),
            strip_start(v@, only) == strip_start(v@.subrange(a as int, n as int), only),
        decreases n - a,
    {
        proof {
            let t = v@.subrange(a as int, n as int);
            assert(t.first() == v@[a as int]);
            assert(t.drop_first() =~= v@.subrange(a + 1, n as int));
        }
        a += 1;
    }
    proof {
        let t = v@.subrange(a as int, n as int);
        if a < n {
            assert(t.first() == v@[a as int]);
        }
        assert(strip_start(v@, only) == t);
    }
    let mut b: usize = n;
    while b > a && is_trimmed(only, v[b - 1])
        invariant
            a <= b <= n == v.len(),
            strip_end(v@.subrange(a as int, n as int), only) == strip_end(
                v@.subrange(a as int, b as int),
                only,
            ),
        decreases b,
    {
        proof {
            let t = v@.subrange(a as int, b as int);
            assert(t.last() == v@[b - 1]);
            assert(t.drop_last() =~= v@.subrange(a as int, b - 1));
        }
        b -= 1;
    }
    proof {
        let t = v@.subrange(a as int, b as int);
        if b > a {
            assert(t.last() == v@[b - 1]);
        }
    }
    (a, b)
}

/// `s` without leading and trailing white space.
pub fn trim(s: &str) -> (out: String)
    ensures
        out@ == trimmed(s@),
{
    let v = chars_of(s);
    let (a, b) = strip_bounds(&v, None);
    String::from_str(s.substring_char(a, b))
}

/// `s` without leading and trailing occurrences of `c`.
pub fn trim_matches(s: &str, c: char) -> (out: String)
    ensures
        out@ == trimmed_of(s@, c),
{
    let v = chars_of(s);
    let (a, b) = strip_bounds(&v, Some(c));
    String::from_str(s.substring_char(a, b))
}

/// Segment number `n` (from 0) of `s` cut at every `sep`.
pub fn nth_segment(s: &str, sep: char, n: usize) -> (out: Option<String>)
    ensures
        match out {
            Some(t) => segment(s@, sep, n as nat) == Some(t@),
            None => segment(s@, sep, n as nat) is None,
        },
{
    let v = chars_of(s);
    let len = v.len();
    let mut start: usize = 0;
    let mut k: usize = 0;
    assert(v@.subrange(0, len as int) =~= v@);
    while k < n
        invariant
            k <= n,
            v@ == s@,
            start <= len == v.len(),
            segment(v@, sep, n as nat) == segment(
                v@.subrange(start as int, len as int),
                sep,
                (n - k) as nat,
            ),
        decreases n - k,
    {
        let at = find_from(&v, start, sep);
        if at >= len {
            assert(segment(v@.subrange(start as int, len as int), sep, (n - k) as nat) is None);
            return None;
        }
        proof {
            let t = v@.subrange(start as int, len as int);
            assert(t.subrange(at - start + 1, t.len() as int) =~= v@.subrange(
                at + 1,
                len as int,
            ));
        }
        start = at + 1;
        k += 1;
    }
    let at = find_from(&v, start, sep);
    proof {
        let t = v@.subrange(start as int, len as int);
        assert(t.subrange(0, at - start) =~= v@.subrange(start as int, at as int));
    }
    Some(String::from_str(s.substring_char(start, at)))
}

/// The decimal digit for `d`, as text.
fn digit_text(d: u64) -> (out: &'static str)
    requires
        d < 10,
    ensures
        out@ == seq![digit(d as nat)],
{
    proof {
        reveal_strlit("0");
        reveal_strlit("1");
        reveal_strlit("2");
        reveal_strlit("3");
        reveal_strlit("4");
        reveal_strlit("5");
        reveal_strlit("6");
        reveal_strlit("7");
        reveal_strlit("8");
        reveal_strlit("9");
    }
    let out = if d == 0 {
        "0"
    } else if d == 1 {
        "1"
    } else if d == 2 {
        "2"
    } else if d == 3 {
        "3"
    } else if d == 4 {
        "4"
    } else if d == 5 {
        "5"
    } else if d == 6 {
        "6"
    } else if d == 7 {
        "7"
    } else if d == 8 {
        "8"
    } else {
        "9"
    };
    assert(out@ =~= seq![digit(d as nat)]);
    out
}

/// `n` written in decimal, without leading zeros.
pub fn decimal_text(n: u64) -> (out: String)
    ensures
        out@ == decimal(n as nat),
    decreases n,
{
    if n < 10 {
        String::from_str(digit_text(n))
    } else {
        let mut out = decimal_text(n / 10);
        out.append(digit_text(n % 10));
        proof {
            assert(out@ =~= decimal((n / 10) as nat).push(digit((n % 10) as nat)));
        }
        out
    }
}

/// What trimming the front removes: a run of trimmed characters, up to the
/// first character that is not one.
pub proof fn lemma_strip_start(s: Seq<char>, only: Option<char>) -> (from: int)
    ensures
        0 <= from <= s.len(),
        strip_start(s, only) == s.subrange(from, s.len() as int),
        forall|i: int| 0 <= i < from ==> is_trimmed_char(only, s[i]),
        from < s.len() ==> !is_trimmed_char(only, s[from]),
    decreases s.len(),
{
    if s.len() > 0 && is_trimmed_char(only, s.first()) {
        let t = s.drop_first();
        let from = lemma_strip_start(t, only);
        assert(t.subrange(from, t.len() as int) =~= s.subrange(from + 1, s.len() as int));
        assert forall|i: int| 0 <= i < from + 1 implies is_trimmed_char(only, s[i]) by {
            if i > 0 {
                assert(s[i] == t[i - 1]);
            }
        }
        if from + 1 < s.len() {
            assert(s[from + 1] == t[from]);
        }
        from + 1
    } else {
        assert(s.subrange(0, s.len() as int) =~= s);
        0
    }
}

/// What trimming the back removes: a run of trimmed characters, down to the
/// last character that is not one.
pub proof fn lemma_strip_end(s: Seq<char>, only: Option<char>) -> (until: int)
    ensures
        0 <= until <= s.len(),
        strip_end(s, only) == s.subrange(0, until),
        forall|i: int| until <= i < s.len() ==> is_trimmed_char(only, s[i]),
        0 < until ==> !is_trimmed_char(only, s[until - 1]),
    decreases s.len(),
{
    if s.len() > 0 && is_trimmed_char(only, s.last()) {
        let t = s.drop_last();
        let until = lemma_strip_end(t, only);
        assert(t.subrange(0, until) =~= s.subrange(0, until));
        assert forall|i: int| until <= i < s.len() implies is_trimmed_char(only, s[i]) by {
            if i < s.len() - 1 {
                assert(s[i] == t[i]);
            }
        }
        if 0 < until {
            assert(s[until - 1] == t[until - 1]);
        }
        until
    } else {
        assert(s.subrange(0, s.len() as int) =~= s);
        s.len() as int
    }
}

/// What a trim keeps: the stretch of the text between its leading and its
/// trailing run of white space. It neither begins nor ends with white space,
/// and trimming it again changes nothing.
pub proof fn lemma_trimmed(s: Seq<char>) -> (bounds: (int, int))
    ensures
        0 <= bounds.0 <= bounds.1 <= s.len(),
        trimmed(s) == s.subrange(bounds.0, bounds.1),
        forall|i: int| 0 <= i < bounds.0 ==> is_space(s[i]),
        forall|i: int| bounds.1 <= i < s.len() ==> is_space(s[i]),
        trimmed(s).len() > 0 ==> !is_space(trimmed(s).first()) && !is_space(trimmed(s).last()),
        trimmed(trimmed(s)) == trimmed(s),
{
    let from = lemma_strip_start(s, None);
    let front = s.subrange(from, s.len() as int);
    let until = lemma_strip_end(front, None);
    let kept = front.subrange(0, until);
    assert(kept =~= s.subrange(from, from + until));
    assert forall|i: int| from + until <= i < s.len() implies is_space(s[i]) by {
        assert(s[i] == front[i - from]);
    }
    if kept.len() > 0 {
        assert(kept.first() == front[0]);
        assert(front[0] == s[from]);
        assert(kept.last() == front[until - 1]);
    }
    let again = lemma_strip_start(kept, None);
    assert(again == 0);
    assert(kept.subrange(0, kept.len() as int) =~= kept);
    let again_until = lemma_strip_end(kept, None);
    assert(again_until == kept.len());
    (from, from + until)
}

/// The number that a text of decimal digits stands for.
pub open spec fn decimal_value(s: Seq<char>) -> nat
    decreases s.len(),
{
    if s.len() == 0 {
        0
    } else {
        10 * decimal_value(s.drop_last()) + (s.last() as u32 - '0' as u32) as nat
    }
}

/// Writing a number in decimal loses nothing: the text holds digits only,
/// begins with a zero only for zero itself, and stands for the number.
pub proof fn lemma_decimal(n: nat)
    ensures
        decimal(n).len() > 0,
        forall|i: int| 0 <= i < decimal(n).len() ==> '0' <= #[trigger] decimal(n)[i] <= '9',
        decimal(n)[0] == '0' <==> n == 0,
        decimal_value(decimal(n)) == n,
    decreases n,
{
    if n < 10 {
        assert(decimal(n).drop_last() =~= Seq::<char>::empty());
        assert(decimal(n).last() == digit(n));
        reveal_with_fuel(decimal_value, 2);
    } else {
        lemma_decimal(n / 10);
        let head = decimal(n / 10);
        assert(decimal(n).drop_last() =~= head);
        assert(decimal(n).last() == digit(n % 10));
        assert(decimal(n)[0] == head[0]);
        assert forall|i: int| 0 <= i < decimal(n).len() implies '0' <= #[trigger] decimal(n)[i]
            <= '9' by {
            if i < head.len() {
                assert(decimal(n)[i] == head[i]);
            }
        }
    }
}

} // verus!
