//! Paths as text: components separated by `/`.

use crate::text::{chars_of, last_index, lemma_last_index_is, rfind_until};
use vstd::prelude::*;
use vstd::string::StrSliceExecFns;
use vstd::string::StringExecFns;

verus! {

broadcast use vstd::string::group_string_axioms;

/// `part` placed below the directory `base`.
pub open spec fn joined(base: Seq<char>, part: Seq<char>) -> Seq<char> {
    base + seq!['/'] + part
}

/// The last component of `p`: what follows its last separator.
pub open spec fn file_name_of(p: Seq<char>) -> Seq<char> {
    p.subrange(last_index(p, '/') + 1, p.len() as int)
}

/// The directory that holds `p`: what precedes its last separator. A path
/// without a separator lies in the empty (current) directory, a path directly
/// below the root lies in `/`; the empty path and the root lie nowhere.
pub open spec fn parent_of(p: Seq<char>) -> Option<Seq<char>> {
    let i = last_index(p, '/');
    if i < 0 {
        if p.len() == 0 {
            None
        } else {
            Some(Seq::empty())
        }
    } else if i == 0 {
        if p.len() == 1 {
            None
        } else {
            Some(seq!['/'])
        }
    } else {
        Some(p.subrange(0, i))
    }
}

/// Whether the path `p` lies below the directory `dir`.
pub open spec fn is_below(p: Seq<char>, dir: Seq<char>) -> bool {
    (dir + seq!['/']).is_prefix_of(p)
}

/// How many separators `s` holds.
pub open spec fn depth(s: Seq<char>) -> nat
    decreases s.len(),
{
    if s.len() == 0 {
        0
    } else if s.last() == '/' {
        depth(s.drop_last()) + 1
    } else {
        depth(s.drop_last())
    }
}

/// The separators of a concatenation are those of its two parts.
pub proof fn lemma_depth_concat(a: Seq<char>, b: Seq<char>)
    ensures
        depth(a + b) == depth(a) + depth(b),
    decreases b.len(),
{
    if b.len() == 0 {
        assert(a + b =~= a);
    } else {
        assert((a + b).drop_last() =~= a + b.drop_last());
        assert((a + b).last() == b.last());
        lemma_depth_concat(a, b.drop_last());
    }
}

/// Text without a separator has depth 0.
pub proof fn lemma_depth_zero(s: Seq<char>)
    requires
        !s.contains('/'),
    ensures
        depth(s) == 0,
    decreases s.len(),
{
    if s.len() > 0 {
        assert(s.last() == s[s.len() - 1]);
        assert forall|j: int| 0 <= j < s.drop_last().len() implies s.drop_last()[j] != '/' by {
            assert(s.drop_last()[j] == s[j]);
        }
        lemma_depth_zero(s.drop_last());
    }
}

/// A component without a separator adds one level.
pub proof fn lemma_depth_joined(base: Seq<char>, part: Seq<char>)
    requires
        !part.contains('/'),
    ensures
        depth(joined(base, part)) == depth(base) + 1,
{
    lemma_depth_concat(base + seq!['/'], part);
    lemma_depth_concat(base, seq!['/']);
    lemma_depth_zero(part);
    assert(seq!['/'].drop_last() =~= Seq::<char>::empty());
    assert(depth(seq!['/']) == 1) by {
        reveal_with_fuel(depth, 2);
    }
}

/// Joining loses nothing: two joins agree only where the bases and the
/// components agree, as long as the components hold no separator.
pub proof fn lemma_joined_injective(a: Seq<char>, x: Seq<char>, b: Seq<char>, y: Seq<char>)
    requires
        joined(a, x) == joined(b, y),
        !x.contains('/'),
        !y.contains('/'),
    ensures
        a == b,
        x == y,
{
    let p = joined(a, x);
    let q = joined(b, y);
    assert(p.len() == a.len() + 1 + x.len());
    assert(q.len() == b.len() + 1 + y.len());
    if x.len() < y.len() {
        // the separator before `x` would stand inside `y`
        let k = a.len() as int;
        assert(p[k] == '/');
        assert(q[k] == y[k - b.len() - 1]);
        assert(false);
    }
    if y.len() < x.len() {
        let k = b.len() as int;
        assert(q[k] == '/');
        assert(p[k] == x[k - a.len() - 1]);
        assert(false);
    }
    assert(a =~= b) by {
        assert forall|i: int| 0 <= i < a.len() implies a[i] == b[i] by {
            assert(p[i] == a[i]);
            assert(q[i] == b[i]);
        }
    }
    assert(x =~= y) by {
        assert forall|i: int| 0 <= i < x.len() implies x[i] == y[i] by {
            assert(p[a.len() + 1 + i] == x[i]);
            assert(q[b.len() + 1 + i] == y[i]);
        }
    }
}

/// Below one base, two joins agree only where the components agree.
pub proof fn lemma_joined_same_base(a: Seq<char>, x: Seq<char>, y: Seq<char>)
    requires
        joined(a, x) == joined(a, y),
    ensures
        x == y,
{
    let p = joined(a, x);
    let q = joined(a, y);
    assert(p.len() == a.len() + 1 + x.len());
    assert(q.len() == a.len() + 1 + y.len());
    assert(x =~= y) by {
        assert forall|i: int| 0 <= i < x.len() implies x[i] == y[i] by {
            assert(p[a.len() + 1 + i] == x[i]);
            assert(q[a.len() + 1 + i] == y[i]);
        }
    }
}

/// The last component of a join is the component joined, and its parent the base.
pub proof fn lemma_joined_parts(base: Seq<char>, part: Seq<char>)
    requires
        !part.contains('/'),
    ensures
        file_name_of(joined(base, part)) == part,
        last_index(joined(base, part), '/') == base.len(),
        base.len() > 0 && part.len() > 0 ==> parent_of(joined(base, part)) == Some(base),
{
    let p = joined(base, part);
    assert(p.len() == base.len() + 1 + part.len());
    assert(p[base.len() as int] == '/');
    assert forall|j: int| base.len() < j < p.len() implies p[j] != '/' by {
        assert(p[j] == part[j - base.len() - 1]);
    }
    lemma_last_index_is(p, '/', base.len() as int);
    assert(p.subrange(base.len() as int + 1, p.len() as int) =~= part);
    assert(p.subrange(0, base.len() as int) =~= base);
}

/// `part` placed below the directory `base`.
pub fn join(base: &str, part: &str) -> (out: String)
    ensures
        out@ == joined(base@, part@),
{
    let mut out = String::from_str(base);
    out.append("/");
    out.append(part);
    proof {
        reveal_strlit("/");
        assert("/"@ =~= seq!['/']);
    }
    out
}

/// The last component of `p`.
pub fn file_name(p: &str) -> (out: String)
    ensures
        out@ == file_name_of(p@),
{
    let v = chars_of(p);
    let n = v.len();
    assert(v@.subrange(0, n as int) =~= p@);
    match rfind_until(&v, n, '/') {
        Some(i) => String::from_str(p.substring_char(i + 1, n)),
        None => String::from_str(p.substring_char(0, n)),
    }
}

/// The directory that holds `p`, if it lies in one.
pub fn parent(p: &str) -> (out: Option<String>)
    ensures
        match out {
            Some(d) => parent_of(p@) == Some(d@),
            None => parent_of(p@) is None,
        },
{
    let v = chars_of(p);
    let n = v.len();
    assert(v@.subrange(0, n as int) =~= p@);
    match rfind_until(&v, n, '/') {
        None => {
            if n == 0 {
                None
            } else {
                let out = String::new();
                Some(out)
            }
        },
        Some(i) => {
            if i == 0 {
                if n == 1 {
                    None
                } else {
                    proof {
                        reveal_strlit("/");
                        assert("/"@ =~= seq!['/']);
                    }
                    Some(String::from_str("/"))
                }
            } else {
                Some(String::from_str(p.substring_char(0, i)))
            }
        },
    }
}

} // verus!
