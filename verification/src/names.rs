//! Small verified building blocks shared by the analysis passes: sequences of
//! names with set-like insertion, and association lists looked up by name.

use vstd::prelude::*;
use vstd::string::StringExecFns;

verus! {

/// The character sequences of a sequence of strings.
pub open spec fn names_of(s: Seq<String>) -> Seq<Seq<char>> {
    s.map_values(|x: String| x@)
}

/// Insert a name into a duplicate-free name sequence, keeping insertion order.
pub open spec fn push_unique_spec(s: Seq<Seq<char>>, x: Seq<char>) -> Seq<Seq<char>> {
    if s.contains(x) {
        s
    } else {
        s.push(x)
    }
}

pub broadcast proof fn names_of_len(s: Seq<String>)
    ensures
        #[trigger] names_of(s).len() == s.len(),
{
}

pub broadcast proof fn names_of_index(s: Seq<String>, i: int)
    requires
        0 <= i < s.len(),
    ensures
        #[trigger] names_of(s)[i] == s[i]@,
{
}

pub broadcast proof fn names_of_push(s: Seq<String>, x: String)
    ensures
        #[trigger] names_of(s.push(x)) =~= names_of(s).push(x@),
{
    broadcast use names_of_len, names_of_index;

}

pub broadcast group group_names_axioms {
    names_of_len,
    names_of_index,
    names_of_push,
}

/// Whether `v` holds a string whose characters equal those of `x`.
pub fn contains_name(v: &Vec<String>, x: &String) -> (b: bool)
    ensures
        b == names_of(v@).contains(x@),
{
    broadcast use group_names_axioms;

    let mut i: usize = 0;
    while i < v.len()
        invariant
            i <= v.len(),
            forall|j: int| 0 <= j < i ==> names_of(v@)[j] != x@,
        decreases v.len() - i,
    {
        if v[i].eq(x) {
            assert(names_of(v@)[i as int] == x@);
            return true;
        }
        i += 1;
    }
    false
}

/// Append `x` unless an equal name is already present.
pub fn push_unique(v: &mut Vec<String>, x: String)
    ensures
        names_of(final(v)@) == push_unique_spec(names_of(old(v)@), x@),
{
    broadcast use group_names_axioms;

    if !contains_name(v, &x) {
        v.push(x);
    }
}

/// Whether two name lists hold the same characters position by position.
pub fn names_equal(a: &Vec<String>, b: &Vec<String>) -> (r: bool)
    ensures
        r == (names_of(a@) == names_of(b@)),
{
    broadcast use group_names_axioms;

    if a.len() != b.len() {
        assert(names_of(a@).len() != names_of(b@).len());
        return false;
    }
    let mut i: usize = 0;
    while i < a.len()
        invariant
            i <= a.len(),
            a@.len() == b@.len(),
            forall|j: int| 0 <= j < i ==> names_of(a@)[j] == names_of(b@)[j],
        decreases a.len() - i,
    {
        if !a[i].eq(&b[i]) {
            assert(names_of(a@)[i as int] != names_of(b@)[i as int]);
            return false;
        }
        i += 1;
    }
    assert(names_of(a@) =~= names_of(b@));
    true
}

/// Whether the string equals the given literal text.
pub fn text_is(s: &String, lit: &str) -> (b: bool)
    ensures
        b == (s@ == lit@),
{
    let t = String::from_str(lit);
    s.eq(&t)
}

/// The characters of an optional string.
pub open spec fn view_opt(o: Option<String>) -> Option<Seq<char>> {
    match o {
        Some(s) => Some(s@),
        None => None,
    }
}

/// Drop from `s` every name that occurs in `excl`, keeping order.
pub open spec fn filter_names(s: Seq<Seq<char>>, excl: Seq<Seq<char>>) -> Seq<Seq<char>>
    decreases s.len(),
{
    if s.len() == 0 {
        Seq::empty()
    } else {
        let r = filter_names(s.drop_last(), excl);
        if excl.contains(s.last()) {
            r
        } else {
            r.push(s.last())
        }
    }
}

/// The names of `v` that do not occur in `excl`, in order.
pub fn retain_not_named(v: &Vec<String>, excl: &Vec<String>) -> (r: Vec<String>)
    ensures
        names_of(r@) == filter_names(names_of(v@), names_of(excl@)),
{
    broadcast use group_names_axioms;

    let mut out: Vec<String> = Vec::new();
    let mut i: usize = 0;
    assert(names_of(v@).take(0) =~= Seq::<Seq<char>>::empty());
    while i < v.len()
        invariant
            i <= v.len(),
            names_of(out@) == filter_names(names_of(v@).take(i as int), names_of(excl@)),
        decreases v.len() - i,
    {
        assert(names_of(v@).take(i + 1).drop_last() =~= names_of(v@).take(i as int));
        assert(names_of(v@).take(i + 1).last() == v@[i as int]@);
        if !contains_name(excl, &v[i]) {
            out.push(v[i].clone());
        }
        i += 1;
    }
    assert(names_of(v@).take(v@.len() as int) =~= names_of(v@));
    out
}

/// Insert a value into a duplicate-free sequence, keeping insertion order.
pub open spec fn push_unique_gen<T>(s: Seq<T>, x: T) -> Seq<T> {
    if s.contains(x) {
        s
    } else {
        s.push(x)
    }
}

/// Look a name up in an association sequence; the latest binding wins.
pub open spec fn assoc_find<K, V>(pairs: Seq<(K, V)>, k: K) -> Option<V>
    decreases pairs.len(),
{
    if pairs.len() == 0 {
        None
    } else if pairs.last().0 == k {
        Some(pairs.last().1)
    } else {
        assoc_find(pairs.drop_last(), k)
    }
}

/// Whether `needle` occurs contiguously inside `hay`.
pub open spec fn is_substr(hay: Seq<char>, needle: Seq<char>) -> bool {
    exists|i: int|
        0 <= i && i + needle.len() <= hay.len() && #[trigger] hay.subrange(i, i + needle.len())
            == needle
}

/// Whether the characters of `needle` occur contiguously inside `hay`.
pub fn contains_substr(hay: &str, needle: &str) -> (b: bool)
    ensures
        b == is_substr(hay@, needle@),
{
    let hl = hay.unicode_len();
    let nl = needle.unicode_len();
    if nl > hl {
        assert(!is_substr(hay@, needle@));
        return false;
    }
    let mut i: usize = 0;
    while i <= hl - nl
        invariant
            nl <= hl,
            hl == hay@.len(),
            nl == needle@.len(),
            i <= hl - nl + 1,
            forall|ii: int|
                0 <= ii < i ==> #[trigger] hay@.subrange(ii, ii + needle@.len() as int)
                    != needle@,
        decreases hl + 1 - nl - i,
    {
        let mut j: usize = 0;
        let mut hit = true;
        while hit && j < nl
            invariant
                nl <= hl,
                hl == hay@.len(),
                nl == needle@.len(),
                i + nl <= hl,
                j <= nl,
                hit ==> forall|k: int| 0 <= k < j ==> hay@[i + k] == needle@[k],
                !hit ==> exists|k: int| 0 <= k < needle@.len() && hay@[i + k] != needle@[k],
            decreases (if hit { 1int } else { 0int }), nl - j,
        {
            if hay.get_char(i + j) != needle.get_char(j) {
                assert(hay@[i + j as int] != needle@[j as int]);
                hit = false;
            } else {
                j += 1;
            }
        }
        if hit {
            assert(hay@.subrange(i as int, i + needle@.len() as int) =~= needle@);
            return true;
        } else {
            assert(hay@.subrange(i as int, i + needle@.len() as int) != needle@) by {
                assert(exists|k: int|
                    0 <= k < needle@.len() && hay@[i + k] != needle@[k]);
                let k = choose|k: int|
                    0 <= k < needle@.len() && hay@[i + k] != needle@[k];
                assert(hay@.subrange(i as int, i + needle@.len() as int)[k] == hay@[i + k]);
            }
        }
        i += 1;
    }
    assert(!is_substr(hay@, needle@)) by {
        assert(forall|ii: int|
            0 <= ii && ii + needle@.len() <= hay@.len() ==> #[trigger] hay@.subrange(
                ii,
                ii + needle@.len() as int,
            ) != needle@);
    }
    false
}

} // verus!
