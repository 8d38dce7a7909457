//! Verified string utilities: substring containment, suffix tests, and
//! last-separator searches over `Seq<char>` views.

use vstd::prelude::*;

verus! {

/// `n` occurs in `h` starting at character index `i`.
pub open spec fn matches_at(h: Seq<char>, n: Seq<char>, i: int) -> bool {
    0 <= i && i + n.len() <= h.len() && h.subrange(i, i + n.len() as int) == n
}

/// `n` occurs somewhere in `h`.
pub open spec fn contains_seq(h: Seq<char>, n: Seq<char>) -> bool {
    exists|i: int| matches_at(h, n, i)
}

/// `h` ends with `n`.
pub open spec fn ends_with_seq(h: Seq<char>, n: Seq<char>) -> bool {
    n.len() <= h.len() && h.subrange(h.len() - n.len(), h.len() as int) == n
}

/// `c` occurs in `s`.
pub open spec fn has_char(s: Seq<char>, c: char) -> bool {
    exists|i: int| 0 <= i < s.len() && s[i] == c
}

/// The last index at which `c` occurs in `s`, or -1 if it does not occur.
pub open spec fn last_index_of(s: Seq<char>, c: char) -> int
    decreases s.len(),
{
    if s.len() == 0 {
        -1
    } else if s[s.len() - 1] == c {
        s.len() - 1
    } else {
        last_index_of(s.drop_last(), c)
    }
}

/// `last_index_of` finds the last occurrence of `c`, and -1 exactly when
/// `c` does not occur.
pub proof fn lemma_last_index_of(s: Seq<char>, c: char)
    ensures
        has_char(s, c) ==> {
            &&& 0 <= last_index_of(s, c) < s.len()
            &&& s[last_index_of(s, c)] == c
            &&& forall|j: int| last_index_of(s, c) < j < s.len() ==> s[j] != c
        },
        !has_char(s, c) ==> last_index_of(s, c) == -1,
    decreases s.len(),
{
    if s.len() == 0 {
        assert(!has_char(s, c));
    } else if s[s.len() - 1] == c {
        assert(has_char(s, c));
    } else {
        lemma_last_index_of(s.drop_last(), c);
        assert(forall|i: int| 0 <= i < s.len() - 1 ==> s[i] == s.drop_last()[i]);
        if has_char(s, c) {
            let i = choose|i: int| 0 <= i < s.len() && s[i] == c;
            assert(s.drop_last()[i] == c);
            assert(has_char(s.drop_last(), c));
        }
        if has_char(s.drop_last(), c) {
            let i = choose|i: int| 0 <= i < s.drop_last().len() && s.drop_last()[i] == c;
            assert(s[i] == c);
            assert(has_char(s, c));
        }
    }
}

/// Whether `n` occurs in `h` at character index `i`.
fn match_at(h: &str, n: &str, i: usize) -> (b: bool)
    requires
        i + n@.len() <= h@.len(),
        h@.len() <= usize::MAX,
    ensures
        b == matches_at(h@, n@, i as int),
{
    let n_len = n.unicode_len();
    let mut j: usize = 0;
    while j < n_len
        invariant
            j <= n_len,
            n_len == n@.len(),
            i + n@.len() <= h@.len(),
            h@.len() <= usize::MAX,
            forall|k: int| 0 <= k < j ==> h@[i + k] == n@[k],
        decreases n_len - j,
    {
        if h.get_char(i + j) != n.get_char(j) {
            assert(h@.subrange(i as int, i + n@.len() as int)[j as int] != n@[j as int]);
            return false;
        }
        j += 1;
    }
    assert(h@.subrange(i as int, i + n@.len() as int) =~= n@);
    true
}

/// Whether `n` occurs somewhere in `h`.
pub fn str_contains(h: &str, n: &str) -> (b: bool)
    ensures
        b == contains_seq(h@, n@),
{
    let h_len = h.unicode_len();
    let n_len = n.unicode_len();
    if n_len > h_len {
        assert(forall|i: int| !matches_at(h@, n@, i));
        return false;
    }
    let mut i: usize = 0;
    loop
        invariant
            i <= h_len - n_len,
            n_len <= h_len,
            h_len == h@.len(),
            n_len == n@.len(),
            forall|k: int| 0 <= k < i ==> !matches_at(h@, n@, k),
        decreases h_len - n_len - i,
    {
        if match_at(h, n, i) {
            return true;
        }
        if i == h_len - n_len {
            assert(forall|k: int| !matches_at(h@, n@, k));
            return false;
        }
        i += 1;
    }
}

/// Whether `h` ends with `n`.
pub fn str_ends_with(h: &str, n: &str) -> (b: bool)
    ensures
        b == ends_with_seq(h@, n@),
{
    let h_len = h.unicode_len();
    let n_len = n.unicode_len();
    if n_len > h_len {
        return false;
    }
    match_at(h, n, h_len - n_len)
}

/// The last index at which `c` occurs in `s`, if it occurs at all.
pub fn rfind_char(s: &str, c: char) -> (r: Option<usize>)
    ensures
        r == (if has_char(s@, c) {
            Some(last_index_of(s@, c) as usize)
        } else {
            None::<usize>
        }),
{
    let len = s.unicode_len();
    let mut i: usize = len;
    loop
        invariant
            i <= len,
            len == s@.len(),
            forall|j: int| i <= j < s@.len() ==> s@[j] != c,
        decreases i,
    {
        if i == 0 {
            assert(!has_char(s@, c));
            proof {
                lemma_last_index_of(s@, c);
            }
            return None;
        }
        i -= 1;
        if s.get_char(i) == c {
            proof {
                lemma_last_index_of(s@, c);
                assert(has_char(s@, c));
                let l = last_index_of(s@, c);
                if l < i {
                    assert(s@[i as int] != c);
                }
                assert(l == i);
            }
            return Some(i);
        }
    }
}

/// Whether `a` and `b` hold the same characters.
pub fn str_eq(a: &str, b: &str) -> (r: bool)
    ensures
        r == (a@ == b@),
{
    let a_len = a.unicode_len();
    let b_len = b.unicode_len();
    if a_len != b_len {
        return false;
    }
    let eq = match_at(a, b, 0);
    proof {
        if eq {
            assert(a@.subrange(0, a@.len() as int) =~= a@);
        }
        if a@ == b@ {
            assert(a@.subrange(0, b@.len() as int) =~= b@);
        }
    }
    eq
}

/// A copy of `s` with its last character removed; the empty string stays
/// empty.
pub fn drop_last_char(s: &str) -> (r: String)
    ensures
        r@ == (if s@.len() > 0 {
            s@.drop_last()
        } else {
            s@
        }),
{
    let len = s.unicode_len();
    if len == 0 {
        s.to_owned()
    } else {
        let sub = s.substring_char(0, len - 1);
        assert(sub@ =~= s@.drop_last());
        sub.to_owned()
    }
}

/// A copy of the character range `[from, to)` of `s`.
pub fn substring_copy(s: &str, from: usize, to: usize) -> (r: String)
    requires
        from <= to <= s@.len(),
    ensures
        r@ == s@.subrange(from as int, to as int),
{
    s.substring_char(from, to).to_owned()
}

/// The concatenation of `a` and `b`.
pub fn concat_str(a: &str, b: &str) -> (r: String)
    ensures
        r@ == a@ + b@,
{
    let s = a.to_owned();
    s.concat(b)
}

/// Whether some element of `v` views to `p`.
pub(crate) fn vec_contains_str(v: &Vec<String>, p: &str) -> (b: bool)
    ensures
        b == v.deep_view().to_set().contains(p@),
{
    let mut i: usize = 0;
    while i < v.len()
        invariant
            i <= v@.len(),
            forall|j: int| 0 <= j < i ==> v.deep_view()[j] != p@,
        decreases v@.len() - i,
    {
        if str_eq(v[i].as_str(), p) {
            assert(v.deep_view()[i as int] == p@);
            assert(v.deep_view().contains(p@));
            return true;
        }
        i += 1;
    }
    assert(forall|j: int| 0 <= j < v.deep_view().len() ==> v.deep_view()[j] != p@);
    false
}

/// Appends `p` unless an equal string is already present.
pub(crate) fn vec_insert_unique(v: &mut Vec<String>, p: String)
    requires
        forall|i: int, j: int|
            0 <= i < j < old(v)@.len() ==> old(v).deep_view()[i] != old(v).deep_view()[j],
    ensures
        forall|i: int, j: int|
            0 <= i < j < final(v)@.len() ==> final(v).deep_view()[i] != final(v).deep_view()[j],
        final(v).deep_view().to_set() == old(v).deep_view().to_set().insert(p@),
{
    let ghost old_deep = v.deep_view();
    if !vec_contains_str(v, p.as_str()) {
        v.push(p);
        proof {
            assert(v.deep_view() =~= old_deep.push(p@));
            old_deep.lemma_push_to_set_commute(v.deep_view().last());
            assert(v.deep_view().to_set() =~= old_deep.to_set().insert(p@));
        }
    } else {
        proof {
            assert(v.deep_view() == old_deep);
            assert(old_deep.to_set().contains(p@));
            assert(v.deep_view().to_set() =~= old_deep.to_set().insert(p@));
        }
    }
}

} // verus!
