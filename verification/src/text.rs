//! Character-sequence helpers: the small part of `str`'s behaviour that the
//! routing logic relies on (trimming, substring search and replacement),
//! stated over `Seq<char>` and implemented on `Vec<char>`.

use vstd::prelude::*;

verus! {

/// The Unicode `White_Space` property, which `char::is_whitespace` and
/// `str::trim` use.
pub open spec fn is_white_space(c: char) -> bool {
    let u = c as u32;
    ||| 0x9 <= u <= 0xd
    ||| u == 0x20
    ||| u == 0x85
    ||| u == 0xa0
    ||| u == 0x1680
    ||| 0x2000 <= u <= 0x200a
    ||| u == 0x2028
    ||| u == 0x2029
    ||| u == 0x202f
    ||| u == 0x205f
    ||| u == 0x3000
}

/// `s` without its leading white space.
pub open spec fn trim_start_ws(s: Seq<char>) -> Seq<char>
    decreases s.len(),
{
    if s.len() > 0 && is_white_space(s[0]) {
        trim_start_ws(s.drop_first())
    } else {
        s
    }
}

/// `s` without its trailing white space.
pub open spec fn trim_end_ws(s: Seq<char>) -> Seq<char>
    decreases s.len(),
{
    if s.len() > 0 && is_white_space(s.last()) {
        trim_end_ws(s.drop_last())
    } else {
        s
    }
}

/// `s` without leading and trailing white space (what `str::trim` gives).
pub open spec fn trim_ws(s: Seq<char>) -> Seq<char> {
    trim_end_ws(trim_start_ws(s))
}

/// `s` without every leading `c` (what `str::trim_start_matches(c)` gives).
pub open spec fn trim_start_matching(s: Seq<char>, c: char) -> Seq<char>
    decreases s.len(),
{
    if s.len() > 0 && s[0] == c {
        trim_start_matching(s.drop_first(), c)
    } else {
        s
    }
}

/// `s` without every trailing `c` (what `str::trim_end_matches(c)` gives).
pub open spec fn trim_end_matching(s: Seq<char>, c: char) -> Seq<char>
    decreases s.len(),
{
    if s.len() > 0 && s.last() == c {
        trim_end_matching(s.drop_last(), c)
    } else {
        s
    }
}

/// `pat` occurs in `s` at position `i`.
pub open spec fn occurs_at(s: Seq<char>, pat: Seq<char>, i: int) -> bool {
    0 <= i && i + pat.len() <= s.len() && s.subrange(i, i + pat.len()) =~= pat
}

/// `pat` occurs somewhere in `s` (what `str::contains` gives).
pub open spec fn has_infix(s: Seq<char>, pat: Seq<char>) -> bool {
    exists|i: int| occurs_at(s, pat, i)
}

/// Every occurrence of the non-empty pattern `pat` in `s`, taken from left to
/// right without overlap, replaced by `rep` (what `str::replace` gives).
pub open spec fn replace_all(s: Seq<char>, pat: Seq<char>, rep: Seq<char>) -> Seq<char>
    recommends
        pat.len() > 0,
    decreases s.len(),
{
    if s.len() == 0 || pat.len() == 0 {
        s
    } else if pat.is_prefix_of(s) {
        rep + replace_all(s.skip(pat.len() as int), pat, rep)
    } else {
        seq![s[0]] + replace_all(s.drop_first(), pat, rep)
    }
}

/// Appends `c` to `s`.
///
/// Trusted: calls `String::push`, which std documents as appending the given
/// char to the end of the string.
#[verifier::external_body]
fn push_char(s: &mut String, c: char)
    ensures
        final(s)@ == old(s)@.push(c),
{
    s.push(c);
}

/// The characters of `s`, in order.
pub fn chars_of(s: &str) -> (v: Vec<char>)
    ensures
        v@ == s@,
{
    let mut v: Vec<char> = Vec::new();
    for c in it: s.chars()
        invariant
            v@ == it.seq().take(it.index() as int),
            it.seq() == s@,
    {
        v.push(c);
    }
    v
}

/// The string made of the characters of `v`, in order.
pub fn string_of(v: &Vec<char>) -> (s: String)
    ensures
        s@ == v@,
{
    let mut s = String::new();
    let mut i: usize = 0;
    while i < v.len()
        invariant
            i <= v.len(),
            s@ == v@.take(i as int),
        decreases v.len() - i,
    {
        proof {
            assert(v@.take(i as int + 1) == v@.take(i as int).push(v@[i as int]));
        }
        push_char(&mut s, v[i]);
        i += 1;
    }
    proof {
        assert(v@.take(v.len() as int) == v@);
    }
    s
}


/// Whether `c` has the Unicode `White_Space` property.
pub fn is_white_space_char(c: char) -> (r: bool)
    ensures
        r == is_white_space(c),
{
    let u = c as u32;
    (0x9 <= u && u <= 0xd) || u == 0x20 || u == 0x85 || u == 0xa0 || u == 0x1680 || (0x2000 <= u
        && u <= 0x200a) || u == 0x2028 || u == 0x2029 || u == 0x202f || u == 0x205f || u == 0x3000
}

/// The characters of `v` from index `a` up to, not including, index `b`.
pub fn copy_range(v: &Vec<char>, a: usize, b: usize) -> (r: Vec<char>)
    requires
        a <= b <= v.len(),
    ensures
        r@ == v@.subrange(a as int, b as int),
{
    let mut r: Vec<char> = Vec::new();
    let mut i = a;
    while i < b
        invariant
            a <= i <= b <= v.len(),
            r@ == v@.subrange(a as int, i as int),
        decreases b - i,
    {
        proof {
            assert(v@.subrange(a as int, i as int + 1) == v@.subrange(a as int, i as int).push(
                v@[i as int],
            ));
        }
        r.push(v[i]);
        i += 1;
    }
    r
}

/// Appends the characters of `src` to `out`.
pub fn push_all(out: &mut Vec<char>, src: &Vec<char>)
    ensures
        final(out)@ == old(out)@ + src@,
{
    let mut i: usize = 0;
    while i < src.len()
        invariant
            i <= src.len(),
            out@ == old(out)@ + src@.take(i as int),
        decreases src.len() - i,
    {
        proof {
            assert(old(out)@ + src@.take(i as int + 1) == (old(out)@ + src@.take(i as int)).push(
                src@[i as int],
            ));
        }
        out.push(src[i]);
        i += 1;
    }
    proof {
        assert(src@.take(src.len() as int) == src@);
    }
}

/// Whether `a` and `b` hold the same characters.
pub fn same_chars(a: &Vec<char>, b: &Vec<char>) -> (r: bool)
    ensures
        r == (a@ == b@),
{
    if a.len() != b.len() {
        return false;
    }
    let mut i: usize = 0;
    while i < a.len()
        invariant
            i <= a.len() == b.len(),
            forall|j: int| 0 <= j < i ==> a@[j] == b@[j],
        decreases a.len() - i,
    {
        if a[i] != b[i] {
            return false;
        }
        i += 1;
    }
    proof {
        assert(a@ =~= b@);
    }
    true
}

/// `v` without leading and trailing white space.
pub fn trim_whitespace(v: &Vec<char>) -> (r: Vec<char>)
    ensures
        r@ == trim_ws(v@),
{
    let mut start: usize = 0;
    assert(v@.skip(0) =~= v@);
    while start < v.len() && is_white_space_char(v[start])
        invariant
            start <= v.len(),
            trim_start_ws(v@) == trim_start_ws(v@.skip(start as int)),
        decreases v.len() - start,
    {
        proof {
            assert(v@.skip(start as int).drop_first() =~= v@.skip(start as int + 1));
        }
        start += 1;
    }
    let ghost t = v@.skip(start as int);
    assert(trim_start_ws(v@) == t);
    let mut end: usize = v.len();
    while end > start && is_white_space_char(v[end - 1])
        invariant
            start <= end <= v.len(),
            t == v@.skip(start as int),
            trim_end_ws(t) == trim_end_ws(v@.subrange(start as int, end as int)),
        decreases end,
    {
        proof {
            assert(v@.subrange(start as int, end as int).drop_last() =~= v@.subrange(
                start as int,
                end as int - 1,
            ));
        }
        end -= 1;
    }
    proof {
        assert(v@.subrange(start as int, v.len() as int) =~= t);
    }
    copy_range(v, start, end)
}

/// `v` without every leading `c`.
pub fn trim_start_char(v: &Vec<char>, c: char) -> (r: Vec<char>)
    ensures
        r@ == trim_start_matching(v@, c),
{
    let mut start: usize = 0;
    assert(v@.skip(0) =~= v@);
    while start < v.len() && v[start] == c
        invariant
            start <= v.len(),
            trim_start_matching(v@, c) == trim_start_matching(v@.skip(start as int), c),
        decreases v.len() - start,
    {
        proof {
            assert(v@.skip(start as int).drop_first() =~= v@.skip(start as int + 1));
        }
        start += 1;
    }
    proof {
        assert(v@.subrange(start as int, v.len() as int) =~= v@.skip(start as int));
    }
    copy_range(v, start, v.len())
}

/// `v` without every trailing `c`.
pub fn trim_end_char(v: &Vec<char>, c: char) -> (r: Vec<char>)
    ensures
        r@ == trim_end_matching(v@, c),
{
    let mut end: usize = v.len();
    assert(v@.take(v.len() as int) =~= v@);
    while end > 0 && v[end - 1] == c
        invariant
            end <= v.len(),
            trim_end_matching(v@, c) == trim_end_matching(v@.take(end as int), c),
        decreases end,
    {
        proof {
            assert(v@.take(end as int).drop_last() =~= v@.take(end as int - 1));
        }
        end -= 1;
    }
    proof {
        assert(v@.subrange(0, end as int) =~= v@.take(end as int));
    }
    copy_range(v, 0, end)
}

/// Whether `pat` occurs in `v` at position `i`.
pub fn occurs_at_index(v: &Vec<char>, pat: &Vec<char>, i: usize) -> (r: bool)
    ensures
        r == occurs_at(v@, pat@, i as int),
{
    if i > v.len() || pat.len() > v.len() - i {
        return false;
    }
    let mut k: usize = 0;
    while k < pat.len()
        invariant
            i + pat.len() <= v.len(),
            k <= pat.len(),
            forall|j: int| 0 <= j < k ==> v@[i + j] == pat@[j],
        decreases pat.len() - k,
    {
        if v[i + k] != pat[k] {
            assert(v@.subrange(i as int, i + pat.len())[k as int] != pat@[k as int]);
            return false;
        }
        k += 1;
    }
    proof {
        assert(v@.subrange(i as int, i + pat.len()) =~= pat@);
    }
    true
}

/// Whether `pat` occurs anywhere in `v`.
pub fn contains_chars(v: &Vec<char>, pat: &Vec<char>) -> (r: bool)
    ensures
        r == has_infix(v@, pat@),
{
    if pat.len() > v.len() {
        return false;
    }
    let mut i: usize = 0;
    while i <= v.len() - pat.len()
        invariant
            pat.len() <= v.len(),
            forall|j: int| 0 <= j < i ==> !occurs_at(v@, pat@, j),
        decreases v.len() - pat.len() + 1 - i,
    {
        if occurs_at_index(v, pat, i) {
            return true;
        }
        i += 1;
    }
    proof {
        assert forall|j: int| !occurs_at(v@, pat@, j) by {
            if 0 <= j < i {
            }
        }
    }
    false
}

/// `v` with every occurrence of `pat`, taken from left to right without
/// overlap, replaced by `rep`.
pub fn replace_chars(v: &Vec<char>, pat: &Vec<char>, rep: &Vec<char>) -> (r: Vec<char>)
    requires
        pat.len() > 0,
    ensures
        r@ == replace_all(v@, pat@, rep@),
{
    let mut out: Vec<char> = Vec::new();
    let mut i: usize = 0;
    assert(v@.skip(0) =~= v@);
    assert(out@ + replace_all(v@, pat@, rep@) =~= replace_all(v@, pat@, rep@));
    while i < v.len()
        invariant
            i <= v.len(),
            pat.len() > 0,
            replace_all(v@, pat@, rep@) == out@ + replace_all(v@.skip(i as int), pat@, rep@),
        decreases v.len() - i,
    {
        let ghost t = v@.skip(i as int);
        let ghost before = out@;
        if occurs_at_index(v, pat, i) {
            proof {
                assert(t.subrange(0, pat.len() as int) =~= v@.subrange(i as int, i + pat.len()));
                assert(pat@.is_prefix_of(t));
                assert(t.skip(pat.len() as int) =~= v@.skip(i + pat.len()));
            }
            push_all(&mut out, rep);
            proof {
                assert(before + (rep@ + replace_all(v@.skip(i + pat.len()), pat@, rep@)) =~= out@
                    + replace_all(v@.skip(i + pat.len()), pat@, rep@));
            }
            i += pat.len();
        } else {
            proof {
                if pat@.is_prefix_of(t) {
                    assert(v@.subrange(i as int, i + pat.len()) =~= t.subrange(
                        0,
                        pat.len() as int,
                    ));
                    assert(occurs_at(v@, pat@, i as int));
                }
                assert(t.drop_first() =~= v@.skip(i + 1));
            }
            out.push(v[i]);
            proof {
                assert(before + (seq![t[0]] + replace_all(v@.skip(i + 1), pat@, rep@)) =~= out@
                    + replace_all(v@.skip(i + 1), pat@, rep@));
            }
            i += 1;
        }
    }
    proof {
        assert(out@ + replace_all(v@.skip(i as int), pat@, rep@) =~= out@);
    }
    out
}


/// Replacing by something no longer than the pattern never lengthens.
pub proof fn lemma_replace_all_len_le(s: Seq<char>, pat: Seq<char>, rep: Seq<char>)
    requires
        pat.len() > 0,
        rep.len() <= pat.len(),
    ensures
        replace_all(s, pat, rep).len() <= s.len(),
    decreases s.len(),
{
    if s.len() == 0 {
    } else if pat.is_prefix_of(s) {
        lemma_replace_all_len_le(s.skip(pat.len() as int), pat, rep);
    } else {
        lemma_replace_all_len_le(s.drop_first(), pat, rep);
    }
}

/// Replacing by something shorter than the pattern shortens whatever holds
/// the pattern.
pub proof fn lemma_replace_all_len_lt(s: Seq<char>, pat: Seq<char>, rep: Seq<char>)
    requires
        pat.len() > 0,
        rep.len() < pat.len(),
        has_infix(s, pat),
    ensures
        replace_all(s, pat, rep).len() < s.len(),
    decreases s.len(),
{
    let i = choose|i: int| occurs_at(s, pat, i);
    if pat.is_prefix_of(s) {
        lemma_replace_all_len_le(s.skip(pat.len() as int), pat, rep);
    } else {
        if i == 0 {
            assert(pat.is_prefix_of(s));
        }
        assert(s.drop_first().subrange(i - 1, i - 1 + pat.len()) =~= s.subrange(i, i + pat.len()));
        assert(occurs_at(s.drop_first(), pat, i - 1));
        lemma_replace_all_len_lt(s.drop_first(), pat, rep);
    }
}

/// When the pattern and its replacement start with the first character of
/// `s`, the replacement keeps that first character.
pub proof fn lemma_replace_all_keeps_first(s: Seq<char>, pat: Seq<char>, rep: Seq<char>)
    requires
        pat.len() > 0,
        rep.len() > 0,
        s.len() > 0,
        pat[0] == s[0],
        rep[0] == s[0],
    ensures
        replace_all(s, pat, rep).len() > 0,
        replace_all(s, pat, rep)[0] == s[0],
{
}


/// Dropping trailing `c` keeps a prefix of `s`, which ends in something
/// other than `c` unless it is empty.
pub proof fn lemma_trim_end_matching_shape(s: Seq<char>, c: char)
    ensures
        trim_end_matching(s, c).len() <= s.len(),
        trim_end_matching(s, c) =~= s.take(trim_end_matching(s, c).len() as int),
        trim_end_matching(s, c).len() > 0 ==> trim_end_matching(s, c).last() != c,
    decreases s.len(),
{
    if s.len() > 0 && s.last() == c {
        lemma_trim_end_matching_shape(s.drop_last(), c);
    }
}

} // verus!
