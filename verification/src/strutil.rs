use vstd::prelude::*;
use vstd::string::*;

verus! {

/// `p` is a prefix of `s`.
pub open spec fn starts_with_seq(s: Seq<char>, p: Seq<char>) -> bool {
    p.len() <= s.len() && s.take(p.len() as int) == p
}

/// `p` is a suffix of `s`.
pub open spec fn ends_with_seq(s: Seq<char>, p: Seq<char>) -> bool {
    p.len() <= s.len() && s.skip(s.len() - p.len()) == p
}

/// `p` occurs in `s` at position `i`.
pub open spec fn match_at(s: Seq<char>, p: Seq<char>, i: int) -> bool {
    0 <= i && i + p.len() <= s.len() && s.subrange(i, i + p.len()) == p
}

/// `p` occurs somewhere in `s`.
pub open spec fn contains_seq(s: Seq<char>, p: Seq<char>) -> bool {
    exists|i: int| match_at(s, p, i)
}

/// The result of replacing every (leftmost-first, non-overlapping)
/// occurrence of `p` in `s` by `rep`.
pub open spec fn replace_seq(s: Seq<char>, p: Seq<char>, rep: Seq<char>) -> Seq<char>
    decreases s.len(),
{
    if s.len() == 0 {
        s
    } else if p.len() > 0 && starts_with_seq(s, p) {
        rep + replace_seq(s.skip(p.len() as int), p, rep)
    } else {
        seq![s[0]] + replace_seq(s.skip(1), p, rep)
    }
}

/// The elements of `parts` concatenated with `sep` between them.
pub open spec fn join_with(parts: Seq<Seq<char>>, sep: Seq<char>) -> Seq<char>
    decreases parts.len(),
{
    if parts.len() == 0 {
        Seq::empty()
    } else if parts.len() == 1 {
        parts[0]
    } else {
        join_with(parts.drop_last(), sep) + sep + parts.last()
    }
}

/// The whitespace characters stripped by `trim`.
pub open spec fn is_space(c: char) -> bool {
    c == ' ' || c == '\t' || c == '\n' || c == '\r'
}

/// `s` with its leading whitespace removed.
pub open spec fn trim_left_seq(s: Seq<char>) -> Seq<char>
    decreases s.len(),
{
    if s.len() > 0 && is_space(s[0]) {
        trim_left_seq(s.skip(1))
    } else {
        s
    }
}

/// `s` with its trailing whitespace removed.
pub open spec fn trim_right_seq(s: Seq<char>) -> Seq<char>
    decreases s.len(),
{
    if s.len() > 0 && is_space(s.last()) {
        trim_right_seq(s.drop_last())
    } else {
        s
    }
}

/// `s` with leading and trailing whitespace removed.
pub open spec fn trim_seq(s: Seq<char>) -> Seq<char> {
    trim_right_seq(trim_left_seq(s))
}

/// The prefix of `s` that comes before the first occurrence of `p`
/// (all of `s` when `p` does not occur).
pub open spec fn before_seq(s: Seq<char>, p: Seq<char>) -> Seq<char>
    decreases s.len(),
{
    if starts_with_seq(s, p) {
        Seq::empty()
    } else if s.len() == 0 {
        s
    } else {
        seq![s[0]] + before_seq(s.skip(1), p)
    }
}

/// Character-for-character equality of two string slices.
pub fn str_eq(a: &str, b: &str) -> (r: bool)
    ensures
        r == (a@ == b@),
{
    let alen = a.unicode_len();
    let blen = b.unicode_len();
    if alen != blen {
        return false;
    }
    let mut i: usize = 0;
    while i < alen
        invariant
            alen == a@.len(),
            alen == b@.len(),
            i <= alen,
            forall|j: int| 0 <= j < i ==> a@[j] == b@[j],
        decreases alen - i,
    {
        let ca = a.get_char(i);
        let cb = b.get_char(i);
        if ca != cb {
            proof {
                assert(a@[i as int] != b@[i as int]);
            }
            return false;
        }
        i += 1;
    }
    proof {
        assert(a@ =~= b@);
    }
    true
}

/// Whether `p` occurs in `s` at position `i`.
pub fn has_match_at(s: &str, p: &str, i: usize) -> (r: bool)
    requires
        i <= s@.len(),
    ensures
        r == match_at(s@, p@, i as int),
{
    let slen = s.unicode_len();
    let plen = p.unicode_len();
    if plen > slen - i {
        return false;
    }
    let mut j: usize = 0;
    while j < plen
        invariant
            slen == s@.len(),
            plen == p@.len(),
            i + plen <= slen,
            j <= plen,
            forall|k: int| 0 <= k < j ==> s@[i + k] == p@[k],
        decreases plen - j,
    {
        let cs = s.get_char(i + j);
        let cp = p.get_char(j);
        if cs != cp {
            proof {
                assert(!match_at(s@, p@, i as int)) by {
                    if s@.subrange(i as int, i + p@.len()) == p@ {
                        assert(s@.subrange(i as int, i + p@.len())[j as int] == s@[i + j]);
                    }
                }
            }
            return false;
        }
        j += 1;
    }
    proof {
        assert(s@.subrange(i as int, i + p@.len()) =~= p@);
    }
    true
}

/// Whether `s` starts with `p`.
pub fn str_starts_with(s: &str, p: &str) -> (r: bool)
    ensures
        r == starts_with_seq(s@, p@),
{
    let r = has_match_at(s, p, 0);
    proof {
        if p@.len() <= s@.len() {
            assert(s@.subrange(0, p@.len() as int) =~= s@.take(p@.len() as int));
        }
    }
    r
}

/// Whether `s` ends with `p`.
pub fn str_ends_with(s: &str, p: &str) -> (r: bool)
    ensures
        r == ends_with_seq(s@, p@),
{
    let slen = s.unicode_len();
    let plen = p.unicode_len();
    if plen > slen {
        return false;
    }
    let r = has_match_at(s, p, slen - plen);
    proof {
        assert(s@.subrange(s@.len() - p@.len(), s@.len() - p@.len() + p@.len()) =~= s@.skip(
            s@.len() - p@.len(),
        ));
    }
    r
}

/// Whether `p` occurs anywhere in `s`.
pub fn contains_sub(s: &str, p: &str) -> (r: bool)
    ensures
        r == contains_seq(s@, p@),
{
    let slen = s.unicode_len();
    let mut i: usize = 0;
    while i < slen
        invariant
            slen == s@.len(),
            i <= slen,
            forall|j: int| 0 <= j < i ==> !match_at(s@, p@, j),
        decreases slen - i,
    {
        if has_match_at(s, p, i) {
            return true;
        }
        i += 1;
    }
    if has_match_at(s, p, slen) {
        return true;
    }
    proof {
        assert(!contains_seq(s@, p@)) by {
            assert forall|j: int| !match_at(s@, p@, j) by {
                if 0 <= j <= slen {
                    assert(!match_at(s@, p@, j));
                }
            }
        }
    }
    false
}

/// The result of replacing every occurrence of `p` in `s` by `rep`.
pub fn replace_all(s: &str, p: &str, rep: &str) -> (res: String)
    requires
        p@.len() > 0,
    ensures
        res@ == replace_seq(s@, p@, rep@),
{
    let slen = s.unicode_len();
    let plen = p.unicode_len();
    let mut out = String::new();
    let mut i: usize = 0;
    proof {
        assert(s@.skip(0) =~= s@);
        assert(Seq::<char>::empty() + replace_seq(s@, p@, rep@) =~= replace_seq(s@, p@, rep@));
    }
    while i < slen
        invariant
            slen == s@.len(),
            plen == p@.len(),
            plen > 0,
            i <= slen,
            replace_seq(s@, p@, rep@) == out@ + replace_seq(s@.skip(i as int), p@, rep@),
        decreases slen - i,
    {
        if has_match_at(s, p, i) {
            out.append(rep);
            proof {
                assert(starts_with_seq(s@.skip(i as int), p@)) by {
                    assert(s@.skip(i as int).take(p@.len() as int) =~= s@.subrange(
                        i as int,
                        i + p@.len(),
                    ));
                }
                assert(s@.skip(i as int).skip(p@.len() as int) =~= s@.skip(i + p@.len()));
            }
            i += plen;
        } else {
            let c = s.substring_char(i, i + 1);
            out.append(c);
            proof {
                assert(!starts_with_seq(s@.skip(i as int), p@)) by {
                    if starts_with_seq(s@.skip(i as int), p@) {
                        assert(s@.subrange(i as int, i + p@.len()) =~= s@.skip(i as int).take(
                            p@.len() as int,
                        ));
                    }
                }
                assert(seq![s@.skip(i as int)[0]] =~= s@.subrange(i as int, i + 1));
                assert(s@.skip(i as int).skip(1) =~= s@.skip(i + 1));
            }
            i += 1;
        }
    }
    proof {
        assert(s@.skip(slen as int) =~= Seq::<char>::empty());
        assert(out@ + replace_seq(s@.skip(slen as int), p@, rep@) =~= out@);
    }
    out
}

/// The index of the first character of `s` that is not whitespace
/// (the length of `s` when every character is).
fn first_non_space(s: &str) -> (k: usize)
    ensures
        k <= s@.len(),
        forall|j: int| 0 <= j < k ==> is_space(s@[j]),
        k == s@.len() || !is_space(s@[k as int]),
{
    let slen = s.unicode_len();
    let mut i: usize = 0;
    while i < slen
        invariant
            slen == s@.len(),
            i <= slen,
            forall|j: int| 0 <= j < i ==> is_space(s@[j]),
        decreases slen - i,
    {
        let c = s.get_char(i);
        if !(c == ' ' || c == '\t' || c == '\n' || c == '\r') {
            return i;
        }
        i += 1;
    }
    i
}

/// One past the index of the last character of `s` that is not
/// whitespace (zero when every character is).
fn last_non_space_end(s: &str) -> (k: usize)
    ensures
        k <= s@.len(),
        forall|j: int| k <= j < s@.len() ==> is_space(s@[j]),
        k == 0 || !is_space(s@[k - 1]),
{
    let slen = s.unicode_len();
    let mut i: usize = slen;
    while i > 0
        invariant
            slen == s@.len(),
            i <= slen,
            forall|j: int| i <= j < slen ==> is_space(s@[j]),
        decreases i,
    {
        let c = s.get_char(i - 1);
        if !(c == ' ' || c == '\t' || c == '\n' || c == '\r') {
            return i;
        }
        i -= 1;
    }
    i
}

proof fn lemma_trim_left_skip(s: Seq<char>, k: int)
    requires
        0 <= k <= s.len(),
        forall|j: int| 0 <= j < k ==> is_space(s[j]),
        k == s.len() || !is_space(s[k]),
    ensures
        trim_left_seq(s) == s.skip(k),
    decreases k,
{
    if k == 0 {
        assert(s.skip(0) =~= s);
    } else {
        lemma_trim_left_skip(s.skip(1), k - 1);
        assert(s.skip(1).skip(k - 1) =~= s.skip(k));
    }
}

proof fn lemma_trim_right_take(s: Seq<char>, k: int)
    requires
        0 <= k <= s.len(),
        forall|j: int| k <= j < s.len() ==> is_space(s[j]),
        k == 0 || !is_space(s[k - 1]),
    ensures
        trim_right_seq(s) == s.take(k),
    decreases s.len() - k,
{
    if k == s.len() {
        assert(s.take(k) =~= s);
    } else {
        lemma_trim_right_take(s.drop_last(), k);
        assert(s.drop_last().take(k) =~= s.take(k));
    }
}

/// `s` with leading and trailing whitespace removed.
pub fn trim(s: &str) -> (res: String)
    ensures
        res@ == trim_seq(s@),
{
    let start = first_non_space(s);
    let end = last_non_space_end(s);
    proof {
        lemma_trim_left_skip(s@, start as int);
    }
    if start >= end {
        proof {
            // every character of s@.skip(start) is whitespace
            lemma_trim_right_take(s@.skip(start as int), 0);
            assert(s@.skip(start as int).take(0) =~= Seq::<char>::empty());
        }
        String::new()
    } else {
        let piece = s.substring_char(start, end);
        proof {
            lemma_trim_right_take(s@.skip(start as int), end - start);
            assert(s@.skip(start as int).take(end - start) =~= s@.subrange(
                start as int,
                end as int,
            ));
        }
        piece.to_owned()
    }
}

/// The elements of `parts` joined with a single space between them.
pub fn join_spaces(parts: &Vec<String>) -> (res: String)
    ensures
        res@ == join_with(parts.deep_view(), " "@),
{
    let mut out = String::new();
    let mut i: usize = 0;
    while i < parts.len()
        invariant
            i <= parts.len(),
            parts.deep_view().len() == parts@.len(),
            forall|j: int| 0 <= j < parts@.len() ==> parts.deep_view()[j] == parts@[j]@,
            out@ == join_with(parts.deep_view().take(i as int), " "@),
        decreases parts.len() - i,
    {
        if i > 0 {
            out.append(" ");
        }
        out.append(parts[i].as_str());
        proof {
            let dv = parts.deep_view();
            assert(dv.take(i + 1).drop_last() =~= dv.take(i as int));
            assert(dv.take(i + 1).last() == dv[i as int]);
        }
        i += 1;
    }
    proof {
        assert(parts.deep_view().take(parts@.len() as int) =~= parts.deep_view());
    }
    out
}

/// Whether some element of `v` equals `x`, character for character.
pub fn contains_str(v: &Vec<String>, x: &str) -> (r: bool)
    ensures
        r == v.deep_view().contains(x@),
{
    let mut i: usize = 0;
    while i < v.len()
        invariant
            i <= v@.len(),
            v.deep_view().len() == v@.len(),
            forall|j: int| 0 <= j < v@.len() ==> v.deep_view()[j] == v@[j]@,
            forall|j: int| 0 <= j < i ==> v@[j]@ != x@,
        decreases v@.len() - i,
    {
        if str_eq(v[i].as_str(), x) {
            proof {
                assert(v.deep_view()[i as int] == x@);
            }
            return true;
        }
        i += 1;
    }
    proof {
        assert(!v.deep_view().contains(x@)) by {
            if v.deep_view().contains(x@) {
                let j = choose|j: int|
                    0 <= j < v.deep_view().len() && v.deep_view()[j] == x@;
                assert(v@[j]@ == x@);
            }
        }
    }
    false
}

/// A copy of a vector of strings, character for character.
pub fn clone_strings(v: &Vec<String>) -> (r: Vec<String>)
    ensures
        r@ == v@,
{
    let r = v.clone();
    proof {
        assert forall|i: int| 0 <= i < v@.len() implies r@[i] == v@[i] by {
            assert(vstd::pervasive::cloned::<String>(v@[i], r@[i]));
        }
        assert(r@ =~= v@);
    }
    r
}

/// The prefix of `s` before the first occurrence of `p`.
pub fn before_first(s: &str, p: &str) -> (res: String)
    requires
        p@.len() > 0,
    ensures
        res@ == before_seq(s@, p@),
{
    let slen = s.unicode_len();
    let mut out = String::new();
    let mut i: usize = 0;
    proof {
        assert(s@.skip(0) =~= s@);
        assert(Seq::<char>::empty() + before_seq(s@, p@) =~= before_seq(s@, p@));
    }
    while i < slen
        invariant
            slen == s@.len(),
            p@.len() > 0,
            i <= slen,
            before_seq(s@, p@) == out@ + before_seq(s@.skip(i as int), p@),
        decreases slen - i,
    {
        if has_match_at(s, p, i) {
            proof {
                assert(starts_with_seq(s@.skip(i as int), p@)) by {
                    assert(s@.skip(i as int).take(p@.len() as int) =~= s@.subrange(
                        i as int,
                        i + p@.len(),
                    ));
                }
                assert(out@ + before_seq(s@.skip(i as int), p@) =~= out@);
            }
            return out;
        }
        let c = s.substring_char(i, i + 1);
        out.append(c);
        proof {
            assert(!starts_with_seq(s@.skip(i as int), p@)) by {
                if starts_with_seq(s@.skip(i as int), p@) {
                    assert(s@.subrange(i as int, i + p@.len()) =~= s@.skip(i as int).take(
                        p@.len() as int,
                    ));
                }
            }
            assert(seq![s@.skip(i as int)[0]] =~= s@.subrange(i as int, i + 1));
            assert(s@.skip(i as int).skip(1) =~= s@.skip(i + 1));
        }
        i += 1;
    }
    proof {
        assert(s@.skip(slen as int) =~= Seq::<char>::empty());
        assert(!starts_with_seq(s@.skip(slen as int), p@));
        assert(out@ + before_seq(s@.skip(slen as int), p@) =~= out@);
    }
    out
}

} // verus!
