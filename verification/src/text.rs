//! Small verified string utilities: substring search and space-joining,
//! the building blocks of the diagnostic classifier and the notice texts.

use vstd::prelude::*;

verus! {

/// The needle `n` occurs in `h` starting at character position `i`.
pub open spec fn matches_at(h: Seq<char>, n: Seq<char>, i: int) -> bool {
    0 <= i && i + n.len() <= h.len() && h.subrange(i, i + n.len() as int) == n
}

/// `n` occurs somewhere in `h` (case-sensitive, character for character).
pub open spec fn contains_seq(h: Seq<char>, n: Seq<char>) -> bool {
    exists|i: int| matches_at(h, n, i)
}

/// Case-sensitive substring search; the phrase matching of the
/// diagnostic classifier is built on it.
pub fn contains_sub(h: &str, n: &str) -> (b: bool)
    ensures
        b == contains_seq(h@, n@),
{
    let hlen = h.unicode_len();
    let nlen = n.unicode_len();
    if nlen == 0 {
        proof {
            assert(h@.subrange(0, 0) =~= n@);
            assert(matches_at(h@, n@, 0));
        }
        return true;
    }
    if nlen > hlen {
        return false;
    }
    let mut i: usize = 0;
    while i <= hlen - nlen
        invariant
            1 <= nlen <= hlen,
            hlen == h@.len(),
            nlen == n@.len(),
            i <= hlen - nlen + 1,
            forall|k: int| 0 <= k < i ==> !matches_at(h@, n@, k),
        decreases hlen - nlen + 1 - i,
    {
        let mut j: usize = 0;
        let mut matched: bool = true;
        while j < nlen
            invariant
                i + nlen <= hlen,
                hlen == h@.len(),
                nlen == n@.len(),
                j <= nlen,
                matched <==> (forall|t: int| 0 <= t < j ==> h@[i + t] == n@[t]),
            decreases nlen - j,
        {
            if h.get_char(i + j) != n.get_char(j) {
                matched = false;
            }
            j = j + 1;
        }
        if matched {
            proof {
                assert(h@.subrange(i as int, i + nlen) =~= n@);
                assert(matches_at(h@, n@, i as int));
            }
            return true;
        }
        i = i + 1;
    }
    proof {
        assert forall|k: int| !matches_at(h@, n@, k) by {
            if 0 <= k < i {
                assert(!matches_at(h@, n@, k));
            }
        }
    }
    false
}

/// The words of `parts` joined with a single space between neighbours.
pub open spec fn joined_with_spaces(parts: Seq<Seq<char>>) -> Seq<char>
    decreases parts.len(),
{
    if parts.len() == 0 {
        Seq::empty()
    } else if parts.len() == 1 {
        parts[0]
    } else {
        parts[0] + seq![' '] + joined_with_spaces(parts.skip(1))
    }
}

proof fn lemma_joined_snoc(s: Seq<Seq<char>>)
    requires
        s.len() >= 2,
    ensures
        joined_with_spaces(s) == joined_with_spaces(s.drop_last()) + seq![' '] + s.last(),
    decreases s.len(),
{
    if s.len() == 2 {
        assert(s.skip(1) =~= seq![s[1]]);
        assert(s.drop_last() =~= seq![s[0]]);
        assert(joined_with_spaces(s) =~= joined_with_spaces(s.drop_last()) + seq![' '] + s.last());
    } else {
        lemma_joined_snoc(s.skip(1));
        assert(s.skip(1).drop_last() =~= s.drop_last().skip(1));
        assert(s.skip(1).last() == s.last());
        assert(joined_with_spaces(s) == s[0] + seq![' '] + joined_with_spaces(s.skip(1)));
        assert(s.drop_last().len() >= 2);
        assert(s.drop_last()[0] == s[0]);
        assert(joined_with_spaces(s.drop_last()) == s.drop_last()[0] + seq![' ']
            + joined_with_spaces(s.drop_last().skip(1)));
        assert(joined_with_spaces(s) =~= joined_with_spaces(s.drop_last()) + seq![' '] + s.last());
    }
}

/// Join the argument words with single spaces, as the command line that a
/// notice quotes shows them.
pub fn join_with_spaces(parts: &Vec<String>) -> (s: String)
    ensures
        s@ == joined_with_spaces(parts.deep_view()),
{
    let mut s = String::new();
    let n = parts.len();
    let mut i: usize = 0;
    while i < n
        invariant
            n == parts@.len(),
            i <= n,
            s@ == joined_with_spaces(parts.deep_view().take(i as int)),
        decreases n - i,
    {
        if i > 0 {
            s.append(" ");
        }
        s.append(parts[i].as_str());
        proof {
            let dv = parts.deep_view();
            reveal_strlit(" ");
            assert(" "@ =~= seq![' ']);
            if i == 0 {
                assert(dv.take(1) =~= seq![dv[0]]);
                assert(s@ =~= joined_with_spaces(dv.take(1)));
            } else {
                lemma_joined_snoc(dv.take(i + 1));
                assert(dv.take(i + 1).drop_last() =~= dv.take(i as int));
                assert(dv.take(i + 1).last() == dv[i as int]);
            }
        }
        i = i + 1;
    }
    proof {
        assert(parts.deep_view().take(n as int) =~= parts.deep_view());
    }
    s
}

} // verus!
