//! Verified string helpers: comparison, whitespace trimming, splitting on
//! spaces, and placeholder substitution. Each executable function is proved
//! against a direct specification over sequences of characters.

use vstd::prelude::*;

verus! {

/// Compares two string slices character by character.
pub fn str_eq(a: &str, b: &str) -> (r: bool)
    ensures
        r == (a@ == b@),
{
    let alen = a.unicode_len();
    let blen = b.unicode_len();
    if alen != blen {
        return false;
    }
    let mut i: usize = 0;
    while i < alen
        invariant
            i <= alen,
            alen == a@.len(),
            alen == b@.len(),
            forall|j: int| 0 <= j < i ==> a@[j] == b@[j],
        decreases alen - i,
    {
        if a.get_char(i) != b.get_char(i) {
            return false;
        }
        i = i + 1;
    }
    proof {
        assert(a@ =~= b@);
    }
    true
}

/// `c` is an ASCII whitespace character.
pub open spec fn is_space_char(c: char) -> bool {
    c == ' ' || c == '\t' || c == '\n' || c == '\r'
}

/// `s` without its leading whitespace.
pub open spec fn spec_trim_start(s: Seq<char>) -> Seq<char>
    decreases s.len(),
{
    if s.len() > 0 && is_space_char(s[0]) {
        spec_trim_start(s.skip(1))
    } else {
        s
    }
}

/// `s` without its trailing whitespace.
pub open spec fn spec_trim_end(s: Seq<char>) -> Seq<char>
    decreases s.len(),
{
    if s.len() > 0 && is_space_char(s[s.len() - 1]) {
        spec_trim_end(s.take(s.len() - 1))
    } else {
        s
    }
}

/// `s` without leading and trailing whitespace.
pub open spec fn spec_trim(s: Seq<char>) -> Seq<char> {
    spec_trim_end(spec_trim_start(s))
}

fn is_space(c: char) -> (r: bool)
    ensures
        r == is_space_char(c),
{
    c == ' ' || c == '\t' || c == '\n' || c == '\r'
}

/// Removes leading and trailing ASCII whitespace.
pub fn trim(s: &str) -> (r: String)
    ensures
        r@ == spec_trim(s@),
{
    let n = s.unicode_len();
    let mut i: usize = 0;
    proof {
        assert(s@.skip(0) =~= s@);
    }
    while i < n && is_space(s.get_char(i))
        invariant
            i <= n,
            n == s@.len(),
            spec_trim_start(s@) == spec_trim_start(s@.skip(i as int)),
        decreases n - i,
    {
        proof {
            assert(s@.skip(i as int)[0] == s@[i as int]);
            assert(s@.skip(i as int).skip(1) =~= s@.skip(i as int + 1));
        }
        i = i + 1;
    }
    proof {
        assert(spec_trim_start(s@.skip(i as int)) == s@.skip(i as int));
    }
    let mut j: usize = n;
    while j > i && is_space(s.get_char(j - 1))
        invariant
            i <= j <= n,
            n == s@.len(),
            spec_trim_start(s@) == s@.skip(i as int),
            spec_trim_end(s@.subrange(i as int, j as int)) == spec_trim_end(
                spec_trim_start(s@),
            ),
        decreases j,
    {
        proof {
            let t = s@.subrange(i as int, j as int);
            assert(t[t.len() - 1] == s@[j as int - 1]);
            assert(t.take(t.len() - 1) =~= s@.subrange(i as int, j as int - 1));
        }
        j = j - 1;
    }
    proof {
        let t = s@.subrange(i as int, j as int);
        assert(spec_trim_end(t) == t);
        assert(s@.skip(i as int) =~= s@.subrange(i as int, n as int));
    }
    let r = s.substring_char(i, j);
    String::from_str(r)
}

/// The fields of `s` split on every single space character, as `split(' ')`
/// yields them: an empty input gives one empty field, and each space ends the
/// field before it.
pub open spec fn spec_split_spaces(s: Seq<char>) -> Seq<Seq<char>>
    decreases s.len(),
{
    if s.len() == 0 {
        seq![Seq::<char>::empty()]
    } else if s[0] == ' ' {
        seq![Seq::<char>::empty()] + spec_split_spaces(s.skip(1))
    } else {
        let rest = spec_split_spaces(s.skip(1));
        rest.update(0, seq![s[0]] + rest[0])
    }
}

/// Splitting always yields at least one field.
pub proof fn lemma_split_spaces_nonempty(s: Seq<char>)
    ensures
        spec_split_spaces(s).len() >= 1,
    decreases s.len(),
{
    if s.len() == 0 {
    } else if s[0] == ' ' {
        lemma_split_spaces_nonempty(s.skip(1));
    } else {
        lemma_split_spaces_nonempty(s.skip(1));
    }
}

/// Splits `s` on every single space character.
pub fn split_spaces(s: &str) -> (r: Vec<String>)
    ensures
        r@.len() == spec_split_spaces(s@).len(),
        forall|i: int| 0 <= i < r@.len() ==> r@[i]@ == spec_split_spaces(s@)[i],
    decreases s@.len(),
{
    let n = s.unicode_len();
    if n == 0 {
        let mut r: Vec<String> = Vec::new();
        r.push(String::new());
        r
    } else {
        let c = s.get_char(0);
        let rest = s.substring_char(1, n);
        proof {
            assert(rest@ =~= s@.skip(1));
        }
        let mut r = split_spaces(rest);
        proof {
            lemma_split_spaces_nonempty(rest@);
        }
        if c == ' ' {
            r.insert(0, String::new());
            proof {
                assert forall|i: int| 0 <= i < r@.len() implies r@[i]@ == spec_split_spaces(
                    s@,
                )[i] by {
                    if i > 0 {
                        assert(r@[i] == r@.subrange(1, r@.len() as int)[i - 1]);
                    }
                }
            }
            r
        } else {
            let head = s.substring_char(0, 1);
            let mut first = String::from_str(head);
            first.append(r[0].as_str());
            proof {
                assert(head@ =~= seq![s@[0]]);
            }
            r[0] = first;
            r
        }
    }
}

/// `s` with every occurrence of `pat` replaced by `to`, scanning left to
/// right without overlap, as `str::replace` does.
pub open spec fn spec_replace_all(s: Seq<char>, pat: Seq<char>, to: Seq<char>) -> Seq<char>
    decreases s.len(),
{
    if s.len() == 0 {
        Seq::<char>::empty()
    } else if 0 < pat.len() <= s.len() && s.take(pat.len() as int) == pat {
        to + spec_replace_all(s.skip(pat.len() as int), pat, to)
    } else {
        seq![s[0]] + spec_replace_all(s.skip(1), pat, to)
    }
}

/// Replaces every occurrence of `pat` in `s` by `to`.
pub fn replace_all(s: &str, pat: &str, to: &str) -> (r: String)
    requires
        pat@.len() > 0,
    ensures
        r@ == spec_replace_all(s@, pat@, to@),
    decreases s@.len(),
{
    let n = s.unicode_len();
    let p = pat.unicode_len();
    if n == 0 {
        proof {
            assert(spec_replace_all(s@, pat@, to@) =~= Seq::<char>::empty());
        }
        String::new()
    } else if p <= n && str_eq(s.substring_char(0, p), pat) {
        proof {
            assert(s@.subrange(0, p as int) =~= s@.take(p as int));
        }
        let mut r = String::from_str(to);
        let tail = replace_all(s.substring_char(p, n), pat, to);
        proof {
            assert(s@.subrange(p as int, n as int) =~= s@.skip(p as int));
        }
        r.append(tail.as_str());
        r
    } else {
        proof {
            if p <= n {
                assert(s@.subrange(0, p as int) =~= s@.take(p as int));
            }
            assert(s@.subrange(0, 1) =~= seq![s@[0]]);
            assert(s@.subrange(1, n as int) =~= s@.skip(1));
        }
        let mut r = String::from_str(s.substring_char(0, 1));
        let tail = replace_all(s.substring_char(1, n), pat, to);
        r.append(tail.as_str());
        r
    }
}

} // verus!
