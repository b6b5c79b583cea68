use vstd::prelude::*;
use vstd::string::StrSliceExecFns;

verus! {

// ---------------------------------------------------------------------------
// Verified splitting of text, as the error classifier reads server
// diagnostics: splitting on a separator character and tokenizing on
// whitespace.
// ---------------------------------------------------------------------------

/// The index of the first occurrence of `c` in `s`, or the length of `s`
/// when `c` does not occur.
pub open spec fn first_ix(s: Seq<char>, c: char) -> int
    decreases s.len(),
{
    if s.len() == 0 {
        0
    } else if s[0] == c {
        0
    } else {
        1 + first_ix(s.drop_first(), c)
    }
}

/// What `first_ix` returns: the position of the first occurrence, or the
/// length when there is none.
pub proof fn lemma_first_ix(s: Seq<char>, c: char)
    ensures
        0 <= first_ix(s, c) <= s.len(),
        first_ix(s, c) < s.len() ==> s[first_ix(s, c)] == c,
        forall|j: int| 0 <= j < first_ix(s, c) ==> s[j] != c,
    decreases s.len(),
{
    if s.len() > 0 && s[0] != c {
        lemma_first_ix(s.drop_first(), c);
        assert forall|j: int| 0 <= j < first_ix(s, c) implies s[j] != c by {
            if j > 0 {
                assert(s[j] == s.drop_first()[j - 1]);
            }
        }
    }
}

/// `s` split on the separator `c`: the (possibly empty) stretches between
/// occurrences, in order. The result always holds at least one piece; a
/// separator-free text is one piece.
pub open spec fn split_char(s: Seq<char>, c: char) -> Seq<Seq<char>>
    decreases s.len(),
{
    let i = first_ix(s, c);
    if 0 <= i < s.len() {
        seq![s.subrange(0, i)] + split_char(s.subrange(i + 1, s.len() as int), c)
    } else {
        seq![s]
    }
}

/// Splitting never yields an empty list.
pub proof fn lemma_split_char_len(s: Seq<char>, c: char)
    ensures
        split_char(s, c).len() >= 1,
    decreases s.len(),
{
}

/// Whether a character separates whitespace tokens.
pub open spec fn is_space_char(c: char) -> bool {
    c == ' ' || c == '\t' || c == '\n' || c == '\r'
}

/// The index of the first whitespace character of `s`, or the length of
/// `s` when there is none.
pub open spec fn first_space(s: Seq<char>) -> int
    decreases s.len(),
{
    if s.len() == 0 {
        0
    } else if is_space_char(s[0]) {
        0
    } else {
        1 + first_space(s.drop_first())
    }
}

/// What `first_space` returns.
pub proof fn lemma_first_space(s: Seq<char>)
    ensures
        0 <= first_space(s) <= s.len(),
        first_space(s) < s.len() ==> is_space_char(s[first_space(s)]),
        forall|j: int| 0 <= j < first_space(s) ==> !is_space_char(s[j]),
    decreases s.len(),
{
    if s.len() > 0 && !is_space_char(s[0]) {
        lemma_first_space(s.drop_first());
        assert forall|j: int| 0 <= j < first_space(s) implies !is_space_char(s[j]) by {
            if j > 0 {
                assert(s[j] == s.drop_first()[j - 1]);
            }
        }
    }
}

/// The whitespace-separated tokens of `s`, in order, without empty tokens.
pub open spec fn ws_tokens(s: Seq<char>) -> Seq<Seq<char>>
    decreases s.len(),
{
    if s.len() == 0 {
        Seq::empty()
    } else if is_space_char(s[0]) {
        ws_tokens(s.drop_first())
    } else {
        let i = first_space(s);
        if 0 < i < s.len() {
            seq![s.subrange(0, i)] + ws_tokens(s.subrange(i, s.len() as int))
        } else {
            seq![s]
        }
    }
}

/// Whether this character separates whitespace tokens.
fn is_space(c: char) -> (b: bool)
    ensures
        b == is_space_char(c),
{
    c == ' ' || c == '\t' || c == '\n' || c == '\r'
}

/// The position of the first occurrence of `c` in `s`, or the character
/// length of `s` when `c` does not occur.
fn find_char(s: &str, c: char) -> (i: usize)
    ensures
        i as int == first_ix(s@, c),
{
    proof {
        lemma_first_ix(s@, c);
    }
    let n = s.unicode_len();
    let mut i: usize = 0;
    while i < n
        invariant
            i <= n,
            n == s@.len(),
            forall|j: int| 0 <= j < i ==> s@[j] != c,
        decreases n - i,
    {
        if s.get_char(i) == c {
            proof {
                lemma_first_ix(s@, c);
                let f = first_ix(s@, c);
                if f < i as int {
                    assert(s@[f] != c);
                }
                if f > i as int {
                    assert(s@[i as int] != c);
                }
            }
            return i;
        }
        i = i + 1;
    }
    proof {
        let f = first_ix(s@, c);
        if f < n as int {
            assert(s@[f] != c);
        }
    }
    i
}

/// The position of the first whitespace character of `s`, or the character
/// length of `s` when there is none.
fn find_space(s: &str) -> (i: usize)
    ensures
        i as int == first_space(s@),
{
    proof {
        lemma_first_space(s@);
    }
    let n = s.unicode_len();
    let mut i: usize = 0;
    while i < n
        invariant
            i <= n,
            n == s@.len(),
            forall|j: int| 0 <= j < i ==> !is_space_char(s@[j]),
        decreases n - i,
    {
        if is_space(s.get_char(i)) {
            proof {
                lemma_first_space(s@);
                let f = first_space(s@);
                if f < i as int {
                    assert(!is_space_char(s@[f]));
                }
                if f > i as int {
                    assert(!is_space_char(s@[i as int]));
                }
            }
            return i;
        }
        i = i + 1;
    }
    proof {
        let f = first_space(s@);
        if f < n as int {
            assert(!is_space_char(s@[f]));
        }
    }
    i
}

/// Split `s` on the separator `c`, keeping empty pieces, as the model
/// function [`split_char`] describes.
pub fn split_char_exec(s: &str, c: char) -> (r: Vec<String>)
    ensures
        r@.map_values(|t: String| t@) == split_char(s@, c),
    decreases s@.len(),
{
    proof {
        lemma_first_ix(s@, c);
    }
    let n = s.unicode_len();
    let i = find_char(s, c);
    if i < n {
        let head = s.substring_char(0, i);
        let tail = s.substring_char(i + 1, n);
        let mut r = split_char_exec(tail, c);
        r.insert(0, head.to_owned());
        assert(r@.map_values(|t: String| t@) =~= seq![s@.subrange(0, i as int)] + split_char(
            s@.subrange(i as int + 1, s@.len() as int),
            c,
        ));
        r
    } else {
        let mut r: Vec<String> = Vec::new();
        r.push(s.to_owned());
        assert(r@.map_values(|t: String| t@) =~= seq![s@]);
        r
    }
}

/// The whitespace-separated tokens of `s`, as the model function
/// [`ws_tokens`] describes.
pub fn ws_tokens_exec(s: &str) -> (r: Vec<String>)
    ensures
        r@.map_values(|t: String| t@) == ws_tokens(s@),
    decreases s@.len(),
{
    proof {
        lemma_first_space(s@);
    }
    let n = s.unicode_len();
    if n == 0 {
        let r: Vec<String> = Vec::new();
        assert(r@.map_values(|t: String| t@) =~= ws_tokens(s@));
        r
    } else if is_space(s.get_char(0)) {
        let rest = s.substring_char(1, n);
        proof {
            assert(rest@ =~= s@.drop_first());
        }
        ws_tokens_exec(rest)
    } else {
        let i = find_space(s);
        if i < n {
            let head = s.substring_char(0, i);
            let tail = s.substring_char(i, n);
            let mut r = ws_tokens_exec(tail);
            r.insert(0, head.to_owned());
            assert(r@.map_values(|t: String| t@) =~= seq![s@.subrange(0, i as int)] + ws_tokens(
                s@.subrange(i as int, s@.len() as int),
            ));
            r
        } else {
            let mut r: Vec<String> = Vec::new();
            r.push(s.to_owned());
            assert(r@.map_values(|t: String| t@) =~= seq![s@]);
            r
        }
    }
}

} // verus!
