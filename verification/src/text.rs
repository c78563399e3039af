//! Text normalization for commit messages, and substring facts used by the
//! contracts of the request builder and the error descriptions.
//!
//! A commit message returned by the completion endpoint is normalized by
//! trimming surrounding whitespace and then stripping one enclosing pair of
//! double-quote characters; each end is handled independently, so an unmatched
//! quote on one end alone is stripped too.

use vstd::prelude::*;
use vstd::string::StrSliceExecFns;

verus! {

/// ASCII whitespace: space, tab, line feed, form feed, carriage return.
pub open spec fn is_ws(c: char) -> bool {
    c == ' ' || c == '\t' || c == '\n' || c == '\x0c' || c == '\r'
}

/// `s` without its leading whitespace characters.
pub open spec fn trim_start_spec(s: Seq<char>) -> Seq<char>
    decreases s.len(),
{
    if s.len() > 0 && is_ws(s[0]) {
        trim_start_spec(s.drop_first())
    } else {
        s
    }
}

/// `s` without its trailing whitespace characters.
pub open spec fn trim_end_spec(s: Seq<char>) -> Seq<char>
    decreases s.len(),
{
    if s.len() > 0 && is_ws(s[s.len() - 1]) {
        trim_end_spec(s.drop_last())
    } else {
        s
    }
}

/// `s` without one leading and one trailing double-quote character, each
/// stripped independently if present.
pub open spec fn strip_quotes_spec(s: Seq<char>) -> Seq<char> {
    let t = if s.len() > 0 && s[0] == '"' {
        s.drop_first()
    } else {
        s
    };
    if t.len() > 0 && t[t.len() - 1] == '"' {
        t.drop_last()
    } else {
        t
    }
}

/// The normalized form of a returned message: surrounding whitespace trimmed,
/// then one enclosing pair of double quotes stripped.
pub open spec fn normalize_spec(s: Seq<char>) -> Seq<char> {
    strip_quotes_spec(trim_end_spec(trim_start_spec(s)))
}

/// Text with no whitespace and no double quote at either end; normalization
/// leaves such text unchanged.
pub open spec fn clean(s: Seq<char>) -> bool {
    s.len() > 0 ==> {
        &&& !is_ws(s[0])
        &&& !is_ws(s[s.len() - 1])
        &&& s[0] != '"'
        &&& s[s.len() - 1] != '"'
    }
}

/// `needle` occurs verbatim inside `hay`.
pub open spec fn contains_seq<A>(hay: Seq<A>, needle: Seq<A>) -> bool {
    exists|i: int|
        0 <= i && i + needle.len() <= hay.len() && #[trigger] hay.subrange(i, i + needle.len())
            == needle
}

fn is_ws_char(c: char) -> (b: bool)
    ensures
        b == is_ws(c),
{
    c == ' ' || c == '\t' || c == '\n' || c == '\x0c' || c == '\r'
}

/// Trim surrounding whitespace, then strip one enclosing pair of double-quote
/// characters (each end independently).
pub fn normalize(s: &str) -> (r: String)
    ensures
        r@ == normalize_spec(s@),
{
    let n = s.unicode_len();
    let mut start: usize = 0;
    proof {
        assert(s@.skip(0) =~= s@);
    }
    loop
        invariant
            n == s@.len(),
            start <= n,
            trim_start_spec(s@) == trim_start_spec(s@.skip(start as int)),
        ensures
            start <= n,
            n == s@.len(),
            trim_start_spec(s@) == s@.skip(start as int),
        decreases n - start,
    {
        if start >= n {
            proof {
                assert(s@.skip(start as int) =~= Seq::<char>::empty());
            }
            break ;
        }
        let c = s.get_char(start);
        if !is_ws_char(c) {
            proof {
                assert(s@.skip(start as int)[0] == c);
            }
            break ;
        }
        proof {
            assert(s@.skip(start as int)[0] == c);
            assert(s@.skip(start as int).drop_first() =~= s@.skip(start as int + 1));
        }
        start = start + 1;
    }
    proof {
        assert(s@.skip(start as int) =~= s@.subrange(start as int, n as int));
    }
    let mut end: usize = n;
    loop
        invariant
            n == s@.len(),
            start <= end <= n,
            trim_end_spec(s@.subrange(start as int, n as int)) == trim_end_spec(
                s@.subrange(start as int, end as int),
            ),
        ensures
            start <= end <= n,
            trim_end_spec(s@.subrange(start as int, n as int)) == s@.subrange(
                start as int,
                end as int,
            ),
        decreases end,
    {
        if end <= start {
            proof {
                assert(s@.subrange(start as int, end as int) =~= Seq::<char>::empty());
            }
            break ;
        }
        let c = s.get_char(end - 1);
        if !is_ws_char(c) {
            proof {
                let t = s@.subrange(start as int, end as int);
                assert(t[t.len() - 1] == c);
            }
            break ;
        }
        proof {
            let t = s@.subrange(start as int, end as int);
            assert(t[t.len() - 1] == c);
            assert(t.drop_last() =~= s@.subrange(start as int, end as int - 1));
        }
        end = end - 1;
    }
    let ghost t = s@.subrange(start as int, end as int);
    let mut a = start;
    let mut b = end;
    if a < b {
        let c = s.get_char(a);
        if c == '"' {
            a = a + 1;
        }
    }
    proof {
        let t1 = if t.len() > 0 && t[0] == '"' {
            t.drop_first()
        } else {
            t
        };
        assert(t1 =~= s@.subrange(a as int, b as int));
    }
    let ghost t1 = s@.subrange(a as int, b as int);
    if a < b {
        let c = s.get_char(b - 1);
        if c == '"' {
            b = b - 1;
        }
    }
    proof {
        let t2 = if t1.len() > 0 && t1[t1.len() - 1] == '"' {
            t1.drop_last()
        } else {
            t1
        };
        assert(t2 =~= s@.subrange(a as int, b as int));
        assert(normalize_spec(s@) == s@.subrange(a as int, b as int));
    }
    let core = s.substring_char(a, b);
    core.to_owned()
}

/// Law: normalization is the identity on already-clean text, so normalizing a
/// second time changes nothing once the first pass yields clean text.
pub proof fn lemma_normalize_clean_identity(s: Seq<char>)
    requires
        clean(s),
    ensures
        normalize_spec(s) == s,
{
    assert(trim_start_spec(s) == s);
    assert(trim_end_spec(s) == s);
    assert(strip_quotes_spec(s) == s);
}

/// Law: normalization is idempotent whenever its result is clean. (Stripping a
/// quote can expose further whitespace or quotes, so this does not hold of
/// every input: two enclosing quote pairs lose one pair per pass.)
pub proof fn lemma_normalize_idempotent(s: Seq<char>)
    requires
        clean(normalize_spec(s)),
    ensures
        normalize_spec(normalize_spec(s)) == normalize_spec(s),
{
    lemma_normalize_clean_identity(normalize_spec(s));
}

/// A concatenation contains its right part verbatim.
pub proof fn lemma_concat_contains_suffix<A>(a: Seq<A>, b: Seq<A>)
    ensures
        contains_seq(a + b, b),
{
    assert((a + b).subrange(a.len() as int, (a.len() + b.len()) as int) =~= b);
}

/// Whatever a text contains, the text extended on the left contains too.
pub proof fn lemma_contains_in_extension<A>(p: Seq<A>, b: Seq<A>, needle: Seq<A>)
    requires
        contains_seq(b, needle),
    ensures
        contains_seq(p + b, needle),
{
    let i = choose|i: int|
        0 <= i && i + needle.len() <= b.len() && #[trigger] b.subrange(i, i + needle.len())
            == needle;
    assert((p + b).subrange(p.len() + i, p.len() + i + needle.len()) =~= b.subrange(
        i,
        i + needle.len(),
    ));
}

} // verus!
