//! A plain model of the path names the tool works with.
//!
//! A project or data-source name is handled as a plain string of characters:
//! trailing `/` separators are dropped, and the final separator-delimited
//! component is its base name — what the name tokens in the templates are
//! replaced with. A name made only of separators keeps what this model gives
//! it (an empty base name); the tool never takes such a name apart further.

use vstd::prelude::*;
use vstd::string::StrSliceExecFns;
use vstd::string::StringExecFns;

verus! {

/// `p` with its trailing separators removed.
pub open spec fn trimmed(p: Seq<char>) -> Seq<char>
    decreases p.len(),
{
    if p.len() > 0 && p.last() == '/' {
        trimmed(p.drop_last())
    } else {
        p
    }
}

/// The position of the last occurrence of `c` in `s`, or -1 when `c` is
/// absent.
pub open spec fn last_pos(s: Seq<char>, c: char) -> int
    decreases s.len(),
{
    if s.len() == 0 {
        -1
    } else if s.last() == c {
        s.len() - 1
    } else {
        last_pos(s.drop_last(), c)
    }
}

/// The base name of `p`: the final component, that is what follows the last
/// separator once trailing separators are dropped.
pub open spec fn base_name(p: Seq<char>) -> Seq<char> {
    let t = trimmed(p);
    t.subrange(last_pos(t, '/') + 1, t.len() as int)
}

/// `last_pos` is the position of `c` that no later position shares.
proof fn lemma_last_pos_is(s: Seq<char>, c: char, i: int)
    requires
        0 <= i < s.len(),
        s[i] == c,
        forall|m: int| i < m < s.len() ==> s[m] != c,
    ensures
        last_pos(s, c) == i,
    decreases s.len(),
{
    if s.last() == c {
        if i < s.len() - 1 {
            assert(s[s.len() - 1] != c);
        }
    } else {
        assert(i < s.len() - 1);
        assert(s.drop_last()[i] == c);
        assert forall|m: int| i < m < s.drop_last().len() implies s.drop_last()[m] != c by {
            assert(s.drop_last()[m] == s[m]);
        }
        lemma_last_pos_is(s.drop_last(), c, i);
    }
}

/// Where no position holds `c`, `last_pos` reports it absent.
proof fn lemma_last_pos_none(s: Seq<char>, c: char)
    requires
        forall|m: int| 0 <= m < s.len() ==> s[m] != c,
    ensures
        last_pos(s, c) == -1,
    decreases s.len(),
{
    if s.len() == 0 {
    } else {
        assert(s[s.len() - 1] != c);
        assert forall|m: int| 0 <= m < s.drop_last().len() implies s.drop_last()[m] != c by {
            assert(s.drop_last()[m] == s[m]);
        }
        lemma_last_pos_none(s.drop_last(), c);
    }
}

/// `trimmed` keeps exactly the prefix that ends before the trailing
/// separators.
proof fn lemma_trimmed_is(p: Seq<char>, e: int)
    requires
        0 <= e <= p.len(),
        forall|m: int| e <= m < p.len() ==> p[m] == '/',
        e > 0 ==> p[e - 1] != '/',
    ensures
        trimmed(p) == p.subrange(0, e),
    decreases p.len(),
{
    if p.len() == e {
        assert(p.subrange(0, e) =~= p);
    } else {
        assert(p[p.len() - 1] == '/');
        assert forall|m: int| e <= m < p.drop_last().len() implies p.drop_last()[m] == '/' by {
            assert(p.drop_last()[m] == p[m]);
        }
        if e > 0 {
            assert(p.drop_last()[e - 1] == p[e - 1]);
        }
        lemma_trimmed_is(p.drop_last(), e);
        assert(p.drop_last().subrange(0, e) =~= p.subrange(0, e));
    }
}

/// The base name of `name`: trailing separators dropped, then the part after
/// the last remaining separator.
pub fn base_name_of(name: &str) -> (r: String)
    ensures
        r@ == base_name(name@),
{
    let len = name.unicode_len();
    let mut e: usize = len;
    while e > 0 && name.get_char(e - 1) == '/'
        invariant
            0 <= e <= len,
            len == name@.len(),
            forall|m: int| e <= m < len ==> name@[m] == '/',
        decreases e,
    {
        e = e - 1;
    }
    let mut s: usize = e;
    while s > 0 && name.get_char(s - 1) != '/'
        invariant
            0 <= s <= e <= len,
            len == name@.len(),
            forall|m: int| s <= m < e ==> name@[m] != '/',
        decreases s,
    {
        s = s - 1;
    }
    proof {
        lemma_trimmed_is(name@, e as int);
        let t = name@.subrange(0, e as int);
        if s > 0 {
            lemma_last_pos_is(t, '/', s as int - 1);
        } else {
            lemma_last_pos_none(t, '/');
        }
        assert(t.subrange(last_pos(t, '/') + 1, t.len() as int) =~= name@.subrange(
            s as int,
            e as int,
        ));
    }
    let base = name.substring_char(s, e);
    String::from_str(base)
}

} // verus!
