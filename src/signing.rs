//! Request signing: the pairs of a request sorted by key, concatenated, with
//! the shared secret appended, hashed with MD5.

use vstd::prelude::*;
use crate::key_codec::{hash_key, is_lower_hex, md5_hex};

verus! {

/// Code points compared one by one; a proper prefix comes first. This is the
/// order of `str`.
pub open spec fn str_lt(a: Seq<char>, b: Seq<char>) -> bool
    decreases a.len(),
{
    if a.len() == 0 {
        b.len() > 0
    } else if b.len() == 0 {
        false
    } else if (a[0] as u32) != (b[0] as u32) {
        (a[0] as u32) < (b[0] as u32)
    } else {
        str_lt(a.drop_first(), b.drop_first())
    }
}

proof fn lemma_str_lt_step(a: Seq<char>, b: Seq<char>, i: int)
    requires
        0 <= i < a.len(),
        i < b.len(),
        a[i] == b[i],
    ensures
        str_lt(a.subrange(i, a.len() as int), b.subrange(i, b.len() as int)) == str_lt(
            a.subrange(i + 1, a.len() as int),
            b.subrange(i + 1, b.len() as int),
        ),
{
    assert(a.subrange(i, a.len() as int).drop_first() =~= a.subrange(i + 1, a.len() as int));
    assert(b.subrange(i, b.len() as int).drop_first() =~= b.subrange(i + 1, b.len() as int));
}

/// Whether `a` comes strictly before `b`.
pub fn str_less(a: &str, b: &str) -> (r: bool)
    ensures
        r == str_lt(a@, b@),
{
    let n = a.unicode_len();
    let m = b.unicode_len();
    let mut i: usize = 0;
    assert(a@.subrange(0, n as int) =~= a@);
    assert(b@.subrange(0, m as int) =~= b@);
    while i < n && i < m
        invariant
            n == a@.len(),
            m == b@.len(),
            i <= n,
            i <= m,
            str_lt(a@.subrange(i as int, n as int), b@.subrange(i as int, m as int)) == str_lt(
                a@,
                b@,
            ),
        decreases n - i,
    {
        let x = a.get_char(i);
        let y = b.get_char(i);
        if x != y {
            proof {
                let sa = a@.subrange(i as int, n as int);
                let sb = b@.subrange(i as int, m as int);
                assert(sa[0] == x && sb[0] == y);
                assert((x as u32) != (y as u32));
            }
            return (x as u32) < (y as u32);
        }
        proof {
            lemma_str_lt_step(a@, b@, i as int);
        }
        i = i + 1;
    }
    i < m
}

/// The pairs of a query, as text.
pub open spec fn pairs_view(ps: Seq<(&str, &str)>) -> Seq<(Seq<char>, Seq<char>)> {
    ps.map_values(|p: (&str, &str)| (p.0@, p.1@))
}

/// `sorted` (in order of keys) with `p` inserted after every pair whose key
/// does not come after its own.
pub open spec fn insert_by_key(sorted: Seq<(Seq<char>, Seq<char>)>, p: (Seq<char>, Seq<char>)) -> Seq<(Seq<char>, Seq<char>)>
    decreases sorted.len(),
{
    if sorted.len() == 0 {
        seq![p]
    } else if !str_lt(p.0, sorted.last().0) {
        sorted.push(p)
    } else {
        insert_by_key(sorted.drop_last(), p).push(sorted.last())
    }
}

/// The pairs sorted by key; pairs with equal keys keep their order.
pub open spec fn sorted_by_key(ps: Seq<(Seq<char>, Seq<char>)>) -> Seq<(Seq<char>, Seq<char>)>
    decreases ps.len(),
{
    if ps.len() == 0 {
        Seq::empty()
    } else {
        insert_by_key(sorted_by_key(ps.drop_last()), ps.last())
    }
}

/// Every key followed by its value, in order.
pub open spec fn concat_pairs(ps: Seq<(Seq<char>, Seq<char>)>) -> Seq<char>
    decreases ps.len(),
{
    if ps.len() == 0 {
        Seq::empty()
    } else {
        concat_pairs(ps.drop_last()) + ps.last().0 + ps.last().1
    }
}

/// The text that is hashed to sign a request: its pairs sorted by key, each
/// key followed by its value, then the shared secret.
pub open spec fn signature_base(ps: Seq<(Seq<char>, Seq<char>)>, secret: Seq<char>) -> Seq<char> {
    concat_pairs(sorted_by_key(ps)) + secret
}

fn insert_pair<'a>(sorted: &mut Vec<(&'a str, &'a str)>, p: (&'a str, &'a str))
    ensures
        pairs_view(final(sorted)@) == insert_by_key(pairs_view(old(sorted)@), (p.0@, p.1@)),
    decreases old(sorted)@.len(),
{
    let ghost before = pairs_view(sorted@);
    if sorted.len() == 0 {
        sorted.push(p);
        assert(pairs_view(sorted@) =~= seq![(p.0@, p.1@)]);
        return;
    }
    let last = sorted.pop().unwrap();
    assert(pairs_view(sorted@) =~= before.drop_last());
    if !str_less(p.0, last.0) {
        sorted.push(last);
        sorted.push(p);
        assert(pairs_view(sorted@) =~= before.push((p.0@, p.1@)));
    } else {
        insert_pair(sorted, p);
        let ghost mid = pairs_view(sorted@);
        sorted.push(last);
        assert(pairs_view(sorted@) =~= mid.push((last.0@, last.1@)));
    }
}

/// Signs a request: MD5, in lower-case hexadecimal, of its pairs sorted by
/// key (each key followed by its value) and then the shared secret.
pub fn sign(params: &[(&str, &str)], secret: &str) -> (r: String)
    ensures
        r@ == md5_hex(signature_base(pairs_view(params@), secret@)),
        r@.len() == 32,
        forall|i: int| 0 <= i < r@.len() ==> #[trigger] is_lower_hex(r@[i]),
{
    let mut sorted: Vec<(&str, &str)> = Vec::new();
    let mut i: usize = 0;
    while i < params.len()
        invariant
            i <= params@.len(),
            pairs_view(sorted@) == sorted_by_key(pairs_view(params@.subrange(0, i as int))),
        decreases params@.len() - i,
    {
        proof {
            let ps = pairs_view(params@.subrange(0, i + 1));
            assert(ps.drop_last() =~= pairs_view(params@.subrange(0, i as int)));
            assert(ps.last() == (params@[i as int].0@, params@[i as int].1@));
        }
        insert_pair(&mut sorted, params[i]);
        i = i + 1;
    }
    assert(params@.subrange(0, params@.len() as int) =~= params@);
    let mut text = String::new();
    let mut j: usize = 0;
    while j < sorted.len()
        invariant
            j <= sorted@.len(),
            text@ == concat_pairs(pairs_view(sorted@).subrange(0, j as int)),
        decreases sorted@.len() - j,
    {
        proof {
            let ps = pairs_view(sorted@).subrange(0, j + 1);
            assert(ps.drop_last() =~= pairs_view(sorted@).subrange(0, j as int));
        }
        text.append(sorted[j].0);
        text.append(sorted[j].1);
        j = j + 1;
    }
    assert(pairs_view(sorted@).subrange(0, sorted@.len() as int) =~= pairs_view(sorted@));
    text.append(secret);
    hash_key(text.as_str())
}


} // verus!
