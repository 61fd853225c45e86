//! Splitting an identifier list into capped, contiguous chunks.
use vstd::prelude::*;

verus! {

/// `s` cut into consecutive pieces of `c` items, the last one possibly
/// shorter; nothing at all when `s` is empty or `c` is zero.
pub open spec fn chunks_spec<T>(s: Seq<T>, c: nat) -> Seq<Seq<T>>
    decreases s.len(),
{
    if s.len() == 0 || c == 0 {
        Seq::empty()
    } else if s.len() <= c {
        seq![s]
    } else {
        seq![s.take(c as int)] + chunks_spec(s.skip(c as int), c)
    }
}

/// The pieces of `s`, one after the other.
pub open spec fn flatten<T>(s: Seq<Seq<T>>) -> Seq<T>
    decreases s.len(),
{
    if s.len() == 0 {
        Seq::empty()
    } else {
        s[0] + flatten(s.skip(1))
    }
}

/// The number of pieces of `n` items in groups of `c`: `ceil(n / c)`.
pub open spec fn chunk_count(n: nat, c: nat) -> nat
    recommends
        c > 0,
{
    ((n + c - 1) as nat) / c
}

/// The number of chunks of `s` in groups of `c` is `ceil(|s| / c)`.
pub proof fn lemma_chunks_len<T>(s: Seq<T>, c: nat)
    requires
        c > 0,
    ensures
        chunks_spec(s, c).len() == chunk_count(s.len(), c),
    decreases s.len(),
{
    let n = s.len();
    if n == 0 {
        assert((c - 1) as nat / c == 0) by (nonlinear_arith)
            requires
                c > 0,
        ;
    } else if n <= c {
        assert(((n + c - 1) as nat) / c == 1) by (nonlinear_arith)
            requires
                c > 0,
                0 < n <= c,
        ;
    } else {
        lemma_chunks_len(s.skip(c as int), c);
        let m = (n - c) as nat;
        assert(((n + c - 1) as nat) / c == ((m + c - 1) as nat) / c + 1) by (nonlinear_arith)
            requires
                c > 0,
                n == m + c,
        {
            vstd::arithmetic::div_mod::lemma_div_plus_one((m + c - 1) as int, c as int);
        }
    }
}

proof fn lemma_flatten_chunks<T>(s: Seq<T>, c: nat)
    requires
        c > 0,
    ensures
        flatten(chunks_spec(s, c)) == s,
    decreases s.len(),
{
    let n = s.len();
    if n == 0 {
        assert(flatten(chunks_spec(s, c)) =~= s);
    } else if n <= c {
        let ch = chunks_spec(s, c);
        assert(ch.skip(1) =~= Seq::<Seq<T>>::empty());
        assert(flatten(ch.skip(1)) =~= Seq::<T>::empty());
        assert(flatten(ch) =~= s);
    } else {
        let rest = s.skip(c as int);
        lemma_flatten_chunks(rest, c);
        let ch = chunks_spec(s, c);
        assert(ch.skip(1) =~= chunks_spec(rest, c));
        assert(s.take(c as int) + rest =~= s);
    }
}

proof fn lemma_chunk_sizes<T>(s: Seq<T>, c: nat)
    requires
        c > 0,
    ensures
        forall|i: int|
            0 <= i < chunks_spec(s, c).len() ==> 0 < (#[trigger] chunks_spec(s, c)[i]).len()
                <= c,
        forall|i: int|
            0 <= i < chunks_spec(s, c).len() - 1 ==> (#[trigger] chunks_spec(s, c)[i]).len()
                == c,
    decreases s.len(),
{
    if s.len() > c {
        let rest = s.skip(c as int);
        lemma_chunk_sizes(rest, c);
        let ch = chunks_spec(s, c);
        assert forall|i: int| 1 <= i < ch.len() implies ch[i] == chunks_spec(rest, c)[i - 1] by {}
    }
}

proof fn lemma_flatten_map<A, B>(rs: Seq<Seq<B>>, chunks: Seq<Seq<A>>, f: spec_fn(A) -> B)
    requires
        rs.len() == chunks.len(),
        forall|i: int| 0 <= i < rs.len() ==> #[trigger] rs[i] == chunks[i].map_values(f),
    ensures
        flatten(rs) == flatten(chunks).map_values(f),
    decreases rs.len(),
{
    if rs.len() == 0 {
        assert(flatten(rs) =~= flatten(chunks).map_values(f));
    } else {
        assert(rs.skip(1).len() == chunks.skip(1).len());
        assert forall|i: int| 0 <= i < rs.skip(1).len() implies #[trigger] rs.skip(1)[i]
            == chunks.skip(1)[i].map_values(f) by {
            assert(rs.skip(1)[i] == rs[i + 1]);
        }
        lemma_flatten_map(rs.skip(1), chunks.skip(1), f);
        assert(rs[0] == chunks[0].map_values(f));
        assert(flatten(rs) =~= flatten(chunks).map_values(f));
    }
}

/// Batching law: a non-empty list of `n` items in chunks of `c` takes
/// `ceil(n / c)` fetches, each of at most `c` items and all but the last of
/// exactly `c`; the chunks put back together are the list; and where each
/// fetch yields one result per item in the item's place, the results put
/// back together are the results of the items, in the order of the list.
pub proof fn lemma_batched_fetch<A, B>(items: Seq<A>, c: nat, results: Seq<Seq<B>>, f: spec_fn(A) -> B)
    requires
        c > 0,
        items.len() > 0,
    ensures
        chunks_spec(items, c).len() == chunk_count(items.len(), c),
        forall|i: int|
            0 <= i < chunks_spec(items, c).len() ==> 0 < (#[trigger] chunks_spec(items, c)[i]).len()
                <= c,
        forall|i: int|
            0 <= i < chunks_spec(items, c).len() - 1 ==> (#[trigger] chunks_spec(
                items,
                c,
            )[i]).len() == c,
        flatten(chunks_spec(items, c)) == items,
        (results.len() == chunks_spec(items, c).len() && forall|i: int|
            0 <= i < results.len() ==> #[trigger] results[i] == chunks_spec(items, c)[i].map_values(
                f,
            )) ==> flatten(results) == items.map_values(f),
{
    lemma_chunks_len(items, c);
    lemma_chunk_sizes(items, c);
    lemma_flatten_chunks(items, c);
    if results.len() == chunks_spec(items, c).len() && forall|i: int|
        0 <= i < results.len() ==> #[trigger] results[i] == chunks_spec(items, c)[i].map_values(f) {
        lemma_flatten_map(results, chunks_spec(items, c), f);
    }
}

/// Copies `items[lo..hi]`.
fn copy_range(items: &[String], lo: usize, hi: usize) -> (r: Vec<String>)
    requires
        lo <= hi <= items@.len(),
    ensures
        r@ == items@.subrange(lo as int, hi as int),
{
    let mut r: Vec<String> = Vec::new();
    let mut i: usize = lo;
    while i < hi
        invariant
            lo <= i <= hi <= items@.len(),
            r@ == items@.subrange(lo as int, i as int),
        decreases hi - i,
    {
        r.push(items[i].clone());
        proof {
            assert(r@ =~= items@.subrange(lo as int, i + 1));
        }
        i += 1;
    }
    r
}

/// Cuts `items` into consecutive chunks of at most `chunk_size`, in order.
/// An empty list or a chunk size of zero gives no chunk at all.
pub fn split_chunks(items: &[String], chunk_size: usize) -> (r: Vec<Vec<String>>)
    ensures
        chunk_size > 0 ==> r@.len() == chunk_count(items@.len(), chunk_size as nat),
        r@.len() == chunks_spec(items@, chunk_size as nat).len(),
        forall|i: int|
            0 <= i < r@.len() ==> (#[trigger] r@[i])@ == chunks_spec(items@, chunk_size as nat)[i],
{
    let ghost c = chunk_size as nat;
    let mut r: Vec<Vec<String>> = Vec::new();
    if chunk_size == 0 {
        return r;
    }
    let n = items.len();
    let mut pos: usize = 0;
    proof {
        lemma_chunks_len(items@, c);
        assert(items@.skip(0) =~= items@);
    }
    while pos < n
        invariant
            n == items@.len(),
            c == chunk_size as nat,
            chunk_size > 0,
            pos <= n,
            r@.len() + chunks_spec(items@.skip(pos as int), c).len() == chunks_spec(items@, c).len(),
            forall|i: int| 0 <= i < r@.len() ==> (#[trigger] r@[i])@ == chunks_spec(items@, c)[i],
            forall|i: int|
                0 <= i < chunks_spec(items@.skip(pos as int), c).len() ==> chunks_spec(items@, c)[r@.len()
                    + i] == #[trigger] chunks_spec(items@.skip(pos as int), c)[i],
        decreases n - pos,
    {
        let ghost rest = items@.skip(pos as int);
        let hi = if n - pos <= chunk_size {
            n
        } else {
            pos + chunk_size
        };
        let piece = copy_range(items, pos, hi);
        proof {
            let next = items@.skip(hi as int);
            if n - pos <= chunk_size {
                assert(rest =~= items@.subrange(pos as int, hi as int));
                assert(next.len() == 0);
                assert(chunks_spec(rest, c)[0] == piece@);
                assert(chunks_spec(rest, c).len() == 1);
            } else {
                assert(rest.take(c as int) =~= items@.subrange(pos as int, hi as int));
                assert(rest.skip(c as int) =~= next);
                assert(chunks_spec(rest, c)[0] == piece@);
                assert(chunks_spec(rest, c).len() == 1 + chunks_spec(next, c).len());
                assert forall|i: int| 0 <= i < chunks_spec(next, c).len() implies chunks_spec(
                    rest,
                    c,
                )[i + 1] == #[trigger] chunks_spec(next, c)[i] by {}
            }
        }
        r.push(piece);
        pos = hi;
    }
    r
}

} // verus!
