//! Extraction of a service address from the cluster query's captured
//! stdout: the surrounding whitespace is dropped first, then the literal
//! double quotes that the query may wrap the address in.

use vstd::prelude::*;

verus! {

/// Whitespace as the trim sees it: space, tab, line feed, carriage return.
pub open spec fn is_shell_space(b: u8) -> bool {
    b == 32 || b == 9 || b == 10 || b == 13
}

/// A literal double-quote byte.
pub open spec fn is_quote(b: u8) -> bool {
    b == 34
}

/// The whitespace test as a predicate value.
pub open spec fn space_pred() -> spec_fn(u8) -> bool {
    |b: u8| is_shell_space(b)
}

/// The quote test as a predicate value.
pub open spec fn quote_pred() -> spec_fn(u8) -> bool {
    |b: u8| is_quote(b)
}

/// `s` with leading bytes dropped while `discard` holds of them.
pub open spec fn trim_front(s: Seq<u8>, discard: spec_fn(u8) -> bool) -> Seq<u8>
    decreases s.len(),
{
    if s.len() > 0 && discard(s[0]) {
        trim_front(s.drop_first(), discard)
    } else {
        s
    }
}

/// `s` with trailing bytes dropped while `discard` holds of them.
pub open spec fn trim_back(s: Seq<u8>, discard: spec_fn(u8) -> bool) -> Seq<u8>
    decreases s.len(),
{
    if s.len() > 0 && discard(s.last()) {
        trim_back(s.drop_last(), discard)
    } else {
        s
    }
}

/// `s` trimmed at both ends.
pub open spec fn trim_edges(s: Seq<u8>, discard: spec_fn(u8) -> bool) -> Seq<u8> {
    trim_back(trim_front(s, discard), discard)
}

/// The address extracted from the query's stdout: surrounding whitespace
/// dropped, then surrounding double quotes.
pub open spec fn spec_extracted_ip(s: Seq<u8>) -> Seq<u8> {
    trim_edges(trim_edges(s, space_pred()), quote_pred())
}

fn exec_is_space(b: u8) -> (r: bool)
    ensures
        r == is_shell_space(b),
{
    b == 32 || b == 9 || b == 10 || b == 13
}

fn exec_is_quote(b: u8) -> (r: bool)
    ensures
        r == is_quote(b),
{
    b == 34
}

/// Extract the service address from the query's captured stdout.
pub fn extract_ip(stdout: &[u8]) -> (r: Vec<u8>)
    ensures
        r@ == spec_extracted_ip(stdout@),
{
    let ghost sp = space_pred();
    let ghost qt = quote_pred();
    let n: usize = stdout.len();
    let mut lo: usize = 0;
    let mut hi: usize = n;
    assert(stdout@.subrange(0, n as int) =~= stdout@);

    while lo < n && exec_is_space(stdout[lo])
        invariant
            lo <= n,
            n == stdout@.len(),
            sp == space_pred(),
            trim_front(stdout@, sp) == trim_front(stdout@.subrange(lo as int, n as int), sp),
        decreases n - lo,
    {
        proof {
            let w = stdout@.subrange(lo as int, n as int);
            assert(w[0] == stdout@[lo as int]);
            assert(w.drop_first() =~= stdout@.subrange(lo as int + 1, n as int));
            assert(trim_front(w, sp) == trim_front(w.drop_first(), sp));
        }
        lo = lo + 1;
    }
    proof {
        let w = stdout@.subrange(lo as int, n as int);
        assert(trim_front(w, sp) == w);
        assert(trim_front(stdout@, sp) == w);
    }

    while lo < hi && exec_is_space(stdout[hi - 1])
        invariant
            lo <= hi <= n,
            n == stdout@.len(),
            sp == space_pred(),
            trim_front(stdout@, sp) == stdout@.subrange(lo as int, n as int),
            trim_back(stdout@.subrange(lo as int, n as int), sp) == trim_back(
                stdout@.subrange(lo as int, hi as int),
                sp,
            ),
        decreases hi,
    {
        proof {
            let w = stdout@.subrange(lo as int, hi as int);
            assert(w.last() == stdout@[hi - 1]);
            assert(w.drop_last() =~= stdout@.subrange(lo as int, hi as int - 1));
            assert(trim_back(w, sp) == trim_back(w.drop_last(), sp));
        }
        hi = hi - 1;
    }
    proof {
        let w = stdout@.subrange(lo as int, hi as int);
        if lo < hi {
            assert(w.last() == stdout@[hi - 1]);
        }
        assert(trim_back(w, sp) == w);
        assert(trim_edges(stdout@, sp) == w);
    }

    while lo < hi && exec_is_quote(stdout[lo])
        invariant
            lo <= hi <= n,
            n == stdout@.len(),
            qt == quote_pred(),
            trim_front(trim_edges(stdout@, space_pred()), qt) == trim_front(
                stdout@.subrange(lo as int, hi as int),
                qt,
            ),
        decreases hi - lo,
    {
        proof {
            let w = stdout@.subrange(lo as int, hi as int);
            assert(w[0] == stdout@[lo as int]);
            assert(w.drop_first() =~= stdout@.subrange(lo as int + 1, hi as int));
            assert(trim_front(w, qt) == trim_front(w.drop_first(), qt));
        }
        lo = lo + 1;
    }
    proof {
        let w = stdout@.subrange(lo as int, hi as int);
        assert(trim_front(w, qt) == w);
        assert(trim_front(trim_edges(stdout@, space_pred()), qt) == w);
    }

    while lo < hi && exec_is_quote(stdout[hi - 1])
        invariant
            lo <= hi <= n,
            n == stdout@.len(),
            qt == quote_pred(),
            spec_extracted_ip(stdout@) == trim_back(stdout@.subrange(lo as int, hi as int), qt),
        decreases hi,
    {
        proof {
            let w = stdout@.subrange(lo as int, hi as int);
            assert(w.last() == stdout@[hi - 1]);
            assert(w.drop_last() =~= stdout@.subrange(lo as int, hi as int - 1));
            assert(trim_back(w, qt) == trim_back(w.drop_last(), qt));
        }
        hi = hi - 1;
    }
    proof {
        let w = stdout@.subrange(lo as int, hi as int);
        if lo < hi {
            assert(w.last() == stdout@[hi - 1]);
        }
        assert(trim_back(w, qt) == w);
        assert(spec_extracted_ip(stdout@) == w);
    }

    let mut r: Vec<u8> = Vec::new();
    let mut i: usize = lo;
    while i < hi
        invariant
            lo <= i <= hi <= n,
            n == stdout@.len(),
            r@ == stdout@.subrange(lo as int, i as int),
            spec_extracted_ip(stdout@) == stdout@.subrange(lo as int, hi as int),
        decreases hi - i,
    {
        r.push(stdout[i]);
        assert(r@ =~= stdout@.subrange(lo as int, i as int + 1));
        i = i + 1;
    }
    assert(r@ == stdout@.subrange(lo as int, hi as int));
    r
}

proof fn lemma_trim_front_noop(s: Seq<u8>, d: spec_fn(u8) -> bool)
    requires
        s.len() == 0 || !d(s[0]),
    ensures
        trim_front(s, d) == s,
{
}

proof fn lemma_trim_back_noop(s: Seq<u8>, d: spec_fn(u8) -> bool)
    requires
        s.len() == 0 || !d(s.last()),
    ensures
        trim_back(s, d) == s,
{
}

proof fn lemma_trim_front_all_discard(pre: Seq<u8>, s: Seq<u8>, d: spec_fn(u8) -> bool)
    requires
        forall|i: int| 0 <= i < pre.len() ==> d(#[trigger] pre[i]),
    ensures
        trim_front(pre + s, d) == trim_front(s, d),
    decreases pre.len(),
{
    if pre.len() == 0 {
        assert(pre + s =~= s);
    } else {
        assert((pre + s)[0] == pre[0]);
        assert((pre + s).drop_first() =~= pre.drop_first() + s);
        assert forall|i: int| 0 <= i < pre.drop_first().len() implies d(
            #[trigger] pre.drop_first()[i],
        ) by {
            assert(pre.drop_first()[i] == pre[i + 1]);
        }
        lemma_trim_front_all_discard(pre.drop_first(), s, d);
        assert(trim_front(pre + s, d) == trim_front((pre + s).drop_first(), d));
    }
}

proof fn lemma_trim_back_all_discard(s: Seq<u8>, post: Seq<u8>, d: spec_fn(u8) -> bool)
    requires
        forall|i: int| 0 <= i < post.len() ==> d(#[trigger] post[i]),
    ensures
        trim_back(s + post, d) == trim_back(s, d),
    decreases post.len(),
{
    if post.len() == 0 {
        assert(s + post =~= s);
    } else {
        assert((s + post).last() == post[post.len() - 1]);
        assert((s + post).drop_last() =~= s + post.drop_last());
        assert forall|i: int| 0 <= i < post.drop_last().len() implies d(
            #[trigger] post.drop_last()[i],
        ) by {
            assert(post.drop_last()[i] == post[i]);
        }
        lemma_trim_back_all_discard(s, post.drop_last(), d);
        assert(trim_back(s + post, d) == trim_back((s + post).drop_last(), d));
    }
}

/// Quote stripping: for stdout of the form `"<ip>"` wrapped in arbitrary
/// whitespace, the extracted address is `<ip>` verbatim, provided `<ip>`
/// itself neither begins nor ends with a double quote.
pub proof fn lemma_quote_stripping(lead: Seq<u8>, ip: Seq<u8>, trail: Seq<u8>)
    requires
        forall|i: int| 0 <= i < lead.len() ==> is_shell_space(#[trigger] lead[i]),
        forall|i: int| 0 <= i < trail.len() ==> is_shell_space(#[trigger] trail[i]),
        ip.len() > 0 ==> !is_quote(ip[0]),
        ip.len() > 0 ==> !is_quote(ip.last()),
    ensures
        spec_extracted_ip(lead + seq![34u8] + ip + seq![34u8] + trail) == ip,
{
    let sp = space_pred();
    let qt = quote_pred();
    let q: Seq<u8> = seq![34u8];
    let w = q + ip + q;
    let full = lead + seq![34u8] + ip + seq![34u8] + trail;
    assert(full =~= lead + (w + trail));

    assert(forall|i: int| 0 <= i < lead.len() ==> sp(#[trigger] lead[i]));
    lemma_trim_front_all_discard(lead, w + trail, sp);
    assert(trim_front(full, sp) == trim_front(w + trail, sp));
    assert((w + trail)[0] == 34);
    lemma_trim_front_noop(w + trail, sp);

    assert(forall|i: int| 0 <= i < trail.len() ==> sp(#[trigger] trail[i]));
    lemma_trim_back_all_discard(w, trail, sp);
    assert(w.last() == 34);
    lemma_trim_back_noop(w, sp);
    assert(trim_edges(full, sp) == w);

    assert(forall|i: int| 0 <= i < q.len() ==> qt(#[trigger] q[i]));
    assert(w =~= q + (ip + q));
    lemma_trim_front_all_discard(q, ip + q, qt);
    assert(trim_front(w, qt) == trim_front(ip + q, qt));
    if ip.len() > 0 {
        assert((ip + q)[0] == ip[0]);
        lemma_trim_front_noop(ip + q, qt);
        lemma_trim_back_all_discard(ip, q, qt);
        assert(trim_back(ip + q, qt) == trim_back(ip, qt));
        lemma_trim_back_noop(ip, qt);
        assert(trim_edges(w, qt) == ip);
    } else {
        assert(ip + q =~= q);
        let e = Seq::<u8>::empty();
        assert(q + e =~= q);
        lemma_trim_front_all_discard(q, e, qt);
        assert(trim_front(q, qt) == trim_front(e, qt));
        assert(trim_front(e, qt) == e);
        lemma_trim_back_noop(e, qt);
        assert(trim_edges(w, qt) =~= ip);
    }
    assert(spec_extracted_ip(full) == ip);
}

} // verus!
