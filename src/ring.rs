//! Bounded buffers that evict their oldest entries.

use std::collections::VecDeque;
use vstd::prelude::*;

verus! {

/// The last `n` items of `s`, or all of `s` when it is no longer than `n`.
pub open spec fn last_n<T>(s: Seq<T>, n: nat) -> Seq<T> {
    if s.len() <= n {
        s
    } else {
        s.subrange(s.len() - n, s.len() as int)
    }
}

/// The contents of a buffer holding at most `max_len` items after `v` is pushed onto `s`.
pub open spec fn bounded_push<T>(s: Seq<T>, max_len: nat, v: T) -> Seq<T> {
    last_n(s.push(v), max_len)
}

/// The contents of a buffer holding at most `max_len` items after each of `vs` is
/// pushed onto `s`, in order.
pub open spec fn bounded_push_all<T>(s: Seq<T>, max_len: nat, vs: Seq<T>) -> Seq<T>
    decreases vs.len(),
{
    if vs.len() == 0 {
        s
    } else {
        bounded_push(bounded_push_all(s, max_len, vs.drop_last()), max_len, vs.last())
    }
}

/// Appends `value` and evicts from the front until at most `max_len` items remain.
pub fn push_bounded<T>(queue: &mut VecDeque<T>, max_len: usize, value: T)
    ensures
        final(queue)@ == bounded_push(old(queue)@, max_len as nat, value),
{
    let ghost full = old(queue)@.push(value);
    queue.push_back(value);
    while queue.len() > max_len
        invariant
            queue@.len() <= full.len(),
            queue@.len() >= max_len || queue@.len() == full.len(),
            queue@ == full.subrange(full.len() - queue@.len(), full.len() as int),
        decreases queue@.len(),
    {
        let _ = queue.pop_front();
    }
    assert(queue@ =~= last_n(full, max_len as nat));
}

/// Pushing items onto a bounded buffer keeps exactly the last `max_len` items of
/// everything it held and everything pushed, in arrival order, once anything was
/// pushed (or when it started within its bound).
pub proof fn lemma_bounded_push_all_keeps_last<T>(s: Seq<T>, max_len: nat, vs: Seq<T>)
    requires
        s.len() <= max_len || vs.len() > 0,
    ensures
        bounded_push_all(s, max_len, vs) == last_n(s + vs, max_len),
    decreases vs.len(),
{
    if vs.len() == 0 {
        assert(s + vs =~= s);
    } else {
        let prev = vs.drop_last();
        let v = vs.last();
        let x = s + prev;
        assert(s + vs =~= x.push(v));
        if prev.len() > 0 || s.len() <= max_len {
            lemma_bounded_push_all_keeps_last(s, max_len, prev);
            assert(last_n(last_n(x, max_len).push(v), max_len) =~= last_n(x.push(v), max_len));
        } else {
            assert(prev =~= Seq::<T>::empty());
            assert(x =~= s);
            assert(bounded_push_all(s, max_len, prev) == s);
        }
    }
}

} // verus!
