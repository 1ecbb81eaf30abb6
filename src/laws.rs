//! Laws that relate the list operations to one another.
use vstd::prelude::*;

use crate::LinkedList;

verus! {

/// Popping `k` times from the list built by pushing `vs` leaves the list
/// built by pushing the first `vs.len() - k` values of `vs`.
proof fn lemma_pops_undo_last_pushes<T>(vs: Seq<T>, k: nat)
    requires
        k <= vs.len(),
    ensures
        LinkedList::<T>::from_pushes(vs).after_pops(k)
            == LinkedList::<T>::from_pushes(vs.subrange(0, vs.len() - k)),
    decreases k,
{
    if k == 0 {
        assert(vs.subrange(0, vs.len() as int) =~= vs);
    } else {
        let rest = vs.drop_last();
        lemma_pops_undo_last_pushes(rest, (k - 1) as nat);
        assert(rest.subrange(0, rest.len() - (k - 1)) =~= vs.subrange(0, vs.len() - k));
    }
}

/// Pushing `vs[0]`, ..., `vs[n - 1]` onto a new list and then popping `n`
/// times hands the values back in reverse order, each time together with
/// what is left; one more pop finds the list empty.
pub proof fn lemma_pops_reverse_pushes<T>(vs: Seq<T>)
    ensures
        forall|k: nat|
            k < vs.len() ==> #[trigger] LinkedList::<T>::from_pushes(vs).after_pops(k).spec_pop()
                == Some((vs[vs.len() - 1 - k], LinkedList::<T>::from_pushes(vs).after_pops(k + 1))),
        LinkedList::<T>::from_pushes(vs).after_pops(vs.len()).spec_pop() is None,
{
    let l = LinkedList::<T>::from_pushes(vs);
    assert forall|k: nat| k < vs.len() implies #[trigger] l.after_pops(k).spec_pop() == Some(
        (vs[vs.len() - 1 - k], l.after_pops(k + 1)),
    ) by {
        lemma_pops_undo_last_pushes(vs, k);
        lemma_pops_undo_last_pushes(vs, k + 1);
        let front = vs.subrange(0, vs.len() - k);
        assert(front.drop_last() =~= vs.subrange(0, vs.len() - (k + 1)));
    }
    lemma_pops_undo_last_pushes(vs, vs.len());
}

/// Popping right after a push gives back the pushed value and the list as
/// it stood before the push.
pub proof fn lemma_pop_undoes_push<T>(l: LinkedList<T>, v: T)
    ensures
        l.spec_push(v).spec_pop() == Some((v, l)),
{
}

/// Two lists are the same value exactly when they hold the same values in
/// the same order: lists of different lengths differ, and so do lists of
/// one length that differ at some position.
pub proof fn lemma_equal_iff_same_values<T>(a: LinkedList<T>, b: LinkedList<T>)
    ensures
        a == b <==> a@ == b@,
    decreases a,
{
    if a@ == b@ {
        match (a, b) {
            (LinkedList::Elem(x, ta), LinkedList::Elem(y, tb)) => {
                assert(a@[0] == x && b@[0] == y);
                assert((*ta)@ =~= a@.drop_first());
                assert((*tb)@ =~= b@.drop_first());
                lemma_equal_iff_same_values(*ta, *tb);
            },
            _ => {},
        }
    }
}

/// Lists built by pushing two sequences of values onto new lists are equal
/// exactly when the sequences are equal.
pub proof fn lemma_same_pushes_equal<T>(vs: Seq<T>, ws: Seq<T>)
    ensures
        LinkedList::<T>::from_pushes(vs) == LinkedList::<T>::from_pushes(ws) <==> vs == ws,
    decreases vs.len(),
{
    if vs.len() > 0 && ws.len() > 0 {
        lemma_same_pushes_equal(vs.drop_last(), ws.drop_last());
        if vs.drop_last() == ws.drop_last() && vs.last() == ws.last() {
            assert(vs =~= ws.drop_last().push(ws.last()));
            assert(ws =~= ws.drop_last().push(ws.last()));
        }
    } else if vs.len() == 0 && ws.len() == 0 {
        assert(vs =~= ws);
    }
}

} // verus!
