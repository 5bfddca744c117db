//! Helpers that the rest of the synthesizer shares.

pub mod midi;

use vstd::prelude::*;
use vstd::std_specs::iter::IteratorSpec;

verus! {

/// The first two bytes of a slice.
pub fn slice2array(slice: &[u8]) -> (res: [u8; 2])
    requires
        slice@.len() >= 2,
    ensures
        res@ == slice@.subrange(0, 2),
{
    let res: [u8; 2] = [slice[0], slice[1]];
    assert(res@ =~= slice@.subrange(0, 2));
    res
}

/// A run of items that is handed out from the front, one at a time.
pub struct VecIter<T> {
    vec: Vec<T>,
}

impl<T> VecIter<T> {
    /// The items that are still to come, in order.
    pub closed spec fn remaining(&self) -> Seq<T> {
        self.vec@
    }

    pub fn new(vec: Vec<T>) -> (res: Self)
        ensures
            res.remaining() == vec@,
    {
        Self { vec }
    }

    /// Hands out the first item that is still to come, if there is one.
    pub fn next(&mut self) -> (res: Option<T>)
        ensures
            old(self).remaining().len() == 0 ==> res is None && final(self).remaining()
                == old(self).remaining(),
            old(self).remaining().len() > 0 ==> res == Some(old(self).remaining()[0])
                && final(self).remaining() == old(self).remaining().drop_first(),
    {
        if self.vec.len() == 0 {
            None
        } else {
            let first = self.vec.remove(0);
            assert(self.vec@ =~= old(self).vec@.drop_first());
            Some(first)
        }
    }

    /// The items that are still to come, as a vector.
    pub fn into_vec(self) -> (res: Vec<T>)
        ensures
            res@ == self.remaining(),
    {
        self.vec
    }
}

/// The place of the first failure among `items`, or their number where
/// none has failed.
pub open spec fn first_failure<T, E>(items: Seq<Result<T, E>>) -> int
    decreases items.len(),
{
    if items.len() == 0 {
        0
    } else if items[0] is Err {
        0
    } else {
        1 + first_failure(items.drop_first())
    }
}

/// The values of `items`, which have all succeeded.
pub open spec fn values<T, E>(items: Seq<Result<T, E>>) -> Seq<T> {
    Seq::new(items.len(), |i: int| items[i]->Ok_0)
}

/// The first failure lies inside the run or at its end, and nothing has
/// failed before it.
pub proof fn lemma_first_failure<T, E>(items: Seq<Result<T, E>>)
    ensures
        0 <= first_failure(items) <= items.len(),
        first_failure(items) < items.len() ==> items[first_failure(items)] is Err,
        forall|i: int| 0 <= i < first_failure(items) ==> (#[trigger] items[i]) is Ok,
    decreases items.len(),
{
    if items.len() > 0 && items[0] is Ok {
        let rest = items.drop_first();
        lemma_first_failure(rest);
        assert forall|i: int| 0 <= i < first_failure(items) implies (#[trigger] items[i]) is Ok by {
            if i > 0 {
                assert(items[i] == rest[i - 1]);
            }
        }
    }
}

/// Takes the results that an iterator hands out, up to the first failure:
/// the values of all of them where none has failed, and else the first
/// failure.
pub fn unwrap_result_iter<T, E, I: Iterator<Item = Result<T, E>>>(iter: I) -> (res: Result<
    VecIter<T>,
    E,
>)
    requires
        iter.obeys_prophetic_iter_laws(),
        iter.decrease() is Some,
    ensures
        match res {
            Ok(out) => first_failure(iter.remaining()) == iter.remaining().len()
                && out.remaining() == values(iter.remaining()),
            Err(e) => first_failure(iter.remaining()) < iter.remaining().len()
                && iter.remaining()[first_failure(iter.remaining())] == Err::<T, E>(e),
        },
{
    let ghost all = iter.remaining();
    let mut rest = iter;
    let mut vec: Vec<T> = Vec::new();
    loop
        invariant
            all == iter.remaining(),
            rest.obeys_prophetic_iter_laws(),
            rest.decrease() is Some,
            vec@.len() + rest.remaining().len() == all.len(),
            rest.remaining() == all.skip(vec@.len() as int),
            forall|i: int| 0 <= i < vec@.len() ==> all[i] == Ok::<T, E>(#[trigger] vec@[i]),
        decreases rest.decrease()->0,
    {
        let ghost before = rest.remaining();
        let ghost done = vec@.len() as int;
        match rest.next() {
            None => {
                proof {
                    lemma_first_failure(all);
                    assert(forall|i: int| 0 <= i < done ==> all[i] == Ok::<T, E>(vec@[i]));
                    assert(vec@ =~= values(all));
                }
                return Ok(VecIter::new(vec));
            },
            Some(Ok(a)) => {
                vec.push(a);
                proof {
                    assert(all[done] == before[0]);
                    assert(before.drop_first() =~= all.skip(done + 1));
                }
            },
            Some(Err(e)) => {
                proof {
                    lemma_first_failure(all);
                    assert(all[done] == before[0]);
                    assert(forall|i: int| 0 <= i < done ==> all[i] == Ok::<T, E>(vec@[i]));
                }
                return Err(e);
            },
        }
    }
}

} // verus!
