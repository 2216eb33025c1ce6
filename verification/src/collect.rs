//! All-or-nothing mapping of a sequence, and the last of a sequence of readings.

use vstd::prelude::*;

verus! {

/// Applies `f` to each element in order. The first failure is the result;
/// without one, the result holds every outcome, in the order of `items`.
pub open spec fn try_map<A, B, E>(items: Seq<A>, f: spec_fn(A) -> Result<B, E>) -> Result<Seq<B>, E>
    decreases items.len(),
{
    if items.len() == 0 {
        Ok(Seq::empty())
    } else {
        match try_map(items.drop_last(), f) {
            Err(e) => Err(e),
            Ok(done) => match f(items.last()) {
                Err(e) => Err(e),
                Ok(b) => Ok(done.push(b)),
            },
        }
    }
}

/// One more element: the outcome on `n + 1` elements from the outcome on `n`.
pub proof fn lemma_try_map_step<A, B, E>(items: Seq<A>, f: spec_fn(A) -> Result<B, E>, n: int)
    requires
        0 <= n < items.len(),
    ensures
        try_map(items.take(n + 1), f) == match try_map(items.take(n), f) {
            Err(e) => Err(e),
            Ok(done) => match f(items[n]) {
                Err(e) => Err(e),
                Ok(b) => Ok(done.push(b)),
            },
        },
{
    assert(items.take(n + 1).drop_last() =~= items.take(n));
    assert(items.take(n + 1).last() == items[n]);
}

/// A failure on a prefix is the failure on the whole.
pub proof fn lemma_try_map_prefix_failure<A, B, E>(items: Seq<A>, f: spec_fn(A) -> Result<B, E>, n: int)
    requires
        0 <= n <= items.len(),
        try_map(items.take(n), f) is Err,
    ensures
        try_map(items, f) == try_map(items.take(n), f),
    decreases items.len() - n,
{
    if n == items.len() {
        assert(items.take(n) =~= items);
    } else {
        lemma_try_map_step(items, f, n);
        lemma_try_map_prefix_failure(items, f, n + 1);
    }
}

/// `try_map` succeeds exactly when `f` succeeds on every element, and then
/// holds the outcomes one for one.
pub proof fn lemma_try_map_success<A, B, E>(items: Seq<A>, f: spec_fn(A) -> Result<B, E>)
    ensures
        try_map(items, f) is Ok <==> forall|i: int| 0 <= i < items.len() ==> (#[trigger] f(items[i])) is Ok,
        try_map(items, f) matches Ok(out) ==> {
            &&& out.len() == items.len()
            &&& forall|i: int| 0 <= i < items.len() ==> f(items[i]) == Ok::<B, E>(#[trigger] out[i])
        },
    decreases items.len(),
{
    if items.len() > 0 {
        let front = items.drop_last();
        lemma_try_map_success(front, f);
        assert(forall|i: int| 0 <= i < front.len() ==> front[i] == items[i]);
        if try_map(items, f) is Ok {
            assert forall|i: int| 0 <= i < items.len() implies (#[trigger] f(items[i])) is Ok by {
                if i < front.len() {
                    assert(f(front[i]) is Ok);
                }
            }
        }
        if forall|i: int| 0 <= i < items.len() ==> (#[trigger] f(items[i])) is Ok {
            assert forall|i: int| 0 <= i < front.len() implies (#[trigger] f(front[i])) is Ok by {
                assert(f(items[i]) is Ok);
            }
            assert(f(items[items.len() - 1]) is Ok);
        }
    }
}

/// A failure of `try_map` is the failure of `f` on the first element on which it fails.
pub proof fn lemma_try_map_failure<A, B, E>(items: Seq<A>, f: spec_fn(A) -> Result<B, E>) -> (at: int)
    requires
        try_map(items, f) is Err,
    ensures
        0 <= at < items.len(),
        f(items[at]) is Err,
        f(items[at])->Err_0 == try_map(items, f)->Err_0,
        forall|j: int| 0 <= j < at ==> (#[trigger] f(items[j])) is Ok,
    decreases items.len(),
{
    let front = items.drop_last();
    assert(forall|i: int| 0 <= i < front.len() ==> front[i] == items[i]);
    if try_map(front, f) is Err {
        lemma_try_map_failure(front, f)
    } else {
        lemma_try_map_success(front, f);
        assert forall|j: int| 0 <= j < items.len() - 1 implies (#[trigger] f(items[j])) is Ok by {
            assert(f(front[j]) is Ok);
        }
        items.len() - 1
    }
}

/// The value of the first element of `items` that gives one.
pub open spec fn first_value<A, T>(items: Seq<A>, read: spec_fn(A) -> Option<T>) -> Option<T>
    decreases items.len(),
{
    if items.len() == 0 {
        None
    } else {
        match read(items.first()) {
            Some(v) => Some(v),
            None => first_value(items.drop_first(), read),
        }
    }
}

/// Elements that give no value can be passed over.
pub proof fn lemma_first_value_skip<A, T>(items: Seq<A>, read: spec_fn(A) -> Option<T>, n: int)
    requires
        0 <= n < items.len(),
    ensures
        first_value(items.skip(n), read) == match read(items[n]) {
            Some(v) => Some(v),
            None => first_value(items.skip(n + 1), read),
        },
{
    assert(items.skip(n).drop_first() =~= items.skip(n + 1));
    assert(items.skip(n).first() == items[n]);
}

/// What an element says of a setting: nothing, a value, or something unreadable.
#[derive(Debug, PartialEq, Eq)]
pub enum Reading<T> {
    Nothing,
    Value(T),
    Malformed,
}

/// The value of the last element of `items` that gives one.
pub open spec fn last_value<A, T>(items: Seq<A>, read: spec_fn(A) -> Reading<T>) -> Option<T>
    decreases items.len(),
{
    if items.len() == 0 {
        None
    } else {
        match read(items.last()) {
            Reading::Value(v) => Some(v),
            _ => last_value(items.drop_last(), read),
        }
    }
}

/// Whether some element of `items` is unreadable.
pub open spec fn any_malformed<A, T>(items: Seq<A>, read: spec_fn(A) -> Reading<T>) -> bool {
    exists|i: int| 0 <= i < items.len() && (#[trigger] read(items[i])) is Malformed
}

/// What a whole sequence says of a setting: unreadable if any element is;
/// else the value of the last element that gives one; else nothing.
pub open spec fn scan<A, T>(items: Seq<A>, read: spec_fn(A) -> Reading<T>) -> Reading<T> {
    if any_malformed(items, read) {
        Reading::Malformed
    } else {
        match last_value(items, read) {
            Some(v) => Reading::Value(v),
            None => Reading::Nothing,
        }
    }
}

/// One more element: the reading of `n + 1` elements from the reading of `n`.
pub proof fn lemma_scan_step<A, T>(items: Seq<A>, read: spec_fn(A) -> Reading<T>, n: int)
    requires
        0 <= n < items.len(),
    ensures
        scan(items.take(n + 1), read) == match scan(items.take(n), read) {
            Reading::Malformed => Reading::Malformed,
            before => match read(items[n]) {
                Reading::Malformed => Reading::Malformed,
                Reading::Value(v) => Reading::Value(v),
                Reading::Nothing => before,
            },
        },
{
    let more = items.take(n + 1);
    let fewer = items.take(n);
    assert(more.drop_last() =~= fewer);
    assert(more.last() == items[n]);
    assert(forall|i: int| 0 <= i < n ==> fewer[i] == more[i]);
    if any_malformed(fewer, read) {
        let i = choose|i: int| 0 <= i < fewer.len() && (#[trigger] read(fewer[i])) is Malformed;
        assert(read(more[i]) is Malformed);
    } else if read(items[n]) is Malformed {
        assert(read(more[n]) is Malformed);
    } else {
        if any_malformed(more, read) {
            let i = choose|i: int| 0 <= i < more.len() && (#[trigger] read(more[i])) is Malformed;
            if i < n {
                assert(read(fewer[i]) is Malformed);
            }
        }
    }
}

/// A sequence with an unreadable prefix is unreadable.
pub proof fn lemma_scan_prefix_malformed<A, T>(items: Seq<A>, read: spec_fn(A) -> Reading<T>, n: int)
    requires
        0 <= n <= items.len(),
        scan(items.take(n), read) is Malformed,
    ensures
        scan(items, read) is Malformed,
{
    let i = choose|i: int| 0 <= i < items.take(n).len() && (#[trigger] read(items.take(n)[i])) is Malformed;
    assert(read(items[i]) is Malformed);
}

} // verus!
