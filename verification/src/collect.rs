//! Reading the items of a list one by one, giving up at the first that cannot be read.

use crate::error::Failure;
use crate::json::JsonValue;
use vstd::prelude::*;

verus! {

/// What `read` makes of each item, in order; or the failure of the first item that
/// `read` refuses.
pub open spec fn collect<A>(
    items: Seq<JsonValue>,
    read: spec_fn(JsonValue) -> Result<A, Failure>,
) -> Result<Seq<A>, Failure>
    decreases items.len(),
{
    if items.len() == 0 {
        Ok(Seq::empty())
    } else {
        match collect(items.drop_last(), read) {
            Err(e) => Err(e),
            Ok(done) => match read(items.last()) {
                Ok(a) => Ok(done.push(a)),
                Err(e) => Err(e),
            },
        }
    }
}

/// A failure among the first `n` items is the failure of the whole list.
pub proof fn lemma_collect_prefix_fails<A>(
    items: Seq<JsonValue>,
    read: spec_fn(JsonValue) -> Result<A, Failure>,
    n: int,
)
    requires
        0 <= n <= items.len(),
        collect(items.take(n), read) is Err,
    ensures
        collect(items, read) == collect(items.take(n), read),
    decreases items.len() - n,
{
    if n == items.len() {
        assert(items.take(n) =~= items);
    } else {
        assert(items.take(n + 1).drop_last() =~= items.take(n));
        lemma_collect_prefix_fails(items, read, n + 1);
    }
}

/// Reading one item more: the first `n + 1` items in terms of the first `n`.
pub proof fn lemma_collect_step<A>(
    items: Seq<JsonValue>,
    read: spec_fn(JsonValue) -> Result<A, Failure>,
    n: int,
)
    requires
        0 <= n < items.len(),
    ensures
        collect(items.take(n + 1), read) == match collect(items.take(n), read) {
            Err(e) => Err(e),
            Ok(done) => match read(items[n]) {
                Ok(a) => Ok(done.push(a)),
                Err(e) => Err(e),
            },
        },
{
    assert(items.take(n + 1).drop_last() =~= items.take(n));
    assert(items.take(n + 1).last() == items[n]);
}

/// A list is read in full exactly when each of its items is, and then holds what was
/// made of each item, in the order of the items.
pub proof fn lemma_collect_ok<A>(
    items: Seq<JsonValue>,
    read: spec_fn(JsonValue) -> Result<A, Failure>,
)
    ensures
        collect(items, read) is Ok <==> forall|i: int|
            0 <= i < items.len() ==> (#[trigger] read(items[i])) is Ok,
        collect(items, read) matches Ok(out) ==> out.len() == items.len() && forall|i: int|
            0 <= i < items.len() ==> read(items[i]) == Ok::<A, Failure>(#[trigger] out[i]),
    decreases items.len(),
{
    if items.len() > 0 {
        let front = items.drop_last();
        lemma_collect_ok(front, read);
        assert forall|i: int| 0 <= i < front.len() implies front[i] == items[i] by {}
        if collect(items, read) is Ok {
            assert forall|i: int| 0 <= i < items.len() implies (#[trigger] read(items[i])) is Ok by {
                if i < front.len() {
                    assert(front[i] == items[i]);
                }
            }
        }
        if forall|i: int| 0 <= i < items.len() ==> (#[trigger] read(items[i])) is Ok {
            assert forall|i: int| 0 <= i < front.len() implies (#[trigger] read(front[i])) is Ok by {
                assert(front[i] == items[i]);
            }
            assert(read(items[items.len() - 1]) is Ok);
        }
    }
}

/// Where a list cannot be read in full, the failure is that of its first item that
/// `read` refuses.
pub proof fn lemma_collect_err<A>(
    items: Seq<JsonValue>,
    read: spec_fn(JsonValue) -> Result<A, Failure>,
) -> (k: int)
    requires
        collect(items, read) is Err,
    ensures
        0 <= k < items.len(),
        read(items[k]) is Err,
        collect(items, read)->Err_0 == read(items[k])->Err_0,
        forall|i: int| 0 <= i < k ==> (#[trigger] read(items[i])) is Ok,
    decreases items.len(),
{
    let front = items.drop_last();
    if collect(front, read) is Err {
        let k = lemma_collect_err(front, read);
        assert(front[k] == items[k]);
        assert forall|i: int| 0 <= i < k implies (#[trigger] read(items[i])) is Ok by {
            assert(front[i] == items[i]);
        }
        k
    } else {
        lemma_collect_ok(front, read);
        assert forall|i: int| 0 <= i < front.len() implies (#[trigger] read(items[i])) is Ok by {
            assert(front[i] == items[i]);
        }
        items.len() - 1
    }
}

} // verus!
