//! What holds of every history of an idempotency store.

use vstd::prelude::*;

use crate::idempotency;
use crate::idempotency::StoreState;
use crate::str_map;
use crate::text;

verus! {

/// The estimated memory of the entries of the keys `order`.
pub open spec fn total_bytes(results: Map<Seq<char>, Seq<char>>, order: Seq<Seq<char>>) -> int
    decreases order.len(),
{
    if order.len() == 0 {
        0
    } else {
        total_bytes(results, order.drop_last()) + idempotency::entry_bytes(
            order.last(),
            results[order.last()],
        )
    }
}

/// The order lists each key once, and the memory is that of the entries.
pub open spec fn consistent(st: StoreState) -> bool {
    &&& st.order.no_duplicates()
    &&& st.results.dom() == st.order.to_set()
    &&& st.memory == total_bytes(st.results, st.order)
}

proof fn lemma_total_frame(
    a: Map<Seq<char>, Seq<char>>,
    b: Map<Seq<char>, Seq<char>>,
    order: Seq<Seq<char>>,
)
    requires
        forall|i: int| 0 <= i < order.len() ==> a[#[trigger] order[i]] == b[order[i]],
    ensures
        total_bytes(a, order) == total_bytes(b, order),
    decreases order.len(),
{
    if order.len() > 0 {
        let o = order.drop_last();
        assert forall|i: int| 0 <= i < o.len() implies a[#[trigger] o[i]] == b[o[i]] by {
            assert(o[i] == order[i]);
        }
        lemma_total_frame(a, b, o);
        assert(order[order.len() - 1] == order.last());
    }
}

proof fn lemma_total_nonneg(a: Map<Seq<char>, Seq<char>>, order: Seq<Seq<char>>)
    ensures
        total_bytes(a, order) >= 0,
    decreases order.len(),
{
    if order.len() > 0 {
        lemma_total_nonneg(a, order.drop_last());
    }
}

proof fn lemma_total_front(a: Map<Seq<char>, Seq<char>>, key: Seq<char>, order: Seq<Seq<char>>)
    ensures
        total_bytes(a, seq![key] + order)
            == idempotency::entry_bytes(key, a[key]) + total_bytes(a, order),
    decreases order.len(),
{
    let all = seq![key] + order;
    if order.len() == 0 {
        assert(all.drop_last() =~= Seq::<Seq<char>>::empty());
        assert(all.last() == key);
        assert(total_bytes(a, all.drop_last()) == 0);
        assert(order =~= Seq::<Seq<char>>::empty());
    } else {
        lemma_total_front(a, key, order.drop_last());
        assert(all.drop_last() =~= seq![key] + order.drop_last());
        assert(all.last() == order.last());
    }
}

proof fn lemma_total_remove(a: Map<Seq<char>, Seq<char>>, order: Seq<Seq<char>>, i: int)
    requires
        0 <= i < order.len(),
    ensures
        total_bytes(a, order.remove(i)) == total_bytes(a, order) - idempotency::entry_bytes(
            order[i],
            a[order[i]],
        ),
    decreases order.len(),
{
    if i == order.len() - 1 {
        assert(order.remove(i) =~= order.drop_last());
    } else {
        let o = order.drop_last();
        lemma_total_remove(a, o, i);
        assert(order.remove(i).drop_last() =~= o.remove(i));
        assert(order.remove(i).last() == order.last());
    }
}

/// Taking one place out of a list without repetitions takes one element out of its set.
proof fn lemma_remove_set(order: Seq<Seq<char>>, i: int)
    requires
        0 <= i < order.len(),
        order.no_duplicates(),
    ensures
        order.remove(i).no_duplicates(),
        order.remove(i).to_set() == order.to_set().remove(order[i]),
        !order.remove(i).contains(order[i]),
{
    let r = order.remove(i);
    assert forall|x: int, y: int| 0 <= x < r.len() && 0 <= y < r.len() && x != y implies r[x]
        != r[y] by {
        let x1 = if x < i { x } else { x + 1 };
        let y1 = if y < i { y } else { y + 1 };
        assert(order[x1] != order[y1]);
    }
    assert forall|k: Seq<char>| r.contains(k) <==> (order.contains(k) && k != order[i]) by {
        if r.contains(k) {
            let j = r.index_of(k);
            let j1 = if j < i { j } else { j + 1 };
            assert(order[j1] == k);
        }
        if order.contains(k) && k != order[i] {
            let j1 = order.index_of(k);
            let j = if j1 < i { j1 } else { j1 - 1 };
            assert(r[j] == k);
        }
    }
    assert(r.to_set() =~= order.to_set().remove(order[i]));
}

/// Evicting the least recently used entry keeps a state consistent.
proof fn lemma_evict_one(st: StoreState)
    requires
        consistent(st),
        st.order.len() > 0,
    ensures
        consistent(idempotency::evict_one(st)),
        idempotency::evict_one(st).memory == st.memory - idempotency::entry_bytes(
            st.order.last(),
            st.results[st.order.last()],
        ),
        idempotency::evict_one(st).order == st.order.take(st.order.len() - 1),
{
    let n = st.order.len() - 1;
    let key = st.order.last();
    lemma_remove_set(st.order, n);
    assert(st.order.remove(n) =~= st.order.drop_last());
    assert(st.order.contains(key));
    let r = st.results.remove(key);
    assert forall|i: int| 0 <= i < st.order.drop_last().len() implies
        r[#[trigger] st.order.drop_last()[i]]
        == st.results[st.order.drop_last()[i]] by {
        assert(st.order[i] != st.order[n]);
    }
    lemma_total_frame(r, st.results, st.order.drop_last());
    lemma_total_nonneg(st.results, st.order.drop_last());
    assert(idempotency::evict_one(st).results.dom() =~= idempotency::evict_one(st).order.to_set());
    assert(st.order.drop_last() =~= st.order.take(n));
}

/// Eviction keeps a state consistent, drops the least recently used keys only, and leaves the
/// results of the others unchanged.
pub proof fn law_eviction_is_lru(
    st: StoreState,
    capacity: int,
    max_memory: int,
    slots: int,
    bytes: int,
)
    requires
        consistent(st),
    ensures
        consistent(idempotency::evicted(st, capacity, max_memory, slots, bytes)),
        idempotency::evicted(st, capacity, max_memory, slots, bytes).order == st.order.take(
            idempotency::evicted(st, capacity, max_memory, slots, bytes).order.len() as int,
        ),
        idempotency::evicted(st, capacity, max_memory, slots, bytes).order.len() <= st.order.len(),
        forall|k: Seq<char>|
            idempotency::evicted(st, capacity, max_memory, slots, bytes).order.contains(k)
                ==> #[trigger] idempotency::evicted(st, capacity, max_memory, slots, bytes).results[k]
                == st.results[k],
    decreases st.order.len(),
{
    let e = idempotency::evicted(st, capacity, max_memory, slots, bytes);
    if idempotency::over_limit(st, capacity, max_memory, slots, bytes) && st.order.len() > 0 {
        lemma_evict_one(st);
        let s1 = idempotency::evict_one(st);
        law_eviction_is_lru(s1, capacity, max_memory, slots, bytes);
        assert(s1.order.take(e.order.len() as int) =~= st.order.take(e.order.len() as int));
        assert forall|k: Seq<char>| e.order.contains(k) implies #[trigger] e.results[k]
            == st.results[k] by {
            let j = e.order.index_of(k);
            assert(s1.order[j] == k);
            assert(st.order[j] == k);
            assert(st.order[j] != st.order.last());
        }
    } else {
        assert(st.order.take(st.order.len() as int) =~= st.order);
    }
}

/// After eviction the limits hold, or nothing is left.
proof fn lemma_evicted_limits(
    st: StoreState,
    capacity: int,
    max_memory: int,
    slots: int,
    bytes: int,
)
    ensures
        !idempotency::over_limit(
            idempotency::evicted(st, capacity, max_memory, slots, bytes),
            capacity,
            max_memory,
            slots,
            bytes,
        ) || idempotency::evicted(st, capacity, max_memory, slots, bytes).order.len() == 0,
    decreases st.order.len(),
{
    if idempotency::over_limit(st, capacity, max_memory, slots, bytes) && st.order.len() > 0 {
        lemma_evicted_limits(idempotency::evict_one(st), capacity, max_memory, slots, bytes);
    }
}

proof fn lemma_forgotten(st: StoreState, key: Seq<char>)
    requires
        consistent(st),
    ensures
        consistent(idempotency::forgotten(st, key)),
        !idempotency::forgotten(st, key).order.contains(key),
        idempotency::forgotten(st, key).order == str_map::without(st.order, key),
{
    if st.results.dom().contains(key) {
        assert(st.order.contains(key));
        let i = st.order.index_of(key);
        str_map::lemma_without_one(st.order, i);
        lemma_remove_set(st.order, i);
        lemma_total_remove(st.results, st.order, i);
        let o = st.order.remove(i);
        let r = st.results.remove(key);
        assert forall|j: int| 0 <= j < o.len() implies r[#[trigger] o[j]] == st.results[o[j]] by {
            assert(o.contains(o[j]));
        }
        lemma_total_frame(r, st.results, o);
        lemma_total_nonneg(st.results, o);
        assert(idempotency::forgotten(st, key).results.dom() =~= o.to_set());
    } else {
        assert(!st.order.contains(key)) by {
            if st.order.contains(key) {
                assert(st.order.to_set().contains(key));
            }
        }
        str_map::lemma_without_none(st.order, key);
    }
}

/// Putting an entry in front of an order that lacks its key keeps a state consistent.
proof fn lemma_put_front(st: StoreState, key: Seq<char>, result: Seq<char>)
    requires
        consistent(st),
        !st.order.contains(key),
    ensures
        consistent(
            StoreState {
                results: st.results.insert(key, result),
                order: seq![key] + st.order,
                memory: st.memory + idempotency::entry_bytes(key, result),
            },
        ),
{
    let order = seq![key] + st.order;
    let results = st.results.insert(key, result);
    assert forall|x: int, y: int|
        0 <= x < order.len() && 0 <= y < order.len() && x != y implies order[x] != order[y] by {
        if x == 0 {
            assert(order[y] == st.order[y - 1]);
        } else if y == 0 {
            assert(order[x] == st.order[x - 1]);
        } else {
            assert(order[x] == st.order[x - 1]);
            assert(order[y] == st.order[y - 1]);
        }
    }
    assert forall|k: Seq<char>| order.contains(k) <==> (k == key || st.order.contains(k)) by {
        if k == key {
            assert(order[0] == key);
        }
        if st.order.contains(k) {
            let j = st.order.index_of(k);
            assert(order[j + 1] == k);
        }
        if order.contains(k) && k != key {
            let j = order.index_of(k);
            assert(st.order[j - 1] == k);
        }
    }
    assert(results.dom() =~= order.to_set());
    lemma_total_front(results, key, st.order);
    assert forall|j: int| 0 <= j < st.order.len() implies results[#[trigger] st.order[j]]
        == st.results[st.order[j]] by {
        assert(st.order.contains(st.order[j]));
    }
    lemma_total_frame(results, st.results, st.order);
}

/// An empty store is consistent.
pub proof fn law_empty_is_consistent()
    ensures
        consistent(idempotency::empty_state()),
{
    assert(idempotency::empty_state().results.dom() =~= idempotency::empty_state().order.to_set());
}

/// Recording a processed key keeps a store consistent.
pub proof fn law_mark_is_consistent(
    st: StoreState,
    capacity: int,
    max_memory: int,
    key: Seq<char>,
    result: Seq<char>,
)
    requires
        consistent(st),
    ensures
        consistent(idempotency::marked(st, capacity, max_memory, key, result)),
{
    let bytes = idempotency::entry_bytes(key, result);
    let f = idempotency::forgotten(st, key);
    lemma_forgotten(st, key);
    law_eviction_is_lru(f, capacity, max_memory, 1, bytes);
    let room = idempotency::evicted(f, capacity, max_memory, 1, bytes);
    assert(!room.order.contains(key)) by {
        if room.order.contains(key) {
            let j = room.order.index_of(key);
            assert(f.order[j] == key);
            assert(f.order.contains(key));
        }
    }
    if bytes <= max_memory {
        lemma_put_front(room, key, result);
    }
}

/// Looking up a processed key keeps a store consistent.
pub proof fn law_touch_is_consistent(
    st: StoreState,
    capacity: int,
    max_memory: int,
    key: Seq<char>,
)
    requires
        consistent(st),
        st.results.dom().contains(key),
    ensures
        consistent(idempotency::touched(st, capacity, max_memory, key)),
{
    lemma_touch_order(st, key);
    law_eviction_is_lru(
        StoreState { order: seq![key] + idempotency::without_first(st.order, key), ..st },
        capacity,
        max_memory,
        0,
        0,
    );
}

proof fn lemma_touch_order(st: StoreState, key: Seq<char>)
    requires
        consistent(st),
        st.results.dom().contains(key),
    ensures
        consistent(StoreState { order: seq![key] + idempotency::without_first(st.order, key), ..st }),
{
    assert(st.order.contains(key));
    let i = st.order.index_of(key);
    lemma_without_first_one(st.order, i);
    let o = st.order.remove(i);
    lemma_forgotten(st, key);
    str_map::lemma_without_one(st.order, i);
    let f = idempotency::forgotten(st, key);
    lemma_total_remove(st.results, st.order, i);
    lemma_total_nonneg(st.results, o);
    lemma_put_front(f, key, st.results[key]);
    assert(f.results.insert(key, st.results[key]) =~= st.results);
    assert(f.memory + idempotency::entry_bytes(key, st.results[key]) == st.memory);
}

proof fn lemma_without_first_one(a: Seq<Seq<char>>, i: int)
    requires
        0 <= i < a.len(),
        a.no_duplicates(),
    ensures
        idempotency::without_first(a, a[i]) == a.remove(i),
    decreases a.len(),
{
    if i == 0 {
        assert(a.remove(0) =~= a.skip(1));
    } else {
        let b = a.skip(1);
        assert(b[i - 1] == a[i]);
        assert(a[0] != a[i]);
        assert forall|x: int, y: int| 0 <= x < b.len() && 0 <= y < b.len() && x != y implies b[x]
            != b[y] by {
            assert(a[x + 1] != a[y + 1]);
        }
        lemma_without_first_one(b, i - 1);
        assert(a.remove(i) =~= seq![a[0]] + b.remove(i - 1));
    }
}

/// Recording a processed key never leaves a consistent store above its memory limit.
pub proof fn law_mark_respects_memory(
    st: StoreState,
    capacity: int,
    max_memory: int,
    key: Seq<char>,
    result: Seq<char>,
)
    requires
        consistent(st),
        max_memory >= 0,
    ensures
        idempotency::marked(st, capacity, max_memory, key, result).memory <= max_memory,
{
    let bytes = idempotency::entry_bytes(key, result);
    let f = idempotency::forgotten(st, key);
    lemma_forgotten(st, key);
    law_eviction_is_lru(f, capacity, max_memory, 1, bytes);
    lemma_evicted_limits(f, capacity, max_memory, 1, bytes);
    let room = idempotency::evicted(f, capacity, max_memory, 1, bytes);
    if room.order.len() == 0 {
        assert(room.memory == 0);
    }
}

/// Recording a processed key never leaves a consistent store with more entries than its
/// capacity, where the capacity is one at least.
pub proof fn law_mark_respects_capacity(
    st: StoreState,
    capacity: int,
    max_memory: int,
    key: Seq<char>,
    result: Seq<char>,
)
    requires
        consistent(st),
        capacity >= 1,
    ensures
        idempotency::marked(st, capacity, max_memory, key, result).results.dom().len() <= capacity,
{
    let bytes = idempotency::entry_bytes(key, result);
    let f = idempotency::forgotten(st, key);
    lemma_forgotten(st, key);
    law_eviction_is_lru(f, capacity, max_memory, 1, bytes);
    lemma_evicted_limits(f, capacity, max_memory, 1, bytes);
    let room = idempotency::evicted(f, capacity, max_memory, 1, bytes);
    room.order.unique_seq_to_set();
    assert(room.results.dom().finite());
    if room.order.len() == 0 {
        assert(room.results.dom() =~= Set::<Seq<char>>::empty());
    }
}

/// A look-up right after a key was recorded gives the recorded result, unless the entry alone
/// exceeds the memory limit; no other key is added.
pub proof fn law_read_back(
    st: StoreState,
    capacity: int,
    max_memory: int,
    key: Seq<char>,
    result: Seq<char>,
)
    requires
        idempotency::entry_bytes(key, result) <= max_memory,
    ensures
        idempotency::marked(st, capacity, max_memory, key, result).results.dom().contains(key),
        idempotency::marked(st, capacity, max_memory, key, result).results[key] == result,
        idempotency::marked(
            st,
            capacity,
            max_memory,
            key,
            result,
        ).results.remove(key).submap_of(st.results),
{
    let f = idempotency::forgotten(st, key);
    lemma_evicted_subset(f, capacity, max_memory, 1, idempotency::entry_bytes(key, result));
}

proof fn lemma_evicted_subset(
    st: StoreState,
    capacity: int,
    max_memory: int,
    slots: int,
    bytes: int,
)
    ensures
        idempotency::evicted(st, capacity, max_memory, slots, bytes).results.submap_of(st.results),
    decreases st.order.len(),
{
    if idempotency::over_limit(st, capacity, max_memory, slots, bytes) && st.order.len() > 0 {
        lemma_evicted_subset(idempotency::evict_one(st), capacity, max_memory, slots, bytes);
        let e = idempotency::evicted(idempotency::evict_one(st), capacity, max_memory, slots, bytes);
        assert forall|k: Seq<char>| #[trigger]
            e.results.dom().contains(k) implies #[trigger] st.results.dom().contains(k)
            && e.results[k] == st.results[k] by {
            assert(idempotency::evict_one(st).results.dom().contains(k));
        }
    }
}

/// The most recently used key survives the recording of another one, where both entries fit
/// into the limits together.
pub proof fn law_most_recent_survives(
    st: StoreState,
    capacity: int,
    max_memory: int,
    key: Seq<char>,
    result: Seq<char>,
)
    requires
        consistent(st),
        st.order.len() > 0,
        st.order[0] != key,
        capacity >= 2,
        idempotency::entry_bytes(
            st.order[0],
            st.results[st.order[0]],
        ) + idempotency::entry_bytes(key, result)
            <= max_memory,
    ensures
        idempotency::marked(st, capacity, max_memory, key, result).results.dom().contains(st.order[0]),
        idempotency::marked(st, capacity, max_memory, key, result).results[st.order[0]]
            == st.results[st.order[0]],
{
    let bytes = idempotency::entry_bytes(key, result);
    let f = idempotency::forgotten(st, key);
    lemma_forgotten(st, key);
    let first = st.order[0];
    if st.results.dom().contains(key) {
        assert(st.order.contains(key));
        let i = st.order.index_of(key);
        str_map::lemma_without_one(st.order, i);
        assert(i != 0);
        assert(f.order[0] == first);
    }
    assert(st.order.contains(first));
    lemma_first_stays(f, capacity, max_memory, bytes);
    law_eviction_is_lru(f, capacity, max_memory, 1, bytes);
    let room = idempotency::evicted(f, capacity, max_memory, 1, bytes);
    assert(room.order.contains(first));
}

proof fn lemma_first_stays(st: StoreState, capacity: int, max_memory: int, bytes: int)
    requires
        consistent(st),
        st.order.len() > 0,
        capacity >= 2,
        idempotency::entry_bytes(st.order[0], st.results[st.order[0]]) + bytes <= max_memory,
    ensures
        idempotency::evicted(st, capacity, max_memory, 1, bytes).order.len() > 0,
        idempotency::evicted(st, capacity, max_memory, 1, bytes).order[0] == st.order[0],
    decreases st.order.len(),
{
    if idempotency::over_limit(st, capacity, max_memory, 1, bytes) {
        st.order.unique_seq_to_set();
        if st.order.len() == 1 {
            assert(st.order.drop_last() =~= Seq::<Seq<char>>::empty());
            assert(st.order.last() == st.order[0]);
            assert(total_bytes(st.results, st.order.drop_last()) == 0);
            assert(false);
        } else {
            lemma_evict_one(st);
            assert(st.order[0] != st.order.last());
            lemma_first_stays(idempotency::evict_one(st), capacity, max_memory, bytes);
        }
    }
}

/// A key that was just looked up is the most recent one, where it is still there.
pub proof fn law_touched_is_most_recent(
    st: StoreState,
    capacity: int,
    max_memory: int,
    key: Seq<char>,
)
    requires
        consistent(st),
        st.results.dom().contains(key),
        st.results.dom().len() <= capacity,
        st.memory <= max_memory,
    ensures
        idempotency::touched(st, capacity, max_memory, key).order.len() > 0,
        idempotency::touched(st, capacity, max_memory, key).order[0] == key,
        idempotency::touched(st, capacity, max_memory, key).results == st.results,
{
}

/// A use of a store.
pub ghost enum StoreUse {
    /// A key was processed.
    Mark { key: Seq<char>, result: Seq<char> },
    /// A key or its result was looked up.
    Look { key: Seq<char> },
    /// All was taken out.
    Clear,
}

/// The state after a use.
pub open spec fn used(
    st: StoreState,
    capacity: int,
    max_memory: int,
    u: StoreUse,
) -> StoreState {
    match u {
        StoreUse::Mark { key, result } => idempotency::marked(
            st,
            capacity,
            max_memory,
            key,
            result,
        ),
        StoreUse::Look { key } => if st.results.dom().contains(key) {
            idempotency::touched(st, capacity, max_memory, key)
        } else {
            st
        },
        StoreUse::Clear => idempotency::empty_state(),
    }
}

/// The state of a store that was new and was then used.
pub open spec fn used_all(capacity: int, max_memory: int, uses: Seq<StoreUse>) -> StoreState
    decreases uses.len(),
{
    if uses.len() == 0 {
        idempotency::empty_state()
    } else {
        used(used_all(capacity, max_memory, uses.drop_last()), capacity, max_memory, uses.last())
    }
}

/// Whether a state is consistent and keeps its limits.
pub open spec fn within_limits(st: StoreState, capacity: int, max_memory: int) -> bool {
    &&& consistent(st)
    &&& st.results.dom().len() <= capacity
    &&& st.memory <= max_memory
}

/// Looking up a processed key keeps a store within its limits, and loses nothing.
pub proof fn law_look_keeps_limits(
    st: StoreState,
    capacity: int,
    max_memory: int,
    key: Seq<char>,
)
    requires
        within_limits(st, capacity, max_memory),
        st.results.dom().contains(key),
    ensures
        within_limits(idempotency::touched(st, capacity, max_memory, key), capacity, max_memory),
        idempotency::touched(st, capacity, max_memory, key).results == st.results,
{
    law_touch_is_consistent(st, capacity, max_memory, key);
    law_touched_is_most_recent(st, capacity, max_memory, key);
}

/// An entry that alone exceeds the memory limit is not kept, and an earlier one under its key is
/// gone.
pub proof fn law_oversized_is_not_kept(
    st: StoreState,
    capacity: int,
    max_memory: int,
    key: Seq<char>,
    result: Seq<char>,
)
    requires
        idempotency::entry_bytes(key, result) > max_memory,
    ensures
        !idempotency::marked(st, capacity, max_memory, key, result).results.dom().contains(key),
{
    let bytes = idempotency::entry_bytes(key, result);
    let f = idempotency::forgotten(st, key);
    lemma_evicted_subset(f, capacity, max_memory, 1, bytes);
    let room = idempotency::evicted(f, capacity, max_memory, 1, bytes);
    if room.results.dom().contains(key) {
        assert(f.results.dom().contains(key));
    }
}

/// However a store is used since it was new, it lists each key once, its memory is that of its
/// entries, and it keeps its limits.
pub proof fn law_every_history_keeps_limits(
    capacity: int,
    max_memory: int,
    uses: Seq<StoreUse>,
)
    requires
        capacity >= 1,
        max_memory >= 0,
    ensures
        within_limits(used_all(capacity, max_memory, uses), capacity, max_memory),
    decreases uses.len(),
{
    law_empty_is_consistent();
    assert(idempotency::empty_state().results.dom() =~= Set::<Seq<char>>::empty());
    if uses.len() > 0 {
        law_every_history_keeps_limits(capacity, max_memory, uses.drop_last());
        let st = used_all(capacity, max_memory, uses.drop_last());
        match uses.last() {
            StoreUse::Mark { key, result } => {
                law_mark_is_consistent(st, capacity, max_memory, key, result);
                law_mark_respects_memory(st, capacity, max_memory, key, result);
                law_mark_respects_capacity(st, capacity, max_memory, key, result);
            },
            StoreUse::Look { key } => {
                if st.results.dom().contains(key) {
                    law_look_keeps_limits(st, capacity, max_memory, key);
                }
            },
            StoreUse::Clear => {},
        }
    }
}

/// However a store was used before, a key that was just processed has its result, unless the entry
/// alone exceeds the memory limit: then the key is not known.
pub proof fn law_every_history_reads_back(
    capacity: int,
    max_memory: int,
    uses: Seq<StoreUse>,
    key: Seq<char>,
    result: Seq<char>,
)
    ensures
        ({
            let st = used_all(
                capacity,
                max_memory,
                uses.push(StoreUse::Mark { key, result }),
            );
            if idempotency::entry_bytes(key, result) <= max_memory {
                st.results.dom().contains(key) && st.results[key] == result
            } else {
                !st.results.dom().contains(key)
            }
        }),
{
    let all = uses.push(StoreUse::Mark { key, result });
    assert(all.drop_last() =~= uses);
    let st = used_all(capacity, max_memory, uses);
    if idempotency::entry_bytes(key, result) <= max_memory {
        law_read_back(st, capacity, max_memory, key, result);
    } else {
        law_oversized_is_not_kept(st, capacity, max_memory, key, result);
    }
}

/// An entry whose line can be read back: a key without spaces that starts with no white space, a
/// result that ends with none, and no line feed in either.
pub open spec fn line_safe(key: Seq<char>, result: Seq<char>) -> bool {
    &&& key.len() > 0
    &&& result.len() > 0
    &&& !text::is_white_space(key[0])
    &&& !text::is_white_space(result.last())
    &&& !key.contains(' ')
    &&& !key.contains('\n')
    &&& !result.contains('\n')
}

/// The line that is written for an entry reads back as that entry.
pub proof fn law_line_reads_back(key: Seq<char>, result: Seq<char>)
    requires
        line_safe(key, result),
    ensures
        idempotency::parsed_line(idempotency::entry_line(key, result)) == Some((key, result)),
{
    let line = idempotency::entry_line(key, result);
    let n = key.len() as int;
    assert(line[0] == key[0]);
    assert(line.last() == result.last());
    assert(text::trimmed_start(line) == line);
    assert(text::trimmed(line) == line);
    assert forall|i: int| 0 <= i < n implies line[i] != ' ' by {
        assert(line[i] == key[i]);
        assert(key.contains(key[i]));
    }
    text::lemma_first_index_is(line, ' ', n);
    assert(line.take(n) =~= key);
    assert(line.skip(n + 1) =~= result);
    let parts = text::split_parts(line, 2, ' ');
    assert(text::split_parts(result, 1, ' ') == seq![result]);
    assert(parts =~= seq![key, result]);
}

/// The text of a file with one line for each entry.
pub open spec fn file_text(entries: Seq<(Seq<char>, Seq<char>)>) -> Seq<char>
    decreases entries.len(),
{
    if entries.len() == 0 {
        Seq::empty()
    } else {
        idempotency::entry_line(entries[0].0, entries[0].1).push('\n') + file_text(entries.skip(1))
    }
}

/// The results after the entries came in one after the other.
pub open spec fn last_results(entries: Seq<(Seq<char>, Seq<char>)>) -> Map<Seq<char>, Seq<char>>
    decreases entries.len(),
{
    if entries.len() == 0 {
        Map::empty()
    } else {
        last_results(entries.drop_last()).insert(entries.last().0, entries.last().1)
    }
}

proof fn lemma_file_lines(entries: Seq<(Seq<char>, Seq<char>)>)
    requires
        forall|i: int| 0 <= i < entries.len() ==> line_safe((#[trigger] entries[i]).0, entries[i].1),
    ensures
        text::text_lines(file_text(entries)) == entries.map_values(
            |e: (Seq<char>, Seq<char>)| idempotency::entry_line(e.0, e.1),
        ),
    decreases entries.len(),
{
    let f = |e: (Seq<char>, Seq<char>)| idempotency::entry_line(e.0, e.1);
    if entries.len() == 0 {
        assert(entries.map_values(f) =~= Seq::<Seq<char>>::empty());
    } else {
        let (key, result) = entries[0];
        let line = idempotency::entry_line(key, result);
        let rest = entries.skip(1);
        assert forall|i: int| 0 <= i < rest.len() implies line_safe(
            (#[trigger] rest[i]).0,
            rest[i].1,
        ) by {
            assert(rest[i] == entries[i + 1]);
        }
        lemma_file_lines(rest);
        assert(line_safe(entries[0].0, entries[0].1));
        assert(!line.contains('\n')) by {
            if line.contains('\n') {
                let i = line.index_of('\n');
                if i < key.len() {
                    assert(key[i] == '\n');
                } else if i > key.len() {
                    assert(result[i - key.len() - 1] == '\n');
                }
            }
        }
        assert(line.last() == result.last());
        text::lemma_first_line(line, file_text(rest));
        assert(entries.map_values(f) =~= seq![line] + rest.map_values(f));
    }
}

/// A file with one line for each of a list of entries reads back as the results that the entries
/// leave when they come in one after the other.
pub proof fn law_file_reads_back(entries: Seq<(Seq<char>, Seq<char>)>)
    requires
        forall|i: int| 0 <= i < entries.len() ==> line_safe((#[trigger] entries[i]).0, entries[i].1),
    ensures
        idempotency::loaded_lines(
            idempotency::empty_state(),
            text::text_lines(file_text(entries)),
        ).results
            == last_results(entries),
{
    lemma_file_lines(entries);
    lemma_loaded_entries(entries);
}

proof fn lemma_loaded_entries(entries: Seq<(Seq<char>, Seq<char>)>)
    requires
        forall|i: int| 0 <= i < entries.len() ==> line_safe((#[trigger] entries[i]).0, entries[i].1),
    ensures
        idempotency::loaded_lines(
            idempotency::empty_state(),
            entries.map_values(|e: (Seq<char>, Seq<char>)| idempotency::entry_line(e.0, e.1)),
        ).results == last_results(entries),
    decreases entries.len(),
{
    let f = |e: (Seq<char>, Seq<char>)| idempotency::entry_line(e.0, e.1);
    let ls = entries.map_values(f);
    if entries.len() > 0 {
        let front = entries.drop_last();
        assert forall|i: int| 0 <= i < front.len() implies line_safe(
            (#[trigger] front[i]).0,
            front[i].1,
        ) by {
            assert(front[i] == entries[i]);
        }
        lemma_loaded_entries(front);
        assert(ls.drop_last() =~= front.map_values(f));
        assert(line_safe(entries[entries.len() - 1].0, entries[entries.len() - 1].1));
        law_line_reads_back(entries.last().0, entries.last().1);
        assert(ls.last() == idempotency::entry_line(entries.last().0, entries.last().1));
    }
}

/// The memory of an entry is estimated by the bytes of its key and its result and 64 more.
pub proof fn law_entry_has_its_size(key: Seq<char>, result: Seq<char>)
    ensures
        idempotency::entry_bytes(key, result) == text::byte_len(key) + text::byte_len(result) + 64,
        idempotency::DEFAULT_CAPACITY == 100_000,
        idempotency::DEFAULT_MAX_MEMORY_BYTES == 8 * 1024 * 1024,
{
}

/// Where a new key fits beside the others, nothing is evicted for it: all other keys keep their
/// results, and the new one comes first in the order of use.
pub proof fn law_nothing_is_evicted_while_there_is_room(
    st: StoreState,
    capacity: int,
    max_memory: int,
    key: Seq<char>,
    result: Seq<char>,
)
    requires
        consistent(st),
        !st.results.dom().contains(key),
        st.results.dom().len() < capacity,
        st.memory + text::byte_len(key) + text::byte_len(result) + 64 <= max_memory,
    ensures
        idempotency::marked(st, capacity, max_memory, key, result).results == st.results.insert(
            key,
            result,
        ),
        idempotency::marked(st, capacity, max_memory, key, result).order == seq![key] + st.order,
        idempotency::marked(st, capacity, max_memory, key, result).memory == st.memory
            + text::byte_len(key) + text::byte_len(result) + 64,
{
    lemma_total_nonneg(st.results, st.order);
}

/// A key that is processed again has its new result, and no other key is lost for it where the new
/// entry fits in the place of the old one.
pub proof fn law_result_is_replaced(
    st: StoreState,
    capacity: int,
    max_memory: int,
    key: Seq<char>,
    result: Seq<char>,
    other: Seq<char>,
)
    requires
        consistent(st),
        st.results.dom().contains(key),
        st.results.dom().len() <= capacity,
        st.memory + text::byte_len(result) <= max_memory + text::byte_len(st.results[key]),
        other != key,
    ensures
        idempotency::marked(st, capacity, max_memory, key, result).results[key] == result,
        idempotency::marked(st, capacity, max_memory, key, result).results.dom()
            == st.results.dom(),
        st.results.dom().contains(other) ==> idempotency::marked(
            st,
            capacity,
            max_memory,
            key,
            result,
        ).results[other] == st.results[other],
        idempotency::marked(st, capacity, max_memory, key, result).order[0] == key,
{
    let f = idempotency::forgotten(st, key);
    lemma_forgotten(st, key);
    lemma_total_nonneg(f.results, f.order);
    st.order.unique_seq_to_set();
    assert(st.order.contains(key));
    let i = st.order.index_of(key);
    str_map::lemma_without_one(st.order, i);
    lemma_total_remove(st.results, st.order, i);
    lemma_total_nonneg(st.results, st.order.remove(i));
    assert(f.results.dom().len() == st.results.dom().len() - 1);
    assert(f.memory == st.memory - idempotency::entry_bytes(key, st.results[key]));
    assert(idempotency::marked(st, capacity, max_memory, key, result).results.dom()
        =~= st.results.dom());
}

/// No more is evicted than has to be: the last key that went would not have fitted.
pub proof fn law_no_more_is_evicted_than_must_be(
    st: StoreState,
    capacity: int,
    max_memory: int,
    slots: int,
    bytes: int,
)
    requires
        consistent(st),
    ensures
        ({
            let e = idempotency::evicted(st, capacity, max_memory, slots, bytes);
            let n = e.order.len() as int;
            n < st.order.len() ==> n + 1 + slots > capacity || e.memory + idempotency::entry_bytes(
                st.order[n],
                st.results[st.order[n]],
            ) + bytes > max_memory
        }),
        st.order.len() + slots <= capacity && st.memory + bytes <= max_memory
            ==> idempotency::evicted(st, capacity, max_memory, slots, bytes) == st,
    decreases st.order.len(),
{
    st.order.unique_seq_to_set();
    if idempotency::over_limit(st, capacity, max_memory, slots, bytes) && st.order.len() > 0 {
        let s1 = idempotency::evict_one(st);
        lemma_evict_one(st);
        law_no_more_is_evicted_than_must_be(s1, capacity, max_memory, slots, bytes);
        law_eviction_is_lru(s1, capacity, max_memory, slots, bytes);
        let e = idempotency::evicted(s1, capacity, max_memory, slots, bytes);
        let n = e.order.len() as int;
        if n < s1.order.len() {
            assert(s1.order[n] == st.order[n]);
            assert(st.order[n] != st.order.last());
        } else {
            assert(e.order =~= s1.order);
            assert(e == s1) by {
                s1.order.unique_seq_to_set();
                if idempotency::over_limit(s1, capacity, max_memory, slots, bytes)
                    && s1.order.len() > 0 {
                    lemma_evict_one(s1);
                    law_eviction_is_lru(
                        idempotency::evict_one(s1),
                        capacity,
                        max_memory,
                        slots,
                        bytes,
                    );
                }
            }
            assert(n == st.order.len() - 1);
        }
    }
}

/// A key that was processed is known, with its result, right after; one that was not is not.
pub proof fn law_processed_key_is_known()
    ensures
        forall|
            s: &mut idempotency::IdempotencyStore,
            t: &mut idempotency::IdempotencyStore,
            key: String,
            result: String,
            line: Option<String>,
            k: &str,
            got: Option<String>,
        |
            #![trigger call_ensures(
                idempotency::IdempotencyStore::mark_processed,
                (s, key, result),
                line,
            ), call_ensures(idempotency::IdempotencyStore::get_result, (t, k), got)]
            call_ensures(idempotency::IdempotencyStore::mark_processed, (s, key, result), line)
                && *final(s) == *t && k@ == key@ && call_ensures(
                idempotency::IdempotencyStore::get_result,
                (t, k),
                got,
            ) && text::byte_len(key@) + text::byte_len(result@) + 64 <= s.memory_limit()
                ==> got is Some && got->0@ == result@,
        forall|s: &mut idempotency::IdempotencyStore, k: &str, r: bool|
            #![trigger call_ensures(idempotency::IdempotencyStore::is_processed, (s, k), r)]
            call_ensures(idempotency::IdempotencyStore::is_processed, (s, k), r) ==> r
                == s@.results.dom().contains(k@),
{
    assert forall|
        s: &mut idempotency::IdempotencyStore,
        t: &mut idempotency::IdempotencyStore,
        key: String,
        result: String,
        line: Option<String>,
        k: &str,
        got: Option<String>,
    |
        #![trigger call_ensures(
            idempotency::IdempotencyStore::mark_processed,
            (s, key, result),
            line,
        ), call_ensures(idempotency::IdempotencyStore::get_result, (t, k), got)]
        call_ensures(idempotency::IdempotencyStore::mark_processed, (s, key, result), line)
            && *final(s) == *t && k@ == key@ && call_ensures(
            idempotency::IdempotencyStore::get_result,
            (t, k),
            got,
        ) && text::byte_len(key@) + text::byte_len(result@) + 64 <= s.memory_limit() implies got
        is Some && got->0@ == result@ by {
        law_read_back(
            s@,
            s.limit() as int,
            s.memory_limit() as int,
            key@,
            result@,
        );
    }
}

/// A line holds a key, a space and a result; lines are taken in one after the other, a later one for
/// the same key in the place of an earlier one, and a line without a space is passed over.
pub proof fn law_lines_are_taken_in_turn(
    st: StoreState,
    lines: Seq<Seq<char>>,
    line: Seq<char>,
    key: Seq<char>,
    result: Seq<char>,
)
    requires
        line_safe(key, result),
    ensures
        idempotency::loaded_lines(st, Seq::empty()) == st,
        idempotency::loaded_lines(st, lines.push(key + seq![' '] + result)).results
            == idempotency::loaded_lines(st, lines).results.insert(key, result),
        idempotency::loaded_lines(st, lines.push(key + seq![' '] + result)).order == seq![key]
            + idempotency::loaded_lines(st, lines).order,
        idempotency::loaded_lines(st, lines.push(key + seq![' '] + result)).memory
            == idempotency::loaded_lines(st, lines).memory + text::byte_len(key) + text::byte_len(
            result,
        ) + 64,
        idempotency::parsed_line(line) is None ==> idempotency::loaded_lines(st, lines.push(line))
            == idempotency::loaded_lines(st, lines),
{
    law_line_reads_back(key, result);
    assert(lines.push(key + seq![' '] + result).drop_last() =~= lines);
    assert(lines.push(line).drop_last() =~= lines);
}

/// A store that is new or was cleared knows no key and takes no memory, and is as large as it was
/// made.
pub proof fn law_new_store_is_empty(capacity: usize, memory: usize, s: idempotency::IdempotencyStore)
    requires
        call_ensures(idempotency::IdempotencyStore::with_limits, (capacity, memory), s),
    ensures
        forall|key: Seq<char>| !(#[trigger] s@.results.dom().contains(key)),
        s@.memory == 0,
        s.limit() == capacity,
        s.memory_limit() == memory,
        forall|t: &mut idempotency::IdempotencyStore, u: ()|
            #![trigger call_ensures(idempotency::IdempotencyStore::clear, (t,), u)]
            call_ensures(idempotency::IdempotencyStore::clear, (t,), u) ==> {
                &&& forall|key: Seq<char>| !(#[trigger] final(t)@.results.dom().contains(key))
                &&& final(t)@.memory == 0
                &&& final(t).limit() == t.limit()
                &&& final(t).memory_limit() == t.memory_limit()
            },
{
}

} // verus!
