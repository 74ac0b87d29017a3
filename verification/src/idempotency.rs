//! A bounded store of processed keys and their results, with least-recently-used eviction.

use std::collections::VecDeque;
use vstd::prelude::*;
use vstd::string::StringExecFns;

use crate::str_map::StrMap;
use crate::text::{lines, splitn, str_byte_len, str_eq, trim};

verus! {

pub const DEFAULT_CAPACITY: usize = 100_000;

pub const DEFAULT_MAX_MEMORY_BYTES: usize = 8_388_608;

/// What a store holds.
#[verifier::ext_equal]
pub struct StoreState {
    /// The result of each processed key.
    pub results: Map<Seq<char>, Seq<char>>,
    /// The keys in the order of their last use, the most recent one first.
    pub order: Seq<Seq<char>>,
    /// The estimated memory of the entries.
    pub memory: int,
}

/// The estimated memory of one entry: both texts and a fixed overhead.
pub open spec fn entry_bytes(key: Seq<char>, result: Seq<char>) -> int {
    crate::text::byte_len(key) as int + crate::text::byte_len(result) as int + 64
}

pub open spec fn sat_sub(a: int, b: int) -> int {
    if a >= b {
        a - b
    } else {
        0
    }
}

/// Whether the state with `slots` more entries of `bytes` in all exceeds a limit.
pub open spec fn over_limit(
    st: StoreState,
    capacity: int,
    max_memory: int,
    slots: int,
    bytes: int,
) -> bool {
    st.results.dom().len() + slots > capacity || st.memory + bytes > max_memory
}

/// The state without the entry that was used least recently.
pub open spec fn evict_one(st: StoreState) -> StoreState {
    let key = st.order.last();
    StoreState {
        results: st.results.remove(key),
        order: st.order.drop_last(),
        memory: if st.results.dom().contains(key) {
            sat_sub(st.memory, entry_bytes(key, st.results[key]))
        } else {
            st.memory
        },
    }
}

/// The state after entries were evicted, least recently used first, until the limits hold for
/// `slots` more entries of `bytes` in all, or no key is left.
pub open spec fn evicted(
    st: StoreState,
    capacity: int,
    max_memory: int,
    slots: int,
    bytes: int,
) -> StoreState
    decreases st.order.len(),
{
    if over_limit(st, capacity, max_memory, slots, bytes) && st.order.len() > 0 {
        evicted(evict_one(st), capacity, max_memory, slots, bytes)
    } else {
        st
    }
}

/// `a` without the first occurrence of `x`.
pub open spec fn without_first(a: Seq<Seq<char>>, x: Seq<char>) -> Seq<Seq<char>>
    decreases a.len(),
{
    if a.len() == 0 {
        a
    } else if a[0] == x {
        a.skip(1)
    } else {
        seq![a[0]] + without_first(a.skip(1), x)
    }
}

/// The state after a processed key was looked up: the key becomes the most recent one, and the
/// limits are enforced.
pub open spec fn touched(
    st: StoreState,
    capacity: int,
    max_memory: int,
    key: Seq<char>,
) -> StoreState {
    evicted(
        StoreState { order: seq![key] + without_first(st.order, key), ..st },
        capacity,
        max_memory,
        0,
        0,
    )
}

/// The state without `key`.
pub open spec fn forgotten(st: StoreState, key: Seq<char>) -> StoreState {
    if st.results.dom().contains(key) {
        StoreState {
            results: st.results.remove(key),
            order: crate::str_map::without(st.order, key),
            memory: sat_sub(st.memory, entry_bytes(key, st.results[key])),
        }
    } else {
        st
    }
}

/// The state after `key` was processed with `result`. Room is made first; an entry that alone
/// exceeds the memory limit is not kept.
pub open spec fn marked(
    st: StoreState,
    capacity: int,
    max_memory: int,
    key: Seq<char>,
    result: Seq<char>,
) -> StoreState {
    let bytes = entry_bytes(key, result);
    let room = evicted(forgotten(st, key), capacity, max_memory, 1, bytes);
    if bytes > max_memory {
        room
    } else {
        StoreState {
            results: room.results.insert(key, result),
            order: seq![key] + room.order,
            memory: room.memory + bytes,
        }
    }
}

/// Whether the estimated memory stays a machine number when an entry is recorded. Where the memory
/// is that of the entries, as it is in a store that was filled by recording alone, eviction sees to
/// it.
pub open spec fn has_room(st: StoreState, key: Seq<char>, result: Seq<char>) -> bool {
    &&& entry_bytes(key, result) <= usize::MAX
    &&& crate::idempotency_laws::consistent(st) || st.memory + entry_bytes(key, result)
        <= usize::MAX
}

/// The line that keeps an entry in a file.
pub open spec fn entry_line(key: Seq<char>, result: Seq<char>) -> Seq<char> {
    key + seq![' '] + result
}

/// The entry that a line of a file holds: a key and, after the first space, a result.
pub open spec fn parsed_line(line: Seq<char>) -> Option<(Seq<char>, Seq<char>)> {
    let parts = crate::text::split_parts(crate::text::trimmed(line), 2, ' ');
    if crate::text::trimmed(line).len() > 0 && parts.len() == 2 {
        Some((parts[0], parts[1]))
    } else {
        None
    }
}

/// The state after one line of a file was read in.
pub open spec fn loaded_line(st: StoreState, line: Seq<char>) -> StoreState {
    match parsed_line(line) {
        Some((key, result)) => StoreState {
            results: st.results.insert(key, result),
            order: seq![key] + st.order,
            memory: st.memory + entry_bytes(key, result),
        },
        None => st,
    }
}

/// The state after the lines of a file were read in.
pub open spec fn loaded_lines(st: StoreState, ls: Seq<Seq<char>>) -> StoreState
    decreases ls.len(),
{
    if ls.len() == 0 {
        st
    } else {
        loaded_line(loaded_lines(st, ls.drop_last()), ls.last())
    }
}

/// The state of a store of the given limits that was read in from the text of a file.
pub open spec fn loaded(
    st: StoreState,
    capacity: int,
    max_memory: int,
    content: Seq<char>,
) -> StoreState {
    evicted(loaded_lines(st, crate::text::text_lines(content)), capacity, max_memory, 0, 0)
}

/// The store.
pub struct IdempotencyStore {
    processed: StrMap<String>,
    access_order: VecDeque<String>,
    capacity: usize,
    max_memory_bytes: usize,
    current_memory_bytes: usize,
}

/// The views of the values of a map.
pub open spec fn text_values(m: Map<Seq<char>, String>) -> Map<Seq<char>, Seq<char>> {
    Map::new(|k: Seq<char>| m.dom().contains(k), |k: Seq<char>| m[k]@)
}

impl View for IdempotencyStore {
    type V = StoreState;

    closed spec fn view(&self) -> StoreState {
        StoreState {
            results: text_values(self.processed@),
            order: crate::text::views(self.access_order@),
            memory: self.current_memory_bytes as int,
        }
    }
}

/// The estimated memory of one entry.
pub fn estimated_bytes_for(key: &str, result: &str) -> (n: usize)
    requires
        entry_bytes(key@, result@) <= usize::MAX,
    ensures
        n == entry_bytes(key@, result@),
{
    str_byte_len(key) + str_byte_len(result) + 64
}

impl IdempotencyStore {
    /// Each key occurs once, and each entry's estimated memory is a machine number.
    pub closed spec fn wf(&self) -> bool {
        &&& self.processed.wf()
        &&& forall|k: Seq<char>|
            self@.results.dom().contains(k) ==> #[trigger] entry_bytes(k, self@.results[k])
                <= usize::MAX
    }

    /// The number of entries that the store may hold.
    pub closed spec fn limit(&self) -> usize {
        self.capacity
    }

    /// The memory that the entries may take up.
    pub closed spec fn memory_limit(&self) -> usize {
        self.max_memory_bytes
    }

    /// An empty store with the default limits.
    pub fn new() -> (s: Self)
        ensures
            s.wf(),
            s@ == empty_state(),
            s.limit() == DEFAULT_CAPACITY,
            s.memory_limit() == DEFAULT_MAX_MEMORY_BYTES,
    {
        Self::with_limits(DEFAULT_CAPACITY, DEFAULT_MAX_MEMORY_BYTES)
    }

    /// An empty store for `capacity` entries.
    pub fn with_capacity(capacity: usize) -> (s: Self)
        ensures
            s.wf(),
            s@ == empty_state(),
            s.limit() == capacity,
            s.memory_limit() == DEFAULT_MAX_MEMORY_BYTES,
    {
        Self::with_limits(capacity, DEFAULT_MAX_MEMORY_BYTES)
    }

    /// An empty store for `capacity` entries of `max_memory_bytes` in all.
    pub fn with_limits(capacity: usize, max_memory_bytes: usize) -> (s: Self)
        ensures
            s.wf(),
            s@ == empty_state(),
            s.limit() == capacity,
            s.memory_limit() == max_memory_bytes,
    {
        let s = IdempotencyStore {
            processed: StrMap::new(),
            access_order: VecDeque::new(),
            capacity,
            max_memory_bytes,
            current_memory_bytes: 0,
        };
        assert(s@ =~= empty_state());
        s
    }

    fn evict_until_under_cap(&mut self, reserve_slots: usize, reserve_bytes: usize)
        requires
            old(self).wf(),
        ensures
            final(self).wf(),
            final(self).limit() == old(self).limit(),
            final(self).memory_limit() == old(self).memory_limit(),
            final(self)@ == evicted(
                old(self)@,
                old(self).limit() as int,
                old(self).memory_limit() as int,
                reserve_slots as int,
                reserve_bytes as int,
            ),
    {
        let ghost cap = self.capacity as int;
        let ghost max = self.max_memory_bytes as int;
        proof {
            self.lemma_result_count();
        }
        while (self.processed.len() as u128 + reserve_slots as u128 > self.capacity as u128
            || self.current_memory_bytes as u128 + reserve_bytes as u128
            > self.max_memory_bytes as u128) && self.access_order.len() > 0
            invariant
                self.wf(),
                self.capacity == cap,
                self.max_memory_bytes == max,
                cap == old(self).limit(),
                max == old(self).memory_limit(),
                self@.results.dom().len() == self.processed@.dom().len(),
                evicted(self@, cap, max, reserve_slots as int, reserve_bytes as int) == evicted(
                    old(self)@,
                    cap,
                    max,
                    reserve_slots as int,
                    reserve_bytes as int,
                ),
            decreases self.access_order@.len(),
        {
            let ghost before = *self;
            match self.access_order.pop_back() {
                Some(lru_key) => {
                    proof {
                        assert(before@.order.last() == lru_key@);
                        assert(crate::text::views(self.access_order@) =~= before@.order.drop_last());
                    }
                    match self.processed.remove(lru_key.as_str()) {
                        Some(result) => {
                            proof {
                                assert(before@.results.dom().contains(lru_key@));
                                assert(before@.results[lru_key@] == result@);
                            }
                            self.current_memory_bytes = self.current_memory_bytes.saturating_sub(
                                estimated_bytes_for(lru_key.as_str(), result.as_str()),
                            );
                        },
                        None => {},
                    }
                    proof {
                        assert(self@ =~= evict_one(before@));
                        self.lemma_result_count();
                    }
                },
                None => {},
            }
        }
    }

    proof fn lemma_result_count(&self)
        requires
            self.wf(),
        ensures
            self@.results.dom().len() == self.processed@.dom().len(),
    {
        assert(self@.results.dom() =~= self.processed@.dom());
    }

    fn touch(&mut self, key: &str)
        requires
            old(self).wf(),
            old(self)@.results.dom().contains(key@),
        ensures
            final(self).wf(),
            final(self).limit() == old(self).limit(),
            final(self).memory_limit() == old(self).memory_limit(),
            final(self)@ == touched(
                old(self)@,
                old(self).limit() as int,
                old(self).memory_limit() as int,
                key@,
            ),
    {
        let ghost order = self@.order;
        let mut i: usize = 0;
        while i < self.access_order.len() && !str_eq(self.access_order[i].as_str(), key)
            invariant
                *self == *old(self),
                order == self@.order,
                i <= self.access_order@.len(),
                forall|j: int| 0 <= j < i ==> order[j] != key@,
            decreases self.access_order@.len() - i,
        {
            assert(order[i as int] == self.access_order@[i as int]@);
            i += 1;
        }
        proof {
            lemma_without_first(order, key@, i as int);
        }
        if i < self.access_order.len() {
            assert(order[i as int] == self.access_order@[i as int]@);
            let _gone = self.access_order.remove(i);
            assert(crate::text::views(self.access_order@) =~= order.remove(i as int));
        }
        let ghost rest = crate::text::views(self.access_order@);
        self.access_order.push_front(key.to_owned());
        proof {
            assert(crate::text::views(self.access_order@) =~= seq![key@] + rest);
            assert(self@ =~= (StoreState {
                order: seq![key@] + without_first(order, key@),
                ..old(self)@
            }));
        }
        self.evict_until_under_cap(0, 0);
    }

    /// Whether `key` was processed. A key that was becomes the most recent one.
    pub fn is_processed(&mut self, key: &str) -> (r: bool)
        requires
            old(self).wf(),
        ensures
            final(self).wf(),
            final(self).limit() == old(self).limit(),
            final(self).memory_limit() == old(self).memory_limit(),
            r == old(self)@.results.dom().contains(key@),
            final(self)@ == (if r {
                touched(
                    old(self)@,
                    old(self).limit() as int,
                    old(self).memory_limit() as int,
                    key@,
                )
            } else {
                old(self)@
            }),
    {
        if !self.processed.contains_key(key) {
            return false;
        }
        self.touch(key);
        true
    }

    /// The result of `key`. A key that was processed becomes the most recent one.
    pub fn get_result(&mut self, key: &str) -> (r: Option<String>)
        requires
            old(self).wf(),
        ensures
            final(self).wf(),
            final(self).limit() == old(self).limit(),
            final(self).memory_limit() == old(self).memory_limit(),
            match r {
                Some(s) => old(self)@.results.dom().contains(key@) && s@ == old(self)@.results[key@]
                    && final(self)@ == touched(
                    old(self)@,
                    old(self).limit() as int,
                    old(self).memory_limit() as int,
                    key@,
                ),
                None => !old(self)@.results.dom().contains(key@) && final(self)@ == old(self)@,
            },
    {
        let result = match self.processed.get(key) {
            Some(s) => s.clone(),
            None => {
                return None;
            },
        };
        self.touch(key);
        Some(result)
    }

    /// Records that `key` was processed with `result`, and returns the line that keeps the entry
    /// in a file. An entry that alone exceeds the memory limit is not kept and has no line.
    pub fn mark_processed(&mut self, key: String, result: String) -> (line: Option<String>)
        requires
            old(self).wf(),
            has_room(old(self)@, key@, result@),
        ensures
            final(self).wf(),
            final(self).limit() == old(self).limit(),
            final(self).memory_limit() == old(self).memory_limit(),
            final(self)@ == marked(
                old(self)@,
                old(self).limit() as int,
                old(self).memory_limit() as int,
                key@,
                result@,
            ),
            match line {
                Some(l) => entry_bytes(key@, result@) <= old(self).memory_limit() && l@
                    == entry_line(key@, result@),
                None => entry_bytes(key@, result@) > old(self).memory_limit(),
            },
    {
        let ghost cap = self.capacity as int;
        let ghost max = self.max_memory_bytes as int;
        let ghost before = *self;
        match self.processed.remove(key.as_str()) {
            Some(existing) => {
                assert(before@.results.dom().contains(key@));
                assert(before@.results[key@] == existing@);
                self.current_memory_bytes = self.current_memory_bytes.saturating_sub(
                    estimated_bytes_for(key.as_str(), existing.as_str()),
                );
                self.drop_from_order(key.as_str());
            },
            None => {},
        }
        proof {
            assert(self@ =~= forgotten(before@, key@));
            lemma_evicted_memory(self@, cap, max, 1, entry_bytes(key@, result@));
        }
        let new_entry_bytes = estimated_bytes_for(key.as_str(), result.as_str());
        self.evict_until_under_cap(1, new_entry_bytes);
        let ghost room = *self;
        if new_entry_bytes > self.max_memory_bytes {
            return None;
        }
        proof {
            if crate::idempotency_laws::consistent(before@) {
                crate::idempotency_laws::law_mark_respects_memory(
                    before@,
                    cap,
                    max,
                    key@,
                    result@,
                );
            }
        }
        let mut line = key.clone();
        line.push(' ');
        line.append(result.as_str());
        assert(line@ =~= entry_line(key@, result@));
        let ghost k = key@;
        let ghost r = result@;
        self.access_order.push_front(key.clone());
        self.processed.insert(key, result);
        self.current_memory_bytes = self.current_memory_bytes + new_entry_bytes;
        proof {
            assert(crate::text::views(self.access_order@) =~= seq![k] + room@.order);
            assert(self@.results =~= room@.results.insert(k, r));
            assert(self@ =~= marked(before@, cap, max, k, r));
        }
        Some(line)
    }

    fn drop_from_order(&mut self, key: &str)
        requires
            old(self).processed.wf(),
        ensures
            final(self).processed == old(self).processed,
            final(self).capacity == old(self).capacity,
            final(self).max_memory_bytes == old(self).max_memory_bytes,
            final(self).current_memory_bytes == old(self).current_memory_bytes,
            crate::text::views(final(self).access_order@)
                == crate::str_map::without(crate::text::views(old(self).access_order@), key@),
    {
        let mut kept: VecDeque<String> = VecDeque::new();
        let mut i: usize = 0;
        let ghost order = crate::text::views(self.access_order@);
        assert(crate::text::views(kept@) =~= crate::str_map::without(order.take(0), key@));
        while i < self.access_order.len()
            invariant
                *self == *old(self),
                order == crate::text::views(self.access_order@),
                i <= self.access_order@.len(),
                crate::text::views(kept@) == crate::str_map::without(order.take(i as int), key@),
            decreases self.access_order@.len() - i,
        {
            let ghost k0 = kept@;
            proof {
                assert(order.take(i + 1).drop_last() =~= order.take(i as int));
                assert(order.take(i + 1).last() == self.access_order@[i as int]@);
            }
            if !str_eq(self.access_order[i].as_str(), key) {
                kept.push_back(self.access_order[i].clone());
                assert(crate::text::views(kept@) =~= crate::text::views(k0).push(order[i as int]));
            }
            i += 1;
        }
        assert(order.take(i as int) =~= order);
        self.access_order = kept;
    }

    /// A store for `capacity` entries, read in from the text of a file.
    pub fn with_content(capacity: usize, content: &str) -> (s: Self)
        requires
            loaded_lines(empty_state(), crate::text::text_lines(content@)).memory <= usize::MAX,
        ensures
            s.wf(),
            s.limit() == capacity,
            s.memory_limit() == DEFAULT_MAX_MEMORY_BYTES,
            s@ == loaded(
                empty_state(),
                capacity as int,
                DEFAULT_MAX_MEMORY_BYTES as int,
                content@,
            ),
    {
        let mut s = Self::with_capacity(capacity);
        s.load_content(content);
        s
    }

    fn load_content(&mut self, content: &str)
        requires
            old(self).wf(),
            loaded_lines(old(self)@, crate::text::text_lines(content@)).memory <= usize::MAX,
        ensures
            final(self).wf(),
            final(self).limit() == old(self).limit(),
            final(self).memory_limit() == old(self).memory_limit(),
            final(self)@ == loaded(
                old(self)@,
                old(self).limit() as int,
                old(self).memory_limit() as int,
                content@,
            ),
    {
        let all = lines(content);
        let ghost ls = crate::text::views(all@);
        let mut i: usize = 0;
        assert(ls.take(0) =~= Seq::<Seq<char>>::empty());
        while i < all.len()
            invariant
                self.wf(),
                self.limit() == old(self).limit(),
                self.memory_limit() == old(self).memory_limit(),
                ls == crate::text::views(all@),
                i <= all@.len(),
                self@ == loaded_lines(old(self)@, ls.take(i as int)),
                loaded_lines(old(self)@, ls).memory <= usize::MAX,
            decreases all@.len() - i,
        {
            let ghost before = *self;
            proof {
                assert(ls.take(i + 1).drop_last() =~= ls.take(i as int));
                assert(ls.take(i + 1).last() == all@[i as int]@);
                lemma_loaded_memory(old(self)@, ls, i + 1);
            }
            let line = trim(all[i].as_str());
            let parts = splitn(line.as_str(), 2, ' ');
            proof {
                assert(crate::text::views(parts@).len() == parts@.len());
            }
            if !line.as_str().is_empty() && parts.len() == 2 {
                let key = parts[0].clone();
                let result = parts[1].clone();
                assert(crate::text::views(parts@)[0] == key@);
                assert(crate::text::views(parts@)[1] == result@);
                let ghost k = key@;
                let ghost r = result@;
                let bytes = estimated_bytes_for(key.as_str(), result.as_str());
                self.current_memory_bytes = self.current_memory_bytes + bytes;
                self.access_order.push_front(key.clone());
                self.processed.insert(key, result);
                proof {
                    assert(crate::text::views(self.access_order@) =~= seq![k] + before@.order);
                    assert(self@.results =~= before@.results.insert(k, r));
                    assert(self@ =~= loaded_line(before@, all@[i as int]@));
                }
            }
            i += 1;
        }
        assert(ls.take(i as int) =~= ls);
        self.evict_until_under_cap(0, 0);
    }

    /// The number of entries.
    pub fn len(&self) -> (n: usize)
        requires
            self.wf(),
        ensures
            n == self@.results.dom().len(),
    {
        proof {
            self.lemma_result_count();
        }
        self.processed.len()
    }

    /// Whether there is no entry.
    pub fn is_empty(&self) -> (r: bool)
        requires
            self.wf(),
        ensures
            r == (self@.results.dom().len() == 0),
    {
        self.len() == 0
    }

    pub fn capacity(&self) -> (n: usize)
        ensures
            n == self.limit(),
    {
        self.capacity
    }

    pub fn memory_usage_bytes(&self) -> (n: usize)
        ensures
            n == self@.memory,
    {
        self.current_memory_bytes
    }

    pub fn memory_limit_bytes(&self) -> (n: usize)
        ensures
            n == self.memory_limit(),
    {
        self.max_memory_bytes
    }

    /// Forgets all entries.
    pub fn clear(&mut self)
        requires
            old(self).wf(),
        ensures
            final(self).wf(),
            final(self)@ == empty_state(),
            final(self).limit() == old(self).limit(),
            final(self).memory_limit() == old(self).memory_limit(),
    {
        self.processed.clear();
        self.access_order.clear();
        self.current_memory_bytes = 0;
        assert(self@ =~= empty_state());
    }
}

/// The state without any entry.
pub open spec fn empty_state() -> StoreState {
    StoreState { results: Map::empty(), order: Seq::empty(), memory: 0 }
}

/// Evicting never adds to the memory.
proof fn lemma_evicted_memory(
    st: StoreState,
    capacity: int,
    max_memory: int,
    slots: int,
    bytes: int,
)
    requires
        st.memory >= 0,
    ensures
        0 <= evicted(st, capacity, max_memory, slots, bytes).memory <= st.memory,
    decreases st.order.len(),
{
    if over_limit(st, capacity, max_memory, slots, bytes) && st.order.len() > 0 {
        lemma_evicted_memory(evict_one(st), capacity, max_memory, slots, bytes);
    }
}

/// Reading lines in only adds to the memory.
proof fn lemma_loaded_memory(st: StoreState, ls: Seq<Seq<char>>, n: int)
    requires
        st.memory >= 0,
        0 <= n <= ls.len(),
    ensures
        0 <= loaded_lines(st, ls.take(n)).memory <= loaded_lines(st, ls).memory,
    decreases ls.len(),
{
    if n == ls.len() {
        assert(ls.take(n) =~= ls);
        if ls.len() > 0 {
            lemma_loaded_memory(st, ls.drop_last(), n - 1);
        }
    } else {
        let b = ls.drop_last();
        assert(b.take(n) =~= ls.take(n));
        lemma_loaded_memory(st, b, n);
    }
}

proof fn lemma_without_first(a: Seq<Seq<char>>, x: Seq<char>, i: int)
    requires
        0 <= i <= a.len(),
        forall|j: int| 0 <= j < i ==> a[j] != x,
        i < a.len() ==> a[i] == x,
    ensures
        without_first(a, x) == (if i < a.len() {
            a.remove(i)
        } else {
            a
        }),
    decreases a.len(),
{
    if a.len() > 0 {
        if i == 0 {
            assert(a.remove(0) =~= a.skip(1));
        } else {
            let b = a.skip(1);
            assert forall|j: int| 0 <= j < i - 1 implies b[j] != x by {
                assert(b[j] == a[j + 1]);
            }
            lemma_without_first(b, x, i - 1);
            if i < a.len() {
                assert(a.remove(i) =~= seq![a[0]] + b.remove(i - 1));
            } else {
                assert(a =~= seq![a[0]] + b);
            }
        }
    }
}

} // verus!
