//! Symbols and the small numbers that stand for them.

use vstd::prelude::*;

use crate::text::{push_u64, str_eq};

verus! {

/// The number of symbols that a registry can hold.
pub const MAX_SYMBOLS: usize = 10_000;

/// The number of a symbol.
#[derive(Debug, Clone, Copy, PartialEq, Eq, Hash, Structural)]
pub struct SymbolId(u16);

impl SymbolId {
    /// The number itself.
    pub closed spec fn raw(self) -> u16 {
        self.0
    }

    pub fn from_raw(id: u16) -> (s: Self)
        ensures
            s.raw() == id,
    {
        SymbolId(id)
    }

    pub fn as_u16(&self) -> (id: u16)
        ensures
            id == self.raw(),
    {
        self.0
    }

    pub fn as_usize(&self) -> (id: usize)
        ensures
            id == self.raw(),
    {
        self.0 as usize
    }

    /// The text form `SymbolId(n)`.
    pub fn to_text(&self) -> (s: String)
        ensures
            s@ == "SymbolId("@ + crate::text::decimal(self.raw() as nat) + seq![')'],
    {
        let mut s = "SymbolId(".to_owned();
        push_u64(&mut s, self.0 as u64);
        s.push(')');
        s
    }

    /// Two numbers are the same symbol exactly if their raw values agree.
    pub proof fn law_equal_by_number(a: SymbolId, b: SymbolId)
        ensures
            (a == b) == (a.raw() == b.raw()),
    {
    }
}

/// The sources of fresh identifiers. Each starts at one.
#[derive(Debug, Clone)]
pub struct IdCounters {
    intent: u64,
    request: u64,
    trace: u64,
}

impl IdCounters {
    /// The next identifiers: of an intent, of a request and of a trace.
    pub closed spec fn upcoming(&self) -> (u64, u64, u64) {
        (self.intent, self.request, self.trace)
    }

    pub fn new() -> (c: Self)
        ensures
            c.upcoming() == (1u64, 1u64, 1u64),
    {
        IdCounters { intent: 1, request: 1, trace: 1 }
    }

    /// The trace identifier that comes next.
    pub fn next_trace(&self) -> (id: u64)
        ensures
            id == self.upcoming().2,
    {
        self.trace
    }
}

/// The successor of `n`; after the largest number comes zero.
pub open spec fn wrapping_next(n: u64) -> u64 {
    if n == u64::MAX {
        0
    } else {
        (n + 1) as u64
    }
}

/// A fresh intent identifier.
pub fn next_intent_id(ids: &mut IdCounters) -> (id: u64)
    ensures
        id == old(ids).upcoming().0,
        final(ids).upcoming() == (
            wrapping_next(old(ids).upcoming().0),
            old(ids).upcoming().1,
            old(ids).upcoming().2,
        ),
{
    let id = ids.intent;
    ids.intent = id.wrapping_add(1);
    id
}

/// A fresh request identifier.
pub fn next_request_id(ids: &mut IdCounters) -> (id: u64)
    ensures
        id == old(ids).upcoming().1,
        final(ids).upcoming() == (
            old(ids).upcoming().0,
            wrapping_next(old(ids).upcoming().1),
            old(ids).upcoming().2,
        ),
{
    let id = ids.request;
    ids.request = id.wrapping_add(1);
    id
}

/// A fresh identifier that follows one tick through all stages.
pub fn next_trace_id(ids: &mut IdCounters) -> (id: u64)
    ensures
        id == old(ids).upcoming().2,
        final(ids).upcoming() == (
            old(ids).upcoming().0,
            old(ids).upcoming().1,
            wrapping_next(old(ids).upcoming().2),
        ),
{
    let id = ids.trace;
    ids.trace = id.wrapping_add(1);
    id
}

/// The symbols that are known, each under its number.
pub struct SymbolRegistry {
    names: Vec<String>,
}

impl View for SymbolRegistry {
    type V = Seq<Seq<char>>;

    /// The symbols in the order of their numbers.
    closed spec fn view(&self) -> Seq<Seq<char>> {
        crate::text::views(self.names@)
    }
}

/// The number of a symbol in a list of symbols.
pub open spec fn number_of(names: Seq<Seq<char>>, symbol: Seq<char>) -> Option<int> {
    if names.contains(symbol) {
        Some(names.index_of(symbol))
    } else {
        None
    }
}

/// The symbol of a number in a list of symbols.
pub open spec fn symbol_of(names: Seq<Seq<char>>, number: int) -> Option<Seq<char>> {
    if 0 <= number < names.len() {
        Some(names[number])
    } else {
        None
    }
}

impl SymbolRegistry {
    /// No symbol has two numbers, and there are not too many.
    pub open spec fn wf(&self) -> bool {
        self@.no_duplicates() && self@.len() <= MAX_SYMBOLS
    }

    pub fn new() -> (r: Self)
        ensures
            r.wf(),
            r@ == Seq::<Seq<char>>::empty(),
    {
        let r = SymbolRegistry { names: Vec::new() };
        assert(r@ =~= Seq::<Seq<char>>::empty());
        r
    }

    /// The number of `symbol`, which is a new one where the symbol is not yet known. A full
    /// registry takes in no new symbol.
    pub fn register(&mut self, symbol: &str) -> (r: Option<SymbolId>)
        requires
            old(self).wf(),
        ensures
            final(self).wf(),
            match r {
                Some(id) => {
                    &&& id.raw() < final(self)@.len()
                    &&& final(self)@[id.raw() as int] == symbol@
                    &&& number_of(final(self)@, symbol@) == Some(id.raw() as int)
                    &&& final(self)@ == (if old(self)@.contains(symbol@) {
                        old(self)@
                    } else {
                        old(self)@.push(symbol@)
                    })
                },
                None => {
                    &&& !old(self)@.contains(symbol@)
                    &&& old(self)@.len() == MAX_SYMBOLS
                    &&& final(self)@ == old(self)@
                },
            },
    {
        match self.lookup(symbol) {
            Some(id) => Some(id),
            None => {
                if self.names.len() >= MAX_SYMBOLS {
                    return None;
                }
                let id = SymbolId(self.names.len() as u16);
                let ghost before = self.names@;
                self.names.push(symbol.to_owned());
                assert(self@ =~= crate::text::views(before).push(symbol@));
                proof {
                    lemma_number(self@, symbol@, id.raw() as int);
                }
                Some(id)
            },
        }
    }

    /// The number of `symbol`.
    pub fn lookup(&self, symbol: &str) -> (r: Option<SymbolId>)
        requires
            self.wf(),
        ensures
            match r {
                Some(id) => id.raw() < self@.len() && self@[id.raw() as int] == symbol@
                    && number_of(self@, symbol@) == Some(id.raw() as int),
                None => !self@.contains(symbol@),
            },
    {
        let mut i: usize = 0;
        while i < self.names.len()
            invariant
                self.wf(),
                i <= self.names@.len(),
                forall|j: int| 0 <= j < i ==> #[trigger] self@[j] != symbol@,
            decreases self.names@.len() - i,
        {
            assert(self@[i as int] == self.names@[i as int]@);
            if str_eq(self.names[i].as_str(), symbol) {
                proof {
                    lemma_number(self@, symbol@, i as int);
                }
                return Some(SymbolId(i as u16));
            }
            i += 1;
        }
        None
    }

    /// The symbol of a number.
    pub fn get_symbol(&self, id: SymbolId) -> (r: Option<&str>)
        ensures
            match r {
                Some(s) => id.raw() < self@.len() && s@ == self@[id.raw() as int],
                None => id.raw() >= self@.len(),
            },
    {
        if id.as_usize() < self.names.len() {
            Some(self.names[id.as_usize()].as_str())
        } else {
            None
        }
    }

    /// The number of known symbols.
    pub fn count(&self) -> (n: usize)
        ensures
            n == self@.len(),
    {
        self.names.len()
    }

    /// Whether `symbol` is known.
    pub fn is_registered(&self, symbol: &str) -> (r: bool)
        requires
            self.wf(),
        ensures
            r == self@.contains(symbol@),
    {
        match self.lookup(symbol) {
            Some(id) => {
                assert(self@[id.raw() as int] == symbol@);
                true
            },
            None => false,
        }
    }

    /// The known symbols, in the order of their numbers. None is repeated.
    pub fn all_symbols(&self) -> (out: Vec<&str>)
        ensures
            out@.len() == self@.len(),
            forall|i: int| 0 <= i < out@.len() ==> (#[trigger] out@[i])@ == self@[i],
            self.wf() ==> forall|i: int, j: int|
                0 <= i < out@.len() && 0 <= j < out@.len() && i != j ==> (#[trigger] out@[i])@ != (
                #[trigger] out@[j])@,
    {
        let mut out: Vec<&str> = Vec::new();
        let mut i: usize = 0;
        while i < self.names.len()
            invariant
                i <= self.names@.len(),
                out@.len() == i,
                forall|j: int| 0 <= j < i ==> (#[trigger] out@[j])@ == self@[j],
            decreases self.names@.len() - i,
        {
            out.push(self.names[i].as_str());
            i += 1;
        }
        out
    }
}

impl Default for SymbolRegistry {
    fn default() -> (r: Self)
        ensures
            r.wf(),
            r@ == Seq::<Seq<char>>::empty(),
    {
        SymbolRegistry::new()
    }
}

/// A symbol keeps its number, whatever else is registered later.
pub proof fn law_numbers_are_stable(before: Seq<Seq<char>>, symbol: Seq<char>, after: Seq<Seq<char>>)
    requires
        after == (if before.contains(symbol) {
            before
        } else {
            before.push(symbol)
        }),
    ensures
        before.len() <= after.len(),
        forall|i: int| 0 <= i < before.len() ==> after[i] == before[i],
{
}

proof fn lemma_number(names: Seq<Seq<char>>, symbol: Seq<char>, i: int)
    requires
        names.no_duplicates(),
        0 <= i < names.len(),
        names[i] == symbol,
    ensures
        number_of(names, symbol) == Some(i),
{
    assert(names.contains(symbol));
    assert(names[names.index_of(symbol)] == symbol);
}

/// The list of symbols after some were registered in turn, starting from none.
pub open spec fn registered(symbols: Seq<Seq<char>>) -> Seq<Seq<char>>
    decreases symbols.len(),
{
    if symbols.len() == 0 {
        Seq::empty()
    } else {
        let before = registered(symbols.drop_last());
        if before.contains(symbols.last()) || before.len() >= MAX_SYMBOLS {
            before
        } else {
            before.push(symbols.last())
        }
    }
}

/// Whatever is registered, no symbol is listed twice, and there are not too many.
pub proof fn law_no_symbol_twice(symbols: Seq<Seq<char>>)
    ensures
        registered(symbols).no_duplicates(),
        registered(symbols).len() <= MAX_SYMBOLS,
    decreases symbols.len(),
{
    if symbols.len() > 0 {
        law_no_symbol_twice(symbols.drop_last());
    }
}

/// Looking up the number of a symbol and the symbol of a number are inverse, and every number below
/// the count has a symbol.
pub proof fn law_numbers_and_symbols_agree(r: &SymbolRegistry, symbol: Seq<char>, number: int)
    requires
        r.wf(),
    ensures
        symbol_of(r@, number) == Some(symbol) <==> number_of(r@, symbol) == Some(number),
        symbol_of(r@, number) is Some <==> 0 <= number < r@.len(),
        number_of(r@, symbol) is Some <==> r@.contains(symbol),
{
    if symbol_of(r@, number) == Some(symbol) {
        lemma_number(r@, symbol, number);
    }
    if r@.contains(symbol) {
        assert(r@[r@.index_of(symbol)] == symbol);
    }
}

/// A symbol has one number only.
pub proof fn law_number_is_unique(r: &SymbolRegistry, i: int, j: int)
    requires
        r.wf(),
        symbol_of(r@, i) is Some,
        symbol_of(r@, i) == symbol_of(r@, j),
    ensures
        i == j,
{
}

/// A table with one optional value for each symbol number.
pub struct SymbolIdArray<T> {
    data: Vec<Option<T>>,
}

impl<T> View for SymbolIdArray<T> {
    type V = Seq<Option<T>>;

    closed spec fn view(&self) -> Seq<Option<T>> {
        self.data@
    }
}

impl<T> SymbolIdArray<T> {
    /// The table has a place for each number that a registry gives out.
    pub open spec fn wf(&self) -> bool {
        self@.len() == MAX_SYMBOLS
    }
}

impl<T: Clone> SymbolIdArray<T> {
    pub fn new() -> (a: Self)
        ensures
            a.wf(),
            a@ == Seq::new(MAX_SYMBOLS as nat, |i: int| None::<T>),
    {
        let mut data: Vec<Option<T>> = Vec::new();
        let mut i: usize = 0;
        while i < MAX_SYMBOLS
            invariant
                i <= MAX_SYMBOLS,
                data@ == Seq::new(i as nat, |j: int| None::<T>),
            decreases MAX_SYMBOLS - i,
        {
            data.push(None);
            i += 1;
            assert(data@ =~= Seq::new(i as nat, |j: int| None::<T>));
        }
        SymbolIdArray { data }
    }

    /// The value of a symbol.
    pub fn get(&self, id: SymbolId) -> (r: Option<&T>)
        ensures
            match r {
                Some(v) => id.raw() < self@.len() && self@[id.raw() as int] == Some(*v),
                None => id.raw() >= self@.len() || self@[id.raw() as int] is None,
            },
    {
        if id.as_usize() < self.data.len() {
            self.data[id.as_usize()].as_ref()
        } else {
            None
        }
    }

    /// Gives a symbol a value; a number outside the table is ignored.
    pub fn set(&mut self, id: SymbolId, value: T)
        ensures
            final(self).wf() == old(self).wf(),
            final(self)@ == (if id.raw() < old(self)@.len() {
                old(self)@.update(id.raw() as int, Some(value))
            } else {
                old(self)@
            }),
    {
        if id.as_usize() < self.data.len() {
            self.data.set(id.as_usize(), Some(value));
        }
    }

    /// Takes out the value of a symbol.
    pub fn remove(&mut self, id: SymbolId) -> (r: Option<T>)
        ensures
            final(self).wf() == old(self).wf(),
            id.raw() < old(self)@.len() ==> r == old(self)@[id.raw() as int] && final(self)@
                == old(self)@.update(id.raw() as int, None),
            id.raw() >= old(self)@.len() ==> r is None && final(self)@ == old(self)@,
    {
        if id.as_usize() < self.data.len() {
            let i = id.as_usize();
            let mut slot: Option<T> = None;
            let ghost before = self.data@;
            std::mem::swap(&mut self.data[i], &mut slot);
            assert(self.data@ =~= before.update(i as int, None));
            slot
        } else {
            None
        }
    }

    /// Takes out all values; the places stay.
    pub fn clear(&mut self)
        ensures
            final(self).wf() == old(self).wf(),
            final(self)@ == Seq::new(old(self)@.len(), |i: int| None::<T>),
    {
        let n: usize = self.data.len();
        let mut i: usize = 0;
        while i < n
            invariant
                i <= n,
                n == self.data@.len(),
                n == old(self)@.len(),
                forall|j: int| 0 <= j < i ==> self.data@[j] is None,
            decreases n - i,
        {
            self.data.set(i, None);
            i += 1;
        }
        assert(self@ =~= Seq::new(n as nat, |j: int| None::<T>));
    }
}

impl<T: Clone> Default for SymbolIdArray<T> {
    fn default() -> (a: Self)
        ensures
            a.wf(),
            a@ == Seq::new(MAX_SYMBOLS as nat, |i: int| None::<T>),
    {
        SymbolIdArray::new()
    }
}

/// What is done with a table.
pub ghost enum TableUse<T> {
    Put { id: SymbolId, value: T },
    Remove { id: SymbolId },
    Clear,
}

/// The table after a use.
pub open spec fn table_used<T>(a: Seq<Option<T>>, u: TableUse<T>) -> Seq<Option<T>> {
    match u {
        TableUse::Put { id, value } => if id.raw() < a.len() {
            a.update(id.raw() as int, Some(value))
        } else {
            a
        },
        TableUse::Remove { id } => if id.raw() < a.len() {
            a.update(id.raw() as int, None)
        } else {
            a
        },
        TableUse::Clear => Seq::new(a.len(), |i: int| None),
    }
}

/// The table after uses in turn, starting from an empty one.
pub open spec fn table_after<T>(uses: Seq<TableUse<T>>) -> Seq<Option<T>>
    decreases uses.len(),
{
    if uses.len() == 0 {
        Seq::new(MAX_SYMBOLS as nat, |i: int| None)
    } else {
        table_used(table_after(uses.drop_last()), uses.last())
    }
}

/// However a table is used, it has all its places; and one that was just cleared is empty at each
/// of them and takes a value at each of them.
pub proof fn law_table_keeps_its_places<T>(uses: Seq<TableUse<T>>, id: SymbolId, value: T)
    requires
        id.raw() < MAX_SYMBOLS,
    ensures
        table_after(uses).len() == MAX_SYMBOLS,
        table_after(uses.push(TableUse::Clear))[id.raw() as int] is None,
        table_after(uses.push(TableUse::Clear).push(TableUse::Put { id, value }))[id.raw() as int]
            == Some(value),
{
    lemma_table_len(uses);
    let cleared = uses.push(TableUse::Clear);
    let set = cleared.push(TableUse::Put { id, value });
    assert(cleared.drop_last() =~= uses);
    assert(set.drop_last() =~= cleared);
}

proof fn lemma_table_len<T>(uses: Seq<TableUse<T>>)
    ensures
        table_after(uses).len() == MAX_SYMBOLS,
    decreases uses.len(),
{
    if uses.len() > 0 {
        lemma_table_len(uses.drop_last());
    }
}

/// Identifiers follow one another: each is one more than the one before, and after the largest they
/// start over.
pub proof fn law_identifiers_follow_one_another(n: u64)
    ensures
        wrapping_next(n) == (n + 1) % 0x1_0000_0000_0000_0000,
        forall|ids: &mut IdCounters, id: u64|
            #![trigger call_ensures(next_intent_id, (ids,), id)]
            call_ensures(next_intent_id, (ids,), id) ==> id == ids.upcoming().0 && (id < u64::MAX
                ==> final(ids).upcoming().0 == id + 1) && final(ids).upcoming().1
                == ids.upcoming().1 && final(ids).upcoming().2 == ids.upcoming().2,
        forall|ids: &mut IdCounters, id: u64|
            #![trigger call_ensures(next_request_id, (ids,), id)]
            call_ensures(next_request_id, (ids,), id) ==> id == ids.upcoming().1 && (id < u64::MAX
                ==> final(ids).upcoming().1 == id + 1) && final(ids).upcoming().0
                == ids.upcoming().0 && final(ids).upcoming().2 == ids.upcoming().2,
        forall|ids: &mut IdCounters, id: u64|
            #![trigger call_ensures(next_trace_id, (ids,), id)]
            call_ensures(next_trace_id, (ids,), id) ==> id == ids.upcoming().2 && (id < u64::MAX
                ==> final(ids).upcoming().2 == id + 1) && final(ids).upcoming().0
                == ids.upcoming().0 && final(ids).upcoming().1 == ids.upcoming().1,
{
}

/// A symbol that was registered is found again under the number that it was given, by its name and
/// by its number, and a new one gets the next free number, from zero on.
pub proof fn law_registered_symbol_is_found()
    ensures
        forall|r: &mut SymbolRegistry, s: &SymbolRegistry, symbol: &str, id: SymbolId, found: Option<SymbolId>|
            #![trigger call_ensures(SymbolRegistry::register, (r, symbol), Some(id)), call_ensures(
                SymbolRegistry::lookup,
                (s, symbol),
                found,
            )]
            call_ensures(SymbolRegistry::register, (r, symbol), Some(id)) && *final(r) == *s
                && call_ensures(SymbolRegistry::lookup, (s, symbol), found) ==> found == Some(id),
        forall|r: &mut SymbolRegistry, s: &SymbolRegistry, symbol: &str, id: SymbolId, name: Option<&str>|
            #![trigger call_ensures(SymbolRegistry::register, (r, symbol), Some(id)), call_ensures(
                SymbolRegistry::get_symbol,
                (s, id),
                name,
            )]
            call_ensures(SymbolRegistry::register, (r, symbol), Some(id)) && *final(r) == *s
                && call_ensures(SymbolRegistry::get_symbol, (s, id), name) ==> name is Some
                && name->0@ == symbol@,
        forall|r: &mut SymbolRegistry, symbol: &str, id: SymbolId|
            #![trigger call_ensures(SymbolRegistry::register, (r, symbol), Some(id))]
            call_ensures(SymbolRegistry::register, (r, symbol), Some(id)) && !r@.contains(symbol@)
                ==> id.raw() == r@.len() && final(r)@.len() == r@.len() + 1,
        forall|r: &mut SymbolRegistry, symbol: &str|
            #![trigger call_ensures(SymbolRegistry::register, (r, symbol), None)]
            call_ensures(SymbolRegistry::register, (r, symbol), None) ==> r@.len() == 10_000,
{
    assert forall|
        r: &mut SymbolRegistry,
        s: &SymbolRegistry,
        symbol: &str,
        id: SymbolId,
        found: Option<SymbolId>,
    |
        #![trigger call_ensures(SymbolRegistry::register, (r, symbol), Some(id)), call_ensures(
            SymbolRegistry::lookup,
            (s, symbol),
            found,
        )]
        call_ensures(SymbolRegistry::register, (r, symbol), Some(id)) && *final(r) == *s
            && call_ensures(SymbolRegistry::lookup, (s, symbol), found) implies found == Some(id) by {
        assert(s@[id.raw() as int] == symbol@);
        assert(s@.contains(symbol@));
    }
    assert forall|r: &mut SymbolRegistry, symbol: &str, id: SymbolId|
        #![trigger call_ensures(SymbolRegistry::register, (r, symbol), Some(id))]
        call_ensures(SymbolRegistry::register, (r, symbol), Some(id)) && !r@.contains(
            symbol@,
        ) implies id.raw() == r@.len() && final(r)@.len() == r@.len() + 1 by {
        if id.raw() < r@.len() {
            assert(r@[id.raw() as int] == symbol@);
        }
    }
}

/// What is put at the place of a symbol is read there and nowhere else, until it is taken out; other
/// places keep what they hold.
pub proof fn law_places_hold_their_values<T: Clone>(id: SymbolId, value: T, other: int)
    ensures
        forall|a: &mut SymbolIdArray<T>, u: ()|
            #![trigger call_ensures(SymbolIdArray::<T>::set, (a, id, value), u)]
            call_ensures(SymbolIdArray::<T>::set, (a, id, value), u) ==> {
                &&& final(a)@.len() == a@.len()
                &&& id.raw() < a@.len() ==> final(a)@[id.raw() as int] == Some(value)
                &&& 0 <= other < a@.len() && other != id.raw() ==> final(a)@[other] == a@[other]
            },
        forall|a: &mut SymbolIdArray<T>, r: Option<T>|
            #![trigger call_ensures(SymbolIdArray::<T>::remove, (a, id), r)]
            call_ensures(SymbolIdArray::<T>::remove, (a, id), r) ==> {
                &&& final(a)@.len() == a@.len()
                &&& id.raw() < a@.len() ==> r == a@[id.raw() as int] && final(a)@[id.raw() as int] is None
                &&& id.raw() >= a@.len() ==> r is None
                &&& 0 <= other < a@.len() && other != id.raw() ==> final(a)@[other] == a@[other]
            },
        forall|a: &mut SymbolIdArray<T>, u: ()|
            #![trigger call_ensures(SymbolIdArray::<T>::clear, (a,), u)]
            call_ensures(SymbolIdArray::<T>::clear, (a,), u) ==> final(a)@.len() == a@.len() && (0
                <= other < a@.len() ==> final(a)@[other] is None),
        forall|a: &SymbolIdArray<T>, r: Option<&T>|
            #![trigger call_ensures(SymbolIdArray::<T>::get, (a, id), r)]
            call_ensures(SymbolIdArray::<T>::get, (a, id), r) && id.raw() < a@.len() ==> {
                &&& r is Some <==> a@[id.raw() as int] is Some
                &&& r is Some ==> *r->0 == a@[id.raw() as int]->0
            },
{
}

} // verus!
