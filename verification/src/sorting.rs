//! Sorting of file names and of files by time.

use vstd::prelude::*;

use crate::text::to_chars;

verus! {

/// Whether `a` comes before `b` or is the same, character by character.
pub open spec fn name_le(a: Seq<char>, b: Seq<char>) -> bool
    decreases a.len(),
{
    if a.len() == 0 {
        true
    } else if b.len() == 0 {
        false
    } else if a[0] != b[0] {
        a[0] < b[0]
    } else {
        name_le(a.skip(1), b.skip(1))
    }
}

proof fn lemma_name_total(a: Seq<char>, b: Seq<char>)
    ensures
        name_le(a, b) || name_le(b, a),
    decreases a.len(),
{
    if a.len() > 0 && b.len() > 0 && a[0] == b[0] {
        lemma_name_total(a.skip(1), b.skip(1));
    }
}

proof fn lemma_name_transitive(a: Seq<char>, b: Seq<char>, c: Seq<char>)
    requires
        name_le(a, b),
        name_le(b, c),
    ensures
        name_le(a, c),
    decreases a.len(),
{
    if a.len() > 0 && b.len() > 0 && c.len() > 0 && a[0] == b[0] && b[0] == c[0] {
        lemma_name_transitive(a.skip(1), b.skip(1), c.skip(1));
    }
}

/// The order of names: two names that come before each other are the same.
pub proof fn law_name_order(a: Seq<char>, b: Seq<char>, c: Seq<char>)
    ensures
        name_le(a, b) || name_le(b, a),
        name_le(a, b) && name_le(b, a) ==> a == b,
        name_le(a, b) && name_le(b, c) ==> name_le(a, c),
    decreases a.len(),
{
    lemma_name_total(a, b);
    if name_le(a, b) && name_le(b, a) {
        lemma_name_antisymmetric(a, b);
    }
    if name_le(a, b) && name_le(b, c) {
        lemma_name_transitive(a, b, c);
    }
}

proof fn lemma_name_antisymmetric(a: Seq<char>, b: Seq<char>)
    requires
        name_le(a, b),
        name_le(b, a),
    ensures
        a == b,
    decreases a.len(),
{
    if a.len() == 0 {
        assert(a =~= b);
    } else {
        lemma_name_antisymmetric(a.skip(1), b.skip(1));
        assert(a =~= seq![a[0]] + a.skip(1));
        assert(b =~= seq![b[0]] + b.skip(1));
    }
}

/// Whether `a` comes before `b` or is the same.
pub fn comes_first(a: &str, b: &str) -> (r: bool)
    ensures
        r == name_le(a@, b@),
{
    let x = to_chars(a);
    let y = to_chars(b);
    let mut i: usize = 0;
    assert(x@.skip(0) =~= a@);
    assert(y@.skip(0) =~= b@);
    while i < x.len()
        invariant
            x@ == a@,
            y@ == b@,
            i <= x@.len(),
            i <= y@.len(),
            name_le(a@, b@) == name_le(x@.skip(i as int), y@.skip(i as int)),
        decreases x@.len() - i,
    {
        if i >= y.len() {
            return false;
        }
        if x[i] != y[i] {
            return x[i] < y[i];
        }
        assert(x@.skip(i as int).skip(1) =~= x@.skip(i + 1));
        assert(y@.skip(i as int).skip(1) =~= y@.skip(i + 1));
        i += 1;
    }
    true
}

/// Whether names stand in order.
pub open spec fn names_sorted(s: Seq<Seq<char>>) -> bool {
    forall|i: int, j: int| 0 <= i <= j < s.len() ==> name_le(#[trigger] s[i], #[trigger] s[j])
}

/// The names in order.
pub fn sort_names(names: Vec<String>) -> (sorted: Vec<String>)
    ensures
        names_sorted(crate::text::views(sorted@)),
        crate::text::views(sorted@).to_multiset() == crate::text::views(names@).to_multiset(),
{
    let mut sorted: Vec<String> = Vec::new();
    let mut i: usize = 0;
    let ghost all = crate::text::views(names@);
    assert(all.take(0) =~= crate::text::views(sorted@));
    while i < names.len()
        invariant
            i <= names@.len(),
            all == crate::text::views(names@),
            names_sorted(crate::text::views(sorted@)),
            crate::text::views(sorted@).to_multiset() == all.take(i as int).to_multiset(),
            sorted@.len() == i,
        decreases names@.len() - i,
    {
        let name = names[i].clone();
        let ghost before = crate::text::views(sorted@);
        let ghost x = name@;
        let mut at: usize = sorted.len();
        while at > 0 && !comes_first(sorted[at - 1].as_str(), name.as_str())
            invariant
                at <= sorted@.len(),
                x == name@,
                before == crate::text::views(sorted@),
                names_sorted(before),
                forall|j: int| at <= j < before.len() ==> !name_le(#[trigger] before[j], x),
            decreases at,
        {
            at -= 1;
        }
        sorted.insert(at, name);
        proof {
            let after = crate::text::views(sorted@);
            assert(after =~= before.insert(at as int, x));
            assert forall|a: int, b: int| 0 <= a <= b < after.len() implies name_le(
                #[trigger] after[a],
                #[trigger] after[b],
            ) by {
                lemma_name_total(x, x);
                if a < at && b == at {
                    assert(name_le(before[at - 1], x));
                    assert(name_le(before[a], before[at - 1]));
                    lemma_name_transitive(before[a], before[at - 1], x);
                } else if a < at && b > at {
                    assert(name_le(before[a], before[b - 1]));
                } else if a == at && b > at {
                    assert(!name_le(before[b - 1], x));
                    lemma_name_total(before[b - 1], x);
                } else if a > at {
                    assert(name_le(before[a - 1], before[b - 1]));
                } else if b < at {
                    assert(name_le(before[a], before[b]));
                }
            }
            broadcast use vstd::seq_lib::group_to_multiset_ensures;

            assert(before.insert(at as int, x).remove(at as int) =~= before);
            assert(after.to_multiset().remove(x) == before.to_multiset());
            assert(after.to_multiset() =~= before.to_multiset().insert(x)) by {
                assert(after[at as int] == x);
                assert(after.contains(x));
                assert(after.to_multiset().count(x) > 0);
            }
            assert(all.take(i + 1) =~= all.take(i as int).push(x));
        }
        i += 1;
    }
    assert(all.take(all.len() as int) =~= all);
    sorted
}

/// A file: the second at which it was last changed, and its path.
#[derive(Debug)]
pub struct DatedFile {
    pub modified: u64,
    pub path: String,
    pub size: u64,
}

/// The files of one second, in their order.
pub open spec fn of_second(s: Seq<DatedFile>, second: u64) -> Seq<DatedFile>
    decreases s.len(),
{
    if s.len() == 0 {
        Seq::empty()
    } else if s.last().modified == second {
        of_second(s.drop_last(), second).push(s.last())
    } else {
        of_second(s.drop_last(), second)
    }
}

/// Whether files stand in the order of their times.
pub open spec fn dated_sorted(s: Seq<DatedFile>) -> bool {
    forall|i: int, j: int|
        0 <= i <= j < s.len() ==> (#[trigger] s[i]).modified <= (#[trigger] s[j]).modified
}

proof fn lemma_of_second_add(a: Seq<DatedFile>, b: Seq<DatedFile>, second: u64)
    ensures
        of_second(a + b, second) == of_second(a, second) + of_second(b, second),
    decreases b.len(),
{
    if b.len() == 0 {
        assert(a + b =~= a);
        assert(of_second(a, second) + of_second(b, second) =~= of_second(a, second));
    } else {
        assert((a + b).drop_last() =~= a + b.drop_last());
        lemma_of_second_add(a, b.drop_last(), second);
        assert(of_second(a + b, second) =~= of_second(a, second) + of_second(b, second));
    }
}

proof fn lemma_of_second_none(s: Seq<DatedFile>, second: u64)
    requires
        forall|i: int| 0 <= i < s.len() ==> (#[trigger] s[i]).modified != second,
    ensures
        of_second(s, second) == Seq::<DatedFile>::empty(),
    decreases s.len(),
{
    if s.len() > 0 {
        let t = s.drop_last();
        assert forall|i: int| 0 <= i < t.len() implies (#[trigger] t[i]).modified != second by {
            assert(t[i] == s[i]);
        }
        lemma_of_second_none(t, second);
        assert(s[s.len() - 1].modified != second);
    }
}

proof fn lemma_of_second_insert(s: Seq<DatedFile>, at: int, x: DatedFile, second: u64)
    requires
        0 <= at <= s.len(),
        forall|i: int| at <= i < s.len() ==> (#[trigger] s[i]).modified > x.modified,
    ensures
        of_second(s.insert(at, x), second) == of_second(s.push(x), second),
{
    let p = s.take(at);
    let q = s.skip(at);
    assert(s =~= p + q);
    assert(s.insert(at, x) =~= p + (seq![x] + q));
    lemma_of_second_add(p, seq![x] + q, second);
    lemma_of_second_add(seq![x], q, second);
    lemma_of_second_add(p, q, second);
    assert(s.push(x).drop_last() =~= s);
    assert(seq![x].drop_last() =~= Seq::<DatedFile>::empty());
    assert(of_second(seq![x].drop_last(), second) == Seq::<DatedFile>::empty());
    if x.modified == second {
        assert forall|i: int| 0 <= i < q.len() implies (#[trigger] q[i]).modified != second by {
            assert(q[i] == s[i + at]);
        }
        lemma_of_second_none(q, second);
        assert(of_second(s.insert(at, x), second) =~= of_second(s, second).push(x));
    } else {
        assert(of_second(s.insert(at, x), second) =~= of_second(s, second));
    }
}

/// The files, oldest first. Files of one second keep their order.
pub fn sort_by_time(files: Vec<DatedFile>) -> (sorted: Vec<DatedFile>)
    ensures
        sorted@.len() == files@.len(),
        dated_sorted(sorted@),
        forall|second: u64| #[trigger] of_second(sorted@, second) == of_second(files@, second),
{
    let ghost all = files@;
    let mut rest = files;
    let mut sorted: Vec<DatedFile> = Vec::new();
    let ghost mut done: int = 0;
    assert(all.skip(0) =~= all);
    assert(all.take(0) =~= sorted@);
    while rest.len() > 0
        invariant
            0 <= done <= all.len(),
            rest@ == all.skip(done),
            sorted@.len() == done,
            dated_sorted(sorted@),
            forall|second: u64| #[trigger]
                of_second(sorted@, second) == of_second(all.take(done), second),
        decreases rest@.len(),
    {
        let file = rest.remove(0);
        let ghost x = file;
        let ghost before = sorted@;
        assert(x == all[done]);
        let mut at: usize = sorted.len();
        while at > 0 && sorted[at - 1].modified > file.modified
            invariant
                at <= sorted@.len(),
                x == file,
                before == sorted@,
                dated_sorted(before),
                forall|j: int| at <= j < before.len() ==> (#[trigger] before[j]).modified > x.modified,
            decreases at,
        {
            at -= 1;
        }
        sorted.insert(at, file);
        proof {
            assert(sorted@ =~= before.insert(at as int, x));
            assert forall|a: int, b: int| 0 <= a <= b < sorted@.len() implies (
            #[trigger] sorted@[a]).modified <= (#[trigger] sorted@[b]).modified by {
                if a < at && b >= at {
                    assert(before[a].modified <= before[at - 1].modified);
                    if b > at {
                        assert(before[b - 1].modified > x.modified);
                    }
                } else if a > at {
                    assert(before[a - 1].modified <= before[b - 1].modified);
                } else if a == at && b > at {
                    assert(before[b - 1].modified > x.modified);
                } else if b < at {
                    assert(before[a].modified <= before[b].modified);
                }
            }
            assert forall|second: u64| #[trigger]
                of_second(sorted@, second) == of_second(all.take(done + 1), second) by {
                lemma_of_second_insert(before, at as int, x, second);
                assert(before.push(x).drop_last() =~= before);
                assert(all.take(done + 1).drop_last() =~= all.take(done));
                assert(of_second(before, second) == of_second(all.take(done), second));
            }
            assert(rest@ =~= all.skip(done + 1));
            done = done + 1;
        }
    }
    assert(all.take(all.len() as int) =~= all);
    sorted
}

/// Names are ordered by the first character in which they differ, and a name comes before any that
/// goes on where it ends.
pub proof fn law_first_difference_decides(
    front: Seq<char>,
    a: char,
    b: char,
    x: Seq<char>,
    y: Seq<char>,
)
    requires
        a != b,
    ensures
        name_le(front + (seq![a] + x), front + (seq![b] + y)) <==> a < b,
        name_le(front, front + x),
        x.len() > 0 ==> !name_le(front + x, front),
    decreases front.len(),
{
    let s = front + (seq![a] + x);
    let t = front + (seq![b] + y);
    if front.len() > 0 {
        law_first_difference_decides(front.skip(1), a, b, x, y);
        assert(s.skip(1) =~= front.skip(1) + (seq![a] + x));
        assert(t.skip(1) =~= front.skip(1) + (seq![b] + y));
        assert((front + x).skip(1) =~= front.skip(1) + x);
        assert(s[0] == front[0] && t[0] == front[0]);
        assert((front + x)[0] == front[0]);
    } else {
        assert(s[0] == a && t[0] == b);
    }
}

/// The files of one second are those that were last changed in it, in their order.
pub proof fn law_files_of_a_second(s: Seq<DatedFile>, f: DatedFile, second: u64)
    ensures
        of_second(Seq::empty(), second) == Seq::<DatedFile>::empty(),
        f.modified == second ==> of_second(s.push(f), second) == of_second(s, second).push(f),
        f.modified != second ==> of_second(s.push(f), second) == of_second(s, second),
{
    assert(s.push(f).drop_last() =~= s);
}

/// Files that were sorted stand oldest first, and none is lost or added.
pub proof fn law_sorted_files_are_oldest_first(files: Vec<DatedFile>, sorted: Vec<DatedFile>, i: int)
    requires
        call_ensures(sort_by_time, (files,), sorted),
        0 <= i < sorted@.len() - 1,
    ensures
        sorted@[i].modified <= sorted@[i + 1].modified,
        sorted@.len() == files@.len(),
        forall|second: u64| #[trigger] of_second(sorted@, second) == of_second(files@, second),
{
}

} // verus!
