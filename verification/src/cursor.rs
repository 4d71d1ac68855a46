//! Per-seat pointer tracking: the last pointer location of every seat whose
//! pointer is currently inside one mapped window.

use vstd::prelude::*;

use crate::geometry::Point;

verus! {

/// Tracks, per seat, the last pointer location inside one mapped window.
/// An entry exists for a seat exactly while that seat's pointer has entered
/// and not yet left the window.
#[derive(Debug)]
pub struct CursorTracker {
    entries: Vec<(u64, Point)>,
}

/// The map an association list stands for; later entries win.
spec fn entries_map(s: Seq<(u64, Point)>) -> Map<u64, Point>
    decreases s.len(),
{
    if s.len() == 0 {
        Map::empty()
    } else {
        entries_map(s.drop_last()).insert(s.last().0, s.last().1)
    }
}

/// No seat occurs twice in the list.
spec fn unique_seats(s: Seq<(u64, Point)>) -> bool {
    forall|i: int, j: int| 0 <= i < j < s.len() ==> s[i].0 != s[j].0
}

proof fn lemma_entries_map_dom(s: Seq<(u64, Point)>, k: u64)
    ensures
        entries_map(s).contains_key(k) <==> exists|i: int| 0 <= i < s.len() && s[i].0 == k,
    decreases s.len(),
{
    if s.len() == 0 {
    } else {
        lemma_entries_map_dom(s.drop_last(), k);
        if s.last().0 == k {
            assert(s[s.len() - 1].0 == k);
        } else {
            if entries_map(s).contains_key(k) {
                let i = choose|i: int|
                    0 <= i < s.drop_last().len() && s.drop_last()[i].0 == k;
                assert(s[i].0 == k);
            }
            if exists|i: int| 0 <= i < s.len() && s[i].0 == k {
                let i = choose|i: int| 0 <= i < s.len() && s[i].0 == k;
                assert(i != s.len() - 1);
                assert(s.drop_last()[i].0 == k);
            }
        }
    }
}

proof fn lemma_entries_map_at(s: Seq<(u64, Point)>, i: int)
    requires
        unique_seats(s),
        0 <= i < s.len(),
    ensures
        entries_map(s).contains_key(s[i].0),
        entries_map(s)[s[i].0] == s[i].1,
    decreases s.len(),
{
    if i < s.len() - 1 {
        lemma_entries_map_at(s.drop_last(), i);
        assert(s.drop_last()[i] == s[i]);
        assert(s.last().0 != s[i].0);
    }
}

proof fn lemma_entries_map_update(s: Seq<(u64, Point)>, i: int, v: Point)
    requires
        unique_seats(s),
        0 <= i < s.len(),
    ensures
        entries_map(s.update(i, (s[i].0, v))) == entries_map(s).insert(s[i].0, v),
    decreases s.len(),
{
    let k = s[i].0;
    let t = s.update(i, (k, v));
    if i == s.len() - 1 {
        assert(t.drop_last() =~= s.drop_last());
        assert(t.last() == (k, v));
        assert(entries_map(s.drop_last()).insert(k, v) =~= entries_map(s).insert(k, v));
    } else {
        lemma_entries_map_update(s.drop_last(), i, v);
        assert(s.drop_last()[i] == s[i]);
        assert(t.drop_last() =~= s.drop_last().update(i, (k, v)));
        assert(t.last() == s.last());
        assert(s.last().0 != k);
        assert(entries_map(s.drop_last()).insert(k, v).insert(s.last().0, s.last().1)
            =~= entries_map(s.drop_last()).insert(s.last().0, s.last().1).insert(k, v));
    }
}

proof fn lemma_entries_map_remove(s: Seq<(u64, Point)>, i: int)
    requires
        unique_seats(s),
        0 <= i < s.len(),
    ensures
        entries_map(s.remove(i)) == entries_map(s).remove(s[i].0),
    decreases s.len(),
{
    let k = s[i].0;
    if i == s.len() - 1 {
        assert(s.remove(i) =~= s.drop_last());
        lemma_entries_map_dom(s.drop_last(), k);
        assert(forall|j: int| 0 <= j < s.drop_last().len() ==> s.drop_last()[j].0 != k);
        assert(!entries_map(s.drop_last()).contains_key(k));
        assert(entries_map(s.drop_last()) =~= entries_map(s).remove(k));
    } else {
        lemma_entries_map_remove(s.drop_last(), i);
        assert(s.drop_last()[i] == s[i]);
        assert(s.remove(i).drop_last() =~= s.drop_last().remove(i));
        assert(s.remove(i).last() == s.last());
        assert(s.last().0 != k);
        assert(entries_map(s.drop_last()).remove(k).insert(s.last().0, s.last().1)
            =~= entries_map(s.drop_last()).insert(s.last().0, s.last().1).remove(k));
    }
}

impl View for CursorTracker {
    type V = Map<u64, Point>;

    closed spec fn view(&self) -> Map<u64, Point> {
        entries_map(self.entries@)
    }
}

impl CursorTracker {
    /// Internal invariant: each seat has at most one entry.
    pub closed spec fn wf(&self) -> bool {
        unique_seats(self.entries@)
    }

    /// An empty tracker: no seat's pointer is inside the window.
    pub fn new() -> (r: CursorTracker)
        ensures
            r.wf(),
            r@ == Map::<u64, Point>::empty(),
    {
        CursorTracker { entries: Vec::new() }
    }

    /// Records the last pointer location of a seat, replacing any earlier
    /// record for the same seat.
    pub fn insert(&mut self, seat: u64, pos: Point)
        requires
            old(self).wf(),
        ensures
            final(self).wf(),
            final(self)@ == old(self)@.insert(seat, pos),
    {
        let n = self.entries.len();
        let mut i: usize = 0;
        while i < n
            invariant
                *self == *old(self),
                self.wf(),
                n == self.entries@.len(),
                i <= n,
                forall|j: int| 0 <= j < i ==> self.entries@[j].0 != seat,
            decreases n - i,
        {
            if self.entries[i].0 == seat {
                proof {
                    lemma_entries_map_update(self.entries@, i as int, pos);
                }
                self.entries.set(i, (seat, pos));
                assert(forall|a: int, b: int|
                    0 <= a < b < self.entries@.len() ==> self.entries@[a].0 != self.entries@[b].0);
                return ;
            }
            i += 1;
        }
        proof {
            assert(self.entries@.push((seat, pos)).drop_last() =~= self.entries@);
        }
        self.entries.push((seat, pos));
    }

    /// Drops the record for a seat, if there is one.
    pub fn remove(&mut self, seat: u64)
        requires
            old(self).wf(),
        ensures
            final(self).wf(),
            final(self)@ == old(self)@.remove(seat),
    {
        let n = self.entries.len();
        let mut i: usize = 0;
        while i < n
            invariant
                *self == *old(self),
                self.wf(),
                n == self.entries@.len(),
                i <= n,
                forall|j: int| 0 <= j < i ==> self.entries@[j].0 != seat,
            decreases n - i,
        {
            if self.entries[i].0 == seat {
                proof {
                    lemma_entries_map_remove(self.entries@, i as int);
                }
                let ghost pre = self.entries@;
                self.entries.remove(i);
                assert(forall|a: int, b: int|
                    0 <= a < b < self.entries@.len() ==> self.entries@[a].0
                        != self.entries@[b].0) by {
                    assert(forall|a: int| 0 <= a < self.entries@.len() ==> self.entries@[a]
                        == if a < i { pre[a] } else { pre[a + 1] });
                }
                return ;
            }
            i += 1;
        }
        proof {
            lemma_entries_map_dom(self.entries@, seat);
            assert(!self@.contains_key(seat));
            assert(self@.remove(seat) =~= self@);
        }
    }

    /// The last recorded pointer location of a seat, if its pointer is
    /// inside the window.
    pub fn get(&self, seat: u64) -> (r: Option<Point>)
        requires
            self.wf(),
        ensures
            r == if self@.contains_key(seat) {
                Some(self@[seat])
            } else {
                None::<Point>
            },
    {
        let n = self.entries.len();
        let mut i: usize = 0;
        while i < n
            invariant
                n == self.entries@.len(),
                i <= n,
                self.wf(),
                forall|j: int| 0 <= j < i ==> self.entries@[j].0 != seat,
            decreases n - i,
        {
            if self.entries[i].0 == seat {
                proof {
                    lemma_entries_map_at(self.entries@, i as int);
                }
                return Some(self.entries[i].1);
            }
            i += 1;
        }
        proof {
            lemma_entries_map_dom(self.entries@, seat);
        }
        None
    }
}

} // verus!
