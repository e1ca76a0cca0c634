//! The live weekly schedule: seven day-buckets of conferences, each kept
//! sorted by start time across every mutation.
//!
//! Days are 1-indexed in the public contract, 1 = Monday .. 7 = Sunday.
//! A day outside that range is a caller error, ruled out by `requires`
//! rather than reported.  Sorting is reasserted after every insert or
//! replacement, not maintained incrementally, so a replaced record's
//! position after the call need not equal the index it was written to.

use vstd::prelude::*;
use vstd::seq_lib::group_to_multiset_ensures;
use crate::models::conference::Conference;
use crate::models::time::Time;

verus! {

/// Start-time order: by hour, then by minute.
pub open spec fn time_le(a: Time, b: Time) -> bool {
    a.0 < b.0 || (a.0 == b.0 && a.1 <= b.1)
}

/// Whether a day's conferences are in non-decreasing start-time order.
pub open spec fn day_sorted(s: Seq<Conference>) -> bool {
    forall|i: int, j: int|
        0 <= i <= j < s.len() ==> time_le(#[trigger] s[i].start_time, #[trigger] s[j].start_time)
}

/// Start-time order on two conferences, executably.
fn time_le_exec(a: &Time, b: &Time) -> (r: bool)
    ensures
        r == time_le(*a, *b),
{
    a.0 < b.0 || (a.0 == b.0 && a.1 <= b.1)
}

/// A named weekly schedule of conferences.
#[derive(Debug)]
pub struct Schedule {
    pub name: String,
    pub schedule: Vec<Vec<Conference>>,
}

impl Schedule {
    /// Seven days, each sorted by start time and holding only records
    /// whose times are in range.
    pub open spec fn wf(&self) -> bool {
        &&& self.schedule@.len() == 7
        &&& forall|d: int| 0 <= d < 7 ==> day_sorted(#[trigger] self.schedule@[d]@)
        &&& forall|d: int, i: int|
            0 <= d < 7 && 0 <= i < self.schedule@[d]@.len()
                ==> (#[trigger] self.schedule@[d]@[i]).wf()
    }

    /// The conferences of `day` (1-indexed), as the spec sees them.
    pub open spec fn spec_day(&self, day: int) -> Seq<Conference> {
        self.schedule@[day - 1]@
    }

    pub fn new(name: String) -> (s: Schedule)
        ensures
            s.wf(),
            s.name == name,
            forall|day: int| 1 <= day <= 7 ==> #[trigger] s.spec_day(day).len() == 0,
    {
        let mut days: Vec<Vec<Conference>> = Vec::new();
        let mut i: usize = 0;
        while i < 7
            invariant
                0 <= i <= 7,
                days@.len() == i,
                forall|d: int| 0 <= d < i ==> #[trigger] days@[d]@.len() == 0,
            decreases 7 - i,
        {
            days.push(Vec::new());
            i += 1;
        }
        Schedule { name, schedule: days }
    }

    /// Read-only view of one day, 1-indexed.
    pub fn get_day(&self, day: usize) -> (r: &Vec<Conference>)
        requires
            self.wf(),
            1 <= day <= 7,
        ensures
            r@ == self.spec_day(day as int),
            day_sorted(r@),
    {
        &self.schedule[day - 1]
    }

    /// Replaces the conference at `index` of `day`, then re-sorts the day.
    /// An index past the end of the day is reported as not found and
    /// changes nothing.
    ///
    /// The contract pins the day's records and their start-time order;
    /// where several records share a start time, their relative order is
    /// deliberately left open -- the caller was already told not to rely
    /// on positions surviving an update.
    pub fn update_conference(&mut self, day: usize, index: usize, conference: Conference) -> (r:
        Result<(), String>)
        requires
            old(self).wf(),
            1 <= day <= 7,
            conference.wf(),
        ensures
            final(self).wf(),
            final(self).name == old(self).name,
            r is Ok <==> index < old(self).spec_day(day as int).len(),
            r matches Err(e) ==> e@ == "Conference not found"@ && *final(self) == *old(self),
            r is Ok ==> final(self).spec_day(day as int).to_multiset() == old(self).spec_day(
                day as int,
            ).update(index as int, conference).to_multiset(),
            r is Ok ==> final(self).spec_day(day as int).len() == old(self).spec_day(
                day as int,
            ).len(),
            forall|d: int|
                1 <= d <= 7 && d != day ==> #[trigger] final(self).spec_day(d) == old(self).spec_day(d),
    {
        if index >= self.schedule[day - 1].len() {
            return Err("Conference not found".to_owned());
        }
        let d = day - 1;
        let mut bucket = self.schedule.remove(d);
        bucket[index] = conference;
        let ghost pre_sort = bucket@;
        sort_day(&mut bucket);
        proof {
            lemma_multiset_same_elements(bucket@, pre_sort);
        }
        self.schedule.insert(d, bucket);
        proof {
            assert(self.schedule@ =~= old(self).schedule@.update(
                d as int,
                self.schedule@[d as int],
            ));
        }
        Ok(())
    }

    /// Appends a conference to `day`, then re-sorts the day.
    ///
    /// The contract pins the day's records and their start-time order;
    /// where several records share a start time, their relative order is
    /// deliberately left open.
    pub fn add_conference(&mut self, day: usize, conference: Conference)
        requires
            old(self).wf(),
            1 <= day <= 7,
            conference.wf(),
        ensures
            final(self).wf(),
            final(self).name == old(self).name,
            final(self).spec_day(day as int).to_multiset() == old(self).spec_day(
                day as int,
            ).push(conference).to_multiset(),
            final(self).spec_day(day as int).len() == old(self).spec_day(day as int).len() + 1,
            forall|d: int|
                1 <= d <= 7 && d != day ==> #[trigger] final(self).spec_day(d) == old(self).spec_day(d),
    {
        let d = day - 1;
        let mut bucket = self.schedule.remove(d);
        bucket.push(conference);
        let ghost pre_sort = bucket@;
        sort_day(&mut bucket);
        proof {
            lemma_multiset_same_elements(bucket@, pre_sort);
        }
        self.schedule.insert(d, bucket);
        proof {
            assert(self.schedule@ =~= old(self).schedule@.update(
                d as int,
                self.schedule@[d as int],
            ));
        }
    }

    /// Removes the conference at `index` of `day`.  Removal keeps the
    /// remaining order, so no re-sort is needed.
    pub fn remove_conference(&mut self, day: usize, index: usize)
        requires
            old(self).wf(),
            1 <= day <= 7,
            index < old(self).spec_day(day as int).len(),
        ensures
            final(self).wf(),
            final(self).name == old(self).name,
            final(self).spec_day(day as int) == old(self).spec_day(day as int).remove(
                index as int,
            ),
            forall|d: int|
                1 <= d <= 7 && d != day ==> #[trigger] final(self).spec_day(d) == old(self).spec_day(d),
    {
        self.schedule[day - 1].remove(index);
        proof {
            let s_old = old(self).spec_day(day as int);
            let s_new = self.spec_day(day as int);
            assert forall|i: int, j: int| 0 <= i <= j < s_new.len() implies time_le(
                s_new[i].start_time,
                s_new[j].start_time,
            ) by {
                if j < index {
                    assert(s_new[i] == s_old[i] && s_new[j] == s_old[j]);
                } else if i < index {
                    assert(s_new[i] == s_old[i] && s_new[j] == s_old[j + 1]);
                } else {
                    assert(s_new[i] == s_old[i + 1] && s_new[j] == s_old[j + 1]);
                }
            }
        }
    }

    /// How many conferences each day holds, Monday first: the shape a 2D
    /// selector is rebuilt from after a structural change.
    pub fn get_conference_count_by_day(&self) -> (r: Vec<usize>)
        requires
            self.wf(),
        ensures
            r@.len() == 7,
            forall|d: int| 0 <= d < 7 ==> #[trigger] r@[d] == self.schedule@[d]@.len(),
    {
        let mut counts: Vec<usize> = Vec::new();
        let mut i: usize = 0;
        while i < 7
            invariant
                0 <= i <= 7,
                self.wf(),
                counts@.len() == i,
                forall|d: int| 0 <= d < i ==> #[trigger] counts@[d] == self.schedule@[d]@.len(),
            decreases 7 - i,
        {
            counts.push(self.schedule[i].len());
            i += 1;
        }
        counts
    }
}

/// Two sequences with the same records as a multiset draw every record
/// from one another.
proof fn lemma_multiset_same_elements(a: Seq<Conference>, b: Seq<Conference>)
    requires
        a.to_multiset() == b.to_multiset(),
    ensures
        forall|i: int| 0 <= i < a.len() ==> b.contains(#[trigger] a[i]),
{
    assert forall|i: int| 0 <= i < a.len() implies b.contains(a[i]) by {
        assert(a.contains(a[i]));
        vstd::seq_lib::to_multiset_contains(a, a[i]);
        vstd::seq_lib::to_multiset_contains(b, a[i]);
    }
}

/// Sorts one day in place by start time: insertion sort, each record moved
/// back past every strictly later start.  The result holds exactly the
/// records that went in.
fn sort_day(v: &mut Vec<Conference>)
    ensures
        final(v)@.to_multiset() == old(v)@.to_multiset(),
        final(v)@.len() == old(v)@.len(),
        day_sorted(final(v)@),
{
    broadcast use group_to_multiset_ensures;

    if v.len() <= 1 {
        return ;
    }
    let mut i: usize = 1;
    while i < v.len()
        invariant
            1 <= i <= v@.len(),
            v@.len() == old(v)@.len(),
            v@.to_multiset() == old(v)@.to_multiset(),
            day_sorted(v@.subrange(0, i as int)),
        decreases v@.len() - i,
    {
        let ghost before = v@;
        let c = v.remove(i);
        let ghost mid = v@;
        let mut j: usize = 0;
        while j < i && time_le_exec(&v[j].start_time, &c.start_time)
            invariant
                0 <= j <= i,
                i < before.len(),
                v@ == mid,
                mid == before.remove(i as int),
                day_sorted(before.subrange(0, i as int)),
                forall|k: int|
                    0 <= k < j ==> time_le(#[trigger] mid[k].start_time, c.start_time),
            decreases i - j,
        {
            j += 1;
        }
        v.insert(j, c);
        proof {
            let s_new = v@;
            assert(s_new == mid.insert(j as int, c));
            vstd::seq_lib::to_multiset_remove(before, i as int);
            vstd::seq_lib::to_multiset_insert(mid, j as int, c);
            assert(c == before[i as int]);
            assert(before.to_multiset().count(c) > 0) by {
                vstd::seq_lib::to_multiset_contains(before, c);
                assert(before[i as int] == c);
                assert(before.contains(c));
            }
            assert(s_new.to_multiset() =~= before.to_multiset());
            assert forall|x: int, y: int| 0 <= x <= y < i + 1 implies time_le(
                s_new[x].start_time,
                s_new[y].start_time,
            ) by {
                assert(forall|k: int|
                    0 <= k < i ==> #[trigger] mid[k] == before.subrange(0, i as int)[k]);
                if j < i {
                    assert(!time_le(mid[j as int].start_time, c.start_time));
                    assert(time_le(c.start_time, mid[j as int].start_time));
                }
                if y < j {
                    assert(s_new[x] == mid[x] && s_new[y] == mid[y]);
                } else if x < j && y == j {
                    assert(s_new[x] == mid[x] && s_new[y] == c);
                } else if x < j {
                    assert(s_new[x] == mid[x] && s_new[y] == mid[y - 1]);
                } else if x == j && y == j {
                } else if x == j {
                    assert(s_new[y] == mid[y - 1]);
                    assert(time_le(c.start_time, mid[j as int].start_time) || j == i);
                } else {
                    assert(s_new[x] == mid[x - 1] && s_new[y] == mid[y - 1]);
                }
            }
            assert(day_sorted(s_new.subrange(0, i + 1))) by {
                assert(forall|k: int|
                    0 <= k < i + 1 ==> #[trigger] s_new.subrange(0, i + 1)[k] == s_new[k]);
            }
        }
        i += 1;
    }
    proof {
        assert(v@.subrange(0, v@.len() as int) == v@);
    }
}

} // verus!
