//! The event heap: a min-priority queue of pending tasks, ordered by
//! `(scheduled_time, event_id)` so that the earliest event, with ties broken
//! by identifier, is always released first.
//!
//! The queue is kept as a vector sorted in ascending heap order; the head is
//! the minimum.

use crate::event::SimEvent;
use crate::task::{event_le, event_le_exec, heap_events, Task};
use vstd::prelude::*;

verus! {

/// Whether a sequence of events is in ascending heap order.
pub open spec fn sorted_events(s: Seq<SimEvent>) -> bool {
    forall|i: int, j: int| 0 <= i < j < s.len() ==> event_le(s[i], s[j])
}

/// Min-priority queue of pending tasks.
pub struct TaskQueue {
    v: Vec<Task>,
}

impl TaskQueue {
    /// The pending tasks, in heap order.
    pub closed spec fn tasks(&self) -> Seq<Task> {
        self.v@
    }

    /// The pending events, in heap order: the earliest is first.
    pub open spec fn events(&self) -> Seq<SimEvent> {
        heap_events(self.tasks())
    }

    /// The queue's invariant: its contents are sorted in heap order.
    pub open spec fn wf(&self) -> bool {
        sorted_events(self.events())
    }

    /// An empty queue.
    pub fn new() -> (r: TaskQueue)
        ensures
            r.wf(),
            r.tasks().len() == 0,
    {
        TaskQueue { v: Vec::new() }
    }

    /// How many tasks are pending.
    pub fn len(&self) -> (r: usize)
        ensures
            r == self.tasks().len(),
    {
        self.v.len()
    }

    /// The earliest pending event, if any, without removing it.
    pub fn peek_event(&self) -> (r: Option<SimEvent>)
        ensures
            self.events().len() == 0 ==> r is None,
            self.events().len() > 0 ==> r == Some(self.events()[0]),
    {
        if self.v.len() == 0 {
            None
        } else {
            Some(self.v[0].event)
        }
    }

    /// Remove and return the earliest pending task, destination and all.
    pub fn pop_min(&mut self) -> (r: Option<Task>)
        requires
            old(self).wf(),
        ensures
            final(self).wf(),
            old(self).tasks().len() == 0 ==> r is None && final(self).tasks()
                == old(self).tasks(),
            old(self).tasks().len() > 0 ==> r is Some && r.unwrap() == old(self).tasks()[0]
                && final(self).tasks() == old(self).tasks().skip(1),
    {
        let ghost pre = self.tasks();
        if self.v.len() == 0 {
            None
        } else {
            let t = self.v.remove(0);
            proof {
                assert(self.tasks() =~= pre.skip(1));
                assert(self.events() =~= heap_events(pre).skip(1));
            }
            Some(t)
        }
    }

    /// Add a task, keeping heap order; the contents grow by exactly that
    /// task.
    pub fn push(&mut self, t: Task)
        requires
            old(self).wf(),
        ensures
            final(self).wf(),
            final(self).tasks().len() == old(self).tasks().len() + 1,
            final(self).tasks().to_multiset() == old(self).tasks().to_multiset().insert(t),
    {
        let ghost pre = self.events();
        let ghost pre_tasks = self.tasks();
        let mut i: usize = 0;
        while i < self.v.len() && event_le_exec(&self.v[i].event, &t.event)
            invariant
                i <= self.v.len(),
                forall|j: int| 0 <= j < i ==> event_le(self.events()[j], t.event),
            decreases self.v.len() - i,
        {
            i += 1;
        }
        self.v.insert(i, t);
        proof {
            pre.insert_ensures(i as int, t.event);
            assert(self.events() =~= pre.insert(i as int, t.event));
            assert forall|a: int, b: int| 0 <= a < b < self.events().len() implies event_le(
                self.events()[a],
                self.events()[b],
            ) by {
                let s = self.events();
                if b < i {
                } else if a < i && b == i {
                } else if a < i && b > i {
                    assert(event_le(s[a], pre[b - 1]));
                } else if a == i {
                    assert(s[b] == pre[b - 1]);
                    assert(event_le(pre[i as int], pre[b - 1]) || i == b - 1);
                } else {
                    assert(s[a] == pre[a - 1] && s[b] == pre[b - 1]);
                }
            }
            assert(self.tasks() =~= pre_tasks.insert(i as int, t));
            lemma_insert_to_multiset(pre_tasks, i as int, t);
        }
    }
}

/// Inserting an element anywhere in a sequence adds exactly that element to
/// the sequence's multiset of contents.
proof fn lemma_insert_to_multiset<A>(s: Seq<A>, i: int, x: A)
    requires
        0 <= i <= s.len(),
    ensures
        s.insert(i, x).to_multiset() == s.to_multiset().insert(x),
{
    broadcast use vstd::multiset::group_multiset_axioms;

    let t = s.insert(i, x);
    s.insert_ensures(i, x);
    t.to_multiset_ensures();
    s.to_multiset_ensures();
    assert(t.remove(i) =~= s) by {
        t.remove_ensures(i);
    }
    assert(t[i] == x);
    assert(s.to_multiset() =~= t.to_multiset().remove(x));
    assert(t.contains(x));
    assert(t.to_multiset().count(x) > 0);
    assert(t.to_multiset() =~= s.to_multiset().insert(x)) by {
        assert forall|e: A| true implies t.to_multiset().count(e)
            == s.to_multiset().insert(x).count(e) by {
            if e == x {
                assert(s.to_multiset().count(x) == t.to_multiset().count(x) - 1);
            } else {
                assert(s.to_multiset().count(e) == t.to_multiset().count(e));
            }
        }
    }
}

} // verus!
