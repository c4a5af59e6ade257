//! An in-memory registry of task records keyed by task id.
use vstd::prelude::*;
use crate::task::{Task, same_task};

verus! {

/// The last record in `s` whose id is `id`.
pub open spec fn find(s: Seq<Task>, id: Seq<char>) -> Option<Task>
    decreases s.len(),
{
    if s.len() == 0 {
        None
    } else if s.last().id@ == id {
        Some(s.last())
    } else {
        find(s.drop_last(), id)
    }
}

/// `r` is a copy of what `expected` holds.
pub open spec fn same_lookup(r: Option<Task>, expected: Option<Task>) -> bool {
    match (r, expected) {
        (Some(a), Some(b)) => same_task(a, b),
        (None, None) => true,
        _ => false,
    }
}

proof fn lemma_find_update(s: Seq<Task>, j: int, t: Task, id: Seq<char>)
    requires
        0 <= j < s.len(),
        s[j].id@ == t.id@,
        forall|i: int| j < i < s.len() ==> (#[trigger] s[i]).id@ != t.id@,
    ensures
        find(s.update(j, t), id) == if id == t.id@ {
            Some(t)
        } else {
            find(s, id)
        },
    decreases s.len(),
{
    let u = s.update(j, t);
    if j == s.len() - 1 {
        assert(u.drop_last() =~= s.drop_last());
    } else {
        assert(u.drop_last() =~= s.drop_last().update(j, t));
        assert(s.last() == s[s.len() - 1]);
        lemma_find_update(s.drop_last(), j, t, id);
    }
}

proof fn lemma_find_key(s: Seq<Task>, id: Seq<char>)
    ensures
        find(s, id) matches Some(t) ==> t.id@ == id,
    decreases s.len(),
{
    if s.len() > 0 {
        lemma_find_key(s.drop_last(), id);
    }
}

proof fn lemma_find_push(s: Seq<Task>, t: Task, id: Seq<char>)
    ensures
        find(s.push(t), id) == if id == t.id@ {
            Some(t)
        } else {
            find(s, id)
        },
{
    assert(s.push(t).drop_last() =~= s);
}

proof fn lemma_find_absent(s: Seq<Task>, id: Seq<char>)
    requires
        forall|i: int| 0 <= i < s.len() ==> (#[trigger] s[i]).id@ != id,
    ensures
        find(s, id) is None,
    decreases s.len(),
{
    if s.len() > 0 {
        lemma_find_absent(s.drop_last(), id);
    }
}

/// Two lookups of one id in an unchanged store give the same record: each
/// is a copy of what the store holds under that id.
pub proof fn lemma_lookup_repeatable(r1: Option<Task>, r2: Option<Task>, held: Option<Task>)
    requires
        same_lookup(r1, held),
        same_lookup(r2, held),
    ensures
        same_lookup(r1, r2),
{
    if let (Some(a), Some(b)) = (r1, r2) {
        let h = held->0;
        if let (Some(ma), Some(mb), Some(mh)) = (a.status.message, b.status.message, h.status.message) {
            assert forall|i: int| 0 <= i < ma.parts@.len() implies crate::task::same_part(
                #[trigger] ma.parts@[i],
                mb.parts@[i],
            ) by {
                assert(crate::task::same_part(ma.parts@[i], mh.parts@[i]));
                assert(crate::task::same_part(mb.parts@[i], mh.parts@[i]));
            }
        }
    }
}

/// Task records keyed by id; every operation runs to completion on its own.
pub struct TaskStore {
    tasks: Vec<Task>,
}

impl TaskStore {
    /// The record stored under `id`, if any.
    pub closed spec fn lookup(&self, id: Seq<char>) -> Option<Task> {
        find(self.tasks@, id)
    }

    pub fn new() -> (r: Self)
        ensures
            forall|id: Seq<char>| r.lookup(id) is None,
    {
        TaskStore { tasks: Vec::new() }
    }

    /// Index of the last record under `id`, if any.
    fn position(&self, id: &str) -> (r: Option<usize>)
        ensures
            match r {
                Some(j) => j < self.tasks@.len() && self.tasks@[j as int].id@ == id@ && forall|
                    i: int,
                | j < i < self.tasks@.len() ==> (#[trigger] self.tasks@[i]).id@ != id@,
                None => forall|i: int|
                    0 <= i < self.tasks@.len() ==> (#[trigger] self.tasks@[i]).id@ != id@,
            },
    {
        let key = String::from_str(id);
        let mut i = self.tasks.len();
        while i > 0
            invariant
                i <= self.tasks@.len(),
                key@ == id@,
                forall|k: int| i <= k < self.tasks@.len() ==> (#[trigger] self.tasks@[k]).id@ != id@,
            decreases i,
        {
            if self.tasks[i - 1].id == key {
                return Some(i - 1);
            }
            i = i - 1;
        }
        None
    }

    /// Inserts `task`, replacing any record with the same id.
    pub fn put(&mut self, task: Task)
        ensures
            forall|id: Seq<char>|
                #[trigger] final(self).lookup(id) == if id == task.id@ {
                    Some(task)
                } else {
                    old(self).lookup(id)
                },
    {
        let ghost t = task;
        match self.position(task.id.as_str()) {
            Some(j) => {
                self.tasks.set(j, task);
                proof {
                    assert forall|id: Seq<char>|
                        #[trigger] find(self.tasks@, id) == if id == t.id@ {
                            Some(t)
                        } else {
                            find(old(self).tasks@, id)
                        } by {
                        lemma_find_update(old(self).tasks@, j as int, t, id);
                    }
                }
            },
            None => {
                self.tasks.push(task);
                proof {
                    assert forall|id: Seq<char>|
                        #[trigger] find(self.tasks@, id) == if id == t.id@ {
                            Some(t)
                        } else {
                            find(old(self).tasks@, id)
                        } by {
                        lemma_find_push(old(self).tasks@, t, id);
                    }
                }
            },
        }
    }

    /// A copy of the record stored under `id`, if any.
    pub fn get(&self, id: &str) -> (r: Option<Task>)
        ensures
            same_lookup(r, self.lookup(id@)),
            r matches Some(t) ==> t.id@ == id@,
    {
        proof {
            lemma_find_key(self.tasks@, id@);
        }
        match self.position(id) {
            Some(j) => {
                proof {
                    lemma_find_update(self.tasks@, j as int, self.tasks@[j as int], id@);
                    assert(self.tasks@.update(j as int, self.tasks@[j as int]) =~= self.tasks@);
                }
                Some(self.tasks[j].duplicate())
            },
            None => {
                proof {
                    lemma_find_absent(self.tasks@, id@);
                }
                None
            },
        }
    }
}

} // verus!
