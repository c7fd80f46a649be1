use vstd::prelude::*;

use crate::task::Task;
use crate::text::{blank, is_blank};

verus! {

/// The failure of a removal whose position lies outside the sequence.
#[derive(Debug, PartialEq, Eq, Structural)]
pub struct OutOfRange {
    pub position: usize,
    pub len: usize,
}

/// The ordered sequence of tasks, in insertion order.
pub struct TaskStore {
    tasks: Vec<Task>,
}

/// The sequence after appending `description`: blank text is ignored,
/// anything else becomes a new task at the end, not yet done.
pub open spec fn appended(s: Seq<Task>, description: String) -> Seq<Task> {
    if blank(description@) {
        s
    } else {
        s.push(Task { description, done: false })
    }
}

/// The sequence after marking position `p` done; a position outside the
/// sequence leaves it as it is.
pub open spec fn marked_done(s: Seq<Task>, p: int) -> Seq<Task> {
    if 0 <= p < s.len() {
        s.update(p, Task { description: s[p].description, done: true })
    } else {
        s
    }
}

/// The sequence after appending each of `ds` in turn.
pub open spec fn appended_all(s: Seq<Task>, ds: Seq<String>) -> Seq<Task>
    decreases ds.len(),
{
    if ds.len() == 0 {
        s
    } else {
        appended(appended_all(s, ds.drop_last()), ds.last())
    }
}

impl View for TaskStore {
    type V = Seq<Task>;

    closed spec fn view(&self) -> Seq<Task> {
        self.tasks@
    }
}

impl TaskStore {
    /// An empty store.
    pub fn new() -> (r: TaskStore)
        ensures
            r@ == Seq::<Task>::empty(),
    {
        TaskStore { tasks: Vec::new() }
    }

    /// The number of tasks.
    pub fn len(&self) -> (r: usize)
        ensures
            r == self@.len(),
    {
        self.tasks.len()
    }

    /// A snapshot copy of the current sequence.
    pub fn list(&self) -> (r: Vec<Task>)
        ensures
            r@ == self@,
    {
        let mut r: Vec<Task> = Vec::new();
        let mut i: usize = 0;
        while i < self.tasks.len()
            invariant
                i <= self@.len(),
                r@ == self@.take(i as int),
            decreases self@.len() - i,
        {
            r.push(self.tasks[i].duplicate());
            proof {
                assert(self@.take(i as int + 1) =~= self@.take(i as int).push(self@[i as int]));
            }
            i = i + 1;
        }
        proof {
            assert(self@.take(i as int) =~= self@);
        }
        r
    }

    /// Adds `description` as a new task at the end, not done, unless it is
    /// empty or white space only, in which case nothing changes.
    pub fn append(&mut self, description: String)
        ensures
            final(self)@ == appended(old(self)@, description),
            !blank(description@) ==> final(self)@.len() == old(self)@.len() + 1
                && final(self)@.last() == (Task { description, done: false }),
            blank(description@) ==> final(self)@ == old(self)@,
    {
        if !is_blank(description.as_str()) {
            self.tasks.push(Task { description, done: false });
        }
    }

    /// Removes the task at `position`; later tasks move down by one.
    /// A position outside the sequence is refused and changes nothing.
    pub fn remove_at(&mut self, position: usize) -> (r: Result<(), OutOfRange>)
        ensures
            (position < old(self)@.len()) <==> r is Ok,
            r is Ok ==> final(self)@ == old(self)@.remove(position as int),
            r is Err ==> final(self)@ == old(self)@ && r == Err::<(), OutOfRange>(
                OutOfRange { position, len: old(self)@.len() as usize },
            ),
    {
        if position < self.tasks.len() {
            self.tasks.remove(position);
            Ok(())
        } else {
            Err(OutOfRange { position, len: self.tasks.len() })
        }
    }

    /// Marks the task at `position` done. A position outside the sequence
    /// is ignored.
    pub fn mark_done_at(&mut self, position: usize)
        ensures
            final(self)@ == marked_done(old(self)@, position as int),
            final(self)@.len() == old(self)@.len(),
            position < old(self)@.len() ==> final(self)@[position as int].done
                && final(self)@[position as int].description == old(self)@[position as int].description,
            forall|i: int|
                0 <= i < old(self)@.len() && i != position ==> #[trigger] final(self)@[i] == old(self)@[i],
    {
        if position < self.tasks.len() {
            self.tasks[position].done = true;
        }
    }
}

} // verus!
