use vstd::prelude::*;

verus! {

/// A stored to-do item. It carries no identifier: its identity is its
/// position in the store.
pub struct Task {
    pub description: String,
    pub done: bool,
}

/// A task as handed to the renderer, decorated with its current position.
/// The `id` is meaningful only for the state it was projected from.
pub struct TaskView {
    pub id: usize,
    pub description: String,
    pub done: bool,
}

impl Task {
    /// A copy of the task, field for field.
    pub fn duplicate(&self) -> (r: Task)
        ensures
            r == *self,
    {
        Task { description: self.description.clone(), done: self.done }
    }
}

/// The view of `t` at position `i`.
pub open spec fn view_at(t: Task, i: int) -> TaskView {
    TaskView { id: i as usize, description: t.description, done: t.done }
}

/// Projection of a task sequence: element `i` becomes a view with `id == i`.
pub open spec fn projected(s: Seq<Task>) -> Seq<TaskView> {
    Seq::new(s.len(), |i: int| view_at(s[i], i))
}

/// Decorates each task with its zero-based position.
pub fn add_index_to_tasks(tasks: Vec<Task>) -> (r: Vec<TaskView>)
    ensures
        r@ == projected(tasks@),
        r@.len() == tasks@.len(),
        forall|i: int| 0 <= i < r@.len() ==> (#[trigger] r@[i]).id == i,
{
    let mut r: Vec<TaskView> = Vec::new();
    let mut i: usize = 0;
    while i < tasks.len()
        invariant
            i <= tasks@.len(),
            r@ == projected(tasks@.take(i as int)),
        decreases tasks@.len() - i,
    {
        let t = &tasks[i];
        r.push(TaskView { id: i, description: t.description.clone(), done: t.done });
        proof {
            assert(projected(tasks@.take(i as int + 1)) =~= projected(tasks@.take(i as int)).push(
                view_at(tasks@[i as int], i as int),
            ));
        }
        i = i + 1;
    }
    proof {
        assert(tasks@.take(i as int) =~= tasks@);
    }
    r
}

} // verus!
