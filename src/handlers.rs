use vstd::prelude::*;

use crate::store::{appended, marked_done, OutOfRange, TaskStore};
use crate::task::{add_index_to_tasks, projected, TaskView};

verus! {

/// Which of the two views the renderer is asked for.
#[derive(Clone, Copy, Debug, PartialEq, Eq, Structural)]
pub enum Page {
    /// The whole page, with every task.
    Full,
    /// Only the task list, for a client that replaces that region.
    Fragment,
}

/// What a request hands to the renderer: a view and its tasks.
pub struct Rendering {
    pub page: Page,
    pub tasks: Vec<TaskView>,
}

/// The current tasks, projected, in the full-page view.
pub fn show_tasks(store: &TaskStore) -> (r: Rendering)
    ensures
        r.page == Page::Full,
        r.tasks@ == projected(store@),
{
    Rendering { page: Page::Full, tasks: add_index_to_tasks(store.list()) }
}

/// Appends `task` (blank text is ignored), then renders the list fragment.
pub fn add_task(store: &mut TaskStore, task: String) -> (r: Rendering)
    ensures
        final(store)@ == appended(old(store)@, task),
        r.page == Page::Fragment,
        r.tasks@ == projected(final(store)@),
{
    store.append(task);
    Rendering { page: Page::Fragment, tasks: add_index_to_tasks(store.list()) }
}

/// Removes the task at `id`, then renders the list fragment; an `id`
/// outside the list is an error and changes nothing.
pub fn delete_task(store: &mut TaskStore, id: usize) -> (r: Result<Rendering, OutOfRange>)
    ensures
        (id < old(store)@.len()) <==> r is Ok,
        r is Ok ==> final(store)@ == old(store)@.remove(id as int) && r->Ok_0.page == Page::Fragment
            && r->Ok_0.tasks@ == projected(final(store)@),
        r is Err ==> final(store)@ == old(store)@ && r->Err_0 == (OutOfRange {
            position: id,
            len: old(store)@.len() as usize,
        }),
{
    match store.remove_at(id) {
        Ok(()) => Ok(Rendering { page: Page::Fragment, tasks: add_index_to_tasks(store.list()) }),
        Err(e) => Err(e),
    }
}

/// Marks the task at `id` done (an `id` outside the list is ignored), then
/// renders the list fragment.
pub fn check_task(store: &mut TaskStore, id: usize) -> (r: Rendering)
    ensures
        final(store)@ == marked_done(old(store)@, id as int),
        r.page == Page::Fragment,
        r.tasks@ == projected(final(store)@),
{
    store.mark_done_at(id);
    Rendering { page: Page::Fragment, tasks: add_index_to_tasks(store.list()) }
}

} // verus!
