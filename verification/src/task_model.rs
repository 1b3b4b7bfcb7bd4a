//! The task record as the document store holds it: a work item with a name,
//! a status, and the identifier of the one user who owns it.

use vstd::prelude::*;

verus! {

/// A stored task record. `user_id` names the owning user and never changes
/// after creation; only that user may mutate the record.
#[derive(Debug)]
pub struct Task {
    pub task_id: String,
    pub taskname: String,
    pub user_id: String,
    pub status: String,
}

/// The mathematical value of a task record.
#[verifier::ext_equal]
pub ghost struct TaskView {
    pub task_id: Seq<char>,
    pub taskname: Seq<char>,
    pub user_id: Seq<char>,
    pub status: Seq<char>,
}

impl View for Task {
    type V = TaskView;

    open spec fn view(&self) -> TaskView {
        TaskView {
            task_id: self.task_id@,
            taskname: self.taskname@,
            user_id: self.user_id@,
            status: self.status@,
        }
    }
}

} // verus!
