//! One entry of the log: a title, free text, and the moment it was taken in.

use crate::time::Time;
use vstd::prelude::*;

verus! {

/// A logged task. Title and content are kept as they were handed in.
#[derive(Debug)]
pub struct Task {
    pub title: String,
    pub content: String,
    pub creation: Time,
}

/// What a task is to the contracts: its two texts as character sequences,
/// and its timestamp.
pub struct TaskView {
    pub title: Seq<char>,
    pub content: Seq<char>,
    pub creation: Time,
}

impl View for Task {
    type V = TaskView;

    open spec fn view(&self) -> TaskView {
        TaskView { title: self.title@, content: self.content@, creation: self.creation }
    }
}

/// The views of a run of tasks, in the same order.
pub open spec fn task_views(tasks: Seq<Task>) -> Seq<TaskView> {
    tasks.map_values(|t: Task| t@)
}

impl Task {
    /// A task made of the given parts.
    pub fn new(title: String, content: String, creation: Time) -> (task: Task)
        ensures
            task@ == (TaskView { title: title@, content: content@, creation }),
    {
        Task { title, content, creation }
    }
}

impl Clone for Task {
    /// A copy that owns its own texts.
    fn clone(&self) -> (copy: Task)
        ensures
            copy == *self,
    {
        Task {
            title: self.title.clone(),
            content: self.content.clone(),
            creation: self.creation,
        }
    }
}

} // verus!
