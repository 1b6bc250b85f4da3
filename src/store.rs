use vstd::prelude::*;

verus! {

/// The state of a task.
#[derive(Clone, Copy, Debug, PartialEq, Eq, Structural)]
pub enum Status {
    Pending,
    Done,
}

/// A description together with a status.
#[derive(Clone, Debug)]
pub struct Task {
    pub description: String,
    pub status: Status,
}

/// What a task is, mathematically: its description's characters and its status.
pub type TaskModel = (Seq<char>, Status);

impl View for Task {
    type V = TaskModel;

    open spec fn view(&self) -> TaskModel {
        (self.description@, self.status)
    }
}

/// The ways a command or a store operation can be refused.
#[derive(Debug)]
pub enum Error {
    TaskNotFound(usize),
    InvalidStatus(String),
    InvalidDescription(String),
    InvalidIndex(String),
    NotEnoughArgs(String),
}

/// The ordered collection of tasks; position `i` is the task's identity.
pub struct TodoList {
    tasks: Vec<Task>,
}

pub open spec fn task_models(tasks: Seq<Task>) -> Seq<TaskModel> {
    tasks.map_values(|t: Task| t@)
}

/// The list after `remove(index)`: the task at `index` leaves when there is one.
pub open spec fn removed(before: Seq<TaskModel>, index: int) -> Seq<TaskModel> {
    if 0 <= index < before.len() {
        before.remove(index)
    } else {
        before
    }
}

impl View for TodoList {
    type V = Seq<TaskModel>;

    closed spec fn view(&self) -> Seq<TaskModel> {
        task_models(self.tasks@)
    }
}

impl TodoList {
    /// An empty list.
    pub fn new() -> (r: TodoList)
        ensures
            r@ == Seq::<TaskModel>::empty(),
    {
        let r = TodoList { tasks: Vec::new() };
        assert(r@ =~= Seq::<TaskModel>::empty());
        r
    }

    /// Appends a task at the end; the tasks before it keep their positions.
    pub fn add_task(&mut self, description: String, status: Status)
        ensures
            final(self)@ == old(self)@.push((description@, status)),
    {
        let ghost d = description@;
        self.tasks.push(Task { description, status });
        assert(self@ =~= old(self)@.push((d, status)));
    }

    /// Removes and returns the task at `index`; the tasks after it move down
    /// by one. An index past the end leaves the list as it was.
    pub fn remove_task(&mut self, index: usize) -> (r: Result<Task, Error>)
        ensures
            final(self)@ == removed(old(self)@, index as int),
            index < old(self)@.len() ==> r is Ok && r->Ok_0@ == old(self)@[index as int],
            index >= old(self)@.len() ==> (r matches Err(Error::TaskNotFound(i)) && i == index),
    {
        if index < self.tasks.len() {
            let task = self.tasks.remove(index);
            assert(self@ =~= old(self)@.remove(index as int));
            Ok(task)
        } else {
            Err(Error::TaskNotFound(index))
        }
    }

    /// The tasks in order, the one at position `i` at index `i`.
    pub fn list_tasks(&self) -> (r: &Vec<Task>)
        ensures
            task_models(r@) == self@,
    {
        &self.tasks
    }

    /// The number of tasks.
    pub fn len(&self) -> (r: usize)
        ensures
            r == self@.len(),
    {
        self.tasks.len()
    }

    /// Whether there are no tasks.
    pub fn is_empty(&self) -> (r: bool)
        ensures
            r == (self@.len() == 0),
    {
        self.tasks.len() == 0
    }

    /// A list holding the given tasks in the given order.
    pub fn from_tasks(tasks: Vec<Task>) -> (r: TodoList)
        ensures
            r@ == task_models(tasks@),
    {
        TodoList { tasks }
    }
}

} // verus!
