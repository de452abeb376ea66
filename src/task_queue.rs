use vstd::prelude::*;

verus! {

/// A first-in, first-out channel of tasks bound for one owning thread.
/// Each posted task is handed out exactly once, in the order of posting.
pub struct TaskQueue<T> {
    tasks: Vec<T>,
}

impl<T> View for TaskQueue<T> {
    type V = Seq<T>;

    /// The tasks waiting to run, the oldest first.
    closed spec fn view(&self) -> Seq<T> {
        self.tasks@
    }
}

impl<T> TaskQueue<T> {
    pub fn new() -> (q: TaskQueue<T>)
        ensures
            q@ == Seq::<T>::empty(),
    {
        TaskQueue { tasks: Vec::new() }
    }

    /// Appends `task` behind every task already waiting.
    pub fn post(&mut self, task: T)
        ensures
            final(self)@ == old(self)@.push(task),
    {
        self.tasks.push(task);
    }

    /// Removes and returns the oldest waiting task, if there is one.
    pub fn next(&mut self) -> (r: Option<T>)
        ensures
            old(self)@.len() == 0 ==> r.is_none() && final(self)@ == old(self)@,
            old(self)@.len() > 0 ==> r == Some(old(self)@[0]) && final(self)@ == old(
                self,
            )@.subrange(1, old(self)@.len() as int),
    {
        if self.tasks.len() == 0 {
            None
        } else {
            Some(self.tasks.remove(0))
        }
    }

    pub fn len(&self) -> (r: usize)
        ensures
            r == self@.len(),
    {
        self.tasks.len()
    }

    pub fn is_empty(&self) -> (r: bool)
        ensures
            r == (self@.len() == 0),
    {
        self.tasks.len() == 0
    }
}

} // verus!
