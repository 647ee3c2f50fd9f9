use std::collections::VecDeque;
use vstd::prelude::*;

verus! {

/// A queue of tasks that can be fed at both ends and drained from the front.
/// It holds task handles in the order in which they will be popped.
pub struct TaskList<T> {
    tasks: VecDeque<T>,
}

impl<T> View for TaskList<T> {
    type V = Seq<T>;

    closed spec fn view(&self) -> Seq<T> {
        self.tasks@
    }
}

impl<T> TaskList<T> {
    /// An empty list.
    pub fn new() -> (r: TaskList<T>)
        ensures
            r@ == Seq::<T>::empty(),
    {
        TaskList { tasks: VecDeque::new() }
    }

    /// Pushes one task at the back.
    pub fn push_back(&mut self, task: T)
        ensures
            final(self)@ == old(self)@.push(task),
    {
        self.tasks.push_back(task);
    }

    /// Appends all of `tasks`, in their order, at the back.
    pub fn push_back_batch(&mut self, tasks: TaskList<T>)
        ensures
            final(self)@ == old(self)@ + tasks@,
    {
        let mut tasks = tasks;
        self.tasks.append(&mut tasks.tasks);
    }

    /// Pushes one task at the front.
    pub fn push_front(&mut self, task: T)
        ensures
            final(self)@ == seq![task] + old(self)@,
    {
        self.tasks.push_front(task);
    }

    /// Puts all of `tasks`, in their order, in front of the list.
    pub fn push_front_batch(&mut self, tasks: TaskList<T>)
        ensures
            final(self)@ == tasks@ + old(self)@,
    {
        let mut tasks = tasks;
        let ghost front = tasks@;
        let ghost back = self@;
        while tasks.tasks.len() > 0
            invariant
                front == tasks.tasks@ + self.tasks@.subrange(0, self.tasks@.len() - back.len()),
                self.tasks@.len() >= back.len(),
                self.tasks@.subrange(self.tasks@.len() - back.len(), self.tasks@.len() as int)
                    == back,
            decreases tasks.tasks@.len(),
        {
            let ghost before = self.tasks@;
            let ghost rest = tasks.tasks@;
            match tasks.tasks.pop_back() {
                Some(t) => {
                    self.tasks.push_front(t);
                    proof {
                        let k = before.len() - back.len();
                        assert(self.tasks@.subrange(0, self.tasks@.len() - back.len())
                            =~= seq![t] + before.subrange(0, k));
                        assert(rest =~= tasks.tasks@.push(t));
                        assert(self.tasks@.subrange(self.tasks@.len() - back.len(), self.tasks@.len() as int)
                            =~= before.subrange(k, before.len() as int));
                        assert(front =~= tasks.tasks@ + self.tasks@.subrange(0, self.tasks@.len() - back.len()));
                    }
                },
                None => {},
            }
        }
        proof {
            assert(self.tasks@ =~= self.tasks@.subrange(0, self.tasks@.len() - back.len())
                + self.tasks@.subrange(self.tasks@.len() - back.len(), self.tasks@.len() as int));
            assert(tasks.tasks@ =~= Seq::<T>::empty());
            assert(front =~= self.tasks@.subrange(0, self.tasks@.len() - back.len()));
        }
    }

    /// Pops the task at the front; `None` when the list is empty.
    pub fn pop_front(&mut self) -> (r: Option<T>)
        ensures
            old(self)@.len() == 0 ==> r is None && final(self)@ == old(self)@,
            old(self)@.len() > 0 ==> r == Some(old(self)@[0]) && final(self)@ == old(self)@.drop_first(),
    {
        self.tasks.pop_front()
    }

    /// Whether the list holds no task.
    pub fn is_empty(&self) -> (r: bool)
        ensures
            r == (self@.len() == 0),
    {
        self.tasks.len() == 0
    }

    /// Takes all tasks out, leaving the list empty; the result holds them in order.
    pub fn pop_all(&mut self) -> (r: TaskList<T>)
        ensures
            r@ == old(self)@,
            final(self)@ == Seq::<T>::empty(),
    {
        let mut all = TaskList::new();
        all.tasks.append(&mut self.tasks);
        all
    }

    /// The next task from the front, as the list's iterator yields it.
    pub fn next(&mut self) -> (r: Option<T>)
        ensures
            old(self)@.len() == 0 ==> r is None && final(self)@ == old(self)@,
            old(self)@.len() > 0 ==> r == Some(old(self)@[0]) && final(self)@ == old(self)@.drop_first(),
    {
        self.pop_front()
    }
}

/// Tasks pushed at the back come out in the order in which they were pushed:
/// a push at the back does not change which task pops first, nor the order
/// of those after it.
pub proof fn lemma_push_back_fifo<T>(tasks: Seq<T>, task: T)
    requires
        tasks.len() > 0,
    ensures
        tasks.push(task)[0] == tasks[0],
        tasks.push(task).drop_first() == tasks.drop_first().push(task),
{
    assert(tasks.push(task).drop_first() =~= tasks.drop_first().push(task));
}

/// A task pushed at the front pops first, and then the list is as before.
pub proof fn lemma_push_front_pops_first<T>(tasks: Seq<T>, task: T)
    ensures
        (seq![task] + tasks)[0] == task,
        (seq![task] + tasks).drop_first() == tasks,
{
    assert((seq![task] + tasks).drop_first() =~= tasks);
}

/// Taking all tasks out and pushing them back as a batch gives the same list.
pub proof fn lemma_pop_all_push_back_batch<T>(tasks: Seq<T>)
    ensures
        Seq::<T>::empty() + tasks == tasks,
{
    assert(Seq::<T>::empty() + tasks =~= tasks);
}

} // verus!
