use vstd::prelude::*;

verus! {

/// The one way a join can fail: the task's body terminated abnormally.
#[derive(Debug, Clone, Copy, PartialEq, Eq, Structural)]
pub enum JoinError {
    TaskPanicked,
}

/// Where a task stands, as seen through its handle.
pub enum TaskState<T> {
    /// Still running: a join has to wait.
    Running,
    /// Ended normally with this value, which nobody has taken yet.
    Finished(T),
    /// Ended abnormally.
    Panicked,
    /// Its outcome has been handed to the joiner.
    Joined,
}

/// The slot a task and its handle share: the task writes its outcome once,
/// the handle takes it once.
pub struct TaskSlot<T> {
    state: TaskState<T>,
}

/// The state after the task's body returned `v`.
pub open spec fn complete_spec<T>(s: TaskState<T>, v: T) -> TaskState<T> {
    match s {
        TaskState::Running => TaskState::Finished(v),
        _ => s,
    }
}

/// The state after the task's body terminated abnormally.
pub open spec fn fail_spec<T>(s: TaskState<T>) -> TaskState<T> {
    match s {
        TaskState::Running => TaskState::Panicked,
        _ => s,
    }
}

/// What a join attempt returns (`None`: wait and try again) and the state
/// it leaves behind.
pub open spec fn try_join_spec<T>(s: TaskState<T>) -> (Option<Result<T, JoinError>>, TaskState<T>) {
    match s {
        TaskState::Running => (None, s),
        TaskState::Finished(v) => (Some(Ok(v)), TaskState::Joined),
        TaskState::Panicked => (Some(Err(JoinError::TaskPanicked)), TaskState::Joined),
        TaskState::Joined => (None, s),
    }
}

impl<T> View for TaskSlot<T> {
    type V = TaskState<T>;

    closed spec fn view(&self) -> TaskState<T> {
        self.state
    }
}

impl<T> TaskSlot<T> {
    /// A slot for a task that has just been started.
    pub fn new() -> (r: Self)
        ensures
            r@ == TaskState::<T>::Running,
    {
        TaskSlot { state: TaskState::Running }
    }

    /// Records that the task's body returned `v`.
    pub fn complete(&mut self, v: T)
        requires
            old(self)@ == TaskState::<T>::Running,
        ensures
            final(self)@ == complete_spec(old(self)@, v),
    {
        self.state = TaskState::Finished(v);
    }

    /// Records that the task's body terminated abnormally.
    pub fn fail(&mut self)
        requires
            old(self)@ == TaskState::<T>::Running,
        ensures
            final(self)@ == fail_spec(old(self)@),
    {
        self.state = TaskState::Panicked;
    }

    /// Whether the task has ended, normally or not.
    pub fn is_finished(&self) -> (r: bool)
        ensures
            r == !(self@ is Running),
    {
        !matches!(self.state, TaskState::Running)
    }

    /// One join attempt: `None` while the task runs, otherwise its outcome,
    /// which is taken out of the slot.
    pub fn try_join(&mut self) -> (r: Option<Result<T, JoinError>>)
        requires
            !(old(self)@ is Joined),
        ensures
            (r, final(self)@) == try_join_spec(old(self)@),
    {
        let mut st = TaskState::Joined;
        std::mem::swap(&mut self.state, &mut st);
        match st {
            TaskState::Running => {
                self.state = TaskState::Running;
                None
            },
            TaskState::Finished(v) => Some(Ok(v)),
            TaskState::Panicked => Some(Err(JoinError::TaskPanicked)),
            TaskState::Joined => None,
        }
    }
}

/// A task that ended normally hands its value to exactly one join: the first
/// join returns it, and the slot then holds no value that a later join
/// could return. A task that ended abnormally makes the join fail with
/// `TaskPanicked`.
pub proof fn join_yields_outcome_once<T>(v: T)
    ensures
        try_join_spec(complete_spec(TaskState::<T>::Running, v)) == (
        Some(Ok::<T, JoinError>(v)),
        TaskState::<T>::Joined,
        ),
        try_join_spec(TaskState::<T>::Joined).0 is None,
        try_join_spec(fail_spec(TaskState::<T>::Running)).0 == Some(
            Err::<T, JoinError>(JoinError::TaskPanicked),
        ),
{
}

} // verus!
