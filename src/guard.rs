use vstd::prelude::*;

verus! {

/// The recurring background tasks.
#[derive(Debug, Hash, Copy, Clone, PartialEq, Eq, Structural)]
pub enum TaskType {
    ProcessLogs,
    ScrapeLogs,
}

/// Why a guard could not be taken.
#[derive(Debug, Copy, Clone, PartialEq, Eq, Structural)]
pub enum TimerGuardError {
    /// A run of the same task is still in flight: skip this one.
    AlreadyProcessing,
}

/// The set of tasks that have a run in flight.
#[derive(Debug)]
pub struct ActiveTasks {
    process_logs: bool,
    scrape_logs: bool,
}

impl ActiveTasks {
    pub closed spec fn view(&self) -> Set<TaskType> {
        Set::new(
            |t: TaskType|
                match t {
                    TaskType::ProcessLogs => self.process_logs,
                    TaskType::ScrapeLogs => self.scrape_logs,
                },
        )
    }

    pub fn new() -> (r: ActiveTasks)
        ensures
            r@ == Set::<TaskType>::empty(),
    {
        let r = ActiveTasks { process_logs: false, scrape_logs: false };
        assert(r@ =~= Set::<TaskType>::empty());
        r
    }

    pub fn contains(&self, task: TaskType) -> (r: bool)
        ensures
            r == self@.contains(task),
    {
        match task {
            TaskType::ProcessLogs => self.process_logs,
            TaskType::ScrapeLogs => self.scrape_logs,
        }
    }

    /// Adds `task`; returns whether it was absent.
    pub fn insert(&mut self, task: TaskType) -> (r: bool)
        ensures
            r == !old(self)@.contains(task),
            final(self)@ == old(self)@.insert(task),
    {
        let r = !self.contains(task);
        match task {
            TaskType::ProcessLogs => self.process_logs = true,
            TaskType::ScrapeLogs => self.scrape_logs = true,
        }
        assert(self@ =~= old(self)@.insert(task));
        r
    }

    pub fn remove(&mut self, task: TaskType)
        ensures
            final(self)@ == old(self)@.remove(task),
    {
        match task {
            TaskType::ProcessLogs => self.process_logs = false,
            TaskType::ScrapeLogs => self.scrape_logs = false,
        }
        assert(self@ =~= old(self)@.remove(task));
    }
}

/// The running tasks after an attempt to start `task`: `None` where a run of
/// it is in flight already, and the attempt is skipped.
pub open spec fn try_acquire(active: Set<TaskType>, task: TaskType) -> Option<Set<TaskType>> {
    if active.contains(task) {
        None
    } else {
        Some(active.insert(task))
    }
}

/// The running tasks after the run of `task` ends.
pub open spec fn release(active: Set<TaskType>, task: TaskType) -> Set<TaskType> {
    active.remove(task)
}

/// Proof that a run of one task is in flight. It is only made by
/// [`TimerGuard::new`], and the run ends when it is handed to
/// [`TimerGuard::release`].
#[derive(Debug)]
pub struct TimerGuard {
    task: TaskType,
}

impl TimerGuard {
    pub closed spec fn spec_task(&self) -> TaskType {
        self.task
    }

    pub fn task(&self) -> (r: TaskType)
        ensures
            r == self.spec_task(),
    {
        self.task
    }

    /// Marks `task` as running. Fails, without waiting and without changing
    /// anything, when a run of it is already in flight.
    pub fn new(active: &mut ActiveTasks, task: TaskType) -> (r: Result<TimerGuard, TimerGuardError>)
        ensures
            match try_acquire(old(active)@, task) {
                None => r == Err::<TimerGuard, TimerGuardError>(TimerGuardError::AlreadyProcessing)
                    && final(active)@ == old(active)@,
                Some(a) => r.is_ok() && r.unwrap().spec_task() == task && final(active)@ == a,
            },
    {
        if active.contains(task) {
            return Err(TimerGuardError::AlreadyProcessing);
        }
        active.insert(task);
        Ok(TimerGuard { task })
    }

    /// Ends the run that this guard stands for, on whatever path the run ends.
    pub fn release(self, active: &mut ActiveTasks)
        ensures
            final(active)@ == release(old(active)@, self.spec_task()),
    {
        active.remove(self.task);
    }
}

} // verus!
