use vstd::prelude::*;
use std::collections::VecDeque;
use crate::process::laws::{
    lemma_rescan_keeps_well_formed, lemma_scan_decides, lemma_switch_keeps_well_formed,
};
use crate::process::process::{Id, Process};
use crate::process::stack::{Stack, STACK_SIZE};
use crate::process::state::State;
use crate::traps::trap_frame::{TrapFrame, TRAP_FRAME_SIZE};

verus! {

/// What one pass over the queue came to.
pub enum Scan {
    /// A process was found ready. It has been made the running process and
    /// its saved registers have been handed out; this is its id.
    Found(Id),
    /// A whole rotation found no ready process. The processor should wait
    /// for the next hardware event, after which the queue is scanned again.
    Idle,
}

/// The id that the next admission hands out after `last`.
pub open spec fn next_id(last: Option<Id>) -> int {
    match last {
        Some(id) => id + 1,
        None => 1,
    }
}

/// The ids of the processes of `queue`, in queue order.
pub open spec fn ids(queue: Seq<Process>) -> Seq<Id> {
    Seq::new(queue.len(), |i: int| queue[i].id)
}

/// `process` as an admission under `id` stores it: it carries the id, the
/// id stands in the thread id register of its saved registers, and nothing
/// else is changed.
pub open spec fn stamped(process: Process, id: Id) -> Process {
    Process {
        id,
        trap_frame: Box::new(TrapFrame { tpidr: id, ..*process.trap_frame }),
        stack: process.stack,
        state: process.state,
    }
}

/// `process` as a switch puts it away: it takes the state it is given and
/// the registers that were live when it was interrupted, and keeps its id
/// and its stack.
pub open spec fn parked(process: Process, state: State, frame: TrapFrame) -> Process {
    Process { id: process.id, trap_frame: Box::new(frame), stack: process.stack, state }
}

/// `queue` after its front process has been put away at the back.
pub open spec fn rotated(queue: Seq<Process>, state: State, frame: TrapFrame) -> Seq<Process>
    recommends
        queue.len() > 0,
{
    queue.subrange(1, queue.len() as int).push(parked(queue[0], state, frame))
}

/// `process` made the running process.
pub open spec fn running(process: Process) -> Process {
    Process {
        id: process.id,
        trap_frame: process.trap_frame,
        stack: process.stack,
        state: State::Running,
    }
}

/// Whether `after` is `before` taken up to run: `before` answered that it is
/// ready, and `after` is what that check left of it, in the running state.
pub open spec fn resumed(before: Process, after: Process) -> bool {
    exists|checked: Process| #[trigger] before.checked(checked, true) && after == running(checked)
}

/// Whether a scan of `before` passed over its first `skipped` processes,
/// each of which answered that it is not ready, took up the next one, and
/// left the queue as `after`: the process taken up at the front, behind it
/// those the scan did not reach, then those it passed over, all in their
/// former order.
pub open spec fn scan_found(before: Seq<Process>, after: Seq<Process>, skipped: int) -> bool {
    &&& 0 <= skipped < before.len()
    &&& after.len() == before.len()
    &&& resumed(before[skipped], after[0])
    &&& forall|i: int| skipped < i < before.len() ==> after[i - skipped] == #[trigger] before[i]
    &&& forall|i: int|
        0 <= i < skipped ==> (#[trigger] before[i]).checked(
            after[before.len() - skipped + i],
            false,
        )
}

/// Whether a scan of `before` went once round the whole queue, every process
/// answered that it is not ready, and the queue was left as `after`, in the
/// same order.
pub open spec fn scan_idle(before: Seq<Process>, after: Seq<Process>) -> bool {
    &&& after.len() == before.len()
    &&& forall|i: int| 0 <= i < before.len() ==> (#[trigger] before[i]).checked(after[i], false)
}

/// Whether `after` holds the ids of `before` in the same cyclic order,
/// turned `shift` places towards the front.
pub open spec fn turned(before: Seq<Id>, after: Seq<Id>, shift: int) -> bool {
    &&& after.len() == before.len()
    &&& 0 <= shift <= before.len()
    &&& forall|i: int| 0 <= i < before.len() - shift ==> #[trigger] after[i] == before[i + shift]
    &&& forall|i: int| 0 <= i < shift ==> after[before.len() - shift + i] == #[trigger] before[i]
}

/// Whether `result` is what a scan of `before` must come to, as far as the
/// states and the conditions of the processes decide it.
///
/// There is no result only on an empty queue. If any process is bound to
/// answer that it is ready, because it is ready or because its condition
/// reports the event, a process is found; a process that is found is left
/// running at the front of the queue `after`, under the id returned. The
/// scan comes back idle only if no process was bound to answer yes, and it
/// does so whenever every process is bound to answer no, because it is
/// running or because its condition does not report the event.
pub open spec fn scan_decided(
    before: Seq<Process>,
    after: Seq<Process>,
    result: Option<Scan>,
) -> bool {
    &&& result is None <==> before.len() == 0
    &&& (exists|at: int| 0 <= at < before.len() && (#[trigger] before[at]).must_be_ready())
        ==> result is Some && result->0 is Found
    &&& (result is Some && result->0 is Found) ==> {
        &&& after[0].state is Running
        &&& result == Some(Scan::Found(after[0].id))
    }
    &&& result == Some(Scan::Idle) ==> forall|i: int|
        0 <= i < before.len() ==> !(#[trigger] before[i]).must_be_ready()
    &&& (before.len() > 0 && forall|i: int|
        0 <= i < before.len() ==> (#[trigger] before[i]).cannot_be_ready()) ==> result == Some(
        Scan::Idle,
    )
}

/// The round-robin scheduler: the queue of admitted processes in scheduling
/// order, with the running process at the front.
pub struct Scheduler {
    processes: VecDeque<Process>,
    current: Option<Id>,
    last_id: Option<Id>,
}

impl Scheduler {
    /// The admitted processes, in scheduling order.
    pub closed spec fn queue(&self) -> Seq<Process> {
        self.processes@
    }

    /// The id of the process that was last taken up to run, if any was.
    pub closed spec fn current(&self) -> Option<Id> {
        self.current
    }

    /// The id handed out by the last admission, if there was one.
    pub closed spec fn last_id(&self) -> Option<Id> {
        self.last_id
    }

    /// The scheduler's invariant: no two processes in the queue carry the
    /// same id, every id in the queue was handed out by an admission, and
    /// the current id, when set, is that of a process in the queue.
    pub open spec fn well_formed(&self) -> bool {
        &&& ids(self.queue()).no_duplicates()
        &&& forall|i: int|
            0 <= i < self.queue().len() ==> 1 <= (#[trigger] self.queue()[i]).id < next_id(
                self.last_id(),
            )
        &&& self.current() matches Some(id) ==> ids(self.queue()).contains(id)
    }

    /// Whether an admission of `process` leads from this scheduler to
    /// `after` and returns `result`.
    ///
    /// As long as an id is left, the admission succeeds: the process stands
    /// at the back of the queue, stamped with the next id, which is
    /// returned. Otherwise nothing changes.
    pub open spec fn admitted(&self, process: Process, after: Scheduler, result: Option<Id>) -> bool {
        if next_id(self.last_id()) <= u64::MAX {
            let id = next_id(self.last_id()) as Id;
            &&& result == Some(id)
            &&& after.queue() == self.queue().push(stamped(process, id))
            &&& after.last_id() == Some(id)
            &&& after.current() == self.current()
        } else {
            result is None && after == *self
        }
    }

    /// Whether one scan leads from the queue `before` to the scheduler
    /// `after`, with `frame_before` and `frame_after` the caller's registers
    /// before and after it and `result` what it returned.
    pub open spec fn scanned(
        &self,
        before: Seq<Process>,
        frame_before: TrapFrame,
        after: Scheduler,
        frame_after: TrapFrame,
        result: Scan,
    ) -> bool {
        &&& after.last_id() == self.last_id()
        &&& match result {
            Scan::Found(id) => {
                &&& exists|skipped: int| scan_found(before, after.queue(), skipped)
                &&& frame_after == *after.queue()[0].trap_frame
                &&& id == after.queue()[0].id
                &&& after.current() == Some(id)
            },
            Scan::Idle => {
                &&& scan_idle(before, after.queue())
                &&& frame_after == frame_before
                &&& after.current() == self.current()
            },
        }
    }

    /// Whether a call of `switch` with `state` and `frame_before` leads from
    /// this scheduler to `after`, leaving `frame_after` in the caller's
    /// registers and returning `result`.
    pub open spec fn switched(
        &self,
        state: State,
        frame_before: TrapFrame,
        after: Scheduler,
        frame_after: TrapFrame,
        result: Option<Scan>,
    ) -> bool {
        match result {
            None => self.queue().len() == 0 && after == *self && frame_after == frame_before,
            Some(scan) => self.queue().len() > 0 && self.scanned(
                rotated(self.queue(), state, frame_before),
                frame_before,
                after,
                frame_after,
                scan,
            ),
        }
    }

    /// Whether a call of `rescan` with `frame_before` leads from this
    /// scheduler to `after`, leaving `frame_after` in the caller's registers
    /// and returning `result`.
    pub open spec fn rescanned(
        &self,
        frame_before: TrapFrame,
        after: Scheduler,
        frame_after: TrapFrame,
        result: Option<Scan>,
    ) -> bool {
        match result {
            None => self.queue().len() == 0 && after == *self && frame_after == frame_before,
            Some(scan) => self.queue().len() > 0 && self.scanned(
                self.queue(),
                frame_before,
                after,
                frame_after,
                scan,
            ),
        }
    }

    /// A scheduler with an empty queue, which has handed out no id yet.
    pub fn new() -> (scheduler: Scheduler)
        ensures
            scheduler.queue() == Seq::<Process>::empty(),
            scheduler.current() is None,
            scheduler.last_id() is None,
            scheduler.well_formed(),
    {
        Scheduler { processes: VecDeque::new(), current: None, last_id: None }
    }

    /// Number of processes in the queue.
    pub fn len(&self) -> (len: usize)
        ensures
            len == self.queue().len(),
    {
        self.processes.len()
    }

    /// The id of the process that was last taken up to run, if any was.
    pub fn current_id(&self) -> (id: Option<Id>)
        ensures
            id == self.current(),
    {
        self.current
    }

    /// The process at place `index` of the queue, counted from the front.
    pub fn get(&self, index: usize) -> (process: Option<&Process>)
        ensures
            index < self.queue().len() ==> process == Some(&self.queue()[index as int]),
            index >= self.queue().len() ==> process is None,
    {
        if index < self.processes.len() {
            Some(&self.processes[index])
        } else {
            None
        }
    }

    /// Admits `process` at the back of the queue under the next id, which is
    /// one more than the id handed out last and 1 for the first admission.
    /// The process carries the id from now on, whatever its registers hold
    /// later; the id is also written to the thread id register of its saved
    /// registers, and it is returned.
    ///
    /// Returns `None`, and admits nothing, only when every id has been
    /// handed out.
    pub fn add(&mut self, process: Process) -> (id: Option<Id>)
        ensures
            old(self).admitted(process, *final(self), id),
            old(self).well_formed() ==> final(self).well_formed(),
    {
        let last: Id = match self.last_id {
            Some(id) => id,
            None => 0,
        };
        if last == u64::MAX {
            return None;
        }
        let id: Id = last + 1;
        let mut process = process;
        process.id = id;
        process.trap_frame.tpidr = id;
        self.processes.push_back(process);
        self.last_id = Some(id);
        proof {
            let before = old(self).queue();
            let after = self.queue();
            if old(self).well_formed() {
                // The new id is above every id in the queue.
                assert forall|i: int, j: int|
                    0 <= i < after.len() && 0 <= j < after.len() && i != j implies ids(after)[i]
                    != ids(after)[j] by {
                    if i < before.len() {
                        assert(ids(before)[i] == before[i].id);
                    }
                    if j < before.len() {
                        assert(ids(before)[j] == before[j].id);
                    }
                }
                if let Some(id) = self.current() {
                    let k = choose|k: int| 0 <= k < ids(before).len() && ids(before)[k] == id;
                    assert(ids(after)[k] == id);
                }
            }
        }
        self.last_id
    }

    /// Takes `next`, which has just been removed from the front of the queue
    /// and has answered `ready`, either up to run or to the back of the
    /// queue.
    fn place(&mut self, next: Process, ready: bool, tf: &mut TrapFrame) -> (id: Option<Id>)
        ensures
            final(self).last_id() == old(self).last_id(),
            ready ==> {
                &&& id == Some(next.id)
                &&& final(self).queue() == seq![running(next)] + old(self).queue()
                &&& final(self).current() == id
                &&& *final(tf) == *next.trap_frame
            },
            !ready ==> {
                &&& id is None
                &&& final(self).queue() == old(self).queue().push(next)
                &&& final(self).current() == old(self).current()
                &&& *final(tf) == *old(tf)
            },
    {
        let mut next = next;
        if ready {
            next.state = State::Running;
            *tf = *next.trap_frame;
            let next_pid = Some(next.id);
            self.current = next_pid;
            self.processes.push_front(next);
            next_pid
        } else {
            self.processes.push_back(next);
            None
        }
    }

    /// Goes once round the queue, as `rescan` describes.
    fn scan(&mut self, tf: &mut TrapFrame) -> (result: Option<Scan>)
        ensures
            old(self).rescanned(*old(tf), *final(self), *final(tf), result),
    {
        let n = self.processes.len();
        if n == 0 {
            return None;
        }
        let ghost before = self.queue();
        let mut i: usize = 0;
        while i < n
            invariant
                0 <= i <= n,
                n == before.len(),
                before == old(self).queue(),
                self.queue().len() == n,
                self.last_id() == old(self).last_id(),
                self.current() == old(self).current(),
                *tf == *old(tf),
                forall|j: int| i <= j < n ==> self.queue()[j - i] == #[trigger] before[j],
                forall|j: int|
                    0 <= j < i ==> (#[trigger] before[j]).checked(self.queue()[n - i + j], false),
            decreases n - i,
        {
            let mut next = self.processes.pop_front().unwrap();
            let ready = next.is_ready();
            match self.place(next, ready, tf) {
                Some(id) => {
                    assert(scan_found(before, self.queue(), i as int));
                    return Some(Scan::Found(id));
                },
                None => {},
            }
            i += 1;
        }
        Some(Scan::Idle)
    }

    /// Scans the queue once from the front for a process that is ready.
    ///
    /// The first process that answers that it is ready becomes the running
    /// process: it stays at the front, its saved registers are copied to
    /// `tf`, its id becomes the current id and is returned in `Scan::Found`.
    /// Each process in front of it is moved to the back of the queue.
    ///
    /// When no process answers that it is ready, the queue is back in its
    /// former order after the rotation, `tf` is untouched and the result is
    /// `Scan::Idle`: the processor should wait for the next hardware event
    /// and call `rescan` again. On an empty queue the result is `None`.
    ///
    /// The queue holds the same processes under the same ids afterwards, in
    /// the same cyclic order, and a well-formed scheduler stays well formed.
    pub fn rescan(&mut self, tf: &mut TrapFrame) -> (result: Option<Scan>)
        ensures
            old(self).rescanned(*old(tf), *final(self), *final(tf), result),
            scan_decided(old(self).queue(), final(self).queue(), result),
            exists|shift: int| turned(ids(old(self).queue()), ids(final(self).queue()), shift),
            old(self).well_formed() ==> final(self).well_formed(),
    {
        let result = self.scan(tf);
        proof {
            lemma_scan_decides(
                *old(self),
                old(self).queue(),
                *old(tf),
                *self,
                *tf,
                result,
            );
            lemma_rescan_keeps_well_formed(*old(self), *old(tf), *self, *tf, result);
        }
        result
    }

    /// Puts away the running process and looks for the next one to run.
    ///
    /// The process at the front of the queue is the one that was running.
    /// It takes `new_state`, its saved registers are overwritten with `tf`,
    /// the registers that were live when it was interrupted, and it moves to
    /// the back of the queue. It keeps its id, whatever thread id `tf`
    /// holds. The queue is then scanned once as `rescan` does, so that every
    /// other process gets its turn before the one that was just put away.
    ///
    /// On an empty queue nothing happens and the result is `None`.
    pub fn switch(&mut self, new_state: State, tf: &mut TrapFrame) -> (result: Option<Scan>)
        ensures
            old(self).switched(new_state, *old(tf), *final(self), *final(tf), result),
            old(self).queue().len() == 0 ==> result is None,
            old(self).queue().len() > 0 ==> scan_decided(
                rotated(old(self).queue(), new_state, *old(tf)),
                final(self).queue(),
                result,
            ),
            exists|shift: int| turned(ids(old(self).queue()), ids(final(self).queue()), shift),
            old(self).well_formed() ==> final(self).well_formed(),
    {
        if self.processes.len() == 0 {
            assert(turned(ids(self.queue()), ids(self.queue()), 0));
            return None;
        }
        let mut current = self.processes.pop_front().unwrap();
        current.state = new_state;
        *current.trap_frame = *tf;
        self.processes.push_back(current);
        let result = self.rescan(tf);
        proof {
            lemma_switch_keeps_well_formed(*old(self), new_state, *old(tf), *self, *tf, result);
        }
        result
    }
}

/// What the hand-off to the first process needs: its registers, and the
/// address on its own stack at which they must lie when they are restored.
pub struct Bootstrap {
    /// The registers of the first process.
    pub frame: TrapFrame,
    /// Where on the first process's stack `frame` is to be written:
    /// directly beneath the stack pointer of the process, which itself
    /// leaves room for one frame below the top of the stack.
    pub frame_address: usize,
}

/// The scheduler of the whole machine: not there until `start` installs it.
pub struct GlobalScheduler(Option<Scheduler>);

impl GlobalScheduler {
    /// The scheduler, once it has been installed.
    pub closed spec fn scheduler(&self) -> Option<Scheduler> {
        self.0
    }

    /// Whether this is the scheduler as `start` leaves it for the stacks
    /// `first` and `second` and the entry point `entry`, with `bootstrap`
    /// what the hand-off to the first process needs.
    ///
    /// The queue holds two processes, both with `entry` as the address at
    /// which they begin and all registers zero but for stack pointer and
    /// thread id. The first is running, is the current process, carries
    /// the id 1 and has its stack pointer one frame below the top of
    /// `first`. The second is ready, carries the id 2 and has the top of
    /// `second` as its stack pointer. The registers of the first process
    /// are to be written directly beneath its stack pointer.
    pub open spec fn started(
        &self,
        first: Stack,
        second: Stack,
        entry: u64,
        bootstrap: Bootstrap,
    ) -> bool {
        &&& self.scheduler() matches Some(scheduler)
        &&& scheduler.well_formed()
        &&& scheduler.current() == Some(1u64)
        &&& scheduler.last_id() == Some(2u64)
        &&& scheduler.queue().len() == 2
        &&& scheduler.queue()[0].id == 1
        &&& scheduler.queue()[0].state is Running
        &&& scheduler.queue()[0].stack == first
        &&& scheduler.queue()[0].trap_frame.starts(
            entry,
            (first.base() + STACK_SIZE - TRAP_FRAME_SIZE) as u64,
            1,
        )
        &&& scheduler.queue()[1].id == 2
        &&& scheduler.queue()[1].state is Ready
        &&& scheduler.queue()[1].stack == second
        &&& scheduler.queue()[1].trap_frame.starts(entry, (second.base() + STACK_SIZE) as u64, 2)
        &&& bootstrap.frame == *scheduler.queue()[0].trap_frame
        &&& bootstrap.frame_address == first.base() + STACK_SIZE - 2 * TRAP_FRAME_SIZE
    }

    /// A handle without a scheduler behind it.
    pub fn uninitialized() -> (global: GlobalScheduler)
        ensures
            global.scheduler() is None,
    {
        GlobalScheduler(None)
    }

    /// Whether a scheduler has been installed.
    pub fn is_initialized(&self) -> (initialized: bool)
        ensures
            initialized == self.scheduler() is Some,
    {
        self.0.is_some()
    }

    /// The scheduler, once it has been installed.
    pub fn get(&self) -> (scheduler: Option<&Scheduler>)
        ensures
            match scheduler {
                Some(scheduler) => self.scheduler() == Some(*scheduler),
                None => self.scheduler() is None,
            },
    {
        self.0.as_ref()
    }

    /// Admits `process`, as `Scheduler::add` does.
    pub fn add(&mut self, process: Process) -> (id: Option<Id>)
        requires
            old(self).scheduler() is Some,
        ensures
            final(self).scheduler() matches Some(after) && {
                &&& old(self).scheduler()->0.admitted(process, after, id)
                &&& old(self).scheduler()->0.well_formed() ==> after.well_formed()
            },
    {
        match &mut self.0 {
            Some(scheduler) => scheduler.add(process),
            None => None,
        }
    }

    /// Puts away the running process and looks for the next one to run, as
    /// `Scheduler::switch` does.
    pub fn switch(&mut self, new_state: State, tf: &mut TrapFrame) -> (result: Option<Scan>)
        requires
            old(self).scheduler() is Some,
        ensures
            final(self).scheduler() matches Some(after) && {
                let before = old(self).scheduler()->0;
                &&& before.switched(new_state, *old(tf), after, *final(tf), result)
                &&& before.queue().len() == 0 ==> result is None
                &&& before.queue().len() > 0 ==> scan_decided(
                    rotated(before.queue(), new_state, *old(tf)),
                    after.queue(),
                    result,
                )
                &&& exists|shift: int| turned(ids(before.queue()), ids(after.queue()), shift)
                &&& before.well_formed() ==> after.well_formed()
            },
    {
        match &mut self.0 {
            Some(scheduler) => scheduler.switch(new_state, tf),
            None => None,
        }
    }

    /// Scans the queue again after an idle wait, as `Scheduler::rescan`
    /// does.
    pub fn rescan(&mut self, tf: &mut TrapFrame) -> (result: Option<Scan>)
        requires
            old(self).scheduler() is Some,
        ensures
            final(self).scheduler() matches Some(after) && {
                let before = old(self).scheduler()->0;
                &&& before.rescanned(*old(tf), after, *final(tf), result)
                &&& scan_decided(before.queue(), after.queue(), result)
                &&& exists|shift: int| turned(ids(before.queue()), ids(after.queue()), shift)
                &&& before.well_formed() ==> after.well_formed()
            },
    {
        match &mut self.0 {
            Some(scheduler) => scheduler.rescan(tf),
            None => None,
        }
    }

    /// Installs a new scheduler and admits the first two processes, both of
    /// which begin execution at `entry`.
    ///
    /// The first process, on the stack `first`, is the one the processor is
    /// handed to: it is running, it is the current process and carries the
    /// id 1. Its stack pointer lies just below the top of its stack, with
    /// room for one frame above it. The second process, on the stack
    /// `second`, is ready, carries the id 2 and has the very top of its stack
    /// as its stack pointer. All other registers of both are zero.
    ///
    /// The result tells where the registers of the first process must be
    /// written for the hand-off: directly beneath its stack pointer.
    pub fn start(&mut self, first: Stack, second: Stack, entry: u64) -> (bootstrap: Bootstrap)
        ensures
            final(self).started(first, second, entry, bootstrap),
    {
        let mut scheduler = Scheduler::new();

        let first_top = first.top();
        let mut process1 = Process::new(first);
        let stack_pointer = first_top - TRAP_FRAME_SIZE;
        process1.trap_frame.sp = stack_pointer as u64;
        process1.trap_frame.elr = entry;
        let frame_address = stack_pointer - TRAP_FRAME_SIZE;
        process1.trap_frame.tpidr = 1;
        let frame = *process1.trap_frame;
        process1.state = State::Running;
        scheduler.add(process1);
        scheduler.current = Some(1);

        let second_top = second.top();
        let mut process2 = Process::new(second);
        process2.trap_frame.sp = second_top as u64;
        process2.trap_frame.elr = entry;
        scheduler.add(process2);

        assert(ids(scheduler.queue())[0] == 1);
        self.0 = Some(scheduler);
        Bootstrap { frame, frame_address }
    }
}

} // verus!
