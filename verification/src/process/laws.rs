use vstd::prelude::*;
use crate::process::process::{Id, Process};
use crate::process::scheduler::{
    ids, next_id, parked, resumed, rotated, running, scan_decided, scan_found, scan_idle,
    stamped, turned, Scan, Scheduler,
};
use crate::process::state::State;
use crate::traps::trap_frame::TrapFrame;

verus! {

/// Whether `states`, `processes` and `results` record a run of admissions:
/// the k-th admission takes `states[k]` to `states[k + 1]`, admits
/// `processes[k]` and returns `results[k]`.
pub open spec fn admissions(
    states: Seq<Scheduler>,
    processes: Seq<Process>,
    results: Seq<Option<Id>>,
) -> bool {
    &&& states.len() == processes.len() + 1
    &&& results.len() == processes.len()
    &&& forall|k: int|
        0 <= k < processes.len() ==> (#[trigger] states[k]).admitted(
            processes[k],
            states[k + 1],
            results[k],
        )
}

/// The first `count` admissions of a run hand out consecutive ids and line
/// the processes up behind those that were in the queue.
proof fn lemma_admissions_prefix(
    states: Seq<Scheduler>,
    processes: Seq<Process>,
    results: Seq<Option<Id>>,
    count: int,
)
    requires
        admissions(states, processes, results),
        0 <= count <= processes.len(),
        next_id(states[0].last_id()) + processes.len() <= u64::MAX + 1,
    ensures
        next_id(states[count].last_id()) == next_id(states[0].last_id()) + count,
        states[count].current() == states[0].current(),
        states[count].queue().len() == states[0].queue().len() + count,
        forall|i: int|
            0 <= i < states[0].queue().len() ==> states[count].queue()[i] == states[0].queue()[i],
        forall|k: int|
            0 <= k < count ==> results[k] == Some((next_id(states[0].last_id()) + k) as Id),
        forall|k: int|
            0 <= k < count ==> states[count].queue()[states[0].queue().len() + k] == stamped(
                processes[k],
                (next_id(states[0].last_id()) + k) as Id,
            ),
    decreases count,
{
    if count > 0 {
        lemma_admissions_prefix(states, processes, results, count - 1);
        let before = states[count - 1];
    }
}

/// Admissions hand out consecutive ids. In any run of admissions the k-th
/// one returns the id that is k more than the first id handed out, which is
/// 1 on a new scheduler, and the process it admits carries that id, also in
/// its saved thread id register, at its place in admission order behind the
/// processes that were already in the queue.
pub proof fn lemma_admissions_count_up(
    states: Seq<Scheduler>,
    processes: Seq<Process>,
    results: Seq<Option<Id>>,
)
    requires
        admissions(states, processes, results),
        next_id(states[0].last_id()) + processes.len() <= u64::MAX + 1,
    ensures
        states[0].last_id() is None ==> next_id(states[0].last_id()) == 1,
        states.last().queue().len() == states[0].queue().len() + processes.len(),
        forall|k: int|
            #![trigger results[k]]
            #![trigger processes[k]]
            0 <= k < processes.len() ==> {
                let id = (next_id(states[0].last_id()) + k) as Id;
                let admitted = states.last().queue()[states[0].queue().len() + k];
                &&& results[k] == Some(id)
                &&& admitted == stamped(processes[k], id)
                &&& admitted.id == id
                &&& admitted.trap_frame.tpidr == id
            },
{
    lemma_admissions_prefix(states, processes, results, processes.len() as int);
}

/// A scan takes up the first ready process when every process in front of
/// it is running. With a ready process at `first` and only running ones
/// before it, the scan finds that process, makes it the running process at
/// the front of the queue, hands out its registers and its id, and leaves
/// behind it the processes that followed it and then those it passed over.
pub proof fn lemma_scan_takes_first_ready(
    scheduler: Scheduler,
    before: Seq<Process>,
    frame_before: TrapFrame,
    after: Scheduler,
    frame_after: TrapFrame,
    result: Scan,
    first: int,
)
    requires
        scheduler.scanned(before, frame_before, after, frame_after, result),
        0 <= first < before.len(),
        before[first].state is Ready,
        forall|i: int| 0 <= i < first ==> (#[trigger] before[i]).state is Running,
    ensures
        result == Scan::Found(before[first].id),
        after.current() == Some(before[first].id),
        frame_after == *before[first].trap_frame,
        after.queue() == seq![running(before[first])] + before.subrange(
            first + 1,
            before.len() as int,
        ) + before.subrange(0, first),
{
    if result is Found {
        let skipped = choose|skipped: int| scan_found(before, after.queue(), skipped);
        if skipped > first {
            // The scan would have passed over the ready process.
            assert(before[first].checked(
                after.queue()[before.len() - skipped + first],
                false,
            ));
        }
        assert(skipped == first);
    }
}

/// A scan takes up the first process that is bound to answer yes when
/// every process in front of it is bound to answer no. A waiting process
/// whose condition reports the event is taken up just as a ready one is: if
/// the process at `first` is ready or its condition gives no answer but
/// yes, and each process before it is running or waits on a condition that
/// gives no answer but no, the scan passes over exactly those before it,
/// returns the id of the process at `first`, and leaves that process running
/// at the front of the queue with its registers handed out.
pub proof fn lemma_scan_takes_first_bound(
    scheduler: Scheduler,
    before: Seq<Process>,
    frame_before: TrapFrame,
    after: Scheduler,
    frame_after: TrapFrame,
    result: Scan,
    first: int,
)
    requires
        scheduler.scanned(before, frame_before, after, frame_after, result),
        0 <= first < before.len(),
        before[first].must_be_ready(),
        forall|i: int| 0 <= i < first ==> (#[trigger] before[i]).cannot_be_ready(),
    ensures
        result == Scan::Found(before[first].id),
        scan_found(before, after.queue(), first),
        after.queue()[0].id == before[first].id,
        after.queue()[0].state is Running,
        after.current() == Some(before[first].id),
        frame_after == *after.queue()[0].trap_frame,
{
    if result is Found {
        let skipped = choose|skipped: int| scan_found(before, after.queue(), skipped);
        if skipped > first {
            // The scan would have passed over a process that answers yes.
            assert(before[first].checked(
                after.queue()[before.len() - skipped + first],
                false,
            ));
        }
        if skipped < first {
            // The scan would have taken up a process that answers no.
            assert(before[skipped].cannot_be_ready());
        }
        assert(skipped == first);
    } else {
        assert(before[first].checked(after.queue()[first], false));
    }
}

/// A scan finds a process whenever one in the queue is bound to answer that
/// it is ready. If the process at `at` is ready, or waits on a condition
/// that reports the event, the scan does not come back idle: it returns the
/// id of a process that stood at or before `at`, and that process is now
/// the running process at the front of the queue.
pub proof fn lemma_scan_finds_ready(
    scheduler: Scheduler,
    before: Seq<Process>,
    frame_before: TrapFrame,
    after: Scheduler,
    frame_after: TrapFrame,
    result: Scan,
    at: int,
)
    requires
        scheduler.scanned(before, frame_before, after, frame_after, result),
        0 <= at < before.len(),
        before[at].must_be_ready(),
    ensures
        result matches Scan::Found(id) && {
            &&& after.queue()[0].state is Running
            &&& after.queue()[0].id == id
            &&& after.current() == Some(id)
            &&& frame_after == *after.queue()[0].trap_frame
            &&& exists|skipped: int| 0 <= skipped <= at && scan_found(before, after.queue(), skipped)
        },
{
    if result is Found {
        let skipped = choose|skipped: int| scan_found(before, after.queue(), skipped);
        if skipped > at {
            // The scan would have passed over the ready process.
            assert(before[at].checked(after.queue()[before.len() - skipped + at], false));
        }
    }
}

/// A switch resumes a process whenever one is bound to answer that it is
/// ready. If, once the process at the front has been put away in `state`,
/// some process of the queue is ready or waits on a condition that reports
/// the event, the switch returns the id of a process and that process is in
/// the running state at the front of the queue.
pub proof fn lemma_switch_finds_ready(
    scheduler: Scheduler,
    state: State,
    frame_before: TrapFrame,
    after: Scheduler,
    frame_after: TrapFrame,
    result: Option<Scan>,
    at: int,
)
    requires
        scheduler.switched(state, frame_before, after, frame_after, result),
        0 <= at < scheduler.queue().len(),
        rotated(scheduler.queue(), state, frame_before)[at].must_be_ready(),
    ensures
        result matches Some(Scan::Found(id)) && {
            &&& after.queue()[0].state is Running
            &&& after.queue()[0].id == id
            &&& after.current() == Some(id)
            &&& frame_after == *after.queue()[0].trap_frame
        },
{
    lemma_scan_finds_ready(
        scheduler,
        rotated(scheduler.queue(), state, frame_before),
        frame_before,
        after,
        frame_after,
        result->0,
        at,
    );
}

/// A switch on an empty scheduler returns `None` and changes nothing, and
/// `None` is returned on no other scheduler.
pub proof fn lemma_switch_on_empty(
    scheduler: Scheduler,
    state: State,
    frame_before: TrapFrame,
    after: Scheduler,
    frame_after: TrapFrame,
    result: Option<Scan>,
)
    requires
        scheduler.switched(state, frame_before, after, frame_after, result),
    ensures
        result is None <==> scheduler.queue().len() == 0,
        result is None ==> after == scheduler && frame_after == frame_before,
{
}

/// A scan comes back idle exactly when no process answered that it is
/// ready. It does so whenever every process is bound to answer no, because
/// it is running or because its condition does not report the event, and it
/// never does while a process is bound to answer yes. When every process of
/// the queue is running, the scan leaves queue, current id and registers as
/// they were. When the scan does find a process, that process was ready or
/// its condition could report the event.
pub proof fn lemma_scan_idles(
    scheduler: Scheduler,
    before: Seq<Process>,
    frame_before: TrapFrame,
    after: Scheduler,
    frame_after: TrapFrame,
    result: Scan,
)
    requires
        scheduler.scanned(before, frame_before, after, frame_after, result),
    ensures
        result is Idle ==> scan_idle(before, after.queue()) && frame_after == frame_before
            && after.current() == scheduler.current(),
        result is Idle ==> forall|i: int|
            0 <= i < before.len() ==> !(#[trigger] before[i]).must_be_ready(),
        (forall|i: int| 0 <= i < before.len() ==> (#[trigger] before[i]).cannot_be_ready())
            ==> result is Idle,
        (forall|i: int| 0 <= i < before.len() ==> (#[trigger] before[i]).state is Running) ==> {
            &&& result is Idle
            &&& after.queue() == before
        },
        result is Found ==> exists|skipped: int|
            0 <= skipped < before.len() && !(#[trigger] before[skipped]).cannot_be_ready(),
{
    if result is Found {
        let skipped = choose|skipped: int| scan_found(before, after.queue(), skipped);
    }
}

/// The result of a scan is the one that the states of the processes call
/// for: see `scan_decided`.
pub proof fn lemma_scan_decides(
    scheduler: Scheduler,
    before: Seq<Process>,
    frame_before: TrapFrame,
    after: Scheduler,
    frame_after: TrapFrame,
    result: Option<Scan>,
)
    requires
        result is None <==> before.len() == 0,
        result matches Some(scan) ==> scheduler.scanned(
            before,
            frame_before,
            after,
            frame_after,
            scan,
        ),
    ensures
        scan_decided(before, after.queue(), result),
{
    if let Some(scan) = result {
        lemma_scan_idles(scheduler, before, frame_before, after, frame_after, scan);
        if exists|at: int| 0 <= at < before.len() && (#[trigger] before[at]).must_be_ready() {
            let at = choose|at: int|
                0 <= at < before.len() && (#[trigger] before[at]).must_be_ready();
            lemma_scan_finds_ready(scheduler, before, frame_before, after, frame_after, scan, at);
        }
        if scan is Found {
            let skipped = choose|skipped: int| scan_found(before, after.queue(), skipped);
        }
    }
}

/// Whether `states`, `frames_in`, `frames_out` and `results` record a run of
/// preemptions: the k-th switch takes `states[k]` to `states[k + 1]`, puts
/// the process at the front away as ready with the registers
/// `frames_in[k]`, leaves `frames_out[k]` in the caller's registers and
/// returns `results[k]`.
pub open spec fn preemptions(
    states: Seq<Scheduler>,
    frames_in: Seq<TrapFrame>,
    frames_out: Seq<TrapFrame>,
    results: Seq<Option<Scan>>,
) -> bool {
    &&& states.len() == results.len() + 1
    &&& frames_in.len() == results.len()
    &&& frames_out.len() == results.len()
    &&& forall|k: int|
        0 <= k < results.len() ==> (#[trigger] states[k]).switched(
            State::Ready,
            frames_in[k],
            states[k + 1],
            frames_out[k],
            results[k],
        )
}

/// The place in a queue of `count` whose process gets the k-th turn, with
/// the turns counted from 0: the places behind the front in order, then the
/// front itself, and so on round the queue.
pub open spec fn turn(k: int, count: int) -> int {
    (k + 1) % count
}

/// Counting on by one place wraps round the queue.
proof fn lemma_next_place(i: int, k: int, n: int)
    requires
        0 <= i < n,
        0 <= k,
    ensures
        (if i + 1 < n {
            i + 1
        } else {
            0
        } + k) % n == (i + k + 1) % n,
{
    if i + 1 == n {
        vstd::arithmetic::div_mod::lemma_mod_add_multiples_vanish(k, n);
    }
}

/// The queue after the first `count` switches of a run over a queue of
/// ready processes, and what those switches returned.
proof fn lemma_round_prefix(
    states: Seq<Scheduler>,
    frames_in: Seq<TrapFrame>,
    frames_out: Seq<TrapFrame>,
    results: Seq<Option<Scan>>,
    count: int,
)
    requires
        preemptions(states, frames_in, frames_out, results),
        states[0].queue().len() > 0,
        forall|i: int|
            0 <= i < states[0].queue().len() ==> (#[trigger] states[0].queue()[i]).state is Ready,
        0 <= count <= results.len(),
    ensures
        states[count].queue().len() == states[0].queue().len(),
        forall|i: int|
            1 <= i < states[0].queue().len() ==> (#[trigger] states[count].queue()[i]).state
                is Ready,
        forall|i: int|
            0 <= i < states[0].queue().len() ==> (#[trigger] states[count].queue()[i]).id
                == states[0].queue()[(i + count) % (states[0].queue().len() as int)].id,
        forall|k: int|
            0 <= k < count ==> {
                &&& #[trigger] results[k] == Some(Scan::Found(states[k + 1].queue()[0].id))
                &&& states[k + 1].queue()[0].state is Running
                &&& states[k + 1].current() == Some(states[k + 1].queue()[0].id)
                &&& frames_out[k] == *states[k + 1].queue()[0].trap_frame
            },
    decreases count,
{
    let n = states[0].queue().len() as int;
    if count == 0 {
        assert forall|i: int| 0 <= i < n implies (#[trigger] states[0].queue()[i]).id
            == states[0].queue()[(i + 0) % n].id by {
            vstd::arithmetic::div_mod::lemma_small_mod(i as nat, n as nat);
        }
    } else {
        let k = count - 1;
        lemma_round_prefix(states, frames_in, frames_out, results, k);
        let queue = states[k].queue();
        let before = rotated(queue, State::Ready, frames_in[k]);
        assert(states[k].switched(
            State::Ready,
            frames_in[k],
            states[k + 1],
            frames_out[k],
            results[k],
        ));
        // Behind the front every process is ready, and so is the one that
        // is put away: the scan takes up the first process it meets.
        assert forall|i: int| 0 <= i < n - 1 implies before[i] == queue[i + 1] by {}
        assert(before[n - 1] == parked(queue[0], State::Ready, frames_in[k]));
        lemma_scan_takes_first_ready(
            states[k],
            before,
            frames_in[k],
            states[k + 1],
            frames_out[k],
            results[k]->0,
            0,
        );
        let after = states[count].queue();
        assert(after[0] == running(before[0]));
        assert forall|i: int| 1 <= i < n implies after[i] == before[i] by {}
        assert forall|i: int| 0 <= i < n implies (#[trigger] after[i]).id == states[0].queue()[(i
            + count) % n].id by {
            let source = if i + 1 < n {
                i + 1
            } else {
                0
            };
            assert(after[i].id == queue[source].id);
            lemma_next_place(i, k, n);
        }
    }
}

/// Two turns less than a round apart fall on different places.
proof fn lemma_turns_differ(j: int, k: int, n: int)
    requires
        0 <= j < k,
        k - j < n,
    ensures
        0 <= turn(j, n) < n,
        0 <= turn(k, n) < n,
        turn(j, n) != turn(k, n),
{
    vstd::arithmetic::div_mod::lemma_fundamental_div_mod(j + 1, n);
    vstd::arithmetic::div_mod::lemma_fundamental_div_mod(k + 1, n);
    if turn(j, n) == turn(k, n) {
        let d = (k + 1) / n - (j + 1) / n;
        assert(k - j == n * d) by (nonlinear_arith)
            requires
                j + 1 == n * ((j + 1) / n) + (j + 1) % n,
                k + 1 == n * ((k + 1) / n) + (k + 1) % n,
                (j + 1) % n == (k + 1) % n,
                d == (k + 1) / n - (j + 1) / n,
        ;
        assert(false) by (nonlinear_arith)
            requires
                0 < n * d < n,
        ;
    }
}

/// Each place has its turn within a round: the place behind the front has
/// the first, the front the last.
proof fn lemma_turn_of_place(place: int, n: int)
    requires
        0 <= place < n,
    ensures
        turn(if place == 0 {
            n - 1
        } else {
            place - 1
        }, n) == place,
{
    if place == 0 {
        vstd::arithmetic::div_mod::lemma_mod_self_0(n);
    } else {
        vstd::arithmetic::div_mod::lemma_small_mod(place as nat, n as nat);
    }
}

/// What the k-th switch of a run over a queue of ready processes returns.
proof fn lemma_round_turn(
    states: Seq<Scheduler>,
    frames_in: Seq<TrapFrame>,
    frames_out: Seq<TrapFrame>,
    results: Seq<Option<Scan>>,
    k: int,
)
    requires
        preemptions(states, frames_in, frames_out, results),
        states[0].queue().len() > 0,
        forall|i: int|
            0 <= i < states[0].queue().len() ==> (#[trigger] states[0].queue()[i]).state is Ready,
        0 <= k < results.len(),
    ensures
        0 <= turn(k, states[0].queue().len() as int) < states[0].queue().len(),
        results[k] == Some(
            Scan::Found(states[0].queue()[turn(k, states[0].queue().len() as int)].id),
        ),
        states[k + 1].queue()[0].id == states[0].queue()[turn(
            k,
            states[0].queue().len() as int,
        )].id,
        states[k + 1].queue()[0].state is Running,
        states[k + 1].current() == Some(states[k + 1].queue()[0].id),
        frames_out[k] == *states[k + 1].queue()[0].trap_frame,
{
    let n = states[0].queue().len() as int;
    lemma_round_prefix(states, frames_in, frames_out, results, k + 1);
    vstd::arithmetic::div_mod::lemma_mod_bound(k + 1, n);
    assert(states[k + 1].queue()[0].id == states[0].queue()[(0 + (k + 1)) % n].id);
    assert(results[k] == Some(Scan::Found(states[k + 1].queue()[0].id)));
}

/// Round robin. When every process of a queue of n is ready and each switch
/// puts the interrupted process away as ready, the switches give the
/// processes their turns in queue order, round and round: the k-th switch
/// resumes the process that stood at place `turn(k, n)`, that is the
/// processes behind the front in order, then the one that was at the front,
/// then the same again. Each switch returns the id under which that process
/// was admitted, whatever registers it was handed, and leaves the process
/// running at the front of the queue with its registers handed out.
///
/// When the ids of the queue differ from each other, no id is returned
/// twice within n switches in a row, and the first n switches return every
/// id of the queue: each process has one turn before any has a second one.
pub proof fn lemma_round_robin(
    states: Seq<Scheduler>,
    frames_in: Seq<TrapFrame>,
    frames_out: Seq<TrapFrame>,
    results: Seq<Option<Scan>>,
)
    requires
        preemptions(states, frames_in, frames_out, results),
        states[0].queue().len() > 0,
        forall|i: int|
            0 <= i < states[0].queue().len() ==> (#[trigger] states[0].queue()[i]).state is Ready,
    ensures
        forall|k: int|
            0 <= k < results.len() ==> {
                let id = states[0].queue()[turn(k, states[0].queue().len() as int)].id;
                &&& #[trigger] results[k] == Some(Scan::Found(id))
                &&& states[k + 1].queue()[0].id == id
                &&& states[k + 1].queue()[0].state is Running
                &&& states[k + 1].current() == Some(id)
                &&& frames_out[k] == *states[k + 1].queue()[0].trap_frame
            },
        ids(states[0].queue()).no_duplicates() ==> forall|j: int, k: int|
            0 <= j < k < results.len() && k - j < states[0].queue().len() ==> #[trigger] results[j]
                != #[trigger] results[k],
        results.len() >= states[0].queue().len() ==> forall|place: int|
            0 <= place < states[0].queue().len() ==> exists|k: int|
                0 <= k < states[0].queue().len() && #[trigger] results[k] == Some(
                    Scan::Found((#[trigger] states[0].queue()[place]).id),
                ),
{
    let n = states[0].queue().len() as int;
    let first = states[0].queue();
    assert forall|k: int| 0 <= k < results.len() implies {
        let id = first[turn(k, n)].id;
        &&& #[trigger] results[k] == Some(Scan::Found(id))
        &&& states[k + 1].queue()[0].id == id
        &&& states[k + 1].queue()[0].state is Running
        &&& states[k + 1].current() == Some(id)
        &&& frames_out[k] == *states[k + 1].queue()[0].trap_frame
    } by {
        lemma_round_turn(states, frames_in, frames_out, results, k);
    }
    if ids(first).no_duplicates() {
        assert forall|j: int, k: int| 0 <= j < k < results.len() && k - j < n implies
            #[trigger] results[j] != #[trigger] results[k] by {
            lemma_turns_differ(j, k, n);
            lemma_round_turn(states, frames_in, frames_out, results, j);
            lemma_round_turn(states, frames_in, frames_out, results, k);
            assert(ids(first)[turn(j, n)] == first[turn(j, n)].id);
            assert(ids(first)[turn(k, n)] == first[turn(k, n)].id);
        }
    }
    if results.len() >= n {
        assert forall|place: int| 0 <= place < n implies exists|k: int|
            0 <= k < n && #[trigger] results[k] == Some(
                Scan::Found((#[trigger] first[place]).id),
            ) by {
            let k = if place == 0 {
                n - 1
            } else {
                place - 1
            };
            lemma_turn_of_place(place, n);
            lemma_round_turn(states, frames_in, frames_out, results, k);
        }
    }
}

/// Turning the queue keeps the scheduler's invariant. If `after` holds the
/// ids of the well-formed scheduler `before` in the same cyclic order, has
/// handed out the same ids, and its current id is either that of `before`
/// or the id of a process in its queue, then `after` is well formed.
pub proof fn lemma_turned_keeps_well_formed(before: Scheduler, after: Scheduler, shift: int)
    requires
        before.well_formed(),
        turned(ids(before.queue()), ids(after.queue()), shift),
        after.last_id() == before.last_id(),
        after.current() == before.current() || (after.current() matches Some(id) && ids(
            after.queue(),
        ).contains(id)),
    ensures
        after.well_formed(),
{
    let n = before.queue().len() as int;
    let old_ids = ids(before.queue());
    let new_ids = ids(after.queue());
    // Each place of the new queue holds the id of one place of the old
    // queue, and no two places that of the same.
    assert forall|i: int| 0 <= i < n implies #[trigger] new_ids[i] == old_ids[if i < n - shift {
        i + shift
    } else {
        i - (n - shift)
    }] by {}
    assert forall|i: int| 0 <= i < n implies 1 <= (#[trigger] after.queue()[i]).id < next_id(
        after.last_id(),
    ) by {
        assert(new_ids[i] == after.queue()[i].id);
    }
    if after.current() == before.current() {
        if let Some(id) = before.current() {
            let k = choose|k: int| 0 <= k < old_ids.len() && old_ids[k] == id;
            let target = if k >= shift {
                k - shift
            } else {
                n - shift + k
            };
            assert(new_ids[target] == old_ids[k]);
        }
    }
}

/// A switch keeps the ids and the scheduler's invariant. Whatever registers
/// are handed to it and whatever the conditions it polls do, the queue
/// holds the same ids in the same cyclic order after the switch, and a
/// well-formed scheduler stays well formed.
pub proof fn lemma_switch_keeps_well_formed(
    scheduler: Scheduler,
    state: State,
    frame_before: TrapFrame,
    after: Scheduler,
    frame_after: TrapFrame,
    result: Option<Scan>,
)
    requires
        scheduler.switched(state, frame_before, after, frame_after, result),
    ensures
        exists|shift: int| turned(ids(scheduler.queue()), ids(after.queue()), shift),
        scheduler.well_formed() ==> after.well_formed(),
{
    let queue = scheduler.queue();
    let n = queue.len() as int;
    let before = rotated(queue, state, frame_before);
    let old_ids = ids(queue);
    let new_ids = ids(after.queue());
    // Putting the front process away turns the queue by one place, and the
    // scan turns it by as many places as it passes over.
    match result {
        None => {
            assert(turned(old_ids, new_ids, 0));
            if scheduler.well_formed() {
                lemma_turned_keeps_well_formed(scheduler, after, 0);
            }
        },
        Some(Scan::Idle) => {
            assert forall|i: int| 0 <= i < n implies after.queue()[i].id == before[i].id by {
                assert(before[i].checked(after.queue()[i], false));
            }
            assert forall|i: int| 0 <= i < n - 1 implies #[trigger] new_ids[i] == old_ids[i
                + 1] by {
                assert(before[i] == queue[i + 1]);
            }
            assert(turned(old_ids, new_ids, 1));
            if scheduler.well_formed() {
                lemma_turned_keeps_well_formed(scheduler, after, 1);
            }
        },
        Some(Scan::Found(id)) => {
            let skipped = choose|skipped: int| scan_found(before, after.queue(), skipped);
            let shift = skipped + 1;
            assert(before[n - 1] == parked(queue[0], state, frame_before));
            assert forall|i: int| 0 <= i < n implies #[trigger] new_ids[i] == (if i + skipped
                < n {
                before[i + skipped].id
            } else {
                before[i + skipped - n].id
            }) by {}
            assert forall|i: int| 0 <= i < n - shift implies #[trigger] new_ids[i] == old_ids[i
                + shift] by {}
            assert forall|i: int| 0 <= i < shift implies new_ids[n - shift + i]
                == #[trigger] old_ids[i] by {}
            assert(turned(old_ids, new_ids, shift));
            if scheduler.well_formed() {
                assert(new_ids[0] == id);
                lemma_turned_keeps_well_formed(scheduler, after, shift);
            }
        },
    }
}

/// A rescan keeps the ids and the scheduler's invariant. Whatever the
/// conditions it polls do, the queue holds the same ids in the same cyclic
/// order after the rescan, and a well-formed scheduler stays well formed.
pub proof fn lemma_rescan_keeps_well_formed(
    scheduler: Scheduler,
    frame_before: TrapFrame,
    after: Scheduler,
    frame_after: TrapFrame,
    result: Option<Scan>,
)
    requires
        scheduler.rescanned(frame_before, after, frame_after, result),
    ensures
        exists|shift: int| turned(ids(scheduler.queue()), ids(after.queue()), shift),
        scheduler.well_formed() ==> after.well_formed(),
{
    let before = scheduler.queue();
    let old_ids = ids(before);
    let new_ids = ids(after.queue());
    // The scan turns the queue by as many places as it passes over.
    match result {
        Some(Scan::Found(id)) => {
            let skipped = choose|skipped: int| scan_found(before, after.queue(), skipped);
            assert(turned(old_ids, new_ids, skipped));
            if scheduler.well_formed() {
                assert(new_ids[0] == id);
                lemma_turned_keeps_well_formed(scheduler, after, skipped);
            }
        },
        _ => {
            assert(turned(old_ids, new_ids, 0));
            if scheduler.well_formed() {
                lemma_turned_keeps_well_formed(scheduler, after, 0);
            }
        },
    }
}

/// A switch leaves one process running. If no process behind the front is
/// running and the interrupted process is not put away as running, then
/// after a switch that finds a process, that process is the only running
/// one: every process behind the front is ready or waiting.
pub proof fn lemma_switch_leaves_one_running(
    scheduler: Scheduler,
    state: State,
    frame_before: TrapFrame,
    after: Scheduler,
    frame_after: TrapFrame,
    result: Option<Scan>,
)
    requires
        scheduler.switched(state, frame_before, after, frame_after, result),
        !(state is Running),
        forall|i: int|
            1 <= i < scheduler.queue().len() ==> !((#[trigger] scheduler.queue()[i]).state
                is Running),
        result is Some && result->0 is Found,
    ensures
        after.queue()[0].state is Running,
        forall|i: int|
            1 <= i < after.queue().len() ==> !((#[trigger] after.queue()[i]).state is Running),
{
    let queue = scheduler.queue();
    let n = queue.len() as int;
    let before = rotated(queue, state, frame_before);
    let skipped = choose|skipped: int| scan_found(before, after.queue(), skipped);
    assert forall|j: int| 0 <= j < n implies !((#[trigger] before[j]).state is Running) by {
        if j < n - 1 {
            assert(before[j] == queue[j + 1]);
        }
    }
    assert forall|i: int| 1 <= i < n implies !((#[trigger] after.queue()[i]).state
        is Running) by {
        if i < n - skipped {
            assert(after.queue()[(i + skipped) - skipped] == before[i + skipped]);
        } else {
            let j = i - (n - skipped);
            assert(before[j].checked(after.queue()[n - skipped + j], false));
        }
    }
}

} // verus!
