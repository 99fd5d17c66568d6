//! The decisions behind `async`/`await` on Symbian's active objects: what a `join` has
//! collected, how long a `sleep` may be, which scheduler the executor belongs to, and
//! what one poll round does with a task.
//!
//! The futures, the `CActive` objects and the scheduler are driven at the edge; each
//! step there hands its event to a function here and does what it answers.
use vstd::prelude::*;

use crate::error::{Result, SymbianError, error_of};
use crate::error_kind::ErrorKind;

verus! {

broadcast use crate::error::group_error;

/// What holds a Symbian asynchronous request open, and how to take it back.
///
/// The implementor owns the handle — `RTimer`, `RSocket` — and keeps it alive for as long
/// as a request can complete against it. [`Source::cancel`] must complete the
/// outstanding request **immediately**, which is what `RTimer::Cancel` and
/// `RSocket::CancelAll` do; a `cancel` that does not produce a completion hangs the
/// thread.
pub trait Source {
    /// Take the request back.
    fn cancel(&self);
}

/// Which side of a race finished first.
#[derive(Debug, Clone, Copy, PartialEq, Eq, Structural)]
pub enum Either<L, R> {
    Left(L),
    Right(R),
}

/// What a `join` of two futures has collected: each side's output from the poll that
/// finished it, until both are there.
pub struct Join<L, R> {
    left: Option<L>,
    right: Option<R>,
}

impl<L, R> View for Join<L, R> {
    type V = (Option<L>, Option<R>);

    closed spec fn view(&self) -> (Option<L>, Option<R>) {
        (self.left, self.right)
    }
}

impl<L, R> Join<L, R> {
    /// Nothing collected yet.
    pub fn new() -> (j: Self)
        ensures
            j@ == (None::<L>, None::<R>),
    {
        Join { left: None, right: None }
    }

    /// The first future finished with `value`.
    pub fn left_finished(&mut self, value: L)
        ensures
            final(self)@ == (Some(value), old(self)@.1),
    {
        self.left = Some(value);
    }

    /// The second future finished with `value`.
    pub fn right_finished(&mut self, value: R)
        ensures
            final(self)@ == (old(self)@.0, Some(value)),
    {
        self.right = Some(value);
    }

    /// Whether the first future still has to be polled: it has not finished yet.
    pub fn needs_left(&self) -> (needed: bool)
        ensures
            needed == self@.0 is None,
    {
        self.left.is_none()
    }

    /// Whether the second future still has to be polled.
    pub fn needs_right(&self) -> (needed: bool)
        ensures
            needed == self@.1 is None,
    {
        self.right.is_none()
    }

    /// One round of the join: what the first future answered when it was polled (it is
    /// polled only while [`Join::needs_left`]), then the second, and both outputs once
    /// both are in.
    pub fn round(&mut self, left: Option<L>, right: Option<R>) -> (r: Option<(L, R)>)
        ensures
            (final(self)@, r) == join_round(old(self)@, left, right),
    {
        if self.left.is_none() {
            self.left = left;
        }
        if self.right.is_none() {
            self.right = right;
        }
        self.finish()
    }

    /// Both outputs, once both futures have finished; until then nothing, and what was
    /// collected stays.
    pub fn finish(&mut self) -> (r: Option<(L, R)>)
        ensures
            match old(self)@ {
                (Some(l), Some(r0)) => r == Some((l, r0)) && final(self)@ == (None::<L>, None::<R>),
                _ => r is None && final(self)@ == old(self)@,
            },
    {
        match (self.left.take(), self.right.take()) {
            (Some(left), Some(right)) => Some((left, right)),
            (left, right) => {
                self.left = left;
                self.right = right;
                None
            },
        }
    }
}

/// One round of a join holding `s`: the first future's answer counts only while it is
/// needed, then the second's, and the pair comes out, emptying the join, once both are in.
pub open spec fn join_round<L, R>(s: (Option<L>, Option<R>), left: Option<L>, right: Option<R>) -> (
    (Option<L>, Option<R>),
    Option<(L, R)>,
) {
    let l = if s.0 is None {
        left
    } else {
        s.0
    };
    let r = if s.1 is None {
        right
    } else {
        s.1
    };
    match (l, r) {
        (Some(x), Some(y)) => ((None, None), Some((x, y))),
        _ => ((l, r), None),
    }
}

/// What a join has collected after `t` rounds, the first future answering `lefts[u]` and
/// the second `rights[u]` in round `u` whenever they are polled.
pub open spec fn join_state<L, R>(lefts: Seq<Option<L>>, rights: Seq<Option<R>>, t: nat) -> (
    Option<L>,
    Option<R>,
)
    decreases t,
{
    if t == 0 {
        (None, None)
    } else {
        join_round(join_state(lefts, rights, (t - 1) as nat), lefts[t - 1], rights[t - 1]).0
    }
}

/// Whether the first future is polled in round `t`.
pub open spec fn needs_left_at<L, R>(lefts: Seq<Option<L>>, rights: Seq<Option<R>>, t: nat) -> bool {
    join_state(lefts, rights, t).0 is None
}

/// Whether the second future is polled in round `t`.
pub open spec fn needs_right_at<L, R>(lefts: Seq<Option<L>>, rights: Seq<Option<R>>, t: nat) -> bool {
    join_state(lefts, rights, t).1 is None
}

/// What the join answers in round `t`: both outputs, or nothing yet.
pub open spec fn join_answer<L, R>(lefts: Seq<Option<L>>, rights: Seq<Option<R>>, t: nat) -> Option<
    (L, R),
> {
    join_round(join_state(lefts, rights, t), lefts[t as int], rights[t as int]).1
}

/// Whether `answers` is `Pending` before round `i` and `Ready` in round `i`.
pub open spec fn first_ready_at<T>(answers: Seq<Option<T>>, i: int) -> bool {
    &&& 0 <= i < answers.len()
    &&& answers[i] is Some
    &&& forall|u: int| 0 <= u < i ==> answers[u] is None
}

/// Before the round in which both futures have finished, each side is what it finished
/// with, if it has, and nothing otherwise.
proof fn lemma_join_state<L, R>(
    lefts: Seq<Option<L>>,
    rights: Seq<Option<R>>,
    i: int,
    k: int,
    t: nat,
)
    requires
        first_ready_at(lefts, i),
        first_ready_at(rights, k),
        t <= i || t <= k,
    ensures
        join_state(lefts, rights, t) == (
            if t > i {
                lefts[i]
            } else {
                None::<L>
            },
            if t > k {
                rights[k]
            } else {
                None::<R>
            },
        ),
    decreases t,
{
    if t > 0 {
        lemma_join_state(lefts, rights, i, k, (t - 1) as nat);
    }
}

/// A join polls each future until it has finished and never after, answers nothing
/// before both have finished, and in the round the later of the two finishes answers
/// both outputs, whichever finished first.
pub proof fn law_join_rounds<L, R>(
    lefts: Seq<Option<L>>,
    rights: Seq<Option<R>>,
    i: int,
    k: int,
    t: nat,
)
    requires
        first_ready_at(lefts, i),
        first_ready_at(rights, k),
        t <= i || t <= k,
    ensures
        needs_left_at(lefts, rights, t) == (t <= i),
        needs_right_at(lefts, rights, t) == (t <= k),
        t < i || t < k ==> join_answer(lefts, rights, t) == None::<(L, R)>,
        t >= i && t >= k ==> join_answer(lefts, rights, t) == Some(
            (lefts[i]->Some_0, rights[k]->Some_0),
        ),
{
    lemma_join_state(lefts, rights, i, k, t);
}

/// What a race ends with after one round: the first future's output if it finished,
/// otherwise the second's if that one did. The loser is dropped at the edge, which
/// cancels its outstanding request.
pub fn race_outcome<L, R>(left: Option<L>, right: Option<R>) -> (r: Option<Either<L, R>>)
    ensures
        match left {
            Some(l) => r == Some(Either::<L, R>::Left(l)),
            None => match right {
                Some(x) => r == Some(Either::<L, R>::Right(x)),
                None => r is None,
            },
        },
{
    match left {
        Some(l) => Some(Either::Left(l)),
        None => match right {
            Some(x) => Some(Either::Right(x)),
            None => None,
        },
    }
}

/// The longest sleep `RTimer::After` can express: its interval is a `TInt` of
/// microseconds, 2 147 483 647 µs — 35 minutes 47 seconds.
pub const MAX_SLEEP_MICROS: u128 = 0x7fff_ffff;

/// The `RTimer::After` interval for a sleep of `micros` microseconds. A longer one than
/// [`MAX_SLEEP_MICROS`] is `KErrOverflow` rather than a silently shorter sleep.
pub fn sleep_interval(micros: u128) -> (r: Result<i32>)
    ensures
        micros <= MAX_SLEEP_MICROS ==> r == Ok::<i32, SymbianError>(micros as i32),
        micros > MAX_SLEEP_MICROS ==> r == Err::<i32, SymbianError>(error_of(ErrorKind::Overflow)),
{
    if micros > MAX_SLEEP_MICROS {
        Err(SymbianError::of(ErrorKind::Overflow))
    } else {
        Ok(micros as i32)
    }
}

/// What binding the executor bound to `bound` (`0` for none) does for a thread whose
/// scheduler is `current` (`0` for none): the binding afterwards, and whether the thread
/// may use the executor.
pub open spec fn bind_spec(bound: u32, current: u32) -> (u32, Result<()>) {
    if current == 0 {
        (bound, Err(error_of(ErrorKind::NotReady)))
    } else if bound == 0 {
        (current, Ok(()))
    } else if bound == current {
        (bound, Ok(()))
    } else {
        (bound, Err(error_of(ErrorKind::InUse)))
    }
}

/// What binding the executor to the calling thread's scheduler does: the scheduler it
/// is bound to afterwards (`0` for none), and whether the thread may use it.
///
/// `KErrNotReady` when the thread has no scheduler; `KErrInUse` when another thread's
/// scheduler owns the executor. The first scheduler that asks owns it.
pub fn bind(bound: u32, current: u32) -> (r: (u32, Result<()>))
    ensures
        r == bind_spec(bound, current),
{
    if current == 0 {
        return (bound, Err(SymbianError::of(ErrorKind::NotReady)));
    }
    if bound == 0 {
        (current, Ok(()))
    } else if bound == current {
        (bound, Ok(()))
    } else {
        (bound, Err(SymbianError::of(ErrorKind::InUse)))
    }
}

/// The first scheduler to bind the executor owns it: a second thread's scheduler is
/// refused, and the owner keeps its binding however often it asks again.
pub proof fn law_bind_first_owner(first: u32, other: u32)
    requires
        first != 0,
        other != 0,
        first != other,
    ensures
        ({
            let (bound, r) = bind_spec(0, first);
            &&& bound == first && r is Ok
            &&& bind_spec(bound, other) == (first, Err::<(), SymbianError>(error_of(ErrorKind::InUse)))
            &&& bind_spec(bound, first) == (first, Ok::<(), SymbianError>(()))
        }),
{
}

/// What one poll round does with a task.
#[derive(Debug, Clone, Copy, PartialEq, Eq, Structural)]
pub enum TaskStep {
    /// Nothing: it has finished, or no wake arrived since it was last polled.
    Skip,
    /// It is being polled further down the stack: mark it again, so that whoever is
    /// polling sees the wake on their next round.
    Remark,
    /// Poll the future.
    Poll,
}

/// The step for a task that has `finished` or not, whose wake flag was `woken`, and whose
/// future is `present`.
pub open spec fn task_step_spec(finished: bool, woken: bool, present: bool) -> TaskStep {
    if finished || !woken {
        TaskStep::Skip
    } else if !present {
        TaskStep::Remark
    } else {
        TaskStep::Poll
    }
}

/// Whether a task needs polling.
pub open spec fn task_is_ready_spec(finished: bool, woken: bool) -> bool {
    !finished && woken
}

/// The step for a task that has `finished` or not, whose wake flag was `woken` when
/// taken, and whose future is `present` (absent while a poll is under way).
pub fn task_step(finished: bool, woken: bool, present: bool) -> (step: TaskStep)
    ensures
        step == task_step_spec(finished, woken, present),
{
    if finished || !woken {
        TaskStep::Skip
    } else if !present {
        TaskStep::Remark
    } else {
        TaskStep::Poll
    }
}

/// Whether a task needs polling: a wake has arrived and it has not finished.
pub fn task_is_ready(finished: bool, woken: bool) -> (ready: bool)
    ensures
        ready == task_is_ready_spec(finished, woken),
{
    !finished && woken
}

/// A task's two flags: whether a wake has arrived since it was last taken, and whether
/// its future has finished.
#[derive(Debug, Clone, Copy, PartialEq, Eq, Structural)]
pub struct TaskFlags {
    pub ready: bool,
    pub finished: bool,
}

/// What happens to a task: its waker is woken, or a poll round reaches it, with its
/// future in place or not (it is out while a poll is under way further down the stack)
/// and, if that round polls the future, whether the future answers `Ready`.
#[derive(Debug, Clone, Copy, PartialEq, Eq, Structural)]
pub enum TaskEvent {
    Wake,
    Poll { present: bool, finishes: bool },
}

/// A new task: its flag starts set, because a future never polled needs polling.
pub open spec fn task_new() -> TaskFlags {
    TaskFlags { ready: true, finished: false }
}

/// One event on a task: the flags after it, and the step the poll round took. A round
/// takes the flag only while the task has not finished; a `Remark` sets it again.
pub open spec fn task_event(s: TaskFlags, e: TaskEvent) -> (TaskFlags, TaskStep) {
    match e {
        TaskEvent::Wake => (TaskFlags { ready: true, finished: s.finished }, TaskStep::Skip),
        TaskEvent::Poll { present, finishes } => {
            let woken = !s.finished && s.ready;
            let step = task_step_spec(s.finished, woken, present);
            let ready = if s.finished {
                s.ready
            } else {
                step == TaskStep::Remark
            };
            let finished = s.finished || (step == TaskStep::Poll && finishes);
            (TaskFlags { ready, finished }, step)
        },
    }
}

/// The flags of a task after `events`, from [`task_new`].
pub open spec fn task_history(events: Seq<TaskEvent>) -> TaskFlags
    decreases events.len(),
{
    if events.len() == 0 {
        task_new()
    } else {
        task_event(task_history(events.drop_last()), events.last()).0
    }
}

/// A future is polled only when its flag was set, and that poll clears the flag; the
/// first poll of a new task always polls it.
pub proof fn law_task_polls_only_when_woken(s: TaskFlags, e: TaskEvent)
    ensures
        task_event(s, e).1 == TaskStep::Poll ==> s.ready && !s.finished && !task_event(s, e).0.ready,
        task_event(task_new(), TaskEvent::Poll { present: true, finishes: false }).1
            == TaskStep::Poll,
{
}

/// Once the future has answered `Ready` the task stays finished, is never polled again
/// and is never ready, whatever events follow.
pub proof fn law_task_finished_is_final(events: Seq<TaskEvent>, later: Seq<TaskEvent>, e: TaskEvent)
    requires
        task_history(events).finished,
    ensures
        task_history(events + later).finished,
        task_event(task_history(events + later), e).1 != TaskStep::Poll,
        !task_is_ready_spec(task_history(events + later).finished, task_history(events + later).ready),
    decreases later.len(),
{
    if later.len() == 0 {
        assert(events + later =~= events);
    } else {
        law_task_finished_is_final(events, later.drop_last(), e);
        assert((events + later).drop_last() =~= events + later.drop_last());
    }
}

/// The indices, in order, of the tasks a poll round polls, from each task's
/// `(finished, woken)` flags: those that are ready.
pub open spec fn ready_indices(flags: Seq<(bool, bool)>) -> Seq<usize>
    decreases flags.len(),
{
    if flags.len() == 0 {
        Seq::empty()
    } else {
        let rest = ready_indices(flags.drop_last());
        if task_is_ready_spec(flags.last().0, flags.last().1) {
            rest.push((flags.len() - 1) as usize)
        } else {
            rest
        }
    }
}

/// Which tasks one round of the executor polls: every ready one, in the order they were
/// spawned.
pub fn select_ready(flags: &[(bool, bool)]) -> (picked: Vec<usize>)
    ensures
        picked@ == ready_indices(flags@),
{
    let mut picked: Vec<usize> = Vec::new();
    let mut i: usize = 0;
    while i < flags.len()
        invariant
            i <= flags@.len(),
            picked@ == ready_indices(flags@.take(i as int)),
        decreases flags@.len() - i,
    {
        let (finished, woken) = flags[i];
        proof {
            assert(flags@.take(i + 1).drop_last() =~= flags@.take(i as int));
        }
        if task_is_ready(finished, woken) {
            picked.push(i);
        }
        i = i + 1;
    }
    assert(flags@.take(flags@.len() as int) =~= flags@);
    picked
}

/// A round polls exactly the ready tasks, each once, in order: an index is picked if and
/// only if that task is ready, and the picks increase. A round with none ready picks
/// none, which is where the executor's loop of rounds stops.
pub proof fn law_select_ready(flags: Seq<(bool, bool)>, j: int, j2: int, i: int)
    requires
        flags.len() <= usize::MAX,
    ensures
        0 <= i < flags.len() ==> (ready_indices(flags).contains(i as usize) <==> task_is_ready_spec(
            flags[i].0,
            flags[i].1,
        )),
        0 <= j < j2 < ready_indices(flags).len() ==> ready_indices(flags)[j] < ready_indices(
            flags,
        )[j2],
        0 <= j < ready_indices(flags).len() ==> ready_indices(flags)[j] < flags.len(),
{
    lemma_ready_indices(flags);
}

/// The picks lie inside the flags, increase, and are exactly the ready tasks.
proof fn lemma_ready_indices(flags: Seq<(bool, bool)>)
    requires
        flags.len() <= usize::MAX,
    ensures
        forall|u: int|
            0 <= u < ready_indices(flags).len() ==> #[trigger] ready_indices(flags)[u] < flags.len(),
        forall|u1: int, u2: int|
            0 <= u1 < u2 < ready_indices(flags).len() ==> #[trigger] ready_indices(flags)[u1]
                < #[trigger] ready_indices(flags)[u2],
        forall|i: int|
            0 <= i < flags.len() ==> (#[trigger] ready_indices(flags).contains(i as usize)
                <==> task_is_ready_spec(flags[i].0, flags[i].1)),
    decreases flags.len(),
{
    if flags.len() > 0 {
        let n = flags.len() as int;
        let rest = flags.drop_last();
        lemma_ready_indices(rest);
        let rr = ready_indices(rest);
        let ri = ready_indices(flags);
        let ready_last = task_is_ready_spec(flags[n - 1].0, flags[n - 1].1);
        assert(flags.last() == flags[n - 1]);
        assert(ri == (if ready_last {
            rr.push((n - 1) as usize)
        } else {
            rr
        }));
        assert forall|u: int| 0 <= u < ri.len() implies #[trigger] ri[u] < flags.len() by {
            if u < rr.len() {
                assert(ri[u] == rr[u]);
            }
        }
        assert forall|u1: int, u2: int| 0 <= u1 < u2 < ri.len() implies #[trigger] ri[u1]
            < #[trigger] ri[u2] by {
            assert(ri[u1] == rr[u1]);
            if u2 < rr.len() {
                assert(ri[u2] == rr[u2]);
            } else {
                assert(ri[u2] == (n - 1) as usize);
                assert(rr[u1] < rest.len());
            }
        }
        assert forall|i: int| 0 <= i < n implies (#[trigger] ri.contains(i as usize)
            <==> task_is_ready_spec(flags[i].0, flags[i].1)) by {
            if i < n - 1 {
                assert(rest[i] == flags[i]);
                if ri.contains(i as usize) {
                    let w = choose|w: int| 0 <= w < ri.len() && ri[w] == i as usize;
                    if w < rr.len() {
                        assert(rr[w] == i as usize);
                    }
                }
                if rr.contains(i as usize) {
                    let w = choose|w: int| 0 <= w < rr.len() && rr[w] == i as usize;
                    assert(ri[w] == i as usize);
                }
            } else {
                if task_is_ready_spec(flags[i].0, flags[i].1) {
                    assert(ri[rr.len() as int] == (n - 1) as usize);
                } else {
                    if ri.contains(i as usize) {
                        let w = choose|w: int| 0 <= w < ri.len() && ri[w] == i as usize;
                        assert(rr[w] < rest.len());
                    }
                }
            }
        }
    }
}

/// Whether a completion stops the scheduler: only while `Start()` is running, and only
/// once the future the executor was started for has been woken.
pub fn stops_scheduler(started: bool, root_woken: bool) -> (stop: bool)
    ensures
        stop == (started && root_woken),
{
    started && root_woken
}

/// Whether destroying the active object at `active` must wait, because its own `RunL`
/// (the one at `running`) is on the stack below the caller. A null object never waits.
pub fn defers_destroy(active: usize, running: usize) -> (wait: bool)
    ensures
        wait == (active != 0 && active == running),
{
    active != 0 && active == running
}

} // verus!
