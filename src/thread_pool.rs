use std::collections::VecDeque;

use vstd::prelude::*;

verus! {

/// The state of a worker pool, as numbers and a queue.
pub struct PoolView<J> {
    pub queue: Seq<J>,
    /// Every job queued, in order.
    pub submitted: Seq<J>,
    /// Every job a worker has taken, in order.
    pub started: Seq<J>,
    /// The number of workers the pool aims at.
    pub thread_num: nat,
    /// Workers running a job.
    pub active: nat,
    /// Workers that have panicked, ever.
    pub panicked: nat,
    /// Workers alive.
    pub live: nat,
}

/// One event in the life of a pool.
pub enum PoolStep<J> {
    Execute(J),
    SetThreadNum(usize),
    TakeJob,
    FinishJob,
    PanicExit,
    ShrinkExit,
}

impl<J> PoolView<J> {
    pub open spec fn wf(self) -> bool {
        &&& self.active <= self.live
        &&& self.thread_num <= self.live
        &&& self.started + self.queue == self.submitted
        &&& self.live <= usize::MAX
        &&& self.panicked <= usize::MAX
    }

    pub open spec fn has_work(self) -> bool {
        self.active > 0 || self.queue.len() > 0
    }

    pub open spec fn started(n: nat) -> PoolView<J> {
        PoolView {
            queue: Seq::empty(),
            submitted: Seq::empty(),
            started: Seq::empty(),
            thread_num: n,
            active: 0,
            panicked: 0,
            live: n,
        }
    }

    /// The workers that a change of target starts.
    pub open spec fn spawned_for(self, size: nat) -> nat {
        if size > self.thread_num {
            (size - self.thread_num) as nat
        } else {
            0
        }
    }

    pub open spec fn enabled(self, s: PoolStep<J>) -> bool {
        match s {
            PoolStep::Execute(_) => true,
            PoolStep::SetThreadNum(m) => self.live + self.spawned_for(m as nat) <= usize::MAX,
            PoolStep::TakeJob => self.active < self.live && self.queue.len() > 0,
            PoolStep::FinishJob => self.active > 0,
            PoolStep::PanicExit => self.active > 0,
            PoolStep::ShrinkExit => self.thread_num < self.active && self.active < self.live,
        }
    }

    pub open spec fn step(self, s: PoolStep<J>) -> PoolView<J> {
        match s {
            PoolStep::Execute(j) => PoolView {
                queue: self.queue.push(j),
                submitted: self.submitted.push(j),
                ..self
            },
            PoolStep::SetThreadNum(m) => PoolView {
                thread_num: m as nat,
                live: self.live + self.spawned_for(m as nat),
                ..self
            },
            PoolStep::TakeJob => PoolView {
                queue: self.queue.drop_first(),
                started: self.started.push(self.queue[0]),
                active: self.active + 1,
                ..self
            },
            PoolStep::FinishJob => PoolView { active: (self.active - 1) as nat, ..self },
            PoolStep::PanicExit => PoolView {
                active: (self.active - 1) as nat,
                panicked: if self.panicked < usize::MAX {
                    self.panicked + 1
                } else {
                    self.panicked
                },
                ..self
            },
            PoolStep::ShrinkExit => PoolView { live: (self.live - 1) as nat, ..self },
        }
    }
}

/// The bookkeeping of a resizable worker pool: the job queue, the target
/// number of workers, and the counts of busy, panicked and living workers.
/// Whoever runs the workers holds it under one lock and asks it what to do.
pub struct ThreadPool<J> {
    _thread_name: Option<String>,
    _stack_size: Option<usize>,
    _job_queue: VecDeque<J>,
    _thread_num: usize,
    _active_thread_num: usize,
    _panicked_thread_num: usize,
    _live_thread_num: usize,
    _submitted: Ghost<Seq<J>>,
    _started: Ghost<Seq<J>>,
}

/// Marks a worker whose exit is not one the pool asked for.
pub struct Sentinel {
    _active: bool,
}

impl Sentinel {
    pub closed spec fn is_active(&self) -> bool {
        self._active
    }

    /// A sentinel for a worker that has just started.
    pub fn new() -> (r: Sentinel)
        ensures
            r.is_active(),
    {
        Sentinel { _active: true }
    }

    /// Whether the worker's exit was requested by the pool.
    pub fn cancelled(&self) -> (r: bool)
        ensures
            r == !self.is_active(),
    {
        !self._active
    }

    /// The worker leaves on the pool's request.
    pub fn cancel(&mut self)
        ensures
            !final(self).is_active(),
    {
        self._active = false;
    }
}

impl<J> View for ThreadPool<J> {
    type V = PoolView<J>;

    closed spec fn view(&self) -> PoolView<J> {
        PoolView {
            queue: self._job_queue@,
            submitted: self._submitted@,
            started: self._started@,
            thread_num: self._thread_num as nat,
            active: self._active_thread_num as nat,
            panicked: self._panicked_thread_num as nat,
            live: self._live_thread_num as nat,
        }
    }
}

impl<J> ThreadPool<J> {
    pub open spec fn wf(&self) -> bool {
        self@.wf()
    }

    /// A pool of `thread_num` workers with nothing queued.
    pub fn new(thread_num: usize, thread_name: Option<String>, stack_size: Option<usize>) -> (r: Self)
        ensures
            r@ == PoolView::<J>::started(thread_num as nat),
            r.wf(),
            r.thread_name() == thread_name,
            r.stack_size() == stack_size,
    {
        ThreadPool {
            _thread_name: thread_name,
            _stack_size: stack_size,
            _job_queue: VecDeque::new(),
            _thread_num: thread_num,
            _active_thread_num: 0,
            _panicked_thread_num: 0,
            _live_thread_num: thread_num,
            _submitted: Ghost(Seq::empty()),
            _started: Ghost(Seq::empty()),
        }
    }

    pub closed spec fn thread_name(&self) -> Option<String> {
        self._thread_name
    }

    pub closed spec fn stack_size(&self) -> Option<usize> {
        self._stack_size
    }

    /// The name given to each worker.
    pub fn get_thread_name(&self) -> (r: &Option<String>)
        ensures
            *r == self.thread_name(),
    {
        &self._thread_name
    }

    /// The stack size given to each worker.
    pub fn get_stack_size(&self) -> (r: Option<usize>)
        ensures
            r == self.stack_size(),
    {
        self._stack_size
    }

    /// Queues a job behind those already queued.
    pub fn execute(&mut self, job: J)
        requires
            old(self).wf(),
        ensures
            final(self)@ == old(self)@.step(PoolStep::Execute(job)),
            final(self).wf(),
            final(self).thread_name() == old(self).thread_name(),
            final(self).stack_size() == old(self).stack_size(),
    {
        self._submitted = Ghost(self._submitted@.push(job));
        self._job_queue.push_back(job);
        assert(self@.started + self@.queue =~= self@.submitted);
    }

    pub fn queued_job_num(&self) -> (r: usize)
        ensures
            r == self@.queue.len(),
    {
        self._job_queue.len()
    }

    pub fn active_thread_num(&self) -> (r: usize)
        ensures
            r == self@.active,
    {
        self._active_thread_num
    }

    pub fn panicked_thread_num(&self) -> (r: usize)
        ensures
            r == self@.panicked,
    {
        self._panicked_thread_num
    }

    pub fn thread_num(&self) -> (r: usize)
        ensures
            r == self@.thread_num,
    {
        self._thread_num
    }

    pub fn live_thread_num(&self) -> (r: usize)
        ensures
            r == self@.live,
    {
        self._live_thread_num
    }

    /// Sets the target; returns how many workers to start now. Surplus
    /// workers leave later, when they see that too many are busy.
    pub fn set_thread_num(&mut self, size: usize) -> (spawn: usize)
        requires
            old(self).wf(),
            old(self)@.enabled(PoolStep::SetThreadNum(size)),
        ensures
            final(self)@ == old(self)@.step(PoolStep::SetThreadNum(size)),
            spawn == old(self)@.spawned_for(size as nat),
            final(self).wf(),
            final(self).thread_name() == old(self).thread_name(),
            final(self).stack_size() == old(self).stack_size(),
    {
        let old_size = self._thread_num;
        self._thread_num = size;
        if old_size < size {
            let spawn = size - old_size;
            self._live_thread_num = self._live_thread_num + spawn;
            spawn
        } else {
            0
        }
    }

    /// Whether an idle worker should leave: more workers are busy than the target.
    pub fn should_shrink(&self) -> (r: bool)
        ensures
            r == (self@.active > self@.thread_num),
    {
        self._active_thread_num > self._thread_num
    }

    /// An idle worker takes the job at the head of the queue, if there is one.
    pub fn get_job(&mut self) -> (r: Option<J>)
        requires
            old(self).wf(),
            old(self)@.active < old(self)@.live,
        ensures
            old(self)@.queue.len() == 0 ==> r is None && final(self)@ == old(self)@,
            old(self)@.queue.len() > 0 ==> r == Some(old(self)@.queue[0]) && final(self)@ == old(
                self,
            )@.step(PoolStep::TakeJob),
            final(self).wf(),
            final(self).thread_name() == old(self).thread_name(),
            final(self).stack_size() == old(self).stack_size(),
    {
        let ghost q = self._job_queue@;
        let r = self._job_queue.pop_front();
        if r.is_some() {
            self._started = Ghost(self._started@.push(q[0]));
            assert(self@.started + self@.queue =~= self@.submitted);
            self._active_thread_num = self._active_thread_num + 1;
        }
        r
    }

    /// A worker has finished its job; returns whether the pool fell idle,
    /// so that those who wait for it are woken.
    pub fn finish_job(&mut self) -> (notify: bool)
        requires
            old(self).wf(),
            old(self)@.enabled(PoolStep::FinishJob),
        ensures
            final(self)@ == old(self)@.step(PoolStep::FinishJob),
            notify == !final(self)@.has_work(),
            final(self).wf(),
            final(self).thread_name() == old(self).thread_name(),
            final(self).stack_size() == old(self).stack_size(),
    {
        self._active_thread_num = self._active_thread_num - 1;
        self._active_thread_num == 0 && self._job_queue.len() == 0
    }

    /// A worker leaves. With a cancelled sentinel it leaves on request; with
    /// an active one its job panicked, it is counted and replaced.
    /// Returns whether the pool fell idle, and whether to start a replacement.
    pub fn worker_exit(&mut self, sentinel: &Sentinel) -> (r: (bool, bool))
        requires
            old(self).wf(),
            sentinel.is_active() ==> old(self)@.enabled(PoolStep::PanicExit),
            !sentinel.is_active() ==> old(self)@.enabled(PoolStep::ShrinkExit),
        ensures
            sentinel.is_active() ==> final(self)@ == old(self)@.step(PoolStep::PanicExit) && r == (
            !final(self)@.has_work(), true),
            !sentinel.is_active() ==> final(self)@ == old(self)@.step(PoolStep::ShrinkExit) && r
                == (false, false),
            final(self).wf(),
            final(self).thread_name() == old(self).thread_name(),
            final(self).stack_size() == old(self).stack_size(),
    {
        if sentinel._active {
            self._active_thread_num = self._active_thread_num - 1;
            if self._panicked_thread_num < usize::MAX {
                self._panicked_thread_num = self._panicked_thread_num + 1;
            }
            (self._active_thread_num == 0 && self._job_queue.len() == 0, true)
        } else {
            self._live_thread_num = self._live_thread_num - 1;
            (false, false)
        }
    }

    /// Whether a job is queued or running.
    pub fn has_work(&self) -> (r: bool)
        ensures
            r == self@.has_work(),
    {
        self._active_thread_num > 0 || self._job_queue.len() > 0
    }

    /// Whether those who wait for the pool to drain may go on.
    pub fn join(&self) -> (r: bool)
        requires
            self.wf(),
        ensures
            r == !self@.has_work(),
            r ==> self@.active == 0 && self@.queue.len() == 0 && self@.started == self@.submitted,
    {
        assert(self@.queue.len() == 0 ==> self@.started + self@.queue =~= self@.started);
        !self.has_work()
    }
}

/// The state after `steps`, taken in order from `v`.
pub open spec fn run<J>(v: PoolView<J>, steps: Seq<PoolStep<J>>) -> PoolView<J>
    decreases steps.len(),
{
    if steps.len() == 0 {
        v
    } else {
        run(v, steps.drop_last()).step(steps.last())
    }
}

/// Each of `steps` may be taken where it stands.
pub open spec fn all_enabled<J>(v: PoolView<J>, steps: Seq<PoolStep<J>>) -> bool
    decreases steps.len(),
{
    steps.len() == 0 || (all_enabled(v, steps.drop_last()) && run(v, steps.drop_last()).enabled(
        steps.last(),
    ))
}

/// No step of `steps` lowers the target.
pub open spec fn never_lowers<J>(v: PoolView<J>, steps: Seq<PoolStep<J>>) -> bool
    decreases steps.len(),
{
    steps.len() == 0 || (never_lowers(v, steps.drop_last()) && match steps.last() {
        PoolStep::SetThreadNum(m) => m as nat >= run(v, steps.drop_last()).thread_num,
        _ => true,
    })
}

/// The target after `steps`: the last one set, else the first.
pub open spec fn target_after<J>(n: nat, steps: Seq<PoolStep<J>>) -> nat
    decreases steps.len(),
{
    if steps.len() == 0 {
        n
    } else {
        match steps.last() {
            PoolStep::SetThreadNum(m) => m as nat,
            _ => target_after(n, steps.drop_last()),
        }
    }
}

/// Every step keeps a well-formed pool well formed.
pub proof fn lemma_step_wf<J>(v: PoolView<J>, s: PoolStep<J>)
    requires
        v.wf(),
        v.enabled(s),
    ensures
        v.step(s).wf(),
{
    match s {
        PoolStep::Execute(j) => {
            assert(v.started + v.queue.push(j) =~= v.submitted.push(j));
        },
        PoolStep::TakeJob => {
            assert(v.started.push(v.queue[0]) + v.queue.drop_first() =~= v.started + v.queue);
        },
        _ => {},
    }
}


/// A pool started with `n` workers stays well formed, and its target is the
/// last one set.
pub proof fn lemma_run_wf<J>(n: nat, steps: Seq<PoolStep<J>>)
    requires
        n <= usize::MAX,
        all_enabled(PoolView::<J>::started(n), steps),
    ensures
        run(PoolView::<J>::started(n), steps).wf(),
        run(PoolView::<J>::started(n), steps).thread_num == target_after(n, steps),
    decreases steps.len(),
{
    if steps.len() > 0 {
        lemma_run_wf(n, steps.drop_last());
        lemma_step_wf(run(PoolView::<J>::started(n), steps.drop_last()), steps.last());
    }
}

/// Where the target is never lowered, the pool always has exactly as many
/// workers as its target; once it has no work left, no job is queued or
/// running, and every job queued has been taken exactly once, in order.
pub proof fn lemma_settles_at_target<J>(n: nat, steps: Seq<PoolStep<J>>)
    requires
        n <= usize::MAX,
        all_enabled(PoolView::<J>::started(n), steps),
        never_lowers(PoolView::<J>::started(n), steps),
    ensures
        run(PoolView::<J>::started(n), steps).live == target_after(n, steps),
        run(PoolView::<J>::started(n), steps).thread_num == target_after(n, steps),
        !run(PoolView::<J>::started(n), steps).has_work() ==> run(
            PoolView::<J>::started(n),
            steps,
        ).active == 0 && run(PoolView::<J>::started(n), steps).queue.len() == 0 && run(
            PoolView::<J>::started(n),
            steps,
        ).started == run(PoolView::<J>::started(n), steps).submitted,
    decreases steps.len(),
{
    lemma_run_wf(n, steps);
    if steps.len() > 0 {
        lemma_settles_at_target(n, steps.drop_last());
        lemma_run_wf(n, steps.drop_last());
    }
}

/// Once a job has panicked, the panic count stays at one or more, while the
/// target stays the one last set and the replacement keeps the workers at it.
pub proof fn lemma_panic_counted<J>(n: nat, steps: Seq<PoolStep<J>>, i: int)
    requires
        n <= usize::MAX,
        all_enabled(PoolView::<J>::started(n), steps),
        0 <= i < steps.len(),
        steps[i] is PanicExit,
    ensures
        run(PoolView::<J>::started(n), steps).panicked >= 1,
        run(PoolView::<J>::started(n), steps).thread_num == target_after(n, steps),
    decreases steps.len(),
{
    lemma_run_wf(n, steps);
    if i < steps.len() - 1 {
        lemma_panic_counted(n, steps.drop_last(), i);
    }
}

} // verus!
