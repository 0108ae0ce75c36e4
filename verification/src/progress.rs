use vstd::prelude::*;

verus! {

/// Progress accounting for one compute run: a completed-work counter that
/// only moves forward, against a total fixed when the run starts.
///
/// The compute collaborator ticks the counter once per visited element
/// (masked-out elements included), so `total` is the element count of the
/// input volume. Front ends read `snapshot` to drive a progress display and
/// to detect completion. In the running program the counter is mirrored by a
/// shared atomic owned by the front end; this type is the single-writer model
/// that every driver decision is proved against.
pub struct ProgressChannel {
    completed: usize,
    total: usize,
}

impl ProgressChannel {
    /// Number of ticks recorded so far.
    pub closed spec fn completed(self) -> nat {
        self.completed as nat
    }

    /// The fixed denominator for this run.
    pub closed spec fn total(self) -> nat {
        self.total as nat
    }

    /// The counter never runs past the announced total: the compute
    /// collaborator ticks exactly once per element, and `total` is the
    /// element count.
    pub closed spec fn wf(self) -> bool {
        self.completed <= self.total
    }

    /// The state one tick later.
    pub closed spec fn ticked(self) -> ProgressChannel {
        ProgressChannel { completed: (self.completed + 1) as usize, total: self.total }
    }

    /// A fresh channel, zero ticks recorded, for a run of `total` units.
    pub fn new(total: usize) -> (c: ProgressChannel)
        ensures
            c.completed() == 0,
            c.total() == total,
            c.wf(),
    {
        ProgressChannel { completed: 0, total }
    }

    /// Record one unit of work done.
    pub fn emit_tick(&mut self)
        requires
            old(self).wf(),
            old(self).completed() < old(self).total(),
        ensures
            *final(self) == old(self).ticked(),
            final(self).completed() == old(self).completed() + 1,
            final(self).total() == old(self).total(),
            final(self).wf(),
    {
        self.completed = self.completed + 1;
    }

    /// Current completed count.
    pub fn snapshot(&self) -> (n: usize)
        ensures
            n == self.completed(),
    {
        self.completed
    }

    /// The total this channel was created with.
    pub fn total_units(&self) -> (n: usize)
        ensures
            n == self.total(),
    {
        self.total
    }

    /// True exactly when every unit of work has been ticked.
    pub fn is_complete(&self) -> (b: bool)
        ensures
            b == (self.completed() == self.total()),
    {
        self.completed == self.total
    }
}

/// The channel state after the ticks of `schedule` have been applied, one at
/// a time, in order. An entry of `schedule` names the worker that made the
/// tick; the compute collaborator may split its work over several internal
/// workers, and their ticks may land in any order.
pub open spec fn run_schedule(c: ProgressChannel, schedule: Seq<int>) -> ProgressChannel
    decreases schedule.len(),
{
    if schedule.len() == 0 {
        c
    } else {
        run_schedule(c.ticked(), schedule.drop_first())
    }
}

/// Every tick advances the count by exactly one, whichever worker made it:
/// after a schedule of ticks the count is the old count plus the schedule's
/// length, with nothing lost and nothing counted twice.
pub proof fn lemma_schedule_counts(c: ProgressChannel, schedule: Seq<int>)
    requires
        c.wf(),
        c.completed() + schedule.len() <= c.total(),
    ensures
        run_schedule(c, schedule).completed() == c.completed() + schedule.len(),
        run_schedule(c, schedule).total() == c.total(),
        run_schedule(c, schedule).wf(),
    decreases schedule.len(),
{
    if schedule.len() > 0 {
        lemma_schedule_counts(c.ticked(), schedule.drop_first());
    }
}

/// The snapshot is non-decreasing over time: whatever ticks arrive, a later
/// observation of the channel never reads a smaller count than an earlier
/// one.
pub proof fn lemma_snapshot_monotone(c: ProgressChannel, earlier: Seq<int>, later: Seq<int>)
    requires
        c.wf(),
        c.completed() + later.len() <= c.total(),
        earlier.len() <= later.len(),
    ensures
        run_schedule(c, earlier).completed() <= run_schedule(c, later).completed(),
{
    lemma_schedule_counts(c, earlier);
    lemma_schedule_counts(c, later);
}

/// No lost updates under parallel ticking: `workers` workers that each tick
/// `per_worker` times, interleaved in any order whatever, leave the count at
/// exactly the total of a channel sized to `workers * per_worker`.
pub proof fn lemma_concurrent_ticks_reach_total(
    c: ProgressChannel,
    schedule: Seq<int>,
    workers: nat,
    per_worker: nat,
)
    requires
        c.wf(),
        c.completed() == 0,
        c.total() == workers * per_worker,
        schedule.len() == workers * per_worker,
    ensures
        run_schedule(c, schedule).completed() == c.total(),
{
    lemma_schedule_counts(c, schedule);
}

/// Driver-side progress display state: the channel for the run in flight,
/// if one is, and the element total announced when the run was launched.
pub struct Progress {
    channel: ProgressChannel,
    total_vox_to_compute: Option<usize>,
}

impl Progress {
    /// The channel being observed.
    pub closed spec fn channel(self) -> ProgressChannel {
        self.channel
    }

    /// The announced total, if a run has been launched.
    pub closed spec fn announced_total(self) -> Option<usize> {
        self.total_vox_to_compute
    }

    /// A display either knows the total of a live run and the channel is
    /// sized to it, or no run has been announced.
    pub closed spec fn wf(self) -> bool {
        &&& self.channel.wf()
        &&& match self.total_vox_to_compute {
            Some(t) => self.channel.total() == t,
            None => true,
        }
    }

    /// Start observing a fresh run of `total` elements: the counter is reset
    /// to zero, never reused from an earlier run.
    pub fn begin_run(&mut self, total: usize)
        ensures
            final(self).announced_total() == Some(total),
            final(self).channel().completed() == 0,
            final(self).channel().total() == total,
            final(self).wf(),
    {
        self.channel = ProgressChannel::new(total);
        self.total_vox_to_compute = Some(total);
    }

    /// Whole percent of work done, clamped to 100, or `None` while no run
    /// has been announced or the announced total is zero.
    pub fn display_percent(&self) -> (p: Option<u8>)
        requires
            self.wf(),
        ensures
            match self.announced_total() {
                Some(t) => if t == 0 {
                    p is None
                } else {
                    p == Some(((self.channel().completed() as int * 100) / (t as int)) as u8)
                },
                None => p is None,
            },
    {
        match self.total_vox_to_compute {
            Some(t) => {
                if t == 0 {
                    None
                } else {
                    let c = self.channel.snapshot();
                    proof {
                        assert(c <= t);
                        assert(c as int * 100 <= t as int * 100) by (nonlinear_arith)
                            requires c <= t;
                        assert((c as int * 100) / (t as int) <= 100) by (nonlinear_arith)
                            requires t > 0 && c as int * 100 <= t as int * 100;
                    }
                    Some(((c as u128 * 100) / (t as u128)) as u8)
                }
            }
            None => None,
        }
    }

    /// Feed one observed tick into the model channel.
    pub fn record_tick(&mut self)
        requires
            old(self).wf(),
            old(self).channel().completed() < old(self).channel().total(),
        ensures
            final(self).channel() == old(self).channel().ticked(),
            final(self).announced_total() == old(self).announced_total(),
            final(self).wf(),
    {
        self.channel.emit_tick();
    }

    /// True exactly when a run was announced and every element is done.
    pub fn run_complete(&self) -> (b: bool)
        requires
            self.wf(),
        ensures
            b == (self.announced_total() is Some
                && self.channel().completed() == self.channel().total()),
    {
        match self.total_vox_to_compute {
            Some(_) => self.channel.is_complete(),
            None => false,
        }
    }
}

impl Default for Progress {
    /// No run announced yet; the channel is a zero-sized placeholder.
    fn default() -> (p: Progress)
        ensures
            p.announced_total() is None,
            p.channel().completed() == 0,
            p.wf(),
    {
        Progress { channel: ProgressChannel::new(0), total_vox_to_compute: None }
    }
}

} // verus!
