use vstd::prelude::*;

use crate::errors::PipelineError;
use crate::options::MapOptions;
use crate::progress::Progress;
use crate::shape::{spec_numel, VolumeShape};

verus! {

/// Where one end-to-end run stands. The successful path is
/// `Idle, Loading, Validated, Running, Computed, Writing, Complete`, in that
/// order with nothing skipped; each stage that can fail has its own
/// terminal failure status.
#[derive(Clone, Copy, Debug, PartialEq, Eq, Structural)]
pub enum RunStatus {
    /// No inputs confirmed; nothing spawned.
    Idle,
    /// Both load tasks (volume, and mask if supplied) are in flight.
    Loading,
    /// Loads joined and shapes agreed; compute may start.
    Validated,
    /// The compute task is in flight, ticking the progress channel.
    Running,
    /// Compute joined successfully; its result awaits the write stage.
    Computed,
    /// The write task is in flight.
    Writing,
    /// Everything written; the run is over.
    Complete,
    /// A load join failed, or the shapes disagreed; compute never starts.
    LoadFailed,
    /// The compute join reported an abnormal termination.
    ComputeFailed,
    /// The write join reported a failure; files already written stay.
    WriteFailed,
}

impl RunStatus {
    /// Position on the successful path.
    pub open spec fn rank(self) -> int {
        match self {
            RunStatus::Idle => 0,
            RunStatus::Loading => 1,
            RunStatus::Validated => 2,
            RunStatus::Running => 3,
            RunStatus::Computed => 4,
            RunStatus::Writing => 5,
            RunStatus::Complete => 6,
            RunStatus::LoadFailed => -1,
            RunStatus::ComputeFailed => -1,
            RunStatus::WriteFailed => -1,
        }
    }

    /// A status the run never leaves.
    pub open spec fn is_terminal(self) -> bool {
        match self {
            RunStatus::Complete => true,
            RunStatus::LoadFailed => true,
            RunStatus::ComputeFailed => true,
            RunStatus::WriteFailed => true,
            _ => false,
        }
    }

    /// A terminal failure.
    pub open spec fn is_failure(self) -> bool {
        self.is_terminal() && !(self is Complete)
    }
}

/// What a driver observed since its last tick. One event is handed to the
/// run per tick; a tick never blocks, so joins are only reported here once
/// the driver saw the stage finish.
pub enum TickEvent {
    /// Nothing new this tick.
    Quiet,
    /// The launch trigger fired with both input paths confirmed.
    LaunchPressed,
    /// Both load tasks finished and were joined: the volume's outcome, and
    /// the mask's if a mask was supplied.
    LoadsFinished {
        volume: Result<VolumeShape, PipelineError>,
        mask: Option<Result<VolumeShape, PipelineError>>,
    },
    /// The compute task finished and was joined; `failure` wraps the cause
    /// of an abnormal termination.
    ComputeFinished { failure: Option<String> },
    /// An output directory is confirmed and the pending result may be
    /// handed to the write stage.
    OutputConfirmed,
    /// The write task finished and was joined.
    WriteFinished { failure: Option<String> },
}

/// What the driver must do after a tick: spawn the stage the run just
/// entered, or nothing.
pub enum TickAction {
    /// Nothing to spawn.
    Stay,
    /// Spawn one load task per supplied input.
    SpawnLoads,
    /// Spawn the compute task, sized to `total` progress ticks on a freshly
    /// zeroed channel.
    SpawnCompute { total: usize },
    /// Hand the compute result to one write task.
    SpawnWrite,
    /// The launch was refused: the resolved feature set is empty, and
    /// nothing may be spawned.
    RefuseLaunch,
}

/// The status after `ev` hits a run with status `s`, `features` requested
/// features, and the given load outcomes. This is the whole transition
/// relation of one run; the executable `tick` is proved to follow it.
pub open spec fn next_status(s: RunStatus, features: nat, ev: TickEvent) -> RunStatus {
    match (s, ev) {
        (RunStatus::Idle, TickEvent::LaunchPressed) => if features == 0 {
            RunStatus::Idle
        } else {
            RunStatus::Loading
        },
        (RunStatus::Loading, TickEvent::LoadsFinished { volume, mask }) => match volume {
            Result::Err(_) => RunStatus::LoadFailed,
            Result::Ok(vs) => match mask {
                Option::None => RunStatus::Validated,
                Option::Some(Result::Err(_)) => RunStatus::LoadFailed,
                Option::Some(Result::Ok(ms)) => if ms.extents() == vs.extents() {
                    RunStatus::Validated
                } else {
                    RunStatus::LoadFailed
                },
            },
        },
        (RunStatus::Validated, _) => RunStatus::Running,
        (RunStatus::Running, TickEvent::ComputeFinished { failure }) => match failure {
            Option::None => RunStatus::Computed,
            Option::Some(_) => RunStatus::ComputeFailed,
        },
        (RunStatus::Computed, TickEvent::OutputConfirmed) => RunStatus::Writing,
        (RunStatus::Writing, TickEvent::WriteFinished { failure }) => match failure {
            Option::None => RunStatus::Complete,
            Option::Some(_) => RunStatus::WriteFailed,
        },
        (_, _) => s,
    }
}

/// One end-to-end invocation: configuration, where it stands, what was
/// loaded, the progress display, and the failure that ended it, if one did.
pub struct PipelineRun {
    opts: MapOptions,
    has_mask: bool,
    status: RunStatus,
    vol_shape: Option<VolumeShape>,
    progress: Progress,
    failure: Option<PipelineError>,
}

impl PipelineRun {
    pub closed spec fn spec_status(self) -> RunStatus {
        self.status
    }

    pub closed spec fn spec_opts(self) -> MapOptions {
        self.opts
    }

    pub closed spec fn spec_has_mask(self) -> bool {
        self.has_mask
    }

    pub closed spec fn spec_vol_shape(self) -> Option<VolumeShape> {
        self.vol_shape
    }

    pub closed spec fn spec_failure(self) -> Option<PipelineError> {
        self.failure
    }

    pub closed spec fn spec_progress(self) -> Progress {
        self.progress
    }

    /// How many features the run computes.
    pub open spec fn features_len(self) -> nat {
        self.spec_opts().spec_features().spec_len()
    }

    /// What every status implies about the rest of the state.
    pub open spec fn wf(self) -> bool {
        &&& self.spec_opts().wf()
        &&& self.spec_progress().wf()
        &&& (match self.spec_vol_shape() {
            Option::Some(vs) => vs.wf(),
            Option::None => true,
        })
        &&& (self.spec_status().rank() >= 2 ==> self.spec_vol_shape() is Some)
        &&& (self.spec_failure() is Some <==> self.spec_status().is_failure())
        &&& (self.spec_status() is ComputeFailed ==> (self.spec_failure() matches Some(e)
            && e is WorkerFailed))
        &&& (self.spec_status() is WriteFailed ==> (self.spec_failure() matches Some(e)
            && e is WriteFailed))
        &&& (self.spec_status().rank() >= 3 ==> (self.spec_vol_shape() matches Some(vs)
            && self.spec_progress().announced_total() == Some(
            spec_numel(vs.extents()) as usize,
        )))
    }

    /// A fresh, inert run. Nothing is spawned until the launch trigger
    /// fires.
    pub fn new(opts: MapOptions, has_mask: bool) -> (r: PipelineRun)
        requires
            opts.wf(),
        ensures
            r.wf(),
            r.spec_status() is Idle,
            r.spec_opts() == opts,
            r.spec_has_mask() == has_mask,
            r.spec_failure() is None,
    {
        PipelineRun {
            opts,
            has_mask,
            status: RunStatus::Idle,
            vol_shape: None,
            progress: Progress::default(),
            failure: None,
        }
    }

    pub fn status(&self) -> (s: RunStatus)
        ensures
            s == self.spec_status(),
    {
        self.status
    }

    pub fn has_mask(&self) -> (b: bool)
        ensures
            b == self.spec_has_mask(),
    {
        self.has_mask
    }

    pub fn opts(&self) -> (o: &MapOptions)
        ensures
            *o == self.spec_opts(),
    {
        &self.opts
    }

    pub fn failure(&self) -> (f: &Option<PipelineError>)
        ensures
            *f == self.spec_failure(),
    {
        &self.failure
    }

    pub fn progress(&self) -> (p: &Progress)
        ensures
            *p == self.spec_progress(),
    {
        &self.progress
    }

    /// The loaded volume's shape, once validation has stored it.
    pub fn vol_shape(&self) -> (s: &Option<VolumeShape>)
        ensures
            *s == self.spec_vol_shape(),
    {
        &self.vol_shape
    }

    /// Advance the run by one observed event and say what to spawn.
    ///
    /// The status moves exactly as `next_status` says. A launch with an
    /// empty resolved feature set is refused while still `Idle`, before any
    /// stage is spawned. Compute is spawned from `Validated` and nowhere
    /// else, on a freshly zeroed channel whose total is the volume's
    /// element count. A shape disagreement between volume and mask ends the
    /// run as `LoadFailed` with `ShapeMismatch` recorded.
    pub fn tick(&mut self, ev: TickEvent) -> (a: TickAction)
        requires
            old(self).wf(),
            ev matches TickEvent::LoadsFinished { mask, .. } ==> (mask is Some <==> old(self).spec_has_mask()),
            ev matches TickEvent::LoadsFinished { volume: Result::Ok(vs), .. } ==> vs.wf(),
        ensures
            final(self).wf(),
            final(self).spec_status() == next_status(
                old(self).spec_status(),
                old(self).features_len(),
                ev,
            ),
            final(self).spec_opts() == old(self).spec_opts(),
            final(self).spec_has_mask() == old(self).spec_has_mask(),
            (a is SpawnLoads <==> (old(self).spec_status() is Idle
                && ev is LaunchPressed && old(self).features_len() > 0)),
            (a is RefuseLaunch <==> (old(self).spec_status() is Idle
                && ev is LaunchPressed && old(self).features_len() == 0)),
            (a is SpawnCompute <==> old(self).spec_status() is Validated),
            (a matches TickAction::SpawnCompute { total } ==> (final(self).spec_vol_shape()
                matches Some(vs) && total == spec_numel(vs.extents())
                && final(self).spec_progress().announced_total() == Some(total)
                && final(self).spec_progress().channel().completed() == 0)),
            (a is SpawnWrite <==> (old(self).spec_status() is Computed
                && ev is OutputConfirmed)),
            (ev matches TickEvent::LoadsFinished { volume: Result::Ok(vs), mask: Some(Result::Ok(ms)) }
                ==> ((old(self).spec_status() is Loading && vs.extents() != ms.extents()) ==> final(self).spec_failure() == Some(PipelineError::ShapeMismatch))),
            (ev matches TickEvent::LoadsFinished { volume: Result::Err(e), .. } ==> (old(self).spec_status() is Loading ==> final(self).spec_failure() == Some(e))),
            (ev matches TickEvent::LoadsFinished { volume: Result::Ok(vs), .. } ==> (final(self).spec_status() is Validated ==> final(self).spec_vol_shape() == Some(vs))),
            (!(ev is LoadsFinished) ==> final(self).spec_vol_shape() == old(self).spec_vol_shape()),
            (final(self).spec_status() == old(self).spec_status() ==> *final(self) == *old(self)),
            (ev matches TickEvent::ComputeFinished { failure: Some(m) } ==> (old(self).spec_status() is Running ==> final(self).spec_failure() == Some(
                PipelineError::WorkerFailed(m),
            ))),
            (ev matches TickEvent::WriteFinished { failure: Some(m) } ==> (old(self).spec_status() is Writing ==> final(self).spec_failure() == Some(
                PipelineError::WriteFailed(m),
            ))),
    {
        match self.status {
            RunStatus::Idle => {
                match ev {
                    TickEvent::LaunchPressed => {
                        if self.opts.features().is_empty() {
                            TickAction::RefuseLaunch
                        } else {
                            self.status = RunStatus::Loading;
                            TickAction::SpawnLoads
                        }
                    }
                    _ => TickAction::Stay,
                }
            }
            RunStatus::Loading => {
                match ev {
                    TickEvent::LoadsFinished { volume, mask } => {
                        match volume {
                            Result::Err(e) => {
                                self.status = RunStatus::LoadFailed;
                                self.failure = Some(e);
                                TickAction::Stay
                            }
                            Result::Ok(vs) => {
                                match mask {
                                    Option::None => {
                                        self.vol_shape = Some(vs);
                                        self.status = RunStatus::Validated;
                                        TickAction::Stay
                                    }
                                    Option::Some(Result::Err(e)) => {
                                        self.status = RunStatus::LoadFailed;
                                        self.failure = Some(e);
                                        TickAction::Stay
                                    }
                                    Option::Some(Result::Ok(ms)) => {
                                        if vs.same_shape(&ms) {
                                            self.vol_shape = Some(vs);
                                            self.status = RunStatus::Validated;
                                            TickAction::Stay
                                        } else {
                                            self.status = RunStatus::LoadFailed;
                                            self.failure = Some(PipelineError::ShapeMismatch);
                                            TickAction::Stay
                                        }
                                    }
                                }
                            }
                        }
                    }
                    _ => TickAction::Stay,
                }
            }
            RunStatus::Validated => {
                let total = match &self.vol_shape {
                    Some(vs) => vs.numel(),
                    None => {
                        proof {
                            assert(false);
                        }
                        0
                    }
                };
                self.progress.begin_run(total);
                self.status = RunStatus::Running;
                TickAction::SpawnCompute { total }
            }
            RunStatus::Running => {
                match ev {
                    TickEvent::ComputeFinished { failure } => {
                        match failure {
                            Option::None => {
                                self.status = RunStatus::Computed;
                                TickAction::Stay
                            }
                            Option::Some(m) => {
                                self.status = RunStatus::ComputeFailed;
                                self.failure = Some(PipelineError::WorkerFailed(m));
                                TickAction::Stay
                            }
                        }
                    }
                    _ => TickAction::Stay,
                }
            }
            RunStatus::Computed => {
                match ev {
                    TickEvent::OutputConfirmed => {
                        self.status = RunStatus::Writing;
                        TickAction::SpawnWrite
                    }
                    _ => TickAction::Stay,
                }
            }
            RunStatus::Writing => {
                match ev {
                    TickEvent::WriteFinished { failure } => {
                        match failure {
                            Option::None => {
                                self.status = RunStatus::Complete;
                                TickAction::Stay
                            }
                            Option::Some(m) => {
                                self.status = RunStatus::WriteFailed;
                                self.failure = Some(PipelineError::WriteFailed(m));
                                TickAction::Stay
                            }
                        }
                    }
                    _ => TickAction::Stay,
                }
            }
            RunStatus::Complete => TickAction::Stay,
            RunStatus::LoadFailed => TickAction::Stay,
            RunStatus::ComputeFailed => TickAction::Stay,
            RunStatus::WriteFailed => TickAction::Stay,
        }
    }

    /// Should a blocking front end keep polling the shared counter? Exactly
    /// until the snapshot reaches the total.
    pub fn keep_polling(snapshot: usize, total: usize) -> (b: bool)
        ensures
            b == (snapshot < total),
    {
        snapshot < total
    }
}

/// The statuses a run passes through when the events of `evs` are ticked
/// into it one by one, starting from `s0`: `evs.len() + 1` entries, each one
/// step of `next_status` after the one before.
pub open spec fn run_trace(s0: RunStatus, features: nat, evs: Seq<TickEvent>) -> Seq<RunStatus>
    decreases evs.len(),
{
    if evs.len() == 0 {
        seq![s0]
    } else {
        seq![s0] + run_trace(next_status(s0, features, evs[0]), features, evs.drop_first())
    }
}

/// The trace, entry by entry.
pub proof fn lemma_trace_index(s0: RunStatus, features: nat, evs: Seq<TickEvent>)
    ensures
        run_trace(s0, features, evs).len() == evs.len() + 1,
        run_trace(s0, features, evs)[0] == s0,
        forall|i: int|
            0 <= i < evs.len() ==> run_trace(s0, features, evs)[i + 1] == next_status(
                run_trace(s0, features, evs)[i],
                features,
                evs[i],
            ),
    decreases evs.len(),
{
    if evs.len() > 0 {
        let s1 = next_status(s0, features, evs[0]);
        let rest = evs.drop_first();
        lemma_trace_index(s1, features, rest);
        assert forall|i: int|
            0 <= i < evs.len() implies run_trace(s0, features, evs)[i + 1] == next_status(
            run_trace(s0, features, evs)[i],
            features,
            evs[i],
        ) by {
            if i == 0 {
                assert(run_trace(s0, features, evs)[1] == run_trace(s1, features, rest)[0]);
            } else {
                assert(run_trace(s0, features, evs)[i + 1] == run_trace(s1, features, rest)[i]);
                assert(run_trace(s0, features, evs)[i] == run_trace(s1, features, rest)[i - 1]);
                assert(rest[i - 1] == evs[i]);
            }
        }
    }
}

/// A terminal status absorbs every further event.
pub proof fn lemma_terminal_absorbing(s: RunStatus, features: nat, ev: TickEvent)
    requires
        s.is_terminal(),
    ensures
        next_status(s, features, ev) == s,
{
}

/// One step either stands still, fails, or advances the successful path by
/// exactly one position: no status is ever skipped.
pub proof fn lemma_step_shape(s: RunStatus, features: nat, ev: TickEvent)
    ensures
        next_status(s, features, ev) == s || next_status(s, features, ev).is_failure()
            || next_status(s, features, ev).rank() == s.rank() + 1,
{
}

/// Once a run is terminal it stays exactly where it is.
pub proof fn lemma_trace_terminal_stays(
    s0: RunStatus,
    features: nat,
    evs: Seq<TickEvent>,
    i: int,
    j: int,
)
    requires
        0 <= i <= j <= evs.len(),
        run_trace(s0, features, evs)[i].is_terminal(),
    ensures
        run_trace(s0, features, evs)[j] == run_trace(s0, features, evs)[i],
    decreases j - i,
{
    lemma_trace_index(s0, features, evs);
    if i < j {
        lemma_terminal_absorbing(run_trace(s0, features, evs)[i], features, evs[i]);
        lemma_trace_terminal_stays(s0, features, evs, i + 1, j);
    }
}

/// While no failure has struck, the position on the successful path never
/// moves backwards.
pub proof fn lemma_trace_rank_monotone(
    s0: RunStatus,
    features: nat,
    evs: Seq<TickEvent>,
    i: int,
    j: int,
)
    requires
        0 <= i <= j <= evs.len(),
        !run_trace(s0, features, evs)[j].is_failure(),
    ensures
        run_trace(s0, features, evs)[i].rank() <= run_trace(s0, features, evs)[j].rank(),
    decreases j - i,
{
    lemma_trace_index(s0, features, evs);
    if i < j {
        let t = run_trace(s0, features, evs);
        if t[i].is_terminal() {
            lemma_trace_terminal_stays(s0, features, evs, i, j);
        } else {
            lemma_step_shape(t[i], features, evs[i]);
            if t[i + 1].is_failure() {
                lemma_trace_terminal_stays(s0, features, evs, i + 1, j);
            } else {
                lemma_trace_rank_monotone(s0, features, evs, i + 1, j);
            }
        }
    }
}

/// An event whose outcome lets the run advance: loads that succeed with
/// agreeing shapes, and compute and write joins without failure.
pub open spec fn benign_event(ev: TickEvent) -> bool {
    match ev {
        TickEvent::LoadsFinished { volume, mask } => match volume {
            Result::Err(_) => false,
            Result::Ok(vs) => match mask {
                Option::None => true,
                Option::Some(Result::Err(_)) => false,
                Option::Some(Result::Ok(ms)) => ms.extents() == vs.extents(),
            },
        },
        TickEvent::ComputeFinished { failure } => failure is None,
        TickEvent::WriteFinished { failure } => failure is None,
        _ => true,
    }
}

/// A benign event never turns a non-failed run into a failed one.
pub proof fn lemma_benign_step(s: RunStatus, features: nat, ev: TickEvent)
    requires
        benign_event(ev),
        !s.is_failure(),
    ensures
        !next_status(s, features, ev).is_failure(),
        next_status(s, features, ev) == s || next_status(s, features, ev).rank() == s.rank() + 1,
{
}

/// However a driver interleaves its ticks, a run fed only benign events
/// visits the statuses of the successful path in their exact order: it
/// never fails, never skips a status, never moves backwards, and once
/// `Complete` never transitions again.
pub proof fn lemma_benign_trace_in_order(s0: RunStatus, features: nat, evs: Seq<TickEvent>)
    requires
        !s0.is_failure(),
        forall|i: int| 0 <= i < evs.len() ==> benign_event(#[trigger] evs[i]),
    ensures
        forall|i: int| 0 <= i <= evs.len() ==> !run_trace(s0, features, evs)[i].is_failure(),
        forall|i: int|
            #![trigger run_trace(s0, features, evs)[i + 1]]
            0 <= i < evs.len() ==> (run_trace(s0, features, evs)[i + 1] == run_trace(
                s0,
                features,
                evs,
            )[i] || run_trace(s0, features, evs)[i + 1].rank() == run_trace(s0, features, evs)[
                i
            ].rank() + 1),
        forall|i: int, j: int|
            0 <= i <= j <= evs.len() ==> run_trace(s0, features, evs)[i].rank() <= run_trace(
                s0,
                features,
                evs,
            )[j].rank(),
        forall|i: int, j: int|
            0 <= i <= j <= evs.len() && run_trace(s0, features, evs)[i] is Complete ==> run_trace(
                s0,
                features,
                evs,
            )[j] is Complete,
    decreases evs.len(),
{
    lemma_trace_index(s0, features, evs);
    let t = run_trace(s0, features, evs);
    assert forall|i: int| 0 <= i <= evs.len() implies !t[i].is_failure() by {
        lemma_no_failure_prefix(s0, features, evs, i);
    }
    assert forall|i: int| #![trigger t[i + 1]] 0 <= i < evs.len() implies (t[i + 1] == t[i] || t[
        i + 1
    ].rank() == t[i].rank() + 1) by {
        lemma_no_failure_prefix(s0, features, evs, i);
        lemma_benign_step(t[i], features, evs[i]);
    }
    assert forall|i: int, j: int| 0 <= i <= j <= evs.len() implies t[i].rank() <= t[j].rank() by {
        lemma_no_failure_prefix(s0, features, evs, j);
        lemma_trace_rank_monotone(s0, features, evs, i, j);
    }
    assert forall|i: int, j: int|
        0 <= i <= j <= evs.len() && t[i] is Complete implies t[j] is Complete by {
        lemma_trace_terminal_stays(s0, features, evs, i, j);
    }
}

/// Helper: under benign events no prefix of the trace reaches a failure.
proof fn lemma_no_failure_prefix(s0: RunStatus, features: nat, evs: Seq<TickEvent>, i: int)
    requires
        !s0.is_failure(),
        forall|k: int| 0 <= k < evs.len() ==> benign_event(#[trigger] evs[k]),
        0 <= i <= evs.len(),
    ensures
        !run_trace(s0, features, evs)[i].is_failure(),
    decreases i,
{
    lemma_trace_index(s0, features, evs);
    if i > 0 {
        lemma_no_failure_prefix(s0, features, evs, i - 1);
        lemma_benign_step(run_trace(s0, features, evs)[i - 1], features, evs[i - 1]);
    }
}

/// A mismatched pair of load results, observed while loading, ends the run
/// at `LoadFailed`, and the run never stands at `Validated` at any tick
/// before or after — and `tick` spawns compute exactly from `Validated`, so
/// no compute task is ever spawned for such a run.
pub proof fn lemma_shape_mismatch_blocks_compute(
    s0: RunStatus,
    features: nat,
    evs: Seq<TickEvent>,
    k: int,
)
    requires
        0 <= k < evs.len(),
        run_trace(s0, features, evs)[k] is Loading,
        evs[k] matches TickEvent::LoadsFinished {
            volume: Result::Ok(vs),
            mask: Some(Result::Ok(ms)),
        } && vs.extents() != ms.extents(),
    ensures
        run_trace(s0, features, evs)[k + 1] is LoadFailed,
        forall|j: int| k < j <= evs.len() ==> run_trace(s0, features, evs)[j] is LoadFailed,
        forall|j: int| 0 <= j <= evs.len() ==> !(run_trace(s0, features, evs)[j] is Validated),
{
    lemma_trace_index(s0, features, evs);
    let t = run_trace(s0, features, evs);
    assert(t[k + 1] is LoadFailed);
    assert forall|j: int| k < j <= evs.len() implies t[j] is LoadFailed by {
        lemma_trace_terminal_stays(s0, features, evs, k + 1, j);
    }
    assert forall|j: int| 0 <= j <= evs.len() implies !(t[j] is Validated) by {
        if j <= k {
            lemma_trace_rank_monotone(s0, features, evs, j, k);
        } else {
            lemma_trace_terminal_stays(s0, features, evs, k + 1, j);
        }
    }
}

} // verus!
