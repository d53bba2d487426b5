//! The run schedule as a list of phases, and the state machine that walks it.

use crate::clock::{format_utc, now, utc_format_text, Timestamp};
use crate::monitor::{
    all_measured, same_monitors, store_text, updated, FatalError, Measurement, MonitorStore,
    MonitorView, VALUE_BOUND,
};
use vstd::prelude::*;

verus! {

/// The strftime pattern of a snapshot's file name.
pub const SNAPSHOT_NAME_PATTERN: &'static str = "%Y-%m-%d_%H-%M-%S.json";

/// One step of a run.
#[derive(Clone, Copy, Debug, PartialEq, Eq)]
pub enum Phase {
    /// Apply the update step to every monitor.
    UpdateAll,
    /// Stay inactive for this many seconds.
    Pause(u64),
    /// Write the whole store to a new file.
    Snapshot,
}

/// The cadence of a run: `outer` cycles, each of `inner` update batches with a
/// pause after each, then one snapshot and a longer pause.
#[derive(Clone, Copy, Debug, PartialEq, Eq)]
pub struct Schedule {
    pub outer: u32,
    pub inner: u32,
    pub inner_pause_secs: u64,
    pub outer_pause_secs: u64,
}

/// `n` copies of `block`, one after another.
pub open spec fn repeat(block: Seq<Phase>, n: nat) -> Seq<Phase>
    decreases n,
{
    if n == 0 {
        Seq::empty()
    } else {
        repeat(block, (n - 1) as nat) + block
    }
}

/// How many phases of `s` are snapshots.
pub open spec fn snapshot_count(s: Seq<Phase>) -> nat
    decreases s.len(),
{
    if s.len() == 0 {
        0
    } else {
        snapshot_count(s.drop_last()) + if s.last() is Snapshot {
            1nat
        } else {
            0nat
        }
    }
}

/// How many phases of `s` are update batches.
pub open spec fn update_count(s: Seq<Phase>) -> nat
    decreases s.len(),
{
    if s.len() == 0 {
        0
    } else {
        update_count(s.drop_last()) + if s.last() is UpdateAll {
            1nat
        } else {
            0nat
        }
    }
}

impl Schedule {
    /// The default cadence: 5 cycles of 2 update batches, 15 s after each
    /// batch and 30 s after each snapshot.
    pub fn standard() -> (r: Schedule)
        ensures
            r.outer == 5,
            r.inner == 2,
            r.inner_pause_secs == 15,
            r.outer_pause_secs == 30,
    {
        Schedule { outer: 5, inner: 2, inner_pause_secs: 15, outer_pause_secs: 30 }
    }

    /// One update batch and the pause after it.
    pub open spec fn batch(self) -> Seq<Phase> {
        seq![Phase::UpdateAll, Phase::Pause(self.inner_pause_secs)]
    }

    /// One outer cycle.
    pub open spec fn cycle(self) -> Seq<Phase> {
        repeat(self.batch(), self.inner as nat) + seq![
            Phase::Snapshot,
            Phase::Pause(self.outer_pause_secs),
        ]
    }

    /// The phases of a whole run, in order.
    pub open spec fn phases_spec(self) -> Seq<Phase> {
        repeat(self.cycle(), self.outer as nat)
    }

    /// The number of phases of a whole run.
    pub open spec fn phase_count(self) -> int {
        self.outer * (2 * self.inner + 2)
    }

    /// Lists the phases of a whole run.
    pub fn phases(&self) -> (r: Vec<Phase>)
        requires
            self.phase_count() <= usize::MAX,
        ensures
            r@ == self.phases_spec(),
    {
        proof {
            lemma_phase_count(*self);
        }
        let mut r: Vec<Phase> = Vec::new();
        let mut o: u32 = 0;
        while o < self.outer
            invariant
                o <= self.outer,
                r@ == repeat(self.cycle(), o as nat),
                self.phase_count() <= usize::MAX,
                self.phase_count() == self.outer * (2 * self.inner + 2),
            decreases self.outer - o,
        {
            proof {
                lemma_phase_count(*self);
                lemma_repeat_len(self.cycle(), o as nat);
                lemma_repeat_len(self.batch(), self.inner as nat);
                assert(o * (2 * self.inner + 2) + (2 * self.inner + 2) <= self.outer * (2
                    * self.inner + 2)) by (nonlinear_arith)
                    requires
                        o < self.outer,
                ;
            }
            let ghost base = r@;
            let mut k: u32 = 0;
            while k < self.inner
                invariant
                    k <= self.inner,
                    o < self.outer,
                    base == repeat(self.cycle(), o as nat),
                    base.len() == o * (2 * self.inner + 2),
                    r@ == base + repeat(self.batch(), k as nat),
                    o * (2 * self.inner + 2) + (2 * self.inner + 2) <= usize::MAX,
                decreases self.inner - k,
            {
                proof {
                    lemma_repeat_len(self.batch(), k as nat);
                }
                r.push(Phase::UpdateAll);
                r.push(Phase::Pause(self.inner_pause_secs));
                k += 1;
                assert(r@ =~= base + repeat(self.batch(), k as nat));
            }
            proof {
                lemma_repeat_len(self.batch(), self.inner as nat);
            }
            r.push(Phase::Snapshot);
            r.push(Phase::Pause(self.outer_pause_secs));
            o += 1;
            assert(r@ =~= repeat(self.cycle(), o as nat));
        }
        r
    }
}

pub proof fn lemma_repeat_len(block: Seq<Phase>, n: nat)
    ensures
        repeat(block, n).len() == n * block.len(),
    decreases n,
{
    if n > 0 {
        lemma_repeat_len(block, (n - 1) as nat);
        assert(repeat(block, n) == repeat(block, (n - 1) as nat) + block);
        assert(n * block.len() == (n - 1) * block.len() + block.len()) by (nonlinear_arith);
    } else {
        assert(n * block.len() == 0) by (nonlinear_arith)
            requires
                n == 0,
        ;
    }
}

pub proof fn lemma_phase_count(s: Schedule)
    ensures
        s.phases_spec().len() == s.phase_count(),
        s.cycle().len() == 2 * s.inner + 2,
{
    lemma_repeat_len(s.batch(), s.inner as nat);
    assert(s.batch().len() == 2);
    assert(s.cycle().len() == repeat(s.batch(), s.inner as nat).len() + 2);
    lemma_repeat_len(s.cycle(), s.outer as nat);
    assert(s.phases_spec().len() == s.outer * s.cycle().len());
}

pub proof fn lemma_snapshot_count_concat(a: Seq<Phase>, b: Seq<Phase>)
    ensures
        snapshot_count(a + b) == snapshot_count(a) + snapshot_count(b),
        update_count(a + b) == update_count(a) + update_count(b),
    decreases b.len(),
{
    if b.len() == 0 {
        assert(a + b =~= a);
    } else {
        lemma_snapshot_count_concat(a, b.drop_last());
        assert((a + b).drop_last() =~= a + b.drop_last());
    }
}

pub proof fn lemma_count_repeat(block: Seq<Phase>, n: nat)
    ensures
        snapshot_count(repeat(block, n)) == n * snapshot_count(block),
        update_count(repeat(block, n)) == n * update_count(block),
    decreases n,
{
    if n > 0 {
        lemma_count_repeat(block, (n - 1) as nat);
        lemma_snapshot_count_concat(repeat(block, (n - 1) as nat), block);
        assert(repeat(block, n) == repeat(block, (n - 1) as nat) + block);
        assert(n * snapshot_count(block) == (n - 1) * snapshot_count(block) + snapshot_count(
            block,
        )) by (nonlinear_arith);
        assert(n * update_count(block) == (n - 1) * update_count(block) + update_count(block))
            by (nonlinear_arith);
    } else {
        assert(n * snapshot_count(block) == 0 && n * update_count(block) == 0);
    }
}

/// A whole run holds exactly `outer` snapshots and `outer * inner` update
/// batches.
pub proof fn lemma_run_counts(s: Schedule)
    ensures
        snapshot_count(s.phases_spec()) == s.outer,
        update_count(s.phases_spec()) == s.outer * s.inner,
{
    reveal_with_fuel(snapshot_count, 3);
    reveal_with_fuel(update_count, 3);
    let b = s.batch();
    assert(b.drop_last().drop_last() =~= Seq::<Phase>::empty());
    assert(b.drop_last() =~= seq![Phase::UpdateAll]);
    assert(snapshot_count(b) == 0);
    assert(update_count(b) == 1);
    lemma_count_repeat(b, s.inner as nat);
    let tail = seq![Phase::Snapshot, Phase::Pause(s.outer_pause_secs)];
    assert(tail.drop_last().drop_last() =~= Seq::<Phase>::empty());
    assert(tail.drop_last() =~= seq![Phase::Snapshot]);
    assert(snapshot_count(tail) == 1 && update_count(tail) == 0);
    lemma_snapshot_count_concat(repeat(b, s.inner as nat), tail);
    assert(snapshot_count(s.cycle()) == 1 && update_count(s.cycle()) == s.inner);
    lemma_count_repeat(s.cycle(), s.outer as nat);
}

/// The first copy of a block starts a repetition.
pub proof fn lemma_repeat_first(block: Seq<Phase>, n: nat)
    requires
        n > 0,
        block.len() > 0,
    ensures
        repeat(block, n)[0] == block[0],
    decreases n,
{
    if n > 1 {
        lemma_repeat_first(block, (n - 1) as nat);
        lemma_repeat_len(block, (n - 1) as nat);
    } else {
        assert(repeat(block, (n - 1) as nat) =~= Seq::<Phase>::empty());
        assert(repeat(block, n) =~= block);
    }
}

/// Where a cycle holds at least one update batch, a run starts with one.
pub proof fn lemma_run_starts_with_update(s: Schedule)
    requires
        s.outer > 0,
        s.inner > 0,
    ensures
        s.phases_spec()[0] == Phase::UpdateAll,
{
    lemma_repeat_first(s.batch(), s.inner as nat);
    lemma_repeat_len(s.batch(), s.inner as nat);
    lemma_phase_count(s);
    lemma_repeat_first(s.cycle(), s.outer as nat);
}

/// No sequence holds more snapshots than phases.
pub proof fn lemma_snapshot_count_bound(s: Seq<Phase>)
    ensures
        snapshot_count(s) <= s.len(),
    decreases s.len(),
{
    if s.len() > 0 {
        lemma_snapshot_count_bound(s.drop_last());
    }
}

/// Formats the name of a snapshot file from the time it is written:
/// `YYYY-MM-DD_HH-MM-SS.json`. Succeeds for every well-formed time, such as
/// one read from the clock.
pub fn snapshot_file_name(t: Timestamp) -> (r: Result<String, FatalError>)
    ensures
        r matches Ok(s) ==> s@ == utc_format_text(t.secs as int, SNAPSHOT_NAME_PATTERN@),
        t.wf() ==> r is Ok,
{
    proof {
        reveal_strlit("%Y-%m-%d_%H-%M-%S.json");
    }
    match format_utc(t.secs, SNAPSHOT_NAME_PATTERN) {
        Some(s) => Ok(s),
        None => Err(FatalError::ClockOutOfRange),
    }
}

/// A snapshot to be written: the file name, the time it was formatted from,
/// and the serialized store.
#[derive(Debug)]
pub struct Snapshot {
    pub file_name: String,
    pub taken_at: Timestamp,
    pub contents: String,
}

/// What the driver of a run does after a step.
#[derive(Debug)]
pub enum Action {
    /// Every monitor was updated with these samples, in store order.
    Updated(Vec<Measurement>),
    /// Stay inactive for this many seconds.
    Pause(u64),
    /// Write this snapshot to a new file.
    WriteSnapshot(Snapshot),
    /// The run is over.
    Finished,
}

/// A run in progress: the store, the schedule, its phases, how many phases
/// are done, how many snapshots were handed out, and the store as the run
/// found it.
pub struct Run {
    pub store: MonitorStore,
    pub schedule: Schedule,
    pub phases: Vec<Phase>,
    pub pos: usize,
    pub snapshots: usize,
    pub initial: Ghost<Seq<MonitorView>>,
}

impl Run {
    /// The phases are those of the schedule, `snapshots` counts the snapshot
    /// phases done so far, the store holds the monitors it started with, and
    /// once the first phase (an update batch, where cycles hold any) is done
    /// every monitor holds a result.
    pub open spec fn wf(&self) -> bool {
        &&& self.phases@ == self.schedule.phases_spec()
        &&& self.pos <= self.phases@.len()
        &&& self.snapshots == snapshot_count(self.phases@.take(self.pos as int))
        &&& same_monitors(self.initial@, self.store@)
        &&& (self.pos > 0 && self.schedule.inner > 0) ==> all_measured(self.store@)
    }

    /// A run of `schedule` over `store`, no phase done yet.
    pub fn new(store: MonitorStore, schedule: Schedule) -> (r: Run)
        requires
            schedule.phase_count() <= usize::MAX,
        ensures
            r.wf(),
            r.store@ == store@,
            r.initial@ == store@,
            r.schedule == schedule,
            r.pos == 0,
            r.snapshots == 0,
    {
        let phases = schedule.phases();
        let initial = Ghost(store@);
        let r = Run { store, schedule, phases, pos: 0, snapshots: 0, initial };
        assert(r.phases@.take(0) =~= Seq::<Phase>::empty());
        r
    }

    /// Every phase is done.
    pub fn is_finished(&self) -> (r: bool)
        requires
            self.wf(),
        ensures
            r == (self.pos == self.phases@.len()),
    {
        self.pos == self.phases.len()
    }

    /// Carries out the next phase. An update batch and a snapshot are done
    /// here; a pause, and the writing of the snapshot, are left to the caller
    /// through the returned action.
    pub fn step(&mut self) -> (r: Action)
        requires
            old(self).wf(),
        ensures
            final(self).wf(),
            final(self).schedule == old(self).schedule,
            final(self).phases@ == old(self).phases@,
            final(self).initial == old(self).initial,
            (r is Finished) <==> old(self).pos == old(self).phases@.len(),
            !(r is Finished) ==> final(self).pos == old(self).pos + 1,
            match r {
                Action::Finished => final(self).pos == old(self).pos && final(self).store@
                    == old(self).store@ && final(self).snapshots == old(self).snapshots,
                Action::Updated(ms) => old(self).phases@[old(self).pos as int]
                    == Phase::UpdateAll && ms@.len() == old(self).store@.len() && (forall|i: int|
                    0 <= i < ms@.len() ==> (#[trigger] ms@[i]).value < VALUE_BOUND
                        && ms@[i].processed_at.wf()) && final(self).store@ == updated(
                    old(self).store@,
                    ms@,
                ) && final(self).snapshots == old(self).snapshots,
                Action::Pause(secs) => old(self).phases@[old(self).pos as int] == Phase::Pause(
                    secs,
                ) && final(self).store@ == old(self).store@ && final(self).snapshots == old(
                    self,
                ).snapshots,
                Action::WriteSnapshot(snap) => old(self).phases@[old(self).pos as int]
                    == Phase::Snapshot && final(self).store@ == old(self).store@
                    && final(self).snapshots == old(self).snapshots + 1 && snap.contents@
                    == store_text(final(self).store@) && snap.file_name@ == utc_format_text(
                    snap.taken_at.secs as int,
                    SNAPSHOT_NAME_PATTERN@,
                ) && same_monitors(final(self).initial@, final(self).store@)
                    && (final(self).schedule.inner > 0 ==> all_measured(final(self).store@)),
            },
    {
        if self.pos == self.phases.len() {
            return Action::Finished;
        }
        let ghost before = self.phases@.take(self.pos as int);
        proof {
            let after = self.phases@.take(self.pos + 1);
            assert(after.drop_last() =~= before);
            assert(after.last() == self.phases@[self.pos as int]);
            lemma_snapshot_count_bound(after);
            if self.schedule.inner > 0 {
                lemma_run_starts_with_update(self.schedule);
            }
        }
        let phase = self.phases[self.pos];
        match phase {
            Phase::UpdateAll => {
                let ms = self.store.update_all();
                self.pos = self.pos + 1;
                Action::Updated(ms)
            },
            Phase::Pause(secs) => {
                self.pos = self.pos + 1;
                Action::Pause(secs)
            },
            Phase::Snapshot => {
                let contents = self.store.to_json();
                let taken_at = now();
                let file_name = match snapshot_file_name(taken_at) {
                    Ok(f) => f,
                    Err(_) => vstd::pervasive::unreached(),
                };
                self.pos = self.pos + 1;
                self.snapshots = self.snapshots + 1;
                Action::WriteSnapshot(Snapshot { file_name, taken_at, contents })
            },
        }
    }
}

/// A finished run has handed out exactly one snapshot per outer cycle.
pub proof fn lemma_finished_run_snapshots(run: Run)
    requires
        run.wf(),
        run.pos == run.phases@.len(),
    ensures
        run.snapshots == run.schedule.outer,
{
    assert(run.phases@.take(run.pos as int) =~= run.phases@);
    lemma_run_counts(run.schedule);
}

} // verus!
