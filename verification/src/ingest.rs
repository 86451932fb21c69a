//! The decision core of the ingestion pipeline. The surrounding runtime
//! streams decoded telemetry samples in arrival order and owns all outside
//! effects (device I/O, persistence, display); every decision about a sample
//! is made here, as a pure transition of an `Engine` value.
//!
//! The consumer starts in an await-fix phase that discards samples until one
//! reports a valid positional fix; from then on each sample is appended to
//! the open lap, the lap is sealed into the session when its last two points
//! cross the start/finish segment, and the sample is handed back to the
//! runtime for persistence and publication. The transition takes no
//! persistence outcome as an input, so a failed write can never stall the
//! samples that follow.
//!
//! Device acquisition has a bounded retry budget, modelled by
//! `AcquireRetry`: three attempts, then terminal failure.

use vstd::prelude::*;

use crate::geometry::Coord;
use crate::timer::{
    Lap, LapModel, LapType, Point, Session, SessionModel, Track, spec_expected_type,
    spec_lap_crosses, spec_next_lap, spec_session_after_seal, spec_session_wf,
};

verus! {

/// A decoded, checksum-validated telemetry sample: fixed-point coordinates,
/// speed, the fix- and checksum-validity flags, and the capture instant in
/// milliseconds. Produced by the device collaborator; read-only here.
#[derive(Clone, Copy, Debug, PartialEq, Eq, Structural)]
pub struct TelemetrySample {
    pub lat: i32,
    pub long: i32,
    pub speed: u32,
    pub valid_fix: bool,
    pub checksum_ok: bool,
    pub at: u64,
}

/// The consumer's phase: discarding samples until a valid fix is seen, or
/// running the lap-timing state machine.
#[derive(Clone, Copy, Debug, PartialEq, Eq, Structural)]
pub enum Phase {
    AwaitFix,
    Running,
}

/// What the runtime must do after a step: whether the engine just left the
/// await-fix phase, whether the sample was appended to the open lap, whether
/// a lap was sealed, and whether the sample is to be persisted and published
/// as the latest telemetry.
#[derive(Clone, Copy, Debug, PartialEq, Eq, Structural)]
pub struct StepOutput {
    pub entered_running: bool,
    pub appended: bool,
    pub sealed: bool,
    pub persist: bool,
    pub publish: bool,
}

/// The mathematical model of an `Engine`.
pub ghost struct EngineModel {
    pub phase: Phase,
    pub session: SessionModel,
    pub lap: LapModel,
    pub session_id: u64,
    pub latest: Option<TelemetrySample>,
    pub checksum_failures: u64,
}

/// Engine well-formedness: the session is well-formed and the open lap
/// carries exactly the classification the session expects next.
pub open spec fn spec_engine_wf(e: EngineModel) -> bool {
    &&& spec_session_wf(e.session)
    &&& e.lap.lap_type == spec_expected_type(e.session)
}

/// Whether a sample is processed rather than discarded: every sample once
/// running, and the fix-establishing sample itself.
pub open spec fn spec_processes(e: EngineModel, s: TelemetrySample) -> bool {
    e.phase == Phase::Running || s.valid_fix
}

/// The open lap after the sample's position is appended to it.
pub open spec fn spec_appended_lap(e: EngineModel, s: TelemetrySample) -> LapModel {
    LapModel {
        points: e.lap.points.push(Point { coord: Coord { x: s.lat, y: s.long }, time: s.at }),
        ..e.lap
    }
}

/// Whether processing the sample seals the open lap: its last two points
/// cross the start/finish segment, and the lap counter is not exhausted.
pub open spec fn spec_seals(e: EngineModel, s: TelemetrySample) -> bool {
    &&& spec_lap_crosses(spec_appended_lap(e, s), e.session.track.start_finish)
    &&& e.session.laps.len() < 0xFFFF
}

/// The engine after the checksum accounting for `s`: a sample that failed
/// its checksum is counted (saturating) and still processed.
pub open spec fn spec_bump_checksum(e: EngineModel, s: TelemetrySample) -> EngineModel {
    if !s.checksum_ok && e.checksum_failures < u64::MAX {
        EngineModel { checksum_failures: (e.checksum_failures + 1) as u64, ..e }
    } else {
        e
    }
}

/// The engine after one sample: checksum accounting always happens; a sample
/// without a valid fix is discarded while awaiting one; otherwise the sample
/// is appended to the open lap, the lap is sealed on a crossing, and the
/// sample becomes the latest published telemetry.
pub open spec fn spec_step(e: EngineModel, s: TelemetrySample) -> EngineModel {
    let e1 = spec_bump_checksum(e, s);
    if !spec_processes(e, s) {
        e1
    } else {
        let lap1 = spec_appended_lap(e1, s);
        if spec_seals(e1, s) {
            EngineModel {
                phase: Phase::Running,
                session: spec_session_after_seal(e1.session, lap1, s.at),
                lap: spec_next_lap(lap1, s.at),
                latest: Some(s),
                ..e1
            }
        } else {
            EngineModel { phase: Phase::Running, lap: lap1, latest: Some(s), ..e1 }
        }
    }
}

/// The actions the runtime owes after one sample.
pub open spec fn spec_step_output(e: EngineModel, s: TelemetrySample) -> StepOutput {
    StepOutput {
        entered_running: e.phase == Phase::AwaitFix && s.valid_fix,
        appended: spec_processes(e, s),
        sealed: spec_processes(e, s) && spec_seals(e, s),
        persist: spec_processes(e, s),
        publish: spec_processes(e, s),
    }
}

/// The engine after a whole sequence of samples, in arrival order.
pub open spec fn spec_run(e: EngineModel, samples: Seq<TelemetrySample>) -> EngineModel
    decreases samples.len(),
{
    if samples.len() == 0 {
        e
    } else {
        spec_run(spec_step(e, samples[0]), samples.subrange(1, samples.len() as int))
    }
}

/// The lap-timing engine: the session, the currently-open lap (owned here
/// exclusively and handed to the session only at the moment of sealing), the
/// consumer phase, and the snapshot state the display layer reads.
pub struct Engine {
    phase: Phase,
    session: Session,
    lap: Lap,
    session_id: u64,
    latest: Option<TelemetrySample>,
    checksum_failures: u64,
}

impl View for Engine {
    type V = EngineModel;

    closed spec fn view(&self) -> EngineModel {
        EngineModel {
            phase: self.phase,
            session: self.session@,
            lap: self.lap@,
            session_id: self.session_id,
            latest: self.latest,
            checksum_failures: self.checksum_failures,
        }
    }
}

impl Engine {
    /// Creates an engine for one session on `track`, identified by
    /// `session_id`, with a fresh out-lap open at instant `at` and the
    /// consumer awaiting a valid fix.
    pub fn new(track: Track, session_id: u64, at: u64) -> (e: Engine)
        ensures
            e@ == (EngineModel {
                phase: Phase::AwaitFix,
                session: SessionModel { track: track@, laps: Seq::<LapModel>::empty() },
                lap: LapModel {
                    lap_type: LapType::Out,
                    points: Seq::<Point>::empty(),
                    start_time: at,
                    end_time: at,
                },
                session_id,
                latest: None,
                checksum_failures: 0,
            }),
            spec_engine_wf(e@),
    {
        let session = Session::new(track);
        let lap = session.start(at);
        Engine { phase: Phase::AwaitFix, session, lap, session_id, latest: None, checksum_failures: 0 }
    }

    /// Processes one decoded sample and reports the actions the runtime owes
    /// for it. The transition is a pure function of the prior state and the
    /// sample alone; in particular no persistence outcome feeds into it, so
    /// a failed write can never affect how later samples are handled.
    ///
    /// While awaiting a fix, a sample without a valid fix is discarded:
    /// neither the open lap nor the session changes and nothing is persisted
    /// or published. Every processed sample is published as the latest
    /// telemetry.
    pub fn step(&mut self, sample: TelemetrySample) -> (out: StepOutput)
        requires
            spec_engine_wf(old(self)@),
        ensures
            final(self)@ == spec_step(old(self)@, sample),
            out == spec_step_output(old(self)@, sample),
            spec_engine_wf(final(self)@),
            old(self)@.phase == Phase::AwaitFix && !sample.valid_fix ==> {
                &&& !out.appended
                &&& !out.persist
                &&& !out.publish
                &&& final(self)@.lap == old(self)@.lap
                &&& final(self)@.session == old(self)@.session
                &&& final(self)@.phase == Phase::AwaitFix
            },
            spec_processes(old(self)@, sample) ==> {
                &&& out.publish
                &&& final(self)@.latest == Some(sample)
            },
    {
        if !sample.checksum_ok && self.checksum_failures < u64::MAX {
            self.checksum_failures = self.checksum_failures + 1;
        }
        let entered_running = self.phase == Phase::AwaitFix && sample.valid_fix;
        if self.phase == Phase::AwaitFix && !sample.valid_fix {
            return StepOutput {
                entered_running: false,
                appended: false,
                sealed: false,
                persist: false,
                publish: false,
            };
        }
        self.phase = Phase::Running;
        self.lap.add_point(sample.lat, sample.long, sample.at);
        let mut sealed = false;
        if self.session.current_lap_number() < 0xFFFF && self.session.is_lap_complete(&self.lap) {
            let mut open = Lap::new(LapType::Out, 0);
            core::mem::swap(&mut self.lap, &mut open);
            self.lap = self.session.add_lap(open, sample.at);
            sealed = true;
        }
        self.latest = Some(sample);
        StepOutput { entered_running, appended: true, sealed, persist: true, publish: true }
    }

    /// The generated identifier of this session.
    pub fn session_id(&self) -> (r: u64)
        ensures
            r == self@.session_id,
    {
        self.session_id
    }

    /// The consumer's current phase.
    pub fn phase(&self) -> (r: Phase)
        ensures
            r == self@.phase,
    {
        self.phase
    }

    /// The session owned by this engine, for display reads.
    pub fn session(&self) -> (r: &Session)
        ensures
            r@ == self@.session,
    {
        &self.session
    }

    /// The currently-open lap, for display reads.
    pub fn current_lap(&self) -> (r: &Lap)
        ensures
            r@ == self@.lap,
    {
        &self.lap
    }

    /// The most recently published sample, if any, together with its capture
    /// instant: the display compares it against its own clock for staleness.
    pub fn latest(&self) -> (r: Option<TelemetrySample>)
        ensures
            r == self@.latest,
    {
        self.latest
    }

    /// How many samples failed their checksum so far (saturating).
    pub fn checksum_failures(&self) -> (r: u64)
        ensures
            r == self@.checksum_failures,
    {
        self.checksum_failures
    }
}

/// One step keeps the engine well-formed: the session's lap list stays
/// numbered in order and the open lap keeps the classification the session
/// expects next, whatever the sample was.
pub proof fn lemma_step_preserves_wf(e: EngineModel, s: TelemetrySample)
    requires
        spec_engine_wf(e),
    ensures
        spec_engine_wf(spec_step(e, s)),
{
    let e1 = spec_bump_checksum(e, s);
    if spec_processes(e, s) && spec_seals(e1, s) {
        let lap1 = spec_appended_lap(e1, s);
        let after = spec_session_after_seal(e1.session, lap1, s.at);
        assert forall|i: int|
            0 <= i < after.laps.len() implies (#[trigger] after.laps[i].lap_type)
            == crate::timer::spec_lap_type_at(i) by {
            if i < e1.session.laps.len() {
                assert(e1.session.laps[i].lap_type == crate::timer::spec_lap_type_at(i));
            }
        }
    }
}

/// A whole run of samples keeps the engine well-formed.
pub proof fn lemma_run_preserves_wf(e: EngineModel, samples: Seq<TelemetrySample>)
    requires
        spec_engine_wf(e),
    ensures
        spec_engine_wf(spec_run(e, samples)),
    decreases samples.len(),
{
    if samples.len() > 0 {
        lemma_step_preserves_wf(e, samples[0]);
        lemma_run_preserves_wf(spec_step(e, samples[0]), samples.subrange(1, samples.len() as int));
    }
}

/// While the engine is awaiting a valid fix, any run of samples none of
/// which reports one is discarded entirely: the phase, the session, the open
/// lap and the published telemetry are all exactly as before. Persistence
/// and lap-append are therefore never reached before the first valid fix.
pub proof fn lemma_await_fix_discards(e: EngineModel, samples: Seq<TelemetrySample>)
    requires
        e.phase == Phase::AwaitFix,
        forall|i: int| 0 <= i < samples.len() ==> !(#[trigger] samples[i]).valid_fix,
    ensures
        spec_run(e, samples).phase == Phase::AwaitFix,
        spec_run(e, samples).session == e.session,
        spec_run(e, samples).lap == e.lap,
        spec_run(e, samples).latest == e.latest,
    decreases samples.len(),
{
    if samples.len() > 0 {
        let e1 = spec_step(e, samples[0]);
        assert(!samples[0].valid_fix);
        lemma_await_fix_discards(e1, samples.subrange(1, samples.len() as int));
    }
}

/// A processed sample is always published and becomes the latest telemetry,
/// whatever else its step did: the transition takes no persistence outcome,
/// so a failed write can neither block the sample that failed nor any that
/// follow it.
pub proof fn lemma_processed_sample_published(e: EngineModel, s: TelemetrySample)
    requires
        spec_processes(e, s),
    ensures
        spec_step_output(e, s).publish,
        spec_step(e, s).latest == Some(s),
{
}

/// How many attempts a bounded-retry acquisition makes, given the outcome
/// each attempt would have (true = success) and how many failures are
/// already on the counter: it stops at the first success, or at the third
/// recorded failure.
pub open spec fn spec_attempts_made(outcomes: Seq<bool>, prior_failures: u8) -> nat
    decreases outcomes.len(),
{
    if outcomes.len() == 0 || prior_failures >= 3 {
        0
    } else if outcomes[0] {
        1
    } else {
        1 + spec_attempts_made(outcomes.subrange(1, outcomes.len() as int), (prior_failures + 1) as u8)
    }
}

/// A counter of failed acquisition attempts with a fixed budget of three:
/// used both for acquiring the device manager and for the subsequent connect
/// step, each with its own independent budget.
pub struct AcquireRetry {
    attempts: u8,
}

impl View for AcquireRetry {
    type V = u8;

    closed spec fn view(&self) -> u8 {
        self.attempts
    }
}

impl AcquireRetry {
    /// A fresh budget: no attempt has failed yet.
    pub fn new() -> (r: AcquireRetry)
        ensures
            r@ == 0,
    {
        AcquireRetry { attempts: 0 }
    }

    /// How many attempts have failed so far.
    pub fn attempts(&self) -> (r: u8)
        ensures
            r == self@,
    {
        self.attempts
    }

    /// Records one failed attempt and says whether another may be made:
    /// true exactly while fewer than three attempts have failed, so the
    /// third consecutive failure is terminal and no fourth attempt follows.
    pub fn record_failure(&mut self) -> (retry: bool)
        requires
            old(self)@ < 3,
        ensures
            final(self)@ == old(self)@ + 1,
            retry == (final(self)@ < 3),
    {
        self.attempts = self.attempts + 1;
        self.attempts < 3
    }

    /// Device acquisition retries exactly three times before a terminal
    /// failure: with every attempt failing, exactly three attempts are made
    /// and no fourth follows, however long the failure run would continue.
    pub proof fn lemma_three_failures_terminal(outcomes: Seq<bool>)
        requires
            outcomes.len() >= 3,
            forall|i: int| 0 <= i < outcomes.len() ==> !(#[trigger] outcomes[i]),
        ensures
            spec_attempts_made(outcomes, 0) == 3,
    {
        let o1 = outcomes.subrange(1, outcomes.len() as int);
        let o2 = o1.subrange(1, o1.len() as int);
        let o3 = o2.subrange(1, o2.len() as int);
        assert(forall|i: int| 0 <= i < o1.len() ==> !(#[trigger] o1[i]));
        assert(forall|i: int| 0 <= i < o2.len() ==> !(#[trigger] o2[i]));
        assert(!outcomes[0] && !o1[0] && !o2[0]);
        assert(spec_attempts_made(outcomes, 0) == 1 + spec_attempts_made(o1, 1));
        assert(spec_attempts_made(o1, 1) == 1 + spec_attempts_made(o2, 2));
        assert(spec_attempts_made(o2, 2) == 1 + spec_attempts_made(o3, 3));
        assert(spec_attempts_made(o3, 3) == 0);
    }
}

} // verus!
