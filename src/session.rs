use vstd::prelude::*;
use crate::bite::{BiteDetector, FishingState, initial_model, model_wf, fishing_step};

verus! {

/// The parameters a session is started with.
#[derive(Clone, Copy, Debug, PartialEq, Eq, Structural)]
pub struct SessionConfig {
    /// How many cycles to run before finishing; `None` runs until stopped.
    pub cast_limit: Option<u32>,
    /// Extra post-peak falling samples the detector waits for.
    pub threshold: u32,
}

/// What happened since the session last decided.
#[derive(Clone, Copy, Debug, PartialEq, Eq, Structural)]
pub enum SessionEvent {
    /// The watched address was resolved.
    SetupSucceeded,
    /// The watched address could not be resolved.
    SetupFailed,
    /// The last `Cast`, `Reel` or `Cooldown` action has been carried out.
    ActionDone,
    /// One poll tick: the sample read (`None` when the read failed) and
    /// whether the cycle has run past its time limit.
    Tick { sample: Option<u32>, timed_out: bool },
}

/// What the caller is to do next.
#[derive(Clone, Copy, Debug, PartialEq, Eq, Structural)]
pub enum SessionAction {
    /// Cast the line, wait for it to land, then report `ActionDone`.
    Cast,
    /// Wait one poll interval, read a sample, then report a `Tick`.
    Poll,
    /// Reel in, then report `ActionDone`.
    Reel,
    /// Wait the pause between cycles, then report `ActionDone`.
    Cooldown,
    /// The session is over: signal completion to its owner.
    Complete,
    /// Nothing: the event does not apply in this phase.
    Nothing,
}

/// Where the session stands between two events.
#[derive(Clone, Copy, Debug, PartialEq, Eq, Structural)]
pub enum Phase {
    /// Waiting for the watched address to be resolved.
    Setup,
    /// A cast was asked for and has not been reported done.
    Casting,
    /// Polling samples within a cycle.
    Sampling,
    /// A reel was asked for and has not been reported done.
    Reeling,
    /// The pause between cycles.
    Cooling,
    /// Completion has been signalled.
    Finished,
}

/// The mathematical state of a session.
pub struct SessionModel {
    pub config: SessionConfig,
    pub phase: Phase,
    pub casts: u64,
    pub cancelled: bool,
    pub detector: crate::bite::DetectorModel,
}

/// A new session: waiting for setup, nothing cast, not stopped.
pub open spec fn session_start(config: SessionConfig) -> SessionModel {
    SessionModel {
        config,
        phase: Phase::Setup,
        casts: 0,
        cancelled: false,
        detector: initial_model(config.threshold),
    }
}

/// The cast limit is at least one cycle, as the first cycle always runs.
pub open spec fn effective_limit(c: SessionConfig) -> u64 {
    match c.cast_limit {
        Some(n) => if n == 0 { 1 } else { n as u64 },
        None => u64::MAX,
    }
}

/// A well-formed session never casts past its limit, has cast nothing
/// before its setup is done, and carries a
/// well-formed detector made with the session's threshold.
pub open spec fn session_wf(s: SessionModel) -> bool {
    &&& s.casts <= effective_limit(s.config)
    &&& s.phase == Phase::Setup ==> s.casts == 0
    &&& model_wf(s.detector)
    &&& s.detector.threshold == s.config.threshold
}

/// The limit has been reached once a cycle has ended.
pub open spec fn limit_reached(s: SessionModel) -> bool {
    match s.config.cast_limit {
        Some(n) => s.casts >= n,
        None => false,
    }
}

/// The decision at the top of a cycle: finish when cancelled or when the
/// limit is reached, else cast again.
pub open spec fn next_cycle(s: SessionModel) -> (SessionModel, SessionAction) {
    if s.cancelled || limit_reached(s) {
        (SessionModel { phase: Phase::Finished, ..s }, SessionAction::Complete)
    } else {
        (
            SessionModel {
                phase: Phase::Casting,
                casts: if s.casts < u64::MAX { (s.casts + 1) as u64 } else { s.casts },
                detector: initial_model(s.config.threshold),
                ..s
            },
            SessionAction::Cast,
        )
    }
}

/// The first cycle of a session that has not been cancelled.
pub open spec fn first_cycle(s: SessionModel) -> (SessionModel, SessionAction) {
    if s.cancelled {
        (SessionModel { phase: Phase::Finished, ..s }, SessionAction::Complete)
    } else {
        (
            SessionModel {
                phase: Phase::Casting,
                casts: 1,
                detector: initial_model(s.config.threshold),
                ..s
            },
            SessionAction::Cast,
        )
    }
}

/// The session's response to one event: its next state and what the caller
/// is to do. A cancelled session finishes at its next event, and a finished
/// one ignores everything.
pub open spec fn session_step(s: SessionModel, e: SessionEvent) -> (SessionModel, SessionAction) {
    let finish = (SessionModel { phase: Phase::Finished, ..s }, SessionAction::Complete);
    let ignore = (s, SessionAction::Nothing);
    match s.phase {
        Phase::Finished => ignore,
        _ => if s.cancelled {
            finish
        } else {
            match (s.phase, e) {
                (Phase::Setup, SessionEvent::SetupSucceeded) => first_cycle(s),
                (Phase::Setup, SessionEvent::SetupFailed) => finish,
                (Phase::Casting, SessionEvent::ActionDone) => (
                    SessionModel { phase: Phase::Sampling, ..s },
                    SessionAction::Poll,
                ),
                (Phase::Sampling, SessionEvent::Tick { sample, timed_out }) => {
                    let d = match sample {
                        Some(v) => fishing_step(s.detector, v),
                        None => s.detector,
                    };
                    if d.state == FishingState::Reeling {
                        (SessionModel { phase: Phase::Reeling, detector: d, ..s }, SessionAction::Reel)
                    } else if timed_out {
                        (
                            SessionModel { phase: Phase::Cooling, detector: d, ..s },
                            SessionAction::Cooldown,
                        )
                    } else {
                        (SessionModel { detector: d, ..s }, SessionAction::Poll)
                    }
                },
                (Phase::Reeling, SessionEvent::ActionDone) => (
                    SessionModel { phase: Phase::Cooling, ..s },
                    SessionAction::Cooldown,
                ),
                (Phase::Cooling, SessionEvent::ActionDone) => next_cycle(s),
                _ => ignore,
            }
        },
    }
}

/// The session after the events `es`, in order, starting from `s`.
pub open spec fn run_events(s: SessionModel, es: Seq<SessionEvent>) -> SessionModel
    decreases es.len(),
{
    if es.len() == 0 {
        s
    } else {
        session_step(run_events(s, es.drop_last()), es.last()).0
    }
}

/// The actions returned for the events `es`, in order, starting from `s`.
pub open spec fn run_actions(s: SessionModel, es: Seq<SessionEvent>) -> Seq<SessionAction>
    decreases es.len(),
{
    if es.len() == 0 {
        Seq::empty()
    } else {
        run_actions(s, es.drop_last()).push(
            session_step(run_events(s, es.drop_last()), es.last()).1,
        )
    }
}

/// How many times `a` occurs in `acts`.
pub open spec fn count_action(acts: Seq<SessionAction>, a: SessionAction) -> nat
    decreases acts.len(),
{
    if acts.len() == 0 {
        0
    } else {
        count_action(acts.drop_last(), a) + if acts.last() == a { 1nat } else { 0 }
    }
}

/// One step keeps a well-formed session well-formed.
pub proof fn lemma_session_step_wf(s: SessionModel, e: SessionEvent)
    requires
        session_wf(s),
    ensures
        session_wf(session_step(s, e).0),
        session_step(s, e).0.config == s.config,
{
    if s.phase == Phase::Sampling && !s.cancelled {
        if let SessionEvent::Tick { sample: Some(v), .. } = e {
            crate::bite::lemma_step_wf(s.detector, v);
        }
    }
}

/// With a cast limit of `n`, a session started from scratch and not
/// stopped casts as many times as its counter says and so never more than
/// `n` times, whatever events come; once it has finished after casting at
/// all, it has cast exactly `n` times. It signals completion at most once,
/// and exactly once if it has finished.
pub proof fn lemma_cast_limit(config: SessionConfig, n: u32, es: Seq<SessionEvent>)
    requires
        config.cast_limit == Some(n),
        n >= 1,
    ensures
        !run_events(session_start(config), es).cancelled,
        run_events(session_start(config), es).phase == Phase::Finished && run_events(
            session_start(config),
            es,
        ).casts > 0 ==> count_action(run_actions(session_start(config), es), SessionAction::Cast)
            == n,
        count_action(run_actions(session_start(config), es), SessionAction::Cast)
            == run_events(session_start(config), es).casts,
        count_action(run_actions(session_start(config), es), SessionAction::Cast) <= n,
        count_action(run_actions(session_start(config), es), SessionAction::Complete) == (if run_events(
            session_start(config),
            es,
        ).phase == Phase::Finished {
            1nat
        } else {
            0
        }),
    decreases es.len(),
{
    let s0 = session_start(config);
    if es.len() > 0 {
        let p = es.drop_last();
        lemma_cast_limit(config, n, p);
        lemma_run_wf(s0, p);
        lemma_session_step_wf(run_events(s0, p), es.last());
        assert(run_actions(s0, es).drop_last() =~= run_actions(s0, p));
    }
    lemma_run_wf(s0, es);
}

/// Running any events keeps a well-formed session well-formed.
pub proof fn lemma_run_wf(s: SessionModel, es: Seq<SessionEvent>)
    requires
        session_wf(s),
    ensures
        session_wf(run_events(s, es)),
        run_events(s, es).config == s.config,
    decreases es.len(),
{
    if es.len() > 0 {
        lemma_run_wf(s, es.drop_last());
        lemma_session_step_wf(run_events(s, es.drop_last()), es.last());
    }
}

/// Once a stop is asked for in a running session, the very next event,
/// whatever it is, makes the session signal completion, and from then on it
/// asks for nothing: no cast, no reel, no second completion.
pub proof fn lemma_stop_completes_once(s: SessionModel, es: Seq<SessionEvent>)
    requires
        s.phase != Phase::Finished,
        es.len() >= 1,
    ensures
        run_actions(SessionModel { cancelled: true, ..s }, es)[0] == SessionAction::Complete,
        forall|i: int|
            1 <= i < es.len() ==> run_actions(SessionModel { cancelled: true, ..s }, es)[i]
                == SessionAction::Nothing,
        count_action(run_actions(SessionModel { cancelled: true, ..s }, es), SessionAction::Cast)
            == 0,
        count_action(run_actions(SessionModel { cancelled: true, ..s }, es), SessionAction::Reel)
            == 0,
        count_action(
            run_actions(SessionModel { cancelled: true, ..s }, es),
            SessionAction::Complete,
        ) == 1,
        run_events(SessionModel { cancelled: true, ..s }, es).phase == Phase::Finished,
    decreases es.len(),
{
    let c = SessionModel { cancelled: true, ..s };
    if es.len() > 1 {
        lemma_stop_completes_once(s, es.drop_last());
        lemma_actions_len(c, es.drop_last());
    } else {
        let e0 = run_actions(c, es.drop_last());
        assert(e0 =~= Seq::empty());
        assert(count_action(e0, SessionAction::Cast) == 0);
        assert(count_action(e0, SessionAction::Reel) == 0);
        assert(count_action(e0, SessionAction::Complete) == 0);
    }
    assert(run_actions(c, es).drop_last() =~= run_actions(c, es.drop_last()));
    assert(run_actions(c, es).len() == es.len()) by {
        lemma_actions_len(c, es);
    }
}

proof fn lemma_actions_len(s: SessionModel, es: Seq<SessionEvent>)
    ensures
        run_actions(s, es).len() == es.len(),
    decreases es.len(),
{
    if es.len() > 0 {
        lemma_actions_len(s, es.drop_last());
    }
}

/// The decisions of a fishing session: which action to take after each
/// event, until it completes.
pub struct FishingSession {
    config: SessionConfig,
    phase: Phase,
    casts: u64,
    cancelled: bool,
    detector: BiteDetector,
}

impl View for FishingSession {
    type V = SessionModel;

    closed spec fn view(&self) -> SessionModel {
        SessionModel {
            config: self.config,
            phase: self.phase,
            casts: self.casts,
            cancelled: self.cancelled,
            detector: self.detector@,
        }
    }
}

impl FishingSession {
    /// A session waiting for its setup to finish.
    pub fn new(config: SessionConfig) -> (r: Self)
        ensures
            r@ == session_start(config),
            session_wf(r@),
    {
        FishingSession {
            config,
            phase: Phase::Setup,
            casts: 0,
            cancelled: false,
            detector: BiteDetector::new(config.threshold),
        }
    }

    /// Asks the session to stop. Stopping is for good, and asking again
    /// changes nothing.
    pub fn stop(&mut self)
        ensures
            final(self)@ == (SessionModel { cancelled: true, ..old(self)@ }),
    {
        self.cancelled = true;
    }

    fn finish(&mut self) -> (r: SessionAction)
        ensures
            final(self)@ == (SessionModel { phase: Phase::Finished, ..old(self)@ }),
            r == SessionAction::Complete,
    {
        self.phase = Phase::Finished;
        SessionAction::Complete
    }

    fn begin_cycle(&mut self)
        requires
            session_wf(old(self)@),
            old(self)@.casts < effective_limit(old(self)@.config),
        ensures
            final(self)@ == (SessionModel {
                phase: Phase::Casting,
                casts: (old(self)@.casts + 1) as u64,
                detector: initial_model(old(self)@.config.threshold),
                ..old(self)@
            }),
            session_wf(final(self)@),
    {
        self.phase = Phase::Casting;
        self.casts = self.casts + 1;
        self.detector = BiteDetector::new(self.config.threshold);
    }

    /// Takes one event and returns the next action.
    pub fn on_event(&mut self, event: SessionEvent) -> (r: SessionAction)
        requires
            session_wf(old(self)@),
        ensures
            session_wf(final(self)@),
            (final(self)@, r) == session_step(old(self)@, event),
    {
        if self.phase == Phase::Finished {
            return SessionAction::Nothing;
        }
        if self.cancelled {
            return self.finish();
        }
        match (self.phase, event) {
            (Phase::Setup, SessionEvent::SetupSucceeded) => {
                self.begin_cycle();
                SessionAction::Cast
            },
            (Phase::Setup, SessionEvent::SetupFailed) => self.finish(),
            (Phase::Casting, SessionEvent::ActionDone) => {
                self.phase = Phase::Sampling;
                SessionAction::Poll
            },
            (Phase::Sampling, SessionEvent::Tick { sample, timed_out }) => {
                let st = match sample {
                    Some(v) => self.detector.update_fishing_state(v),
                    None => self.detector.state(),
                };
                if st == FishingState::Reeling {
                    self.phase = Phase::Reeling;
                    SessionAction::Reel
                } else if timed_out {
                    self.phase = Phase::Cooling;
                    SessionAction::Cooldown
                } else {
                    SessionAction::Poll
                }
            },
            (Phase::Reeling, SessionEvent::ActionDone) => {
                self.phase = Phase::Cooling;
                SessionAction::Cooldown
            },
            (Phase::Cooling, SessionEvent::ActionDone) => {
                let reached = match self.config.cast_limit {
                    Some(n) => self.casts >= n as u64,
                    None => false,
                };
                if reached {
                    self.finish()
                } else {
                    if self.casts < u64::MAX {
                        self.begin_cycle();
                    } else {
                        self.phase = Phase::Casting;
                        self.detector = BiteDetector::new(self.config.threshold);
                    }
                    SessionAction::Cast
                }
            },
            _ => SessionAction::Nothing,
        }
    }

    /// Whether completion has been signalled.
    pub fn is_finished(&self) -> (r: bool)
        ensures
            r == (self@.phase == Phase::Finished),
    {
        self.phase == Phase::Finished
    }

    /// How many cycles have been started.
    pub fn casts(&self) -> (r: u64)
        ensures
            r == self@.casts,
    {
        self.casts
    }

    /// Whether a stop was asked for.
    pub fn is_cancelled(&self) -> (r: bool)
        ensures
            r == self@.cancelled,
    {
        self.cancelled
    }

    /// The detector of the current cycle.
    pub fn detector(&self) -> (r: &BiteDetector)
        ensures
            r@ == self@.detector,
    {
        &self.detector
    }

    pub fn config(&self) -> (r: SessionConfig)
        ensures
            r == self@.config,
    {
        self.config
    }
}

} // verus!
