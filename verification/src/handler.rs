//! The event handler: what one press of a volume key sets in motion.
//!
//! Handling a press alternates between decisions, which are made here, and
//! work that only the surroundings can do: asking for the focused window,
//! listing the audio sessions, reading the clock, evaluating the decay curve,
//! reading and writing a session. The handler is therefore a state machine.
//! [`EventHandler::on_volume_key`] starts a press and each call of
//! [`EventHandler::step`] takes the outcome of the last action and returns
//! the next one, until the press ends with [`Action::Done`] or
//! [`Action::Report`].

use vstd::prelude::*;
use crate::acceleration::{
    UNIT,
    set_acceleration_parameters,
    set_base_increment,
    EngineModel,
    VolumeKeyState,
};
use crate::error::VolumeError;
use crate::focus::{target_of, target_session, FocusReport, ProcessIdentity};
use crate::keys::VolumeKey;
use crate::level::{lowered, raised, toggle_mute, toggled, VolumeLevel};
use crate::sessions::SessionEntry;

verus! {

/// Where the handling of a press stands: what the handler waits for.
#[derive(Clone, Copy, Debug, PartialEq, Eq)]
pub enum Stage {
    /// No press is being handled.
    Idle,
    /// The focused window was asked for.
    AwaitFocus { key: VolumeKey },
    /// The sessions were asked for; `pid` owns focus.
    AwaitSessions { key: VolumeKey, pid: u32 },
    /// The clock was asked for; `session` is the target.
    AwaitClock { key: VolumeKey, session: usize },
    /// The value of the decay curve was asked for.
    AwaitDecay { key: VolumeKey, session: usize },
    /// The level of the target was asked for; `delta` is the step to apply.
    AwaitVolume { key: VolumeKey, session: usize, delta: u64 },
    /// The mute state of the target was asked for.
    AwaitMute { session: usize },
    /// A write to the target was asked for.
    AwaitWrite,
}

/// The outcome of an action, handed back to the handler.
#[derive(Debug)]
pub enum Event {
    /// Answer to [`Action::QueryFocus`].
    Focus(FocusReport),
    /// Answer to [`Action::ListSessions`]; `None` where the provider failed.
    Sessions(Option<Vec<SessionEntry>>),
    /// Answer to [`Action::ReadClock`]: the time in milliseconds.
    Clock(u64),
    /// Answer to [`Action::EvaluateDecay`]: the value of the decay curve, in
    /// millionths.
    Decay(u32),
    /// Answer to [`Action::ReadVolume`]: the level in millionths, or `None`
    /// where the provider failed.
    Volume(Option<u32>),
    /// Answer to [`Action::ReadMute`]; `None` where the provider failed.
    Mute(Option<bool>),
    /// Answer to a write: whether the provider accepted it.
    Written(bool),
}

/// What the surroundings are to do next.
#[derive(Clone, Copy, Debug, PartialEq, Eq)]
pub enum Action {
    /// Ask the windowing subsystem for the focused window.
    QueryFocus,
    /// List the audio sessions of the default output.
    ListSessions,
    /// Read the clock.
    ReadClock,
    /// Evaluate the decay curve, the exponential of the negated `exponent`,
    /// which is given in millionths.
    EvaluateDecay { exponent: u64 },
    /// Read the level of a session.
    ReadVolume { session: usize },
    /// Set the level of a session, given in millionths.
    WriteVolume { session: usize, micros: u32 },
    /// Read the mute state of a session.
    ReadMute { session: usize },
    /// Set the mute state of a session.
    WriteMute { session: usize, muted: bool },
    /// Report the error; the press is over and has changed nothing more.
    Report(VolumeError),
    /// The press is over and was applied.
    Done,
}

/// The level, in millionths, to write for a key, a level read and a step.
/// A level read above full volume counts as full volume.
pub open spec fn level_after(key: VolumeKey, read: u32, delta: u64) -> int {
    if key == VolumeKey::Down {
        lowered(raised(0, read as int), delta as int)
    } else {
        raised(raised(0, read as int), delta as int)
    }
}

/// The handler's rule: from a stage, the engine's state and an event to the
/// next stage, the engine's next state and the action to take. An event that
/// the stage does not wait for ends the press with a provider error.
pub open spec fn transition(stage: Stage, engine: EngineModel, event: Event) -> (
    Stage,
    EngineModel,
    Action,
) {
    let fault = (Stage::Idle, engine, Action::Report(VolumeError::ProviderError));
    match stage {
        Stage::Idle => fault,
        Stage::AwaitFocus { key } => match event {
            Event::Focus(FocusReport::Focused(identity)) => (
                Stage::AwaitSessions { key, pid: identity.pid },
                engine,
                Action::ListSessions,
            ),
            Event::Focus(FocusReport::NoFocus) => (
                Stage::Idle,
                engine,
                Action::Report(VolumeError::NoFocus),
            ),
            _ => fault,
        },
        Stage::AwaitSessions { key, pid } => match event {
            Event::Sessions(Some(sessions)) => match target_of(sessions@, pid) {
                Ok(session) => if key == VolumeKey::Mute {
                    (Stage::AwaitMute { session }, engine, Action::ReadMute { session })
                } else {
                    (Stage::AwaitClock { key, session }, engine, Action::ReadClock)
                },
                Err(e) => (Stage::Idle, engine, Action::Report(e)),
            },
            _ => fault,
        },
        Stage::AwaitClock { key, session } => match event {
            Event::Clock(now) => {
                let pressed = engine.press(now);
                (
                    Stage::AwaitDecay { key, session },
                    pressed,
                    Action::EvaluateDecay { exponent: pressed.current_exponent() as u64 },
                )
            },
            _ => fault,
        },
        Stage::AwaitDecay { key, session } => match event {
            Event::Decay(factor) => (
                Stage::AwaitVolume { key, session, delta: engine.adjustment(factor) as u64 },
                engine,
                Action::ReadVolume { session },
            ),
            _ => fault,
        },
        Stage::AwaitVolume { key, session, delta } => match event {
            Event::Volume(Some(read)) => (
                Stage::AwaitWrite,
                engine,
                Action::WriteVolume { session, micros: level_after(key, read, delta) as u32 },
            ),
            _ => fault,
        },
        Stage::AwaitMute { session } => match event {
            Event::Mute(Some(muted)) => (
                Stage::AwaitWrite,
                engine,
                Action::WriteMute { session, muted: toggled(muted) },
            ),
            _ => fault,
        },
        Stage::AwaitWrite => match event {
            Event::Written(true) => (Stage::Idle, engine, Action::Done),
            _ => fault,
        },
    }
}

/// Mathematical content of an [`EventHandler`].
pub ghost struct HandlerModel {
    pub stage: Stage,
    pub engine: EngineModel,
}

/// The event handler: the acceleration engine and the stage of the press
/// that is being handled.
pub struct EventHandler {
    engine: VolumeKeyState,
    stage: Stage,
}

impl View for EventHandler {
    type V = HandlerModel;

    closed spec fn view(&self) -> HandlerModel {
        HandlerModel { stage: self.stage, engine: self.engine@ }
    }
}

impl EventHandler {
    /// A handler at rest with a fresh engine.
    pub fn new() -> (handler: EventHandler)
        ensures
            handler@ == (HandlerModel { stage: Stage::Idle, engine: EngineModel::initial() }),
    {
        EventHandler { engine: VolumeKeyState::new(), stage: Stage::Idle }
    }

    /// The stage that the handler is in.
    pub fn stage(&self) -> (stage: Stage)
        ensures
            stage == self@.stage,
    {
        self.stage
    }

    /// The handler's acceleration engine.
    pub fn engine(&self) -> (engine: &VolumeKeyState)
        ensures
            engine@ == self@.engine,
    {
        &self.engine
    }

    /// Starts handling a press of `key`: the first thing to do is to ask for
    /// the focused window. A press that was still being handled is given up.
    pub fn on_volume_key(&mut self, key: VolumeKey) -> (action: Action)
        ensures
            action == Action::QueryFocus,
            final(self)@ == (HandlerModel {
                stage: Stage::AwaitFocus { key },
                engine: old(self)@.engine,
            }),
    {
        self.stage = Stage::AwaitFocus { key };
        Action::QueryFocus
    }

    /// Takes the outcome of the last action and decides what comes next.
    pub fn step(&mut self, event: Event) -> (action: Action)
        ensures
            (final(self)@.stage, final(self)@.engine, action) == transition(
                old(self)@.stage,
                old(self)@.engine,
                event,
            ),
    {
        let stage: Stage = self.stage;
        self.stage = Stage::Idle;
        match stage {
            Stage::Idle => Action::Report(VolumeError::ProviderError),
            Stage::AwaitFocus { key } => match event {
                Event::Focus(FocusReport::Focused(identity)) => {
                    self.stage = Stage::AwaitSessions { key, pid: identity.pid };
                    Action::ListSessions
                },
                Event::Focus(FocusReport::NoFocus) => Action::Report(VolumeError::NoFocus),
                _ => Action::Report(VolumeError::ProviderError),
            },
            Stage::AwaitSessions { key, pid } => match event {
                Event::Sessions(Some(sessions)) => match target_session(pid, &sessions) {
                    Ok(session) => match key {
                        VolumeKey::Mute => {
                            self.stage = Stage::AwaitMute { session };
                            Action::ReadMute { session }
                        },
                        _ => {
                            self.stage = Stage::AwaitClock { key, session };
                            Action::ReadClock
                        },
                    },
                    Err(e) => Action::Report(e),
                },
                _ => Action::Report(VolumeError::ProviderError),
            },
            Stage::AwaitClock { key, session } => match event {
                Event::Clock(now) => {
                    let avg: u64 = self.engine.record_press(now);
                    let exponent: u64 = self.engine.decay_exponent(avg);
                    self.stage = Stage::AwaitDecay { key, session };
                    Action::EvaluateDecay { exponent }
                },
                _ => Action::Report(VolumeError::ProviderError),
            },
            Stage::AwaitDecay { key, session } => match event {
                Event::Decay(factor) => {
                    let delta: u64 = self.engine.adjustment_for(factor);
                    self.stage = Stage::AwaitVolume { key, session, delta };
                    Action::ReadVolume { session }
                },
                _ => Action::Report(VolumeError::ProviderError),
            },
            Stage::AwaitVolume { key, session, delta } => match event {
                Event::Volume(Some(read)) => {
                    let current: VolumeLevel = VolumeLevel::clamped(read as u64);
                    let next: VolumeLevel = match key {
                        VolumeKey::Down => current.decrement(delta),
                        _ => current.increment(delta),
                    };
                    self.stage = Stage::AwaitWrite;
                    Action::WriteVolume { session, micros: next.micros() }
                },
                _ => Action::Report(VolumeError::ProviderError),
            },
            Stage::AwaitMute { session } => match event {
                Event::Mute(Some(muted)) => {
                    self.stage = Stage::AwaitWrite;
                    Action::WriteMute { session, muted: toggle_mute(muted) }
                },
                _ => Action::Report(VolumeError::ProviderError),
            },
            Stage::AwaitWrite => match event {
                Event::Written(true) => Action::Done,
                _ => Action::Report(VolumeError::ProviderError),
            },
        }
    }

    /// Replaces the bounds of the multiplier and the decay rate of the
    /// handler's engine, in millionths; the next press uses them.
    pub fn tune_acceleration(&mut self, max: u32, min: u32, decay: u32)
        ensures
            final(self)@.stage == old(self)@.stage,
            final(self)@.engine == (EngineModel {
                max_acceleration: max,
                min_acceleration: min,
                decay_rate: decay,
                ..old(self)@.engine
            }),
    {
        set_acceleration_parameters(&mut self.engine, max, min, decay);
    }

    /// Replaces the base increment of the handler's engine, in millionths;
    /// the next press uses it.
    pub fn tune_base_increment(&mut self, increment: u32)
        ensures
            final(self)@.stage == old(self)@.stage,
            final(self)@.engine == (EngineModel {
                base_increment: increment,
                ..old(self)@.engine
            }),
    {
        set_base_increment(&mut self.engine, increment);
    }
}

/// The session that a stage holds as the target of the press, if any.
pub open spec fn stage_session(stage: Stage) -> Option<usize> {
    match stage {
        Stage::AwaitClock { session, .. } => Some(session),
        Stage::AwaitDecay { session, .. } => Some(session),
        Stage::AwaitVolume { session, .. } => Some(session),
        Stage::AwaitMute { session } => Some(session),
        _ => None,
    }
}

/// The session that an action reads or writes, if any.
pub open spec fn action_session(action: Action) -> Option<usize> {
    match action {
        Action::ReadVolume { session } => Some(session),
        Action::WriteVolume { session, .. } => Some(session),
        Action::ReadMute { session } => Some(session),
        Action::WriteMute { session, .. } => Some(session),
        _ => None,
    }
}

/// Whether the event, arriving in the stage, resolves the target to `session`.
pub open spec fn resolves_to(stage: Stage, event: Event, session: usize) -> bool {
    match (stage, event) {
        (Stage::AwaitSessions { pid, .. }, Event::Sessions(Some(sessions))) => target_of(
            sessions@,
            pid,
        ) == Ok::<usize, VolumeError>(session),
        _ => false,
    }
}

/// Without a focused window the press ends at once: the missing focus is
/// reported, the handler is at rest and the engine is as it was. No session
/// is listed, read or written.
pub proof fn lemma_no_focus_ends_press(key: VolumeKey, engine: EngineModel)
    ensures
        transition(Stage::AwaitFocus { key }, engine, Event::Focus(FocusReport::NoFocus)) == (
            Stage::Idle,
            engine,
            Action::Report(VolumeError::NoFocus),
        ),
{
}

/// The system session is never the target: while process zero owns focus,
/// whatever the provider lists, the press ends with the report that there is
/// no audio session.
pub proof fn lemma_system_session_never_targeted(
    key: VolumeKey,
    engine: EngineModel,
    sessions: Vec<SessionEntry>,
)
    ensures
        transition(
            Stage::AwaitSessions { key, pid: 0 },
            engine,
            Event::Sessions(Some(sessions)),
        ) == (Stage::Idle, engine, Action::Report(VolumeError::NoAudioSession)),
{
}

/// Every press ends at rest: a report or a completion leaves the handler
/// idle, and a report leaves the engine as it was.
pub proof fn lemma_press_ends_at_rest(stage: Stage, engine: EngineModel, event: Event)
    ensures
        transition(stage, engine, event).2 is Report ==> transition(stage, engine, event).0
            == Stage::Idle && transition(stage, engine, event).1 == engine,
        transition(stage, engine, event).2 == Action::Done ==> transition(stage, engine, event).0
            == Stage::Idle,
{
}

/// Only a reading of the clock changes the engine, and it records exactly
/// one press: failures before or after it leave the timing history alone,
/// and a failure after it does not take the press back.
pub proof fn lemma_engine_changes_only_on_clock(stage: Stage, engine: EngineModel, event: Event)
    ensures
        match (stage, event) {
            (Stage::AwaitClock { .. }, Event::Clock(now)) => transition(stage, engine, event).1
                == engine.press(now),
            _ => transition(stage, engine, event).1 == engine,
        },
{
}

/// A session is read or written, or carried on as the target, only if it
/// was the target before or the event resolves the target to it.
pub proof fn lemma_sessions_follow_resolution(stage: Stage, engine: EngineModel, event: Event)
    ensures
        ({
            let (next, _, action) = transition(stage, engine, event);
            &&& forall|s: usize|
                stage_session(next) == Some(s) ==> stage_session(stage) == Some(s) || resolves_to(
                    stage,
                    event,
                    s,
                )
            &&& forall|s: usize|
                action_session(action) == Some(s) ==> stage_session(stage) == Some(s)
                    || resolves_to(stage, event, s)
        }),
{
}

/// A level that is written lies between silence and full volume. For a
/// level read within that range, going up writes the smaller of full volume
/// and the sum, going down the larger of silence and the difference.
pub proof fn lemma_written_level(
    key: VolumeKey,
    session: usize,
    delta: u64,
    read: u32,
    engine: EngineModel,
)
    ensures
        0 <= level_after(key, read, delta) <= UNIT,
        transition(
            Stage::AwaitVolume { key, session, delta },
            engine,
            Event::Volume(Some(read)),
        ).2 == (Action::WriteVolume { session, micros: level_after(key, read, delta) as u32 }),
        read <= UNIT && key != VolumeKey::Down ==> level_after(key, read, delta) == if read
            + delta > UNIT {
            UNIT as int
        } else {
            read + delta
        },
        read <= UNIT && key == VolumeKey::Down ==> level_after(key, read, delta) == if read
            - delta < 0 {
            0
        } else {
            read - delta
        },
{
}

/// A mute press on a session that is not muted writes "muted" to it once:
/// the write is the only action on the session, and after it the press can
/// only end.
pub proof fn lemma_mute_press_writes_once(session: usize, engine: EngineModel, answer: Event)
    ensures
        transition(Stage::AwaitMute { session }, engine, Event::Mute(Some(false))) == (
            Stage::AwaitWrite,
            engine,
            Action::WriteMute { session, muted: true },
        ),
        transition(Stage::AwaitWrite, engine, answer).0 == Stage::Idle,
        action_session(transition(Stage::AwaitWrite, engine, answer).2) is None,
{
}

/// Two mute presses in a row, with nothing else touching the session, leave
/// it as it was: the second writes back what the first had read.
pub proof fn lemma_two_mute_presses_restore(session: usize, engine: EngineModel, muted: bool)
    ensures
        transition(Stage::AwaitMute { session }, engine, Event::Mute(Some(muted))).2 == (
            Action::WriteMute { session, muted: toggled(muted) }
        ),
        transition(Stage::AwaitMute { session }, engine, Event::Mute(Some(toggled(muted)))).2 == (
            Action::WriteMute { session, muted }
        ),
{
}

/// A press of the up or down key that meets no failure, from the answer on
/// focus to the accepted write: the sessions are listed, the clock is read,
/// the decay curve is evaluated at the exponent of the engine after the
/// press, the level of the target session is read, and the level written to
/// it is the level read moved by the base increment times the multiplier.
/// The handler ends at rest with exactly this press recorded.
pub proof fn lemma_volume_press_outcome(
    key: VolumeKey,
    engine: EngineModel,
    identity: ProcessIdentity,
    sessions: Vec<SessionEntry>,
    session: usize,
    now: u64,
    factor: u32,
    read: u32,
)
    requires
        key != VolumeKey::Mute,
        target_of(sessions@, identity.pid) == Ok::<usize, VolumeError>(session),
    ensures
        ({
            let pressed = engine.press(now);
            let (s1, e1, a1) = transition(
                Stage::AwaitFocus { key },
                engine,
                Event::Focus(FocusReport::Focused(identity)),
            );
            let (s2, e2, a2) = transition(s1, e1, Event::Sessions(Some(sessions)));
            let (s3, e3, a3) = transition(s2, e2, Event::Clock(now));
            let (s4, e4, a4) = transition(s3, e3, Event::Decay(factor));
            let (s5, e5, a5) = transition(s4, e4, Event::Volume(Some(read)));
            let (s6, e6, a6) = transition(s5, e5, Event::Written(true));
            &&& a1 == Action::ListSessions
            &&& a2 == Action::ReadClock
            &&& a3 == (Action::EvaluateDecay { exponent: pressed.current_exponent() as u64 })
            &&& a4 == (Action::ReadVolume { session })
            &&& a5 == (Action::WriteVolume {
                session,
                micros: level_after(key, read, pressed.adjustment(factor) as u64) as u32,
            })
            &&& a6 == Action::Done
            &&& s6 == Stage::Idle
            &&& e6 == pressed
        }),
{
}

/// A press of the mute key that meets no failure: the sessions are listed,
/// the mute state of the target session is read and its opposite is written
/// to it. The engine is left as it was.
pub proof fn lemma_mute_press_outcome(
    engine: EngineModel,
    identity: ProcessIdentity,
    sessions: Vec<SessionEntry>,
    session: usize,
    muted: bool,
)
    requires
        target_of(sessions@, identity.pid) == Ok::<usize, VolumeError>(session),
    ensures
        ({
            let (s1, e1, a1) = transition(
                Stage::AwaitFocus { key: VolumeKey::Mute },
                engine,
                Event::Focus(FocusReport::Focused(identity)),
            );
            let (s2, e2, a2) = transition(s1, e1, Event::Sessions(Some(sessions)));
            let (s3, e3, a3) = transition(s2, e2, Event::Mute(Some(muted)));
            let (s4, e4, a4) = transition(s3, e3, Event::Written(true));
            &&& a1 == Action::ListSessions
            &&& a2 == (Action::ReadMute { session })
            &&& a3 == (Action::WriteMute { session, muted: toggled(muted) })
            &&& a4 == Action::Done
            &&& s4 == Stage::Idle
            &&& e4 == engine
        }),
{
}

} // verus!
