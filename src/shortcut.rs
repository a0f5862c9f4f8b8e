//! The hotkey binder: at most one active binding, replaced atomically with
//! rollback on failure, and a debounce on triggers.
//!
//! The binder decides; its caller performs each registration command with
//! the operating system and hands the outcome back.
use vstd::prelude::*;
use crate::text::owned;

verus! {

/// Triggers closer together than this, in milliseconds, count as one.
pub const DEBOUNCE_MS: u64 = 200;

/// Why a rebind failed.
#[derive(Debug, PartialEq, Eq)]
pub enum ShortcutError {
    /// The new binding could not be registered; carries the registrar's error.
    RegistrationFailed(String),
}

/// What the caller is to do next.
#[derive(Debug, PartialEq, Eq)]
pub enum HotkeyCommand {
    /// Unregister this binding, then report the outcome.
    Unregister(String),
    /// Register this binding, then report the outcome.
    Register(String),
    /// The rebind is over, with this result.
    Finish(Result<(), ShortcutError>),
}

/// Where a rebind stands.
#[derive(Debug)]
pub enum RebindPhase {
    /// No rebind in progress.
    Idle,
    /// The previous binding is being released before `target` is registered.
    Releasing(String),
    /// `target` is being registered.
    Binding(String),
    /// Registering failed with this error; the previous binding is being
    /// registered again.
    Restoring(String),
}

/// The binder's state.
#[derive(Debug)]
pub struct ShortcutBinder {
    /// The binding that is registered, if any.
    pub bound: Option<String>,
    /// The binding that was registered when the rebind in progress began.
    pub previous: Option<String>,
    pub phase: RebindPhase,
    /// When the last trigger that was acted on came, in milliseconds.
    pub last_trigger_ms: Option<u64>,
}

/// `RebindPhase` as values.
pub enum PhaseModel {
    Idle,
    Releasing(Seq<char>),
    Binding(Seq<char>),
    Restoring(Seq<char>),
}

/// `ShortcutBinder` as values.
pub struct BinderModel {
    pub bound: Option<Seq<char>>,
    pub previous: Option<Seq<char>>,
    pub phase: PhaseModel,
    pub last_trigger_ms: Option<u64>,
}

/// `HotkeyCommand` as values; a finish carries the error text, if any.
pub enum CommandModel {
    Unregister(Seq<char>),
    Register(Seq<char>),
    Finish(Result<(), Seq<char>>),
}

/// The characters of an optional string.
pub open spec fn opt_seq(s: Option<String>) -> Option<Seq<char>> {
    match s {
        Some(x) => Some(x@),
        None => None,
    }
}

impl View for RebindPhase {
    type V = PhaseModel;

    open spec fn view(&self) -> PhaseModel {
        match self {
            RebindPhase::Idle => PhaseModel::Idle,
            RebindPhase::Releasing(t) => PhaseModel::Releasing(t@),
            RebindPhase::Binding(t) => PhaseModel::Binding(t@),
            RebindPhase::Restoring(e) => PhaseModel::Restoring(e@),
        }
    }
}

impl View for ShortcutBinder {
    type V = BinderModel;

    open spec fn view(&self) -> BinderModel {
        BinderModel {
            bound: opt_seq(self.bound),
            previous: opt_seq(self.previous),
            phase: self.phase@,
            last_trigger_ms: self.last_trigger_ms,
        }
    }
}

impl View for HotkeyCommand {
    type V = CommandModel;

    open spec fn view(&self) -> CommandModel {
        match self {
            HotkeyCommand::Unregister(s) => CommandModel::Unregister(s@),
            HotkeyCommand::Register(s) => CommandModel::Register(s@),
            HotkeyCommand::Finish(Ok(())) => CommandModel::Finish(Ok(())),
            HotkeyCommand::Finish(Err(ShortcutError::RegistrationFailed(e))) => CommandModel::Finish(
                Err(e@),
            ),
        }
    }
}

/// Starting a rebind to `target` from an idle binder: release the current
/// binding first, if there is one, else register `target` at once.
pub open spec fn begin_step(m: BinderModel, target: Seq<char>) -> (BinderModel, CommandModel) {
    match m.bound {
        Some(p) => (
            BinderModel { previous: Some(p), phase: PhaseModel::Releasing(target), ..m },
            CommandModel::Unregister(p),
        ),
        None => (
            BinderModel { previous: None, phase: PhaseModel::Binding(target), ..m },
            CommandModel::Register(target),
        ),
    }
}

/// The step on the outcome of the last command (`Err` with the registrar's
/// error text). A failed release is passed over. A failed registration
/// registers the previous binding again, where there was one, and the rebind
/// then finishes with the registration's error whatever the restore gave.
pub open spec fn outcome_step(m: BinderModel, outcome: Result<(), Seq<char>>) -> (
    BinderModel,
    CommandModel,
) {
    match m.phase {
        PhaseModel::Releasing(t) => (
            BinderModel { bound: None, phase: PhaseModel::Binding(t), ..m },
            CommandModel::Register(t),
        ),
        PhaseModel::Binding(t) => match outcome {
            Ok(()) => (
                BinderModel { bound: Some(t), previous: None, phase: PhaseModel::Idle, ..m },
                CommandModel::Finish(Ok(())),
            ),
            Err(e) => match m.previous {
                Some(p) => (
                    BinderModel { bound: None, phase: PhaseModel::Restoring(e), ..m },
                    CommandModel::Register(p),
                ),
                None => (
                    BinderModel { bound: None, previous: None, phase: PhaseModel::Idle, ..m },
                    CommandModel::Finish(Err(e)),
                ),
            },
        },
        PhaseModel::Restoring(e) => match outcome {
            Ok(()) => (
                BinderModel { bound: m.previous, previous: None, phase: PhaseModel::Idle, ..m },
                CommandModel::Finish(Err(e)),
            ),
            Err(_) => (
                BinderModel { bound: None, previous: None, phase: PhaseModel::Idle, ..m },
                CommandModel::Finish(Err(e)),
            ),
        },
        PhaseModel::Idle => (m, CommandModel::Finish(Ok(()))),
    }
}

/// Whether a trigger at `now` is acted on, given the last one acted on: it
/// is, unless it comes less than `DEBOUNCE_MS` after it (or before it).
pub open spec fn trigger_fires(last: Option<u64>, now: u64) -> bool {
    match last {
        Some(t) => now >= t && now - t >= DEBOUNCE_MS,
        None => true,
    }
}

/// The characters of an outcome's error.
pub open spec fn outcome_view(o: Result<(), String>) -> Result<(), Seq<char>> {
    match o {
        Ok(()) => Ok(()),
        Err(e) => Err(e@),
    }
}

/// Whether a phase is idle.
pub open spec fn is_idle(p: PhaseModel) -> bool {
    p is Idle
}

impl ShortcutBinder {
    /// A binder with nothing bound.
    pub fn new() -> (r: ShortcutBinder)
        ensures
            r@.bound is None,
            is_idle(r@.phase),
            r@.last_trigger_ms is None,
    {
        ShortcutBinder { bound: None, previous: None, phase: RebindPhase::Idle, last_trigger_ms: None }
    }

    /// Whether no rebind is in progress.
    pub fn is_idle(&self) -> (r: bool)
        ensures
            r == is_idle(self@.phase),
    {
        match self.phase {
            RebindPhase::Idle => true,
            _ => false,
        }
    }

    /// Starts binding `target`, replacing the current binding; the first
    /// command to perform is returned. At startup, on a binder with nothing
    /// bound, this is the initial bind.
    pub fn begin_rebind(&mut self, target: String) -> (r: HotkeyCommand)
        requires
            is_idle(old(self)@.phase),
        ensures
            (final(self)@, r@) == begin_step(old(self)@, target@),
    {
        match &self.bound {
            Some(p) => {
                let c = owned(p.as_str());
                self.previous = Some(owned(p.as_str()));
                self.phase = RebindPhase::Releasing(target);
                HotkeyCommand::Unregister(c)
            },
            None => {
                self.previous = None;
                let c = owned(target.as_str());
                self.phase = RebindPhase::Binding(target);
                HotkeyCommand::Register(c)
            },
        }
    }

    /// Takes the outcome of the last command performed and returns the next.
    pub fn on_outcome(&mut self, outcome: Result<(), String>) -> (r: HotkeyCommand)
        requires
            !is_idle(old(self)@.phase),
        ensures
            (final(self)@, r@) == outcome_step(old(self)@, outcome_view(outcome)),
    {
        match &self.phase {
            RebindPhase::Releasing(t) => {
                let next = owned(t.as_str());
                let c = owned(t.as_str());
                self.bound = None;
                self.phase = RebindPhase::Binding(next);
                HotkeyCommand::Register(c)
            },
            RebindPhase::Binding(t) => match outcome {
                Ok(()) => {
                    let b = owned(t.as_str());
                    self.bound = Some(b);
                    self.previous = None;
                    self.phase = RebindPhase::Idle;
                    HotkeyCommand::Finish(Ok(()))
                },
                Err(e) => {
                    self.bound = None;
                    match &self.previous {
                        Some(p) => {
                            let c = owned(p.as_str());
                            self.phase = RebindPhase::Restoring(e);
                            HotkeyCommand::Register(c)
                        },
                        None => {
                            self.phase = RebindPhase::Idle;
                            HotkeyCommand::Finish(Err(ShortcutError::RegistrationFailed(e)))
                        },
                    }
                },
            },
            RebindPhase::Restoring(e) => {
                let err = owned(e.as_str());
                let prev = self.previous.take();
                match outcome {
                    Ok(()) => {
                        self.bound = prev;
                    },
                    Err(_) => {
                        self.bound = None;
                    },
                }
                self.phase = RebindPhase::Idle;
                HotkeyCommand::Finish(Err(ShortcutError::RegistrationFailed(err)))
            },
            RebindPhase::Idle => HotkeyCommand::Finish(Ok(())),
        }
    }

    /// Takes a trigger at `now` (milliseconds on a monotonic clock) and says
    /// whether to act on it, by toggling the window; a trigger acted on
    /// becomes the last one.
    pub fn on_trigger(&mut self, now: u64) -> (r: bool)
        ensures
            r == trigger_fires(old(self)@.last_trigger_ms, now),
            final(self)@ == (BinderModel {
                last_trigger_ms: if r {
                    Some(now)
                } else {
                    old(self)@.last_trigger_ms
                },
                ..old(self)@
            }),
    {
        let fires = match self.last_trigger_ms {
            Some(t) => now >= t && now - t >= DEBOUNCE_MS,
            None => true,
        };
        if fires {
            self.last_trigger_ms = Some(now);
        }
        fires
    }
}

/// A rebind whose registration fails leaves the previous binding registered
/// again once the restore succeeds, reports the registration's error, and
/// leaves the trigger state as it was, so the previous binding goes on
/// toggling as before. Whatever the release and the restore give, the
/// rebind reports that error and the new binding is not bound.
pub proof fn lemma_failed_rebind_restores(
    m: BinderModel,
    target: Seq<char>,
    released: Result<(), Seq<char>>,
    error: Seq<char>,
    restored: Result<(), Seq<char>>,
)
    requires
        is_idle(m.phase),
        m.bound is Some,
    ensures
        ({
            let (m1, c1) = begin_step(m, target);
            let (m2, c2) = outcome_step(m1, released);
            let (m3, c3) = outcome_step(m2, Err(error));
            let (m4, c4) = outcome_step(m3, restored);
            &&& c1 == CommandModel::Unregister(m.bound->Some_0)
            &&& c2 == CommandModel::Register(target)
            &&& c3 == CommandModel::Register(m.bound->Some_0)
            &&& c4 == CommandModel::Finish(Err(error))
            &&& is_idle(m4.phase)
            &&& m4.bound == (if restored is Ok {
                m.bound
            } else {
                None
            })
            &&& m4.last_trigger_ms == m.last_trigger_ms
        }),
{
}

/// After a trigger that is acted on at `t1`, a later trigger at `t2` is
/// acted on exactly when it comes at least `DEBOUNCE_MS` later: two triggers
/// within the window toggle once, two further apart toggle twice.
pub proof fn lemma_debounce(last: Option<u64>, t1: u64, t2: u64)
    requires
        trigger_fires(last, t1),
        t1 <= t2,
    ensures
        trigger_fires(Some(t1), t2) <==> t2 - t1 >= DEBOUNCE_MS,
{
}

} // verus!
