use vstd::prelude::*;
use crate::pin::{IoError, PinDirection, PinHandle};

verus! {

/// Where a guarded session stands.
#[derive(Clone, Copy, Debug, PartialEq, Eq, Structural)]
pub enum Phase {
    Exporting,
    Configuring,
    Working,
    Unexporting,
    Done,
}

/// Why a guarded session failed.
#[derive(Clone, Debug)]
pub enum SessionError {
    /// The line could not be claimed; nothing else was attempted.
    ExportFailed(IoError),
    /// The direction could not be set; the line was released afterwards.
    ConfigFailed(IoError),
    /// The unit of work failed; the line was released afterwards.
    WorkFailed(IoError),
    /// Everything before succeeded, but releasing the line failed.
    UnexportFailed(IoError),
    /// The direction or the work failed (first), and then releasing the line
    /// failed too (second).
    Composite(IoError, IoError),
}

/// What the driver of a session must do next.
#[derive(Clone, Copy, Debug, PartialEq, Eq, Structural)]
pub enum SessionAction {
    Export,
    Configure(PinDirection),
    RunWork,
    Unexport,
    Finish,
}

/// A guarded session on one line: export, configure, run the work, and
/// release the line whatever happened after the export succeeded.
///
/// The session decides; its driver performs each action it asks for and hands
/// back the outcome through `advance`.
#[derive(Debug)]
pub struct Session {
    pub pin: PinHandle,
    pub direction: PinDirection,
    pub phase: Phase,
    /// A failure of the direction or of the work, kept until the line is released.
    pub pending: Option<SessionError>,
    /// The session's result, once it is done.
    pub outcome: Option<Result<(), SessionError>>,
    /// Whether the line is exported by this session and not yet released.
    pub holds_export: bool,
}

pub open spec fn initial_session(pin: PinHandle, direction: PinDirection) -> Session {
    Session {
        pin,
        direction,
        phase: Phase::Exporting,
        pending: None,
        outcome: None,
        holds_export: false,
    }
}

/// The action a session in state `s` asks for.
pub open spec fn action_of(s: Session) -> SessionAction {
    match s.phase {
        Phase::Exporting => SessionAction::Export,
        Phase::Configuring => SessionAction::Configure(s.direction),
        Phase::Working => SessionAction::RunWork,
        Phase::Unexporting => SessionAction::Unexport,
        Phase::Done => SessionAction::Finish,
    }
}

/// The session's result when releasing the line ended with `released`, after
/// the earlier failure `pending`, if any.
pub open spec fn result_after_release(
    pending: Option<SessionError>,
    released: Result<(), IoError>,
) -> Result<(), SessionError> {
    match released {
        Ok(_) => match pending {
            None => Ok(()),
            Some(p) => Err(p),
        },
        Err(u) => match pending {
            None => Err(SessionError::UnexportFailed(u)),
            Some(SessionError::ConfigFailed(e)) => Err(SessionError::Composite(e, u)),
            Some(SessionError::WorkFailed(e)) => Err(SessionError::Composite(e, u)),
            Some(p) => Err(p),
        },
    }
}

/// The state after the action of `s` came back with `out`.
pub open spec fn step(s: Session, out: Result<(), IoError>) -> Session {
    match s.phase {
        Phase::Exporting => match out {
            Ok(_) => Session { phase: Phase::Configuring, holds_export: true, ..s },
            Err(e) => Session {
                phase: Phase::Done,
                outcome: Some(Err(SessionError::ExportFailed(e))),
                ..s
            },
        },
        Phase::Configuring => match out {
            Ok(_) => Session { phase: Phase::Working, ..s },
            Err(e) => Session {
                phase: Phase::Unexporting,
                pending: Some(SessionError::ConfigFailed(e)),
                ..s
            },
        },
        Phase::Working => match out {
            Ok(_) => Session { phase: Phase::Unexporting, ..s },
            Err(e) => Session {
                phase: Phase::Unexporting,
                pending: Some(SessionError::WorkFailed(e)),
                ..s
            },
        },
        Phase::Unexporting => Session {
            phase: Phase::Done,
            outcome: Some(result_after_release(s.pending, out)),
            pending: None,
            holds_export: out is Err,
            ..s
        },
        Phase::Done => s,
    }
}

/// Whether releasing the line ended a session with result `r` and left the
/// line exported.
pub open spec fn release_failed(r: Result<(), SessionError>) -> bool {
    match r {
        Err(SessionError::UnexportFailed(_)) => true,
        Err(SessionError::Composite(_, _)) => true,
        _ => false,
    }
}

impl Session {
    /// The states a session created by `new` and moved by `advance` can be in.
    pub open spec fn wf(&self) -> bool {
        match self.phase {
            Phase::Exporting => !self.holds_export && self.pending is None && self.outcome is None,
            Phase::Configuring | Phase::Working => self.holds_export && self.pending is None
                && self.outcome is None,
            Phase::Unexporting => self.holds_export && self.outcome is None && match self.pending {
                None => true,
                Some(SessionError::ConfigFailed(_)) => true,
                Some(SessionError::WorkFailed(_)) => true,
                _ => false,
            },
            Phase::Done => self.pending is None && self.outcome is Some
                && self.holds_export == release_failed(self.outcome->0),
        }
    }

    pub fn new(pin: PinHandle, direction: PinDirection) -> (s: Session)
        ensures
            s == initial_session(pin, direction),
            s.wf(),
    {
        Session {
            pin,
            direction,
            phase: Phase::Exporting,
            pending: None,
            outcome: None,
            holds_export: false,
        }
    }

    /// The action this session asks for now.
    pub fn action(&self) -> (a: SessionAction)
        ensures
            a == action_of(*self),
    {
        match self.phase {
            Phase::Exporting => SessionAction::Export,
            Phase::Configuring => SessionAction::Configure(self.direction),
            Phase::Working => SessionAction::RunWork,
            Phase::Unexporting => SessionAction::Unexport,
            Phase::Done => SessionAction::Finish,
        }
    }

    pub fn is_finished(&self) -> (r: bool)
        ensures
            r == (self.phase == Phase::Done),
    {
        match self.phase {
            Phase::Done => true,
            _ => false,
        }
    }

    /// Takes the outcome of the last action asked for and returns the next one.
    /// Once the session is done, outcomes are ignored and it keeps asking to finish.
    pub fn advance(&mut self, out: Result<(), IoError>) -> (a: SessionAction)
        ensures
            *final(self) == step(*old(self), out),
            a == action_of(*final(self)),
            old(self).wf() ==> final(self).wf(),
    {
        match self.phase {
            Phase::Exporting => match out {
                Ok(_) => {
                    self.phase = Phase::Configuring;
                    self.holds_export = true;
                },
                Err(e) => {
                    self.phase = Phase::Done;
                    self.outcome = Some(Err(SessionError::ExportFailed(e)));
                },
            },
            Phase::Configuring => match out {
                Ok(_) => {
                    self.phase = Phase::Working;
                },
                Err(e) => {
                    self.phase = Phase::Unexporting;
                    self.pending = Some(SessionError::ConfigFailed(e));
                },
            },
            Phase::Working => match out {
                Ok(_) => {
                    self.phase = Phase::Unexporting;
                },
                Err(e) => {
                    self.phase = Phase::Unexporting;
                    self.pending = Some(SessionError::WorkFailed(e));
                },
            },
            Phase::Unexporting => {
                let pending = self.pending.take();
                self.holds_export = out.is_err();
                let result = match out {
                    Ok(_) => match pending {
                        None => Ok(()),
                        Some(p) => Err(p),
                    },
                    Err(u) => match pending {
                        None => Err(SessionError::UnexportFailed(u)),
                        Some(SessionError::ConfigFailed(e)) => Err(SessionError::Composite(e, u)),
                        Some(SessionError::WorkFailed(e)) => Err(SessionError::Composite(e, u)),
                        Some(p) => Err(p),
                    },
                };
                self.phase = Phase::Done;
                self.outcome = Some(result);
            },
            Phase::Done => {},
        }
        self.action()
    }

    /// The session's result: `None` until it is done.
    pub fn into_result(self) -> (r: Option<Result<(), SessionError>>)
        ensures
            r == self.outcome,
            self.wf() && self.phase == Phase::Done ==> r is Some,
    {
        self.outcome
    }
}

/// The state reached from `s` when the actions asked for come back with `outs`, in order.
pub open spec fn run(s: Session, outs: Seq<Result<(), IoError>>) -> Session
    decreases outs.len(),
{
    if outs.len() == 0 {
        s
    } else {
        run(step(s, outs[0]), outs.drop_first())
    }
}

/// The actions asked for from `s` on, while the outcomes `outs` come back in order.
pub open spec fn trace(s: Session, outs: Seq<Result<(), IoError>>) -> Seq<SessionAction>
    decreases outs.len(),
{
    if outs.len() == 0 {
        seq![action_of(s)]
    } else {
        seq![action_of(s)] + trace(step(s, outs[0]), outs.drop_first())
    }
}

/// How many times `a` occurs in `acts`.
pub open spec fn occurrences(acts: Seq<SessionAction>, a: SessionAction) -> nat
    decreases acts.len(),
{
    if acts.len() == 0 {
        0
    } else {
        (if acts[0] == a { 1nat } else { 0nat }) + occurrences(acts.drop_first(), a)
    }
}

proof fn lemma_occurrences_prepend(x: SessionAction, t: Seq<SessionAction>, a: SessionAction)
    ensures
        occurrences(seq![x] + t, a) == (if x == a { 1nat } else { 0nat }) + occurrences(t, a),
{
    let c = seq![x] + t;
    assert(c.drop_first() =~= t);
}

proof fn lemma_step_wf(s: Session, out: Result<(), IoError>)
    requires
        s.wf(),
    ensures
        step(s, out).wf(),
{
}

proof fn lemma_run_wf(s: Session, outs: Seq<Result<(), IoError>>)
    requires
        s.wf(),
    ensures
        run(s, outs).wf(),
    decreases outs.len(),
{
    if outs.len() > 0 {
        lemma_step_wf(s, outs[0]);
        lemma_run_wf(step(s, outs[0]), outs.drop_first());
    }
}

/// Counts of exports and unexports asked for from any state on.
proof fn lemma_trace_counts(s: Session, outs: Seq<Result<(), IoError>>)
    ensures
        occurrences(trace(s, outs), SessionAction::Export) == (if s.phase == Phase::Exporting {
            1nat
        } else {
            0nat
        }),
        occurrences(trace(s, outs), SessionAction::Unexport) <= 1,
        s.phase == Phase::Done ==> occurrences(trace(s, outs), SessionAction::Unexport) == 0,
        s.phase == Phase::Unexporting ==> occurrences(trace(s, outs), SessionAction::Unexport)
            == 1,
        s.phase != Phase::Exporting && run(s, outs).phase == Phase::Done ==> occurrences(
            trace(s, outs),
            SessionAction::Unexport,
        ) == (if s.phase == Phase::Done { 0nat } else { 1nat }),
        s.phase == Phase::Exporting && run(s, outs).phase == Phase::Done ==> occurrences(
            trace(s, outs),
            SessionAction::Unexport,
        ) == (if outs[0] is Ok { 1nat } else { 0nat }),
    decreases outs.len(),
{
    if outs.len() > 0 {
        let n = step(s, outs[0]);
        lemma_trace_counts(n, outs.drop_first());
        lemma_occurrences_prepend(action_of(s), trace(n, outs.drop_first()), SessionAction::Export);
        lemma_occurrences_prepend(
            action_of(s),
            trace(n, outs.drop_first()),
            SessionAction::Unexport,
        );
    } else {
        lemma_occurrences_prepend(action_of(s), Seq::empty(), SessionAction::Export);
        lemma_occurrences_prepend(action_of(s), Seq::empty(), SessionAction::Unexport);
        assert(seq![action_of(s)] + Seq::<SessionAction>::empty() =~= seq![action_of(s)]);
    }
}

/// Export and unexport are paired: whatever outcomes the driver reports (a
/// work that succeeds, fails or is aborted, failing interface calls), a new
/// session asks to export exactly once and to unexport at most once; and once
/// it is done it has asked to unexport exactly once if the export succeeded,
/// and never if it failed.
pub proof fn lemma_export_unexport_paired(
    pin: PinHandle,
    direction: PinDirection,
    outs: Seq<Result<(), IoError>>,
)
    ensures
        occurrences(trace(initial_session(pin, direction), outs), SessionAction::Export) == 1,
        occurrences(trace(initial_session(pin, direction), outs), SessionAction::Unexport) <= 1,
        run(initial_session(pin, direction), outs).phase == Phase::Done ==> outs.len() > 0
            && occurrences(trace(initial_session(pin, direction), outs), SessionAction::Unexport)
            == (if outs[0] is Ok { 1nat } else { 0nat }),
{
    lemma_trace_counts(initial_session(pin, direction), outs);
}

/// A failing unit of work does not leak the export: a session whose work
/// failed ends with that failure only after it has released the line, so the
/// line is free for the next export on the same index.
pub proof fn lemma_work_failure_releases(
    pin: PinHandle,
    direction: PinDirection,
    outs: Seq<Result<(), IoError>>,
)
    requires
        run(initial_session(pin, direction), outs).outcome matches Some(
            Err(SessionError::WorkFailed(_)),
        ),
    ensures
        run(initial_session(pin, direction), outs).phase == Phase::Done,
        !run(initial_session(pin, direction), outs).holds_export,
        occurrences(trace(initial_session(pin, direction), outs), SessionAction::Unexport) == 1,
{
    let s0 = initial_session(pin, direction);
    lemma_run_wf(s0, outs);
    lemma_trace_counts(s0, outs);
    if outs.len() > 0 && outs[0] is Err {
        lemma_done_stays(step(s0, outs[0]), outs.drop_first());
    }
}

proof fn lemma_done_stays(s: Session, outs: Seq<Result<(), IoError>>)
    requires
        s.phase == Phase::Done,
    ensures
        run(s, outs) == s,
    decreases outs.len(),
{
    if outs.len() > 0 {
        lemma_done_stays(step(s, outs[0]), outs.drop_first());
    }
}

} // verus!
