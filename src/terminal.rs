//! Raw-mode bookkeeping and the terminal size reply.
//!
//! The host owns the process-wide lock and the terminal calls. Under the lock
//! it starts an operation with `enable_raw_mode` or `disable_raw_mode`,
//! performs each requested action, and hands its outcome to
//! `raw_mode_reply` until the answer is `ModeAction::Done`.
use vstd::prelude::*;

verus! {

/// Errors of the terminal layer.
#[derive(Clone, Copy, Debug, PartialEq, Eq, Structural)]
pub enum TermError {
    /// An operating-system error, by its code.
    Io(i32),
    /// The terminal cannot answer the request.
    Unsupported,
    /// A readiness report for a channel that was never registered.
    UnknownChannel,
    /// A reply that does not answer the pending request.
    OutOfOrder,
}

/// A terminal mode: the four flag words and the control characters.
#[derive(Clone, Copy, Debug)]
pub struct TerminalMode {
    pub input_flags: u32,
    pub output_flags: u32,
    pub control_flags: u32,
    pub local_flags: u32,
    pub control_chars: [u8; 32],
}

/// Where a raw-mode operation stands.
#[derive(Clone, Copy, Debug)]
pub enum ModePhase {
    Idle,
    /// Enabling: waiting for the current mode.
    Querying,
    /// Enabling: waiting for the raw variant of this mode to be applied.
    Applying(TerminalMode),
    /// Disabling: waiting for the saved mode to be applied again.
    Restoring,
}

/// What the host is to do next.
#[derive(Clone, Copy, Debug)]
pub enum ModeAction {
    /// The operation is over, with this outcome.
    Done(Result<(), TermError>),
    /// Read the terminal's current mode.
    QueryMode,
    /// Apply the raw variant of this mode.
    ApplyRaw(TerminalMode),
    /// Apply this mode as it is.
    Restore(TerminalMode),
}

/// The outcome of an action, as the host reports it.
#[derive(Clone, Copy, Debug)]
pub enum ModeReply {
    Queried(Result<TerminalMode, i32>),
    Applied(Result<(), i32>),
}

/// The raw-mode snapshot: the mode to restore, present exactly while raw
/// mode is on, and the operation in progress.
pub struct RawModeState {
    saved: Option<TerminalMode>,
    phase: ModePhase,
}

/// Abstract raw-mode state.
pub struct ModeModel {
    pub saved: Option<TerminalMode>,
    pub phase: ModePhase,
}

impl View for RawModeState {
    type V = ModeModel;

    closed spec fn view(&self) -> ModeModel {
        ModeModel { saved: self.saved, phase: self.phase }
    }
}

pub open spec fn done_ok() -> ModeAction {
    ModeAction::Done(Ok(()))
}

pub open spec fn enable_spec(m: ModeModel) -> (ModeModel, ModeAction) {
    match m.saved {
        Some(_) => (ModeModel { saved: m.saved, phase: ModePhase::Idle }, done_ok()),
        None => (ModeModel { saved: None, phase: ModePhase::Querying }, ModeAction::QueryMode),
    }
}

pub open spec fn disable_spec(m: ModeModel) -> (ModeModel, ModeAction) {
    match m.saved {
        Some(t) => (ModeModel { saved: m.saved, phase: ModePhase::Restoring }, ModeAction::Restore(t)),
        None => (ModeModel { saved: None, phase: ModePhase::Idle }, done_ok()),
    }
}

/// Effect of a reply: a queried mode is applied in raw form; a successful
/// application stores the snapshot (enabling) or clears it (disabling); a
/// failure ends the operation with the snapshot as it was.
pub open spec fn reply_spec(m: ModeModel, reply: ModeReply) -> (ModeModel, ModeAction) {
    let idle = |saved: Option<TerminalMode>| ModeModel { saved, phase: ModePhase::Idle };
    match (m.phase, reply) {
        (ModePhase::Querying, ModeReply::Queried(Ok(t))) => (
            ModeModel { saved: m.saved, phase: ModePhase::Applying(t) },
            ModeAction::ApplyRaw(t),
        ),
        (ModePhase::Applying(t), ModeReply::Applied(Ok(()))) => (idle(Some(t)), done_ok()),
        (ModePhase::Restoring, ModeReply::Applied(Ok(()))) => (idle(None), done_ok()),
        (ModePhase::Querying, ModeReply::Queried(Err(e))) => (
            idle(m.saved),
            ModeAction::Done(Err(TermError::Io(e))),
        ),
        (ModePhase::Applying(_), ModeReply::Applied(Err(e))) => (
            idle(m.saved),
            ModeAction::Done(Err(TermError::Io(e))),
        ),
        (ModePhase::Restoring, ModeReply::Applied(Err(e))) => (
            idle(m.saved),
            ModeAction::Done(Err(TermError::Io(e))),
        ),
        _ => (idle(m.saved), ModeAction::Done(Err(TermError::OutOfOrder))),
    }
}

impl RawModeState {
    /// Raw mode off, nothing in progress.
    pub fn new() -> (r: Self)
        ensures
            r@.saved.is_none(),
            r@.phase is Idle,
    {
        RawModeState { saved: None, phase: ModePhase::Idle }
    }
}

/// Whether raw mode is on, that is whether a snapshot is held.
pub fn is_raw_mode_enabled(state: &RawModeState) -> (r: bool)
    ensures
        r == state@.saved.is_some(),
{
    state.saved.is_some()
}

/// Starts enabling raw mode; finishes at once where it is on already.
pub fn enable_raw_mode(state: &mut RawModeState) -> (r: ModeAction)
    ensures
        (final(state)@, r) == enable_spec(old(state)@),
{
    if state.saved.is_some() {
        state.phase = ModePhase::Idle;
        ModeAction::Done(Ok(()))
    } else {
        state.phase = ModePhase::Querying;
        ModeAction::QueryMode
    }
}

/// Starts disabling raw mode; finishes at once where it is off.
pub fn disable_raw_mode(state: &mut RawModeState) -> (r: ModeAction)
    ensures
        (final(state)@, r) == disable_spec(old(state)@),
{
    match state.saved {
        Some(t) => {
            state.phase = ModePhase::Restoring;
            ModeAction::Restore(t)
        },
        None => {
            state.phase = ModePhase::Idle;
            ModeAction::Done(Ok(()))
        },
    }
}

/// Takes the outcome of the last requested action.
pub fn raw_mode_reply(state: &mut RawModeState, reply: ModeReply) -> (r: ModeAction)
    ensures
        (final(state)@, r) == reply_spec(old(state)@, reply),
{
    let phase = state.phase;
    match (phase, reply) {
        (ModePhase::Querying, ModeReply::Queried(Ok(t))) => {
            state.phase = ModePhase::Applying(t);
            ModeAction::ApplyRaw(t)
        },
        (ModePhase::Applying(t), ModeReply::Applied(Ok(()))) => {
            state.saved = Some(t);
            state.phase = ModePhase::Idle;
            ModeAction::Done(Ok(()))
        },
        (ModePhase::Restoring, ModeReply::Applied(Ok(()))) => {
            state.saved = None;
            state.phase = ModePhase::Idle;
            ModeAction::Done(Ok(()))
        },
        (ModePhase::Querying, ModeReply::Queried(Err(e))) => {
            state.phase = ModePhase::Idle;
            ModeAction::Done(Err(TermError::Io(e)))
        },
        (ModePhase::Applying(_), ModeReply::Applied(Err(e))) => {
            state.phase = ModePhase::Idle;
            ModeAction::Done(Err(TermError::Io(e)))
        },
        (ModePhase::Restoring, ModeReply::Applied(Err(e))) => {
            state.phase = ModePhase::Idle;
            ModeAction::Done(Err(TermError::Io(e)))
        },
        _ => {
            state.phase = ModePhase::Idle;
            ModeAction::Done(Err(TermError::OutOfOrder))
        },
    }
}

/// Enabling twice is enabling once: after a successful enable that captured
/// mode `t`, a second enable asks the terminal nothing, succeeds, and keeps
/// the snapshot `t`.
pub proof fn law_enable_idempotent(start: ModeModel, t: TerminalMode)
    requires
        start.saved.is_none(),
    ensures
        ({
            let (m1, a1) = enable_spec(start);
            let (m2, a2) = reply_spec(m1, ModeReply::Queried(Ok(t)));
            let (m3, a3) = reply_spec(m2, ModeReply::Applied(Ok(())));
            let (m4, a4) = enable_spec(m3);
            &&& a1 == ModeAction::QueryMode
            &&& a2 == ModeAction::ApplyRaw(t)
            &&& a3 == done_ok()
            &&& m3.saved == Some(t)
            &&& a4 == done_ok()
            &&& m4 == m3
        }),
{
}

/// Enabling then disabling restores the mode that was found: the mode that
/// disabling applies is exactly the mode read when enabling, and afterwards
/// no snapshot is held.
pub proof fn law_restore_round_trip(start: ModeModel, t: TerminalMode)
    requires
        start.saved.is_none(),
    ensures
        ({
            let (m1, _a1) = enable_spec(start);
            let (m2, _a2) = reply_spec(m1, ModeReply::Queried(Ok(t)));
            let (m3, _a3) = reply_spec(m2, ModeReply::Applied(Ok(())));
            let (m4, a4) = disable_spec(m3);
            let (m5, a5) = reply_spec(m4, ModeReply::Applied(Ok(())));
            &&& a4 == ModeAction::Restore(t)
            &&& a5 == done_ok()
            &&& m5.saved.is_none()
            &&& m5.phase is Idle
        }),
{
}

/// Error code of a function that the host does not implement.
pub const ERRNO_NOSYS: i32 = 52;

/// Error code of an operation that the host does not support.
pub const ERRNO_NOTSUP: i32 = 58;

/// Checks a window-size reply: both counts must be positive. Where the host
/// has no size query, the error is `Unsupported`.
pub fn size_from_query(reply: Result<(u16, u16), i32>) -> (r: Result<(u16, u16), TermError>)
    ensures
        match reply {
            Err(e) => if e == ERRNO_NOSYS || e == ERRNO_NOTSUP {
                r == Err::<(u16, u16), TermError>(TermError::Unsupported)
            } else {
                r == Err::<(u16, u16), TermError>(TermError::Io(e))
            },
            Ok((c, w)) => if c > 0 && w > 0 {
                r == Ok::<(u16, u16), TermError>((c, w))
            } else {
                r == Err::<(u16, u16), TermError>(TermError::Unsupported)
            },
        },
{
    match reply {
        Err(e) => if e == ERRNO_NOSYS || e == ERRNO_NOTSUP {
            Err(TermError::Unsupported)
        } else {
            Err(TermError::Io(e))
        },
        Ok((c, w)) => if c > 0 && w > 0 {
            Ok((c, w))
        } else {
            Err(TermError::Unsupported)
        },
    }
}

} // verus!
