//! The raise protocol, stated over a model of the window manager's focus
//! state.
//!
//! The protocol raises a window in three steps: (a) inject a no-op input
//! event directed at the calling process, so the anti-focus-stealing rule —
//! only a process that recently received input may take the foreground —
//! is satisfied without elevated privileges; (b) ask for the target to be
//! moved to the top of the Z-order without changing its position, a
//! best-effort step whose failure is ignored, since some windows reject
//! Z-order changes harmlessly; (c) transfer the foreground to the target —
//! failure here is the operation's real failure and is surfaced. The model
//! encodes exactly the focus rule the protocol relies on: a foreground
//! transfer succeeds when the caller recently received input or when the
//! target is the foreground window already, and nothing changes on failure.

use vstd::prelude::*;

verus! {

/// Why a raise failed: the window manager refused the foreground transfer.
#[derive(Clone, Copy, Debug, PartialEq, Eq, Structural)]
pub enum RaiseError {
    FocusRefused,
}

/// The focus state the raise protocol acts on: which window holds the
/// foreground, which window tops the Z-order, and whether the calling
/// process counts as having recently received input.
#[derive(Clone, Copy, Debug, PartialEq, Eq, Structural)]
pub struct FocusModel {
    pub foreground: u64,
    pub top_of_z_order: u64,
    pub recent_input: bool,
}

/// Injecting a self-directed input event marks the process as having
/// recently received input; the windows are untouched.
pub open spec fn spec_inject_self_input(m: FocusModel) -> FocusModel {
    FocusModel { recent_input: true, ..m }
}

/// The best-effort Z-order step: the target tops the Z-order when the
/// window accepts the change, and nothing changes when it rejects it.
pub open spec fn spec_set_topmost(m: FocusModel, handle: u64, accepted: bool) -> FocusModel {
    if accepted {
        FocusModel { top_of_z_order: handle, ..m }
    } else {
        m
    }
}

/// The foreground transfer: it succeeds when the caller recently received
/// input, or when the target holds the foreground already; success consumes
/// the recent-input mark. On failure nothing changes.
pub open spec fn spec_set_foreground(m: FocusModel, handle: u64) -> (FocusModel, bool) {
    if m.recent_input || m.foreground == handle {
        (FocusModel { foreground: handle, recent_input: false, ..m }, true)
    } else {
        (m, false)
    }
}

/// The whole protocol: inject, best-effort topmost, foreground transfer.
pub open spec fn spec_raise(m: FocusModel, handle: u64, topmost_accepted: bool) -> (
    FocusModel,
    bool,
) {
    spec_set_foreground(spec_set_topmost(spec_inject_self_input(m), handle, topmost_accepted), handle)
}

impl FocusModel {
    /// A focus state with the given foreground window, which also tops the
    /// Z-order, and no recent input.
    pub fn new(foreground: u64) -> (r: FocusModel)
        ensures
            r == (FocusModel { foreground, top_of_z_order: foreground, recent_input: false }),
    {
        FocusModel { foreground, top_of_z_order: foreground, recent_input: false }
    }

    /// Step (a): mark the process as having recently received input.
    pub fn inject_self_input(&mut self)
        ensures
            *final(self) == spec_inject_self_input(*old(self)),
    {
        self.recent_input = true;
    }

    /// Step (b): move the target to the top of the Z-order, best effort;
    /// `accepted` says whether the window accepts the change.
    pub fn set_topmost(&mut self, handle: u64, accepted: bool) -> (r: Result<(), RaiseError>)
        ensures
            *final(self) == spec_set_topmost(*old(self), handle, accepted),
            r is Ok <==> accepted,
    {
        if accepted {
            self.top_of_z_order = handle;
            Ok(())
        } else {
            Err(RaiseError::FocusRefused)
        }
    }

    /// Step (c): transfer the foreground to the target.
    pub fn set_foreground(&mut self, handle: u64) -> (r: Result<(), RaiseError>)
        ensures
            *final(self) == spec_set_foreground(*old(self), handle).0,
            r is Ok <==> spec_set_foreground(*old(self), handle).1,
    {
        if self.recent_input || self.foreground == handle {
            self.foreground = handle;
            self.recent_input = false;
            Ok(())
        } else {
            Err(RaiseError::FocusRefused)
        }
    }

    /// The whole protocol against this focus state. The result of the
    /// Z-order step is ignored; the result of the foreground transfer is
    /// surfaced — and because the injection precedes it, the transfer
    /// succeeds and the target ends up foreground.
    pub fn raise(&mut self, handle: u64, topmost_accepted: bool) -> (r: Result<(), RaiseError>)
        ensures
            *final(self) == spec_raise(*old(self), handle, topmost_accepted).0,
            r is Ok <==> spec_raise(*old(self), handle, topmost_accepted).1,
            r is Ok,
            final(self).foreground == handle,
    {
        self.inject_self_input();
        let _ = self.set_topmost(handle, topmost_accepted);
        self.set_foreground(handle)
    }
}

/// Raising is idempotent: raising `h` twice in immediate succession cannot
/// fail, and both calls leave the same window — `h` itself — holding the
/// foreground. In particular a raise of a window that is foreground already
/// does not error and does not move the foreground elsewhere.
pub proof fn lemma_raise_idempotent(m: FocusModel, handle: u64, t1: bool, t2: bool)
    ensures
        ({
            let (m1, ok1) = spec_raise(m, handle, t1);
            let (m2, ok2) = spec_raise(m1, handle, t2);
            ok1 && ok2 && m1.foreground == handle && m2.foreground == handle && m2.foreground
                == m1.foreground
        }),
{
}

/// A foreground transfer aimed at the window that is foreground already
/// succeeds on its own, without the input-injection step, and leaves the
/// foreground where it was.
pub proof fn lemma_refocus_foreground(m: FocusModel, handle: u64)
    requires
        m.foreground == handle,
    ensures
        spec_set_foreground(m, handle).1,
        spec_set_foreground(m, handle).0.foreground == m.foreground,
{
}

} // verus!
