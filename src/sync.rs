use vstd::prelude::*;

use crate::error::LayoutError;
use crate::layout::{mode_of_name, opposite, LayoutMode};
use crate::response::{layout_of_response, reply_valid, str_field};
use crate::state::{is_change, LayoutState, YabaiState};

verus! {

/// A refresh, from the periodic poller or from a desktop-change event: the
/// queried mode is stored; a failed query leaves the state as it was.
/// `Ok(true)` means a change notification is owed.
pub fn refresh(state: &mut LayoutState, queried: Result<LayoutMode, LayoutError>) -> (r: Result<
    bool,
    LayoutError,
>)
    ensures
        match queried {
            Ok(m) => final(state)@ == m && r == Ok::<bool, LayoutError>(is_change(old(state)@, m)),
            Err(e) => final(state)@ == old(state)@ && r == Err::<bool, LayoutError>(e),
        },
{
    match queried {
        Ok(m) => Ok(state.set(m)),
        Err(e) => Err(e),
    }
}

/// The mode that a user toggle asks the window manager for: the opposite of
/// the stored one, never the stored one itself.
pub fn toggle_target(state: &LayoutState) -> (target: LayoutMode)
    ensures
        target == opposite(state@),
        target != state@,
{
    state.current().toggled()
}

/// Ends a toggle once the window manager has answered. Only a successful
/// application is stored; a failure leaves the state unchanged and is
/// handed back. `Ok(true)` means a change notification is owed.
pub fn finish_toggle(
    state: &mut LayoutState,
    target: LayoutMode,
    applied: Result<(), LayoutError>,
) -> (r: Result<bool, LayoutError>)
    ensures
        match applied {
            Ok(()) => final(state)@ == target && r == Ok::<bool, LayoutError>(
                is_change(old(state)@, target),
            ),
            Err(e) => final(state)@ == old(state)@ && r == Err::<bool, LayoutError>(e),
        },
{
    match applied {
        Ok(()) => Ok(state.set(target)),
        Err(e) => Err(e),
    }
}

/// The outcome of a request to change the layout: the control program must
/// start and exit with success.
pub fn apply_outcome(started: bool, exited_ok: bool) -> (r: Result<(), LayoutError>)
    ensures
        !started ==> r == Err::<(), LayoutError>(LayoutError::Spawn),
        started && !exited_ok ==> r == Err::<(), LayoutError>(LayoutError::Apply),
        started && exited_ok ==> r is Ok,
{
    if !started {
        Err(LayoutError::Spawn)
    } else if !exited_ok {
        Err(LayoutError::Apply)
    } else {
        Ok(())
    }
}

/// The outcome of a query of the active desktop: the control program must
/// start, exit with success and print a reply that decodes (`reply` is `None`
/// when its output is not text).
pub fn query_outcome(started: bool, exited_ok: bool, reply: Option<&str>) -> (r: Result<
    LayoutMode,
    LayoutError,
>)
    ensures
        !started ==> r == Err::<LayoutMode, LayoutError>(LayoutError::Spawn),
        started && !exited_ok ==> r == Err::<LayoutMode, LayoutError>(LayoutError::Query),
        started && exited_ok && reply is None ==> r == Err::<LayoutMode, LayoutError>(
            LayoutError::Parse,
        ),
        started && exited_ok && reply is Some ==> {
            let t = reply.unwrap();
            &&& r is Ok <==> reply_valid(t@)
            &&& r matches Ok(m) ==> Some(m) == mode_of_name(str_field(t@, "type"@).unwrap())
            &&& r matches Err(e) ==> e == LayoutError::Parse
        },
{
    if !started {
        Err(LayoutError::Spawn)
    } else if !exited_ok {
        Err(LayoutError::Query)
    } else {
        match reply {
            Some(t) => layout_of_response(t),
            None => Err(LayoutError::Parse),
        }
    }
}

impl YabaiState {
    /// `refresh` on the state, under the write lock: the queried mode is
    /// stored, a failed query stores nothing. `Ok(true)` means a change
    /// notification is owed.
    pub fn update(&self, queried: Result<LayoutMode, LayoutError>) -> (r: Result<bool, LayoutError>)
        ensures
            r is Ok <==> queried is Ok,
            queried matches Err(e) ==> r == Err::<bool, LayoutError>(e),
    {
        let (mut s, handle) = self.lock.acquire_write();
        let r = refresh(&mut s, queried);
        handle.release_write(s);
        r
    }

    /// `toggle_target` on a snapshot of the state, under the read lock.
    pub fn toggle_target(&self) -> (target: LayoutMode) {
        let handle = self.lock.acquire_read();
        let target = toggle_target(handle.borrow());
        handle.release_read();
        target
    }

    /// `finish_toggle` on the state, under the write lock: nothing is stored
    /// unless `applied` is `Ok`.
    pub fn finish_toggle(&self, target: LayoutMode, applied: Result<(), LayoutError>) -> (r: Result<
        bool,
        LayoutError,
    >)
        ensures
            r is Ok <==> applied is Ok,
            applied matches Err(e) ==> r == Err::<bool, LayoutError>(e),
    {
        let (mut s, handle) = self.lock.acquire_write();
        let r = finish_toggle(&mut s, target, applied);
        handle.release_write(s);
        r
    }
}

} // verus!
