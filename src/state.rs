use vstd::prelude::*;
use vstd::rwlock::{RwLock, RwLockPredicate};

use crate::layout::LayoutMode;

verus! {

/// Whether storing `new_mode` over `current` is a change, and so is announced.
pub open spec fn is_change(current: LayoutMode, new_mode: LayoutMode) -> bool {
    current != new_mode
}

/// The number of change notifications that a run of `set` calls fires, one
/// value after another, starting from the stored value `start`.
pub open spec fn notifications(start: LayoutMode, updates: Seq<LayoutMode>) -> nat
    decreases updates.len(),
{
    if updates.len() == 0 {
        0
    } else {
        (if is_change(start, updates[0]) {
            1nat
        } else {
            0nat
        }) + notifications(updates[0], updates.drop_first())
    }
}

/// The stored value after a run of `set` calls starting from `start`.
pub open spec fn mode_after(start: LayoutMode, updates: Seq<LayoutMode>) -> LayoutMode {
    if updates.len() == 0 {
        start
    } else {
        updates.last()
    }
}

/// The last known layout mode, with the de-duplicating update rule.
/// Each `true` returned by `set` stands for one change notification.
pub struct LayoutState {
    pub mode: LayoutMode,
}

impl View for LayoutState {
    type V = LayoutMode;

    open spec fn view(&self) -> LayoutMode {
        self.mode
    }
}

impl LayoutState {
    pub fn new(mode: LayoutMode) -> (s: LayoutState)
        ensures
            s@ == mode,
    {
        LayoutState { mode }
    }

    /// The stored mode.
    pub fn current(&self) -> (m: LayoutMode)
        ensures
            m == self@,
    {
        self.mode
    }

    /// Stores `new_mode`; returns whether that changed the stored value, which
    /// is when a change notification is owed. An equal value is a no-op.
    pub fn set(&mut self, new_mode: LayoutMode) -> (changed: bool)
        ensures
            final(self)@ == new_mode,
            changed == is_change(old(self)@, new_mode),
    {
        if new_mode != self.mode {
            self.mode = new_mode;
            true
        } else {
            false
        }
    }
}

impl Default for LayoutState {
    fn default() -> (s: LayoutState)
        ensures
            s@ == LayoutMode::Float,
    {
        LayoutState { mode: LayoutMode::Float }
    }
}

/// Setting a value twice in a row, when it differs from the stored one,
/// announces exactly one change, and leaves that value stored.
pub proof fn lemma_repeated_set_notifies_once(stored: LayoutMode, m: LayoutMode)
    requires
        stored != m,
    ensures
        notifications(stored, seq![m, m]) == 1,
        mode_after(stored, seq![m, m]) == m,
{
    assert(seq![m, m].drop_first() =~= seq![m]);
    assert(seq![m].drop_first() =~= Seq::<LayoutMode>::empty());
    assert(notifications(m, Seq::<LayoutMode>::empty()) == 0);
    assert(notifications(m, seq![m]) == 0);
}

/// Setting the value that is already stored announces nothing and changes
/// nothing.
pub proof fn lemma_set_same_is_silent(m: LayoutMode)
    ensures
        notifications(m, seq![m]) == 0,
        mode_after(m, seq![m]) == m,
{
    assert(seq![m].drop_first() =~= Seq::<LayoutMode>::empty());
    assert(notifications(m, Seq::<LayoutMode>::empty()) == 0);
}

/// Any number of updates that all carry the same value `v`, from whichever
/// refresh path they come, announce one change if `v` differs from the stored
/// value and none otherwise: not one per caller.
pub proof fn lemma_same_value_updates_notify_at_most_once(start: LayoutMode, v: LayoutMode, n: nat)
    requires
        n >= 1,
    ensures
        notifications(start, Seq::new(n, |i: int| v)) == (if start != v {
            1nat
        } else {
            0nat
        }),
        mode_after(start, Seq::new(n, |i: int| v)) == v,
    decreases n,
{
    let s = Seq::new(n, |i: int| v);
    if n == 1 {
        assert(s.drop_first() =~= Seq::<LayoutMode>::empty());
        assert(notifications(v, Seq::<LayoutMode>::empty()) == 0);
    } else {
        assert(s.drop_first() =~= Seq::new((n - 1) as nat, |i: int| v));
        lemma_same_value_updates_notify_at_most_once(v, v, (n - 1) as nat);
    }
    assert(s[0] == v);
}

/// The lock's invariant: every stored state is valid.
pub struct AnyLayout;

impl RwLockPredicate<LayoutState> for AnyLayout {
    open spec fn inv(self, s: LayoutState) -> bool {
        true
    }
}

/// The layout state shared by the refresh paths, the toggle path and the
/// readers. Every read and every update happens under its lock, so readers
/// only ever see a value that some writer stored whole.
pub struct YabaiState {
    pub(crate) lock: RwLock<LayoutState, AnyLayout>,
}

impl YabaiState {
    pub fn new(mode: LayoutMode) -> (s: YabaiState) {
        YabaiState { lock: RwLock::new(LayoutState::new(mode), Ghost(AnyLayout)) }
    }

    /// A snapshot of the stored mode, read under the lock.
    pub fn current(&self) -> LayoutMode {
        let handle = self.lock.acquire_read();
        let m = handle.borrow().current();
        handle.release_read();
        m
    }

    /// `LayoutState::set` under the lock: stores `new_mode` and returns whether
    /// that was a change, which the caller announces once the lock is released.
    pub fn set(&self, new_mode: LayoutMode) -> bool {
        let (mut s, handle) = self.lock.acquire_write();
        let changed = s.set(new_mode);
        handle.release_write(s);
        changed
    }
}

} // verus!
