//! Admission control for sync-class operations.
//!
//! Two kinds of operation contend for the document tree: a cloud sync and a
//! direct filesystem operation. At most one of them may be in flight at a time.
//! A caller asks for admission and is either admitted, and handed a token that
//! resets its flag later, or told at once which kind of operation is in the
//! way. Nobody is queued and nobody waits.

use vstd::prelude::*;
use crate::models::app_state::AppState;

verus! {

/// The two kinds of operation that contend for the document tree.
#[derive(Clone, Copy, Debug, PartialEq, Eq, Structural)]
pub enum SyncKind {
    /// A cloud synchronisation (`setup` or `sync`).
    Cloud,
    /// A direct filesystem operation on the document tree.
    Fs,
}

/// The pair of flags that says which kind of operation is in flight.
#[derive(Clone, Copy, Debug, PartialEq, Eq, Structural)]
pub struct SyncFlags {
    /// A cloud sync is in flight.
    pub cloud_syncing: bool,
    /// A filesystem operation is in flight.
    pub fs_busy: bool,
}

/// Proof of admission. It is handed out by a successful admission and handed
/// back to reset the flag; it cannot be copied.
#[derive(Debug, PartialEq, Eq)]
pub struct ReleaseToken {
    kind: SyncKind,
}

/// The answer to a request for admission.
#[derive(Debug, PartialEq, Eq)]
pub enum Admission {
    /// The caller may proceed and must hand the token back when it is done.
    Admitted(ReleaseToken),
    /// An operation of the given kind is in flight; try again later.
    Busy(SyncKind),
}

impl Admission {
    /// The kind that was admitted, or `None` for a caller that was turned away.
    pub open spec fn admitted_kind(self) -> Option<SyncKind> {
        match self {
            Admission::Admitted(token) => Some(token.kind()),
            Admission::Busy(_) => None,
        }
    }
}

impl ReleaseToken {
    /// The kind of operation that this token admitted.
    pub closed spec fn kind(self) -> SyncKind {
        self.kind
    }

    /// The kind of operation that this token admitted.
    pub fn admitted_kind(&self) -> (k: SyncKind)
        ensures
            k == self.kind(),
    {
        self.kind
    }
}

impl SyncFlags {
    /// Both flags clear.
    pub open spec fn idle() -> SyncFlags {
        SyncFlags { cloud_syncing: false, fs_busy: false }
    }

    /// At most one of the two flags is set.
    pub open spec fn wf(self) -> bool {
        !(self.cloud_syncing && self.fs_busy)
    }

    /// The kind of operation that stands in the way of a newcomer, if any.
    /// A cloud sync in flight is reported before a filesystem operation.
    pub open spec fn contender(self) -> Option<SyncKind> {
        if self.cloud_syncing {
            Some(SyncKind::Cloud)
        } else if self.fs_busy {
            Some(SyncKind::Fs)
        } else {
            None
        }
    }

    /// The flags with the one for `kind` set.
    pub open spec fn claimed(self, kind: SyncKind) -> SyncFlags {
        match kind {
            SyncKind::Cloud => SyncFlags { cloud_syncing: true, ..self },
            SyncKind::Fs => SyncFlags { fs_busy: true, ..self },
        }
    }

    /// The flags with the one for `kind` clear.
    pub open spec fn released(self, kind: SyncKind) -> SyncFlags {
        match kind {
            SyncKind::Cloud => SyncFlags { cloud_syncing: false, ..self },
            SyncKind::Fs => SyncFlags { fs_busy: false, ..self },
        }
    }

    /// Flags with nothing in flight.
    pub fn new() -> (flags: SyncFlags)
        ensures
            flags == SyncFlags::idle(),
    {
        SyncFlags { cloud_syncing: false, fs_busy: false }
    }
}

/// One thing that can happen to the flags: somebody asks for admission, or the
/// holder of a token hands it back.
pub enum CoordinatorEvent {
    TryAdmit(SyncKind),
    Release(SyncKind),
}

/// The flags together with a count, per kind, of the operations that were
/// admitted and have not yet handed their token back.
pub struct Ledger {
    pub flags: SyncFlags,
    pub cloud_in_flight: nat,
    pub fs_in_flight: nat,
}

impl Ledger {
    /// Nothing in flight.
    pub open spec fn start() -> Ledger {
        Ledger { flags: SyncFlags::idle(), cloud_in_flight: 0, fs_in_flight: 0 }
    }

    /// The number of tokens of `kind` that are out.
    pub open spec fn in_flight(self, kind: SyncKind) -> nat {
        match kind {
            SyncKind::Cloud => self.cloud_in_flight,
            SyncKind::Fs => self.fs_in_flight,
        }
    }

    /// The ledger after one event. A request for admission goes as
    /// `SyncCoordinator::try_admit` decides; a token can be handed back only
    /// while one of its kind is out, so a release without one changes nothing.
    pub open spec fn step(self, event: CoordinatorEvent) -> Ledger {
        match event {
            CoordinatorEvent::TryAdmit(kind) => {
                if self.flags.contender() is None {
                    match kind {
                        SyncKind::Cloud => Ledger {
                            flags: self.flags.claimed(kind),
                            cloud_in_flight: self.cloud_in_flight + 1,
                            ..self
                        },
                        SyncKind::Fs => Ledger {
                            flags: self.flags.claimed(kind),
                            fs_in_flight: self.fs_in_flight + 1,
                            ..self
                        },
                    }
                } else {
                    self
                }
            },
            CoordinatorEvent::Release(kind) => {
                if self.in_flight(kind) > 0 {
                    match kind {
                        SyncKind::Cloud => Ledger {
                            flags: self.flags.released(kind),
                            cloud_in_flight: (self.cloud_in_flight - 1) as nat,
                            ..self
                        },
                        SyncKind::Fs => Ledger {
                            flags: self.flags.released(kind),
                            fs_in_flight: (self.fs_in_flight - 1) as nat,
                            ..self
                        },
                    }
                } else {
                    self
                }
            },
        }
    }

    /// The ledger after a whole history of events, oldest first.
    pub open spec fn replay(history: Seq<CoordinatorEvent>) -> Ledger
        decreases history.len(),
    {
        if history.len() == 0 {
            Ledger::start()
        } else {
            Ledger::replay(history.drop_last()).step(history.last())
        }
    }

    /// At most one operation is in flight, and each flag is set exactly while
    /// an operation of its kind is.
    pub open spec fn exclusive(self) -> bool {
        &&& self.cloud_in_flight + self.fs_in_flight <= 1
        &&& self.flags.cloud_syncing <==> self.cloud_in_flight == 1
        &&& self.flags.fs_busy <==> self.fs_in_flight == 1
    }
}

/// Mutual exclusion. Whatever the order in which callers ask for admission and
/// hand their tokens back, at most one admitted operation is in flight at any
/// moment, the two flags are never both set, and a caller is admitted only
/// while nothing else is in flight.
///
/// The premise is that of the ledger: a token goes back to the coordinator
/// that handed it out, and only its holder hands it back, once. A token is
/// only ever made by an admission and cannot be copied, but nothing ties it
/// to one coordinator, so a program with several coordinators has to keep
/// their tokens apart.
pub proof fn lemma_admission_is_exclusive(history: Seq<CoordinatorEvent>)
    ensures
        Ledger::replay(history).exclusive(),
        Ledger::replay(history).flags.wf(),
        forall|kind: SyncKind|
            Ledger::replay(history).step(CoordinatorEvent::TryAdmit(kind)).in_flight(kind)
                > Ledger::replay(history).in_flight(kind) ==> Ledger::replay(history).in_flight(
                SyncKind::Cloud,
            ) + Ledger::replay(history).in_flight(SyncKind::Fs) == 0,
    decreases history.len(),
{
    if history.len() > 0 {
        lemma_admission_is_exclusive(history.drop_last());
    }
}

/// The keeper of the flags. It hands the flags out to nobody, so that they
/// change only by an admission or by a token that comes back, and are never
/// both set. Every call is one step: the program that shares a coordinator
/// between its threads puts it behind a lock of its own and holds the lock
/// for one call at a time.
#[derive(Debug, PartialEq, Eq)]
pub struct SyncCoordinator {
    flags: SyncFlags,
}

impl Clone for SyncCoordinator {
    /// A coordinator of its own that starts from the same flags.
    fn clone(&self) -> (copy: Self)
        ensures
            copy@ == self@,
    {
        proof {
            use_type_invariant(self);
        }
        SyncCoordinator { flags: self.flags }
    }
}

impl View for SyncCoordinator {
    type V = SyncFlags;

    closed spec fn view(&self) -> SyncFlags {
        self.flags
    }
}

impl SyncCoordinator {
    #[verifier::type_invariant]
    spec fn never_both(self) -> bool {
        self.flags.wf()
    }

    /// A coordinator with nothing in flight.
    pub fn new() -> (coordinator: Self)
        ensures
            coordinator@ == SyncFlags::idle(),
    {
        SyncCoordinator { flags: SyncFlags::new() }
    }

    /// Asks for admission without waiting for a flag to clear.
    ///
    /// The caller is admitted exactly when nothing is in flight: the flag of
    /// its kind is then set and it gets the token that resets it. Otherwise
    /// nothing changes, and the answer names the kind of operation that is in
    /// the way, a cloud sync before a filesystem operation.
    pub fn try_admit(&mut self, kind: SyncKind) -> (admission: Admission)
        ensures
            match old(self)@.contender() {
                Some(contender) => admission == Admission::Busy(contender)
                    && final(self)@ == old(self)@,
                None => admission.admitted_kind() == Some(kind)
                    && final(self)@ == old(self)@.claimed(kind),
            },
    {
        proof {
            use_type_invariant(&*self);
        }
        if self.flags.cloud_syncing {
            Admission::Busy(SyncKind::Cloud)
        } else if self.flags.fs_busy {
            Admission::Busy(SyncKind::Fs)
        } else {
            self.flags = match kind {
                SyncKind::Cloud => SyncFlags { cloud_syncing: true, fs_busy: false },
                SyncKind::Fs => SyncFlags { cloud_syncing: false, fs_busy: true },
            };
            Admission::Admitted(ReleaseToken { kind })
        }
    }

    /// Hands a token back and so resets the flag that it claimed. The other
    /// flag is left alone. A token belongs to the coordinator that handed it
    /// out and goes back to that one, once: the flag of its kind is reset
    /// whoever set it.
    pub fn release(&mut self, token: ReleaseToken)
        ensures
            final(self)@ == old(self)@.released(token.kind()),
    {
        proof {
            use_type_invariant(&*self);
        }
        self.flags = match token.kind {
            SyncKind::Cloud => SyncFlags { cloud_syncing: false, fs_busy: self.flags.fs_busy },
            SyncKind::Fs => SyncFlags { cloud_syncing: self.flags.cloud_syncing, fs_busy: false },
        };
    }

    /// The two flags as they stand: cloud first, filesystem second. They are
    /// never both set.
    pub fn observe(&self) -> (observed: (bool, bool))
        ensures
            observed == (self@.cloud_syncing, self@.fs_busy),
            !(observed.0 && observed.1),
    {
        proof {
            use_type_invariant(self);
        }
        (self.flags.cloud_syncing, self.flags.fs_busy)
    }
}

/// Checks whether a cloud sync or a filesystem operation is in progress.
/// Returns the cloud flag first and the filesystem flag second, as the
/// coordinator of `state` holds them; they are never both set.
pub fn check_cloud_or_fs_is_syncing(state: AppState) -> (sync_state: (bool, bool))
    ensures
        sync_state == (state.sync_flags@.cloud_syncing, state.sync_flags@.fs_busy),
        !(sync_state.0 && sync_state.1),
{
    state.sync_flags.observe()
}

} // verus!
